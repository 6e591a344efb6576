//! Build progress of a map object.
use vstd::prelude::*;
use crate::bytes::{Reader, parse_u8, parse_bytes, write_u8, write_all};
use crate::error::Error;
use crate::guid::{Guid, parse_guid, ser_guid, lemma_guid_at};

verus! {

broadcast use crate::bytes::group_codec, crate::guid::lemma_guid_roundtrip, crate::repeat::lemma_skip_skip;

/// Build progress: a state byte, an id and four trailing bytes, filling the payload exactly.
#[derive(Debug, PartialEq, Eq)]
pub struct PalBuildProcess {
    pub state: u8,
    pub id: Guid,
    pub trailing_bytes: [u8; 4],
}

/// Model of [`PalBuildProcess`].
pub ghost struct PalBuildProcessView {
    pub state: u8,
    pub id: Guid,
    pub trailing_bytes: Seq<u8>,
}

impl View for PalBuildProcess {
    type V = PalBuildProcessView;

    open spec fn view(&self) -> PalBuildProcessView {
        PalBuildProcessView { state: self.state, id: self.id, trailing_bytes: self.trailing_bytes@ }
    }
}

/// Parse of a build process: exactly 21 bytes.
pub open spec fn parse_build_process(s: Seq<u8>) -> Option<PalBuildProcessView> {
    match parse_u8(s) {
        None => None,
        Some((state, _)) => match parse_guid(s.skip(1)) {
            None => None,
            Some((id, _)) => match parse_bytes(s.skip(1).skip(16), 4) {
                None => None,
                Some((tb, _)) => if s.len() == 21 {
                    Some(PalBuildProcessView { state, id, trailing_bytes: tb })
                } else {
                    None
                },
            },
        },
    }
}

/// Why a build process fails to parse: bytes beyond its 21, or too few.
pub open spec fn build_process_error(s: Seq<u8>) -> Error {
    if s.len() > 21 { Error::TrailingData } else { Error::UnexpectedEof }
}

/// Encoding of a build process.
pub open spec fn ser_build_process(v: PalBuildProcessView) -> Seq<u8> {
    seq![v.state] + ser_guid(v.id) + v.trailing_bytes
}

impl PalBuildProcess {
    /// Reads a build process, which must take all of the remaining bytes.
    pub fn read(r: &mut Reader) -> (res: Result<Self, Error>)
        requires
            old(r).valid(),
        ensures
            final(r).valid(),
            final(r).data() == old(r).data(),
            match parse_build_process(old(r).rest()) {
                Some(v) => res matches Ok(x) && x@ == v && final(r).rest().len() == 0,
                None => res == Err::<Self, Error>(build_process_error(old(r).rest())),
            },
    {
        let ghost s = r.rest();
        let state = r.read_u8()?;
        assert(r.rest().len() == s.len() - 1);
        let id = Guid::read(r)?;
        assert(r.rest().len() == s.len() - 17);
        let trailing_bytes = r.read_array::<4>()?;
        assert(r.rest().len() == s.len() - 21);
        let remaining = r.read_to_end();
        if remaining.len() > 0 {
            return Err(Error::TrailingData);
        }
        Ok(PalBuildProcess { state, id, trailing_bytes })
    }

    /// Writes a build process.
    pub fn write(&self, out: &mut Vec<u8>)
        ensures
            final(out)@ == old(out)@ + ser_build_process(self@),
    {
        write_u8(out, self.state);
        self.id.write(out);
        write_all(out, self.trailing_bytes.as_slice());
        assert(out@ =~= old(out)@ + ser_build_process(self@));
    }
}

/// A written build process reads back.
pub proof fn lemma_build_process_roundtrip(v: PalBuildProcessView)
    requires
        v.trailing_bytes.len() == 4,
    ensures
        parse_build_process(ser_build_process(v)) == Some(v),
{
    let e = Seq::<u8>::empty();
    assert(ser_build_process(v) =~= seq![v.state] + (ser_guid(v.id) + (v.trailing_bytes + e)));
}

/// A build process against its bytes: the state (byte 0), the id (1..17)
/// and four trailing bytes (17..21).
pub proof fn lemma_build_process_layout(s: Seq<u8>)
    requires
        parse_build_process(s) is Some,
    ensures
        (parse_build_process(s)->0).state == s[0],
        ser_guid((parse_build_process(s)->0).id) == s.subrange(1, 17),
        (parse_build_process(s)->0).trailing_bytes == s.subrange(17, 21),
{
    lemma_guid_at(s, 1);
    assert(s.skip(1).skip(16).take(4) =~= s.subrange(17, 21));
}

} // verus!
