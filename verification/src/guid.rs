//! 16-byte globally unique identifiers, stored as their raw bytes.
use vstd::prelude::*;
use crate::bytes::{Reader, write_all};
use crate::error::Error;

verus! {

broadcast use vstd::array::group_array_axioms;

/// A GUID as the 16 bytes that the save stores for it.
#[derive(Clone, Copy, Debug, PartialEq, Eq, Hash)]
pub struct Guid {
    pub bytes: [u8; 16],
}

/// The GUID formed by the first 16 bytes of `s`.
pub open spec fn guid_from(s: Seq<u8>) -> Guid {
    Guid {
        bytes: [
            s[0], s[1], s[2], s[3], s[4], s[5], s[6], s[7],
            s[8], s[9], s[10], s[11], s[12], s[13], s[14], s[15],
        ],
    }
}

/// Parse of a GUID at the start of `s`.
pub open spec fn parse_guid(s: Seq<u8>) -> Option<(Guid, int)> {
    if s.len() >= 16 { Some((guid_from(s), 16)) } else { None }
}

/// Encoding of a GUID: its 16 bytes.
pub open spec fn ser_guid(g: Guid) -> Seq<u8> {
    g.bytes@
}

impl Guid {
    /// A GUID made of the given bytes.
    pub fn from_bytes(bytes: [u8; 16]) -> (g: Guid)
        ensures
            g.bytes == bytes,
    {
        Guid { bytes }
    }

    /// The all-zero GUID.
    pub fn zero() -> (g: Guid)
        ensures
            g.bytes@ == Seq::new(16, |i: int| 0u8),
    {
        let g = Guid { bytes: [0u8, 0, 0, 0, 0, 0, 0, 0, 0, 0, 0, 0, 0, 0, 0, 0] };
        assert(g.bytes@ =~= Seq::new(16, |i: int| 0u8));
        g
    }

    /// Reads 16 bytes as a GUID.
    pub fn read(r: &mut Reader) -> (res: Result<Guid, Error>)
        requires
            old(r).valid(),
        ensures
            final(r).valid(),
            final(r).data() == old(r).data(),
            match parse_guid(old(r).rest()) {
                Some((g, n)) => res == Ok::<Guid, Error>(g) && final(r).position() == old(r).position() + n
                    && final(r).rest() == old(r).rest().skip(n),
                None => res == Err::<Guid, Error>(Error::UnexpectedEof),
            },
    {
        let b = r.read_bytes(16)?;
        let g = Guid {
            bytes: [
                b[0], b[1], b[2], b[3], b[4], b[5], b[6], b[7],
                b[8], b[9], b[10], b[11], b[12], b[13], b[14], b[15],
            ],
        };
        assert(g.bytes =~= guid_from(old(r).rest()).bytes);
        Ok(g)
    }

    /// Appends the 16 bytes.
    pub fn write(&self, out: &mut Vec<u8>)
        ensures
            final(out)@ == old(out)@ + ser_guid(*self),
    {
        write_all(out, self.bytes.as_slice());
    }
}

/// The bytes of a GUID parse back to it, whatever follows.
pub broadcast proof fn lemma_guid_roundtrip(g: Guid, rest: Seq<u8>)
    ensures
        #[trigger] parse_guid(ser_guid(g) + rest) == Some((g, 16int)),
        #[trigger] ser_guid(g).len() == 16,
{
    let s = ser_guid(g) + rest;
    assert(g.bytes@.len() == 16);
    assert(guid_from(s).bytes =~= g.bytes);
}

/// Sixteen bytes, read as a GUID and written again, are unchanged.
pub proof fn lemma_guid_reencode(s: Seq<u8>)
    requires
        s.len() >= 16,
    ensures
        ser_guid(guid_from(s)) == s.take(16),
{
    assert(ser_guid(guid_from(s)) =~= s.take(16));
}

/// The sixteen bytes at offset `a` hold the GUID read there.
pub proof fn lemma_guid_at(s: Seq<u8>, a: int)
    requires
        0 <= a,
        a + 16 <= s.len(),
    ensures
        parse_guid(s.skip(a)) is Some,
        ser_guid((parse_guid(s.skip(a))->0).0) == s.subrange(a, a + 16),
{
    assert(ser_guid(guid_from(s.skip(a))) =~= s.subrange(a, a + 16));
}

} // verus!
