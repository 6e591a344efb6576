//! Guild research and guild storage.
use vstd::prelude::*;
use crate::bytes::{Reader, parse_u32, le_u32, write_u32, write_all, lemma_u32_at};
use crate::error::Error;
use crate::fstring::{parse_fstring, fstring_error, ser_fstring, fstring_ok, fstring_writable, read_string, write_string};
use crate::guid::{Guid, parse_guid, ser_guid, lemma_guid_at};
use crate::repeat::{parse_repeat, repeat_error, ser_repeat, lemma_repeat_error, lemma_repeat_roundtrip, lemma_assoc};

verus! {

broadcast use
    crate::bytes::group_codec,
    crate::guid::lemma_guid_roundtrip,
    crate::fstring::lemma_fstring_roundtrip,
    crate::fstring::lemma_fstring_bounds,
    crate::repeat::lemma_skip_skip,
;

/// Progress on one research. `work_amount` is the bit pattern of an IEEE-754 single.
#[derive(Debug, PartialEq, Eq)]
pub struct PalLabResearchInfo {
    pub research_id: String,
    pub work_amount: u32,
}

/// Model of [`PalLabResearchInfo`].
pub ghost struct PalLabResearchInfoView {
    pub research_id: Seq<char>,
    pub work_amount: u32,
}

impl View for PalLabResearchInfo {
    type V = PalLabResearchInfoView;

    open spec fn view(&self) -> PalLabResearchInfoView {
        PalLabResearchInfoView { research_id: self.research_id@, work_amount: self.work_amount }
    }
}

/// A guild's research lab; the bytes after the current research id are kept as they are.
#[derive(Debug, PartialEq, Eq)]
pub struct PalGuildLab {
    pub research_info: Vec<PalLabResearchInfo>,
    pub current_research_id: String,
    pub trailing_bytes: Vec<u8>,
}

/// Model of [`PalGuildLab`].
pub ghost struct PalGuildLabView {
    pub research_info: Seq<PalLabResearchInfoView>,
    pub current_research_id: Seq<char>,
    pub trailing_bytes: Seq<u8>,
}

/// The models of a sequence of research records.
pub open spec fn research_views(v: Seq<PalLabResearchInfo>) -> Seq<PalLabResearchInfoView> {
    v.map_values(|x: PalLabResearchInfo| x@)
}

impl View for PalGuildLab {
    type V = PalGuildLabView;

    open spec fn view(&self) -> PalGuildLabView {
        PalGuildLabView {
            research_info: research_views(self.research_info@),
            current_research_id: self.current_research_id@,
            trailing_bytes: self.trailing_bytes@,
        }
    }
}

/// A guild's item storage: its container id and the rest of the payload as it is.
#[derive(Debug, PartialEq, Eq)]
pub struct PalGuildItemStorage {
    pub container_id: Guid,
    pub trailing_bytes: Vec<u8>,
}

/// Model of [`PalGuildItemStorage`].
pub ghost struct PalGuildItemStorageView {
    pub container_id: Guid,
    pub trailing_bytes: Seq<u8>,
}

impl View for PalGuildItemStorage {
    type V = PalGuildItemStorageView;

    open spec fn view(&self) -> PalGuildItemStorageView {
        PalGuildItemStorageView { container_id: self.container_id, trailing_bytes: self.trailing_bytes@ }
    }
}

/// Parse of a research record: an `FString` and a single.
pub open spec fn parse_lab_research_info(s: Seq<u8>) -> Option<(PalLabResearchInfoView, int)> {
    match parse_fstring(s) {
        None => None,
        Some((id, n)) => match parse_u32(s.skip(n)) {
            None => None,
            Some((w, _)) => Some((PalLabResearchInfoView { research_id: id, work_amount: w }, n + 4)),
        },
    }
}

/// Why a research record fails to parse: its id's error, or else too few bytes.
pub open spec fn lab_research_info_error(s: Seq<u8>) -> Error {
    match parse_fstring(s) {
        None => fstring_error(s),
        Some(_) => Error::UnexpectedEof,
    }
}

/// [`lab_research_info_error`] as a value.
pub open spec fn lab_research_info_errors() -> spec_fn(Seq<u8>) -> Error {
    |t: Seq<u8>| lab_research_info_error(t)
}

/// Encoding of a research record.
pub open spec fn ser_lab_research_info(v: PalLabResearchInfoView) -> Seq<u8> {
    ser_fstring(v.research_id) + le_u32(v.work_amount)
}

/// [`parse_lab_research_info`] as a value.
pub open spec fn lab_research_info_parser() -> spec_fn(Seq<u8>) -> Option<(PalLabResearchInfoView, int)> {
    |t: Seq<u8>| parse_lab_research_info(t)
}

/// [`ser_lab_research_info`] as a value.
pub open spec fn lab_research_info_writer() -> spec_fn(PalLabResearchInfoView) -> Seq<u8> {
    |v: PalLabResearchInfoView| ser_lab_research_info(v)
}

/// Parse of a lab: counted research records, the current research id, then all remaining bytes.
pub open spec fn parse_guild_lab(s: Seq<u8>) -> Option<PalGuildLabView> {
    match parse_u32(s) {
        None => None,
        Some((count, _)) => match parse_repeat(lab_research_info_parser(), s.skip(4), count as nat) {
            None => None,
            Some((infos, n)) => match parse_fstring(s.skip(4).skip(n)) {
                None => None,
                Some((cur, m)) => Some(PalGuildLabView {
                    research_info: infos,
                    current_research_id: cur,
                    trailing_bytes: s.skip(4).skip(n).skip(m),
                }),
            },
        },
    }
}

/// Why a lab fails to parse: too few bytes for its count, the error of the
/// first research record that does not parse, or the current id's error.
pub open spec fn guild_lab_error(s: Seq<u8>) -> Error {
    match parse_u32(s) {
        None => Error::UnexpectedEof,
        Some((count, _)) => match parse_repeat(lab_research_info_parser(), s.skip(4), count as nat) {
            None => repeat_error(lab_research_info_parser(), lab_research_info_errors(), s.skip(4), count as nat),
            Some((_, n)) => fstring_error(s.skip(4).skip(n)),
        },
    }
}

/// Encoding of a lab.
pub open spec fn ser_guild_lab(v: PalGuildLabView) -> Seq<u8> {
    le_u32(v.research_info.len() as u32) + ser_repeat(lab_research_info_writer(), v.research_info)
        + ser_fstring(v.current_research_id) + v.trailing_bytes
}

/// Labs that the encoding carries unchanged.
pub open spec fn guild_lab_ok(v: PalGuildLabView) -> bool {
    &&& v.research_info.len() <= u32::MAX
    &&& forall|i: int| 0 <= i < v.research_info.len() ==> fstring_ok(#[trigger] v.research_info[i].research_id)
    &&& fstring_ok(v.current_research_id)
}

/// Labs that can be written: every count and string fits its field.
pub open spec fn guild_lab_writable(v: PalGuildLabView) -> bool {
    &&& v.research_info.len() <= u32::MAX
    &&& forall|i: int| 0 <= i < v.research_info.len() ==> fstring_writable(#[trigger] v.research_info[i].research_id)
    &&& fstring_writable(v.current_research_id)
}

/// Parse of guild item storage: a GUID, then all remaining bytes.
pub open spec fn parse_guild_item_storage(s: Seq<u8>) -> Option<PalGuildItemStorageView> {
    match parse_guid(s) {
        None => None,
        Some((g, _)) => Some(PalGuildItemStorageView { container_id: g, trailing_bytes: s.skip(16) }),
    }
}

/// Encoding of guild item storage.
pub open spec fn ser_guild_item_storage(v: PalGuildItemStorageView) -> Seq<u8> {
    ser_guid(v.container_id) + v.trailing_bytes
}

impl PalLabResearchInfo {
    /// Reads a research record.
    pub fn read(r: &mut Reader) -> (res: Result<Self, Error>)
        requires
            old(r).valid(),
        ensures
            final(r).valid(),
            final(r).data() == old(r).data(),
            match parse_lab_research_info(old(r).rest()) {
                Some((v, n)) => res matches Ok(x) && x@ == v && final(r).position() == old(r).position() + n
                    && final(r).rest() == old(r).rest().skip(n),
                None => res == Err::<Self, Error>(lab_research_info_error(old(r).rest())),
            },
    {
        let research_id = read_string(r)?;
        let work_amount = r.read_u32()?;
        Ok(PalLabResearchInfo { research_id, work_amount })
    }

    /// Writes a research record.
    pub fn write(&self, out: &mut Vec<u8>)
        requires
            fstring_writable(self.research_id@),
        ensures
            final(out)@ == old(out)@ + ser_lab_research_info(self@),
    {
        write_string(out, self.research_id.as_str());
        write_u32(out, self.work_amount);
        assert(out@ =~= old(out)@ + ser_lab_research_info(self@));
    }
}

impl PalGuildLab {
    /// Reads a lab, taking all of the remaining bytes.
    pub fn read(r: &mut Reader) -> (res: Result<Self, Error>)
        requires
            old(r).valid(),
        ensures
            final(r).valid(),
            final(r).data() == old(r).data(),
            match parse_guild_lab(old(r).rest()) {
                Some(v) => res matches Ok(x) && x@ == v && final(r).rest().len() == 0,
                None => res == Err::<Self, Error>(guild_lab_error(old(r).rest())),
            },
    {
        let count = r.read_u32()?;
        let ghost t = r.rest();
        let ghost p0 = r.position();
        let mut infos: Vec<PalLabResearchInfo> = Vec::new();
        let mut i: u32 = 0;
        while i < count
            invariant
                r.valid(),
                r.data() == old(r).data(),
                i <= count,
                parse_u32(old(r).rest()) == Some((count, 4int)),
                t == old(r).rest().skip(4),
                0 <= p0 <= r.position(),
                t == r.data().skip(p0),
                parse_repeat(lab_research_info_parser(), t, i as nat) == Some((research_views(infos@), r.position() - p0)),
                r.rest() == t.skip(r.position() - p0),
            decreases count - i,
        {
            let info = match PalLabResearchInfo::read(r) {
                Ok(x) => x,
                Err(e) => {
                    proof {
                        lemma_repeat_error(lab_research_info_parser(), lab_research_info_errors(), t, (i + 1) as nat, count as nat);
                    }
                    return Err(e);
                },
            };
            let ghost before = infos@;
            infos.push(info);
            assert(research_views(infos@) =~= research_views(before).push(info@));
            i = i + 1;
        }
        let current_research_id = read_string(r)?;
        let trailing_bytes = r.read_to_end();
        Ok(PalGuildLab { research_info: infos, current_research_id, trailing_bytes })
    }

    /// Writes a lab.
    pub fn write(&self, out: &mut Vec<u8>)
        requires
            guild_lab_writable(self@),
        ensures
            final(out)@ == old(out)@ + ser_guild_lab(self@),
    {
        write_u32(out, self.research_info.len() as u32);
        let ghost mid = out@;
        let ghost views = research_views(self.research_info@);
        let mut i: usize = 0;
        while i < self.research_info.len()
            invariant
                i <= self.research_info@.len(),
                views == research_views(self.research_info@),
                forall|j: int| 0 <= j < views.len() ==> fstring_writable(#[trigger] views[j].research_id),
                out@ == mid + ser_repeat(lab_research_info_writer(), views.take(i as int)),
            decreases self.research_info@.len() - i,
        {
            assert(fstring_writable(views[i as int].research_id));
            self.research_info[i].write(out);
            proof {
                assert(views.take(i + 1).drop_last() =~= views.take(i as int));
            }
            i = i + 1;
        }
        assert(views.take(i as int) =~= views);
        write_string(out, self.current_research_id.as_str());
        write_all(out, self.trailing_bytes.as_slice());
        assert(out@ =~= old(out)@ + ser_guild_lab(self@));
    }
}

impl PalGuildItemStorage {
    /// Reads guild item storage, taking all of the remaining bytes.
    pub fn read(r: &mut Reader) -> (res: Result<Self, Error>)
        requires
            old(r).valid(),
        ensures
            final(r).valid(),
            final(r).data() == old(r).data(),
            match parse_guild_item_storage(old(r).rest()) {
                Some(v) => res matches Ok(x) && x@ == v && final(r).rest().len() == 0,
                None => res == Err::<Self, Error>(Error::UnexpectedEof),
            },
    {
        let container_id = Guid::read(r)?;
        let trailing_bytes = r.read_to_end();
        Ok(PalGuildItemStorage { container_id, trailing_bytes })
    }

    /// Writes guild item storage.
    pub fn write(&self, out: &mut Vec<u8>)
        ensures
            final(out)@ == old(out)@ + ser_guild_item_storage(self@),
    {
        self.container_id.write(out);
        write_all(out, self.trailing_bytes.as_slice());
        assert(out@ =~= old(out)@ + ser_guild_item_storage(self@));
    }
}

/// A written research record reads back.
pub proof fn lemma_lab_research_info_roundtrip(v: PalLabResearchInfoView, rest: Seq<u8>)
    requires
        fstring_ok(v.research_id),
    ensures
        parse_lab_research_info(ser_lab_research_info(v) + rest) == Some((v, ser_lab_research_info(v).len() as int)),
{
    lemma_assoc(ser_fstring(v.research_id), le_u32(v.work_amount), rest);
}

/// A written lab reads back.
pub proof fn lemma_guild_lab_roundtrip(v: PalGuildLabView)
    requires
        guild_lab_ok(v),
    ensures
        parse_guild_lab(ser_guild_lab(v)) == Some(v),
{
    let p = lab_research_info_parser();
    let f = lab_research_info_writer();
    let ok = |x: PalLabResearchInfoView| fstring_ok(x.research_id);
    assert forall|x: PalLabResearchInfoView, r: Seq<u8>| ok(x) implies #[trigger] p(f(x) + r) == Some((x, f(x).len() as int)) by {
        lemma_lab_research_info_roundtrip(x, r);
    }
    assert forall|i: int| 0 <= i < v.research_info.len() implies #[trigger] ok(v.research_info[i]) by {
        assert(fstring_ok(v.research_info[i].research_id));
    }
    let tail = ser_fstring(v.current_research_id) + v.trailing_bytes;
    lemma_repeat_roundtrip(p, f, ok, v.research_info, tail);
    let c = le_u32(v.research_info.len() as u32);
    let items = ser_repeat(f, v.research_info);
    lemma_assoc(c + items, ser_fstring(v.current_research_id), v.trailing_bytes);
    lemma_assoc(c, items, tail);
    lemma_assoc(items, ser_fstring(v.current_research_id), v.trailing_bytes);
    let t = ser_guild_lab(v);
    assert(t.skip(4) == items + tail);
    assert((items + tail).skip(items.len() as int) == tail);
    assert(tail.skip(ser_fstring(v.current_research_id).len() as int) == v.trailing_bytes);
}

/// Written guild item storage reads back.
pub proof fn lemma_guild_item_storage_roundtrip(v: PalGuildItemStorageView)
    ensures
        parse_guild_item_storage(ser_guild_item_storage(v)) == Some(v),
{
}

/// A research record against its bytes: the research id, then the work
/// amount in the four bytes after it.
pub proof fn lemma_lab_research_info_layout(s: Seq<u8>)
    requires
        parse_lab_research_info(s) is Some,
    ensures
        ({
            let (v, k) = parse_lab_research_info(s)->0;
            let (id, n) = parse_fstring(s)->0;
            &&& v.research_id == id
            &&& le_u32(v.work_amount) == s.subrange(n, n + 4)
            &&& k == n + 4
        }),
{
    let n = (parse_fstring(s)->0).1;
    lemma_u32_at(s, n);
}

/// Guild item storage against its bytes: the container id (0..16), then
/// every byte after it kept as it is.
pub proof fn lemma_guild_item_storage_layout(s: Seq<u8>)
    requires
        parse_guild_item_storage(s) is Some,
    ensures
        ser_guid((parse_guild_item_storage(s)->0).container_id) == s.subrange(0, 16),
        (parse_guild_item_storage(s)->0).trailing_bytes == s.skip(16),
{
    lemma_guid_at(s, 0);
    assert(s.skip(0) =~= s);
}

/// A lab against its bytes: the count of research records (0..4), the
/// records from byte 4, then the current research id, then every byte
/// after it kept as it is.
pub proof fn lemma_guild_lab_layout(s: Seq<u8>)
    requires
        parse_guild_lab(s) is Some,
    ensures
        ({
            let v = parse_guild_lab(s)->0;
            let (infos, n) = parse_repeat(lab_research_info_parser(), s.skip(4), (parse_u32(s)->0).0 as nat)->0;
            let (cur, m) = parse_fstring(s.skip(4 + n))->0;
            &&& le_u32(v.research_info.len() as u32) == s.subrange(0, 4)
            &&& v.research_info == infos
            &&& v.current_research_id == cur
            &&& v.trailing_bytes == s.skip(4 + n + m)
        }),
{
    lemma_u32_at(s, 0);
    assert(s.skip(0) =~= s);
    let count = (parse_u32(s)->0).0;
    assert forall|t: Seq<u8>| #[trigger] lab_research_info_parser()(t) is Some implies 0 <= (lab_research_info_parser()(t)->0).1
        <= t.len() by {}
    crate::repeat::lemma_repeat_bounds(lab_research_info_parser(), s.skip(4), count as nat);
    let n = (parse_repeat(lab_research_info_parser(), s.skip(4), count as nat)->0).1;
    assert(s.skip(4).skip(n) =~= s.skip(4 + n));
    let m = (parse_fstring(s.skip(4 + n))->0).1;
    assert(s.skip(4 + n).skip(m) =~= s.skip(4 + n + m));
}

} // verus!
