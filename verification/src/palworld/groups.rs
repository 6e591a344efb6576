//! Groups (guilds and the like) and the characters they hold.
use vstd::prelude::*;
use crate::bytes::{Reader, parse_u32, le_u32, write_u32, write_all, lemma_u32_at};
use crate::error::Error;
use crate::fstring::{parse_fstring, fstring_error, ser_fstring, fstring_ok, fstring_writable, read_string, write_string};
use crate::guid::{Guid, parse_guid, ser_guid, lemma_guid_at};
use crate::palworld::types::{PalInstanceId, parse_instance_id, ser_instance_id, lemma_instance_id_roundtrip};
use crate::repeat::{parse_repeat, ser_repeat, lemma_repeat_fail, lemma_repeat_roundtrip, lemma_assoc};

verus! {

broadcast use
    crate::bytes::group_codec,
    crate::guid::lemma_guid_roundtrip,
    crate::fstring::lemma_fstring_roundtrip,
    crate::fstring::lemma_fstring_bounds,
    crate::repeat::lemma_skip_skip,
;

/// A group: its id and name, the handles of its characters, and the rest of
/// the payload kept as it is.
#[derive(Debug, PartialEq, Eq)]
pub struct PalGroupData {
    pub group_id: Guid,
    pub group_name: String,
    pub individual_character_handle_ids: Vec<PalInstanceId>,
    pub remaining_data: Vec<u8>,
}

/// Model of [`PalGroupData`].
pub ghost struct PalGroupDataView {
    pub group_id: Guid,
    pub group_name: Seq<char>,
    pub individual_character_handle_ids: Seq<PalInstanceId>,
    pub remaining_data: Seq<u8>,
}

impl View for PalGroupData {
    type V = PalGroupDataView;

    open spec fn view(&self) -> PalGroupDataView {
        PalGroupDataView {
            group_id: self.group_id,
            group_name: self.group_name@,
            individual_character_handle_ids: self.individual_character_handle_ids@,
            remaining_data: self.remaining_data@,
        }
    }
}

/// [`parse_instance_id`] as a value.
pub open spec fn instance_id_parser() -> spec_fn(Seq<u8>) -> Option<(PalInstanceId, int)> {
    |t: Seq<u8>| parse_instance_id(t)
}

/// [`ser_instance_id`] as a value.
pub open spec fn instance_id_writer() -> spec_fn(PalInstanceId) -> Seq<u8> {
    |v: PalInstanceId| ser_instance_id(v)
}

/// Parse of a group: id, name, counted handles, then all remaining bytes.
pub open spec fn parse_group_data(s: Seq<u8>) -> Option<PalGroupDataView> {
    match parse_guid(s) {
        None => None,
        Some((id, _)) => match parse_fstring(s.skip(16)) {
            None => None,
            Some((name, n)) => match parse_u32(s.skip(16).skip(n)) {
                None => None,
                Some((count, _)) => {
                    let t = s.skip(16).skip(n).skip(4);
                    match parse_repeat(instance_id_parser(), t, count as nat) {
                        None => None,
                        Some((ids, m)) => Some(PalGroupDataView {
                            group_id: id,
                            group_name: name,
                            individual_character_handle_ids: ids,
                            remaining_data: t.skip(m),
                        }),
                    }
                },
            },
        },
    }
}

/// Why a group fails to parse: its name's error, or else too few bytes.
pub open spec fn group_data_error(s: Seq<u8>) -> Error {
    if s.len() < 16 {
        Error::UnexpectedEof
    } else {
        match parse_fstring(s.skip(16)) {
            None => fstring_error(s.skip(16)),
            Some(_) => Error::UnexpectedEof,
        }
    }
}

/// Encoding of a group.
pub open spec fn ser_group_data(v: PalGroupDataView) -> Seq<u8> {
    ser_guid(v.group_id) + ser_fstring(v.group_name) + le_u32(v.individual_character_handle_ids.len() as u32)
        + ser_repeat(instance_id_writer(), v.individual_character_handle_ids) + v.remaining_data
}

/// Groups that the encoding carries unchanged.
pub open spec fn group_data_ok(v: PalGroupDataView) -> bool {
    fstring_ok(v.group_name) && v.individual_character_handle_ids.len() <= u32::MAX
}

/// Groups that can be written: the name and the count fit their fields.
pub open spec fn group_data_writable(v: PalGroupDataView) -> bool {
    fstring_writable(v.group_name) && v.individual_character_handle_ids.len() <= u32::MAX
}

impl PalGroupData {
    /// Reads a group, taking all of the remaining bytes.
    pub fn read(r: &mut Reader) -> (res: Result<Self, Error>)
        requires
            old(r).valid(),
        ensures
            final(r).valid(),
            final(r).data() == old(r).data(),
            match parse_group_data(old(r).rest()) {
                Some(v) => res matches Ok(x) && x@ == v && final(r).rest().len() == 0,
                None => res == Err::<Self, Error>(group_data_error(old(r).rest())),
            },
    {
        let group_id = Guid::read(r)?;
        let ghost s1 = r.rest();
        let group_name = read_string(r)?;
        let ghost n = r.position() - old(r).position() - 16;
        let count = r.read_u32()?;
        let ghost t = r.rest();
        let ghost p0 = r.position();
        let mut ids: Vec<PalInstanceId> = Vec::new();
        let mut i: u32 = 0;
        while i < count
            invariant
                r.valid(),
                r.data() == old(r).data(),
                i <= count,
                parse_guid(old(r).rest()) == Some((group_id, 16int)),
                parse_fstring(old(r).rest().skip(16)) == Some((group_name@, n)),
                parse_u32(old(r).rest().skip(16).skip(n)) == Some((count, 4int)),
                t == old(r).rest().skip(16).skip(n).skip(4),
                0 <= p0 <= r.position(),
                t == r.data().skip(p0),
                parse_repeat(instance_id_parser(), t, i as nat) == Some((ids@, r.position() - p0)),
                r.rest() == t.skip(r.position() - p0),
            decreases count - i,
        {
            let id = match PalInstanceId::read(r) {
                Ok(id) => id,
                Err(e) => {
                    proof {
                        lemma_repeat_fail(instance_id_parser(), t, (i + 1) as nat, count as nat);
                    }
                    return Err(e);
                },
            };
            ids.push(id);
            i = i + 1;
        }
        let remaining_data = r.read_to_end();
        Ok(PalGroupData { group_id, group_name, individual_character_handle_ids: ids, remaining_data })
    }

    /// Writes a group.
    pub fn write(&self, out: &mut Vec<u8>)
        requires
            group_data_writable(self@),
        ensures
            final(out)@ == old(out)@ + ser_group_data(self@),
    {
        self.group_id.write(out);
        write_string(out, self.group_name.as_str());
        write_u32(out, self.individual_character_handle_ids.len() as u32);
        let ghost mid = out@;
        let mut i: usize = 0;
        while i < self.individual_character_handle_ids.len()
            invariant
                i <= self.individual_character_handle_ids@.len(),
                out@ == mid + ser_repeat(instance_id_writer(), self.individual_character_handle_ids@.take(i as int)),
            decreases self.individual_character_handle_ids@.len() - i,
        {
            self.individual_character_handle_ids[i].write(out);
            proof {
                assert(self.individual_character_handle_ids@.take(i + 1).drop_last()
                    =~= self.individual_character_handle_ids@.take(i as int));
            }
            i = i + 1;
        }
        assert(self.individual_character_handle_ids@.take(i as int) =~= self.individual_character_handle_ids@);
        write_all(out, self.remaining_data.as_slice());
        assert(out@ =~= old(out)@ + ser_group_data(self@));
    }
}

/// A written group reads back.
pub proof fn lemma_group_data_roundtrip(v: PalGroupDataView)
    requires
        group_data_ok(v),
    ensures
        parse_group_data(ser_group_data(v)) == Some(v),
{
    let p = instance_id_parser();
    let f = instance_id_writer();
    let ok = |x: PalInstanceId| true;
    assert forall|x: PalInstanceId, r: Seq<u8>| ok(x) implies #[trigger] p(f(x) + r) == Some((x, f(x).len() as int)) by {
        lemma_instance_id_roundtrip(x, r);
    }
    lemma_repeat_roundtrip(p, f, ok, v.individual_character_handle_ids, v.remaining_data);
    let items = ser_repeat(f, v.individual_character_handle_ids);
    let a = ser_guid(v.group_id);
    let b = ser_fstring(v.group_name);
    let c = le_u32(v.individual_character_handle_ids.len() as u32);
    let t = items + v.remaining_data;
    lemma_assoc(a + b + c, items, v.remaining_data);
    lemma_assoc(a + b, c, t);
    lemma_assoc(a, b, c + t);
    assert(t.skip(items.len() as int) =~= v.remaining_data);
}

/// A group against its bytes: its id (0..16), its name from byte 16, the
/// count of character handles after the name, the handles, and every byte
/// after them kept as it is.
pub proof fn lemma_group_data_layout(s: Seq<u8>)
    requires
        parse_group_data(s) is Some,
    ensures
        ({
            let v = parse_group_data(s)->0;
            let (nm, n) = parse_fstring(s.skip(16))->0;
            &&& ser_guid(v.group_id) == s.subrange(0, 16)
            &&& v.group_name == nm
            &&& le_u32(v.individual_character_handle_ids.len() as u32) == s.subrange(16 + n, 20 + n)
            &&& v.individual_character_handle_ids == (parse_repeat(
                instance_id_parser(),
                s.skip(20 + n),
                (parse_u32(s.skip(16 + n))->0).0 as nat,
            )->0).0
        }),
{
    lemma_guid_at(s, 0);
    assert(s.skip(0) =~= s);
    let n = (parse_fstring(s.skip(16))->0).1;
    assert(s.skip(16).skip(n) =~= s.skip(16 + n));
    assert(s.skip(16).skip(n).skip(4) =~= s.skip(20 + n));
    lemma_u32_at(s, 16 + n);
    let count = (parse_u32(s.skip(16 + n))->0).0;
    assert forall|t: Seq<u8>| #[trigger] instance_id_parser()(t) is Some implies 0 <= (instance_id_parser()(t)->0).1
        <= t.len() by {}
    crate::repeat::lemma_repeat_bounds(instance_id_parser(), s.skip(20 + n), count as nat);
}

} // verus!
