//! Base camps.
use vstd::prelude::*;
use crate::bytes::{Reader, parse_u8, parse_u32, parse_bytes, le_u32, write_u8, write_u32, write_all, lemma_u32_at, lemma_subrange_shift};
use crate::error::Error;
use crate::fstring::{parse_fstring, fstring_error, ser_fstring, fstring_ok, fstring_writable, read_string, write_string};
use crate::guid::{Guid, parse_guid, ser_guid, guid_from, lemma_guid_at};
use crate::repeat::lemma_assoc;
use crate::palworld::types::{PalTransform, parse_transform, ser_transform, lemma_transform_layout};

verus! {

broadcast use
    crate::bytes::group_codec,
    crate::guid::lemma_guid_roundtrip,
    crate::fstring::lemma_fstring_roundtrip,
    crate::fstring::lemma_fstring_bounds,
    crate::repeat::lemma_skip_skip,
    crate::palworld::types::lemma_transform_roundtrip,
;

/// A base camp. `area_range` is the bit pattern of an IEEE-754 single.
#[derive(Debug, PartialEq, Eq)]
pub struct PalBaseCamp {
    pub id: Guid,
    pub name: String,
    pub state: u8,
    pub transform: PalTransform,
    pub area_range: u32,
    pub group_id_belong_to: Guid,
    pub fast_travel_local_transform: PalTransform,
    pub owner_map_object_instance_id: Guid,
    pub trailing_bytes: [u8; 4],
}

/// Model of [`PalBaseCamp`].
pub ghost struct PalBaseCampView {
    pub id: Guid,
    pub name: Seq<char>,
    pub state: u8,
    pub transform: PalTransform,
    pub area_range: u32,
    pub group_id_belong_to: Guid,
    pub fast_travel_local_transform: PalTransform,
    pub owner_map_object_instance_id: Guid,
    pub trailing_bytes: Seq<u8>,
}

impl View for PalBaseCamp {
    type V = PalBaseCampView;

    open spec fn view(&self) -> PalBaseCampView {
        PalBaseCampView {
            id: self.id,
            name: self.name@,
            state: self.state,
            transform: self.transform,
            area_range: self.area_range,
            group_id_belong_to: self.group_id_belong_to,
            fast_travel_local_transform: self.fast_travel_local_transform,
            owner_map_object_instance_id: self.owner_map_object_instance_id,
            trailing_bytes: self.trailing_bytes@,
        }
    }
}

/// The fields after the name, read one after another.
pub open spec fn parse_base_camp_tail(s: Seq<u8>, id: Guid, name: Seq<char>) -> Option<(PalBaseCampView, int)> {
    match parse_u8(s) {
        None => None,
        Some((state, _)) => {
            let s1 = s.skip(1);
            match parse_transform(s1) {
                None => None,
                Some((t, _)) => {
                    let s2 = s1.skip(80);
                    match parse_u32(s2) {
                        None => None,
                        Some((area, _)) => {
                            let s3 = s2.skip(4);
                            match parse_guid(s3) {
                                None => None,
                                Some((g, _)) => {
                                    let s4 = s3.skip(16);
                                    match parse_transform(s4) {
                                        None => None,
                                        Some((ft, _)) => {
                                            let s5 = s4.skip(80);
                                            match parse_guid(s5) {
                                                None => None,
                                                Some((o, _)) => match parse_bytes(s5.skip(16), 4) {
                                                    None => None,
                                                    Some((tb, _)) => Some((
                                                        PalBaseCampView {
                                                            id,
                                                            name,
                                                            state,
                                                            transform: t,
                                                            area_range: area,
                                                            group_id_belong_to: g,
                                                            fast_travel_local_transform: ft,
                                                            owner_map_object_instance_id: o,
                                                            trailing_bytes: tb,
                                                        },
                                                        201,
                                                    )),
                                                },
                                            }
                                        },
                                    }
                                },
                            }
                        },
                    }
                },
            }
        },
    }
}

/// Parse of a base camp.
pub open spec fn parse_base_camp(s: Seq<u8>) -> Option<(PalBaseCampView, int)> {
    match parse_guid(s) {
        None => None,
        Some((id, _)) => match parse_fstring(s.skip(16)) {
            None => None,
            Some((name, n)) => match parse_base_camp_tail(s.skip(16).skip(n), id, name) {
                None => None,
                Some((v, m)) => Some((v, 16 + n + m)),
            },
        },
    }
}

/// Why a base camp fails to parse: its name's error, or else too few bytes.
pub open spec fn base_camp_error(s: Seq<u8>) -> Error {
    if s.len() < 16 {
        Error::UnexpectedEof
    } else {
        match parse_fstring(s.skip(16)) {
            None => fstring_error(s.skip(16)),
            Some(_) => Error::UnexpectedEof,
        }
    }
}

/// Encoding of the fields after the name.
pub open spec fn ser_base_camp_tail(v: PalBaseCampView) -> Seq<u8> {
    seq![v.state] + (ser_transform(v.transform) + (le_u32(v.area_range) + (ser_guid(v.group_id_belong_to)
        + (ser_transform(v.fast_travel_local_transform) + (ser_guid(v.owner_map_object_instance_id) + v.trailing_bytes)))))
}

/// Encoding of a base camp.
pub open spec fn ser_base_camp(v: PalBaseCampView) -> Seq<u8> {
    ser_guid(v.id) + ser_fstring(v.name) + ser_base_camp_tail(v)
}

/// Base camps that the encoding carries unchanged.
pub open spec fn base_camp_ok(v: PalBaseCampView) -> bool {
    fstring_ok(v.name) && v.trailing_bytes.len() == 4
}

/// Base camps that can be written: the name fits its length field.
pub open spec fn base_camp_writable(v: PalBaseCampView) -> bool {
    fstring_writable(v.name)
}

impl PalBaseCamp {
    /// Reads a base camp.
    pub fn read(r: &mut Reader) -> (res: Result<Self, Error>)
        requires
            old(r).valid(),
        ensures
            final(r).valid(),
            final(r).data() == old(r).data(),
            match parse_base_camp(old(r).rest()) {
                Some((v, n)) => res matches Ok(x) && x@ == v && final(r).position() == old(r).position() + n
                    && final(r).rest() == old(r).rest().skip(n),
                None => res == Err::<Self, Error>(base_camp_error(old(r).rest())),
            },
    {
        let id = Guid::read(r)?;
        let name = read_string(r)?;
        Self::read_tail(r, id, name)
    }

    /// Reads the fields after the name.
    #[verifier::rlimit(30)]
    fn read_tail(r: &mut Reader, id: Guid, name: String) -> (res: Result<Self, Error>)
        requires
            old(r).valid(),
        ensures
            final(r).valid(),
            final(r).data() == old(r).data(),
            match parse_base_camp_tail(old(r).rest(), id, name@) {
                Some((v, n)) => res matches Ok(x) && x@ == v && final(r).position() == old(r).position() + n
                    && final(r).rest() == old(r).rest().skip(n),
                None => res == Err::<Self, Error>(Error::UnexpectedEof),
            },
    {
        let state = r.read_u8()?;
        let transform = PalTransform::read(r)?;
        let area_range = r.read_u32()?;
        let group_id_belong_to = Guid::read(r)?;
        let fast_travel_local_transform = PalTransform::read(r)?;
        let owner_map_object_instance_id = Guid::read(r)?;
        let trailing_bytes = r.read_array::<4>()?;
        Ok(PalBaseCamp {
            id,
            name,
            state,
            transform,
            area_range,
            group_id_belong_to,
            fast_travel_local_transform,
            owner_map_object_instance_id,
            trailing_bytes,
        })
    }

    /// Writes a base camp.
    pub fn write(&self, out: &mut Vec<u8>)
        requires
            base_camp_writable(self@),
        ensures
            final(out)@ == old(out)@ + ser_base_camp(self@),
    {
        self.id.write(out);
        write_string(out, self.name.as_str());
        write_u8(out, self.state);
        self.transform.write(out);
        write_u32(out, self.area_range);
        self.group_id_belong_to.write(out);
        self.fast_travel_local_transform.write(out);
        self.owner_map_object_instance_id.write(out);
        write_all(out, self.trailing_bytes.as_slice());
        assert(out@ =~= old(out)@ + ser_base_camp(self@));
    }
}

/// A written base camp reads back, whatever follows.
pub proof fn lemma_base_camp_roundtrip(v: PalBaseCampView, rest: Seq<u8>)
    requires
        base_camp_ok(v),
    ensures
        parse_base_camp(ser_base_camp(v) + rest) == Some((v, ser_base_camp(v).len() as int)),
{
    let s = ser_base_camp(v) + rest;
    let t = ser_base_camp_tail(v) + rest;
    lemma_base_camp_tail_roundtrip(v, rest);
    lemma_assoc(ser_guid(v.id) + ser_fstring(v.name), ser_base_camp_tail(v), rest);
    lemma_assoc(ser_guid(v.id), ser_fstring(v.name), t);
}

#[verifier::spinoff_prover]
#[verifier::rlimit(40)]
proof fn lemma_base_camp_tail_roundtrip(v: PalBaseCampView, rest: Seq<u8>)
    requires
        base_camp_ok(v),
    ensures
        parse_base_camp_tail(ser_base_camp_tail(v) + rest, v.id, v.name) == Some((v, 201int)),
        ser_base_camp_tail(v).len() == 201,
{
    assert(ser_base_camp_tail(v) + rest =~= seq![v.state] + (ser_transform(v.transform) + (le_u32(v.area_range)
        + (ser_guid(v.group_id_belong_to) + (ser_transform(v.fast_travel_local_transform) + (ser_guid(v.owner_map_object_instance_id)
        + (v.trailing_bytes + rest)))))));
}

/// The fields after a base camp's name, against the bytes: state (byte 0),
/// transform (1..81), area range (81..85), the group it belongs to
/// (85..101), the fast-travel transform (101..181), the owning map object
/// (181..197) and four trailing bytes (197..201).
#[verifier::spinoff_prover]
#[verifier::rlimit(100)]
pub proof fn lemma_base_camp_tail_layout(t: Seq<u8>, id: Guid, name: Seq<char>)
    requires
        parse_base_camp_tail(t, id, name) is Some,
    ensures
        ({
            let (v, k) = parse_base_camp_tail(t, id, name)->0;
            &&& k == 201
            &&& v.id == id
            &&& v.name == name
            &&& v.state == t[0]
            &&& ser_transform(v.transform) == t.subrange(1, 81)
            &&& le_u32(v.area_range) == t.subrange(81, 85)
            &&& ser_guid(v.group_id_belong_to) == t.subrange(85, 101)
            &&& ser_transform(v.fast_travel_local_transform) == t.subrange(101, 181)
            &&& ser_guid(v.owner_map_object_instance_id) == t.subrange(181, 197)
            &&& v.trailing_bytes == t.subrange(197, 201)
        }),
{
    let (v, k) = parse_base_camp_tail(t, id, name)->0;
    let s1 = t.skip(1);
    let s2 = s1.skip(80);
    let s3 = s2.skip(4);
    let s4 = s3.skip(16);
    let s5 = s4.skip(80);
    assert(v.transform == (parse_transform(s1)->0).0);
    assert(v.area_range == (parse_u32(s2)->0).0);
    assert(v.group_id_belong_to == (parse_guid(s3)->0).0);
    assert(v.fast_travel_local_transform == (parse_transform(s4)->0).0);
    assert(v.owner_map_object_instance_id == (parse_guid(s5)->0).0);
    assert(v.trailing_bytes == s5.skip(16).take(4));
    assert(s2 =~= t.skip(81));
    assert(s3 =~= t.skip(85));
    assert(s4 =~= t.skip(101));
    assert(s5 =~= t.skip(181));
    lemma_transform_layout(s1);
    assert(s1.take(80) =~= t.subrange(1, 81));
    lemma_u32_at(t, 81);
    lemma_guid_at(t, 85);
    lemma_transform_layout(s4);
    assert(s4.take(80) =~= t.subrange(101, 181));
    lemma_guid_at(t, 181);
    assert(s5.skip(16).take(4) =~= t.subrange(197, 201));
}

/// A base camp against its bytes: its id (bytes 0..16), its name, then the
/// fields of [`lemma_base_camp_tail_layout`] from the end of the name on;
/// in particular the group it belongs to comes right after the area range,
/// and the owning map object right after the fast-travel transform.
#[verifier::spinoff_prover]
#[verifier::rlimit(60)]
pub proof fn lemma_base_camp_layout(s: Seq<u8>)
    requires
        parse_base_camp(s) is Some,
    ensures
        ({
            let (v, k) = parse_base_camp(s)->0;
            let (nm, n) = parse_fstring(s.skip(16))->0;
            let b = 16 + n;
            &&& k == b + 201
            &&& ser_guid(v.id) == s.subrange(0, 16)
            &&& v.name == nm
            &&& v.state == s[b]
            &&& ser_transform(v.transform) == s.subrange(b + 1, b + 81)
            &&& le_u32(v.area_range) == s.subrange(b + 81, b + 85)
            &&& ser_guid(v.group_id_belong_to) == s.subrange(b + 85, b + 101)
            &&& ser_transform(v.fast_travel_local_transform) == s.subrange(b + 101, b + 181)
            &&& ser_guid(v.owner_map_object_instance_id) == s.subrange(b + 181, b + 197)
            &&& v.trailing_bytes == s.subrange(b + 197, b + 201)
        }),
{
    let (nm, n) = parse_fstring(s.skip(16))->0;
    let b = 16 + n;
    let t = s.skip(16).skip(n);
    lemma_guid_at(s, 0);
    assert(s.skip(0) =~= s);
    lemma_base_camp_tail_layout(t, guid_from(s), nm);
    assert(t =~= s.skip(b));
    lemma_subrange_shift(s, b, 1, 81);
    lemma_subrange_shift(s, b, 81, 85);
    lemma_subrange_shift(s, b, 85, 101);
    lemma_subrange_shift(s, b, 101, 181);
    lemma_subrange_shift(s, b, 181, 197);
    lemma_subrange_shift(s, b, 197, 201);
}

} // verus!
