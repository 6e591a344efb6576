//! Item containers, their slots, and dynamic items.
use vstd::prelude::*;
use crate::bytes::{Reader, parse_u32, parse_i32, parse_bytes, le_u32, le_i32, write_u32, write_i32, write_all, lemma_u32_at, lemma_i32_at};
use crate::error::Error;
use crate::fstring::{parse_fstring, fstring_error, ser_fstring, fstring_ok, fstring_writable, read_string, write_string};
use crate::palworld::types::{PalItemId, PalItemIdView, parse_item_id, item_id_error, ser_item_id, item_id_ok, item_id_writable, lemma_item_id_roundtrip};
use crate::repeat::{parse_repeat, repeat_error, ser_repeat, lemma_repeat_error, lemma_repeat_roundtrip, lemma_assoc};

verus! {

broadcast use
    crate::bytes::group_codec,
    crate::fstring::lemma_fstring_roundtrip,
    crate::fstring::lemma_fstring_bounds,
    crate::repeat::lemma_skip_skip,
;

/// Who may use a container: two byte lists and a list of item ids.
#[derive(Debug, PartialEq, Eq)]
pub struct PalItemContainerPermission {
    pub type_a: Vec<u8>,
    pub type_b: Vec<u8>,
    pub item_static_ids: Vec<String>,
}

/// An item container; bytes after the permission, if any, are kept as they are.
#[derive(Debug, PartialEq, Eq)]
pub struct PalItemContainer {
    pub permission: PalItemContainerPermission,
    pub trailing_unparsed_data: Option<Vec<u8>>,
}

/// Model of [`PalItemContainer`].
pub ghost struct PalItemContainerView {
    pub type_a: Seq<u8>,
    pub type_b: Seq<u8>,
    pub item_static_ids: Seq<Seq<char>>,
    pub trailing_unparsed_data: Option<Seq<u8>>,
}

/// The characters of each string.
pub open spec fn string_views(v: Seq<String>) -> Seq<Seq<char>> {
    v.map_values(|s: String| s@)
}

/// The model of an optional byte vector.
pub open spec fn opt_bytes_view(v: Option<Vec<u8>>) -> Option<Seq<u8>> {
    match v {
        Some(b) => Some(b@),
        None => None,
    }
}

impl View for PalItemContainer {
    type V = PalItemContainerView;

    open spec fn view(&self) -> PalItemContainerView {
        PalItemContainerView {
            type_a: self.permission.type_a@,
            type_b: self.permission.type_b@,
            item_static_ids: string_views(self.permission.item_static_ids@),
            trailing_unparsed_data: opt_bytes_view(self.trailing_unparsed_data),
        }
    }
}

/// [`parse_fstring`] as a value.
pub open spec fn fstring_parser() -> spec_fn(Seq<u8>) -> Option<(Seq<char>, int)> {
    |t: Seq<u8>| parse_fstring(t)
}

/// [`fstring_error`] as a value.
pub open spec fn fstring_errors() -> spec_fn(Seq<u8>) -> Error {
    |t: Seq<u8>| fstring_error(t)
}

/// [`ser_fstring`] as a value.
pub open spec fn fstring_writer() -> spec_fn(Seq<char>) -> Seq<u8> {
    |c: Seq<char>| ser_fstring(c)
}

/// Bytes that are kept only when there are some.
pub open spec fn nonempty(s: Seq<u8>) -> Option<Seq<u8>> {
    if s.len() > 0 { Some(s) } else { None }
}

/// Parse of an item container.
pub open spec fn parse_item_container(s: Seq<u8>) -> Option<PalItemContainerView> {
    match parse_u32(s) {
        None => None,
        Some((na, _)) => match parse_bytes(s.skip(4), na as int) {
            None => None,
            Some((a, _)) => {
                let s1 = s.skip(4).skip(na as int);
                match parse_u32(s1) {
                    None => None,
                    Some((nb, _)) => match parse_bytes(s1.skip(4), nb as int) {
                        None => None,
                        Some((b, _)) => {
                            let s2 = s1.skip(4).skip(nb as int);
                            match parse_u32(s2) {
                                None => None,
                                Some((nc, _)) => match parse_repeat(fstring_parser(), s2.skip(4), nc as nat) {
                                    None => None,
                                    Some((ids, m)) => Some(PalItemContainerView {
                                        type_a: a,
                                        type_b: b,
                                        item_static_ids: ids,
                                        trailing_unparsed_data: nonempty(s2.skip(4).skip(m)),
                                    }),
                                },
                            }
                        },
                    },
                }
            },
        },
    }
}

/// Why an item container fails to parse: too few bytes before its item
/// ids, or the error of the first id that does not parse.
pub open spec fn item_container_error(s: Seq<u8>) -> Error {
    match parse_u32(s) {
        None => Error::UnexpectedEof,
        Some((na, _)) => match parse_bytes(s.skip(4), na as int) {
            None => Error::UnexpectedEof,
            Some(_) => {
                let s1 = s.skip(4).skip(na as int);
                match parse_u32(s1) {
                    None => Error::UnexpectedEof,
                    Some((nb, _)) => match parse_bytes(s1.skip(4), nb as int) {
                        None => Error::UnexpectedEof,
                        Some(_) => {
                            let s2 = s1.skip(4).skip(nb as int);
                            match parse_u32(s2) {
                                None => Error::UnexpectedEof,
                                Some((nc, _)) => repeat_error(fstring_parser(), fstring_errors(), s2.skip(4), nc as nat),
                            }
                        },
                    },
                }
            },
        },
    }
}

/// Encoding of the trailing bytes that a container may have.
pub open spec fn ser_opt_bytes(t: Option<Seq<u8>>) -> Seq<u8> {
    match t {
        Some(b) => b,
        None => Seq::empty(),
    }
}

/// Encoding of an item container.
pub open spec fn ser_item_container(v: PalItemContainerView) -> Seq<u8> {
    le_u32(v.type_a.len() as u32) + v.type_a + le_u32(v.type_b.len() as u32) + v.type_b
        + le_u32(v.item_static_ids.len() as u32) + ser_repeat(fstring_writer(), v.item_static_ids)
        + ser_opt_bytes(v.trailing_unparsed_data)
}

/// Containers that the encoding carries unchanged.
pub open spec fn item_container_ok(v: PalItemContainerView) -> bool {
    &&& v.type_a.len() <= u32::MAX
    &&& v.type_b.len() <= u32::MAX
    &&& v.item_static_ids.len() <= u32::MAX
    &&& forall|i: int| 0 <= i < v.item_static_ids.len() ==> fstring_ok(#[trigger] v.item_static_ids[i])
    &&& (v.trailing_unparsed_data matches Some(t) ==> t.len() > 0)
}

/// Containers that can be written: every count and string fits its field.
pub open spec fn item_container_writable(v: PalItemContainerView) -> bool {
    &&& v.type_a.len() <= u32::MAX
    &&& v.type_b.len() <= u32::MAX
    &&& v.item_static_ids.len() <= u32::MAX
    &&& forall|i: int| 0 <= i < v.item_static_ids.len() ==> fstring_writable(#[trigger] v.item_static_ids[i])
}

/// Writes counted bytes.
fn write_counted_bytes(out: &mut Vec<u8>, b: &Vec<u8>)
    requires
        b@.len() <= u32::MAX,
    ensures
        final(out)@ == old(out)@ + le_u32(b@.len() as u32) + b@,
{
    write_u32(out, b.len() as u32);
    write_all(out, b.as_slice());
}

impl PalItemContainer {
    /// Reads an item container, taking all of the remaining bytes.
    pub fn read(r: &mut Reader) -> (res: Result<Self, Error>)
        requires
            old(r).valid(),
        ensures
            final(r).valid(),
            final(r).data() == old(r).data(),
            match parse_item_container(old(r).rest()) {
                Some(v) => res matches Ok(x) && x@ == v && final(r).rest().len() == 0,
                None => res == Err::<Self, Error>(item_container_error(old(r).rest())),
            },
    {
        let na = r.read_u32()?;
        let type_a = r.read_bytes(na as usize)?;
        let nb = r.read_u32()?;
        let type_b = r.read_bytes(nb as usize)?;
        let nc = r.read_u32()?;
        let ghost t = r.rest();
        let ghost p0 = r.position();
        let ghost s1 = old(r).rest().skip(4).skip(na as int);
        let ghost s2 = s1.skip(4).skip(nb as int);
        let mut ids: Vec<String> = Vec::new();
        let mut i: u32 = 0;
        while i < nc
            invariant
                r.valid(),
                r.data() == old(r).data(),
                i <= nc,
                parse_u32(old(r).rest()) == Some((na, 4int)),
                parse_bytes(old(r).rest().skip(4), na as int) == Some((type_a@, na as int)),
                s1 == old(r).rest().skip(4).skip(na as int),
                parse_u32(s1) == Some((nb, 4int)),
                parse_bytes(s1.skip(4), nb as int) == Some((type_b@, nb as int)),
                s2 == s1.skip(4).skip(nb as int),
                parse_u32(s2) == Some((nc, 4int)),
                t == s2.skip(4),
                0 <= p0 <= r.position(),
                t == r.data().skip(p0),
                parse_repeat(fstring_parser(), t, i as nat) == Some((string_views(ids@), r.position() - p0)),
                r.rest() == t.skip(r.position() - p0),
            decreases nc - i,
        {
            let id = match read_string(r) {
                Ok(x) => x,
                Err(e) => {
                    proof {
                        lemma_repeat_error(fstring_parser(), fstring_errors(), t, (i + 1) as nat, nc as nat);
                    }
                    return Err(e);
                },
            };
            let ghost before = ids@;
            ids.push(id);
            assert(string_views(ids@) =~= string_views(before).push(id@));
            i = i + 1;
        }
        let trailing = r.read_to_end();
        let trailing_unparsed_data = if trailing.len() > 0 { Some(trailing) } else { None };
        Ok(PalItemContainer {
            permission: PalItemContainerPermission { type_a, type_b, item_static_ids: ids },
            trailing_unparsed_data,
        })
    }

    /// Writes an item container.
    pub fn write(&self, out: &mut Vec<u8>)
        requires
            item_container_writable(self@),
        ensures
            final(out)@ == old(out)@ + ser_item_container(self@),
    {
        write_counted_bytes(out, &self.permission.type_a);
        write_counted_bytes(out, &self.permission.type_b);
        let ids = &self.permission.item_static_ids;
        write_u32(out, ids.len() as u32);
        let ghost mid = out@;
        let ghost views = string_views(ids@);
        let mut i: usize = 0;
        while i < ids.len()
            invariant
                i <= ids@.len(),
                views == string_views(ids@),
                forall|j: int| 0 <= j < views.len() ==> fstring_writable(#[trigger] views[j]),
                out@ == mid + ser_repeat(fstring_writer(), views.take(i as int)),
            decreases ids@.len() - i,
        {
            assert(fstring_writable(views[i as int]));
            write_string(out, ids[i].as_str());
            proof {
                assert(views.take(i + 1).drop_last() =~= views.take(i as int));
            }
            i = i + 1;
        }
        assert(views.take(i as int) =~= views);
        match &self.trailing_unparsed_data {
            Some(t) => write_all(out, t.as_slice()),
            None => {},
        }
        assert(out@ =~= old(out)@ + ser_item_container(self@));
    }
}

/// A written item container reads back.
#[verifier::spinoff_prover]
#[verifier::rlimit(30)]
pub proof fn lemma_item_container_roundtrip(v: PalItemContainerView)
    requires
        item_container_ok(v),
    ensures
        parse_item_container(ser_item_container(v)) == Some(v),
{
    let p = fstring_parser();
    let f = fstring_writer();
    let ok = |c: Seq<char>| fstring_ok(c);
    assert forall|x: Seq<char>, r: Seq<u8>| ok(x) implies #[trigger] p(f(x) + r) == Some((x, f(x).len() as int)) by {
    }
    assert forall|i: int| 0 <= i < v.item_static_ids.len() implies #[trigger] ok(v.item_static_ids[i]) by {
        assert(fstring_ok(v.item_static_ids[i]));
    }
    let tail = ser_opt_bytes(v.trailing_unparsed_data);
    lemma_repeat_roundtrip(p, f, ok, v.item_static_ids, tail);
    let ca = le_u32(v.type_a.len() as u32);
    let cb = le_u32(v.type_b.len() as u32);
    let cc = le_u32(v.item_static_ids.len() as u32);
    let items = ser_repeat(f, v.item_static_ids);
    let z = items + tail;
    let y = cc + z;
    let x = v.type_b + y;
    let w = cb + x;
    let u = v.type_a + w;
    let l0 = ca + v.type_a;
    let l1 = l0 + cb;
    let l2 = l1 + v.type_b;
    let l3 = l2 + cc;
    lemma_assoc(l3, items, tail);
    lemma_assoc(l2, cc, z);
    lemma_assoc(l1, v.type_b, y);
    lemma_assoc(l0, cb, x);
    lemma_assoc(ca, v.type_a, w);
    assert(ser_item_container(v) == ca + u);
    let sv = ser_item_container(v);
    assert(parse_u32(sv) == Some((v.type_a.len() as u32, 4int)));
    assert(sv.skip(4) == u);
    assert(parse_bytes(u, v.type_a.len() as int) == Some((v.type_a, v.type_a.len() as int)));
    assert(u.skip(v.type_a.len() as int) == w);
    assert(parse_u32(w) == Some((v.type_b.len() as u32, 4int)));
    assert(w.skip(4) == x);
    assert(parse_bytes(x, v.type_b.len() as int) == Some((v.type_b, v.type_b.len() as int)));
    assert(x.skip(v.type_b.len() as int) == y);
    assert(parse_u32(y) == Some((v.item_static_ids.len() as u32, 4int)));
    assert(y.skip(4) == z);
    assert(z.skip(items.len() as int) =~= tail);
    assert(nonempty(tail) == v.trailing_unparsed_data);
}

/// One slot of a container; the bytes after the item are kept as they are.
#[derive(Debug, PartialEq, Eq)]
pub struct PalItemContainerSlot {
    pub slot_index: i32,
    pub count: i32,
    pub item: PalItemId,
    pub trailing_bytes: Vec<u8>,
}

/// Model of [`PalItemContainerSlot`].
pub ghost struct PalItemContainerSlotView {
    pub slot_index: i32,
    pub count: i32,
    pub item: PalItemIdView,
    pub trailing_bytes: Seq<u8>,
}

impl View for PalItemContainerSlot {
    type V = PalItemContainerSlotView;

    open spec fn view(&self) -> PalItemContainerSlotView {
        PalItemContainerSlotView {
            slot_index: self.slot_index,
            count: self.count,
            item: self.item@,
            trailing_bytes: self.trailing_bytes@,
        }
    }
}

/// Parse of a slot: index, count, item id, then all remaining bytes.
pub open spec fn parse_item_container_slot(s: Seq<u8>) -> Option<PalItemContainerSlotView> {
    match parse_i32(s) {
        None => None,
        Some((idx, _)) => match parse_i32(s.skip(4)) {
            None => None,
            Some((count, _)) => match parse_item_id(s.skip(4).skip(4)) {
                None => None,
                Some((item, n)) => Some(PalItemContainerSlotView {
                    slot_index: idx,
                    count,
                    item,
                    trailing_bytes: s.skip(4).skip(4).skip(n),
                }),
            },
        },
    }
}

/// Why a slot fails to parse: too few bytes before its item, or the item's error.
pub open spec fn item_container_slot_error(s: Seq<u8>) -> Error {
    if s.len() < 8 {
        Error::UnexpectedEof
    } else {
        item_id_error(s.skip(4).skip(4))
    }
}

/// Encoding of a slot.
pub open spec fn ser_item_container_slot(v: PalItemContainerSlotView) -> Seq<u8> {
    le_i32(v.slot_index) + le_i32(v.count) + ser_item_id(v.item) + v.trailing_bytes
}

impl PalItemContainerSlot {
    /// Reads a slot, taking all of the remaining bytes.
    pub fn read(r: &mut Reader) -> (res: Result<Self, Error>)
        requires
            old(r).valid(),
        ensures
            final(r).valid(),
            final(r).data() == old(r).data(),
            match parse_item_container_slot(old(r).rest()) {
                Some(v) => res matches Ok(x) && x@ == v && final(r).rest().len() == 0,
                None => res == Err::<Self, Error>(item_container_slot_error(old(r).rest())),
            },
    {
        let slot_index = r.read_i32()?;
        let count = r.read_i32()?;
        let item = PalItemId::read(r)?;
        let trailing_bytes = r.read_to_end();
        Ok(PalItemContainerSlot { slot_index, count, item, trailing_bytes })
    }

    /// Writes a slot.
    pub fn write(&self, out: &mut Vec<u8>)
        requires
            item_id_writable(self@.item),
        ensures
            final(out)@ == old(out)@ + ser_item_container_slot(self@),
    {
        write_i32(out, self.slot_index);
        write_i32(out, self.count);
        self.item.write(out);
        write_all(out, self.trailing_bytes.as_slice());
        assert(out@ =~= old(out)@ + ser_item_container_slot(self@));
    }
}

/// A written slot reads back.
pub proof fn lemma_item_container_slot_roundtrip(v: PalItemContainerSlotView)
    requires
        item_id_ok(v.item),
    ensures
        parse_item_container_slot(ser_item_container_slot(v)) == Some(v),
{
    let a = le_i32(v.slot_index);
    let b = le_i32(v.count);
    let c = ser_item_id(v.item);
    lemma_item_id_roundtrip(v.item, v.trailing_bytes);
    lemma_assoc(a + b, c, v.trailing_bytes);
    lemma_assoc(a, b, c + v.trailing_bytes);
    assert((c + v.trailing_bytes).skip(c.len() as int) =~= v.trailing_bytes);
}

/// An item container against its bytes: the first counted byte list, then
/// the second, then the counted item ids, then any bytes left over.
pub proof fn lemma_item_container_layout(s: Seq<u8>)
    requires
        parse_item_container(s) is Some,
    ensures
        ({
            let v = parse_item_container(s)->0;
            let na = (parse_u32(s)->0).0 as int;
            let nb = (parse_u32(s.skip(4 + na))->0).0 as int;
            &&& le_u32(v.type_a.len() as u32) == s.subrange(0, 4)
            &&& v.type_a == s.subrange(4, 4 + na)
            &&& le_u32(v.type_b.len() as u32) == s.subrange(4 + na, 8 + na)
            &&& v.type_b == s.subrange(8 + na, 8 + na + nb)
            &&& le_u32(v.item_static_ids.len() as u32) == s.subrange(8 + na + nb, 12 + na + nb)
            &&& v.item_static_ids == (parse_repeat(
                fstring_parser(),
                s.skip(12 + na + nb),
                (parse_u32(s.skip(8 + na + nb))->0).0 as nat,
            )->0).0
        }),
{
    let na = (parse_u32(s)->0).0 as int;
    let s1 = s.skip(4).skip(na);
    assert(s1 =~= s.skip(4 + na));
    let nb = (parse_u32(s1)->0).0 as int;
    let s2 = s1.skip(4).skip(nb);
    assert(s2 =~= s.skip(8 + na + nb));
    lemma_u32_at(s, 0);
    assert(s.skip(0) =~= s);
    lemma_u32_at(s, 4 + na);
    lemma_u32_at(s, 8 + na + nb);
    assert(s.skip(4).take(na) =~= s.subrange(4, 4 + na));
    assert(s1.skip(4).take(nb) =~= s.subrange(8 + na, 8 + na + nb));
    assert(s2.skip(4) =~= s.skip(12 + na + nb));
    let nc = (parse_u32(s2)->0).0;
    crate::repeat::lemma_repeat_bounds(fstring_parser(), s2.skip(4), nc as nat);
}

/// A container slot against its bytes: the slot index (0..4), the count
/// (4..8), the item id from byte 8, and every byte after it.
pub proof fn lemma_item_container_slot_layout(s: Seq<u8>)
    requires
        parse_item_container_slot(s) is Some,
    ensures
        ({
            let v = parse_item_container_slot(s)->0;
            let (id, n) = parse_item_id(s.skip(8))->0;
            &&& le_i32(v.slot_index) == s.subrange(0, 4)
            &&& le_i32(v.count) == s.subrange(4, 8)
            &&& v.item == id
            &&& v.trailing_bytes == s.skip(8 + n)
        }),
{
    lemma_i32_at(s, 0);
    lemma_i32_at(s, 4);
    assert(s.skip(0) =~= s);
    assert(s.skip(4).skip(4) =~= s.skip(8));
    let n = (parse_item_id(s.skip(8))->0).1;
    assert(s.skip(8).skip(n) =~= s.skip(8 + n));
}

} // verus!
