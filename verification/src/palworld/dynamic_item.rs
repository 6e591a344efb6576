//! Dynamic items: eggs, weapons, armor, and items of unknown layout.
use vstd::prelude::*;
use crate::bytes::{Reader, parse_u32, parse_i32, parse_bytes, le_u32, le_i32, write_u32, write_i32, write_all, lemma_u32_at, lemma_i32_at};
use crate::error::Error;
use crate::fstring::{parse_fstring, fstring_error, ser_fstring, fstring_ok, fstring_writable, read_string, write_string};
use crate::palworld::items::{fstring_parser, fstring_writer, string_views};
use crate::palworld::types::{PalDynamicId, parse_dynamic_id, ser_dynamic_id, lemma_dynamic_id_layout};
use crate::properties::{Properties, PropertyView, parse_properties, ser_properties, properties_ok, properties_writable, lemma_properties_bounds, lemma_properties_roundtrip};
use crate::repeat::{parse_repeat, ser_repeat, lemma_repeat_fail, lemma_repeat_roundtrip, lemma_repeat_bounds, lemma_assoc};

verus! {

broadcast use
    crate::bytes::group_codec,
    crate::fstring::lemma_fstring_roundtrip,
    crate::fstring::lemma_fstring_bounds,
    crate::repeat::lemma_skip_skip,
    crate::palworld::types::lemma_dynamic_id_roundtrip,
;

/// What a dynamic item holds after its ids, by the layout it was read with.
#[derive(Debug, PartialEq, Eq)]
#[allow(inconsistent_fields)]
pub enum PalDynamicItemType {
    /// Bytes that fit none of the known layouts, kept as they are.
    Unknown { trailer: Vec<u8> },
    Egg { leading_bytes: [u8; 4], character_id: String, object: Properties, trailing_bytes: [u8; 28] },
    /// `durability` holds the bits of an `f32`.
    Armor { leading_bytes: [u8; 4], durability: u32, trailing_bytes: [u8; 4] },
    /// `durability` holds the bits of an `f32`.
    Weapon {
        leading_bytes: [u8; 4],
        durability: u32,
        remaining_bullets: i32,
        passive_skill_list: Vec<String>,
        trailing_bytes: [u8; 4],
    },
}

/// Model of [`PalDynamicItemType`].
pub ghost enum DynamicItemTypeView {
    Unknown { trailer: Seq<u8> },
    Egg { leading_bytes: Seq<u8>, character_id: Seq<char>, object: Seq<PropertyView>, trailing_bytes: Seq<u8> },
    Armor { leading_bytes: Seq<u8>, durability: u32, trailing_bytes: Seq<u8> },
    Weapon {
        leading_bytes: Seq<u8>,
        durability: u32,
        remaining_bullets: i32,
        passive_skill_list: Seq<Seq<char>>,
        trailing_bytes: Seq<u8>,
    },
}

impl View for PalDynamicItemType {
    type V = DynamicItemTypeView;

    open spec fn view(&self) -> DynamicItemTypeView {
        match self {
            PalDynamicItemType::Unknown { trailer } => DynamicItemTypeView::Unknown { trailer: trailer@ },
            PalDynamicItemType::Egg { leading_bytes, character_id, object, trailing_bytes } =>
                DynamicItemTypeView::Egg {
                    leading_bytes: leading_bytes@,
                    character_id: character_id@,
                    object: object@,
                    trailing_bytes: trailing_bytes@,
                },
            PalDynamicItemType::Armor { leading_bytes, durability, trailing_bytes } => DynamicItemTypeView::Armor {
                leading_bytes: leading_bytes@,
                durability: *durability,
                trailing_bytes: trailing_bytes@,
            },
            PalDynamicItemType::Weapon {
                leading_bytes,
                durability,
                remaining_bullets,
                passive_skill_list,
                trailing_bytes,
            } => DynamicItemTypeView::Weapon {
                leading_bytes: leading_bytes@,
                durability: *durability,
                remaining_bullets: *remaining_bullets,
                passive_skill_list: string_views(passive_skill_list@),
                trailing_bytes: trailing_bytes@,
            },
        }
    }
}

/// A dynamic item: its ids, then data in one of several layouts.
#[derive(Debug, PartialEq, Eq)]
pub struct PalDynamicItem {
    pub id: PalDynamicId,
    pub static_id: String,
    pub item_type: PalDynamicItemType,
}

/// Model of [`PalDynamicItem`].
pub ghost struct PalDynamicItemView {
    pub id: PalDynamicId,
    pub static_id: Seq<char>,
    pub item_type: DynamicItemTypeView,
}

impl View for PalDynamicItem {
    type V = PalDynamicItemView;

    open spec fn view(&self) -> PalDynamicItemView {
        PalDynamicItemView { id: self.id, static_id: self.static_id@, item_type: self.item_type@ }
    }
}

/// Parse of a count and that many strings.
pub open spec fn parse_counted_strings(s: Seq<u8>) -> Option<(Seq<Seq<char>>, int)> {
    match parse_u32(s) {
        None => None,
        Some((c, _)) => match parse_repeat(fstring_parser(), s.skip(4), c as nat) {
            None => None,
            Some((xs, m)) => Some((xs, 4 + m)),
        },
    }
}

/// Encoding of a count and the strings.
pub open spec fn ser_counted_strings(xs: Seq<Seq<char>>) -> Seq<u8> {
    le_u32(xs.len() as u32) + ser_repeat(fstring_writer(), xs)
}

/// Parse of egg data, which must fill the input: four bytes, the character
/// id, a property list and 28 bytes.
pub open spec fn parse_egg(s: Seq<u8>) -> Option<DynamicItemTypeView> {
    match parse_bytes(s, 4) {
        None => None,
        Some((lead, _)) => match parse_fstring(s.skip(4)) {
            None => None,
            Some((cid, n)) => {
                let t = s.skip(4).skip(n);
                match parse_properties(t) {
                    None => None,
                    Some((ps, m)) => match parse_bytes(t.skip(m), 28) {
                        None => None,
                        Some((tb, _)) => if t.skip(m).len() == 28 {
                            Some(
                                DynamicItemTypeView::Egg {
                                    leading_bytes: lead,
                                    character_id: cid,
                                    object: ps,
                                    trailing_bytes: tb,
                                },
                            )
                        } else {
                            None
                        },
                    },
                }
            },
        },
    }
}

/// Parse of weapon data, which must fill the input: four bytes, the
/// durability, the remaining bullets, the passive skills and four bytes.
pub open spec fn parse_weapon(s: Seq<u8>) -> Option<DynamicItemTypeView> {
    match parse_bytes(s, 4) {
        None => None,
        Some((lead, _)) => match parse_u32(s.skip(4)) {
            None => None,
            Some((d, _)) => match parse_i32(s.skip(4).skip(4)) {
                None => None,
                Some((b, _)) => {
                    let t = s.skip(4).skip(4).skip(4);
                    match parse_counted_strings(t) {
                        None => None,
                        Some((skills, m)) => match parse_bytes(t.skip(m), 4) {
                            None => None,
                            Some((tb, _)) => if t.skip(m).len() == 4 {
                                Some(
                                    DynamicItemTypeView::Weapon {
                                        leading_bytes: lead,
                                        durability: d,
                                        remaining_bullets: b,
                                        passive_skill_list: skills,
                                        trailing_bytes: tb,
                                    },
                                )
                            } else {
                                None
                            },
                        },
                    }
                },
            },
        },
    }
}

/// Parse of armor data, which must fill the input: four bytes, the
/// durability and four bytes.
pub open spec fn parse_armor(s: Seq<u8>) -> Option<DynamicItemTypeView> {
    match parse_bytes(s, 4) {
        None => None,
        Some((lead, _)) => match parse_u32(s.skip(4)) {
            None => None,
            Some((d, _)) => match parse_bytes(s.skip(4).skip(4), 4) {
                None => None,
                Some((tb, _)) => if s.len() == 12 {
                    Some(DynamicItemTypeView::Armor { leading_bytes: lead, durability: d, trailing_bytes: tb })
                } else {
                    None
                },
            },
        },
    }
}

/// The item data in the first layout that fits all of `s`, trying egg,
/// weapon and armor in turn; else the bytes themselves.
pub open spec fn parse_item_type(s: Seq<u8>) -> DynamicItemTypeView {
    if parse_egg(s) is Some {
        parse_egg(s)->0
    } else if parse_weapon(s) is Some {
        parse_weapon(s)->0
    } else if parse_armor(s) is Some {
        parse_armor(s)->0
    } else {
        DynamicItemTypeView::Unknown { trailer: s }
    }
}

/// Parse of a dynamic item that fills the input.
pub open spec fn parse_dynamic_item(s: Seq<u8>) -> Option<PalDynamicItemView> {
    match parse_dynamic_id(s) {
        None => None,
        Some((id, _)) => match parse_fstring(s.skip(32)) {
            None => None,
            Some((sid, n)) => Some(
                PalDynamicItemView { id, static_id: sid, item_type: parse_item_type(s.skip(32).skip(n)) },
            ),
        },
    }
}

/// Why a dynamic item fails to parse: too few bytes for its id, or its
/// static id's error.
pub open spec fn dynamic_item_error(s: Seq<u8>) -> Error {
    if s.len() < 32 {
        Error::UnexpectedEof
    } else {
        fstring_error(s.skip(32))
    }
}

/// Encoding of item data.
pub open spec fn ser_item_type(t: DynamicItemTypeView) -> Seq<u8> {
    match t {
        DynamicItemTypeView::Unknown { trailer } => trailer,
        DynamicItemTypeView::Egg { leading_bytes, character_id, object, trailing_bytes } => leading_bytes
            + ser_fstring(character_id) + ser_properties(object) + trailing_bytes,
        DynamicItemTypeView::Armor { leading_bytes, durability, trailing_bytes } => leading_bytes + le_u32(durability)
            + trailing_bytes,
        DynamicItemTypeView::Weapon {
            leading_bytes,
            durability,
            remaining_bullets,
            passive_skill_list,
            trailing_bytes,
        } => leading_bytes + le_u32(durability) + le_i32(remaining_bullets) + ser_counted_strings(passive_skill_list)
            + trailing_bytes,
    }
}

/// Encoding of a dynamic item.
pub open spec fn ser_dynamic_item(v: PalDynamicItemView) -> Seq<u8> {
    ser_dynamic_id(v.id) + ser_fstring(v.static_id) + ser_item_type(v.item_type)
}

/// Strings that the encoding carries unchanged.
pub open spec fn strings_ok(xs: Seq<Seq<char>>) -> bool {
    &&& xs.len() <= u32::MAX
    &&& forall|i: int| 0 <= i < xs.len() ==> fstring_ok(#[trigger] xs[i])
}

/// Strings that can be written: the count and each string fit their fields.
pub open spec fn strings_writable(xs: Seq<Seq<char>>) -> bool {
    &&& xs.len() <= u32::MAX
    &&& forall|i: int| 0 <= i < xs.len() ==> fstring_writable(#[trigger] xs[i])
}

/// Item data that can be written: its strings, counts and property list fit
/// their fields.
pub open spec fn item_type_writable(t: DynamicItemTypeView) -> bool {
    match t {
        DynamicItemTypeView::Egg { character_id, object, .. } => fstring_writable(character_id)
            && properties_writable(object),
        DynamicItemTypeView::Weapon { passive_skill_list, .. } => strings_writable(passive_skill_list),
        _ => true,
    }
}

/// Item data that the encoding carries unchanged.
pub open spec fn item_type_ok(t: DynamicItemTypeView) -> bool {
    match t {
        DynamicItemTypeView::Unknown { .. } => true,
        DynamicItemTypeView::Egg { leading_bytes, character_id, object, trailing_bytes } => {
            &&& leading_bytes.len() == 4
            &&& fstring_ok(character_id)
            &&& properties_ok(object)
            &&& trailing_bytes.len() == 28
        },
        DynamicItemTypeView::Armor { leading_bytes, trailing_bytes, .. } => leading_bytes.len() == 4
            && trailing_bytes.len() == 4,
        DynamicItemTypeView::Weapon { leading_bytes, passive_skill_list, trailing_bytes, .. } => {
            &&& leading_bytes.len() == 4
            &&& strings_ok(passive_skill_list)
            &&& trailing_bytes.len() == 4
        },
    }
}

/// Item data whose bytes no layout tried before its own claims: reading
/// tries egg, weapon and armor in turn, and keeps unknown bytes only when
/// none fits.
pub open spec fn item_type_unambiguous(t: DynamicItemTypeView) -> bool {
    match t {
        DynamicItemTypeView::Unknown { trailer } => parse_egg(trailer) is None && parse_weapon(trailer) is None
            && parse_armor(trailer) is None,
        DynamicItemTypeView::Weapon { .. } => parse_egg(ser_item_type(t)) is None,
        _ => true,
    }
}

/// A parsed count and strings take no more than the input.
proof fn lemma_counted_strings_bounds(s: Seq<u8>)
    ensures
        parse_counted_strings(s) matches Some((_, n)) ==> 4 <= n <= s.len(),
{
    match parse_u32(s) {
        None => {},
        Some((c, _)) => {
            lemma_repeat_bounds(fstring_parser(), s.skip(4), c as nat);
        },
    }
}

fn read_counted_strings(r: &mut Reader) -> (res: Result<Vec<String>, Error>)
    requires
        old(r).valid(),
    ensures
        final(r).valid(),
        final(r).data() == old(r).data(),
        match parse_counted_strings(old(r).rest()) {
            Some((xs, n)) => res matches Ok(v) && string_views(v@) == xs
                && final(r).position() == old(r).position() + n && final(r).rest() == old(r).rest().skip(n),
            None => res is Err,
        },
{
    let count = r.read_u32()?;
    let ghost t = r.rest();
    let ghost p0 = r.position();
    let mut xs: Vec<String> = Vec::new();
    let mut i: u32 = 0;
    while i < count
        invariant
            r.valid(),
            r.data() == old(r).data(),
            i <= count,
            parse_u32(old(r).rest()) == Some((count, 4int)),
            t == old(r).rest().skip(4),
            0 <= p0 <= r.position(),
            p0 == old(r).position() + 4,
            t == r.data().skip(p0),
            parse_repeat(fstring_parser(), t, i as nat) == Some((string_views(xs@), r.position() - p0)),
            r.rest() == t.skip(r.position() - p0),
        decreases count - i,
    {
        let x = match read_string(r) {
            Ok(x) => x,
            Err(e) => {
                proof {
                    lemma_repeat_fail(fstring_parser(), t, (i + 1) as nat, count as nat);
                }
                return Err(e);
            },
        };
        let ghost before = xs@;
        xs.push(x);
        assert(string_views(xs@) =~= string_views(before).push(x@));
        i = i + 1;
    }
    Ok(xs)
}

fn write_counted_strings(out: &mut Vec<u8>, xs: &Vec<String>)
    requires
        strings_writable(string_views(xs@)),
    ensures
        final(out)@ == old(out)@ + ser_counted_strings(string_views(xs@)),
{
    write_u32(out, xs.len() as u32);
    let ghost mid = out@;
    let ghost views = string_views(xs@);
    let mut i: usize = 0;
    while i < xs.len()
        invariant
            i <= xs@.len(),
            views == string_views(xs@),
            strings_writable(views),
            out@ == mid + ser_repeat(fstring_writer(), views.take(i as int)),
        decreases xs@.len() - i,
    {
        assert(fstring_writable(views[i as int]));
        write_string(out, xs[i].as_str());
        proof {
            assert(views.take(i + 1).drop_last() =~= views.take(i as int));
        }
        i = i + 1;
    }
    assert(views.take(i as int) =~= views);
    assert(out@ =~= old(out)@ + ser_counted_strings(views));
}

/// Reads egg data, which must extend to the end of the input.
fn try_parse_egg(r: &mut Reader) -> (res: Result<PalDynamicItemType, Error>)
    requires
        old(r).valid(),
    ensures
        final(r).valid(),
        final(r).data() == old(r).data(),
        match parse_egg(old(r).rest()) {
            Some(v) => res matches Ok(x) && x@ == v && final(r).rest().len() == 0,
            None => res is Err,
        },
{
    let leading_bytes = r.read_array::<4>()?;
    let character_id = read_string(r)?;
    proof {
        lemma_properties_bounds(r.rest());
    }
    let object = Properties::read(r)?;
    let trailing_bytes = r.read_array::<28>()?;
    if r.remaining() != 0 {
        return Err(Error::TrailingData);
    }
    Ok(PalDynamicItemType::Egg { leading_bytes, character_id, object, trailing_bytes })
}

/// Reads weapon data, which must extend to the end of the input.
fn try_parse_weapon(r: &mut Reader) -> (res: Result<PalDynamicItemType, Error>)
    requires
        old(r).valid(),
    ensures
        final(r).valid(),
        final(r).data() == old(r).data(),
        match parse_weapon(old(r).rest()) {
            Some(v) => res matches Ok(x) && x@ == v && final(r).rest().len() == 0,
            None => res is Err,
        },
{
    let leading_bytes = r.read_array::<4>()?;
    let durability = r.read_u32()?;
    let remaining_bullets = r.read_i32()?;
    proof {
        lemma_counted_strings_bounds(r.rest());
    }
    let passive_skill_list = read_counted_strings(r)?;
    let trailing_bytes = r.read_array::<4>()?;
    if r.remaining() != 0 {
        return Err(Error::TrailingData);
    }
    Ok(PalDynamicItemType::Weapon { leading_bytes, durability, remaining_bullets, passive_skill_list, trailing_bytes })
}

/// Reads armor data, which must extend to the end of the input.
fn try_parse_armor(r: &mut Reader) -> (res: Result<PalDynamicItemType, Error>)
    requires
        old(r).valid(),
    ensures
        final(r).valid(),
        final(r).data() == old(r).data(),
        match parse_armor(old(r).rest()) {
            Some(v) => res matches Ok(x) && x@ == v && final(r).rest().len() == 0,
            None => res is Err,
        },
{
    let leading_bytes = r.read_array::<4>()?;
    let durability = r.read_u32()?;
    let trailing_bytes = r.read_array::<4>()?;
    if r.remaining() != 0 {
        return Err(Error::TrailingData);
    }
    Ok(PalDynamicItemType::Armor { leading_bytes, durability, trailing_bytes })
}

fn read_item_type(r: &mut Reader) -> (res: PalDynamicItemType)
    requires
        old(r).valid(),
    ensures
        final(r).valid(),
        final(r).data() == old(r).data(),
        res@ == parse_item_type(old(r).rest()),
        final(r).rest().len() == 0,
{
    let start = r.stream_position();
    if let Ok(egg) = try_parse_egg(r) {
        return egg;
    }
    r.seek(start);
    if let Ok(weapon) = try_parse_weapon(r) {
        return weapon;
    }
    r.seek(start);
    if let Ok(armor) = try_parse_armor(r) {
        return armor;
    }
    r.seek(start);
    let trailer = r.read_to_end();
    PalDynamicItemType::Unknown { trailer }
}

impl PalDynamicItem {
    /// Reads a dynamic item, taking all of the remaining bytes: the data is
    /// read in the first layout that fills them, else kept as bytes.
    pub fn read(r: &mut Reader) -> (res: Result<Self, Error>)
        requires
            old(r).valid(),
        ensures
            final(r).valid(),
            final(r).data() == old(r).data(),
            match parse_dynamic_item(old(r).rest()) {
                Some(v) => res matches Ok(x) && x@ == v && final(r).rest().len() == 0,
                None => res == Err::<Self, Error>(dynamic_item_error(old(r).rest())),
            },
    {
        let id = PalDynamicId::read(r)?;
        let static_id = read_string(r)?;
        let item_type = read_item_type(r);
        Ok(PalDynamicItem { id, static_id, item_type })
    }

    /// Writes a dynamic item.
    pub fn write(&self, out: &mut Vec<u8>)
        requires
            fstring_writable(self.static_id@),
            item_type_writable(self.item_type@),
        ensures
            final(out)@ == old(out)@ + ser_dynamic_item(self@),
    {
        self.id.write(out);
        write_string(out, self.static_id.as_str());
        match &self.item_type {
            PalDynamicItemType::Unknown { trailer } => write_all(out, trailer.as_slice()),
            PalDynamicItemType::Egg { leading_bytes, character_id, object, trailing_bytes } => {
                write_all(out, leading_bytes.as_slice());
                write_string(out, character_id.as_str());
                object.write(out);
                write_all(out, trailing_bytes.as_slice());
            },
            PalDynamicItemType::Armor { leading_bytes, durability, trailing_bytes } => {
                write_all(out, leading_bytes.as_slice());
                write_u32(out, *durability);
                write_all(out, trailing_bytes.as_slice());
            },
            PalDynamicItemType::Weapon {
                leading_bytes,
                durability,
                remaining_bullets,
                passive_skill_list,
                trailing_bytes,
            } => {
                write_all(out, leading_bytes.as_slice());
                write_u32(out, *durability);
                write_i32(out, *remaining_bullets);
                write_counted_strings(out, passive_skill_list);
                write_all(out, trailing_bytes.as_slice());
            },
        }
        assert(out@ =~= old(out)@ + ser_dynamic_item(self@));
    }
}

proof fn lemma_counted_strings_roundtrip(xs: Seq<Seq<char>>, rest: Seq<u8>)
    requires
        strings_ok(xs),
    ensures
        parse_counted_strings(ser_counted_strings(xs) + rest) == Some((xs, ser_counted_strings(xs).len() as int)),
{
    let p = fstring_parser();
    let f = fstring_writer();
    let ok = |c: Seq<char>| fstring_ok(c);
    assert forall|x: Seq<char>, r: Seq<u8>| ok(x) implies #[trigger] p(f(x) + r) == Some((x, f(x).len() as int)) by {}
    assert forall|i: int| 0 <= i < xs.len() implies #[trigger] ok(xs[i]) by {
        assert(fstring_ok(xs[i]));
    }
    lemma_repeat_roundtrip(p, f, ok, xs, rest);
    let c = le_u32(xs.len() as u32);
    let items = ser_repeat(f, xs);
    lemma_assoc(c, items, rest);
    assert((c + (items + rest)).skip(4) == items + rest);
}

proof fn lemma_egg_roundtrip(t: DynamicItemTypeView)
    requires
        t is Egg,
        item_type_ok(t),
    ensures
        parse_egg(ser_item_type(t)) == Some(t),
{
    if let DynamicItemTypeView::Egg { leading_bytes, character_id, object, trailing_bytes } = t {
        let c = ser_fstring(character_id);
        let p = ser_properties(object);
        let s = ser_item_type(t);
        lemma_assoc(leading_bytes + c, p, trailing_bytes);
        lemma_assoc(leading_bytes, c, p + trailing_bytes);
        assert(s == leading_bytes + (c + (p + trailing_bytes)));
        assert(s.skip(4) == c + (p + trailing_bytes));
        assert(s.skip(4).skip(c.len() as int) == p + trailing_bytes);
        lemma_properties_roundtrip(object, trailing_bytes);
        assert((p + trailing_bytes).skip(p.len() as int) == trailing_bytes);
        assert(trailing_bytes + Seq::<u8>::empty() == trailing_bytes);
        assert(parse_bytes(trailing_bytes, 28) == Some((trailing_bytes, 28int)));
    }
}

proof fn lemma_weapon_roundtrip(t: DynamicItemTypeView)
    requires
        t is Weapon,
        item_type_ok(t),
    ensures
        parse_weapon(ser_item_type(t)) == Some(t),
{
    if let DynamicItemTypeView::Weapon {
        leading_bytes,
        durability,
        remaining_bullets,
        passive_skill_list,
        trailing_bytes,
    } = t {
        let d = le_u32(durability);
        let b = le_i32(remaining_bullets);
        let c = ser_counted_strings(passive_skill_list);
        let s = ser_item_type(t);
        lemma_assoc(leading_bytes + d + b, c, trailing_bytes);
        lemma_assoc(leading_bytes + d, b, c + trailing_bytes);
        lemma_assoc(leading_bytes, d, b + (c + trailing_bytes));
        assert(s == leading_bytes + (d + (b + (c + trailing_bytes))));
        assert(s.skip(4) == d + (b + (c + trailing_bytes)));
        assert(s.skip(4).skip(4) == b + (c + trailing_bytes));
        assert(s.skip(4).skip(4).skip(4) == c + trailing_bytes);
        lemma_counted_strings_roundtrip(passive_skill_list, trailing_bytes);
        assert((c + trailing_bytes).skip(c.len() as int) == trailing_bytes);
        assert(trailing_bytes + Seq::<u8>::empty() == trailing_bytes);
        assert(parse_bytes(trailing_bytes, 4) == Some((trailing_bytes, 4int)));
    }
}

proof fn lemma_armor_roundtrip(t: DynamicItemTypeView)
    requires
        t is Armor,
        item_type_ok(t),
    ensures
        parse_armor(ser_item_type(t)) == Some(t),
        parse_egg(ser_item_type(t)) is None,
        parse_weapon(ser_item_type(t)) is None,
{
    if let DynamicItemTypeView::Armor { leading_bytes, durability, trailing_bytes } = t {
        let d = le_u32(durability);
        let s = ser_item_type(t);
        lemma_assoc(leading_bytes, d, trailing_bytes);
        assert(s == leading_bytes + (d + trailing_bytes));
        assert(s.len() == 12);
        assert(s.skip(4) == d + trailing_bytes);
        assert(s.skip(4).skip(4) == trailing_bytes);
        assert(trailing_bytes + Seq::<u8>::empty() == trailing_bytes);
        assert(parse_bytes(trailing_bytes, 4) == Some((trailing_bytes, 4int)));
        match parse_fstring(s.skip(4)) {
            None => {},
            Some((cid, n)) => {
                lemma_properties_bounds(s.skip(4).skip(n));
            },
        }
        assert(s.skip(4).skip(4).skip(4).len() == 0);
    }
}

/// A written dynamic item reads back, provided that its data is not taken
/// for a layout that reading tries earlier (see [`item_type_unambiguous`]).
pub proof fn lemma_dynamic_item_roundtrip(v: PalDynamicItemView)
    requires
        fstring_ok(v.static_id),
        item_type_ok(v.item_type),
        item_type_unambiguous(v.item_type),
    ensures
        parse_dynamic_item(ser_dynamic_item(v)) == Some(v),
{
    let a = ser_dynamic_id(v.id);
    let b = ser_fstring(v.static_id);
    let t = ser_item_type(v.item_type);
    lemma_assoc(a, b, t);
    assert(ser_dynamic_item(v).skip(32) == b + t);
    assert((b + t).skip(b.len() as int) == t);
    match v.item_type {
        DynamicItemTypeView::Egg { .. } => lemma_egg_roundtrip(v.item_type),
        DynamicItemTypeView::Weapon { .. } => lemma_weapon_roundtrip(v.item_type),
        DynamicItemTypeView::Armor { .. } => lemma_armor_roundtrip(v.item_type),
        DynamicItemTypeView::Unknown { .. } => {},
    }
}

/// Weapon data against its bytes: four leading bytes (0..4), the durability
/// (4..8), the remaining bullets (8..12), the counted passive skills from
/// byte 12 on, and the last four bytes.
pub proof fn lemma_weapon_layout(s: Seq<u8>)
    requires
        parse_weapon(s) is Some,
    ensures
        ({
            let w = parse_weapon(s)->0;
            &&& w is Weapon
            &&& w->Weapon_leading_bytes == s.subrange(0, 4)
            &&& le_u32(w->Weapon_durability) == s.subrange(4, 8)
            &&& le_i32(w->remaining_bullets) == s.subrange(8, 12)
            &&& w->passive_skill_list == (parse_counted_strings(s.skip(12))->0).0
            &&& w->Weapon_trailing_bytes == s.subrange(s.len() - 4, s.len() as int)
        }),
{
    lemma_u32_at(s, 4);
    lemma_i32_at(s, 8);
    assert(s.take(4) =~= s.subrange(0, 4));
    assert(s.skip(4).skip(4) =~= s.skip(8));
    assert(s.skip(4).skip(4).skip(4) =~= s.skip(12));
    let t = s.skip(12);
    lemma_counted_strings_bounds(t);
    let m = (parse_counted_strings(t)->0).1;
    assert(t.skip(m).take(4) =~= s.subrange(s.len() - 4, s.len() as int));
}

/// Armor data against its bytes: four leading bytes (0..4), the durability
/// (4..8) and four trailing bytes (8..12).
pub proof fn lemma_armor_layout(s: Seq<u8>)
    requires
        parse_armor(s) is Some,
    ensures
        ({
            let a = parse_armor(s)->0;
            &&& a is Armor
            &&& a->Armor_leading_bytes == s.subrange(0, 4)
            &&& le_u32(a->Armor_durability) == s.subrange(4, 8)
            &&& a->Armor_trailing_bytes == s.subrange(8, 12)
        }),
{
    lemma_u32_at(s, 4);
    assert(s.take(4) =~= s.subrange(0, 4));
    assert(s.skip(4).skip(4).take(4) =~= s.subrange(8, 12));
}

/// Egg data against its bytes: four leading bytes (0..4), the character id
/// from byte 4, the property list after it, and the last 28 bytes.
pub proof fn lemma_egg_layout(s: Seq<u8>)
    requires
        parse_egg(s) is Some,
    ensures
        ({
            let e = parse_egg(s)->0;
            let (cid, n) = parse_fstring(s.skip(4))->0;
            &&& e is Egg
            &&& e->Egg_leading_bytes == s.subrange(0, 4)
            &&& e->character_id == cid
            &&& e->object == (parse_properties(s.skip(4 + n))->0).0
            &&& e->Egg_trailing_bytes == s.subrange(s.len() - 28, s.len() as int)
        }),
{
    let (cid, n) = parse_fstring(s.skip(4))->0;
    let t = s.skip(4).skip(n);
    assert(t =~= s.skip(4 + n));
    lemma_properties_bounds(t);
    let m = (parse_properties(t)->0).1;
    assert(s.take(4) =~= s.subrange(0, 4));
    assert(t.skip(m).take(28) =~= s.subrange(s.len() - 28, s.len() as int));
}

/// A dynamic item against its bytes: its dynamic id (0..32), its static id
/// from byte 32, and its data in all the bytes after that.
pub proof fn lemma_dynamic_item_layout(s: Seq<u8>)
    requires
        parse_dynamic_item(s) is Some,
    ensures
        ({
            let v = parse_dynamic_item(s)->0;
            let (sid, n) = parse_fstring(s.skip(32))->0;
            &&& ser_dynamic_id(v.id) == s.subrange(0, 32)
            &&& v.static_id == sid
            &&& v.item_type == parse_item_type(s.skip(32 + n))
        }),
{
    lemma_dynamic_id_layout(s);
    assert(s.take(32) =~= s.subrange(0, 32));
    let n = (parse_fstring(s.skip(32))->0).1;
    assert(s.skip(32).skip(n) =~= s.skip(32 + n));
}

} // verus!
