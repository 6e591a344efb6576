//! Reading values out of property lists: properties by name, the fields of
//! struct properties, byte arrays, strings, and maps from strings to structs.
use vstd::prelude::*;
use crate::bytes::{Reader, parse_u32};
use crate::fstring::{parse_fstring, read_string, str_eq};
use crate::error::Error;
use crate::properties::{Properties, Property, PropertyTagData, PropertyView, TagDataView, parse_properties, lemma_properties_bounds};
use crate::repeat::{parse_repeat, lemma_repeat_fail, lemma_repeat_bounds};

verus! {

broadcast use crate::bytes::group_codec, crate::fstring::lemma_fstring_bounds;

/// The property named `name` at array index 0; the last one when a save
/// holds several.
pub open spec fn find_property(ps: Seq<PropertyView>, name: Seq<char>) -> Option<PropertyView>
    decreases ps.len(),
{
    if ps.len() == 0 {
        None
    } else if ps.last().name == name && ps.last().array_index == 0 {
        Some(ps.last())
    } else {
        find_property(ps.drop_last(), name)
    }
}

/// The fields of a struct property whose value is a property list that
/// fills it; none for other properties.
pub open spec fn struct_fields(p: PropertyView) -> Option<Seq<PropertyView>> {
    if p.tag is Struct {
        match parse_properties(p.value) {
            Some((ps, n)) => if n == p.value.len() { Some(ps) } else { None },
            None => None,
        }
    } else {
        None
    }
}

/// The bytes of a byte array property: an `ArrayProperty` of `ByteProperty`
/// whose value is a count and exactly that many bytes; none for others.
pub open spec fn byte_array_value(p: PropertyView) -> Option<Seq<u8>> {
    if p.tag == (TagDataView::Array { inner_type: "ByteProperty"@ }) {
        match parse_u32(p.value) {
            Some((n, _)) => if p.value.len() == 4 + n { Some(p.value.skip(4)) } else { None },
            None => None,
        }
    } else {
        None
    }
}

/// The text of a `StrProperty` or `NameProperty` whose value is one string
/// that fills it; none for others.
pub open spec fn string_value(p: PropertyView) -> Option<Seq<char>> {
    if p.property_type == "StrProperty"@ || p.property_type == "NameProperty"@ {
        match parse_fstring(p.value) {
            Some((cs, n)) => if n == p.value.len() { Some(cs) } else { None },
            None => None,
        }
    } else {
        None
    }
}

impl Properties {
    /// The property named `name` at array index 0 (the last one, if several).
    pub fn get(&self, name: &str) -> (r: Option<&Property>)
        ensures
            match find_property(self@, name@) {
                Some(p) => r matches Some(x) && x@ == p,
                None => r is None,
            },
    {
        let ghost ps = self@;
        let mut i = self.items.len();
        assert(ps.take(i as int) =~= ps);
        while i > 0
            invariant
                i <= self.items@.len(),
                ps == self@,
                find_property(ps, name@) == find_property(ps.take(i as int), name@),
            decreases i,
        {
            let p = &self.items[i - 1];
            proof {
                let q = ps.take(i as int);
                assert(q.last() == p@);
                assert(q.drop_last() =~= ps.take(i - 1));
            }
            if p.array_index == 0 && str_eq(p.name.as_str(), name) {
                return Some(p);
            }
            i = i - 1;
        }
        assert(ps.take(0).len() == 0);
        None
    }
}

impl Property {
    /// The fields of this struct property; see [`struct_fields`].
    pub fn struct_fields(&self) -> (r: Option<Properties>)
        ensures
            match struct_fields(self@) {
                Some(ps) => r matches Some(x) && x@ == ps,
                None => r is None,
            },
    {
        match &self.tag {
            PropertyTagData::Struct { .. } => {},
            _ => return None,
        }
        let mut r = Reader::new(self.value.as_slice());
        assert(r.rest() =~= self.value@);
        match Properties::read(&mut r) {
            Ok(ps) => if r.remaining() == 0 {
                Some(ps)
            } else {
                None
            },
            Err(_) => None,
        }
    }

    /// The bytes of this byte array property; see [`byte_array_value`].
    pub fn byte_array(&self) -> (r: Option<Vec<u8>>)
        ensures
            match byte_array_value(self@) {
                Some(b) => r matches Some(x) && x@ == b,
                None => r is None,
            },
    {
        proof {
            reveal_strlit("ByteProperty");
        }
        match &self.tag {
            PropertyTagData::Array { inner_type } => {
                if !str_eq(inner_type.as_str(), "ByteProperty") {
                    return None;
                }
            },
            _ => return None,
        }
        let mut r = Reader::new(self.value.as_slice());
        assert(r.rest() =~= self.value@);
        let n = match r.read_u32() {
            Ok(n) => n,
            Err(_) => return None,
        };
        if r.remaining() as u64 != n as u64 {
            return None;
        }
        Some(r.read_to_end())
    }

    /// The text of this string or name property; see [`string_value`].
    pub fn string_value(&self) -> (r: Option<String>)
        ensures
            match string_value(self@) {
                Some(cs) => r matches Some(x) && x@ == cs,
                None => r is None,
            },
    {
        if !str_eq(self.property_type.as_str(), "StrProperty") && !str_eq(self.property_type.as_str(), "NameProperty") {
            return None;
        }
        let mut r = Reader::new(self.value.as_slice());
        assert(r.rest() =~= self.value@);
        match read_string(&mut r) {
            Ok(s) => if r.remaining() == 0 {
                Some(s)
            } else {
                None
            },
            Err(_) => None,
        }
    }
}

/// [`parse_fstring`] as a value.
pub open spec fn key_parser() -> spec_fn(Seq<u8>) -> Option<(Seq<char>, int)> {
    |t: Seq<u8>| parse_fstring(t)
}

/// Parse of a map entry with a string key and a struct value.
pub open spec fn parse_struct_entry(s: Seq<u8>) -> Option<((Seq<char>, Seq<PropertyView>), int)> {
    match parse_fstring(s) {
        None => None,
        Some((k, n)) => match parse_properties(s.skip(n)) {
            None => None,
            Some((ps, m)) => Some(((k, ps), n + m)),
        },
    }
}

/// [`parse_struct_entry`] as a value.
pub open spec fn struct_entry_parser() -> spec_fn(Seq<u8>) -> Option<((Seq<char>, Seq<PropertyView>), int)> {
    |t: Seq<u8>| parse_struct_entry(t)
}

/// Parse of the value of a map from strings to structs, which must fill the
/// input: the count and keys of removed entries, then the count and entries.
pub open spec fn parse_struct_map(s: Seq<u8>) -> Option<Seq<(Seq<char>, Seq<PropertyView>)>> {
    match parse_u32(s) {
        None => None,
        Some((r, _)) => match parse_repeat(key_parser(), s.skip(4), r as nat) {
            None => None,
            Some((_, m)) => {
                let t = s.skip(4).skip(m);
                match parse_u32(t) {
                    None => None,
                    Some((n, _)) => match parse_repeat(struct_entry_parser(), t.skip(4), n as nat) {
                        None => None,
                        Some((es, k)) => if t.skip(4).len() == k { Some(es) } else { None },
                    },
                }
            },
        }
    }
}

/// Map key types whose keys are strings.
pub open spec fn is_string_key_type(t: Seq<char>) -> bool {
    t == "EnumProperty"@ || t == "StrProperty"@ || t == "NameProperty"@
}

/// The entries of a map property from strings (enums, strings or names) to
/// structs; none for other properties.
pub open spec fn struct_map_entries(p: PropertyView) -> Option<Seq<(Seq<char>, Seq<PropertyView>)>> {
    match p.tag {
        TagDataView::MapEntries { key_type, value_type } => if is_string_key_type(key_type) && value_type
            == "StructProperty"@ {
            parse_struct_map(p.value)
        } else {
            None
        },
        _ => None,
    }
}

proof fn lemma_struct_entry_bounds(s: Seq<u8>)
    ensures
        parse_struct_entry(s) matches Some((_, n)) ==> 0 <= n <= s.len(),
{
    if let Some((k, n)) = parse_fstring(s) {
        lemma_properties_bounds(s.skip(n));
    }
}

proof fn lemma_struct_entry_parser_in_bounds()
    ensures
        crate::repeat::parse_in_bounds(struct_entry_parser()),
{
    assert forall|s: Seq<u8>| (#[trigger] struct_entry_parser()(s) matches Some((_, n)) ==> 0 <= n <= s.len()) by {
        lemma_struct_entry_bounds(s);
    }
}

fn read_struct_entry(r: &mut Reader) -> (res: Result<(String, Properties), Error>)
    requires
        old(r).valid(),
    ensures
        final(r).valid(),
        final(r).data() == old(r).data(),
        match parse_struct_entry(old(r).rest()) {
            Some(((k, ps), n)) => res matches Ok((x, y)) && x@ == k && y@ == ps
                && final(r).position() == old(r).position() + n && final(r).rest() == old(r).rest().skip(n),
            None => res is Err,
        },
{
    let k = read_string(r)?;
    proof {
        lemma_properties_bounds(r.rest());
    }
    let ps = Properties::read(r)?;
    Ok((k, ps))
}

/// The models of map entries.
pub open spec fn entries_view(v: Seq<(String, Properties)>) -> Seq<(Seq<char>, Seq<PropertyView>)> {
    v.map_values(|e: (String, Properties)| (e.0@, e.1@))
}

fn skip_keys(r: &mut Reader, count: u32) -> (res: Result<(), Error>)
    requires
        old(r).valid(),
    ensures
        final(r).valid(),
        final(r).data() == old(r).data(),
        match parse_repeat(key_parser(), old(r).rest(), count as nat) {
            Some((_, n)) => res is Ok && final(r).position() == old(r).position() + n
                && final(r).rest() == old(r).rest().skip(n),
            None => res is Err,
        },
{
    let ghost t = r.rest();
    let ghost p0 = r.position();
    let ghost mut keys: Seq<Seq<char>> = Seq::empty();
    let mut i: u32 = 0;
    assert(t.skip(0) =~= t);
    while i < count
        invariant
            r.valid(),
            r.data() == old(r).data(),
            i <= count,
            t == old(r).rest(),
            p0 == old(r).position(),
            0 <= p0 <= r.position(),
            t == r.data().skip(p0),
            parse_repeat(key_parser(), t, i as nat) == Some((keys, r.position() - p0)),
            r.rest() == t.skip(r.position() - p0),
        decreases count - i,
    {
        let k = match read_string(r) {
            Ok(k) => k,
            Err(e) => {
                proof {
                    lemma_repeat_fail(key_parser(), t, (i + 1) as nat, count as nat);
                }
                return Err(e);
            },
        };
        proof {
            keys = keys.push(k@);
        }
        i = i + 1;
    }
    Ok(())
}

fn read_struct_entries(r: &mut Reader, count: u32) -> (res: Result<Vec<(String, Properties)>, Error>)
    requires
        old(r).valid(),
    ensures
        final(r).valid(),
        final(r).data() == old(r).data(),
        match parse_repeat(struct_entry_parser(), old(r).rest(), count as nat) {
            Some((es, n)) => res matches Ok(v) && entries_view(v@) == es && final(r).position() == old(r).position() + n
                && final(r).rest() == old(r).rest().skip(n),
            None => res is Err,
        },
{
    let ghost t = r.rest();
    let ghost p0 = r.position();
    let mut es: Vec<(String, Properties)> = Vec::new();
    let mut i: u32 = 0;
    assert(t.skip(0) =~= t);
    while i < count
        invariant
            r.valid(),
            r.data() == old(r).data(),
            i <= count,
            t == old(r).rest(),
            p0 == old(r).position(),
            0 <= p0 <= r.position(),
            t == r.data().skip(p0),
            parse_repeat(struct_entry_parser(), t, i as nat) == Some((entries_view(es@), r.position() - p0)),
            r.rest() == t.skip(r.position() - p0),
        decreases count - i,
    {
        proof {
            lemma_struct_entry_bounds(r.rest());
        }
        let e = match read_struct_entry(r) {
            Ok(e) => e,
            Err(err) => {
                proof {
                    lemma_repeat_fail(struct_entry_parser(), t, (i + 1) as nat, count as nat);
                }
                return Err(err);
            },
        };
        let ghost before = es@;
        es.push(e);
        assert(entries_view(es@) =~= entries_view(before).push((es@.last().0@, es@.last().1@)));
        i = i + 1;
    }
    Ok(es)
}

impl Property {
    /// The entries of this map property from strings to structs; see [`struct_map_entries`].
    pub fn struct_map_entries(&self) -> (r: Option<Vec<(String, Properties)>>)
        ensures
            match struct_map_entries(self@) {
                Some(es) => r matches Some(v) && entries_view(v@) == es,
                None => r is None,
            },
    {
        match &self.tag {
            PropertyTagData::MapEntries { key_type, value_type } => {
                let k = key_type.as_str();
                if !(str_eq(k, "EnumProperty") || str_eq(k, "StrProperty") || str_eq(k, "NameProperty")) {
                    return None;
                }
                if !str_eq(value_type.as_str(), "StructProperty") {
                    return None;
                }
            },
            _ => return None,
        }
        let mut r = Reader::new(self.value.as_slice());
        assert(r.rest() =~= self.value@);
        let removed = match r.read_u32() {
            Ok(n) => n,
            Err(_) => return None,
        };
        proof {
            lemma_repeat_bounds(key_parser(), r.rest(), removed as nat);
        }
        match skip_keys(&mut r, removed) {
            Ok(()) => {},
            Err(_) => return None,
        }
        let n = match r.read_u32() {
            Ok(n) => n,
            Err(_) => return None,
        };
        let ghost before = r.rest();
        match read_struct_entries(&mut r, n) {
            Ok(es) => if r.remaining() == 0 {
                proof {
                    lemma_struct_entry_parser_in_bounds();
                    lemma_repeat_bounds(struct_entry_parser(), before, n as nat);
                }
                Some(es)
            } else {
                proof {
                    lemma_struct_entry_parser_in_bounds();
                    lemma_repeat_bounds(struct_entry_parser(), before, n as nat);
                }
                None
            },
            Err(_) => None,
        }
    }
}

/// The property found for a name is the last one in the list with that name
/// at array index 0: it is in the list, and none after it has that name and
/// index. When none is found, no property has that name and index.
pub proof fn lemma_find_property_is_last(ps: Seq<PropertyView>, name: Seq<char>)
    ensures
        match find_property(ps, name) {
            Some(p) => exists|i: int|
                0 <= i < ps.len() && #[trigger] ps[i] == p && p.name == name && p.array_index == 0 && forall|j: int|
                    i < j < ps.len() ==> !((#[trigger] ps[j]).name == name && ps[j].array_index == 0),
            None => forall|j: int| 0 <= j < ps.len() ==> !((#[trigger] ps[j]).name == name && ps[j].array_index == 0),
        },
    decreases ps.len(),
{
    if ps.len() > 0 {
        let q = ps.drop_last();
        lemma_find_property_is_last(q, name);
        if ps.last().name == name && ps.last().array_index == 0 {
            assert(ps[ps.len() - 1] == ps.last());
        } else {
            match find_property(q, name) {
                Some(p) => {
                    let i = choose|i: int|
                        0 <= i < q.len() && #[trigger] q[i] == p && p.name == name && p.array_index == 0 && forall|j: int|
                            i < j < q.len() ==> !((#[trigger] q[j]).name == name && q[j].array_index == 0);
                    assert(ps[i] == q[i]);
                    assert forall|j: int| i < j < ps.len() implies !((#[trigger] ps[j]).name == name && ps[j].array_index
                        == 0) by {
                        if j < q.len() {
                            assert(ps[j] == q[j]);
                        }
                    }
                },
                None => {
                    assert forall|j: int| 0 <= j < ps.len() implies !((#[trigger] ps[j]).name == name
                        && ps[j].array_index == 0) by {
                        if j < q.len() {
                            assert(ps[j] == q[j]);
                        }
                    }
                },
            }
        }
    }
}

/// A byte array's bytes are its value after the four-byte count, and the
/// count is their number.
pub proof fn lemma_byte_array_layout(p: PropertyView)
    requires
        byte_array_value(p) is Some,
    ensures
        byte_array_value(p)->0 == p.value.skip(4),
        crate::bytes::le_u32((byte_array_value(p)->0).len() as u32) == p.value.take(4),
{
    crate::bytes::lemma_u32_reencode(p.value);
}

} // verus!
