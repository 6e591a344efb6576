//! Unreal Engine property lists, read at the level of their tags: each
//! property's name, type and tag data are decoded, its value is kept as the
//! bytes that the tag's size announces. A list ends with a property named
//! `None`.
use vstd::prelude::*;
use crate::bytes::{Reader, parse_u8, parse_u32, parse_i32, parse_bytes, le_u32, le_i32, write_u8, write_u32, write_i32, write_all};
use crate::error::Error;
use crate::fstring::{parse_fstring, fstring_error, ser_fstring, fstring_ok, fstring_writable, fstring_canonical, read_string, write_string, str_eq};
use crate::guid::{Guid, parse_guid, ser_guid};

verus! {

broadcast use
    crate::bytes::group_codec,
    crate::fstring::lemma_fstring_roundtrip,
    crate::fstring::lemma_fstring_bounds,
    crate::guid::lemma_guid_roundtrip,
    crate::repeat::lemma_skip_skip,
;

/// The data that a property tag carries after its array index, by property type.
#[derive(Debug, PartialEq, Eq)]
pub enum PropertyTagData {
    /// Types whose tag carries nothing more.
    Other,
    /// `StructProperty`: the struct's name and GUID.
    Struct { struct_name: String, struct_guid: Guid },
    /// `BoolProperty`: the value itself.
    Bool { value: u8 },
    /// `ByteProperty` and `EnumProperty`: the enum's name.
    Enum { enum_name: String },
    /// `ArrayProperty` and `SetProperty`: the element type.
    Array { inner_type: String },
    /// `MapProperty`: the key and value types.
    MapEntries { key_type: String, value_type: String },
}

/// Model of [`PropertyTagData`].
pub ghost enum TagDataView {
    Other,
    Struct { struct_name: Seq<char>, struct_guid: Guid },
    Bool { value: u8 },
    Enum { enum_name: Seq<char> },
    Array { inner_type: Seq<char> },
    MapEntries { key_type: Seq<char>, value_type: Seq<char> },
}

impl View for PropertyTagData {
    type V = TagDataView;

    open spec fn view(&self) -> TagDataView {
        match self {
            PropertyTagData::Other => TagDataView::Other,
            PropertyTagData::Struct { struct_name, struct_guid } => TagDataView::Struct {
                struct_name: struct_name@,
                struct_guid: *struct_guid,
            },
            PropertyTagData::Bool { value } => TagDataView::Bool { value: *value },
            PropertyTagData::Enum { enum_name } => TagDataView::Enum { enum_name: enum_name@ },
            PropertyTagData::Array { inner_type } => TagDataView::Array { inner_type: inner_type@ },
            PropertyTagData::MapEntries { key_type, value_type } => TagDataView::MapEntries {
                key_type: key_type@,
                value_type: value_type@,
            },
        }
    }
}

/// One property: its tag, and its value as raw bytes.
#[derive(Debug, PartialEq, Eq)]
pub struct Property {
    pub name: String,
    pub property_type: String,
    pub array_index: i32,
    pub tag: PropertyTagData,
    pub guid: Option<Guid>,
    pub value: Vec<u8>,
}

/// Model of [`Property`].
pub ghost struct PropertyView {
    pub name: Seq<char>,
    pub property_type: Seq<char>,
    pub array_index: i32,
    pub tag: TagDataView,
    pub guid: Option<Guid>,
    pub value: Seq<u8>,
}

impl View for Property {
    type V = PropertyView;

    open spec fn view(&self) -> PropertyView {
        PropertyView {
            name: self.name@,
            property_type: self.property_type@,
            array_index: self.array_index,
            tag: self.tag@,
            guid: self.guid,
            value: self.value@,
        }
    }
}

/// A property list, in the order of the save.
#[derive(Debug, PartialEq, Eq)]
pub struct Properties {
    pub items: Vec<Property>,
}

/// The models of a sequence of properties.
pub open spec fn property_views(v: Seq<Property>) -> Seq<PropertyView> {
    v.map_values(|p: Property| p@)
}

impl View for Properties {
    type V = Seq<PropertyView>;

    open spec fn view(&self) -> Seq<PropertyView> {
        property_views(self.items@)
    }
}

/// The shapes of tag data.
#[derive(Clone, Copy, Debug, PartialEq, Eq)]
pub enum TagKind {
    Other,
    Struct,
    Bool,
    Enum,
    Array,
    MapEntries,
}

/// The name that ends a property list.
pub open spec fn none_name() -> Seq<char> {
    "None"@
}

/// The shape of tag data that a property type carries.
pub open spec fn tag_kind(t: Seq<char>) -> TagKind {
    if t == "StructProperty"@ {
        TagKind::Struct
    } else if t == "BoolProperty"@ {
        TagKind::Bool
    } else if t == "ByteProperty"@ || t == "EnumProperty"@ {
        TagKind::Enum
    } else if t == "ArrayProperty"@ || t == "SetProperty"@ {
        TagKind::Array
    } else if t == "MapProperty"@ {
        TagKind::MapEntries
    } else {
        TagKind::Other
    }
}

/// The shape of a tag data model.
pub open spec fn tag_data_kind(d: TagDataView) -> TagKind {
    match d {
        TagDataView::Other => TagKind::Other,
        TagDataView::Struct { .. } => TagKind::Struct,
        TagDataView::Bool { .. } => TagKind::Bool,
        TagDataView::Enum { .. } => TagKind::Enum,
        TagDataView::Array { .. } => TagKind::Array,
        TagDataView::MapEntries { .. } => TagKind::MapEntries,
    }
}

/// Parse of tag data of the given shape.
pub open spec fn parse_tag_data(k: TagKind, s: Seq<u8>) -> Option<(TagDataView, int)> {
    match k {
        TagKind::Other => Some((TagDataView::Other, 0)),
        TagKind::Struct => match parse_fstring(s) {
            None => None,
            Some((name, n)) => match parse_guid(s.skip(n)) {
                None => None,
                Some((g, m)) => Some((TagDataView::Struct { struct_name: name, struct_guid: g }, n + m)),
            },
        },
        TagKind::Bool => match parse_u8(s) {
            None => None,
            Some((v, n)) => Some((TagDataView::Bool { value: v }, n)),
        },
        TagKind::Enum => match parse_fstring(s) {
            None => None,
            Some((name, n)) => Some((TagDataView::Enum { enum_name: name }, n)),
        },
        TagKind::Array => match parse_fstring(s) {
            None => None,
            Some((t, n)) => Some((TagDataView::Array { inner_type: t }, n)),
        },
        TagKind::MapEntries => match parse_fstring(s) {
            None => None,
            Some((kt, n)) => match parse_fstring(s.skip(n)) {
                None => None,
                Some((vt, m)) => Some((TagDataView::MapEntries { key_type: kt, value_type: vt }, n + m)),
            },
        },
    }
}

/// Why tag data of the given shape fails to parse: a string's error, or
/// else too few bytes.
pub open spec fn tag_data_error(k: TagKind, s: Seq<u8>) -> Error {
    match k {
        TagKind::Struct => match parse_fstring(s) {
            None => fstring_error(s),
            Some(_) => Error::UnexpectedEof,
        },
        TagKind::Enum => fstring_error(s),
        TagKind::Array => fstring_error(s),
        TagKind::MapEntries => match parse_fstring(s) {
            None => fstring_error(s),
            Some((_, n)) => fstring_error(s.skip(n)),
        },
        _ => Error::UnexpectedEof,
    }
}

/// Encoding of tag data.
pub open spec fn ser_tag_data(d: TagDataView) -> Seq<u8> {
    match d {
        TagDataView::Other => Seq::empty(),
        TagDataView::Struct { struct_name, struct_guid } => ser_fstring(struct_name) + ser_guid(struct_guid),
        TagDataView::Bool { value } => seq![value],
        TagDataView::Enum { enum_name } => ser_fstring(enum_name),
        TagDataView::Array { inner_type } => ser_fstring(inner_type),
        TagDataView::MapEntries { key_type, value_type } => ser_fstring(key_type) + ser_fstring(value_type),
    }
}

/// Tag data that the encoding carries unchanged.
pub open spec fn tag_data_ok(d: TagDataView) -> bool {
    match d {
        TagDataView::Struct { struct_name, .. } => fstring_ok(struct_name),
        TagDataView::Enum { enum_name } => fstring_ok(enum_name),
        TagDataView::Array { inner_type } => fstring_ok(inner_type),
        TagDataView::MapEntries { key_type, value_type } => fstring_ok(key_type) && fstring_ok(value_type),
        _ => true,
    }
}

/// Tag data whose strings can be written.
pub open spec fn tag_data_writable(d: TagDataView) -> bool {
    match d {
        TagDataView::Struct { struct_name, .. } => fstring_writable(struct_name),
        TagDataView::Enum { enum_name } => fstring_writable(enum_name),
        TagDataView::Array { inner_type } => fstring_writable(inner_type),
        TagDataView::MapEntries { key_type, value_type } => fstring_writable(key_type) && fstring_writable(value_type),
        _ => true,
    }
}

/// Parse of the optional property GUID: a flag byte, and the GUID when the flag is not zero.
pub open spec fn parse_opt_guid(s: Seq<u8>) -> Option<(Option<Guid>, int)> {
    match parse_u8(s) {
        None => None,
        Some((flag, _)) => if flag == 0 {
            Some((None, 1))
        } else {
            match parse_guid(s.skip(1)) {
                None => None,
                Some((g, _)) => Some((Some(g), 17)),
            }
        },
    }
}

/// Encoding of the optional property GUID.
pub open spec fn ser_opt_guid(g: Option<Guid>) -> Seq<u8> {
    match g {
        None => seq![0u8],
        Some(g) => seq![1u8] + ser_guid(g),
    }
}

/// Parse of what follows the tag's size and array index: tag data, the
/// optional GUID and `size` bytes of value.
pub open spec fn parse_tag_rest(
    name: Seq<char>,
    ty: Seq<char>,
    size: u32,
    index: i32,
    s: Seq<u8>,
) -> Option<(PropertyView, int)> {
    match parse_tag_data(tag_kind(ty), s) {
        None => None,
        Some((d, n)) => match parse_opt_guid(s.skip(n)) {
            None => None,
            Some((g, m)) => match parse_bytes(s.skip(n).skip(m), size as int) {
                None => None,
                Some((v, k)) => Some(
                    (
                        PropertyView { name, property_type: ty, array_index: index, tag: d, guid: g, value: v },
                        n + m + k,
                    ),
                ),
            },
        },
    }
}

/// Why what follows a tag's size and array index fails to parse: the tag
/// data's error, or else too few bytes.
pub open spec fn tag_rest_error(ty: Seq<char>, s: Seq<u8>) -> Error {
    match parse_tag_data(tag_kind(ty), s) {
        None => tag_data_error(tag_kind(ty), s),
        Some(_) => Error::UnexpectedEof,
    }
}

/// Why a property after its type fails to parse.
pub open spec fn sized_error(ty: Seq<char>, s: Seq<u8>) -> Error {
    if s.len() < 8 {
        Error::UnexpectedEof
    } else {
        tag_rest_error(ty, s.skip(4).skip(4))
    }
}

/// Why a property after its name fails to parse: its type's error, or the
/// error of what follows.
pub open spec fn property_body_error(s: Seq<u8>) -> Error {
    match parse_fstring(s) {
        None => fstring_error(s),
        Some((ty, n)) => sized_error(ty, s.skip(n)),
    }
}

/// Parse of a property after its type: its size, array index and the rest.
pub open spec fn parse_sized(name: Seq<char>, ty: Seq<char>, s: Seq<u8>) -> Option<(PropertyView, int)> {
    match parse_u32(s) {
        None => None,
        Some((size, _)) => match parse_i32(s.skip(4)) {
            None => None,
            Some((index, _)) => match parse_tag_rest(name, ty, size, index, s.skip(4).skip(4)) {
                None => None,
                Some((p, m)) => Some((p, 8 + m)),
            },
        },
    }
}

/// Parse of a property after its name: its type, size, array index and the rest.
#[verifier::opaque]
pub open spec fn parse_property_body(name: Seq<char>, s: Seq<u8>) -> Option<(PropertyView, int)> {
    match parse_fstring(s) {
        None => None,
        Some((ty, n)) => match parse_sized(name, ty, s.skip(n)) {
            None => None,
            Some((p, m)) => Some((p, n + m)),
        },
    }
}

/// A parsed property body takes no more than its input.
pub proof fn lemma_property_body_bounds(name: Seq<char>, s: Seq<u8>)
    ensures
        parse_property_body(name, s) matches Some((_, m)) ==> 0 <= m <= s.len(),
{
    reveal(parse_property_body);
}

/// Encoding of a property after its name.
pub open spec fn ser_property_body(p: PropertyView) -> Seq<u8> {
    ser_fstring(p.property_type) + le_u32(p.value.len() as u32) + le_i32(p.array_index) + ser_tag_data(p.tag)
        + ser_opt_guid(p.guid) + p.value
}

/// Encoding of a property.
pub open spec fn ser_property(p: PropertyView) -> Seq<u8> {
    ser_fstring(p.name) + ser_property_body(p)
}

/// Properties that the encoding carries unchanged: names, types and tag
/// strings are encodable, the name does not end the list, the tag data has
/// the shape that the type calls for and the value's length fits its field.
pub open spec fn property_ok(p: PropertyView) -> bool {
    &&& fstring_ok(p.name)
    &&& p.name != none_name()
    &&& fstring_ok(p.property_type)
    &&& tag_data_kind(p.tag) == tag_kind(p.property_type)
    &&& tag_data_ok(p.tag)
    &&& p.value.len() <= u32::MAX
}

/// Properties that can be written: every string fits its length field, and
/// the value's length fits the size field.
pub open spec fn property_writable(p: PropertyView) -> bool {
    &&& fstring_writable(p.name)
    &&& fstring_writable(p.property_type)
    &&& tag_data_writable(p.tag)
    &&& p.value.len() <= u32::MAX
}

/// Property lists that can be written.
pub open spec fn properties_writable(ps: Seq<PropertyView>) -> bool {
    forall|i: int| 0 <= i < ps.len() ==> property_writable(#[trigger] ps[i])
}

/// Property lists that read back as written are writable.
pub proof fn lemma_properties_ok_writable(ps: Seq<PropertyView>)
    requires
        properties_ok(ps),
    ensures
        properties_writable(ps),
{
    assert forall|i: int| 0 <= i < ps.len() implies property_writable(#[trigger] ps[i]) by {
        assert(property_ok(ps[i]));
    }
}

/// Parse of a property list up to and including the property named `None`:
/// the properties before it and the bytes consumed.
pub open spec fn parse_properties(s: Seq<u8>) -> Option<(Seq<PropertyView>, int)>
    decreases s.len(),
{
    match parse_fstring(s) {
        None => None,
        Some((name, n)) => if name == none_name() {
            Some((Seq::empty(), n))
        } else {
            match parse_property_body(name, s.skip(n)) {
                None => None,
                Some((p, m)) => if 0 <= m <= s.len() - n {
                    match parse_properties(s.skip(n + m)) {
                        None => None,
                        Some((ps, k)) => Some((seq![p] + ps, n + m + k)),
                    }
                } else {
                    None
                },
            }
        },
    }
}

/// Why a property list fails to parse: the error of the first property
/// (name or body) that does not parse.
pub open spec fn properties_error(s: Seq<u8>) -> Error
    decreases s.len(),
{
    match parse_fstring(s) {
        None => fstring_error(s),
        Some((name, n)) => if name == none_name() {
            Error::UnexpectedEof
        } else {
            match parse_property_body(name, s.skip(n)) {
                None => property_body_error(s.skip(n)),
                Some((p, m)) => if 0 <= m <= s.len() - n {
                    properties_error(s.skip(n + m))
                } else {
                    Error::UnexpectedEof
                },
            }
        },
    }
}

/// A parsed property list takes no more than its input.
pub proof fn lemma_properties_bounds(s: Seq<u8>)
    ensures
        parse_properties(s) matches Some((_, n)) ==> 0 <= n <= s.len(),
    decreases s.len(),
{
    match parse_fstring(s) {
        None => {},
        Some((name, n)) => {
            if name != none_name() {
                match parse_property_body(name, s.skip(n)) {
                    None => {},
                    Some((p, m)) => {
                        if 0 <= m <= s.len() - n {
                            lemma_properties_bounds(s.skip(n + m));
                        }
                    },
                }
            }
        },
    }
}

/// Encoding of properties one after another, without the end marker.
pub open spec fn ser_property_seq(ps: Seq<PropertyView>) -> Seq<u8>
    decreases ps.len(),
{
    if ps.len() == 0 {
        Seq::empty()
    } else {
        ser_property(ps[0]) + ser_property_seq(ps.skip(1))
    }
}

/// Encoding of a property list with its end marker.
pub open spec fn ser_properties(ps: Seq<PropertyView>) -> Seq<u8> {
    ser_property_seq(ps) + ser_fstring(none_name())
}

/// Property lists that the encoding carries unchanged.
pub open spec fn properties_ok(ps: Seq<PropertyView>) -> bool {
    forall|i: int| 0 <= i < ps.len() ==> property_ok(#[trigger] ps[i])
}

/// The result of a parse that follows `n` already consumed bytes holding `acc`.
pub open spec fn after(acc: Seq<PropertyView>, n: int, p: Option<(Seq<PropertyView>, int)>) -> Option<(Seq<PropertyView>, int)> {
    match p {
        None => None,
        Some((ps, k)) => Some((acc + ps, n + k)),
    }
}

/// Classifies a property type name by the tag data it carries.
pub fn tag_kind_of(t: &str) -> (k: TagKind)
    ensures
        k == tag_kind(t@),
{
    if str_eq(t, "StructProperty") {
        TagKind::Struct
    } else if str_eq(t, "BoolProperty") {
        TagKind::Bool
    } else if str_eq(t, "ByteProperty") || str_eq(t, "EnumProperty") {
        TagKind::Enum
    } else if str_eq(t, "ArrayProperty") || str_eq(t, "SetProperty") {
        TagKind::Array
    } else if str_eq(t, "MapProperty") {
        TagKind::MapEntries
    } else {
        TagKind::Other
    }
}

fn read_tag_data(r: &mut Reader, k: TagKind) -> (res: Result<PropertyTagData, Error>)
    requires
        old(r).valid(),
    ensures
        final(r).valid(),
        final(r).data() == old(r).data(),
        match parse_tag_data(k, old(r).rest()) {
            Some((d, n)) => res matches Ok(x) && x@ == d && final(r).position() == old(r).position() + n
                && final(r).rest() == old(r).rest().skip(n),
            None => res == Err::<PropertyTagData, Error>(tag_data_error(k, old(r).rest())),
        },
{
    match k {
        TagKind::Other => {
            assert(r.rest().skip(0) =~= r.rest());
            Ok(PropertyTagData::Other)
        },
        TagKind::Struct => {
            let struct_name = read_string(r)?;
            let struct_guid = Guid::read(r)?;
            Ok(PropertyTagData::Struct { struct_name, struct_guid })
        },
        TagKind::Bool => {
            let value = r.read_u8()?;
            Ok(PropertyTagData::Bool { value })
        },
        TagKind::Enum => {
            let enum_name = read_string(r)?;
            Ok(PropertyTagData::Enum { enum_name })
        },
        TagKind::Array => {
            let inner_type = read_string(r)?;
            Ok(PropertyTagData::Array { inner_type })
        },
        TagKind::MapEntries => {
            let key_type = read_string(r)?;
            let value_type = read_string(r)?;
            Ok(PropertyTagData::MapEntries { key_type, value_type })
        },
    }
}

fn read_opt_guid(r: &mut Reader) -> (res: Result<Option<Guid>, Error>)
    requires
        old(r).valid(),
    ensures
        final(r).valid(),
        final(r).data() == old(r).data(),
        match parse_opt_guid(old(r).rest()) {
            Some((g, n)) => res == Ok::<Option<Guid>, Error>(g) && final(r).position() == old(r).position() + n
                && final(r).rest() == old(r).rest().skip(n),
            None => res == Err::<Option<Guid>, Error>(Error::UnexpectedEof),
        },
{
    let flag = r.read_u8()?;
    if flag == 0 {
        Ok(None)
    } else {
        let g = Guid::read(r)?;
        Ok(Some(g))
    }
}

impl Property {
    /// Reads a property whose name has been read already.
    #[verifier::spinoff_prover]
    #[verifier::rlimit(30)]
    pub fn read_body(r: &mut Reader, name: String) -> (res: Result<Self, Error>)
        requires
            old(r).valid(),
        ensures
            final(r).valid(),
            final(r).data() == old(r).data(),
            match parse_property_body(name@, old(r).rest()) {
                Some((p, n)) => res matches Ok(x) && x@ == p && final(r).position() == old(r).position() + n
                    && final(r).rest() == old(r).rest().skip(n),
                None => res == Err::<Self, Error>(property_body_error(old(r).rest())),
            },
    {
        reveal(parse_property_body);
        let property_type = read_string(r)?;
        Self::read_sized(r, name, property_type)
    }

    fn read_sized(r: &mut Reader, name: String, property_type: String) -> (res: Result<Self, Error>)
        requires
            old(r).valid(),
        ensures
            final(r).valid(),
            final(r).data() == old(r).data(),
            match parse_sized(name@, property_type@, old(r).rest()) {
                Some((p, n)) => res matches Ok(x) && x@ == p && final(r).position() == old(r).position() + n
                    && final(r).rest() == old(r).rest().skip(n),
                None => res == Err::<Self, Error>(sized_error(property_type@, old(r).rest())),
            },
    {
        let size = r.read_u32()?;
        let array_index = r.read_i32()?;
        Self::read_tag_rest(r, name, property_type, size, array_index)
    }

    fn read_tag_rest(r: &mut Reader, name: String, property_type: String, size: u32, array_index: i32) -> (res: Result<
        Self,
        Error,
    >)
        requires
            old(r).valid(),
        ensures
            final(r).valid(),
            final(r).data() == old(r).data(),
            match parse_tag_rest(name@, property_type@, size, array_index, old(r).rest()) {
                Some((p, n)) => res matches Ok(x) && x@ == p && final(r).position() == old(r).position() + n
                    && final(r).rest() == old(r).rest().skip(n),
                None => res == Err::<Self, Error>(tag_rest_error(property_type@, old(r).rest())),
            },
    {
        let kind = tag_kind_of(property_type.as_str());
        let tag = read_tag_data(r, kind)?;
        let guid = read_opt_guid(r)?;
        let value = r.read_bytes(size as usize)?;
        Ok(Property { name, property_type, array_index, tag, guid, value })
    }
}

impl Properties {
    /// Reads properties up to and including the one named `None`.
    #[verifier::spinoff_prover]
    #[verifier::rlimit(40)]
    pub fn read(r: &mut Reader) -> (res: Result<Self, Error>)
        requires
            old(r).valid(),
        ensures
            final(r).valid(),
            final(r).data() == old(r).data(),
            match parse_properties(old(r).rest()) {
                Some((ps, n)) => res matches Ok(x) && x@ == ps && final(r).position() == old(r).position() + n
                    && final(r).rest() == old(r).rest().skip(n),
                None => res == Err::<Self, Error>(properties_error(old(r).rest())),
            },
    {
        let ghost s0 = r.rest();
        let ghost p0 = r.position();
        let mut items: Vec<Property> = Vec::new();
        assert(s0.skip(0) =~= s0);
        loop
            invariant
                r.valid(),
                r.data() == old(r).data(),
                s0 == old(r).rest(),
                p0 == old(r).position(),
                0 <= p0 <= r.position() <= r.data().len(),
                s0 == r.data().skip(p0),
                r.rest() == s0.skip(r.position() - p0),
                parse_properties(s0) == after(property_views(items@), r.position() - p0, parse_properties(r.rest())),
                properties_error(s0) == properties_error(r.rest()),
            decreases r.rest().len(),
        {
            let ghost t = r.rest();
            let ghost d = r.position() - p0;
            let name = read_string(r)?;
            let ghost n = r.position() - p0 - d;
            proof {
                assert(parse_fstring(t) == Some((name@, n)));
                crate::repeat::lemma_skip_skip(r.data(), p0, d + n);
                assert(r.rest() == s0.skip(d + n));
            }
            if str_eq(name.as_str(), "None") {
                proof {
                    assert(parse_properties(t) == Some((Seq::<PropertyView>::empty(), n)));
                    assert(property_views(items@) + Seq::<PropertyView>::empty() =~= property_views(items@));
                }
                return Ok(Properties { items });
            }
            proof {
                lemma_property_body_bounds(name@, t.skip(n));
            }
            let p = match Property::read_body(r, name) {
                Ok(p) => p,
                Err(e) => return Err(e),
            };
            let ghost m = r.position() - p0 - d - n;
            let ghost before = items@;
            items.push(p);
            proof {
                assert(parse_property_body(name@, t.skip(n)) == Some((p@, m)));
                crate::repeat::lemma_skip_skip(r.data(), p0, d + n + m);
                assert(r.rest() == s0.skip(d + n + m));
                assert(t.skip(n + m) == r.rest());
                assert(property_views(items@) =~= property_views(before).push(p@));
                let rest = parse_properties(r.rest());
                match rest {
                    Some((ps, k)) => {
                        assert(property_views(before) + (seq![p@] + ps) =~= property_views(items@) + ps);
                    },
                    None => {},
                }
            }
        }
    }
}

fn write_tag_data(out: &mut Vec<u8>, d: &PropertyTagData)
    requires
        tag_data_writable(d@),
    ensures
        final(out)@ == old(out)@ + ser_tag_data(d@),
{
    match d {
        PropertyTagData::Other => {},
        PropertyTagData::Struct { struct_name, struct_guid } => {
            write_string(out, struct_name.as_str());
            struct_guid.write(out);
        },
        PropertyTagData::Bool { value } => write_u8(out, *value),
        PropertyTagData::Enum { enum_name } => write_string(out, enum_name.as_str()),
        PropertyTagData::Array { inner_type } => write_string(out, inner_type.as_str()),
        PropertyTagData::MapEntries { key_type, value_type } => {
            write_string(out, key_type.as_str());
            write_string(out, value_type.as_str());
        },
    }
    assert(out@ =~= old(out)@ + ser_tag_data(d@));
}

fn write_opt_guid(out: &mut Vec<u8>, g: &Option<Guid>)
    ensures
        final(out)@ == old(out)@ + ser_opt_guid(*g),
{
    match g {
        None => write_u8(out, 0),
        Some(g) => {
            write_u8(out, 1);
            g.write(out);
        },
    }
    assert(out@ =~= old(out)@ + ser_opt_guid(*g));
}

impl Property {
    /// Writes a property: its tag, then its value bytes.
    pub fn write(&self, out: &mut Vec<u8>)
        requires
            property_writable(self@),
        ensures
            final(out)@ == old(out)@ + ser_property(self@),
    {
        write_string(out, self.name.as_str());
        write_string(out, self.property_type.as_str());
        write_u32(out, self.value.len() as u32);
        write_i32(out, self.array_index);
        write_tag_data(out, &self.tag);
        write_opt_guid(out, &self.guid);
        write_all(out, self.value.as_slice());
        assert(out@ =~= old(out)@ + ser_property(self@));
    }
}

/// Appending one property to a sequence appends its encoding.
pub proof fn lemma_property_seq_snoc(ps: Seq<PropertyView>, i: int)
    requires
        0 <= i < ps.len(),
    ensures
        ser_property_seq(ps.take(i + 1)) == ser_property_seq(ps.take(i)) + ser_property(ps[i]),
    decreases i,
{
    if i == 0 {
        let e = ps.take(1).skip(1);
        assert(e.len() == 0);
        assert(ser_property_seq(e) == Seq::<u8>::empty());
        assert(ps.take(1)[0] == ps[0]);
        assert(ps.take(0).len() == 0);
        assert(ser_property_seq(ps.take(1)) == ser_property(ps[0]) + ser_property_seq(e));
        assert(ser_property(ps[0]) + Seq::<u8>::empty() =~= ser_property(ps[0]));
        assert(Seq::<u8>::empty() + ser_property(ps[0]) =~= ser_property(ps[0]));
    } else {
        let q = ps.skip(1);
        lemma_property_seq_snoc(q, i - 1);
        assert(ps.take(i + 1).skip(1) =~= q.take(i));
        assert(ps.take(i).skip(1) =~= q.take(i - 1));
        assert(q[i - 1] == ps[i]);
        crate::repeat::lemma_assoc(ser_property(ps[0]), ser_property_seq(q.take(i - 1)), ser_property(ps[i]));
    }
}

impl Properties {
    /// Writes the properties followed by the property named `None`.
    pub fn write(&self, out: &mut Vec<u8>)
        requires
            properties_writable(self@),
        ensures
            final(out)@ == old(out)@ + ser_properties(self@),
    {
        let ghost views = self@;
        let ghost mid = old(out)@;
        let mut i: usize = 0;
        assert(views.take(0) =~= Seq::<PropertyView>::empty());
        assert(mid + Seq::<u8>::empty() =~= mid);
        while i < self.items.len()
            invariant
                i <= self.items@.len(),
                views == self@,
                properties_writable(views),
                out@ == mid + ser_property_seq(views.take(i as int)),
            decreases self.items@.len() - i,
        {
            assert(property_writable(views[i as int]));
            self.items[i].write(out);
            proof {
                lemma_property_seq_snoc(views, i as int);
                crate::repeat::lemma_assoc(mid, ser_property_seq(views.take(i as int)), ser_property(views[i as int]));
            }
            i = i + 1;
        }
        assert(views.take(i as int) =~= views);
        proof {
            reveal_strlit("None");
        }
        write_string(out, "None");
        assert(out@ =~= old(out)@ + ser_properties(self@));
    }
}

proof fn lemma_tag_data_roundtrip(d: TagDataView, rest: Seq<u8>)
    requires
        tag_data_ok(d),
    ensures
        parse_tag_data(tag_data_kind(d), ser_tag_data(d) + rest) == Some((d, ser_tag_data(d).len() as int)),
{
    match d {
        TagDataView::Other => {
            assert(ser_tag_data(d) =~= Seq::<u8>::empty());
        },
        TagDataView::Struct { struct_name, struct_guid } => {
            crate::repeat::lemma_assoc(ser_fstring(struct_name), ser_guid(struct_guid), rest);
        },
        TagDataView::MapEntries { key_type, value_type } => {
            crate::repeat::lemma_assoc(ser_fstring(key_type), ser_fstring(value_type), rest);
        },
        _ => {},
    }
}

proof fn lemma_opt_guid_roundtrip(g: Option<Guid>, rest: Seq<u8>)
    ensures
        parse_opt_guid(ser_opt_guid(g) + rest) == Some((g, ser_opt_guid(g).len() as int)),
{
    match g {
        None => {},
        Some(x) => {
            crate::repeat::lemma_assoc(seq![1u8], ser_guid(x), rest);
        },
    }
}

/// The bytes of a property after its array index.
spec fn tag_rest_bytes(p: PropertyView) -> Seq<u8> {
    ser_tag_data(p.tag) + (ser_opt_guid(p.guid) + p.value)
}

proof fn lemma_tag_rest_roundtrip(p: PropertyView, rest: Seq<u8>)
    requires
        property_ok(p),
    ensures
        parse_tag_rest(p.name, p.property_type, p.value.len() as u32, p.array_index, tag_rest_bytes(p) + rest)
            == Some((p, tag_rest_bytes(p).len() as int)),
{
    let d = ser_tag_data(p.tag);
    let e = ser_opt_guid(p.guid);
    let v = p.value;
    let t4 = e + (v + rest);
    crate::repeat::lemma_assoc(e, v, rest);
    crate::repeat::lemma_assoc(d, e + v, rest);
    assert(tag_rest_bytes(p) + rest == d + t4);
    lemma_tag_data_roundtrip(p.tag, t4);
    lemma_opt_guid_roundtrip(p.guid, v + rest);
    assert((d + t4).skip(d.len() as int) == t4);
    assert(t4.skip(e.len() as int) == v + rest);
    assert(parse_bytes(v + rest, v.len() as int) == Some((v, v.len() as int)));
}

proof fn lemma_sized_roundtrip(p: PropertyView, rest: Seq<u8>)
    requires
        property_ok(p),
    ensures
        parse_sized(p.name, p.property_type, le_u32(p.value.len() as u32) + (le_i32(p.array_index) + (tag_rest_bytes(p) + rest)))
            == Some((p, 8 + tag_rest_bytes(p).len() as int)),
{
    let b = le_u32(p.value.len() as u32);
    let c = le_i32(p.array_index);
    let t3 = tag_rest_bytes(p) + rest;
    let t2 = c + t3;
    lemma_tag_rest_roundtrip(p, rest);
    assert((b + t2).skip(4) == t2);
    assert(t2.skip(4) == t3);
}

proof fn lemma_property_body_split(p: PropertyView, rest: Seq<u8>)
    ensures
        ser_property_body(p) + rest == ser_fstring(p.property_type) + (le_u32(p.value.len() as u32) + (le_i32(
            p.array_index,
        ) + (tag_rest_bytes(p) + rest))),
{
    let a = ser_fstring(p.property_type);
    let b = le_u32(p.value.len() as u32);
    let c = le_i32(p.array_index);
    let d = ser_tag_data(p.tag);
    let e = ser_opt_guid(p.guid);
    let v = p.value;
    crate::repeat::lemma_assoc(a + b + c + d, e, v);
    crate::repeat::lemma_assoc(a + b + c, d, e + v);
    let t = tag_rest_bytes(p);
    crate::repeat::lemma_assoc(a + b + c, t, rest);
    crate::repeat::lemma_assoc(a + b, c, t + rest);
    crate::repeat::lemma_assoc(a, b, c + (t + rest));
}

#[verifier::spinoff_prover]
#[verifier::rlimit(40)]
proof fn lemma_property_body_roundtrip(p: PropertyView, rest: Seq<u8>)
    requires
        property_ok(p),
    ensures
        parse_property_body(p.name, ser_property_body(p) + rest) == Some((p, ser_property_body(p).len() as int)),
{
    let a = ser_fstring(p.property_type);
    let t1 = le_u32(p.value.len() as u32) + (le_i32(p.array_index) + (tag_rest_bytes(p) + rest));
    lemma_property_body_split(p, rest);
    lemma_sized_roundtrip(p, rest);
    assert((a + t1).skip(a.len() as int) == t1);
    assert(parse_fstring(a + t1) == Some((p.property_type, a.len() as int)));
    reveal(parse_property_body);
}

/// The end marker's name is a valid string.
proof fn lemma_none_name_ok()
    ensures
        fstring_ok(none_name()),
        none_name().len() == 4,
{
    reveal_strlit("None");
}

/// A written property list reads back: reading the bytes that
/// [`Properties::write`] produces gives the same properties and consumes
/// exactly those bytes, whatever follows them.
pub proof fn lemma_properties_roundtrip(ps: Seq<PropertyView>, rest: Seq<u8>)
    requires
        properties_ok(ps),
    ensures
        parse_properties(ser_properties(ps) + rest) == Some((ps, ser_properties(ps).len() as int)),
    decreases ps.len(),
{
    lemma_none_name_ok();
    let z = ser_fstring(none_name());
    if ps.len() == 0 {
        assert(ser_properties(ps) == Seq::<u8>::empty() + z);
        assert(Seq::<u8>::empty() + z =~= z);
        assert(ps =~= Seq::<PropertyView>::empty());
    } else {
        let p = ps[0];
        let q = ps.skip(1);
        assert(property_ok(p));
        assert forall|i: int| 0 <= i < q.len() implies property_ok(#[trigger] q[i]) by {
            assert(q[i] == ps[i + 1]);
        }
        lemma_properties_roundtrip(q, rest);
        let tail = ser_properties(q) + rest;
        let body = ser_property_body(p);
        let name = ser_fstring(p.name);
        assert(ser_properties(ps) + rest =~= name + (body + tail));
        lemma_property_body_roundtrip(p, tail);
        assert((body + tail).skip(body.len() as int) == tail);
        lemma_property_body_bounds(p.name, body + tail);
        assert((name + (body + tail)).skip(name.len() as int) == body + tail);
        assert((name + (body + tail)).skip((name.len() + body.len()) as int) =~= tail);
        assert(seq![p] + q =~= ps);
    }
}

/// The tag data of the given shape at the start of `s` has its strings in
/// the form that writing gives them.
pub open spec fn tag_data_canonical(k: TagKind, s: Seq<u8>) -> bool {
    match k {
        TagKind::Struct => fstring_canonical(s),
        TagKind::Enum => fstring_canonical(s),
        TagKind::Array => fstring_canonical(s),
        TagKind::MapEntries => fstring_canonical(s) && match parse_fstring(s) {
            Some((_, n)) => fstring_canonical(s.skip(n)),
            None => true,
        },
        _ => true,
    }
}

/// The optional-GUID flag at the start of `s` is `0` or `1`.
pub open spec fn opt_guid_canonical(s: Seq<u8>) -> bool {
    s.len() >= 1 && s[0] <= 1
}

/// A property after its name, at the start of `s`, is in the form that
/// writing gives it: its type and tag strings re-encode unchanged and its
/// GUID flag is `0` or `1`.
pub open spec fn property_body_canonical(s: Seq<u8>) -> bool {
    &&& fstring_canonical(s)
    &&& match parse_fstring(s) {
        Some((ty, n)) => {
            let t = s.skip(n).skip(4).skip(4);
            &&& tag_data_canonical(tag_kind(ty), t)
            &&& match parse_tag_data(tag_kind(ty), t) {
                Some((_, n2)) => opt_guid_canonical(t.skip(n2)),
                None => true,
            }
        },
        None => true,
    }
}

/// A property list at the start of `s` is in the form that writing gives
/// it: every name (the ending `None` too) and every property body is.
pub open spec fn properties_canonical(s: Seq<u8>) -> bool
    decreases s.len(),
{
    &&& fstring_canonical(s)
    &&& match parse_fstring(s) {
        None => true,
        Some((name, n)) => if name == none_name() {
            true
        } else {
            &&& property_body_canonical(s.skip(n))
            &&& match parse_property_body(name, s.skip(n)) {
                Some((p, m)) => if 0 <= m <= s.len() - n {
                    properties_canonical(s.skip(n + m))
                } else {
                    true
                },
                None => true,
            }
        },
    }
}

proof fn lemma_tag_data_resave(k: TagKind, s: Seq<u8>)
    requires
        parse_tag_data(k, s) is Some,
        tag_data_canonical(k, s),
    ensures
        ser_tag_data((parse_tag_data(k, s)->0).0) == s.take((parse_tag_data(k, s)->0).1),
{
    match k {
        TagKind::Other => {
            assert(s.take(0) =~= Seq::<u8>::empty());
        },
        TagKind::Struct => {
            let (name, n) = parse_fstring(s)->0;
            crate::guid::lemma_guid_reencode(s.skip(n));
            crate::bytes::lemma_take_split(s, n, 16);
        },
        TagKind::Bool => {
            assert(s.take(1) =~= seq![s[0]]);
        },
        TagKind::MapEntries => {
            let (kt, n) = parse_fstring(s)->0;
            let (vt, m) = parse_fstring(s.skip(n))->0;
            crate::bytes::lemma_take_split(s, n, m);
        },
        _ => {},
    }
}

proof fn lemma_opt_guid_resave(s: Seq<u8>)
    requires
        parse_opt_guid(s) is Some,
        opt_guid_canonical(s),
    ensures
        ser_opt_guid((parse_opt_guid(s)->0).0) == s.take((parse_opt_guid(s)->0).1),
{
    if s[0] == 0 {
        assert(s.take(1) =~= seq![0u8]);
    } else {
        crate::guid::lemma_guid_reencode(s.skip(1));
        assert(s.take(17) =~= seq![1u8] + s.skip(1).take(16));
    }
}

proof fn lemma_tag_rest_resave(name: Seq<char>, ty: Seq<char>, size: u32, index: i32, t: Seq<u8>)
    requires
        parse_tag_rest(name, ty, size, index, t) is Some,
        tag_data_canonical(tag_kind(ty), t),
        parse_tag_data(tag_kind(ty), t) matches Some((_, n2)) && opt_guid_canonical(t.skip(n2)),
    ensures
        ({
            let (p, k) = parse_tag_rest(name, ty, size, index, t)->0;
            ser_tag_data(p.tag) + ser_opt_guid(p.guid) + p.value == t.take(k) && p.value.len() == size
        }),
{
    let (d, n2) = parse_tag_data(tag_kind(ty), t)->0;
    let (g, m2) = parse_opt_guid(t.skip(n2))->0;
    lemma_tag_data_resave(tag_kind(ty), t);
    lemma_opt_guid_resave(t.skip(n2));
    let v = t.skip(n2).skip(m2).take(size as int);
    assert(ser_tag_data(d) + ser_opt_guid(g) + v =~= t.take(n2 + m2 + size));
}

/// A property body in the form that writing gives it is written back as the
/// bytes it was read from.
#[verifier::spinoff_prover]
#[verifier::rlimit(80)]
pub proof fn lemma_property_body_resave(name: Seq<char>, s: Seq<u8>)
    requires
        parse_property_body(name, s) is Some,
        property_body_canonical(s),
    ensures
        ser_property_body((parse_property_body(name, s)->0).0) == s.take((parse_property_body(name, s)->0).1),
{
    reveal(parse_property_body);
    let (ty, n) = parse_fstring(s)->0;
    let s1 = s.skip(n);
    let size = (parse_u32(s1)->0).0;
    let index = (parse_i32(s1.skip(4))->0).0;
    let s2 = s1.skip(4).skip(4);
    let (p, k) = parse_tag_rest(name, ty, size, index, s2)->0;
    lemma_tag_rest_resave(name, ty, size, index, s2);
    crate::bytes::lemma_u32_reencode(s1);
    crate::bytes::lemma_i32_reencode(s1.skip(4));
    let a = ser_fstring(ty);
    let b = le_u32(p.value.len() as u32);
    let c = le_i32(p.array_index);
    let te = ser_tag_data(p.tag);
    let og = ser_opt_guid(p.guid);
    let r = te + og + p.value;
    crate::repeat::lemma_assoc(a + b + c + te, og, p.value);
    crate::repeat::lemma_assoc(a + b + c, te, og + p.value);
    crate::repeat::lemma_assoc(te, og, p.value);
    crate::repeat::lemma_assoc(a + b, c, r);
    crate::repeat::lemma_assoc(a, b, c + r);
    assert(ser_property_body(p) == a + (b + (c + r)));
    crate::bytes::lemma_take_split(s1.skip(4), 4, k);
    crate::bytes::lemma_take_split(s1, 4, 4 + k);
    crate::bytes::lemma_take_split(s, n, 8 + k);
}

/// A property list in the form that writing gives it is written back as the
/// bytes it was read from, its ending `None` included.
#[verifier::spinoff_prover]
#[verifier::rlimit(80)]
pub proof fn lemma_properties_resave(s: Seq<u8>)
    requires
        parse_properties(s) is Some,
        properties_canonical(s),
    ensures
        ser_properties((parse_properties(s)->0).0) == s.take((parse_properties(s)->0).1),
    decreases s.len(),
{
    reveal(parse_property_body);
    let (name, n) = parse_fstring(s)->0;
    if name == none_name() {
        assert(ser_property_seq(Seq::<PropertyView>::empty()) == Seq::<u8>::empty());
        assert(Seq::<u8>::empty() + ser_fstring(none_name()) =~= ser_fstring(none_name()));
    } else {
        let (p, m) = parse_property_body(name, s.skip(n))->0;
        let t = s.skip(n + m);
        lemma_properties_resave(t);
        lemma_property_body_resave(name, s.skip(n));
        lemma_properties_bounds(t);
        let (ps, k) = parse_properties(t)->0;
        let all = seq![p] + ps;
        assert(all[0] == p);
        assert(all.skip(1) =~= ps);
        assert(ser_property_seq(all) == ser_property(p) + ser_property_seq(ps));
        let a = ser_fstring(name);
        let b = ser_property_body(p);
        crate::repeat::lemma_assoc(a + b, ser_property_seq(ps), ser_fstring(none_name()));
        crate::repeat::lemma_assoc(a, b, ser_properties(ps));
        assert(ser_properties(all) == a + (b + ser_properties(ps)));
        crate::bytes::lemma_take_split(s.skip(n), m, k);
        crate::bytes::lemma_take_split(s, n, m + k);
    }
}

/// Tag data against its bytes: a struct's name then its GUID, an enum's
/// name, an array's element type, a map's key type then its value type, a
/// boolean's value byte.
pub proof fn lemma_tag_data_layout(k: TagKind, s: Seq<u8>)
    requires
        parse_tag_data(k, s) is Some,
    ensures
        ({
            let d = (parse_tag_data(k, s)->0).0;
            let (a, n) = parse_fstring(s)->0;
            match k {
                TagKind::Struct => d == TagDataView::Struct { struct_name: a, struct_guid: (parse_guid(s.skip(n))->0).0 }
                    && ser_guid(d->struct_guid) == s.subrange(n, n + 16),
                TagKind::Enum => d == TagDataView::Enum { enum_name: a },
                TagKind::Array => d == TagDataView::Array { inner_type: a },
                TagKind::MapEntries => d == TagDataView::MapEntries {
                    key_type: a,
                    value_type: (parse_fstring(s.skip(n))->0).0,
                },
                TagKind::Bool => d == TagDataView::Bool { value: s[0] },
                TagKind::Other => d == TagDataView::Other,
            }
        }),
{
    if k == TagKind::Struct {
        let n = (parse_fstring(s)->0).1;
        crate::guid::lemma_guid_at(s, n);
    }
}

/// A property after its name, against its bytes: its type, then the size of
/// its value (four bytes after the type), its array index (the next four),
/// its tag data, its optional GUID, and its value in the last `size` bytes.
#[verifier::spinoff_prover]
#[verifier::rlimit(40)]
pub proof fn lemma_property_body_layout(name: Seq<char>, s: Seq<u8>)
    requires
        parse_property_body(name, s) is Some,
    ensures
        ({
            let (p, k) = parse_property_body(name, s)->0;
            let (ty, n) = parse_fstring(s)->0;
            &&& p.name == name
            &&& p.property_type == ty
            &&& le_u32(p.value.len() as u32) == s.subrange(n, n + 4)
            &&& le_i32(p.array_index) == s.subrange(n + 4, n + 8)
            &&& p.tag == (parse_tag_data(tag_kind(ty), s.skip(n + 8))->0).0
            &&& p.value == s.subrange(k - p.value.len(), k)
        }),
{
    reveal(parse_property_body);
    let (ty, n) = parse_fstring(s)->0;
    let s1 = s.skip(n);
    crate::bytes::lemma_u32_at(s, n);
    crate::bytes::lemma_i32_at(s, n + 4);
    assert(s1 =~= s.skip(n));
    assert(s1.skip(4) =~= s.skip(n + 4));
    let s2 = s1.skip(4).skip(4);
    assert(s2 =~= s.skip(n + 8));
    let (d, n2) = parse_tag_data(tag_kind(ty), s2)->0;
    let (g, m2) = parse_opt_guid(s2.skip(n2))->0;
    let size = (parse_u32(s1)->0).0 as int;
    assert(s2.skip(n2).skip(m2).take(size) =~= s.subrange(n + 8 + n2 + m2, n + 8 + n2 + m2 + size));
}

} // verus!
