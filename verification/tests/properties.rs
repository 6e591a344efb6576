use uesave::bytes::Reader;
use uesave::error::Error;
use uesave::guid::Guid;
use uesave::properties::{tag_kind_of, Properties, Property, PropertyTagData, TagKind};

fn fstring(s: &str) -> Vec<u8> {
    let mut v = ((s.len() + 1) as u32).to_le_bytes().to_vec();
    v.extend_from_slice(s.as_bytes());
    v.push(0);
    v
}

fn int_property(name: &str, value: i32) -> Property {
    Property {
        name: name.to_string(),
        property_type: "IntProperty".to_string(),
        array_index: 0,
        tag: PropertyTagData::Other,
        guid: None,
        value: value.to_le_bytes().to_vec(),
    }
}

#[test]
fn int_property_bytes() {
    let props = Properties { items: vec![int_property("Count", 7)] };
    let mut out = Vec::new();
    props.write(&mut out);
    let mut expected = fstring("Count");
    expected.extend(fstring("IntProperty"));
    expected.extend(4u32.to_le_bytes());
    expected.extend(0i32.to_le_bytes());
    expected.push(0);
    expected.extend(7i32.to_le_bytes());
    expected.extend(fstring("None"));
    assert_eq!(out, expected);
    let mut r = Reader::new(&out);
    assert_eq!(Properties::read(&mut r), Ok(props));
    assert_eq!(r.remaining(), 0);
}

#[test]
fn every_tag_shape_roundtrips() {
    let g = Guid::from_bytes([7; 16]);
    let items = vec![
        Property {
            name: "Pos".to_string(),
            property_type: "StructProperty".to_string(),
            array_index: 0,
            tag: PropertyTagData::Struct { struct_name: "Vector".to_string(), struct_guid: g },
            guid: Some(Guid::from_bytes([9; 16])),
            value: vec![0; 24],
        },
        Property {
            name: "Flag".to_string(),
            property_type: "BoolProperty".to_string(),
            array_index: 0,
            tag: PropertyTagData::Bool { value: 1 },
            guid: None,
            value: vec![],
        },
        Property {
            name: "Kind".to_string(),
            property_type: "EnumProperty".to_string(),
            array_index: 2,
            tag: PropertyTagData::Enum { enum_name: "EKind".to_string() },
            guid: None,
            value: fstring("EKind::A"),
        },
        Property {
            name: "Bytes".to_string(),
            property_type: "ArrayProperty".to_string(),
            array_index: 0,
            tag: PropertyTagData::Array { inner_type: "ByteProperty".to_string() },
            guid: None,
            value: vec![2, 0, 0, 0, 5, 6],
        },
        Property {
            name: "Lookup".to_string(),
            property_type: "MapProperty".to_string(),
            array_index: 0,
            tag: PropertyTagData::MapEntries { key_type: "NameProperty".to_string(), value_type: "IntProperty".to_string() },
            guid: None,
            value: vec![0, 0, 0, 0, 0, 0, 0, 0],
        },
    ];
    let props = Properties { items };
    let mut out = Vec::new();
    props.write(&mut out);
    out.extend([0xaa, 0xbb]);
    let mut r = Reader::new(&out);
    assert_eq!(Properties::read(&mut r), Ok(props));
    assert_eq!(r.read_to_end(), vec![0xaa, 0xbb]);
}

#[test]
fn empty_list_is_just_the_end_marker() {
    let props = Properties { items: vec![] };
    let mut out = Vec::new();
    props.write(&mut out);
    assert_eq!(out, fstring("None"));
    let mut r = Reader::new(&out);
    assert_eq!(Properties::read(&mut r), Ok(props));
}

#[test]
fn missing_end_marker_is_an_error() {
    let props = Properties { items: vec![int_property("A", 1)] };
    let mut out = Vec::new();
    props.write(&mut out);
    out.truncate(out.len() - 9);
    let mut r = Reader::new(&out);
    assert_eq!(Properties::read(&mut r), Err(Error::UnexpectedEof));
}

#[test]
fn oversized_value_is_an_error() {
    let mut bytes = fstring("A");
    bytes.extend(fstring("IntProperty"));
    bytes.extend(100u32.to_le_bytes());
    bytes.extend(0i32.to_le_bytes());
    bytes.push(0);
    bytes.extend([1, 2, 3, 4]);
    let mut r = Reader::new(&bytes);
    assert_eq!(Properties::read(&mut r), Err(Error::UnexpectedEof));
}

#[test]
fn tag_kinds() {
    assert_eq!(tag_kind_of("StructProperty"), TagKind::Struct);
    assert_eq!(tag_kind_of("BoolProperty"), TagKind::Bool);
    assert_eq!(tag_kind_of("ByteProperty"), TagKind::Enum);
    assert_eq!(tag_kind_of("EnumProperty"), TagKind::Enum);
    assert_eq!(tag_kind_of("ArrayProperty"), TagKind::Array);
    assert_eq!(tag_kind_of("SetProperty"), TagKind::Array);
    assert_eq!(tag_kind_of("MapProperty"), TagKind::MapEntries);
    assert_eq!(tag_kind_of("IntProperty"), TagKind::Other);
}

#[test]
fn lookup_takes_the_last_property_at_index_zero() {
    let mut second = int_property("A", 2);
    second.array_index = 1;
    let props = Properties { items: vec![int_property("A", 1), second, int_property("B", 3), int_property("A", 4)] };
    assert_eq!(props.get("A").map(|p| p.value.clone()), Some(4i32.to_le_bytes().to_vec()));
    assert_eq!(props.get("B").map(|p| p.value.clone()), Some(3i32.to_le_bytes().to_vec()));
    assert!(props.get("C").is_none());
}

#[test]
fn byte_array_and_string_values() {
    let bytes = Property {
        name: "RawData".to_string(),
        property_type: "ArrayProperty".to_string(),
        array_index: 0,
        tag: PropertyTagData::Array { inner_type: "ByteProperty".to_string() },
        guid: None,
        value: vec![3, 0, 0, 0, 1, 2, 3],
    };
    assert_eq!(bytes.byte_array(), Some(vec![1, 2, 3]));
    let mut short = bytes.value.clone();
    short.pop();
    let bad = Property { value: short, ..bytes };
    assert_eq!(bad.byte_array(), None);

    let s = Property {
        name: "MapObjectId".to_string(),
        property_type: "NameProperty".to_string(),
        array_index: 0,
        tag: PropertyTagData::Other,
        guid: None,
        value: fstring("Tree"),
    };
    assert_eq!(s.string_value(), Some("Tree".to_string()));
    assert_eq!(int_property("X", 1).string_value(), None);
}
