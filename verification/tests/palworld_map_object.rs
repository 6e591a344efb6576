use uesave::error::Error;
use uesave::guid::Guid;
use uesave::palworld::build_process::PalBuildProcess;
use uesave::palworld::map_concrete_model_module::PalMapConcreteModelModuleData;
use uesave::palworld::map_object::{determine_object_id, parse_map_object_with_context, parse_map_objects, MapObjectElement};
use uesave::properties::{Properties, Property, PropertyTagData};
use uesave::palworld::embedded::{process_property_for_read, ReadAction};
use uesave::struct_types::StructType;

fn fstring(s: &str) -> Vec<u8> {
    let mut v = ((s.len() + 1) as u32).to_le_bytes().to_vec();
    v.extend_from_slice(s.as_bytes());
    v.push(0);
    v
}

fn name_property(name: &str, value: &str) -> Property {
    Property {
        name: name.to_string(),
        property_type: "NameProperty".to_string(),
        array_index: 0,
        tag: PropertyTagData::Other,
        guid: None,
        value: fstring(value),
    }
}

fn byte_array(name: &str, bytes: &[u8]) -> Property {
    let mut value = (bytes.len() as u32).to_le_bytes().to_vec();
    value.extend_from_slice(bytes);
    Property {
        name: name.to_string(),
        property_type: "ArrayProperty".to_string(),
        array_index: 0,
        tag: PropertyTagData::Array { inner_type: "ByteProperty".to_string() },
        guid: None,
        value,
    }
}

fn struct_property(name: &str, fields: Vec<Property>) -> Property {
    let mut value = Vec::new();
    Properties { items: fields }.write(&mut value);
    Property {
        name: name.to_string(),
        property_type: "StructProperty".to_string(),
        array_index: 0,
        tag: PropertyTagData::Struct { struct_name: "Generic".to_string(), struct_guid: Guid::zero() },
        guid: None,
        value,
    }
}

fn module_map(entries: Vec<(&str, Vec<Property>)>) -> Property {
    let mut value = 0u32.to_le_bytes().to_vec();
    value.extend((entries.len() as u32).to_le_bytes());
    for (k, fields) in entries {
        value.extend(fstring(k));
        Properties { items: fields }.write(&mut value);
    }
    Property {
        name: "ModuleMap".to_string(),
        property_type: "MapProperty".to_string(),
        array_index: 0,
        tag: PropertyTagData::MapEntries { key_type: "EnumProperty".to_string(), value_type: "StructProperty".to_string() },
        guid: None,
        value,
    }
}

fn build_process_bytes() -> Vec<u8> {
    let mut out = Vec::new();
    PalBuildProcess { state: 1, id: Guid::from_bytes([4; 16]), trailing_bytes: [0; 4] }.write(&mut out);
    out
}

#[test]
fn object_id_from_a_name_or_string() {
    let ps = Properties { items: vec![name_property("MapObjectId", "Chest01")] };
    assert_eq!(determine_object_id(&ps), Ok("Chest01".to_string()));
    let mut s = name_property("MapObjectId", "Bed");
    s.property_type = "StrProperty".to_string();
    assert_eq!(determine_object_id(&Properties { items: vec![s] }), Ok("Bed".to_string()));
    let mut i = name_property("MapObjectId", "x");
    i.property_type = "IntProperty".to_string();
    assert_eq!(determine_object_id(&Properties { items: vec![i] }), Err(Error::MalformedMapObject));
}

#[test]
fn map_object_parts_are_read() {
    let switch = "EPalMapObjectConcreteModelModuleType::Switch";
    let ps = Properties {
        items: vec![
            name_property("MapObjectId", "Door"),
            struct_property(
                "Model",
                vec![
                    struct_property("Connector", vec![byte_array("RawData", &[])]),
                    struct_property("BuildProcess", vec![byte_array("RawData", &build_process_bytes())]),
                ],
            ),
            struct_property(
                "ConcreteModel",
                vec![module_map(vec![
                    (switch, vec![byte_array("CustomVersionData", &[9]), byte_array("RawData", &[1, 2, 2, 2, 2])]),
                    ("EPalMapObjectConcreteModelModuleType::Energy", vec![byte_array("RawData", &[])]),
                ])],
            ),
        ],
    };
    let data = parse_map_object_with_context(&ps).unwrap();
    assert_eq!(data.map_object_id, "Door");
    assert!(data.model.is_none());
    assert!(data.connector.is_none());
    assert_eq!(data.build_process, Some(PalBuildProcess { state: 1, id: Guid::from_bytes([4; 16]), trailing_bytes: [0; 4] }));
    assert_eq!(data.modules.len(), 1);
    assert_eq!(data.modules[0].module_type, switch);
    assert_eq!(data.modules[0].custom_version_data, vec![9]);
    assert_eq!(data.modules[0].data, PalMapConcreteModelModuleData::Switch { switch_state: 1, trailing_bytes: [2; 4] });
}

#[test]
fn unreadable_model_data_is_an_error() {
    let ps = Properties {
        items: vec![
            name_property("MapObjectId", "Door"),
            struct_property("Model", vec![byte_array("RawData", &[1, 2, 3])]),
        ],
    };
    assert_eq!(parse_map_object_with_context(&ps), Err(Error::UnexpectedEof));
}

#[test]
fn unreadable_build_process_is_an_error() {
    let mut bytes = build_process_bytes();
    bytes.push(0);
    let ps = Properties {
        items: vec![
            name_property("MapObjectId", "Door"),
            struct_property("Model", vec![struct_property("BuildProcess", vec![byte_array("RawData", &bytes)])]),
        ],
    };
    assert_eq!(parse_map_object_with_context(&ps), Err(Error::TrailingData));
}

#[test]
fn map_object_array_is_read_element_by_element() {
    let a = Properties { items: vec![name_property("MapObjectId", "Chest01")] };
    let b = Properties { items: vec![name_property("MapObjectId", "Bed")] };
    let read = parse_map_objects(&vec![MapObjectElement::Fields(a), MapObjectElement::Fields(b)]).unwrap();
    assert_eq!(read.len(), 2);
    assert_eq!(read[0].map_object_id, "Chest01");
    assert_eq!(read[1].map_object_id, "Bed");
    assert_eq!(parse_map_objects(&vec![]), Ok(vec![]));
}

#[test]
fn map_object_array_names_the_element_that_is_not_a_struct() {
    let a = Properties { items: vec![name_property("MapObjectId", "Chest01")] };
    let es = vec![MapObjectElement::Fields(a), MapObjectElement::Other, MapObjectElement::Other];
    assert_eq!(parse_map_objects(&es), Err(Error::MapObjectNotAStruct(2)));
    assert_eq!(parse_map_objects(&vec![MapObjectElement::Other]), Err(Error::MapObjectNotAStruct(1)));
}

#[test]
fn map_object_array_passes_a_failed_read_on() {
    let model = struct_property("Model", vec![byte_array("RawData", &[1, 2, 3])]);
    let bad = Properties { items: vec![name_property("MapObjectId", "Chest01"), model] };
    let es = vec![MapObjectElement::Fields(bad), MapObjectElement::Other];
    assert_eq!(parse_map_objects(&es), Err(Error::UnexpectedEof));
}

#[test]
fn map_object_data_property_is_read_by_the_read_decision() {
    let a = Properties { items: vec![name_property("MapObjectId", "Chest01")] };
    let es = vec![MapObjectElement::Fields(a)];
    let path = "worldSaveData.MapObjectSaveData";
    match process_property_for_read(Some(&StructType::Struct(None)), path, None, Some(&es), true) {
        Ok(ReadAction::MapObjects(ms)) => {
            assert_eq!(ms.len(), 1);
            assert_eq!(ms[0].map_object_id, "Chest01");
        },
        other => panic!("unexpected {:?}", other),
    }
    let bad = vec![MapObjectElement::Other];
    assert_eq!(
        process_property_for_read(Some(&StructType::Struct(None)), path, None, Some(&bad), true),
        Err(Error::MapObjectNotAStruct(1))
    );
}
