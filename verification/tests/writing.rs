use uesave::bytes::Reader;
use uesave::fstring::{read_string, write_string};
use uesave::guid::Guid;
use uesave::palworld::build_types;
use uesave::palworld::embedded::{process_property_for_read, process_property_for_write, ReadAction, WriteValue};
use uesave::palworld::groups::PalGroupData;
use uesave::palworld::embedded::{read_pal_struct, PalStructValue};
use uesave::palworld::work::{PalWorkTransform, PalWorkTypeSpecificData};
use uesave::palworld::types::PalInstanceId;
use uesave::palworld::character::PalCharacterData;
use uesave::palworld::is_pal_struct_type;
use uesave::palworld::map_concrete_model_module::{PalMapConcreteModelModule, PalMapConcreteModelModuleData};
use uesave::properties::{Properties, Property, PropertyTagData};
use uesave::struct_types::StructType;

#[test]
fn strings_with_nul_are_written_as_they_are() {
    let mut out = Vec::new();
    write_string(&mut out, "a\0b");
    assert_eq!(out, vec![4, 0, 0, 0, b'a', 0, b'b', 0]);
    let mut r = Reader::new(&out);
    assert_eq!(read_string(&mut r), Ok("a".to_string()));
}

#[test]
fn password_with_nul_is_written() {
    let m = PalMapConcreteModelModule {
        module_type: "EPalMapObjectConcreteModelModuleType::PasswordLock".to_string(),
        data: PalMapConcreteModelModuleData::PasswordLock {
            lock_state: 2,
            password: "1\02".to_string(),
            player_infos: vec![],
            trailing_bytes: [9; 4],
        },
        custom_version_data: vec![],
    };
    let mut out = Vec::new();
    m.write(&mut out);
    assert_eq!(out, vec![2, 4, 0, 0, 0, b'1', 0, b'2', 0, 0, 0, 0, 0, 9, 9, 9, 9]);
}

#[test]
fn unknown_module_writes_its_raw_bytes() {
    let m = PalMapConcreteModelModule {
        module_type: "Other".to_string(),
        data: PalMapConcreteModelModuleData::Unknown { module_type: "Other".to_string(), raw_bytes: vec![5, 6] },
        custom_version_data: vec![1],
    };
    let mut out = Vec::new();
    m.write(&mut out);
    assert_eq!(out, vec![5, 6]);
}

#[test]
fn character_data_with_any_property_tree_is_written() {
    let p = Property {
        name: "None".to_string(),
        property_type: "StructProperty".to_string(),
        array_index: 0,
        tag: PropertyTagData::Other,
        guid: None,
        value: vec![7],
    };
    let c = PalCharacterData {
        object: Properties { items: vec![p] },
        unknown_bytes: None,
        group_id: Guid::from_bytes([3; 16]),
        trailing_bytes: None,
    };
    let mut out = Vec::new();
    c.write(&mut out);
    let mut expected = vec![5, 0, 0, 0, b'N', b'o', b'n', b'e', 0];
    expected.extend_from_slice(&[15, 0, 0, 0]);
    expected.extend_from_slice(b"StructProperty\0");
    expected.extend_from_slice(&[1, 0, 0, 0, 0, 0, 0, 0, 0, 7]);
    expected.extend_from_slice(&[5, 0, 0, 0, b'N', b'o', b'n', b'e', 0]);
    expected.extend_from_slice(&[3; 16]);
    assert_eq!(out, expected);
}

#[test]
fn palworld_hints_are_generic_guid_or_pal_types() {
    let types = build_types(true, vec![]);
    for path in [
        "worldSaveData.CharacterSaveParameterMap.Key",
        "worldSaveData.DungeonSaveData.RewardSaveDataMap.Key",
        "worldSaveData.GroupSaveDataMap.RawData",
        "worldSaveData.WorkSaveData",
        "worldSaveData.GuildExtraSaveDataMap.Lab.RawData",
    ] {
        let t = types.get(path).unwrap();
        assert!(*t == StructType::Struct(None) || *t == StructType::Guid || is_pal_struct_type(t));
    }
    assert_eq!(types.get("worldSaveData.GroupSaveDataMap.RawData"), Some(&StructType::PalGroupData));
}

#[test]
fn embedded_struct_resaves_byte_for_byte() {
    let g = PalGroupData {
        group_id: Guid::from_bytes([1; 16]),
        group_name: "Guild".to_string(),
        individual_character_handle_ids: vec![PalInstanceId {
            guid: Guid::from_bytes([2; 16]),
            instance_id: Guid::from_bytes([3; 16]),
        }],
        remaining_data: vec![4, 5],
    };
    let mut bytes = Vec::new();
    g.write(&mut bytes);
    let read = process_property_for_read(Some(&StructType::PalGroupData), "a.RawData", Some(&bytes), None, false);
    let v = match read {
        Ok(ReadAction::Replace(v)) => v,
        other => panic!("unexpected {:?}", other),
    };
    let written = process_property_for_write(Some(&StructType::PalGroupData), &WriteValue::Struct(v));
    assert_eq!(written, Some(bytes));
}

#[test]
fn work_site_read_takes_its_defaults() {
    let v = read_pal_struct(&[1, 2, 3], &StructType::PalWork).unwrap();
    match v {
        PalStructValue::PalWork(w) => {
            assert_eq!(w.work_type, "Unknown");
            assert!(w.base_data.is_none());
            assert!(w.assign_data.is_none());
            assert_eq!(w.transform, PalWorkTransform { transform_type: 0, map_object_instance_id: None, trailing_bytes: None });
            assert_eq!(w.work_specific_data, PalWorkTypeSpecificData::Unknown { data: vec![1, 2, 3] });
        },
        other => panic!("unexpected {:?}", other),
    }
}

#[test]
fn module_bytes_resave_unchanged() {
    let t = "EPalMapObjectConcreteModelModuleType::PasswordLock";
    let mut b = vec![1u8, 5, 0, 0, 0, b'a', b'b', b'c', b'd', 0, 1, 0, 0, 0];
    b.extend_from_slice(&[7; 16]);
    b.extend_from_slice(&3i32.to_le_bytes());
    b.extend_from_slice(&1u32.to_le_bytes());
    b.extend_from_slice(&[9; 4]);
    let m = PalMapConcreteModelModule::read_with_module_type(&b, t, vec![]).unwrap();
    let mut out = Vec::new();
    m.write(&mut out);
    assert_eq!(out, b);
}

#[test]
fn character_bytes_resave_unchanged_in_both_layouts() {
    let mut list = Vec::new();
    Properties { items: vec![] }.write(&mut list);
    for tail_len in [16usize, 24] {
        let mut b = list.clone();
        b.extend((0..tail_len).map(|i| i as u8));
        let mut r = Reader::new(&b);
        let c = PalCharacterData::read(&mut r).unwrap();
        assert_eq!(c.unknown_bytes.is_some(), tail_len == 24);
        assert_eq!(c.trailing_bytes.is_some(), tail_len == 24);
        let mut out = Vec::new();
        c.write(&mut out);
        assert_eq!(out, b);
    }
}
