use uesave::bytes::Reader;
use uesave::error::Error;
use uesave::guid::Guid;
use uesave::palworld::build_process::PalBuildProcess;
use uesave::palworld::character::PalCharacterData;
use uesave::palworld::dynamic_item::{PalDynamicItem, PalDynamicItemType};
use uesave::palworld::embedded::{process_property_for_read, process_property_for_write, read_pal_struct, PalStructValue, ReadAction, WriteValue};
use uesave::palworld::guild::PalGuildItemStorage;
use uesave::palworld::map_concrete_model_module::{
    module_kind_of, ModuleKind, PalMapConcreteModelModule, PalMapConcreteModelModuleData, PalModuleSlotIndexes,
    PalPlayerLockInfo,
};
use uesave::palworld::types::PalDynamicId;
use uesave::properties::{Properties, Property, PropertyTagData};
use uesave::struct_types::StructType;

fn g(b: u8) -> Guid {
    Guid::from_bytes([b; 16])
}

fn int_property(name: &str, value: i32) -> Property {
    Property {
        name: name.to_string(),
        property_type: "IntProperty".to_string(),
        array_index: 0,
        tag: PropertyTagData::Other,
        guid: None,
        value: value.to_le_bytes().to_vec(),
    }
}

#[test]
fn character_data_with_and_without_legacy_padding() {
    let modern = PalCharacterData {
        object: Properties { items: vec![int_property("Level", 12)] },
        unknown_bytes: None,
        group_id: g(3),
        trailing_bytes: None,
    };
    let mut out = Vec::new();
    modern.write(&mut out);
    let mut r = Reader::new(&out);
    assert_eq!(PalCharacterData::read(&mut r), Ok(modern));
    assert_eq!(r.remaining(), 0);

    let legacy = PalCharacterData {
        object: Properties { items: vec![int_property("Level", 12)] },
        unknown_bytes: Some([1, 2, 3, 4]),
        group_id: g(3),
        trailing_bytes: Some([5, 6, 7, 8]),
    };
    let mut out = Vec::new();
    legacy.write(&mut out);
    let mut r = Reader::new(&out);
    assert_eq!(PalCharacterData::read(&mut r), Ok(legacy));
    assert_eq!(r.remaining(), 0);
}

fn dynamic(item_type: PalDynamicItemType) -> PalDynamicItem {
    PalDynamicItem {
        id: PalDynamicId { created_world_id: g(1), local_id_in_created_world: g(2) },
        static_id: "Item_01".to_string(),
        item_type,
    }
}

fn dynamic_roundtrip(v: PalDynamicItem) {
    let mut out = Vec::new();
    v.write(&mut out);
    let mut r = Reader::new(&out);
    assert_eq!(PalDynamicItem::read(&mut r), Ok(v));
    assert_eq!(r.remaining(), 0);
}

#[test]
fn dynamic_item_layouts() {
    dynamic_roundtrip(dynamic(PalDynamicItemType::Egg {
        leading_bytes: [0, 0, 0, 1],
        character_id: "Lamball".to_string(),
        object: Properties { items: vec![int_property("Rank", 1)] },
        trailing_bytes: [7; 28],
    }));
    dynamic_roundtrip(dynamic(PalDynamicItemType::Weapon {
        leading_bytes: [0, 0, 0, 2],
        durability: 80.0f32.to_bits(),
        remaining_bullets: 6,
        passive_skill_list: vec!["Sharp".to_string(), "Light".to_string()],
        trailing_bytes: [1, 1, 1, 1],
    }));
    dynamic_roundtrip(dynamic(PalDynamicItemType::Armor {
        leading_bytes: [0, 0, 0, 3],
        durability: 55.5f32.to_bits(),
        trailing_bytes: [2, 2, 2, 2],
    }));
    dynamic_roundtrip(dynamic(PalDynamicItemType::Unknown { trailer: vec![1, 2, 3] }));
    dynamic_roundtrip(dynamic(PalDynamicItemType::Unknown { trailer: vec![] }));
}

#[test]
fn armor_with_extra_bytes_is_unknown() {
    let mut out = Vec::new();
    dynamic(PalDynamicItemType::Armor { leading_bytes: [0; 4], durability: 0, trailing_bytes: [0; 4] }).write(&mut out);
    out.push(0xee);
    let mut r = Reader::new(&out);
    let item = PalDynamicItem::read(&mut r).unwrap();
    let mut trailer = vec![0u8; 12];
    trailer.push(0xee);
    assert_eq!(item.item_type, PalDynamicItemType::Unknown { trailer });
}

#[test]
fn truncated_dynamic_item_is_an_error() {
    let data = [0u8; 20];
    let mut r = Reader::new(&data);
    assert_eq!(PalDynamicItem::read(&mut r), Err(Error::UnexpectedEof));
}

#[test]
fn module_kinds() {
    assert_eq!(module_kind_of("EPalMapObjectConcreteModelModuleType::ItemContainer"), ModuleKind::ItemContainer);
    assert_eq!(module_kind_of("EPalMapObjectConcreteModelModuleType::PasswordLock"), ModuleKind::PasswordLock);
    assert_eq!(module_kind_of("Something"), ModuleKind::Other);
}

fn module_roundtrip(t: &str, data: PalMapConcreteModelModuleData) {
    let m = PalMapConcreteModelModule { module_type: t.to_string(), data, custom_version_data: vec![1, 2] };
    let mut out = Vec::new();
    m.write(&mut out);
    let back = PalMapConcreteModelModule::read_with_module_type(&out, t, vec![1, 2]);
    assert_eq!(back, Ok(m));
}

#[test]
fn modules_read_back_under_their_type() {
    module_roundtrip(
        "EPalMapObjectConcreteModelModuleType::ItemContainer",
        PalMapConcreteModelModuleData::ItemContainer {
            target_container_id: g(1),
            slot_attribute_indexes: vec![PalModuleSlotIndexes { attribute: 2, indexes: vec![0, 1, -1] }],
            all_slot_attribute: vec![3, 4],
            drop_item_at_disposed: true,
            usage_type: 5,
            trailing_bytes: [6; 4],
        },
    );
    module_roundtrip(
        "EPalMapObjectConcreteModelModuleType::CharacterContainer",
        PalMapConcreteModelModuleData::CharacterContainer { target_container_id: g(2), trailing_bytes: [1; 4] },
    );
    module_roundtrip(
        "EPalMapObjectConcreteModelModuleType::Workee",
        PalMapConcreteModelModuleData::Workee { target_work_id: g(3), trailing_bytes: [2; 4] },
    );
    module_roundtrip(
        "EPalMapObjectConcreteModelModuleType::Switch",
        PalMapConcreteModelModuleData::Switch { switch_state: 1, trailing_bytes: [3; 4] },
    );
    module_roundtrip(
        "EPalMapObjectConcreteModelModuleType::PasswordLock",
        PalMapConcreteModelModuleData::PasswordLock {
            lock_state: 1,
            password: "1234".to_string(),
            player_infos: vec![PalPlayerLockInfo { player_uid: g(4), try_failed_count: 2, try_success_cache: true }],
            trailing_bytes: [4; 4],
        },
    );
    module_roundtrip(
        "EPalMapObjectConcreteModelModuleType::RequireElementalAction",
        PalMapConcreteModelModuleData::RequireElementalAction { unlock_item: "Key".to_string(), trailing_bytes: [5; 12] },
    );
    module_roundtrip("EPalMapObjectConcreteModelModuleType::Energy", PalMapConcreteModelModuleData::Energy);
    module_roundtrip(
        "Custom::Module",
        PalMapConcreteModelModuleData::Unknown { module_type: "Custom::Module".to_string(), raw_bytes: vec![9, 9] },
    );
}

#[test]
fn empty_payload_of_a_type_with_data_is_unknown() {
    let t = "EPalMapObjectConcreteModelModuleType::Switch";
    let m = PalMapConcreteModelModule::read_with_module_type(&[], t, vec![]).unwrap();
    assert_eq!(m.data, PalMapConcreteModelModuleData::Unknown { module_type: t.to_string(), raw_bytes: vec![] });
}

#[test]
fn module_needs_its_type() {
    let data = [0u8; 4];
    let mut r = Reader::new(&data);
    assert_eq!(PalMapConcreteModelModule::read(&mut r), Err(Error::MissingModuleType));
}

#[test]
fn embedded_struct_roundtrip() {
    let v = PalStructValue::PalBuildProcess(PalBuildProcess { state: 2, id: g(7), trailing_bytes: [0; 4] });
    let written = process_property_for_write(Some(&StructType::PalBuildProcess), &WriteValue::Struct(v)).unwrap();
    assert_eq!(written.len(), 21);
    let action = process_property_for_read(Some(&StructType::PalBuildProcess), "a.b.RawData", Some(&written), None, false);
    assert_eq!(
        action,
        Ok(ReadAction::Replace(PalStructValue::PalBuildProcess(PalBuildProcess { state: 2, id: g(7), trailing_bytes: [0; 4] })))
    );
    let st = match action.unwrap() {
        ReadAction::Replace(v) => v.struct_type(),
        _ => StructType::Guid,
    };
    assert_eq!(st, StructType::PalBuildProcess);
}

#[test]
fn embedded_read_decisions() {
    let bytes = vec![1u8, 2, 3];
    assert_eq!(process_property_for_read(None, "x", Some(&bytes), None, false), Ok(ReadAction::Keep));
    assert_eq!(
        process_property_for_read(Some(&StructType::Struct(None)), "worldSaveData.MapObjectSaveData", None, Some(&vec![]), false),
        Ok(ReadAction::MapObjects(vec![]))
    );
    assert_eq!(
        process_property_for_read(Some(&StructType::Struct(None)), "worldSaveData.MapObjectSaveData", None, None, false),
        Ok(ReadAction::Keep)
    );
    assert_eq!(process_property_for_read(Some(&StructType::Guid), "x", Some(&bytes), None, false), Ok(ReadAction::Keep));
    assert_eq!(process_property_for_read(Some(&StructType::PalWork), "x", None, None, false), Ok(ReadAction::Keep));
    assert_eq!(process_property_for_read(Some(&StructType::PalWork), "x", Some(&[]), None, false), Ok(ReadAction::Keep));
    assert!(process_property_for_read(Some(&StructType::PalBuildProcess), "x", Some(&bytes), None, false).is_err());
    assert_eq!(
        process_property_for_read(Some(&StructType::PalBuildProcess), "x", Some(&bytes), None, true),
        Ok(ReadAction::Keep)
    );
}

#[test]
fn partial_parse_is_refused() {
    let mut base = Vec::new();
    uesave::palworld::base_camp::PalBaseCamp {
        id: g(1),
        name: "A".to_string(),
        state: 0,
        transform: uesave::palworld::types::PalTransform {
            rotation: uesave::math::Quat { x: 0, y: 0, z: 0, w: 0 },
            translation: uesave::math::Vector { x: 0, y: 0, z: 0 },
            scale: uesave::math::Vector { x: 0, y: 0, z: 0 },
        },
        area_range: 0,
        group_id_belong_to: g(2),
        fast_travel_local_transform: uesave::palworld::types::PalTransform {
            rotation: uesave::math::Quat { x: 0, y: 0, z: 0, w: 0 },
            translation: uesave::math::Vector { x: 0, y: 0, z: 0 },
            scale: uesave::math::Vector { x: 0, y: 0, z: 0 },
        },
        owner_map_object_instance_id: g(3),
        trailing_bytes: [0; 4],
    }
    .write(&mut base);
    assert!(read_pal_struct(&base, &StructType::PalBaseCamp).is_ok());
    base.push(1);
    assert_eq!(read_pal_struct(&base, &StructType::PalBaseCamp), Err(Error::PartialParse));
    assert_eq!(read_pal_struct(&base, &StructType::PalMapConcreteModel), Err(Error::NoContextFreeReader));
}

#[test]
fn write_decisions() {
    let raw = WriteValue::Bytes(vec![1, 2]);
    assert_eq!(process_property_for_write(Some(&StructType::PalWork), &raw), Some(vec![1, 2]));
    assert_eq!(process_property_for_write(Some(&StructType::Guid), &raw), None);
    assert_eq!(process_property_for_write(None, &raw), None);
    assert_eq!(process_property_for_write(Some(&StructType::PalWork), &WriteValue::Other), None);
    let storage = WriteValue::Struct(PalStructValue::PalGuildItemStorage(PalGuildItemStorage { container_id: g(1), trailing_bytes: vec![] }));
    assert_eq!(process_property_for_write(Some(&StructType::PalGuildItemStorage), &storage), Some(vec![1u8; 16]));
}
