use uesave::bytes::Reader;
use uesave::error::Error;
use uesave::guid::Guid;
use uesave::math::{Quat, Vector};
use uesave::palworld::base_camp::PalBaseCamp;
use uesave::palworld::build_process::PalBuildProcess;
use uesave::palworld::character::PalCharacterContainer;
use uesave::palworld::connector::{PalConnect, PalConnectInfoItem, PalConnector};
use uesave::palworld::groups::PalGroupData;
use uesave::palworld::guild::{PalGuildItemStorage, PalGuildLab, PalLabResearchInfo};
use uesave::palworld::items::{PalItemContainer, PalItemContainerPermission, PalItemContainerSlot};
use uesave::palworld::map_model::{PalMapModel, PalMapObjectHp, PalStageInstanceId};
use uesave::palworld::types::{
    PalDynamicId, PalInstanceId, PalItemAndNum, PalItemId, PalPlayerInfo, PalPlayerInfoDetails, PalTransform,
};
use uesave::palworld::work::{PalAssignLocation, PalBoxSphereBounds, PalWork, PalWorkTypeSpecificData, PalWorkableBounds};

fn g(b: u8) -> Guid {
    Guid::from_bytes([b; 16])
}

fn transform(seed: u64) -> PalTransform {
    PalTransform {
        rotation: Quat { x: seed, y: seed + 1, z: seed + 2, w: seed + 3 },
        translation: Vector { x: 10, y: 20, z: 30 },
        scale: Vector { x: 1.0f64.to_bits(), y: 1.0f64.to_bits(), z: 1.0f64.to_bits() },
    }
}

#[test]
fn base_camp_roundtrip() {
    let v = PalBaseCamp {
        id: g(1),
        name: "Camp".to_string(),
        state: 2,
        transform: transform(5),
        area_range: 3500.0f32.to_bits(),
        group_id_belong_to: g(2),
        fast_travel_local_transform: transform(9),
        owner_map_object_instance_id: g(3),
        trailing_bytes: [1, 2, 3, 4],
    };
    let mut out = Vec::new();
    v.write(&mut out);
    assert_eq!(out.len(), 16 + 9 + 1 + 80 + 4 + 16 + 80 + 16 + 4);
    let mut r = Reader::new(&out);
    assert_eq!(PalBaseCamp::read(&mut r), Ok(v));
    assert_eq!(r.remaining(), 0);
}

#[test]
fn build_process_fills_its_payload() {
    let v = PalBuildProcess { state: 1, id: g(4), trailing_bytes: [9, 9, 9, 9] };
    let mut out = Vec::new();
    v.write(&mut out);
    assert_eq!(out.len(), 21);
    let mut r = Reader::new(&out);
    assert_eq!(PalBuildProcess::read(&mut r), Ok(v));
    out.push(0);
    let mut r = Reader::new(&out);
    assert_eq!(PalBuildProcess::read(&mut r), Err(Error::TrailingData));
}

#[test]
fn connector_roundtrip() {
    let v = PalConnector {
        supported_level: 3,
        connect: PalConnect {
            index: 1,
            any_place: vec![
                PalConnectInfoItem { connect_to_model_instance_id: g(5), index: 0 },
                PalConnectInfoItem { connect_to_model_instance_id: g(6), index: 1 },
            ],
        },
        unknown_bytes: vec![7, 7],
    };
    let mut out = Vec::new();
    v.write(&mut out);
    let mut r = Reader::new(&out);
    assert_eq!(PalConnector::read(&mut r), Ok(v));
}

#[test]
fn group_data_roundtrip() {
    let v = PalGroupData {
        group_id: g(1),
        group_name: "Guild of Pals".to_string(),
        individual_character_handle_ids: vec![PalInstanceId { guid: g(2), instance_id: g(3) }],
        remaining_data: vec![1, 2, 3],
    };
    let mut out = Vec::new();
    v.write(&mut out);
    let mut r = Reader::new(&out);
    assert_eq!(PalGroupData::read(&mut r), Ok(v));
}

#[test]
fn guild_lab_and_storage_roundtrip() {
    let lab = PalGuildLab {
        research_info: vec![
            PalLabResearchInfo { research_id: "Research_A".to_string(), work_amount: 10.5f32.to_bits() },
            PalLabResearchInfo { research_id: "Research_B".to_string(), work_amount: 0 },
        ],
        current_research_id: "Research_B".to_string(),
        trailing_bytes: vec![0, 1],
    };
    let mut out = Vec::new();
    lab.write(&mut out);
    let mut r = Reader::new(&out);
    assert_eq!(PalGuildLab::read(&mut r), Ok(lab));

    let storage = PalGuildItemStorage { container_id: g(8), trailing_bytes: vec![5; 6] };
    let mut out = Vec::new();
    storage.write(&mut out);
    assert_eq!(out.len(), 22);
    let mut r = Reader::new(&out);
    assert_eq!(PalGuildItemStorage::read(&mut r), Ok(storage));
}

#[test]
fn item_container_roundtrip() {
    for trailing in [None, Some(vec![1u8, 2])] {
        let v = PalItemContainer {
            permission: PalItemContainerPermission {
                type_a: vec![1, 2],
                type_b: vec![],
                item_static_ids: vec!["Wood".to_string(), "Stone".to_string()],
            },
            trailing_unparsed_data: trailing,
        };
        let mut out = Vec::new();
        v.write(&mut out);
        let mut r = Reader::new(&out);
        assert_eq!(PalItemContainer::read(&mut r), Ok(v));
    }
}

#[test]
fn item_container_slot_roundtrip() {
    let v = PalItemContainerSlot {
        slot_index: 4,
        count: 99,
        item: PalItemId {
            static_id: "Arrow".to_string(),
            dynamic_id: PalDynamicId { created_world_id: g(1), local_id_in_created_world: g(2) },
        },
        trailing_bytes: vec![3, 3, 3],
    };
    let mut out = Vec::new();
    v.write(&mut out);
    let mut r = Reader::new(&out);
    assert_eq!(PalItemContainerSlot::read(&mut r), Ok(v));
}

#[test]
fn character_container_roundtrip() {
    for trailing in [None, Some(vec![9u8])] {
        let v = PalCharacterContainer { player_uid: g(1), instance_id: g(2), permission_tribe_id: 3, trailing_bytes: trailing };
        let mut out = Vec::new();
        v.write(&mut out);
        let mut r = Reader::new(&out);
        assert_eq!(PalCharacterContainer::read(&mut r), Ok(v));
    }
}

#[test]
fn map_model_roundtrip() {
    let v = PalMapModel {
        instance_id: g(1),
        concrete_model_instance_id: g(2),
        base_camp_id_belong_to: g(3),
        group_id_belong_to: g(4),
        hp: PalMapObjectHp { current: 50, max: 100 },
        initial_transform_cache: transform(1),
        repair_work_id: g(5),
        owner_spawner_level_object_instance_id: g(6),
        owner_instance_id: g(7),
        build_player_uid: g(8),
        interact_restrict_type: 1,
        deterioration_damage: 0,
        stage_instance_id_belong_to: PalStageInstanceId { id: g(9), valid: 1 },
        unknown_bytes: vec![4, 4],
    };
    let mut out = Vec::new();
    v.write(&mut out);
    assert_eq!(out.len(), 152 + 89 + 2);
    let mut r = Reader::new(&out);
    assert_eq!(PalMapModel::read(&mut r), Ok(v));
}

#[test]
fn work_keeps_its_payload() {
    let data = [1u8, 2, 3, 4, 5];
    let mut r = Reader::new(&data);
    let w = PalWork::read(&mut r).unwrap();
    assert_eq!(w.work_type, "Unknown");
    assert!(w.base_data.is_none());
    assert!(w.assign_data.is_none());
    assert_eq!(w.work_specific_data, PalWorkTypeSpecificData::Unknown { data: data.to_vec() });
    let mut out = Vec::new();
    w.write(&mut out);
    assert_eq!(out, data.to_vec());
}

#[test]
fn assign_location_and_bounds_roundtrip() {
    let loc = PalAssignLocation { location: Vector { x: 1, y: 2, z: 3 }, facing_direction: Vector { x: 4, y: 5, z: 6 } };
    let mut out = Vec::new();
    loc.write(&mut out);
    assert_eq!(out.len(), 48);
    let mut r = Reader::new(&out);
    assert_eq!(PalAssignLocation::read(&mut r), Ok(loc));

    let bounds = PalWorkableBounds {
        location: Vector { x: 1, y: 1, z: 1 },
        rotation: Quat { x: 0, y: 0, z: 0, w: 1.0f64.to_bits() },
        box_sphere_bounds: PalBoxSphereBounds { origin: Vector { x: 0, y: 0, z: 0 }, box_extent: Vector { x: 2, y: 2, z: 2 }, sphere_radius: 7 },
    };
    let mut out = Vec::new();
    bounds.write(&mut out);
    assert_eq!(out.len(), 112);
    let mut r = Reader::new(&out);
    assert_eq!(PalWorkableBounds::read(&mut r), Ok(bounds));
}

#[test]
fn shared_types_roundtrip() {
    let id = PalItemAndNum {
        item_id: PalItemId {
            static_id: "Berry".to_string(),
            dynamic_id: PalDynamicId { created_world_id: g(1), local_id_in_created_world: g(0) },
        },
        num: 12,
    };
    let player = PalPlayerInfo {
        player_uid: g(3),
        player_info: PalPlayerInfoDetails { last_online_real_time: -5, player_name: "Ünïcödé".to_string() },
    };
    let t = transform(2);
    let mut out = Vec::new();
    id.write(&mut out);
    player.write(&mut out);
    t.write(&mut out);
    let mut r = Reader::new(&out);
    assert_eq!(PalItemAndNum::read(&mut r), Ok(id));
    assert_eq!(PalPlayerInfo::read(&mut r), Ok(player));
    assert_eq!(PalTransform::read(&mut r), Ok(t));
    assert_eq!(r.remaining(), 0);
}
