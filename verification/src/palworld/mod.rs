//! Palworld's embedded binary structs, and the struct type hints that make
//! a save's embedded byte arrays readable as them.
pub mod types;
pub mod base_camp;
pub mod build_process;
pub mod connector;
pub mod groups;
pub mod guild;
pub mod map_model;
pub mod items;
pub mod dynamic_item;
pub mod character;
pub mod work;
pub mod map_concrete_model_module;
pub mod embedded;
pub mod map_object;
use vstd::prelude::*;
use crate::struct_types::{StructType, StructTypeView, Types};

verus! {

/// The property path of the map object data, whose elements are read with
/// the help of sibling properties.
pub open spec fn map_object_save_data_path() -> Seq<char> {
    "worldSaveData.MapObjectSaveData"@
}

/// The struct types that Palworld embeds as byte arrays.
pub open spec fn is_pal_struct_type_spec(t: StructTypeView) -> bool {
    t is PalCharacterData || t is PalItemContainer || t is PalGroupData || t is PalDynamicItem || t is PalBuildProcess || t is PalGuildItemStorage || t is PalGuildLab || t is PalItemContainerSlots || t is PalCharacterContainer || t is PalConnector || t is PalBaseCamp || t is PalWork || t is PalMapModel || t is PalMapConcreteModel || t is PalMapConcreteModelModule
}

/// Whether values of this struct type are embedded as byte arrays.
pub fn is_pal_struct_type(t: &StructType) -> (r: bool)
    ensures
        r == is_pal_struct_type_spec(t@),
{
    match t {
        StructType::PalCharacterData => true,
        StructType::PalItemContainer => true,
        StructType::PalGroupData => true,
        StructType::PalDynamicItem => true,
        StructType::PalBuildProcess => true,
        StructType::PalGuildItemStorage => true,
        StructType::PalGuildLab => true,
        StructType::PalItemContainerSlots => true,
        StructType::PalCharacterContainer => true,
        StructType::PalConnector => true,
        StructType::PalBaseCamp => true,
        StructType::PalWork => true,
        StructType::PalMapModel => true,
        StructType::PalMapConcreteModel => true,
        StructType::PalMapConcreteModelModule => true,
        _ => false,
    }
}

/// The hints for Palworld saves (Level.sav, LevelMeta.sav, Players/*.sav, ...):
/// generic structs, GUIDs, and the byte arrays that hold Palworld structs.
pub open spec fn palworld_types_map() -> Map<Seq<char>, StructTypeView> {
    Map::<Seq<char>, StructTypeView>::empty()
        .insert("worldSaveData.CharacterContainerSaveData.Key"@, StructTypeView::Struct(None))
        .insert("worldSaveData.CharacterSaveParameterMap.Key"@, StructTypeView::Struct(None))
        .insert("worldSaveData.CharacterSaveParameterMap.Value"@, StructTypeView::Struct(None))
        .insert("worldSaveData.FoliageGridSaveDataMap.Key"@, StructTypeView::Struct(None))
        .insert("worldSaveData.FoliageGridSaveDataMap.Value"@, StructTypeView::Struct(None))
        .insert("worldSaveData.FoliageGridSaveDataMap.ModelMap.Value"@, StructTypeView::Struct(None))
        .insert("worldSaveData.FoliageGridSaveDataMap.ModelMap.InstanceDataMap.Key"@, StructTypeView::Struct(None))
        .insert("worldSaveData.FoliageGridSaveDataMap.ModelMap.InstanceDataMap.Value"@, StructTypeView::Struct(None))
        .insert("worldSaveData.ItemContainerSaveData.Key"@, StructTypeView::Struct(None))
        .insert("worldSaveData.ItemContainerSaveData.Value"@, StructTypeView::Struct(None))
        .insert("worldSaveData.MapObjectSaveData.ConcreteModel.ModuleMap.Value"@, StructTypeView::Struct(None))
        .insert("worldSaveData.MapObjectSaveData.Model.EffectMap.Value"@, StructTypeView::Struct(None))
        .insert("worldSaveData.MapObjectSpawnerInStageSaveData.Key"@, StructTypeView::Struct(None))
        .insert("worldSaveData.MapObjectSpawnerInStageSaveData.Value"@, StructTypeView::Struct(None))
        .insert("worldSaveData.MapObjectSpawnerInStageSaveData.Value.SpawnerDataMapByLevelObjectInstanceId.Value"@, StructTypeView::Struct(None))
        .insert("worldSaveData.MapObjectSpawnerInStageSaveData.Value.SpawnerDataMapByLevelObjectInstanceId.Value.ItemMap.Value"@, StructTypeView::Struct(None))
        .insert("worldSaveData.WorkSaveData.WorkAssignMap.Value"@, StructTypeView::Struct(None))
        .insert("worldSaveData.BaseCampSaveData.Value"@, StructTypeView::Struct(None))
        .insert("worldSaveData.BaseCampSaveData.ModuleMap.Value"@, StructTypeView::Struct(None))
        .insert("worldSaveData.CharacterContainerSaveData.Value"@, StructTypeView::Struct(None))
        .insert("worldSaveData.GroupSaveDataMap.Value"@, StructTypeView::Struct(None))
        .insert("worldSaveData.EnemyCampSaveData.EnemyCampStatusMap.Value"@, StructTypeView::Struct(None))
        .insert("worldSaveData.EnemyCampSaveData.EnemyCampStatusMap.Value.TreasureBoxInfoMapBySpawnerName.Value"@, StructTypeView::Struct(None))
        .insert("worldSaveData.DungeonSaveData.MapObjectSaveData.Model.EffectMap.Value"@, StructTypeView::Struct(None))
        .insert("worldSaveData.DungeonSaveData.MapObjectSaveData.ConcreteModel.ModuleMap.Value"@, StructTypeView::Struct(None))
        .insert("worldSaveData.InvaderSaveData.Value"@, StructTypeView::Struct(None))
        .insert("worldSaveData.OilrigSaveData.OilrigMap.Value"@, StructTypeView::Struct(None))
        .insert("worldSaveData.SupplySaveData.SupplyInfos.Value"@, StructTypeView::Struct(None))
        .insert("worldSaveData.GuildExtraSaveDataMap.Value"@, StructTypeView::Struct(None))
        .insert("SaveData.Local_MaxFriendshipPalIds.Value"@, StructTypeView::Struct(None))
        .insert("worldSaveData.MapObjectSpawnerInStageSaveData.SpawnerDataMapByLevelObjectInstanceId.Value"@, StructTypeView::Struct(None))
        .insert("worldSaveData.MapObjectSpawnerInStageSaveData.SpawnerDataMapByLevelObjectInstanceId.ItemMap.Value"@, StructTypeView::Struct(None))
        .insert("worldSaveData.DungeonSaveData.RewardSaveDataMap.Value"@, StructTypeView::Struct(None))
        .insert("worldSaveData.InLockerCharacterInstanceIDArray"@, StructTypeView::Struct(None))
        .insert("worldSaveData.EnemyCampSaveData.EnemyCampStatusMap.TreasureBoxInfoMapBySpawnerName.Value"@, StructTypeView::Struct(None))
        .insert("worldSaveData.FoliageGridSaveDataMap.ModelMap.RawData"@, StructTypeView::Struct(None))
        .insert("worldSaveData.FoliageGridSaveDataMap.ModelMap.InstanceDataMap.RawData"@, StructTypeView::Struct(None))
        .insert("worldSaveData.BaseCampSaveData.WorkerDirector.RawData"@, StructTypeView::Struct(None))
        .insert("worldSaveData.BaseCampSaveData.WorkCollection.RawData"@, StructTypeView::Struct(None))
        .insert("worldSaveData.MapObjectSaveData"@, StructTypeView::Struct(None))
        .insert("worldSaveData.MapObjectSpawnerInStageSaveData.Value.SpawnerDataMapByLevelObjectInstanceId.Key"@, StructTypeView::Guid)
        .insert("worldSaveData.BaseCampSaveData.Key"@, StructTypeView::Guid)
        .insert("worldSaveData.GroupSaveDataMap.Key"@, StructTypeView::Guid)
        .insert("worldSaveData.InvaderSaveData.Key"@, StructTypeView::Guid)
        .insert("worldSaveData.SupplySaveData.SupplyInfos.Key"@, StructTypeView::Guid)
        .insert("worldSaveData.GuildExtraSaveDataMap.Key"@, StructTypeView::Guid)
        .insert("SaveData.Local_MaxFriendshipPalIds.Key"@, StructTypeView::Guid)
        .insert("worldSaveData.MapObjectSpawnerInStageSaveData.SpawnerDataMapByLevelObjectInstanceId.Key"@, StructTypeView::Guid)
        .insert("worldSaveData.DungeonSaveData.RewardSaveDataMap.Key"@, StructTypeView::Guid)
        .insert("worldSaveData.GroupSaveDataMap.RawData"@, StructTypeView::PalGroupData)
        .insert("worldSaveData.CharacterSaveParameterMap.RawData"@, StructTypeView::PalCharacterData)
        .insert("worldSaveData.ItemContainerSaveData.RawData"@, StructTypeView::PalItemContainer)
        .insert("worldSaveData.ItemContainerSaveData.Slots.RawData"@, StructTypeView::PalItemContainerSlots)
        .insert("worldSaveData.CharacterContainerSaveData.Slots.RawData"@, StructTypeView::PalCharacterContainer)
        .insert("worldSaveData.DynamicItemSaveData.RawData"@, StructTypeView::PalDynamicItem)
        .insert("worldSaveData.BaseCampSaveData.RawData"@, StructTypeView::PalBaseCamp)
        .insert("worldSaveData.WorkSaveData"@, StructTypeView::PalWork)
        .insert("worldSaveData.GuildExtraSaveDataMap.GuildItemStorage.RawData"@, StructTypeView::PalGuildItemStorage)
        .insert("worldSaveData.GuildExtraSaveDataMap.Lab.RawData"@, StructTypeView::PalGuildLab)
}

/// Builds the struct type hints for Palworld saves.
pub fn palworld_types() -> (types: Types)
    ensures
        types@ == palworld_types_map(),
{
    let mut types = Types::new();
    types.add(String::from_str("worldSaveData.CharacterContainerSaveData.Key"), StructType::Struct(None));
    types.add(String::from_str("worldSaveData.CharacterSaveParameterMap.Key"), StructType::Struct(None));
    types.add(String::from_str("worldSaveData.CharacterSaveParameterMap.Value"), StructType::Struct(None));
    types.add(String::from_str("worldSaveData.FoliageGridSaveDataMap.Key"), StructType::Struct(None));
    types.add(String::from_str("worldSaveData.FoliageGridSaveDataMap.Value"), StructType::Struct(None));
    types.add(String::from_str("worldSaveData.FoliageGridSaveDataMap.ModelMap.Value"), StructType::Struct(None));
    types.add(String::from_str("worldSaveData.FoliageGridSaveDataMap.ModelMap.InstanceDataMap.Key"), StructType::Struct(None));
    types.add(String::from_str("worldSaveData.FoliageGridSaveDataMap.ModelMap.InstanceDataMap.Value"), StructType::Struct(None));
    types.add(String::from_str("worldSaveData.ItemContainerSaveData.Key"), StructType::Struct(None));
    types.add(String::from_str("worldSaveData.ItemContainerSaveData.Value"), StructType::Struct(None));
    types.add(String::from_str("worldSaveData.MapObjectSaveData.ConcreteModel.ModuleMap.Value"), StructType::Struct(None));
    types.add(String::from_str("worldSaveData.MapObjectSaveData.Model.EffectMap.Value"), StructType::Struct(None));
    types.add(String::from_str("worldSaveData.MapObjectSpawnerInStageSaveData.Key"), StructType::Struct(None));
    types.add(String::from_str("worldSaveData.MapObjectSpawnerInStageSaveData.Value"), StructType::Struct(None));
    types.add(String::from_str("worldSaveData.MapObjectSpawnerInStageSaveData.Value.SpawnerDataMapByLevelObjectInstanceId.Value"), StructType::Struct(None));
    types.add(String::from_str("worldSaveData.MapObjectSpawnerInStageSaveData.Value.SpawnerDataMapByLevelObjectInstanceId.Value.ItemMap.Value"), StructType::Struct(None));
    types.add(String::from_str("worldSaveData.WorkSaveData.WorkAssignMap.Value"), StructType::Struct(None));
    types.add(String::from_str("worldSaveData.BaseCampSaveData.Value"), StructType::Struct(None));
    types.add(String::from_str("worldSaveData.BaseCampSaveData.ModuleMap.Value"), StructType::Struct(None));
    types.add(String::from_str("worldSaveData.CharacterContainerSaveData.Value"), StructType::Struct(None));
    types.add(String::from_str("worldSaveData.GroupSaveDataMap.Value"), StructType::Struct(None));
    types.add(String::from_str("worldSaveData.EnemyCampSaveData.EnemyCampStatusMap.Value"), StructType::Struct(None));
    types.add(String::from_str("worldSaveData.EnemyCampSaveData.EnemyCampStatusMap.Value.TreasureBoxInfoMapBySpawnerName.Value"), StructType::Struct(None));
    types.add(String::from_str("worldSaveData.DungeonSaveData.MapObjectSaveData.Model.EffectMap.Value"), StructType::Struct(None));
    types.add(String::from_str("worldSaveData.DungeonSaveData.MapObjectSaveData.ConcreteModel.ModuleMap.Value"), StructType::Struct(None));
    types.add(String::from_str("worldSaveData.InvaderSaveData.Value"), StructType::Struct(None));
    types.add(String::from_str("worldSaveData.OilrigSaveData.OilrigMap.Value"), StructType::Struct(None));
    types.add(String::from_str("worldSaveData.SupplySaveData.SupplyInfos.Value"), StructType::Struct(None));
    types.add(String::from_str("worldSaveData.GuildExtraSaveDataMap.Value"), StructType::Struct(None));
    types.add(String::from_str("SaveData.Local_MaxFriendshipPalIds.Value"), StructType::Struct(None));
    types.add(String::from_str("worldSaveData.MapObjectSpawnerInStageSaveData.SpawnerDataMapByLevelObjectInstanceId.Value"), StructType::Struct(None));
    types.add(String::from_str("worldSaveData.MapObjectSpawnerInStageSaveData.SpawnerDataMapByLevelObjectInstanceId.ItemMap.Value"), StructType::Struct(None));
    types.add(String::from_str("worldSaveData.DungeonSaveData.RewardSaveDataMap.Value"), StructType::Struct(None));
    types.add(String::from_str("worldSaveData.InLockerCharacterInstanceIDArray"), StructType::Struct(None));
    types.add(String::from_str("worldSaveData.EnemyCampSaveData.EnemyCampStatusMap.TreasureBoxInfoMapBySpawnerName.Value"), StructType::Struct(None));
    types.add(String::from_str("worldSaveData.FoliageGridSaveDataMap.ModelMap.RawData"), StructType::Struct(None));
    types.add(String::from_str("worldSaveData.FoliageGridSaveDataMap.ModelMap.InstanceDataMap.RawData"), StructType::Struct(None));
    types.add(String::from_str("worldSaveData.BaseCampSaveData.WorkerDirector.RawData"), StructType::Struct(None));
    types.add(String::from_str("worldSaveData.BaseCampSaveData.WorkCollection.RawData"), StructType::Struct(None));
    types.add(String::from_str("worldSaveData.MapObjectSaveData"), StructType::Struct(None));
    types.add(String::from_str("worldSaveData.MapObjectSpawnerInStageSaveData.Value.SpawnerDataMapByLevelObjectInstanceId.Key"), StructType::Guid);
    types.add(String::from_str("worldSaveData.BaseCampSaveData.Key"), StructType::Guid);
    types.add(String::from_str("worldSaveData.GroupSaveDataMap.Key"), StructType::Guid);
    types.add(String::from_str("worldSaveData.InvaderSaveData.Key"), StructType::Guid);
    types.add(String::from_str("worldSaveData.SupplySaveData.SupplyInfos.Key"), StructType::Guid);
    types.add(String::from_str("worldSaveData.GuildExtraSaveDataMap.Key"), StructType::Guid);
    types.add(String::from_str("SaveData.Local_MaxFriendshipPalIds.Key"), StructType::Guid);
    types.add(String::from_str("worldSaveData.MapObjectSpawnerInStageSaveData.SpawnerDataMapByLevelObjectInstanceId.Key"), StructType::Guid);
    types.add(String::from_str("worldSaveData.DungeonSaveData.RewardSaveDataMap.Key"), StructType::Guid);
    types.add(String::from_str("worldSaveData.GroupSaveDataMap.RawData"), StructType::PalGroupData);
    types.add(String::from_str("worldSaveData.CharacterSaveParameterMap.RawData"), StructType::PalCharacterData);
    types.add(String::from_str("worldSaveData.ItemContainerSaveData.RawData"), StructType::PalItemContainer);
    types.add(String::from_str("worldSaveData.ItemContainerSaveData.Slots.RawData"), StructType::PalItemContainerSlots);
    types.add(String::from_str("worldSaveData.CharacterContainerSaveData.Slots.RawData"), StructType::PalCharacterContainer);
    types.add(String::from_str("worldSaveData.DynamicItemSaveData.RawData"), StructType::PalDynamicItem);
    types.add(String::from_str("worldSaveData.BaseCampSaveData.RawData"), StructType::PalBaseCamp);
    types.add(String::from_str("worldSaveData.WorkSaveData"), StructType::PalWork);
    types.add(String::from_str("worldSaveData.GuildExtraSaveDataMap.GuildItemStorage.RawData"), StructType::PalGuildItemStorage);
    types.add(String::from_str("worldSaveData.GuildExtraSaveDataMap.Lab.RawData"), StructType::PalGuildLab);
    types
}

/// The hints that overrides make on top of a table: later ones win.
pub open spec fn with_overrides(
    base: Map<Seq<char>, StructTypeView>,
    overrides: Seq<(Seq<char>, StructTypeView)>,
) -> Map<Seq<char>, StructTypeView>
    decreases overrides.len(),
{
    if overrides.len() == 0 {
        base
    } else {
        with_overrides(base, overrides.drop_last()).insert(overrides.last().0, overrides.last().1)
    }
}

/// The models of `path=Type` overrides.
pub open spec fn override_views(v: Seq<(String, StructType)>) -> Seq<(Seq<char>, StructTypeView)> {
    v.map_values(|e: (String, StructType)| (e.0@, e.1@))
}

/// The hints for a run: the Palworld hints when `palworld` is set, then the
/// given overrides on top.
pub fn build_types(palworld: bool, overrides: Vec<(String, StructType)>) -> (types: Types)
    ensures
        types@ == with_overrides(
            if palworld { palworld_types_map() } else { Map::<Seq<char>, StructTypeView>::empty() },
            override_views(overrides@),
        ),
{
    let mut types = if palworld { palworld_types() } else { Types::new() };
    let ghost base = types@;
    let ghost views = override_views(overrides@);
    let mut i: usize = 0;
    while i < overrides.len()
        invariant
            i <= overrides@.len(),
            views == override_views(overrides@),
            types@ == with_overrides(base, views.take(i as int)),
        decreases overrides@.len() - i,
    {
        let e = &overrides[i];
        types.add(e.0.clone(), e.1.duplicate());
        proof {
            assert(views.take(i + 1).drop_last() =~= views.take(i as int));
        }
        i = i + 1;
    }
    assert(views.take(i as int) =~= views);
    types
}

/// The last override for a path decides its hint, whatever the base table holds.
pub proof fn lemma_last_override_wins(
    base: Map<Seq<char>, StructTypeView>,
    overrides: Seq<(Seq<char>, StructTypeView)>,
    i: int,
)
    requires
        0 <= i < overrides.len(),
        forall|j: int| i < j < overrides.len() ==> (#[trigger] overrides[j]).0 != overrides[i].0,
    ensures
        with_overrides(base, overrides).dom().contains(overrides[i].0),
        with_overrides(base, overrides)[overrides[i].0] == overrides[i].1,
    decreases overrides.len(),
{
    if i < overrides.len() - 1 {
        let p = overrides.drop_last();
        assert forall|j: int| i < j < p.len() implies (#[trigger] p[j]).0 != p[i].0 by {
            assert(p[j] == overrides[j]);
        }
        lemma_last_override_wins(base, p, i);
        assert(overrides.last() == overrides[overrides.len() - 1]);
    }
}

/// Every hint for Palworld saves is a generic struct, a GUID, or a struct
/// type that Palworld embeds as a byte array.
pub proof fn lemma_palworld_hint_kinds(path: Seq<char>)
    requires
        palworld_types_map().dom().contains(path),
    ensures
        palworld_types_map()[path] == StructTypeView::Struct(None) || palworld_types_map()[path] == StructTypeView::Guid
            || is_pal_struct_type_spec(palworld_types_map()[path]),
{
}

/// The hints for Palworld saves are for 59 distinct paths.
#[verifier::spinoff_prover]
#[verifier::rlimit(100)]
pub proof fn lemma_palworld_hint_count()
    ensures
        palworld_types_map().dom().finite(),
        palworld_types_map().dom().len() == 59,
{
    reveal_strlit("worldSaveData.CharacterContainerSaveData.Key");
    assert("worldSaveData.CharacterContainerSaveData.Key"@.len() == 44);
    reveal_strlit("worldSaveData.CharacterSaveParameterMap.Key");
    assert("worldSaveData.CharacterSaveParameterMap.Key"@.len() == 43);
    reveal_strlit("worldSaveData.CharacterSaveParameterMap.Value");
    assert("worldSaveData.CharacterSaveParameterMap.Value"@.len() == 45);
    reveal_strlit("worldSaveData.FoliageGridSaveDataMap.Key");
    assert("worldSaveData.FoliageGridSaveDataMap.Key"@.len() == 40);
    reveal_strlit("worldSaveData.FoliageGridSaveDataMap.Value");
    assert("worldSaveData.FoliageGridSaveDataMap.Value"@.len() == 42);
    reveal_strlit("worldSaveData.FoliageGridSaveDataMap.ModelMap.Value");
    assert("worldSaveData.FoliageGridSaveDataMap.ModelMap.Value"@.len() == 51);
    reveal_strlit("worldSaveData.FoliageGridSaveDataMap.ModelMap.InstanceDataMap.Key");
    assert("worldSaveData.FoliageGridSaveDataMap.ModelMap.InstanceDataMap.Key"@.len() == 65);
    reveal_strlit("worldSaveData.FoliageGridSaveDataMap.ModelMap.InstanceDataMap.Value");
    assert("worldSaveData.FoliageGridSaveDataMap.ModelMap.InstanceDataMap.Value"@.len() == 67);
    reveal_strlit("worldSaveData.ItemContainerSaveData.Key");
    assert("worldSaveData.ItemContainerSaveData.Key"@.len() == 39);
    reveal_strlit("worldSaveData.ItemContainerSaveData.Value");
    assert("worldSaveData.ItemContainerSaveData.Value"@.len() == 41);
    reveal_strlit("worldSaveData.MapObjectSaveData.ConcreteModel.ModuleMap.Value");
    assert("worldSaveData.MapObjectSaveData.ConcreteModel.ModuleMap.Value"@.len() == 61);
    reveal_strlit("worldSaveData.MapObjectSaveData.Model.EffectMap.Value");
    assert("worldSaveData.MapObjectSaveData.Model.EffectMap.Value"@.len() == 53);
    reveal_strlit("worldSaveData.MapObjectSpawnerInStageSaveData.Key");
    assert("worldSaveData.MapObjectSpawnerInStageSaveData.Key"@.len() == 49);
    reveal_strlit("worldSaveData.MapObjectSpawnerInStageSaveData.Value");
    assert("worldSaveData.MapObjectSpawnerInStageSaveData.Value"@.len() == 51);
    reveal_strlit("worldSaveData.MapObjectSpawnerInStageSaveData.Value.SpawnerDataMapByLevelObjectInstanceId.Value");
    assert("worldSaveData.MapObjectSpawnerInStageSaveData.Value.SpawnerDataMapByLevelObjectInstanceId.Value"@.len() == 95);
    reveal_strlit("worldSaveData.MapObjectSpawnerInStageSaveData.Value.SpawnerDataMapByLevelObjectInstanceId.Value.ItemMap.Value");
    assert("worldSaveData.MapObjectSpawnerInStageSaveData.Value.SpawnerDataMapByLevelObjectInstanceId.Value.ItemMap.Value"@.len() == 109);
    reveal_strlit("worldSaveData.WorkSaveData.WorkAssignMap.Value");
    assert("worldSaveData.WorkSaveData.WorkAssignMap.Value"@.len() == 46);
    reveal_strlit("worldSaveData.BaseCampSaveData.Value");
    assert("worldSaveData.BaseCampSaveData.Value"@.len() == 36);
    reveal_strlit("worldSaveData.BaseCampSaveData.ModuleMap.Value");
    assert("worldSaveData.BaseCampSaveData.ModuleMap.Value"@.len() == 46);
    reveal_strlit("worldSaveData.CharacterContainerSaveData.Value");
    assert("worldSaveData.CharacterContainerSaveData.Value"@.len() == 46);
    reveal_strlit("worldSaveData.GroupSaveDataMap.Value");
    assert("worldSaveData.GroupSaveDataMap.Value"@.len() == 36);
    reveal_strlit("worldSaveData.EnemyCampSaveData.EnemyCampStatusMap.Value");
    assert("worldSaveData.EnemyCampSaveData.EnemyCampStatusMap.Value"@.len() == 56);
    reveal_strlit("worldSaveData.EnemyCampSaveData.EnemyCampStatusMap.Value.TreasureBoxInfoMapBySpawnerName.Value");
    assert("worldSaveData.EnemyCampSaveData.EnemyCampStatusMap.Value.TreasureBoxInfoMapBySpawnerName.Value"@.len() == 94);
    reveal_strlit("worldSaveData.DungeonSaveData.MapObjectSaveData.Model.EffectMap.Value");
    assert("worldSaveData.DungeonSaveData.MapObjectSaveData.Model.EffectMap.Value"@.len() == 69);
    reveal_strlit("worldSaveData.DungeonSaveData.MapObjectSaveData.ConcreteModel.ModuleMap.Value");
    assert("worldSaveData.DungeonSaveData.MapObjectSaveData.ConcreteModel.ModuleMap.Value"@.len() == 77);
    reveal_strlit("worldSaveData.InvaderSaveData.Value");
    assert("worldSaveData.InvaderSaveData.Value"@.len() == 35);
    reveal_strlit("worldSaveData.OilrigSaveData.OilrigMap.Value");
    assert("worldSaveData.OilrigSaveData.OilrigMap.Value"@.len() == 44);
    reveal_strlit("worldSaveData.SupplySaveData.SupplyInfos.Value");
    assert("worldSaveData.SupplySaveData.SupplyInfos.Value"@.len() == 46);
    reveal_strlit("worldSaveData.GuildExtraSaveDataMap.Value");
    assert("worldSaveData.GuildExtraSaveDataMap.Value"@.len() == 41);
    reveal_strlit("SaveData.Local_MaxFriendshipPalIds.Value");
    assert("SaveData.Local_MaxFriendshipPalIds.Value"@.len() == 40);
    reveal_strlit("worldSaveData.MapObjectSpawnerInStageSaveData.SpawnerDataMapByLevelObjectInstanceId.Value");
    assert("worldSaveData.MapObjectSpawnerInStageSaveData.SpawnerDataMapByLevelObjectInstanceId.Value"@.len() == 89);
    reveal_strlit("worldSaveData.MapObjectSpawnerInStageSaveData.SpawnerDataMapByLevelObjectInstanceId.ItemMap.Value");
    assert("worldSaveData.MapObjectSpawnerInStageSaveData.SpawnerDataMapByLevelObjectInstanceId.ItemMap.Value"@.len() == 97);
    reveal_strlit("worldSaveData.DungeonSaveData.RewardSaveDataMap.Value");
    assert("worldSaveData.DungeonSaveData.RewardSaveDataMap.Value"@.len() == 53);
    reveal_strlit("worldSaveData.InLockerCharacterInstanceIDArray");
    assert("worldSaveData.InLockerCharacterInstanceIDArray"@.len() == 46);
    reveal_strlit("worldSaveData.EnemyCampSaveData.EnemyCampStatusMap.TreasureBoxInfoMapBySpawnerName.Value");
    assert("worldSaveData.EnemyCampSaveData.EnemyCampStatusMap.TreasureBoxInfoMapBySpawnerName.Value"@.len() == 88);
    reveal_strlit("worldSaveData.FoliageGridSaveDataMap.ModelMap.RawData");
    assert("worldSaveData.FoliageGridSaveDataMap.ModelMap.RawData"@.len() == 53);
    reveal_strlit("worldSaveData.FoliageGridSaveDataMap.ModelMap.InstanceDataMap.RawData");
    assert("worldSaveData.FoliageGridSaveDataMap.ModelMap.InstanceDataMap.RawData"@.len() == 69);
    reveal_strlit("worldSaveData.BaseCampSaveData.WorkerDirector.RawData");
    assert("worldSaveData.BaseCampSaveData.WorkerDirector.RawData"@.len() == 53);
    reveal_strlit("worldSaveData.BaseCampSaveData.WorkCollection.RawData");
    assert("worldSaveData.BaseCampSaveData.WorkCollection.RawData"@.len() == 53);
    reveal_strlit("worldSaveData.MapObjectSaveData");
    assert("worldSaveData.MapObjectSaveData"@.len() == 31);
    reveal_strlit("worldSaveData.MapObjectSpawnerInStageSaveData.Value.SpawnerDataMapByLevelObjectInstanceId.Key");
    assert("worldSaveData.MapObjectSpawnerInStageSaveData.Value.SpawnerDataMapByLevelObjectInstanceId.Key"@.len() == 93);
    reveal_strlit("worldSaveData.BaseCampSaveData.Key");
    assert("worldSaveData.BaseCampSaveData.Key"@.len() == 34);
    reveal_strlit("worldSaveData.GroupSaveDataMap.Key");
    assert("worldSaveData.GroupSaveDataMap.Key"@.len() == 34);
    reveal_strlit("worldSaveData.InvaderSaveData.Key");
    assert("worldSaveData.InvaderSaveData.Key"@.len() == 33);
    reveal_strlit("worldSaveData.SupplySaveData.SupplyInfos.Key");
    assert("worldSaveData.SupplySaveData.SupplyInfos.Key"@.len() == 44);
    reveal_strlit("worldSaveData.GuildExtraSaveDataMap.Key");
    assert("worldSaveData.GuildExtraSaveDataMap.Key"@.len() == 39);
    reveal_strlit("SaveData.Local_MaxFriendshipPalIds.Key");
    assert("SaveData.Local_MaxFriendshipPalIds.Key"@.len() == 38);
    reveal_strlit("worldSaveData.MapObjectSpawnerInStageSaveData.SpawnerDataMapByLevelObjectInstanceId.Key");
    assert("worldSaveData.MapObjectSpawnerInStageSaveData.SpawnerDataMapByLevelObjectInstanceId.Key"@.len() == 87);
    reveal_strlit("worldSaveData.DungeonSaveData.RewardSaveDataMap.Key");
    assert("worldSaveData.DungeonSaveData.RewardSaveDataMap.Key"@.len() == 51);
    reveal_strlit("worldSaveData.GroupSaveDataMap.RawData");
    assert("worldSaveData.GroupSaveDataMap.RawData"@.len() == 38);
    reveal_strlit("worldSaveData.CharacterSaveParameterMap.RawData");
    assert("worldSaveData.CharacterSaveParameterMap.RawData"@.len() == 47);
    reveal_strlit("worldSaveData.ItemContainerSaveData.RawData");
    assert("worldSaveData.ItemContainerSaveData.RawData"@.len() == 43);
    reveal_strlit("worldSaveData.ItemContainerSaveData.Slots.RawData");
    assert("worldSaveData.ItemContainerSaveData.Slots.RawData"@.len() == 49);
    reveal_strlit("worldSaveData.CharacterContainerSaveData.Slots.RawData");
    assert("worldSaveData.CharacterContainerSaveData.Slots.RawData"@.len() == 54);
    reveal_strlit("worldSaveData.DynamicItemSaveData.RawData");
    assert("worldSaveData.DynamicItemSaveData.RawData"@.len() == 41);
    reveal_strlit("worldSaveData.BaseCampSaveData.RawData");
    assert("worldSaveData.BaseCampSaveData.RawData"@.len() == 38);
    reveal_strlit("worldSaveData.WorkSaveData");
    assert("worldSaveData.WorkSaveData"@.len() == 26);
    reveal_strlit("worldSaveData.GuildExtraSaveDataMap.GuildItemStorage.RawData");
    assert("worldSaveData.GuildExtraSaveDataMap.GuildItemStorage.RawData"@.len() == 60);
    reveal_strlit("worldSaveData.GuildExtraSaveDataMap.Lab.RawData");
    assert("worldSaveData.GuildExtraSaveDataMap.Lab.RawData"@.len() == 47);
    let m0 = Map::<Seq<char>, StructTypeView>::empty();
    assert(m0.dom() =~= Set::<Seq<char>>::empty());
    let m1 = m0.insert("worldSaveData.CharacterContainerSaveData.Key"@, StructTypeView::Struct(None));
    assert(!m0.dom().contains("worldSaveData.CharacterContainerSaveData.Key"@));
    assert(m1.dom() == m0.dom().insert("worldSaveData.CharacterContainerSaveData.Key"@));
    assert(m1.dom().len() == 1);
    let m2 = m1.insert("worldSaveData.CharacterSaveParameterMap.Key"@, StructTypeView::Struct(None));
    assert(!m1.dom().contains("worldSaveData.CharacterSaveParameterMap.Key"@));
    assert(m2.dom() == m1.dom().insert("worldSaveData.CharacterSaveParameterMap.Key"@));
    assert(m2.dom().len() == 2);
    let m3 = m2.insert("worldSaveData.CharacterSaveParameterMap.Value"@, StructTypeView::Struct(None));
    assert(!m2.dom().contains("worldSaveData.CharacterSaveParameterMap.Value"@));
    assert(m3.dom() == m2.dom().insert("worldSaveData.CharacterSaveParameterMap.Value"@));
    assert(m3.dom().len() == 3);
    let m4 = m3.insert("worldSaveData.FoliageGridSaveDataMap.Key"@, StructTypeView::Struct(None));
    assert(!m3.dom().contains("worldSaveData.FoliageGridSaveDataMap.Key"@));
    assert(m4.dom() == m3.dom().insert("worldSaveData.FoliageGridSaveDataMap.Key"@));
    assert(m4.dom().len() == 4);
    let m5 = m4.insert("worldSaveData.FoliageGridSaveDataMap.Value"@, StructTypeView::Struct(None));
    assert(!m4.dom().contains("worldSaveData.FoliageGridSaveDataMap.Value"@));
    assert(m5.dom() == m4.dom().insert("worldSaveData.FoliageGridSaveDataMap.Value"@));
    assert(m5.dom().len() == 5);
    let m6 = m5.insert("worldSaveData.FoliageGridSaveDataMap.ModelMap.Value"@, StructTypeView::Struct(None));
    assert(!m5.dom().contains("worldSaveData.FoliageGridSaveDataMap.ModelMap.Value"@));
    assert(m6.dom() == m5.dom().insert("worldSaveData.FoliageGridSaveDataMap.ModelMap.Value"@));
    assert(m6.dom().len() == 6);
    let m7 = m6.insert("worldSaveData.FoliageGridSaveDataMap.ModelMap.InstanceDataMap.Key"@, StructTypeView::Struct(None));
    assert(!m6.dom().contains("worldSaveData.FoliageGridSaveDataMap.ModelMap.InstanceDataMap.Key"@));
    assert(m7.dom() == m6.dom().insert("worldSaveData.FoliageGridSaveDataMap.ModelMap.InstanceDataMap.Key"@));
    assert(m7.dom().len() == 7);
    let m8 = m7.insert("worldSaveData.FoliageGridSaveDataMap.ModelMap.InstanceDataMap.Value"@, StructTypeView::Struct(None));
    assert(!m7.dom().contains("worldSaveData.FoliageGridSaveDataMap.ModelMap.InstanceDataMap.Value"@));
    assert(m8.dom() == m7.dom().insert("worldSaveData.FoliageGridSaveDataMap.ModelMap.InstanceDataMap.Value"@));
    assert(m8.dom().len() == 8);
    let m9 = m8.insert("worldSaveData.ItemContainerSaveData.Key"@, StructTypeView::Struct(None));
    assert(!m8.dom().contains("worldSaveData.ItemContainerSaveData.Key"@));
    assert(m9.dom() == m8.dom().insert("worldSaveData.ItemContainerSaveData.Key"@));
    assert(m9.dom().len() == 9);
    let m10 = m9.insert("worldSaveData.ItemContainerSaveData.Value"@, StructTypeView::Struct(None));
    assert(!m9.dom().contains("worldSaveData.ItemContainerSaveData.Value"@));
    assert(m10.dom() == m9.dom().insert("worldSaveData.ItemContainerSaveData.Value"@));
    assert(m10.dom().len() == 10);
    let m11 = m10.insert("worldSaveData.MapObjectSaveData.ConcreteModel.ModuleMap.Value"@, StructTypeView::Struct(None));
    assert(!m10.dom().contains("worldSaveData.MapObjectSaveData.ConcreteModel.ModuleMap.Value"@));
    assert(m11.dom() == m10.dom().insert("worldSaveData.MapObjectSaveData.ConcreteModel.ModuleMap.Value"@));
    assert(m11.dom().len() == 11);
    let m12 = m11.insert("worldSaveData.MapObjectSaveData.Model.EffectMap.Value"@, StructTypeView::Struct(None));
    assert(!m11.dom().contains("worldSaveData.MapObjectSaveData.Model.EffectMap.Value"@));
    assert(m12.dom() == m11.dom().insert("worldSaveData.MapObjectSaveData.Model.EffectMap.Value"@));
    assert(m12.dom().len() == 12);
    let m13 = m12.insert("worldSaveData.MapObjectSpawnerInStageSaveData.Key"@, StructTypeView::Struct(None));
    assert(!m12.dom().contains("worldSaveData.MapObjectSpawnerInStageSaveData.Key"@));
    assert(m13.dom() == m12.dom().insert("worldSaveData.MapObjectSpawnerInStageSaveData.Key"@));
    assert(m13.dom().len() == 13);
    assert("worldSaveData.MapObjectSpawnerInStageSaveData.Value"@[14] != "worldSaveData.FoliageGridSaveDataMap.ModelMap.Value"@[14]);
    let m14 = m13.insert("worldSaveData.MapObjectSpawnerInStageSaveData.Value"@, StructTypeView::Struct(None));
    assert(!m13.dom().contains("worldSaveData.MapObjectSpawnerInStageSaveData.Value"@));
    assert(m14.dom() == m13.dom().insert("worldSaveData.MapObjectSpawnerInStageSaveData.Value"@));
    assert(m14.dom().len() == 14);
    let m15 = m14.insert("worldSaveData.MapObjectSpawnerInStageSaveData.Value.SpawnerDataMapByLevelObjectInstanceId.Value"@, StructTypeView::Struct(None));
    assert(!m14.dom().contains("worldSaveData.MapObjectSpawnerInStageSaveData.Value.SpawnerDataMapByLevelObjectInstanceId.Value"@));
    assert(m15.dom() == m14.dom().insert("worldSaveData.MapObjectSpawnerInStageSaveData.Value.SpawnerDataMapByLevelObjectInstanceId.Value"@));
    assert(m15.dom().len() == 15);
    let m16 = m15.insert("worldSaveData.MapObjectSpawnerInStageSaveData.Value.SpawnerDataMapByLevelObjectInstanceId.Value.ItemMap.Value"@, StructTypeView::Struct(None));
    assert(!m15.dom().contains("worldSaveData.MapObjectSpawnerInStageSaveData.Value.SpawnerDataMapByLevelObjectInstanceId.Value.ItemMap.Value"@));
    assert(m16.dom() == m15.dom().insert("worldSaveData.MapObjectSpawnerInStageSaveData.Value.SpawnerDataMapByLevelObjectInstanceId.Value.ItemMap.Value"@));
    assert(m16.dom().len() == 16);
    let m17 = m16.insert("worldSaveData.WorkSaveData.WorkAssignMap.Value"@, StructTypeView::Struct(None));
    assert(!m16.dom().contains("worldSaveData.WorkSaveData.WorkAssignMap.Value"@));
    assert(m17.dom() == m16.dom().insert("worldSaveData.WorkSaveData.WorkAssignMap.Value"@));
    assert(m17.dom().len() == 17);
    let m18 = m17.insert("worldSaveData.BaseCampSaveData.Value"@, StructTypeView::Struct(None));
    assert(!m17.dom().contains("worldSaveData.BaseCampSaveData.Value"@));
    assert(m18.dom() == m17.dom().insert("worldSaveData.BaseCampSaveData.Value"@));
    assert(m18.dom().len() == 18);
    assert("worldSaveData.BaseCampSaveData.ModuleMap.Value"@[14] != "worldSaveData.WorkSaveData.WorkAssignMap.Value"@[14]);
    let m19 = m18.insert("worldSaveData.BaseCampSaveData.ModuleMap.Value"@, StructTypeView::Struct(None));
    assert(!m18.dom().contains("worldSaveData.BaseCampSaveData.ModuleMap.Value"@));
    assert(m19.dom() == m18.dom().insert("worldSaveData.BaseCampSaveData.ModuleMap.Value"@));
    assert(m19.dom().len() == 19);
    assert("worldSaveData.CharacterContainerSaveData.Value"@[14] != "worldSaveData.WorkSaveData.WorkAssignMap.Value"@[14]);
    assert("worldSaveData.CharacterContainerSaveData.Value"@[14] != "worldSaveData.BaseCampSaveData.ModuleMap.Value"@[14]);
    let m20 = m19.insert("worldSaveData.CharacterContainerSaveData.Value"@, StructTypeView::Struct(None));
    assert(!m19.dom().contains("worldSaveData.CharacterContainerSaveData.Value"@));
    assert(m20.dom() == m19.dom().insert("worldSaveData.CharacterContainerSaveData.Value"@));
    assert(m20.dom().len() == 20);
    assert("worldSaveData.GroupSaveDataMap.Value"@[14] != "worldSaveData.BaseCampSaveData.Value"@[14]);
    let m21 = m20.insert("worldSaveData.GroupSaveDataMap.Value"@, StructTypeView::Struct(None));
    assert(!m20.dom().contains("worldSaveData.GroupSaveDataMap.Value"@));
    assert(m21.dom() == m20.dom().insert("worldSaveData.GroupSaveDataMap.Value"@));
    assert(m21.dom().len() == 21);
    let m22 = m21.insert("worldSaveData.EnemyCampSaveData.EnemyCampStatusMap.Value"@, StructTypeView::Struct(None));
    assert(!m21.dom().contains("worldSaveData.EnemyCampSaveData.EnemyCampStatusMap.Value"@));
    assert(m22.dom() == m21.dom().insert("worldSaveData.EnemyCampSaveData.EnemyCampStatusMap.Value"@));
    assert(m22.dom().len() == 22);
    let m23 = m22.insert("worldSaveData.EnemyCampSaveData.EnemyCampStatusMap.Value.TreasureBoxInfoMapBySpawnerName.Value"@, StructTypeView::Struct(None));
    assert(!m22.dom().contains("worldSaveData.EnemyCampSaveData.EnemyCampStatusMap.Value.TreasureBoxInfoMapBySpawnerName.Value"@));
    assert(m23.dom() == m22.dom().insert("worldSaveData.EnemyCampSaveData.EnemyCampStatusMap.Value.TreasureBoxInfoMapBySpawnerName.Value"@));
    assert(m23.dom().len() == 23);
    let m24 = m23.insert("worldSaveData.DungeonSaveData.MapObjectSaveData.Model.EffectMap.Value"@, StructTypeView::Struct(None));
    assert(!m23.dom().contains("worldSaveData.DungeonSaveData.MapObjectSaveData.Model.EffectMap.Value"@));
    assert(m24.dom() == m23.dom().insert("worldSaveData.DungeonSaveData.MapObjectSaveData.Model.EffectMap.Value"@));
    assert(m24.dom().len() == 24);
    let m25 = m24.insert("worldSaveData.DungeonSaveData.MapObjectSaveData.ConcreteModel.ModuleMap.Value"@, StructTypeView::Struct(None));
    assert(!m24.dom().contains("worldSaveData.DungeonSaveData.MapObjectSaveData.ConcreteModel.ModuleMap.Value"@));
    assert(m25.dom() == m24.dom().insert("worldSaveData.DungeonSaveData.MapObjectSaveData.ConcreteModel.ModuleMap.Value"@));
    assert(m25.dom().len() == 25);
    let m26 = m25.insert("worldSaveData.InvaderSaveData.Value"@, StructTypeView::Struct(None));
    assert(!m25.dom().contains("worldSaveData.InvaderSaveData.Value"@));
    assert(m26.dom() == m25.dom().insert("worldSaveData.InvaderSaveData.Value"@));
    assert(m26.dom().len() == 26);
    assert("worldSaveData.OilrigSaveData.OilrigMap.Value"@[14] != "worldSaveData.CharacterContainerSaveData.Key"@[14]);
    let m27 = m26.insert("worldSaveData.OilrigSaveData.OilrigMap.Value"@, StructTypeView::Struct(None));
    assert(!m26.dom().contains("worldSaveData.OilrigSaveData.OilrigMap.Value"@));
    assert(m27.dom() == m26.dom().insert("worldSaveData.OilrigSaveData.OilrigMap.Value"@));
    assert(m27.dom().len() == 27);
    assert("worldSaveData.SupplySaveData.SupplyInfos.Value"@[14] != "worldSaveData.WorkSaveData.WorkAssignMap.Value"@[14]);
    assert("worldSaveData.SupplySaveData.SupplyInfos.Value"@[14] != "worldSaveData.BaseCampSaveData.ModuleMap.Value"@[14]);
    assert("worldSaveData.SupplySaveData.SupplyInfos.Value"@[14] != "worldSaveData.CharacterContainerSaveData.Value"@[14]);
    let m28 = m27.insert("worldSaveData.SupplySaveData.SupplyInfos.Value"@, StructTypeView::Struct(None));
    assert(!m27.dom().contains("worldSaveData.SupplySaveData.SupplyInfos.Value"@));
    assert(m28.dom() == m27.dom().insert("worldSaveData.SupplySaveData.SupplyInfos.Value"@));
    assert(m28.dom().len() == 28);
    assert("worldSaveData.GuildExtraSaveDataMap.Value"@[14] != "worldSaveData.ItemContainerSaveData.Value"@[14]);
    let m29 = m28.insert("worldSaveData.GuildExtraSaveDataMap.Value"@, StructTypeView::Struct(None));
    assert(!m28.dom().contains("worldSaveData.GuildExtraSaveDataMap.Value"@));
    assert(m29.dom() == m28.dom().insert("worldSaveData.GuildExtraSaveDataMap.Value"@));
    assert(m29.dom().len() == 29);
    assert("SaveData.Local_MaxFriendshipPalIds.Value"@[0] != "worldSaveData.FoliageGridSaveDataMap.Key"@[0]);
    let m30 = m29.insert("SaveData.Local_MaxFriendshipPalIds.Value"@, StructTypeView::Struct(None));
    assert(!m29.dom().contains("SaveData.Local_MaxFriendshipPalIds.Value"@));
    assert(m30.dom() == m29.dom().insert("SaveData.Local_MaxFriendshipPalIds.Value"@));
    assert(m30.dom().len() == 30);
    let m31 = m30.insert("worldSaveData.MapObjectSpawnerInStageSaveData.SpawnerDataMapByLevelObjectInstanceId.Value"@, StructTypeView::Struct(None));
    assert(!m30.dom().contains("worldSaveData.MapObjectSpawnerInStageSaveData.SpawnerDataMapByLevelObjectInstanceId.Value"@));
    assert(m31.dom() == m30.dom().insert("worldSaveData.MapObjectSpawnerInStageSaveData.SpawnerDataMapByLevelObjectInstanceId.Value"@));
    assert(m31.dom().len() == 31);
    let m32 = m31.insert("worldSaveData.MapObjectSpawnerInStageSaveData.SpawnerDataMapByLevelObjectInstanceId.ItemMap.Value"@, StructTypeView::Struct(None));
    assert(!m31.dom().contains("worldSaveData.MapObjectSpawnerInStageSaveData.SpawnerDataMapByLevelObjectInstanceId.ItemMap.Value"@));
    assert(m32.dom() == m31.dom().insert("worldSaveData.MapObjectSpawnerInStageSaveData.SpawnerDataMapByLevelObjectInstanceId.ItemMap.Value"@));
    assert(m32.dom().len() == 32);
    assert("worldSaveData.DungeonSaveData.RewardSaveDataMap.Value"@[14] != "worldSaveData.MapObjectSaveData.Model.EffectMap.Value"@[14]);
    let m33 = m32.insert("worldSaveData.DungeonSaveData.RewardSaveDataMap.Value"@, StructTypeView::Struct(None));
    assert(!m32.dom().contains("worldSaveData.DungeonSaveData.RewardSaveDataMap.Value"@));
    assert(m33.dom() == m32.dom().insert("worldSaveData.DungeonSaveData.RewardSaveDataMap.Value"@));
    assert(m33.dom().len() == 33);
    assert("worldSaveData.InLockerCharacterInstanceIDArray"@[14] != "worldSaveData.WorkSaveData.WorkAssignMap.Value"@[14]);
    assert("worldSaveData.InLockerCharacterInstanceIDArray"@[14] != "worldSaveData.BaseCampSaveData.ModuleMap.Value"@[14]);
    assert("worldSaveData.InLockerCharacterInstanceIDArray"@[14] != "worldSaveData.CharacterContainerSaveData.Value"@[14]);
    assert("worldSaveData.InLockerCharacterInstanceIDArray"@[14] != "worldSaveData.SupplySaveData.SupplyInfos.Value"@[14]);
    let m34 = m33.insert("worldSaveData.InLockerCharacterInstanceIDArray"@, StructTypeView::Struct(None));
    assert(!m33.dom().contains("worldSaveData.InLockerCharacterInstanceIDArray"@));
    assert(m34.dom() == m33.dom().insert("worldSaveData.InLockerCharacterInstanceIDArray"@));
    assert(m34.dom().len() == 34);
    let m35 = m34.insert("worldSaveData.EnemyCampSaveData.EnemyCampStatusMap.TreasureBoxInfoMapBySpawnerName.Value"@, StructTypeView::Struct(None));
    assert(!m34.dom().contains("worldSaveData.EnemyCampSaveData.EnemyCampStatusMap.TreasureBoxInfoMapBySpawnerName.Value"@));
    assert(m35.dom() == m34.dom().insert("worldSaveData.EnemyCampSaveData.EnemyCampStatusMap.TreasureBoxInfoMapBySpawnerName.Value"@));
    assert(m35.dom().len() == 35);
    assert("worldSaveData.FoliageGridSaveDataMap.ModelMap.RawData"@[14] != "worldSaveData.MapObjectSaveData.Model.EffectMap.Value"@[14]);
    assert("worldSaveData.FoliageGridSaveDataMap.ModelMap.RawData"@[14] != "worldSaveData.DungeonSaveData.RewardSaveDataMap.Value"@[14]);
    let m36 = m35.insert("worldSaveData.FoliageGridSaveDataMap.ModelMap.RawData"@, StructTypeView::Struct(None));
    assert(!m35.dom().contains("worldSaveData.FoliageGridSaveDataMap.ModelMap.RawData"@));
    assert(m36.dom() == m35.dom().insert("worldSaveData.FoliageGridSaveDataMap.ModelMap.RawData"@));
    assert(m36.dom().len() == 36);
    assert("worldSaveData.FoliageGridSaveDataMap.ModelMap.InstanceDataMap.RawData"@[14] != "worldSaveData.DungeonSaveData.MapObjectSaveData.Model.EffectMap.Value"@[14]);
    let m37 = m36.insert("worldSaveData.FoliageGridSaveDataMap.ModelMap.InstanceDataMap.RawData"@, StructTypeView::Struct(None));
    assert(!m36.dom().contains("worldSaveData.FoliageGridSaveDataMap.ModelMap.InstanceDataMap.RawData"@));
    assert(m37.dom() == m36.dom().insert("worldSaveData.FoliageGridSaveDataMap.ModelMap.InstanceDataMap.RawData"@));
    assert(m37.dom().len() == 37);
    assert("worldSaveData.BaseCampSaveData.WorkerDirector.RawData"@[14] != "worldSaveData.MapObjectSaveData.Model.EffectMap.Value"@[14]);
    assert("worldSaveData.BaseCampSaveData.WorkerDirector.RawData"@[14] != "worldSaveData.DungeonSaveData.RewardSaveDataMap.Value"@[14]);
    assert("worldSaveData.BaseCampSaveData.WorkerDirector.RawData"@[14] != "worldSaveData.FoliageGridSaveDataMap.ModelMap.RawData"@[14]);
    let m38 = m37.insert("worldSaveData.BaseCampSaveData.WorkerDirector.RawData"@, StructTypeView::Struct(None));
    assert(!m37.dom().contains("worldSaveData.BaseCampSaveData.WorkerDirector.RawData"@));
    assert(m38.dom() == m37.dom().insert("worldSaveData.BaseCampSaveData.WorkerDirector.RawData"@));
    assert(m38.dom().len() == 38);
    assert("worldSaveData.BaseCampSaveData.WorkCollection.RawData"@[14] != "worldSaveData.MapObjectSaveData.Model.EffectMap.Value"@[14]);
    assert("worldSaveData.BaseCampSaveData.WorkCollection.RawData"@[14] != "worldSaveData.DungeonSaveData.RewardSaveDataMap.Value"@[14]);
    assert("worldSaveData.BaseCampSaveData.WorkCollection.RawData"@[14] != "worldSaveData.FoliageGridSaveDataMap.ModelMap.RawData"@[14]);
    assert("worldSaveData.BaseCampSaveData.WorkCollection.RawData"@[35] != "worldSaveData.BaseCampSaveData.WorkerDirector.RawData"@[35]);
    let m39 = m38.insert("worldSaveData.BaseCampSaveData.WorkCollection.RawData"@, StructTypeView::Struct(None));
    assert(!m38.dom().contains("worldSaveData.BaseCampSaveData.WorkCollection.RawData"@));
    assert(m39.dom() == m38.dom().insert("worldSaveData.BaseCampSaveData.WorkCollection.RawData"@));
    assert(m39.dom().len() == 39);
    let m40 = m39.insert("worldSaveData.MapObjectSaveData"@, StructTypeView::Struct(None));
    assert(!m39.dom().contains("worldSaveData.MapObjectSaveData"@));
    assert(m40.dom() == m39.dom().insert("worldSaveData.MapObjectSaveData"@));
    assert(m40.dom().len() == 40);
    let m41 = m40.insert("worldSaveData.MapObjectSpawnerInStageSaveData.Value.SpawnerDataMapByLevelObjectInstanceId.Key"@, StructTypeView::Guid);
    assert(!m40.dom().contains("worldSaveData.MapObjectSpawnerInStageSaveData.Value.SpawnerDataMapByLevelObjectInstanceId.Key"@));
    assert(m41.dom() == m40.dom().insert("worldSaveData.MapObjectSpawnerInStageSaveData.Value.SpawnerDataMapByLevelObjectInstanceId.Key"@));
    assert(m41.dom().len() == 41);
    let m42 = m41.insert("worldSaveData.BaseCampSaveData.Key"@, StructTypeView::Guid);
    assert(!m41.dom().contains("worldSaveData.BaseCampSaveData.Key"@));
    assert(m42.dom() == m41.dom().insert("worldSaveData.BaseCampSaveData.Key"@));
    assert(m42.dom().len() == 42);
    assert("worldSaveData.GroupSaveDataMap.Key"@[14] != "worldSaveData.BaseCampSaveData.Key"@[14]);
    let m43 = m42.insert("worldSaveData.GroupSaveDataMap.Key"@, StructTypeView::Guid);
    assert(!m42.dom().contains("worldSaveData.GroupSaveDataMap.Key"@));
    assert(m43.dom() == m42.dom().insert("worldSaveData.GroupSaveDataMap.Key"@));
    assert(m43.dom().len() == 43);
    let m44 = m43.insert("worldSaveData.InvaderSaveData.Key"@, StructTypeView::Guid);
    assert(!m43.dom().contains("worldSaveData.InvaderSaveData.Key"@));
    assert(m44.dom() == m43.dom().insert("worldSaveData.InvaderSaveData.Key"@));
    assert(m44.dom().len() == 44);
    assert("worldSaveData.SupplySaveData.SupplyInfos.Key"@[14] != "worldSaveData.CharacterContainerSaveData.Key"@[14]);
    assert("worldSaveData.SupplySaveData.SupplyInfos.Key"@[14] != "worldSaveData.OilrigSaveData.OilrigMap.Value"@[14]);
    let m45 = m44.insert("worldSaveData.SupplySaveData.SupplyInfos.Key"@, StructTypeView::Guid);
    assert(!m44.dom().contains("worldSaveData.SupplySaveData.SupplyInfos.Key"@));
    assert(m45.dom() == m44.dom().insert("worldSaveData.SupplySaveData.SupplyInfos.Key"@));
    assert(m45.dom().len() == 45);
    assert("worldSaveData.GuildExtraSaveDataMap.Key"@[14] != "worldSaveData.ItemContainerSaveData.Key"@[14]);
    let m46 = m45.insert("worldSaveData.GuildExtraSaveDataMap.Key"@, StructTypeView::Guid);
    assert(!m45.dom().contains("worldSaveData.GuildExtraSaveDataMap.Key"@));
    assert(m46.dom() == m45.dom().insert("worldSaveData.GuildExtraSaveDataMap.Key"@));
    assert(m46.dom().len() == 46);
    let m47 = m46.insert("SaveData.Local_MaxFriendshipPalIds.Key"@, StructTypeView::Guid);
    assert(!m46.dom().contains("SaveData.Local_MaxFriendshipPalIds.Key"@));
    assert(m47.dom() == m46.dom().insert("SaveData.Local_MaxFriendshipPalIds.Key"@));
    assert(m47.dom().len() == 47);
    let m48 = m47.insert("worldSaveData.MapObjectSpawnerInStageSaveData.SpawnerDataMapByLevelObjectInstanceId.Key"@, StructTypeView::Guid);
    assert(!m47.dom().contains("worldSaveData.MapObjectSpawnerInStageSaveData.SpawnerDataMapByLevelObjectInstanceId.Key"@));
    assert(m48.dom() == m47.dom().insert("worldSaveData.MapObjectSpawnerInStageSaveData.SpawnerDataMapByLevelObjectInstanceId.Key"@));
    assert(m48.dom().len() == 48);
    assert("worldSaveData.DungeonSaveData.RewardSaveDataMap.Key"@[14] != "worldSaveData.FoliageGridSaveDataMap.ModelMap.Value"@[14]);
    assert("worldSaveData.DungeonSaveData.RewardSaveDataMap.Key"@[14] != "worldSaveData.MapObjectSpawnerInStageSaveData.Value"@[14]);
    let m49 = m48.insert("worldSaveData.DungeonSaveData.RewardSaveDataMap.Key"@, StructTypeView::Guid);
    assert(!m48.dom().contains("worldSaveData.DungeonSaveData.RewardSaveDataMap.Key"@));
    assert(m49.dom() == m48.dom().insert("worldSaveData.DungeonSaveData.RewardSaveDataMap.Key"@));
    assert(m49.dom().len() == 49);
    assert("worldSaveData.GroupSaveDataMap.RawData"@[0] != "SaveData.Local_MaxFriendshipPalIds.Key"@[0]);
    let m50 = m49.insert("worldSaveData.GroupSaveDataMap.RawData"@, StructTypeView::PalGroupData);
    assert(!m49.dom().contains("worldSaveData.GroupSaveDataMap.RawData"@));
    assert(m50.dom() == m49.dom().insert("worldSaveData.GroupSaveDataMap.RawData"@));
    assert(m50.dom().len() == 50);
    let m51 = m50.insert("worldSaveData.CharacterSaveParameterMap.RawData"@, StructTypeView::PalCharacterData);
    assert(!m50.dom().contains("worldSaveData.CharacterSaveParameterMap.RawData"@));
    assert(m51.dom() == m50.dom().insert("worldSaveData.CharacterSaveParameterMap.RawData"@));
    assert(m51.dom().len() == 51);
    assert("worldSaveData.ItemContainerSaveData.RawData"@[14] != "worldSaveData.CharacterSaveParameterMap.Key"@[14]);
    let m52 = m51.insert("worldSaveData.ItemContainerSaveData.RawData"@, StructTypeView::PalItemContainer);
    assert(!m51.dom().contains("worldSaveData.ItemContainerSaveData.RawData"@));
    assert(m52.dom() == m51.dom().insert("worldSaveData.ItemContainerSaveData.RawData"@));
    assert(m52.dom().len() == 52);
    assert("worldSaveData.ItemContainerSaveData.Slots.RawData"@[14] != "worldSaveData.MapObjectSpawnerInStageSaveData.Key"@[14]);
    let m53 = m52.insert("worldSaveData.ItemContainerSaveData.Slots.RawData"@, StructTypeView::PalItemContainerSlots);
    assert(!m52.dom().contains("worldSaveData.ItemContainerSaveData.Slots.RawData"@));
    assert(m53.dom() == m52.dom().insert("worldSaveData.ItemContainerSaveData.Slots.RawData"@));
    assert(m53.dom().len() == 53);
    let m54 = m53.insert("worldSaveData.CharacterContainerSaveData.Slots.RawData"@, StructTypeView::PalCharacterContainer);
    assert(!m53.dom().contains("worldSaveData.CharacterContainerSaveData.Slots.RawData"@));
    assert(m54.dom() == m53.dom().insert("worldSaveData.CharacterContainerSaveData.Slots.RawData"@));
    assert(m54.dom().len() == 54);
    assert("worldSaveData.DynamicItemSaveData.RawData"@[14] != "worldSaveData.ItemContainerSaveData.Value"@[14]);
    assert("worldSaveData.DynamicItemSaveData.RawData"@[14] != "worldSaveData.GuildExtraSaveDataMap.Value"@[14]);
    let m55 = m54.insert("worldSaveData.DynamicItemSaveData.RawData"@, StructTypeView::PalDynamicItem);
    assert(!m54.dom().contains("worldSaveData.DynamicItemSaveData.RawData"@));
    assert(m55.dom() == m54.dom().insert("worldSaveData.DynamicItemSaveData.RawData"@));
    assert(m55.dom().len() == 55);
    assert("worldSaveData.BaseCampSaveData.RawData"@[0] != "SaveData.Local_MaxFriendshipPalIds.Key"@[0]);
    assert("worldSaveData.BaseCampSaveData.RawData"@[14] != "worldSaveData.GroupSaveDataMap.RawData"@[14]);
    let m56 = m55.insert("worldSaveData.BaseCampSaveData.RawData"@, StructTypeView::PalBaseCamp);
    assert(!m55.dom().contains("worldSaveData.BaseCampSaveData.RawData"@));
    assert(m56.dom() == m55.dom().insert("worldSaveData.BaseCampSaveData.RawData"@));
    assert(m56.dom().len() == 56);
    let m57 = m56.insert("worldSaveData.WorkSaveData"@, StructTypeView::PalWork);
    assert(!m56.dom().contains("worldSaveData.WorkSaveData"@));
    assert(m57.dom() == m56.dom().insert("worldSaveData.WorkSaveData"@));
    assert(m57.dom().len() == 57);
    let m58 = m57.insert("worldSaveData.GuildExtraSaveDataMap.GuildItemStorage.RawData"@, StructTypeView::PalGuildItemStorage);
    assert(!m57.dom().contains("worldSaveData.GuildExtraSaveDataMap.GuildItemStorage.RawData"@));
    assert(m58.dom() == m57.dom().insert("worldSaveData.GuildExtraSaveDataMap.GuildItemStorage.RawData"@));
    assert(m58.dom().len() == 58);
    assert("worldSaveData.GuildExtraSaveDataMap.Lab.RawData"@[14] != "worldSaveData.CharacterSaveParameterMap.RawData"@[14]);
    let m59 = m58.insert("worldSaveData.GuildExtraSaveDataMap.Lab.RawData"@, StructTypeView::PalGuildLab);
    assert(!m58.dom().contains("worldSaveData.GuildExtraSaveDataMap.Lab.RawData"@));
    assert(m59.dom() == m58.dom().insert("worldSaveData.GuildExtraSaveDataMap.Lab.RawData"@));
    assert(m59.dom().len() == 59);
    assert(m59 == palworld_types_map());
}

} // verus!
