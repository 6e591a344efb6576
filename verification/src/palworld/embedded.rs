//! Palworld structs embedded in a save as byte arrays: reading them by the
//! struct type hint of their property path, writing them back, and deciding
//! what becomes of a property that was just read.
use vstd::prelude::*;
use crate::bytes::Reader;
use crate::error::Error;
use crate::fstring::{fstring_ok, fstring_writable, str_eq};
use crate::struct_types::{StructType, StructTypeView};
use crate::palworld::{is_pal_struct_type, is_pal_struct_type_spec, map_object_save_data_path};
use crate::palworld::base_camp::{PalBaseCamp, PalBaseCampView, parse_base_camp, base_camp_error, ser_base_camp, base_camp_ok, base_camp_writable, lemma_base_camp_roundtrip};
use crate::palworld::build_process::{PalBuildProcess, PalBuildProcessView, parse_build_process, build_process_error, ser_build_process, lemma_build_process_roundtrip};
use crate::palworld::character::{
    PalCharacterData, PalCharacterDataView, parse_character_data, character_data_error, ser_character_data, character_data_ok,
    lemma_character_data_roundtrip, PalCharacterContainer, PalCharacterContainerView, parse_character_container,
    ser_character_container, character_container_ok, lemma_character_container_roundtrip,
};
use crate::palworld::connector::{PalConnector, PalConnectorView, parse_connector, ser_connector, connector_ok, lemma_connector_roundtrip};
use crate::palworld::dynamic_item::{
    PalDynamicItem, PalDynamicItemView, parse_dynamic_item, dynamic_item_error, ser_dynamic_item, item_type_ok, item_type_writable, item_type_unambiguous,
    lemma_dynamic_item_roundtrip, DynamicItemTypeView,
};
use crate::palworld::groups::{PalGroupData, PalGroupDataView, parse_group_data, group_data_error, ser_group_data, group_data_ok, group_data_writable, lemma_group_data_roundtrip};
use crate::palworld::guild::{
    PalGuildLab, PalGuildLabView, parse_guild_lab, guild_lab_error, ser_guild_lab, guild_lab_ok, guild_lab_writable, lemma_guild_lab_roundtrip,
    PalGuildItemStorage, PalGuildItemStorageView, parse_guild_item_storage, ser_guild_item_storage,
    lemma_guild_item_storage_roundtrip,
};
use crate::palworld::items::{
    PalItemContainer, PalItemContainerView, parse_item_container, item_container_error, ser_item_container, item_container_ok, item_container_writable,
    lemma_item_container_roundtrip, PalItemContainerSlot, PalItemContainerSlotView, parse_item_container_slot, item_container_slot_error,
    ser_item_container_slot, lemma_item_container_slot_roundtrip,
};
use crate::palworld::map_model::{PalMapModel, PalMapModelView, parse_map_model, ser_map_model, lemma_map_model_roundtrip};
use crate::palworld::types::{item_id_ok, item_id_writable};
use crate::palworld::work::{PalWork, ser_work, work_read_defaults};
use crate::palworld::map_object::{
    MapObjectData, MapObjectView, MapObjectElement, element_views, map_object_views, map_objects_of, ids_present,
    parse_map_objects,
};
use crate::properties::PropertyView;
use crate::properties::{properties_writable, lemma_properties_ok_writable};

verus! {

/// A Palworld struct read from an embedded byte array.
#[derive(Debug, PartialEq, Eq)]
pub enum PalStructValue {
    PalCharacterData(PalCharacterData),
    PalItemContainer(PalItemContainer),
    PalGroupData(PalGroupData),
    PalDynamicItem(PalDynamicItem),
    PalBuildProcess(PalBuildProcess),
    PalGuildItemStorage(PalGuildItemStorage),
    PalGuildLab(PalGuildLab),
    PalItemContainerSlots(PalItemContainerSlot),
    PalCharacterContainer(PalCharacterContainer),
    PalConnector(PalConnector),
    PalBaseCamp(PalBaseCamp),
    PalWork(PalWork),
    PalMapModel(PalMapModel),
}

/// Model of [`PalStructValue`]; a work site is modelled by the payload it writes.
pub ghost enum PalStructView {
    PalCharacterData(PalCharacterDataView),
    PalItemContainer(PalItemContainerView),
    PalGroupData(PalGroupDataView),
    PalDynamicItem(PalDynamicItemView),
    PalBuildProcess(PalBuildProcessView),
    PalGuildItemStorage(PalGuildItemStorageView),
    PalGuildLab(PalGuildLabView),
    PalItemContainerSlots(PalItemContainerSlotView),
    PalCharacterContainer(PalCharacterContainerView),
    PalConnector(PalConnectorView),
    PalBaseCamp(PalBaseCampView),
    PalWork(Seq<u8>),
    PalMapModel(PalMapModelView),
}

impl View for PalStructValue {
    type V = PalStructView;

    open spec fn view(&self) -> PalStructView {
        match self {
            PalStructValue::PalCharacterData(x) => PalStructView::PalCharacterData(x@),
            PalStructValue::PalItemContainer(x) => PalStructView::PalItemContainer(x@),
            PalStructValue::PalGroupData(x) => PalStructView::PalGroupData(x@),
            PalStructValue::PalDynamicItem(x) => PalStructView::PalDynamicItem(x@),
            PalStructValue::PalBuildProcess(x) => PalStructView::PalBuildProcess(x@),
            PalStructValue::PalGuildItemStorage(x) => PalStructView::PalGuildItemStorage(x@),
            PalStructValue::PalGuildLab(x) => PalStructView::PalGuildLab(x@),
            PalStructValue::PalItemContainerSlots(x) => PalStructView::PalItemContainerSlots(x@),
            PalStructValue::PalCharacterContainer(x) => PalStructView::PalCharacterContainer(x@),
            PalStructValue::PalConnector(x) => PalStructView::PalConnector(x@),
            PalStructValue::PalBaseCamp(x) => PalStructView::PalBaseCamp(x@),
            PalStructValue::PalWork(x) => PalStructView::PalWork(ser_work(x)),
            PalStructValue::PalMapModel(x) => PalStructView::PalMapModel(x@),
        }
    }
}

/// The struct type that a value is of.
pub open spec fn pal_struct_type_of(v: PalStructView) -> StructTypeView {
    match v {
        PalStructView::PalCharacterData(_) => StructTypeView::PalCharacterData,
        PalStructView::PalItemContainer(_) => StructTypeView::PalItemContainer,
        PalStructView::PalGroupData(_) => StructTypeView::PalGroupData,
        PalStructView::PalDynamicItem(_) => StructTypeView::PalDynamicItem,
        PalStructView::PalBuildProcess(_) => StructTypeView::PalBuildProcess,
        PalStructView::PalGuildItemStorage(_) => StructTypeView::PalGuildItemStorage,
        PalStructView::PalGuildLab(_) => StructTypeView::PalGuildLab,
        PalStructView::PalItemContainerSlots(_) => StructTypeView::PalItemContainerSlots,
        PalStructView::PalCharacterContainer(_) => StructTypeView::PalCharacterContainer,
        PalStructView::PalConnector(_) => StructTypeView::PalConnector,
        PalStructView::PalBaseCamp(_) => StructTypeView::PalBaseCamp,
        PalStructView::PalWork(_) => StructTypeView::PalWork,
        PalStructView::PalMapModel(_) => StructTypeView::PalMapModel,
    }
}

/// A parse that must consume exactly `len` bytes.
pub open spec fn whole<V>(p: Option<(V, int)>, len: int) -> Option<V> {
    match p {
        Some((v, n)) => if n == len { Some(v) } else { None },
        None => None,
    }
}

/// The struct that an embedded byte array holds under the given type, read
/// from all of its bytes; none for types without a reader that needs no
/// more context, and for bytes that do not parse or are not all consumed.
pub open spec fn parse_pal_struct(t: StructTypeView, s: Seq<u8>) -> Option<PalStructView> {
    match t {
        StructTypeView::PalCharacterData => match whole(parse_character_data(s), s.len() as int) {
            Some(v) => Some(PalStructView::PalCharacterData(v)),
            None => None,
        },
        StructTypeView::PalItemContainer => match parse_item_container(s) {
            Some(v) => Some(PalStructView::PalItemContainer(v)),
            None => None,
        },
        StructTypeView::PalGroupData => match parse_group_data(s) {
            Some(v) => Some(PalStructView::PalGroupData(v)),
            None => None,
        },
        StructTypeView::PalDynamicItem => match parse_dynamic_item(s) {
            Some(v) => Some(PalStructView::PalDynamicItem(v)),
            None => None,
        },
        StructTypeView::PalBuildProcess => match parse_build_process(s) {
            Some(v) => Some(PalStructView::PalBuildProcess(v)),
            None => None,
        },
        StructTypeView::PalGuildItemStorage => match parse_guild_item_storage(s) {
            Some(v) => Some(PalStructView::PalGuildItemStorage(v)),
            None => None,
        },
        StructTypeView::PalGuildLab => match parse_guild_lab(s) {
            Some(v) => Some(PalStructView::PalGuildLab(v)),
            None => None,
        },
        StructTypeView::PalItemContainerSlots => match parse_item_container_slot(s) {
            Some(v) => Some(PalStructView::PalItemContainerSlots(v)),
            None => None,
        },
        StructTypeView::PalCharacterContainer => match parse_character_container(s) {
            Some(v) => Some(PalStructView::PalCharacterContainer(v)),
            None => None,
        },
        StructTypeView::PalConnector => match parse_connector(s) {
            Some(v) => Some(PalStructView::PalConnector(v)),
            None => None,
        },
        StructTypeView::PalBaseCamp => match whole(parse_base_camp(s), s.len() as int) {
            Some(v) => Some(PalStructView::PalBaseCamp(v)),
            None => None,
        },
        StructTypeView::PalWork => Some(PalStructView::PalWork(s)),
        StructTypeView::PalMapModel => match parse_map_model(s) {
            Some(v) => Some(PalStructView::PalMapModel(v)),
            None => None,
        },
        _ => None,
    }
}

/// Why the bytes do not hold a struct of type `t`: the error of the
/// struct's reader, `PartialParse` when a struct that does not take all of
/// its bytes leaves some, and `NoContextFreeReader` for types whose reader
/// needs more than the bytes.
pub open spec fn pal_struct_error(t: StructTypeView, s: Seq<u8>) -> Error {
    match t {
        StructTypeView::PalCharacterData => match parse_character_data(s) {
            None => character_data_error(s),
            Some(_) => Error::PartialParse,
        },
        StructTypeView::PalItemContainer => item_container_error(s),
        StructTypeView::PalGroupData => group_data_error(s),
        StructTypeView::PalDynamicItem => dynamic_item_error(s),
        StructTypeView::PalBuildProcess => build_process_error(s),
        StructTypeView::PalGuildItemStorage => Error::UnexpectedEof,
        StructTypeView::PalGuildLab => guild_lab_error(s),
        StructTypeView::PalItemContainerSlots => item_container_slot_error(s),
        StructTypeView::PalCharacterContainer => Error::UnexpectedEof,
        StructTypeView::PalConnector => Error::UnexpectedEof,
        StructTypeView::PalBaseCamp => match parse_base_camp(s) {
            None => base_camp_error(s),
            Some(_) => Error::PartialParse,
        },
        StructTypeView::PalWork => Error::UnexpectedEof,
        StructTypeView::PalMapModel => Error::UnexpectedEof,
        _ => Error::NoContextFreeReader,
    }
}

/// Fails unless the reader is at the end of its bytes.
fn expect_end(r: &Reader) -> (res: Result<(), Error>)
    requires
        r.valid(),
    ensures
        res is Ok <==> r.rest().len() == 0,
        res is Err ==> res == Err::<(), Error>(Error::PartialParse),
{
    if r.remaining() != 0 {
        Err(Error::PartialParse)
    } else {
        Ok(())
    }
}

fn read_pal_character_data(bytes: &[u8]) -> (res: Result<PalStructValue, Error>)
    ensures
        match parse_pal_struct(StructTypeView::PalCharacterData, bytes@) {
            Some(v) => res matches Ok(x) && x@ == v,
            None => res == Err::<PalStructValue, Error>(pal_struct_error(StructTypeView::PalCharacterData, bytes@)),
        },
{
    let mut r = Reader::new(bytes);
    assert(r.rest() =~= bytes@);
    let x = PalCharacterData::read(&mut r)?;
    expect_end(&r)?;
    Ok(PalStructValue::PalCharacterData(x))
}

fn read_pal_item_container(bytes: &[u8]) -> (res: Result<PalStructValue, Error>)
    ensures
        match parse_pal_struct(StructTypeView::PalItemContainer, bytes@) {
            Some(v) => res matches Ok(x) && x@ == v,
            None => res == Err::<PalStructValue, Error>(pal_struct_error(StructTypeView::PalItemContainer, bytes@)),
        },
{
    let mut r = Reader::new(bytes);
    assert(r.rest() =~= bytes@);
    let x = PalItemContainer::read(&mut r)?;
    expect_end(&r)?;
    Ok(PalStructValue::PalItemContainer(x))
}

fn read_pal_group_data(bytes: &[u8]) -> (res: Result<PalStructValue, Error>)
    ensures
        match parse_pal_struct(StructTypeView::PalGroupData, bytes@) {
            Some(v) => res matches Ok(x) && x@ == v,
            None => res == Err::<PalStructValue, Error>(pal_struct_error(StructTypeView::PalGroupData, bytes@)),
        },
{
    let mut r = Reader::new(bytes);
    assert(r.rest() =~= bytes@);
    let x = PalGroupData::read(&mut r)?;
    expect_end(&r)?;
    Ok(PalStructValue::PalGroupData(x))
}

fn read_pal_dynamic_item(bytes: &[u8]) -> (res: Result<PalStructValue, Error>)
    ensures
        match parse_pal_struct(StructTypeView::PalDynamicItem, bytes@) {
            Some(v) => res matches Ok(x) && x@ == v,
            None => res == Err::<PalStructValue, Error>(pal_struct_error(StructTypeView::PalDynamicItem, bytes@)),
        },
{
    let mut r = Reader::new(bytes);
    assert(r.rest() =~= bytes@);
    let x = PalDynamicItem::read(&mut r)?;
    expect_end(&r)?;
    Ok(PalStructValue::PalDynamicItem(x))
}

fn read_pal_build_process(bytes: &[u8]) -> (res: Result<PalStructValue, Error>)
    ensures
        match parse_pal_struct(StructTypeView::PalBuildProcess, bytes@) {
            Some(v) => res matches Ok(x) && x@ == v,
            None => res == Err::<PalStructValue, Error>(pal_struct_error(StructTypeView::PalBuildProcess, bytes@)),
        },
{
    let mut r = Reader::new(bytes);
    assert(r.rest() =~= bytes@);
    let x = PalBuildProcess::read(&mut r)?;
    expect_end(&r)?;
    Ok(PalStructValue::PalBuildProcess(x))
}

fn read_pal_guild_item_storage(bytes: &[u8]) -> (res: Result<PalStructValue, Error>)
    ensures
        match parse_pal_struct(StructTypeView::PalGuildItemStorage, bytes@) {
            Some(v) => res matches Ok(x) && x@ == v,
            None => res == Err::<PalStructValue, Error>(pal_struct_error(StructTypeView::PalGuildItemStorage, bytes@)),
        },
{
    let mut r = Reader::new(bytes);
    assert(r.rest() =~= bytes@);
    let x = PalGuildItemStorage::read(&mut r)?;
    expect_end(&r)?;
    Ok(PalStructValue::PalGuildItemStorage(x))
}

fn read_pal_guild_lab(bytes: &[u8]) -> (res: Result<PalStructValue, Error>)
    ensures
        match parse_pal_struct(StructTypeView::PalGuildLab, bytes@) {
            Some(v) => res matches Ok(x) && x@ == v,
            None => res == Err::<PalStructValue, Error>(pal_struct_error(StructTypeView::PalGuildLab, bytes@)),
        },
{
    let mut r = Reader::new(bytes);
    assert(r.rest() =~= bytes@);
    let x = PalGuildLab::read(&mut r)?;
    expect_end(&r)?;
    Ok(PalStructValue::PalGuildLab(x))
}

fn read_pal_item_container_slots(bytes: &[u8]) -> (res: Result<PalStructValue, Error>)
    ensures
        match parse_pal_struct(StructTypeView::PalItemContainerSlots, bytes@) {
            Some(v) => res matches Ok(x) && x@ == v,
            None => res == Err::<PalStructValue, Error>(pal_struct_error(StructTypeView::PalItemContainerSlots, bytes@)),
        },
{
    let mut r = Reader::new(bytes);
    assert(r.rest() =~= bytes@);
    let x = PalItemContainerSlot::read(&mut r)?;
    expect_end(&r)?;
    Ok(PalStructValue::PalItemContainerSlots(x))
}

fn read_pal_character_container(bytes: &[u8]) -> (res: Result<PalStructValue, Error>)
    ensures
        match parse_pal_struct(StructTypeView::PalCharacterContainer, bytes@) {
            Some(v) => res matches Ok(x) && x@ == v,
            None => res == Err::<PalStructValue, Error>(pal_struct_error(StructTypeView::PalCharacterContainer, bytes@)),
        },
{
    let mut r = Reader::new(bytes);
    assert(r.rest() =~= bytes@);
    let x = PalCharacterContainer::read(&mut r)?;
    expect_end(&r)?;
    Ok(PalStructValue::PalCharacterContainer(x))
}

fn read_pal_connector(bytes: &[u8]) -> (res: Result<PalStructValue, Error>)
    ensures
        match parse_pal_struct(StructTypeView::PalConnector, bytes@) {
            Some(v) => res matches Ok(x) && x@ == v,
            None => res == Err::<PalStructValue, Error>(pal_struct_error(StructTypeView::PalConnector, bytes@)),
        },
{
    let mut r = Reader::new(bytes);
    assert(r.rest() =~= bytes@);
    let x = PalConnector::read(&mut r)?;
    expect_end(&r)?;
    Ok(PalStructValue::PalConnector(x))
}

fn read_pal_base_camp(bytes: &[u8]) -> (res: Result<PalStructValue, Error>)
    ensures
        match parse_pal_struct(StructTypeView::PalBaseCamp, bytes@) {
            Some(v) => res matches Ok(x) && x@ == v,
            None => res == Err::<PalStructValue, Error>(pal_struct_error(StructTypeView::PalBaseCamp, bytes@)),
        },
{
    let mut r = Reader::new(bytes);
    assert(r.rest() =~= bytes@);
    let x = PalBaseCamp::read(&mut r)?;
    expect_end(&r)?;
    Ok(PalStructValue::PalBaseCamp(x))
}

fn read_pal_work(bytes: &[u8]) -> (res: Result<PalStructValue, Error>)
    ensures
        match parse_pal_struct(StructTypeView::PalWork, bytes@) {
            Some(v) => res matches Ok(x) && x@ == v && read_defaults(x),
            None => res == Err::<PalStructValue, Error>(pal_struct_error(StructTypeView::PalWork, bytes@)),
        },
{
    let mut r = Reader::new(bytes);
    assert(r.rest() =~= bytes@);
    let x = PalWork::read(&mut r)?;
    expect_end(&r)?;
    Ok(PalStructValue::PalWork(x))
}

#[verifier::spinoff_prover]
#[verifier::rlimit(30)]
fn read_pal_map_model(bytes: &[u8]) -> (res: Result<PalStructValue, Error>)
    ensures
        match parse_pal_struct(StructTypeView::PalMapModel, bytes@) {
            Some(v) => res matches Ok(x) && x@ == v,
            None => res == Err::<PalStructValue, Error>(pal_struct_error(StructTypeView::PalMapModel, bytes@)),
        },
{
    let mut r = Reader::new(bytes);
    assert(r.rest() =~= bytes@);
    let x = PalMapModel::read(&mut r)?;
    expect_end(&r)?;
    Ok(PalStructValue::PalMapModel(x))
}

/// Reads the struct that an embedded byte array holds under type `t`; all
/// of the bytes must be consumed.
pub fn read_pal_struct(bytes: &[u8], t: &StructType) -> (res: Result<PalStructValue, Error>)
    ensures
        match parse_pal_struct(t@, bytes@) {
            Some(v) => res matches Ok(x) && x@ == v && read_defaults(x),
            None => res == Err::<PalStructValue, Error>(pal_struct_error(t@, bytes@)),
        },
{
    match t {
        StructType::PalCharacterData => read_pal_character_data(bytes),
        StructType::PalItemContainer => read_pal_item_container(bytes),
        StructType::PalGroupData => read_pal_group_data(bytes),
        StructType::PalDynamicItem => read_pal_dynamic_item(bytes),
        StructType::PalBuildProcess => read_pal_build_process(bytes),
        StructType::PalGuildItemStorage => read_pal_guild_item_storage(bytes),
        StructType::PalGuildLab => read_pal_guild_lab(bytes),
        StructType::PalItemContainerSlots => read_pal_item_container_slots(bytes),
        StructType::PalCharacterContainer => read_pal_character_container(bytes),
        StructType::PalConnector => read_pal_connector(bytes),
        StructType::PalBaseCamp => read_pal_base_camp(bytes),
        StructType::PalWork => read_pal_work(bytes),
        StructType::PalMapModel => read_pal_map_model(bytes),
        _ => Err(Error::NoContextFreeReader),
    }
}

/// Encoding of a struct as the bytes it is embedded as.
pub open spec fn ser_pal_struct(v: PalStructView) -> Seq<u8> {
    match v {
        PalStructView::PalCharacterData(x) => ser_character_data(x),
        PalStructView::PalItemContainer(x) => ser_item_container(x),
        PalStructView::PalGroupData(x) => ser_group_data(x),
        PalStructView::PalDynamicItem(x) => ser_dynamic_item(x),
        PalStructView::PalBuildProcess(x) => ser_build_process(x),
        PalStructView::PalGuildItemStorage(x) => ser_guild_item_storage(x),
        PalStructView::PalGuildLab(x) => ser_guild_lab(x),
        PalStructView::PalItemContainerSlots(x) => ser_item_container_slot(x),
        PalStructView::PalCharacterContainer(x) => ser_character_container(x),
        PalStructView::PalConnector(x) => ser_connector(x),
        PalStructView::PalBaseCamp(x) => ser_base_camp(x),
        PalStructView::PalWork(d) => d,
        PalStructView::PalMapModel(x) => ser_map_model(x),
    }
}

/// Structs that can be written: every string and count fits its field.
pub open spec fn pal_struct_writable(v: PalStructView) -> bool {
    match v {
        PalStructView::PalCharacterData(x) => properties_writable(x.object),
        PalStructView::PalItemContainer(x) => item_container_writable(x),
        PalStructView::PalGroupData(x) => group_data_writable(x),
        PalStructView::PalDynamicItem(x) => fstring_writable(x.static_id) && item_type_writable(x.item_type),
        PalStructView::PalGuildLab(x) => guild_lab_writable(x),
        PalStructView::PalItemContainerSlots(x) => item_id_writable(x.item),
        PalStructView::PalConnector(x) => connector_ok(x),
        PalStructView::PalBaseCamp(x) => base_camp_writable(x),
        _ => true,
    }
}

/// Structs that read back as written: strings without NUL that fit their
/// fields, counts that fit theirs, and shapes as reading leaves them
/// (optional parts present or absent together, fixed lengths, item data
/// that no earlier layout claims).
pub open spec fn pal_struct_ok(v: PalStructView) -> bool {
    match v {
        PalStructView::PalCharacterData(x) => character_data_ok(x),
        PalStructView::PalItemContainer(x) => item_container_ok(x),
        PalStructView::PalGroupData(x) => group_data_ok(x),
        PalStructView::PalDynamicItem(x) => fstring_ok(x.static_id) && item_type_ok(x.item_type)
            && item_type_unambiguous(x.item_type),
        PalStructView::PalBuildProcess(x) => x.trailing_bytes.len() == 4,
        PalStructView::PalGuildLab(x) => guild_lab_ok(x),
        PalStructView::PalItemContainerSlots(x) => item_id_ok(x.item),
        PalStructView::PalCharacterContainer(x) => character_container_ok(x),
        PalStructView::PalConnector(x) => connector_ok(x),
        PalStructView::PalBaseCamp(x) => base_camp_ok(x),
        _ => true,
    }
}

impl PalStructValue {
    /// The struct type of this value.
    pub fn struct_type(&self) -> (t: StructType)
        ensures
            t@ == pal_struct_type_of(self@),
    {
        match self {
            PalStructValue::PalCharacterData(_) => StructType::PalCharacterData,
            PalStructValue::PalItemContainer(_) => StructType::PalItemContainer,
            PalStructValue::PalGroupData(_) => StructType::PalGroupData,
            PalStructValue::PalDynamicItem(_) => StructType::PalDynamicItem,
            PalStructValue::PalBuildProcess(_) => StructType::PalBuildProcess,
            PalStructValue::PalGuildItemStorage(_) => StructType::PalGuildItemStorage,
            PalStructValue::PalGuildLab(_) => StructType::PalGuildLab,
            PalStructValue::PalItemContainerSlots(_) => StructType::PalItemContainerSlots,
            PalStructValue::PalCharacterContainer(_) => StructType::PalCharacterContainer,
            PalStructValue::PalConnector(_) => StructType::PalConnector,
            PalStructValue::PalBaseCamp(_) => StructType::PalBaseCamp,
            PalStructValue::PalWork(_) => StructType::PalWork,
            PalStructValue::PalMapModel(_) => StructType::PalMapModel,
        }
    }

    /// Writes the bytes that this struct is embedded as.
    pub fn write(&self, out: &mut Vec<u8>)
        requires
            pal_struct_writable(self@),
        ensures
            final(out)@ == old(out)@ + ser_pal_struct(self@),
    {
        match self {
            PalStructValue::PalCharacterData(x) => x.write(out),
            PalStructValue::PalItemContainer(x) => x.write(out),
            PalStructValue::PalGroupData(x) => x.write(out),
            PalStructValue::PalDynamicItem(x) => x.write(out),
            PalStructValue::PalBuildProcess(x) => x.write(out),
            PalStructValue::PalGuildItemStorage(x) => x.write(out),
            PalStructValue::PalGuildLab(x) => x.write(out),
            PalStructValue::PalItemContainerSlots(x) => x.write(out),
            PalStructValue::PalCharacterContainer(x) => x.write(out),
            PalStructValue::PalConnector(x) => x.write(out),
            PalStructValue::PalBaseCamp(x) => x.write(out),
            PalStructValue::PalWork(x) => x.write(out),
            PalStructValue::PalMapModel(x) => x.write(out),
        }
    }
}

proof fn lemma_pal_character_data_embedded(v: PalStructView)
    requires
        v is PalCharacterData,
        pal_struct_ok(v),
    ensures
        parse_pal_struct(pal_struct_type_of(v), ser_pal_struct(v)) == Some(v),
{
    if let PalStructView::PalCharacterData(x) = v {
        lemma_character_data_roundtrip(x);
    }
}

proof fn lemma_pal_item_container_embedded(v: PalStructView)
    requires
        v is PalItemContainer,
        pal_struct_ok(v),
    ensures
        parse_pal_struct(pal_struct_type_of(v), ser_pal_struct(v)) == Some(v),
{
    if let PalStructView::PalItemContainer(x) = v {
        lemma_item_container_roundtrip(x);
    }
}

proof fn lemma_pal_group_data_embedded(v: PalStructView)
    requires
        v is PalGroupData,
        pal_struct_ok(v),
    ensures
        parse_pal_struct(pal_struct_type_of(v), ser_pal_struct(v)) == Some(v),
{
    if let PalStructView::PalGroupData(x) = v {
        lemma_group_data_roundtrip(x);
    }
}

proof fn lemma_pal_dynamic_item_embedded(v: PalStructView)
    requires
        v is PalDynamicItem,
        pal_struct_ok(v),
    ensures
        parse_pal_struct(pal_struct_type_of(v), ser_pal_struct(v)) == Some(v),
{
    if let PalStructView::PalDynamicItem(x) = v {
        lemma_dynamic_item_roundtrip(x);
    }
}

proof fn lemma_pal_build_process_embedded(v: PalStructView)
    requires
        v is PalBuildProcess,
        pal_struct_ok(v),
    ensures
        parse_pal_struct(pal_struct_type_of(v), ser_pal_struct(v)) == Some(v),
{
    if let PalStructView::PalBuildProcess(x) = v {
        lemma_build_process_roundtrip(x);
    }
}

proof fn lemma_pal_guild_item_storage_embedded(v: PalStructView)
    requires
        v is PalGuildItemStorage,
        pal_struct_ok(v),
    ensures
        parse_pal_struct(pal_struct_type_of(v), ser_pal_struct(v)) == Some(v),
{
    if let PalStructView::PalGuildItemStorage(x) = v {
        lemma_guild_item_storage_roundtrip(x);
    }
}

proof fn lemma_pal_guild_lab_embedded(v: PalStructView)
    requires
        v is PalGuildLab,
        pal_struct_ok(v),
    ensures
        parse_pal_struct(pal_struct_type_of(v), ser_pal_struct(v)) == Some(v),
{
    if let PalStructView::PalGuildLab(x) = v {
        lemma_guild_lab_roundtrip(x);
    }
}

proof fn lemma_pal_item_container_slots_embedded(v: PalStructView)
    requires
        v is PalItemContainerSlots,
        pal_struct_ok(v),
    ensures
        parse_pal_struct(pal_struct_type_of(v), ser_pal_struct(v)) == Some(v),
{
    if let PalStructView::PalItemContainerSlots(x) = v {
        lemma_item_container_slot_roundtrip(x);
    }
}

proof fn lemma_pal_character_container_embedded(v: PalStructView)
    requires
        v is PalCharacterContainer,
        pal_struct_ok(v),
    ensures
        parse_pal_struct(pal_struct_type_of(v), ser_pal_struct(v)) == Some(v),
{
    if let PalStructView::PalCharacterContainer(x) = v {
        lemma_character_container_roundtrip(x);
    }
}

proof fn lemma_pal_connector_embedded(v: PalStructView)
    requires
        v is PalConnector,
        pal_struct_ok(v),
    ensures
        parse_pal_struct(pal_struct_type_of(v), ser_pal_struct(v)) == Some(v),
{
    if let PalStructView::PalConnector(x) = v {
        lemma_connector_roundtrip(x);
    }
}

proof fn lemma_pal_base_camp_embedded(v: PalStructView)
    requires
        v is PalBaseCamp,
        pal_struct_ok(v),
    ensures
        parse_pal_struct(pal_struct_type_of(v), ser_pal_struct(v)) == Some(v),
{
    if let PalStructView::PalBaseCamp(x) = v {
        lemma_base_camp_roundtrip(x, Seq::<u8>::empty());
            assert(ser_base_camp(x) + Seq::<u8>::empty() =~= ser_base_camp(x));
    }
}

#[verifier::spinoff_prover]
#[verifier::rlimit(100)]
proof fn lemma_pal_map_model_embedded(v: PalStructView)
    requires
        v is PalMapModel,
    ensures
        parse_pal_struct(pal_struct_type_of(v), ser_pal_struct(v)) == Some(v),
{
    if let PalStructView::PalMapModel(x) = v {
        let s = ser_map_model(x);
        lemma_map_model_roundtrip(x);
        assert(parse_map_model(s) == Some(x));
        assert(parse_pal_struct(StructTypeView::PalMapModel, s) == Some(PalStructView::PalMapModel(x)));
    }
}

/// An embedded struct reads back from the bytes it is written as, under the
/// struct type it is of.
pub proof fn lemma_pal_struct_roundtrip(v: PalStructView)
    requires
        pal_struct_ok(v),
    ensures
        parse_pal_struct(pal_struct_type_of(v), ser_pal_struct(v)) == Some(v),
{
    match v {
        PalStructView::PalCharacterData(_) => lemma_pal_character_data_embedded(v),
        PalStructView::PalItemContainer(_) => lemma_pal_item_container_embedded(v),
        PalStructView::PalGroupData(_) => lemma_pal_group_data_embedded(v),
        PalStructView::PalDynamicItem(_) => lemma_pal_dynamic_item_embedded(v),
        PalStructView::PalBuildProcess(_) => lemma_pal_build_process_embedded(v),
        PalStructView::PalGuildItemStorage(_) => lemma_pal_guild_item_storage_embedded(v),
        PalStructView::PalGuildLab(_) => lemma_pal_guild_lab_embedded(v),
        PalStructView::PalItemContainerSlots(_) => lemma_pal_item_container_slots_embedded(v),
        PalStructView::PalCharacterContainer(_) => lemma_pal_character_container_embedded(v),
        PalStructView::PalConnector(_) => lemma_pal_connector_embedded(v),
        PalStructView::PalBaseCamp(_) => lemma_pal_base_camp_embedded(v),
        PalStructView::PalMapModel(_) => lemma_pal_map_model_embedded(v),
        PalStructView::PalWork(_) => {},
    }
}

/// What becomes of a property that was just read.
#[derive(Debug, PartialEq, Eq)]
pub enum ReadAction {
    /// The value stays as it was read.
    Keep,
    /// The value is the map object data, an array of structs: this is the
    /// data of its elements, read in order by
    /// [`crate::palworld::map_object::parse_map_objects`].
    MapObjects(Vec<MapObjectData>),
    /// The embedded bytes become this struct, and the property's tag a
    /// struct tag of its type.
    Replace(PalStructValue),
}

/// Model of [`ReadAction`], with the failure case and its error.
pub ghost enum ReadActionView {
    Keep,
    MapObjects(Seq<MapObjectView>),
    Replace(PalStructView),
    Fail(Error),
}

/// The decision for a property read at `path`, with the struct type hint
/// for that path, the value's bytes when it is a byte array, its elements
/// when it is an array of structs, and whether unparsable embedded data is
/// kept raw (which does not apply to the map object data).
pub open spec fn read_action(
    hint: Option<StructTypeView>,
    path: Seq<char>,
    bytes: Option<Seq<u8>>,
    elements: Option<Seq<Option<Seq<PropertyView>>>>,
    error_to_raw: bool,
) -> ReadActionView {
    match hint {
        None => ReadActionView::Keep,
        Some(t) => if path == map_object_save_data_path() {
            match elements {
                Some(es) => match map_objects_of(es) {
                    Ok(ms) => ReadActionView::MapObjects(ms),
                    Err(e) => ReadActionView::Fail(e),
                },
                None => ReadActionView::Keep,
            }
        } else if !is_pal_struct_type_spec(t) {
            ReadActionView::Keep
        } else {
            match bytes {
                None => ReadActionView::Keep,
                Some(b) => if b.len() == 0 {
                    ReadActionView::Keep
                } else {
                    match parse_pal_struct(t, b) {
                        Some(v) => ReadActionView::Replace(v),
                        None => if error_to_raw {
                            ReadActionView::Keep
                        } else {
                            ReadActionView::Fail(pal_struct_error(t, b))
                        },
                    }
                },
            }
        },
    }
}

/// The model of an optional struct type hint.
pub open spec fn hint_view(h: Option<&StructType>) -> Option<StructTypeView> {
    match h {
        Some(t) => Some(t@),
        None => None,
    }
}

/// The model of optional bytes.
pub open spec fn opt_slice_view(b: Option<&[u8]>) -> Option<Seq<u8>> {
    match b {
        Some(x) => Some(x@),
        None => None,
    }
}

/// The model of optional array elements.
pub open spec fn opt_elements_view(e: Option<&Vec<MapObjectElement>>) -> Option<Seq<Option<Seq<PropertyView>>>> {
    match e {
        Some(x) => Some(element_views(x@)),
        None => None,
    }
}

/// Facts that reading gives a struct besides its bytes: a work site has the
/// defaults of [`work_read_defaults`].
pub open spec fn read_defaults(v: PalStructValue) -> bool {
    match v {
        PalStructValue::PalWork(w) => work_read_defaults(w),
        _ => true,
    }
}

/// Decides what becomes of a property that was just read, and carries it
/// out on the value's bytes or elements; see [`read_action`]. A work site
/// that is read has the defaults of [`work_read_defaults`].
pub fn process_property_for_read(
    hint: Option<&StructType>,
    path: &str,
    bytes: Option<&[u8]>,
    elements: Option<&Vec<MapObjectElement>>,
    error_to_raw: bool,
) -> (res: Result<ReadAction, Error>)
    requires
        (hint is Some && path@ == map_object_save_data_path() && elements is Some) ==> ids_present(
            element_views(elements->0@),
        ),
    ensures
        match read_action(hint_view(hint), path@, opt_slice_view(bytes), opt_elements_view(elements), error_to_raw) {
            ReadActionView::Keep => res == Ok::<ReadAction, Error>(ReadAction::Keep),
            ReadActionView::MapObjects(ms) => res matches Ok(ReadAction::MapObjects(v)) && map_object_views(v@) == ms,
            ReadActionView::Replace(v) => res matches Ok(ReadAction::Replace(x)) && x@ == v && read_defaults(x),
            ReadActionView::Fail(e) => res == Err::<ReadAction, Error>(e),
        },
{
    let t = match hint {
        None => return Ok(ReadAction::Keep),
        Some(t) => t,
    };
    proof {
        reveal_strlit("worldSaveData.MapObjectSaveData");
    }
    if str_eq(path, "worldSaveData.MapObjectSaveData") {
        return match elements {
            Some(es) => match parse_map_objects(es) {
                Ok(ms) => Ok(ReadAction::MapObjects(ms)),
                Err(e) => Err(e),
            },
            None => Ok(ReadAction::Keep),
        };
    }
    if !is_pal_struct_type(t) {
        return Ok(ReadAction::Keep);
    }
    let b = match bytes {
        None => return Ok(ReadAction::Keep),
        Some(b) => b,
    };
    if b.len() == 0 {
        return Ok(ReadAction::Keep);
    }
    match read_pal_struct(b, t) {
        Ok(v) => Ok(ReadAction::Replace(v)),
        Err(e) => if error_to_raw { Ok(ReadAction::Keep) } else { Err(e) },
    }
}

/// A property value about to be written, as far as embedding is concerned.
#[derive(Debug, PartialEq, Eq)]
pub enum WriteValue {
    /// A byte array (an embedded payload that was left unparsed).
    Bytes(Vec<u8>),
    /// A Palworld struct read from an embedded byte array.
    Struct(PalStructValue),
    /// Any other value.
    Other,
}

/// The bytes that a property whose tag records `struct_type` is written as,
/// when it is an embedded Palworld struct; none when it is written as it is.
pub open spec fn write_bytes(struct_type: Option<StructTypeView>, v: WriteValue) -> Option<Seq<u8>> {
    match struct_type {
        None => None,
        Some(t) => if !is_pal_struct_type_spec(t) {
            None
        } else {
            match v {
                WriteValue::Bytes(b) => Some(b@),
                WriteValue::Struct(s) => Some(ser_pal_struct(s@)),
                WriteValue::Other => None,
            }
        },
    }
}

/// Decides how a property is written: an embedded Palworld struct becomes a
/// byte array again (an unparsed one stays as it is); see [`write_bytes`].
pub fn process_property_for_write(struct_type: Option<&StructType>, v: &WriteValue) -> (res: Option<Vec<u8>>)
    requires
        struct_type matches Some(t) ==> (is_pal_struct_type_spec(t@) ==> (v matches WriteValue::Struct(s)
            ==> pal_struct_writable(s@))),
    ensures
        match write_bytes(hint_view(struct_type), *v) {
            Some(b) => res matches Some(x) && x@ == b,
            None => res is None,
        },
{
    let t = match struct_type {
        None => return None,
        Some(t) => t,
    };
    if !is_pal_struct_type(t) {
        return None;
    }
    match v {
        WriteValue::Bytes(b) => Some(vstd::slice::slice_to_vec(b.as_slice())),
        WriteValue::Struct(s) => {
            let mut out: Vec<u8> = Vec::new();
            s.write(&mut out);
            assert(out@ =~= ser_pal_struct(s@));
            Some(out)
        },
        WriteValue::Other => None,
    }
}

/// A Palworld struct that is written back into its property is read again
/// as the same struct, when its bytes are not empty and its property path
/// is not the map object data's (whose elements are read differently).
/// Empty payloads stay byte arrays, and write back as they were.
pub proof fn lemma_embedded_roundtrip(
    v: PalStructView,
    path: Seq<char>,
    elements: Option<Seq<Option<Seq<PropertyView>>>>,
    error_to_raw: bool,
)
    requires
        pal_struct_ok(v),
        path != map_object_save_data_path(),
    ensures
        ser_pal_struct(v).len() > 0 ==> read_action(
            Some(pal_struct_type_of(v)),
            path,
            Some(ser_pal_struct(v)),
            elements,
            error_to_raw,
        ) == ReadActionView::Replace(v),
        ser_pal_struct(v).len() == 0 ==> read_action(
            Some(pal_struct_type_of(v)),
            path,
            Some(ser_pal_struct(v)),
            elements,
            error_to_raw,
        ) == ReadActionView::Keep,
{
    lemma_pal_struct_roundtrip(v);
}

/// Structs that read back as written can be written.
pub proof fn lemma_pal_struct_ok_writable(v: PalStructView)
    requires
        pal_struct_ok(v),
    ensures
        pal_struct_writable(v),
{
    match v {
        PalStructView::PalCharacterData(x) => lemma_properties_ok_writable(x.object),
        PalStructView::PalItemContainer(x) => {
            assert forall|i: int| 0 <= i < x.item_static_ids.len() implies fstring_writable(
                #[trigger] x.item_static_ids[i],
            ) by {
                assert(fstring_ok(x.item_static_ids[i]));
            }
        },
        PalStructView::PalGuildLab(x) => {
            assert forall|i: int| 0 <= i < x.research_info.len() implies fstring_writable(
                #[trigger] x.research_info[i].research_id,
            ) by {
                assert(fstring_ok(x.research_info[i].research_id));
            }
        },
        PalStructView::PalDynamicItem(x) => {
            match x.item_type {
                DynamicItemTypeView::Egg { object, .. } => lemma_properties_ok_writable(object),
                DynamicItemTypeView::Weapon { passive_skill_list, .. } => {
                    assert forall|i: int| 0 <= i < passive_skill_list.len() implies fstring_writable(
                        #[trigger] passive_skill_list[i],
                    ) by {
                        assert(fstring_ok(passive_skill_list[i]));
                    }
                },
                _ => {},
            }
        },
        _ => {},
    }
}

/// Bytes that hold a struct resave unchanged: for every struct that reads
/// back as written, reading its bytes under its type gives a struct that
/// can be written, and writing that struct gives the same bytes.
pub proof fn lemma_pal_struct_resave(v: PalStructView, b: Seq<u8>)
    requires
        pal_struct_ok(v),
        b == ser_pal_struct(v),
    ensures
        parse_pal_struct(pal_struct_type_of(v), b) matches Some(w) && pal_struct_writable(w) && ser_pal_struct(w)
            == b,
{
    lemma_pal_struct_roundtrip(v);
    lemma_pal_struct_ok_writable(v);
}

/// A property holding the bytes of a struct (not empty, not at the map
/// object data's path) is read as a struct, and the write decision for that
/// struct gives back the same bytes: reading and then writing a save leaves
/// such a property byte for byte as it was.
pub proof fn lemma_embedded_resave(
    v: PalStructView,
    b: Seq<u8>,
    path: Seq<char>,
    elements: Option<Seq<Option<Seq<PropertyView>>>>,
    error_to_raw: bool,
)
    requires
        pal_struct_ok(v),
        b == ser_pal_struct(v),
        b.len() > 0,
        path != map_object_save_data_path(),
    ensures
        read_action(Some(pal_struct_type_of(v)), path, Some(b), elements, error_to_raw) matches ReadActionView::Replace(
            w,
        ) && pal_struct_writable(w) && is_pal_struct_type_spec(pal_struct_type_of(w)) && ser_pal_struct(w) == b,
{
    lemma_pal_struct_roundtrip(v);
    lemma_pal_struct_ok_writable(v);
}

/// How a property that was just read is decided, outside the map object
/// data: without a hint, with a hint that is not a Palworld struct type,
/// without bytes or with empty bytes it is kept; otherwise its bytes become
/// the struct they hold under the hint. When they do not hold one, the
/// property is kept if unparsable data is to be kept raw, and the read fails
/// with the struct's error if not.
pub proof fn lemma_read_action_cases(
    hint: Option<StructTypeView>,
    path: Seq<char>,
    bytes: Option<Seq<u8>>,
    elements: Option<Seq<Option<Seq<PropertyView>>>>,
    error_to_raw: bool,
)
    requires
        path != map_object_save_data_path(),
    ensures
        ({
            let a = read_action(hint, path, bytes, elements, error_to_raw);
            &&& (hint is None || !is_pal_struct_type_spec(hint->0) || bytes is None || bytes->0.len() == 0)
                ==> a == ReadActionView::Keep
            &&& (hint is Some && is_pal_struct_type_spec(hint->0) && bytes is Some && bytes->0.len() > 0) ==> {
                match parse_pal_struct(hint->0, bytes->0) {
                    Some(v) => a == ReadActionView::Replace(v) && pal_struct_type_of(v) == hint->0,
                    None => a == (if error_to_raw {
                        ReadActionView::Keep
                    } else {
                        ReadActionView::Fail(pal_struct_error(hint->0, bytes->0))
                    }),
                }
            }
            &&& !(a is MapObjects)
        }),
{
    if let Some(t) = hint {
        if let Some(b) = bytes {
            if is_pal_struct_type_spec(t) && b.len() > 0 {
                if let Some(v) = parse_pal_struct(t, b) {
                    lemma_parse_pal_struct_type(t, b);
                }
            }
        }
    }
}

/// A struct read under a type is of that type.
pub proof fn lemma_parse_pal_struct_type(t: StructTypeView, b: Seq<u8>)
    ensures
        parse_pal_struct(t, b) matches Some(v) ==> pal_struct_type_of(v) == t,
{
}

/// At the map object data's path, with a hint, an array of structs is read
/// element by element and nothing else is done; a value of another kind is
/// kept. Unparsable data is never kept raw there.
pub proof fn lemma_read_action_map_objects(
    hint: Option<StructTypeView>,
    bytes: Option<Seq<u8>>,
    elements: Option<Seq<Option<Seq<PropertyView>>>>,
    error_to_raw: bool,
)
    requires
        hint is Some,
    ensures
        ({
            let a = read_action(hint, map_object_save_data_path(), bytes, elements, error_to_raw);
            match elements {
                None => a == ReadActionView::Keep,
                Some(es) => match map_objects_of(es) {
                    Ok(ms) => a == ReadActionView::MapObjects(ms),
                    Err(e) => a == ReadActionView::Fail(e),
                },
            }
        }),
{
}

/// How a property is written: a property whose tag is not a Palworld struct
/// type is written as it is; under such a tag, unparsed bytes are written
/// back as they are, a struct as the bytes that encode it, any other value
/// as it is.
pub proof fn lemma_write_bytes_cases(struct_type: Option<StructTypeView>, v: WriteValue)
    ensures
        (struct_type is None || !is_pal_struct_type_spec(struct_type->0)) ==> write_bytes(struct_type, v) is None,
        (struct_type is Some && is_pal_struct_type_spec(struct_type->0)) ==> write_bytes(struct_type, v) == match v {
            WriteValue::Bytes(b) => Some(b@),
            WriteValue::Struct(s) => Some(ser_pal_struct(s@)),
            WriteValue::Other => None::<Seq<u8>>,
        },
{
}

} // verus!
