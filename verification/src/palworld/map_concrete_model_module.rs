//! Modules of concrete map models. How a module's payload is laid out depends
//! on its module type, which is stored beside the payload.
use vstd::prelude::*;
use crate::bytes::{Reader, parse_u8, parse_u32, parse_i32, parse_bool32, parse_bytes, le_u32, le_i32, le_bool32,
    write_u8, write_u32, write_i32, write_bool32, write_all};
use crate::error::Error;
use crate::fstring::{parse_fstring, fstring_error, ser_fstring, fstring_ok, fstring_writable, fstring_canonical, read_string, write_string, str_eq};
use crate::guid::{Guid, parse_guid, ser_guid};
use crate::repeat::{
    parse_repeat, ser_repeat, parse_in_bounds, repeat_all, lemma_repeat_fail, lemma_repeat_bounds, lemma_repeat_roundtrip,
    lemma_repeat_resave, lemma_repeat_all_holds, lemma_assoc,
};
use crate::bytes::{lemma_take_split, lemma_u32_reencode, lemma_i32_reencode, lemma_bool32_reencode, lemma_u32_at, lemma_i32_at};
use crate::guid::{guid_from, lemma_guid_reencode, lemma_guid_at};

verus! {

broadcast use
    crate::bytes::group_codec,
    crate::guid::lemma_guid_roundtrip,
    crate::fstring::lemma_fstring_roundtrip,
    crate::fstring::lemma_fstring_bounds,
    crate::repeat::lemma_skip_skip,
;

/// Slot indexes that share an attribute.
#[derive(Debug, PartialEq, Eq)]
pub struct PalModuleSlotIndexes {
    pub attribute: u8,
    pub indexes: Vec<i32>,
}

/// Model of [`PalModuleSlotIndexes`].
pub ghost struct PalModuleSlotIndexesView {
    pub attribute: u8,
    pub indexes: Seq<i32>,
}

impl View for PalModuleSlotIndexes {
    type V = PalModuleSlotIndexesView;

    open spec fn view(&self) -> PalModuleSlotIndexesView {
        PalModuleSlotIndexesView { attribute: self.attribute, indexes: self.indexes@ }
    }
}

/// A player's attempts at a password lock.
#[derive(Clone, Copy, Debug, PartialEq, Eq)]
pub struct PalPlayerLockInfo {
    pub player_uid: Guid,
    pub try_failed_count: i32,
    pub try_success_cache: bool,
}

/// [`parse_i32`] as a value.
pub open spec fn i32_parser() -> spec_fn(Seq<u8>) -> Option<(i32, int)> {
    |t: Seq<u8>| parse_i32(t)
}

/// [`le_i32`] as a value.
pub open spec fn i32_writer() -> spec_fn(i32) -> Seq<u8> {
    |v: i32| le_i32(v)
}

/// Parse of slot indexes: an attribute byte and counted `i32` indexes.
pub open spec fn parse_module_slot_indexes(s: Seq<u8>) -> Option<(PalModuleSlotIndexesView, int)> {
    match parse_u8(s) {
        None => None,
        Some((a, _)) => match parse_u32(s.skip(1)) {
            None => None,
            Some((count, _)) => match parse_repeat(i32_parser(), s.skip(1).skip(4), count as nat) {
                None => None,
                Some((ix, n)) => Some((PalModuleSlotIndexesView { attribute: a, indexes: ix }, 5 + n)),
            },
        },
    }
}

/// Encoding of slot indexes.
pub open spec fn ser_module_slot_indexes(v: PalModuleSlotIndexesView) -> Seq<u8> {
    seq![v.attribute] + le_u32(v.indexes.len() as u32) + ser_repeat(i32_writer(), v.indexes)
}

/// Slot indexes whose count fits the count field.
pub open spec fn module_slot_indexes_ok(v: PalModuleSlotIndexesView) -> bool {
    v.indexes.len() <= u32::MAX
}

/// Parse of lock attempts: a GUID, an `i32` and a 32-bit boolean (24 bytes).
pub open spec fn parse_player_lock_info(s: Seq<u8>) -> Option<(PalPlayerLockInfo, int)> {
    match parse_guid(s) {
        None => None,
        Some((g, _)) => match parse_i32(s.skip(16)) {
            None => None,
            Some((c, _)) => match parse_bool32(s.skip(16).skip(4)) {
                None => None,
                Some((b, _)) => Some((PalPlayerLockInfo { player_uid: g, try_failed_count: c, try_success_cache: b }, 24)),
            },
        },
    }
}

/// Encoding of lock attempts.
pub open spec fn ser_player_lock_info(v: PalPlayerLockInfo) -> Seq<u8> {
    ser_guid(v.player_uid) + le_i32(v.try_failed_count) + le_bool32(v.try_success_cache)
}

/// [`parse_i32`] never consumes more than it is given.
proof fn lemma_i32_parser_in_bounds()
    ensures
        parse_in_bounds(i32_parser()),
{
}

/// A parse of slot indexes consumes at least their five leading bytes and no
/// more than it is given.
pub broadcast proof fn lemma_slot_indexes_bounds(s: Seq<u8>)
    ensures
        #[trigger] parse_module_slot_indexes(s) matches Some((_, n)) ==> 5 <= n <= s.len(),
{
    if let Some((a, _)) = parse_u8(s) {
        if let Some((count, _)) = parse_u32(s.skip(1)) {
            lemma_i32_parser_in_bounds();
            lemma_repeat_bounds(i32_parser(), s.skip(1).skip(4), count as nat);
        }
    }
}

impl PalModuleSlotIndexes {
    /// Reads slot indexes.
    pub fn read(r: &mut Reader) -> (res: Result<Self, Error>)
        requires
            old(r).valid(),
        ensures
            final(r).valid(),
            final(r).data() == old(r).data(),
            match parse_module_slot_indexes(old(r).rest()) {
                Some((v, n)) => res matches Ok(x) && x@ == v && final(r).position() == old(r).position() + n
                    && final(r).rest() == old(r).rest().skip(n),
                None => res == Err::<Self, Error>(Error::UnexpectedEof),
            },
    {
        let attribute = r.read_u8()?;
        let count = r.read_u32()?;
        let ghost t = r.rest();
        let ghost p0 = r.position();
        let mut indexes: Vec<i32> = Vec::new();
        let mut i: u32 = 0;
        while i < count
            invariant
                r.valid(),
                r.data() == old(r).data(),
                i <= count,
                parse_u8(old(r).rest()) == Some((attribute, 1int)),
                parse_u32(old(r).rest().skip(1)) == Some((count, 4int)),
                t == old(r).rest().skip(1).skip(4),
                old(r).position() + 5 == p0,
                0 <= p0 <= r.position(),
                t == r.data().skip(p0),
                parse_repeat(i32_parser(), t, i as nat) == Some((indexes@, r.position() - p0)),
                r.rest() == t.skip(r.position() - p0),
            decreases count - i,
        {
            let x = match r.read_i32() {
                Ok(x) => x,
                Err(e) => {
                    proof {
                        lemma_repeat_fail(i32_parser(), t, (i + 1) as nat, count as nat);
                    }
                    return Err(e);
                },
            };
            indexes.push(x);
            i = i + 1;
        }
        Ok(PalModuleSlotIndexes { attribute, indexes })
    }

    /// Writes slot indexes.
    pub fn write(&self, out: &mut Vec<u8>)
        requires
            module_slot_indexes_ok(self@),
        ensures
            final(out)@ == old(out)@ + ser_module_slot_indexes(self@),
    {
        write_u8(out, self.attribute);
        write_u32(out, self.indexes.len() as u32);
        let ghost mid = out@;
        let mut i: usize = 0;
        while i < self.indexes.len()
            invariant
                i <= self.indexes@.len(),
                out@ == mid + ser_repeat(i32_writer(), self.indexes@.take(i as int)),
            decreases self.indexes@.len() - i,
        {
            write_i32(out, self.indexes[i]);
            proof {
                assert(self.indexes@.take(i + 1).drop_last() =~= self.indexes@.take(i as int));
            }
            i = i + 1;
        }
        assert(self.indexes@.take(i as int) =~= self.indexes@);
        assert(out@ =~= old(out)@ + ser_module_slot_indexes(self@));
    }
}

impl PalPlayerLockInfo {
    /// Reads lock attempts.
    pub fn read(r: &mut Reader) -> (res: Result<Self, Error>)
        requires
            old(r).valid(),
        ensures
            final(r).valid(),
            final(r).data() == old(r).data(),
            match parse_player_lock_info(old(r).rest()) {
                Some((v, n)) => res == Ok::<Self, Error>(v) && final(r).position() == old(r).position() + n
                    && final(r).rest() == old(r).rest().skip(n),
                None => res == Err::<Self, Error>(Error::UnexpectedEof),
            },
    {
        let player_uid = Guid::read(r)?;
        let try_failed_count = r.read_i32()?;
        let try_success_cache = r.read_bool32()?;
        Ok(PalPlayerLockInfo { player_uid, try_failed_count, try_success_cache })
    }

    /// Writes lock attempts.
    pub fn write(&self, out: &mut Vec<u8>)
        ensures
            final(out)@ == old(out)@ + ser_player_lock_info(*self),
    {
        self.player_uid.write(out);
        write_i32(out, self.try_failed_count);
        write_bool32(out, self.try_success_cache);
        assert(out@ =~= old(out)@ + ser_player_lock_info(*self));
    }
}

/// Written slot indexes read back.
pub proof fn lemma_module_slot_indexes_roundtrip(v: PalModuleSlotIndexesView, rest: Seq<u8>)
    requires
        module_slot_indexes_ok(v),
    ensures
        parse_module_slot_indexes(ser_module_slot_indexes(v) + rest) == Some((v, ser_module_slot_indexes(v).len() as int)),
{
    let p = i32_parser();
    let f = i32_writer();
    let ok = |x: i32| true;
    assert forall|x: i32, r: Seq<u8>| ok(x) implies #[trigger] p(f(x) + r) == Some((x, f(x).len() as int)) by {}
    lemma_repeat_roundtrip(p, f, ok, v.indexes, rest);
    let items = ser_repeat(f, v.indexes);
    lemma_assoc(seq![v.attribute] + le_u32(v.indexes.len() as u32), items, rest);
    lemma_assoc(seq![v.attribute], le_u32(v.indexes.len() as u32), items + rest);
}

/// Written lock attempts read back.
pub broadcast proof fn lemma_player_lock_info_roundtrip(v: PalPlayerLockInfo, rest: Seq<u8>)
    ensures
        #[trigger] parse_player_lock_info(ser_player_lock_info(v) + rest) == Some((v, 24int)),
        #[trigger] ser_player_lock_info(v).len() == 24,
{
    lemma_assoc(ser_guid(v.player_uid) + le_i32(v.try_failed_count), le_bool32(v.try_success_cache), rest);
    lemma_assoc(ser_guid(v.player_uid), le_i32(v.try_failed_count), le_bool32(v.try_success_cache) + rest);
}

/// The payload of a module, by module type.
#[derive(Debug, PartialEq, Eq)]
#[allow(inconsistent_fields)]
pub enum PalMapConcreteModelModuleData {
    ItemContainer {
        target_container_id: Guid,
        slot_attribute_indexes: Vec<PalModuleSlotIndexes>,
        all_slot_attribute: Vec<u8>,
        drop_item_at_disposed: bool,
        usage_type: u8,
        trailing_bytes: [u8; 4],
    },
    CharacterContainer { target_container_id: Guid, trailing_bytes: [u8; 4] },
    Workee { target_work_id: Guid, trailing_bytes: [u8; 4] },
    Energy,
    StatusObserver,
    ItemStack,
    Switch { switch_state: u8, trailing_bytes: [u8; 4] },
    PlayerRecord,
    BaseCampPassiveEffect,
    PasswordLock { lock_state: u8, password: String, player_infos: Vec<PalPlayerLockInfo>, trailing_bytes: [u8; 4] },
    RequireElementalAction { unlock_item: String, trailing_bytes: [u8; 12] },
    Unknown { module_type: String, raw_bytes: Vec<u8> },
}

/// Model of [`PalMapConcreteModelModuleData`].
pub ghost enum ModuleDataView {
    ItemContainer {
        target_container_id: Guid,
        slot_attribute_indexes: Seq<PalModuleSlotIndexesView>,
        all_slot_attribute: Seq<u8>,
        drop_item_at_disposed: bool,
        usage_type: u8,
        trailing_bytes: Seq<u8>,
    },
    CharacterContainer { target_container_id: Guid, trailing_bytes: Seq<u8> },
    Workee { target_work_id: Guid, trailing_bytes: Seq<u8> },
    Energy,
    StatusObserver,
    ItemStack,
    Switch { switch_state: u8, trailing_bytes: Seq<u8> },
    PlayerRecord,
    BaseCampPassiveEffect,
    PasswordLock { lock_state: u8, password: Seq<char>, player_infos: Seq<PalPlayerLockInfo>, trailing_bytes: Seq<u8> },
    RequireElementalAction { unlock_item: Seq<char>, trailing_bytes: Seq<u8> },
    Unknown { module_type: Seq<char>, raw_bytes: Seq<u8> },
}

/// The models of a sequence of slot index groups.
pub open spec fn slot_indexes_views(v: Seq<PalModuleSlotIndexes>) -> Seq<PalModuleSlotIndexesView> {
    v.map_values(|x: PalModuleSlotIndexes| x@)
}

impl View for PalMapConcreteModelModuleData {
    type V = ModuleDataView;

    open spec fn view(&self) -> ModuleDataView {
        match self {
            PalMapConcreteModelModuleData::ItemContainer {
                target_container_id,
                slot_attribute_indexes,
                all_slot_attribute,
                drop_item_at_disposed,
                usage_type,
                trailing_bytes,
            } => ModuleDataView::ItemContainer {
                target_container_id: *target_container_id,
                slot_attribute_indexes: slot_indexes_views(slot_attribute_indexes@),
                all_slot_attribute: all_slot_attribute@,
                drop_item_at_disposed: *drop_item_at_disposed,
                usage_type: *usage_type,
                trailing_bytes: trailing_bytes@,
            },
            PalMapConcreteModelModuleData::CharacterContainer { target_container_id, trailing_bytes } =>
                ModuleDataView::CharacterContainer { target_container_id: *target_container_id, trailing_bytes: trailing_bytes@ },
            PalMapConcreteModelModuleData::Workee { target_work_id, trailing_bytes } =>
                ModuleDataView::Workee { target_work_id: *target_work_id, trailing_bytes: trailing_bytes@ },
            PalMapConcreteModelModuleData::Energy => ModuleDataView::Energy,
            PalMapConcreteModelModuleData::StatusObserver => ModuleDataView::StatusObserver,
            PalMapConcreteModelModuleData::ItemStack => ModuleDataView::ItemStack,
            PalMapConcreteModelModuleData::Switch { switch_state, trailing_bytes } =>
                ModuleDataView::Switch { switch_state: *switch_state, trailing_bytes: trailing_bytes@ },
            PalMapConcreteModelModuleData::PlayerRecord => ModuleDataView::PlayerRecord,
            PalMapConcreteModelModuleData::BaseCampPassiveEffect => ModuleDataView::BaseCampPassiveEffect,
            PalMapConcreteModelModuleData::PasswordLock { lock_state, password, player_infos, trailing_bytes } =>
                ModuleDataView::PasswordLock {
                    lock_state: *lock_state,
                    password: password@,
                    player_infos: player_infos@,
                    trailing_bytes: trailing_bytes@,
                },
            PalMapConcreteModelModuleData::RequireElementalAction { unlock_item, trailing_bytes } =>
                ModuleDataView::RequireElementalAction { unlock_item: unlock_item@, trailing_bytes: trailing_bytes@ },
            PalMapConcreteModelModuleData::Unknown { module_type, raw_bytes } =>
                ModuleDataView::Unknown { module_type: module_type@, raw_bytes: raw_bytes@ },
        }
    }
}

/// A module: its type, its payload, and its custom version data.
#[derive(Debug, PartialEq, Eq)]
pub struct PalMapConcreteModelModule {
    pub module_type: String,
    pub data: PalMapConcreteModelModuleData,
    pub custom_version_data: Vec<u8>,
}

/// The module types whose payload layout is known.
#[derive(Clone, Copy, Debug, PartialEq, Eq)]
pub enum ModuleKind {
    ItemContainer,
    CharacterContainer,
    Workee,
    Energy,
    StatusObserver,
    ItemStack,
    Switch,
    PlayerRecord,
    BaseCampPassiveEffect,
    PasswordLock,
    RequireElementalAction,
    Other,
}

/// The kind that a module type name denotes.
#[verifier::opaque]
pub open spec fn module_kind(t: Seq<char>) -> ModuleKind {
    if t == "EPalMapObjectConcreteModelModuleType::ItemContainer"@ {
        ModuleKind::ItemContainer
    } else if t == "EPalMapObjectConcreteModelModuleType::CharacterContainer"@ {
        ModuleKind::CharacterContainer
    } else if t == "EPalMapObjectConcreteModelModuleType::Workee"@ {
        ModuleKind::Workee
    } else if t == "EPalMapObjectConcreteModelModuleType::Energy"@ {
        ModuleKind::Energy
    } else if t == "EPalMapObjectConcreteModelModuleType::StatusObserver"@ {
        ModuleKind::StatusObserver
    } else if t == "EPalMapObjectConcreteModelModuleType::ItemStack"@ {
        ModuleKind::ItemStack
    } else if t == "EPalMapObjectConcreteModelModuleType::Switch"@ {
        ModuleKind::Switch
    } else if t == "EPalMapObjectConcreteModelModuleType::PlayerRecord"@ {
        ModuleKind::PlayerRecord
    } else if t == "EPalMapObjectConcreteModelModuleType::BaseCampPassiveEffect"@ {
        ModuleKind::BaseCampPassiveEffect
    } else if t == "EPalMapObjectConcreteModelModuleType::PasswordLock"@ {
        ModuleKind::PasswordLock
    } else if t == "EPalMapObjectConcreteModelModuleType::RequireElementalAction"@ {
        ModuleKind::RequireElementalAction
    } else {
        ModuleKind::Other
    }
}

/// Classifies a module type name.
pub fn module_kind_of(t: &str) -> (k: ModuleKind)
    ensures
        k == module_kind(t@),
{
    reveal(module_kind);
    if str_eq(t, "EPalMapObjectConcreteModelModuleType::ItemContainer") {
        ModuleKind::ItemContainer
    } else if str_eq(t, "EPalMapObjectConcreteModelModuleType::CharacterContainer") {
        ModuleKind::CharacterContainer
    } else if str_eq(t, "EPalMapObjectConcreteModelModuleType::Workee") {
        ModuleKind::Workee
    } else if str_eq(t, "EPalMapObjectConcreteModelModuleType::Energy") {
        ModuleKind::Energy
    } else if str_eq(t, "EPalMapObjectConcreteModelModuleType::StatusObserver") {
        ModuleKind::StatusObserver
    } else if str_eq(t, "EPalMapObjectConcreteModelModuleType::ItemStack") {
        ModuleKind::ItemStack
    } else if str_eq(t, "EPalMapObjectConcreteModelModuleType::Switch") {
        ModuleKind::Switch
    } else if str_eq(t, "EPalMapObjectConcreteModelModuleType::PlayerRecord") {
        ModuleKind::PlayerRecord
    } else if str_eq(t, "EPalMapObjectConcreteModelModuleType::BaseCampPassiveEffect") {
        ModuleKind::BaseCampPassiveEffect
    } else if str_eq(t, "EPalMapObjectConcreteModelModuleType::PasswordLock") {
        ModuleKind::PasswordLock
    } else if str_eq(t, "EPalMapObjectConcreteModelModuleType::RequireElementalAction") {
        ModuleKind::RequireElementalAction
    } else {
        ModuleKind::Other
    }
}

/// [`parse_module_slot_indexes`] as a value.
pub open spec fn slot_indexes_parser() -> spec_fn(Seq<u8>) -> Option<(PalModuleSlotIndexesView, int)> {
    |t: Seq<u8>| parse_module_slot_indexes(t)
}

/// [`ser_module_slot_indexes`] as a value.
pub open spec fn slot_indexes_writer() -> spec_fn(PalModuleSlotIndexesView) -> Seq<u8> {
    |v: PalModuleSlotIndexesView| ser_module_slot_indexes(v)
}

/// [`parse_player_lock_info`] as a value.
pub open spec fn player_lock_info_parser() -> spec_fn(Seq<u8>) -> Option<(PalPlayerLockInfo, int)> {
    |t: Seq<u8>| parse_player_lock_info(t)
}

/// [`ser_player_lock_info`] as a value.
pub open spec fn player_lock_info_writer() -> spec_fn(PalPlayerLockInfo) -> Seq<u8> {
    |v: PalPlayerLockInfo| ser_player_lock_info(v)
}

/// Parse of the fields of an item container module after the slot index groups.
pub open spec fn parse_item_container_tail(
    s: Seq<u8>,
    g: Guid,
    slots: Seq<PalModuleSlotIndexesView>,
) -> Option<ModuleDataView> {
    match parse_u32(s) {
        None => None,
        Some((nall, _)) => match parse_bytes(s.skip(4), nall as int) {
            None => None,
            Some((all, _)) => {
                let t = s.skip(4).skip(nall as int);
                match parse_bool32(t) {
                    None => None,
                    Some((drop, _)) => match parse_u8(t.skip(4)) {
                        None => None,
                        Some((usage, _)) => match parse_bytes(t.skip(4).skip(1), 4) {
                            None => None,
                            Some((tb, _)) => Some(ModuleDataView::ItemContainer {
                                target_container_id: g,
                                slot_attribute_indexes: slots,
                                all_slot_attribute: all,
                                drop_item_at_disposed: drop,
                                usage_type: usage,
                                trailing_bytes: tb,
                            }),
                        },
                    },
                }
            },
        },
    }
}

/// Parse of an item container module payload; bytes after it are not read.
pub open spec fn parse_item_container_module(s: Seq<u8>) -> Option<ModuleDataView> {
    match parse_guid(s) {
        None => None,
        Some((g, _)) => match parse_u32(s.skip(16)) {
            None => None,
            Some((n, _)) => match parse_repeat(slot_indexes_parser(), s.skip(16).skip(4), n as nat) {
                None => None,
                Some((slots, m)) => parse_item_container_tail(s.skip(16).skip(4).skip(m), g, slots),
            },
        },
    }
}

/// Parse of the fields of a password lock module after the password.
pub open spec fn parse_password_lock_tail(s: Seq<u8>, st: u8, pw: Seq<char>) -> Option<ModuleDataView> {
    match parse_u32(s) {
        None => None,
        Some((count, _)) => match parse_repeat(player_lock_info_parser(), s.skip(4), count as nat) {
            None => None,
            Some((infos, m)) => match parse_bytes(s.skip(4).skip(m), 4) {
                None => None,
                Some((tb, _)) => Some(ModuleDataView::PasswordLock {
                    lock_state: st,
                    password: pw,
                    player_infos: infos,
                    trailing_bytes: tb,
                }),
            },
        },
    }
}

/// Parse of a password lock module payload; bytes after it are not read.
pub open spec fn parse_password_lock_module(s: Seq<u8>) -> Option<ModuleDataView> {
    match parse_u8(s) {
        None => None,
        Some((st, _)) => match parse_fstring(s.skip(1)) {
            None => None,
            Some((pw, n)) => parse_password_lock_tail(s.skip(1).skip(n), st, pw),
        },
    }
}

/// Parse of a module payload of the given type. An empty payload stands for
/// a module without data when its type has none, else it is kept as unknown.
/// A nonempty payload is read by the layout of its type; only its leading
/// bytes are read, and payloads of other types are kept whole.
pub open spec fn parse_module_data(t: Seq<char>, s: Seq<u8>) -> Option<ModuleDataView> {
    if s.len() == 0 {
        Some(match module_kind(t) {
            ModuleKind::Energy => ModuleDataView::Energy,
            ModuleKind::StatusObserver => ModuleDataView::StatusObserver,
            ModuleKind::ItemStack => ModuleDataView::ItemStack,
            ModuleKind::PlayerRecord => ModuleDataView::PlayerRecord,
            ModuleKind::BaseCampPassiveEffect => ModuleDataView::BaseCampPassiveEffect,
            _ => ModuleDataView::Unknown { module_type: t, raw_bytes: s },
        })
    } else {
        match module_kind(t) {
            ModuleKind::ItemContainer => parse_item_container_module(s),
            ModuleKind::CharacterContainer => match parse_guid(s) {
                None => None,
                Some((g, _)) => match parse_bytes(s.skip(16), 4) {
                    None => None,
                    Some((tb, _)) => Some(ModuleDataView::CharacterContainer { target_container_id: g, trailing_bytes: tb }),
                },
            },
            ModuleKind::Workee => match parse_guid(s) {
                None => None,
                Some((g, _)) => match parse_bytes(s.skip(16), 4) {
                    None => None,
                    Some((tb, _)) => Some(ModuleDataView::Workee { target_work_id: g, trailing_bytes: tb }),
                },
            },
            ModuleKind::Switch => match parse_u8(s) {
                None => None,
                Some((st, _)) => match parse_bytes(s.skip(1), 4) {
                    None => None,
                    Some((tb, _)) => Some(ModuleDataView::Switch { switch_state: st, trailing_bytes: tb }),
                },
            },
            ModuleKind::PasswordLock => parse_password_lock_module(s),
            ModuleKind::RequireElementalAction => match parse_fstring(s) {
                None => None,
                Some((item, n)) => match parse_bytes(s.skip(n), 12) {
                    None => None,
                    Some((tb, _)) => Some(ModuleDataView::RequireElementalAction { unlock_item: item, trailing_bytes: tb }),
                },
            },
            ModuleKind::Energy => Some(ModuleDataView::Energy),
            ModuleKind::StatusObserver => Some(ModuleDataView::StatusObserver),
            ModuleKind::ItemStack => Some(ModuleDataView::ItemStack),
            ModuleKind::PlayerRecord => Some(ModuleDataView::PlayerRecord),
            ModuleKind::BaseCampPassiveEffect => Some(ModuleDataView::BaseCampPassiveEffect),
            ModuleKind::Other => Some(ModuleDataView::Unknown { module_type: t, raw_bytes: s }),
        }
    }
}

/// Why a module payload of the given type fails to parse: the error of the
/// string that a password lock or an elemental action holds, or else too
/// few bytes.
pub open spec fn module_data_error(t: Seq<char>, s: Seq<u8>) -> Error {
    match module_kind(t) {
        ModuleKind::PasswordLock => password_lock_error(s),
        ModuleKind::RequireElementalAction => match parse_fstring(s) {
            None => fstring_error(s),
            Some(_) => Error::UnexpectedEof,
        },
        _ => Error::UnexpectedEof,
    }
}

/// Why a password lock payload fails to parse: its password's error, or else
/// too few bytes.
pub open spec fn password_lock_error(s: Seq<u8>) -> Error {
    if s.len() < 1 {
        Error::UnexpectedEof
    } else {
        match parse_fstring(s.skip(1)) {
            None => fstring_error(s.skip(1)),
            Some(_) => Error::UnexpectedEof,
        }
    }
}

/// Encoding of a module payload.
pub open spec fn ser_module_data(d: ModuleDataView) -> Seq<u8> {
    match d {
        ModuleDataView::ItemContainer {
            target_container_id,
            slot_attribute_indexes,
            all_slot_attribute,
            drop_item_at_disposed,
            usage_type,
            trailing_bytes,
        } => ser_guid(target_container_id) + le_u32(slot_attribute_indexes.len() as u32)
            + ser_repeat(slot_indexes_writer(), slot_attribute_indexes) + le_u32(all_slot_attribute.len() as u32)
            + all_slot_attribute + le_bool32(drop_item_at_disposed) + seq![usage_type] + trailing_bytes,
        ModuleDataView::CharacterContainer { target_container_id, trailing_bytes } => ser_guid(target_container_id)
            + trailing_bytes,
        ModuleDataView::Workee { target_work_id, trailing_bytes } => ser_guid(target_work_id) + trailing_bytes,
        ModuleDataView::Switch { switch_state, trailing_bytes } => seq![switch_state] + trailing_bytes,
        ModuleDataView::PasswordLock { lock_state, password, player_infos, trailing_bytes } => seq![lock_state]
            + ser_fstring(password) + le_u32(player_infos.len() as u32) + ser_repeat(player_lock_info_writer(), player_infos)
            + trailing_bytes,
        ModuleDataView::RequireElementalAction { unlock_item, trailing_bytes } => ser_fstring(unlock_item) + trailing_bytes,
        ModuleDataView::Unknown { raw_bytes, .. } => raw_bytes,
        _ => Seq::empty(),
    }
}

/// Payloads that the encoding carries unchanged.
pub open spec fn module_data_ok(d: ModuleDataView) -> bool {
    match d {
        ModuleDataView::ItemContainer { slot_attribute_indexes, all_slot_attribute, trailing_bytes, .. } => {
            &&& slot_attribute_indexes.len() <= u32::MAX
            &&& forall|i: int| 0 <= i < slot_attribute_indexes.len()
                ==> module_slot_indexes_ok(#[trigger] slot_attribute_indexes[i])
            &&& all_slot_attribute.len() <= u32::MAX
            &&& trailing_bytes.len() == 4
        },
        ModuleDataView::CharacterContainer { trailing_bytes, .. } => trailing_bytes.len() == 4,
        ModuleDataView::Workee { trailing_bytes, .. } => trailing_bytes.len() == 4,
        ModuleDataView::Switch { trailing_bytes, .. } => trailing_bytes.len() == 4,
        ModuleDataView::PasswordLock { password, player_infos, trailing_bytes, .. } => {
            &&& fstring_ok(password)
            &&& player_infos.len() <= u32::MAX
            &&& trailing_bytes.len() == 4
        },
        ModuleDataView::RequireElementalAction { unlock_item, trailing_bytes } => fstring_ok(unlock_item)
            && trailing_bytes.len() == 12,
        _ => true,
    }
}

/// Payloads that can be written: every count and string fits its field.
pub open spec fn module_data_writable(d: ModuleDataView) -> bool {
    match d {
        ModuleDataView::ItemContainer { slot_attribute_indexes, all_slot_attribute, .. } => {
            &&& slot_attribute_indexes.len() <= u32::MAX
            &&& forall|i: int| 0 <= i < slot_attribute_indexes.len()
                ==> module_slot_indexes_ok(#[trigger] slot_attribute_indexes[i])
            &&& all_slot_attribute.len() <= u32::MAX
        },
        ModuleDataView::PasswordLock { password, player_infos, .. } => {
            &&& fstring_writable(password)
            &&& player_infos.len() <= u32::MAX
        },
        ModuleDataView::RequireElementalAction { unlock_item, .. } => fstring_writable(unlock_item),
        _ => true,
    }
}

/// The payload is of the layout that the module type names; an unknown payload
/// carries the module type and is read back as unknown.
pub open spec fn module_consistent(t: Seq<char>, d: ModuleDataView) -> bool {
    match d {
        ModuleDataView::ItemContainer { .. } => module_kind(t) == ModuleKind::ItemContainer,
        ModuleDataView::CharacterContainer { .. } => module_kind(t) == ModuleKind::CharacterContainer,
        ModuleDataView::Workee { .. } => module_kind(t) == ModuleKind::Workee,
        ModuleDataView::Energy => module_kind(t) == ModuleKind::Energy,
        ModuleDataView::StatusObserver => module_kind(t) == ModuleKind::StatusObserver,
        ModuleDataView::ItemStack => module_kind(t) == ModuleKind::ItemStack,
        ModuleDataView::Switch { .. } => module_kind(t) == ModuleKind::Switch,
        ModuleDataView::PlayerRecord => module_kind(t) == ModuleKind::PlayerRecord,
        ModuleDataView::BaseCampPassiveEffect => module_kind(t) == ModuleKind::BaseCampPassiveEffect,
        ModuleDataView::PasswordLock { .. } => module_kind(t) == ModuleKind::PasswordLock,
        ModuleDataView::RequireElementalAction { .. } => module_kind(t) == ModuleKind::RequireElementalAction,
        ModuleDataView::Unknown { module_type, raw_bytes } => {
            &&& module_type == t
            &&& (module_kind(t) == ModuleKind::Other || (raw_bytes.len() == 0 && !module_kind_without_data(module_kind(t))))
        },
    }
}

/// Module kinds that carry no payload.
pub open spec fn module_kind_without_data(k: ModuleKind) -> bool {
    k == ModuleKind::Energy || k == ModuleKind::StatusObserver || k == ModuleKind::ItemStack
        || k == ModuleKind::PlayerRecord || k == ModuleKind::BaseCampPassiveEffect
}

fn read_item_container_tail(r: &mut Reader, g: Guid, slots: Vec<PalModuleSlotIndexes>) -> (res: Result<
    PalMapConcreteModelModuleData,
    Error,
>)
    requires
        old(r).valid(),
    ensures
        final(r).valid(),
        final(r).data() == old(r).data(),
        match parse_item_container_tail(old(r).rest(), g, slot_indexes_views(slots@)) {
            Some(d) => res matches Ok(x) && x@ == d,
            None => res == Err::<PalMapConcreteModelModuleData, Error>(Error::UnexpectedEof),
        },
{
    let nall = r.read_u32()?;
    let all_slot_attribute = r.read_bytes(nall as usize)?;
    let drop_item_at_disposed = r.read_bool32()?;
    let usage_type = r.read_u8()?;
    let trailing_bytes = r.read_array::<4>()?;
    Ok(PalMapConcreteModelModuleData::ItemContainer {
        target_container_id: g,
        slot_attribute_indexes: slots,
        all_slot_attribute,
        drop_item_at_disposed,
        usage_type,
        trailing_bytes,
    })
}

#[verifier::spinoff_prover]
#[verifier::rlimit(30)]
fn read_item_container_module(r: &mut Reader) -> (res: Result<PalMapConcreteModelModuleData, Error>)
    requires
        old(r).valid(),
    ensures
        final(r).valid(),
        final(r).data() == old(r).data(),
        match parse_item_container_module(old(r).rest()) {
            Some(d) => res matches Ok(x) && x@ == d,
            None => res == Err::<PalMapConcreteModelModuleData, Error>(Error::UnexpectedEof),
        },
{
    let g = Guid::read(r)?;
    let n = r.read_u32()?;
    let ghost t = r.rest();
    let ghost p0 = r.position();
    let mut slots: Vec<PalModuleSlotIndexes> = Vec::new();

    let mut i: u32 = 0;
    while i < n
        invariant
            r.valid(),
            r.data() == old(r).data(),
            i <= n,
            parse_guid(old(r).rest()) == Some((g, 16int)),
            parse_u32(old(r).rest().skip(16)) == Some((n, 4int)),
            t == old(r).rest().skip(16).skip(4),
            0 <= p0 <= r.position(),
            t == r.data().skip(p0),
            parse_repeat(slot_indexes_parser(), t, i as nat) == Some((slot_indexes_views(slots@), r.position() - p0)),
            r.rest() == t.skip(r.position() - p0),
        decreases n - i,
    {
        proof {
            lemma_slot_indexes_bounds(r.rest());
        }
        let x = match PalModuleSlotIndexes::read(r) {
            Ok(x) => x,
            Err(e) => {
                proof {
                    lemma_repeat_fail(slot_indexes_parser(), t, (i + 1) as nat, n as nat);
                }
                return Err(e);
            },
        };
        let ghost before = slots@;
        slots.push(x);
        assert(slot_indexes_views(slots@) =~= slot_indexes_views(before).push(x@));
        i = i + 1;
    }
    read_item_container_tail(r, g, slots)
}

fn read_password_lock_tail(r: &mut Reader, lock_state: u8, password: String) -> (res: Result<
    PalMapConcreteModelModuleData,
    Error,
>)
    requires
        old(r).valid(),
    ensures
        final(r).valid(),
        final(r).data() == old(r).data(),
        match parse_password_lock_tail(old(r).rest(), lock_state, password@) {
            Some(d) => res matches Ok(x) && x@ == d,
            None => res == Err::<PalMapConcreteModelModuleData, Error>(Error::UnexpectedEof),
        },
{
    let count = r.read_u32()?;
    let ghost t = r.rest();
    let ghost p0 = r.position();
    let mut infos: Vec<PalPlayerLockInfo> = Vec::new();
    let mut i: u32 = 0;
    while i < count
        invariant
            r.valid(),
            r.data() == old(r).data(),
            i <= count,
            parse_u32(old(r).rest()) == Some((count, 4int)),
            t == old(r).rest().skip(4),
            0 <= p0 <= r.position(),
            t == r.data().skip(p0),
            parse_repeat(player_lock_info_parser(), t, i as nat) == Some((infos@, r.position() - p0)),
            r.rest() == t.skip(r.position() - p0),
        decreases count - i,
    {
        let x = match PalPlayerLockInfo::read(r) {
            Ok(x) => x,
            Err(e) => {
                proof {
                    lemma_repeat_fail(player_lock_info_parser(), t, (i + 1) as nat, count as nat);
                }
                return Err(e);
            },
        };
        infos.push(x);
        i = i + 1;
    }
    let trailing_bytes = r.read_array::<4>()?;
    Ok(PalMapConcreteModelModuleData::PasswordLock { lock_state, password, player_infos: infos, trailing_bytes })
}

fn read_password_lock_module(r: &mut Reader) -> (res: Result<PalMapConcreteModelModuleData, Error>)
    requires
        old(r).valid(),
    ensures
        final(r).valid(),
        final(r).data() == old(r).data(),
        match parse_password_lock_module(old(r).rest()) {
            Some(d) => res matches Ok(x) && x@ == d,
            None => res == Err::<PalMapConcreteModelModuleData, Error>(password_lock_error(old(r).rest())),
        },
{
    let lock_state = r.read_u8()?;
    let password = read_string(r)?;
    read_password_lock_tail(r, lock_state, password)
}

fn read_nonempty_payload(r: &mut Reader, kind: ModuleKind, t: &str) -> (res: Result<PalMapConcreteModelModuleData, Error>)
    requires
        old(r).valid(),
        old(r).rest().len() > 0,
        kind == module_kind(t@),
    ensures
        match parse_module_data(t@, old(r).rest()) {
            Some(d) => res matches Ok(x) && x@ == d,
            None => res == Err::<PalMapConcreteModelModuleData, Error>(module_data_error(t@, old(r).rest())),
        },
{
    match kind {
        ModuleKind::ItemContainer => read_item_container_module(r),
        ModuleKind::CharacterContainer => {
            let g = Guid::read(r)?;
            let tb = r.read_array::<4>()?;
            Ok(PalMapConcreteModelModuleData::CharacterContainer { target_container_id: g, trailing_bytes: tb })
        },
        ModuleKind::Workee => {
            let g = Guid::read(r)?;
            let tb = r.read_array::<4>()?;
            Ok(PalMapConcreteModelModuleData::Workee { target_work_id: g, trailing_bytes: tb })
        },
        ModuleKind::Switch => {
            let st = r.read_u8()?;
            let tb = r.read_array::<4>()?;
            Ok(PalMapConcreteModelModuleData::Switch { switch_state: st, trailing_bytes: tb })
        },
        ModuleKind::PasswordLock => read_password_lock_module(r),
        ModuleKind::RequireElementalAction => {
            let item = read_string(r)?;
            let tb = r.read_array::<12>()?;
            Ok(PalMapConcreteModelModuleData::RequireElementalAction { unlock_item: item, trailing_bytes: tb })
        },
        ModuleKind::Energy => Ok(PalMapConcreteModelModuleData::Energy),
        ModuleKind::StatusObserver => Ok(PalMapConcreteModelModuleData::StatusObserver),
        ModuleKind::ItemStack => Ok(PalMapConcreteModelModuleData::ItemStack),
        ModuleKind::PlayerRecord => Ok(PalMapConcreteModelModuleData::PlayerRecord),
        ModuleKind::BaseCampPassiveEffect => Ok(PalMapConcreteModelModuleData::BaseCampPassiveEffect),
        ModuleKind::Other => {
            let raw = r.read_to_end();
            Ok(PalMapConcreteModelModuleData::Unknown { module_type: String::from_str(t), raw_bytes: raw })
        },
    }
}

impl PalMapConcreteModelModule {
    /// Reads a module from its payload `bytes`, laid out as its `module_type`
    /// says; the custom version data is kept as given.
    pub fn read_with_module_type(bytes: &[u8], module_type: &str, custom_version_data: Vec<u8>) -> (res: Result<
        Self,
        Error,
    >)
        ensures
            match parse_module_data(module_type@, bytes@) {
                Some(d) => res matches Ok(m) && m.module_type@ == module_type@ && m.data@ == d
                    && m.custom_version_data@ == custom_version_data@,
                None => res == Err::<Self, Error>(module_data_error(module_type@, bytes@)),
            },
    {
        let kind = module_kind_of(module_type);
        let data = if bytes.len() == 0 {
            assert(bytes@ =~= Seq::<u8>::empty());
            match kind {
                ModuleKind::Energy => PalMapConcreteModelModuleData::Energy,
                ModuleKind::StatusObserver => PalMapConcreteModelModuleData::StatusObserver,
                ModuleKind::ItemStack => PalMapConcreteModelModuleData::ItemStack,
                ModuleKind::PlayerRecord => PalMapConcreteModelModuleData::PlayerRecord,
                ModuleKind::BaseCampPassiveEffect => PalMapConcreteModelModuleData::BaseCampPassiveEffect,
                _ => PalMapConcreteModelModuleData::Unknown {
                    module_type: String::from_str(module_type),
                    raw_bytes: Vec::new(),
                },
            }
        } else {
            let mut r = Reader::new(bytes);
            assert(r.rest() =~= bytes@);
            read_nonempty_payload(&mut r, kind, module_type)?
        };
        Ok(PalMapConcreteModelModule {
            module_type: String::from_str(module_type),
            data,
            custom_version_data,
        })
    }

    /// Reading a module needs its module type, which the payload does not hold:
    /// this always fails; use [`Self::read_with_module_type`].
    pub fn read(r: &mut Reader) -> (res: Result<Self, Error>)
        ensures
            res == Err::<Self, Error>(Error::MissingModuleType),
            *final(r) == *old(r),
    {
        Err(Error::MissingModuleType)
    }

    /// Writes the payload of a module.
    pub fn write(&self, out: &mut Vec<u8>)
        requires
            module_data_writable(self.data@),
        ensures
            final(out)@ == old(out)@ + ser_module_data(self.data@),
    {
        match &self.data {
            PalMapConcreteModelModuleData::ItemContainer {
                target_container_id,
                slot_attribute_indexes,
                all_slot_attribute,
                drop_item_at_disposed,
                usage_type,
                trailing_bytes,
            } => {
                target_container_id.write(out);
                write_u32(out, slot_attribute_indexes.len() as u32);
                let ghost mid = out@;
                let ghost views = slot_indexes_views(slot_attribute_indexes@);
                let mut i: usize = 0;
                while i < slot_attribute_indexes.len()
                    invariant
                        i <= slot_attribute_indexes@.len(),
                        views == slot_indexes_views(slot_attribute_indexes@),
                        forall|j: int| 0 <= j < views.len() ==> module_slot_indexes_ok(#[trigger] views[j]),
                        out@ == mid + ser_repeat(slot_indexes_writer(), views.take(i as int)),
                    decreases slot_attribute_indexes@.len() - i,
                {
                    assert(module_slot_indexes_ok(views[i as int]));
                    slot_attribute_indexes[i].write(out);
                    proof {
                        assert(views.take(i + 1).drop_last() =~= views.take(i as int));
                    }
                    i = i + 1;
                }
                assert(views.take(i as int) =~= views);
                write_u32(out, all_slot_attribute.len() as u32);
                write_all(out, all_slot_attribute.as_slice());
                write_bool32(out, *drop_item_at_disposed);
                write_u8(out, *usage_type);
                write_all(out, trailing_bytes.as_slice());
            },
            PalMapConcreteModelModuleData::CharacterContainer { target_container_id, trailing_bytes } => {
                target_container_id.write(out);
                write_all(out, trailing_bytes.as_slice());
            },
            PalMapConcreteModelModuleData::Workee { target_work_id, trailing_bytes } => {
                target_work_id.write(out);
                write_all(out, trailing_bytes.as_slice());
            },
            PalMapConcreteModelModuleData::Switch { switch_state, trailing_bytes } => {
                write_u8(out, *switch_state);
                write_all(out, trailing_bytes.as_slice());
            },
            PalMapConcreteModelModuleData::PasswordLock { lock_state, password, player_infos, trailing_bytes } => {
                write_u8(out, *lock_state);
                write_string(out, password.as_str());
                write_u32(out, player_infos.len() as u32);
                let ghost mid = out@;
                let mut i: usize = 0;
                while i < player_infos.len()
                    invariant
                        i <= player_infos@.len(),
                        out@ == mid + ser_repeat(player_lock_info_writer(), player_infos@.take(i as int)),
                    decreases player_infos@.len() - i,
                {
                    player_infos[i].write(out);
                    proof {
                        assert(player_infos@.take(i + 1).drop_last() =~= player_infos@.take(i as int));
                    }
                    i = i + 1;
                }
                assert(player_infos@.take(i as int) =~= player_infos@);
                write_all(out, trailing_bytes.as_slice());
            },
            PalMapConcreteModelModuleData::RequireElementalAction { unlock_item, trailing_bytes } => {
                write_string(out, unlock_item.as_str());
                write_all(out, trailing_bytes.as_slice());
            },
            PalMapConcreteModelModuleData::Unknown { raw_bytes, .. } => {
                write_all(out, raw_bytes.as_slice());
            },
            _ => {},
        }
        assert(out@ =~= old(out)@ + ser_module_data(self.data@));
    }
}

proof fn lemma_item_container_module_roundtrip(d: ModuleDataView)
    requires
        d is ItemContainer,
        module_data_ok(d),
    ensures
        parse_item_container_module(ser_module_data(d)) == Some(d),
        ser_module_data(d).len() > 0,
{
    if let ModuleDataView::ItemContainer {
        target_container_id,
        slot_attribute_indexes,
        all_slot_attribute,
        drop_item_at_disposed,
        usage_type,
        trailing_bytes,
    } = d {
        let p = slot_indexes_parser();
        let f = slot_indexes_writer();
        let ok = |x: PalModuleSlotIndexesView| module_slot_indexes_ok(x);
        assert forall|x: PalModuleSlotIndexesView, r: Seq<u8>| ok(x) implies #[trigger] p(f(x) + r) == Some(
            (x, f(x).len() as int),
        ) by {
            lemma_module_slot_indexes_roundtrip(x, r);
        }
        assert forall|i: int| 0 <= i < slot_attribute_indexes.len() implies #[trigger] ok(slot_attribute_indexes[i]) by {
            assert(module_slot_indexes_ok(slot_attribute_indexes[i]));
        }
        let g = ser_guid(target_container_id);
        let c1 = le_u32(slot_attribute_indexes.len() as u32);
        let items = ser_repeat(f, slot_attribute_indexes);
        let t2 = item_container_tail_bytes(all_slot_attribute, drop_item_at_disposed, usage_type, trailing_bytes);
        lemma_repeat_roundtrip(p, f, ok, slot_attribute_indexes, t2);
        lemma_item_container_tail_roundtrip(
            target_container_id,
            slot_attribute_indexes,
            all_slot_attribute,
            drop_item_at_disposed,
            usage_type,
            trailing_bytes,
        );
        lemma_item_container_ser(
            target_container_id,
            slot_attribute_indexes,
            all_slot_attribute,
            drop_item_at_disposed,
            usage_type,
            trailing_bytes,
        );
        lemma_assoc(g + c1, items, t2);
        lemma_assoc(g, c1, items + t2);
        assert(ser_module_data(d) == g + (c1 + (items + t2)));
        assert((items + t2).skip(items.len() as int) == t2);
    }
}

/// The bytes of an item container payload after its slot index groups.
spec fn item_container_tail_bytes(all: Seq<u8>, drop: bool, usage: u8, tb: Seq<u8>) -> Seq<u8> {
    le_u32(all.len() as u32) + (all + (le_bool32(drop) + (seq![usage] + tb)))
}

proof fn lemma_item_container_ser(
    g: Guid,
    slots: Seq<PalModuleSlotIndexesView>,
    all: Seq<u8>,
    drop: bool,
    usage: u8,
    tb: Seq<u8>,
)
    ensures
        ser_module_data(
            ModuleDataView::ItemContainer {
                target_container_id: g,
                slot_attribute_indexes: slots,
                all_slot_attribute: all,
                drop_item_at_disposed: drop,
                usage_type: usage,
                trailing_bytes: tb,
            },
        ) == ser_guid(g) + le_u32(slots.len() as u32) + ser_repeat(slot_indexes_writer(), slots)
            + item_container_tail_bytes(all, drop, usage, tb),
{
    let h = ser_guid(g) + le_u32(slots.len() as u32) + ser_repeat(slot_indexes_writer(), slots);
    let c2 = le_u32(all.len() as u32);
    let b = le_bool32(drop);
    let u = seq![usage];
    lemma_assoc(h + c2 + all + b, u, tb);
    lemma_assoc(h + c2 + all, b, u + tb);
    lemma_assoc(h + c2, all, b + (u + tb));
    lemma_assoc(h, c2, all + (b + (u + tb)));
}

proof fn lemma_item_container_tail_roundtrip(
    g: Guid,
    slots: Seq<PalModuleSlotIndexesView>,
    all: Seq<u8>,
    drop: bool,
    usage: u8,
    tb: Seq<u8>,
)
    requires
        all.len() <= u32::MAX,
        tb.len() == 4,
    ensures
        parse_item_container_tail(item_container_tail_bytes(all, drop, usage, tb), g, slots) == Some(
            ModuleDataView::ItemContainer {
                target_container_id: g,
                slot_attribute_indexes: slots,
                all_slot_attribute: all,
                drop_item_at_disposed: drop,
                usage_type: usage,
                trailing_bytes: tb,
            },
        ),
{
    let t5 = seq![usage] + tb;
    let t4 = le_bool32(drop) + t5;
    let t3 = all + t4;
    let t2 = le_u32(all.len() as u32) + t3;
    assert(t2.skip(4) == t3);
    assert(t3.skip(all.len() as int) == t4);
    assert(t4.skip(4) == t5);
    assert(t5.skip(1) == tb);
    assert(tb + Seq::<u8>::empty() == tb);
    assert(parse_bytes(tb, 4) == Some((tb, 4int)));
}

proof fn lemma_password_lock_module_roundtrip(d: ModuleDataView)
    requires
        d is PasswordLock,
        module_data_ok(d),
    ensures
        parse_password_lock_module(ser_module_data(d)) == Some(d),
        ser_module_data(d).len() > 0,
{
    if let ModuleDataView::PasswordLock { lock_state, password, player_infos, trailing_bytes } = d {
        let p = player_lock_info_parser();
        let f = player_lock_info_writer();
        let ok = |x: PalPlayerLockInfo| true;
        assert forall|x: PalPlayerLockInfo, r: Seq<u8>| ok(x) implies #[trigger] p(f(x) + r) == Some((x, f(x).len() as int)) by {
            lemma_player_lock_info_roundtrip(x, r);
        }
        lemma_repeat_roundtrip(p, f, ok, player_infos, trailing_bytes);
        let a = seq![lock_state];
        let pw = ser_fstring(password);
        let c = le_u32(player_infos.len() as u32);
        let items = ser_repeat(f, player_infos);
        let t2 = items + trailing_bytes;
        lemma_assoc(a + pw + c, items, trailing_bytes);
        lemma_assoc(a + pw, c, t2);
        lemma_assoc(a, pw, c + t2);
        assert(ser_module_data(d) == a + (pw + (c + t2)));
        assert(t2.skip(items.len() as int) == trailing_bytes);
        assert(trailing_bytes + Seq::<u8>::empty() == trailing_bytes);
        assert(parse_bytes(trailing_bytes, 4) == Some((trailing_bytes, 4int)));
    }
}

proof fn lemma_fixed_module_roundtrip(t: Seq<char>, d: ModuleDataView)
    requires
        module_consistent(t, d),
        module_data_ok(d),
        d is CharacterContainer || d is Workee || d is Switch || d is RequireElementalAction,
    ensures
        parse_module_data(t, ser_module_data(d)) == Some(d),
{
    let e = Seq::<u8>::empty();
    match d {
        ModuleDataView::CharacterContainer { target_container_id, trailing_bytes } => {
            assert(ser_module_data(d) == ser_guid(target_container_id) + (trailing_bytes + e));
        },
        ModuleDataView::Workee { target_work_id, trailing_bytes } => {
            assert(ser_module_data(d) == ser_guid(target_work_id) + (trailing_bytes + e));
        },
        ModuleDataView::Switch { switch_state, trailing_bytes } => {
            assert(ser_module_data(d) == seq![switch_state] + (trailing_bytes + e));
        },
        ModuleDataView::RequireElementalAction { unlock_item, trailing_bytes } => {
            assert(ser_module_data(d) == ser_fstring(unlock_item) + (trailing_bytes + e));
        },
        _ => {},
    }
}

/// A written module payload reads back under its module type: reading the
/// bytes that [`PalMapConcreteModelModule::write`] produces, with the module's
/// type, gives back the same payload.
#[verifier::spinoff_prover]
#[verifier::rlimit(40)]
pub proof fn lemma_module_roundtrip(t: Seq<char>, d: ModuleDataView)
    requires
        module_consistent(t, d),
        module_data_ok(d),
    ensures
        parse_module_data(t, ser_module_data(d)) == Some(d),
{
    match d {
        ModuleDataView::ItemContainer { .. } => lemma_item_container_module_roundtrip(d),
        ModuleDataView::PasswordLock { .. } => lemma_password_lock_module_roundtrip(d),
        ModuleDataView::CharacterContainer { .. } => lemma_fixed_module_roundtrip(t, d),
        ModuleDataView::Workee { .. } => lemma_fixed_module_roundtrip(t, d),
        ModuleDataView::Switch { .. } => lemma_fixed_module_roundtrip(t, d),
        ModuleDataView::RequireElementalAction { .. } => lemma_fixed_module_roundtrip(t, d),
        ModuleDataView::Unknown { module_type, raw_bytes } => {
            if raw_bytes.len() == 0 {
                assert(raw_bytes =~= Seq::<u8>::empty());
            }
        },
        _ => {},
    }
}

/// A module payload that reads back as written resaves unchanged: reading
/// its bytes under its module type gives a payload that can be written, and
/// writing that payload gives the same bytes.
pub proof fn lemma_module_resave(t: Seq<char>, d: ModuleDataView, b: Seq<u8>)
    requires
        module_consistent(t, d),
        module_data_ok(d),
        b == ser_module_data(d),
    ensures
        parse_module_data(t, b) matches Some(e) && module_data_writable(e) && ser_module_data(e) == b,
{
    lemma_module_roundtrip(t, d);
}

/// A condition that always holds.
pub open spec fn anywhere() -> spec_fn(Seq<u8>) -> bool {
    |t: Seq<u8>| true
}

/// The lock attempts at the start of `s` hold a success flag of `0` or `1`.
pub open spec fn lock_info_canonical(s: Seq<u8>) -> bool {
    s.len() >= 24 && (parse_u32(s.skip(20))->0).0 <= 1
}

/// [`lock_info_canonical`] as a value.
pub open spec fn lock_info_canonicals() -> spec_fn(Seq<u8>) -> bool {
    |t: Seq<u8>| lock_info_canonical(t)
}

/// Slot indexes are written back as the bytes they were read from.
pub proof fn lemma_slot_indexes_resave(s: Seq<u8>)
    requires
        parse_module_slot_indexes(s) is Some,
    ensures
        ser_module_slot_indexes((parse_module_slot_indexes(s)->0).0) == s.take((parse_module_slot_indexes(s)->0).1),
{
    let p = i32_parser();
    let f = i32_writer();
    let c = anywhere();
    assert forall|t: Seq<u8>| #[trigger] p(t) is Some && c(t) implies f((p(t)->0).0) == t.take((p(t)->0).1) by {
        lemma_i32_reencode(t);
    }
    let count = (parse_u32(s.skip(1))->0).0;
    let r = s.skip(1).skip(4);
    lemma_repeat_all_holds(p, c, r, count as nat);
    lemma_repeat_resave(p, f, c, r, count as nat);
    lemma_repeat_bounds(p, r, count as nat);
    lemma_u32_reencode(s.skip(1));
    let (v, n) = parse_module_slot_indexes(s)->0;
    let m = n - 5;
    assert(seq![v.attribute] == s.take(1));
    lemma_take_split(s.skip(1), 4, m);
    lemma_take_split(s, 1, 4 + m);
    lemma_assoc(seq![v.attribute], le_u32(v.indexes.len() as u32), ser_repeat(f, v.indexes));
}

/// Lock attempts with a success flag of `0` or `1` are written back as the
/// bytes they were read from.
pub proof fn lemma_player_lock_info_resave(s: Seq<u8>)
    requires
        lock_info_canonical(s),
    ensures
        parse_player_lock_info(s) is Some,
        ser_player_lock_info((parse_player_lock_info(s)->0).0) == s.take(24),
{
    lemma_guid_reencode(s);
    lemma_i32_reencode(s.skip(16));
    lemma_bool32_reencode(s.skip(16).skip(4));
    lemma_take_split(s.skip(16), 4, 4);
    lemma_take_split(s, 16, 8);
}

/// The module payload of the given type at the start of `s` is in the form
/// that writing gives it: the item container's drop flag and every lock
/// attempt's success flag are `0` or `1`, and the password and the unlock
/// item re-encode unchanged.
pub open spec fn module_data_canonical(t: Seq<char>, s: Seq<u8>) -> bool {
    match module_kind(t) {
        ModuleKind::ItemContainer => match parse_u32(s.skip(16)) {
            Some((n, _)) => match parse_repeat(slot_indexes_parser(), s.skip(16).skip(4), n as nat) {
                Some((_, m)) => {
                    let u = s.skip(16).skip(4).skip(m);
                    match parse_u32(u) {
                        Some((nall, _)) => match parse_u32(u.skip(4).skip(nall as int)) {
                            Some((b, _)) => b <= 1,
                            None => true,
                        },
                        None => true,
                    }
                },
                None => true,
            },
            None => true,
        },
        ModuleKind::PasswordLock => {
            &&& fstring_canonical(s.skip(1))
            &&& match parse_fstring(s.skip(1)) {
                Some((_, n)) => match parse_u32(s.skip(1).skip(n)) {
                    Some((c, _)) => repeat_all(player_lock_info_parser(), lock_info_canonicals(), s.skip(1).skip(n).skip(4), c as nat),
                    None => true,
                },
                None => true,
            }
        },
        ModuleKind::RequireElementalAction => fstring_canonical(s),
        _ => true,
    }
}

proof fn lemma_item_container_tail_resave(u: Seq<u8>, g: Guid, slots: Seq<PalModuleSlotIndexesView>)
    requires
        parse_item_container_tail(u, g, slots) is Some,
        match parse_u32(u.skip(4).skip((parse_u32(u)->0).0 as int)) {
            Some((b, _)) => b <= 1,
            None => true,
        },
    ensures
        ({
            let d = parse_item_container_tail(u, g, slots)->0;
            let nall = (parse_u32(u)->0).0 as int;
            &&& d is ItemContainer
            &&& le_u32(d->all_slot_attribute.len() as u32) + d->all_slot_attribute + le_bool32(d->drop_item_at_disposed)
                + seq![d->usage_type] + d->ItemContainer_trailing_bytes == u.take(4 + nall + 9)
        }),
{
    let nall = (parse_u32(u)->0).0 as int;
    let w = u.skip(4).skip(nall);
    let d = parse_item_container_tail(u, g, slots)->0;
    lemma_u32_reencode(u);
    lemma_bool32_reencode(w);
    let a = le_u32(d->all_slot_attribute.len() as u32);
    let b = d->all_slot_attribute;
    let c = le_bool32(d->drop_item_at_disposed);
    let e = seq![d->usage_type];
    let f = d->ItemContainer_trailing_bytes;
    assert(a == u.take(4));
    assert(b == u.skip(4).take(nall));
    assert(c == w.take(4));
    assert(e + f =~= w.skip(4).take(5));
    assert(a + b + c + e + f =~= u.take(4 + nall + 9));
}

#[verifier::spinoff_prover]
#[verifier::rlimit(60)]
proof fn lemma_item_container_module_resave(t: Seq<char>, s: Seq<u8>)
    requires
        parse_item_container_module(s) is Some,
        module_kind(t) == ModuleKind::ItemContainer,
        module_data_canonical(t, s),
    ensures
        ser_module_data(parse_item_container_module(s)->0).len() <= s.len(),
        ser_module_data(parse_item_container_module(s)->0) == s.take(
            ser_module_data(parse_item_container_module(s)->0).len() as int,
        ),
{
    let n = (parse_u32(s.skip(16))->0).0;
    let r = s.skip(16).skip(4);
    let p = slot_indexes_parser();
    let f = slot_indexes_writer();
    let c = anywhere();
    assert forall|t: Seq<u8>| #[trigger] p(t) is Some && c(t) implies f((p(t)->0).0) == t.take((p(t)->0).1) by {
        lemma_slot_indexes_resave(t);
    }
    assert forall|t: Seq<u8>| #[trigger] p(t) is Some implies 0 <= (p(t)->0).1 <= t.len() by {
        lemma_slot_indexes_bounds(t);
    }
    lemma_repeat_all_holds(p, c, r, n as nat);
    lemma_repeat_resave(p, f, c, r, n as nat);
    lemma_repeat_bounds(p, r, n as nat);
    let (slots, m) = parse_repeat(p, r, n as nat)->0;
    let u = r.skip(m);
    let g = guid_from(s);
    lemma_item_container_tail_resave(u, g, slots);
    lemma_guid_reencode(s);
    lemma_u32_reencode(s.skip(16));
    let d = parse_item_container_module(s)->0;
    let nall = (parse_u32(u)->0).0 as int;
    let head = ser_guid(g) + le_u32(slots.len() as u32) + ser_repeat(f, slots);
    let tail = le_u32(d->all_slot_attribute.len() as u32) + d->all_slot_attribute + le_bool32(d->drop_item_at_disposed)
        + seq![d->usage_type] + d->ItemContainer_trailing_bytes;
    assert(head =~= s.take(20 + m));
    assert(tail == u.take(4 + nall + 9));
    assert(ser_module_data(d) =~= head + tail);
    assert(head + tail =~= s.take(20 + m + 4 + nall + 9));
}

#[verifier::spinoff_prover]
#[verifier::rlimit(60)]
proof fn lemma_password_lock_module_resave(t: Seq<char>, s: Seq<u8>)
    requires
        module_kind(t) == ModuleKind::PasswordLock,
        parse_password_lock_module(s) is Some,
        module_data_canonical(t, s),
    ensures
        ser_module_data(parse_password_lock_module(s)->0).len() <= s.len(),
        ser_module_data(parse_password_lock_module(s)->0) == s.take(
            ser_module_data(parse_password_lock_module(s)->0).len() as int,
        ),
{
    let (pw, n) = parse_fstring(s.skip(1))->0;
    let count = (parse_u32(s.skip(1).skip(n))->0).0;
    let q = s.skip(1).skip(n).skip(4);
    let p = player_lock_info_parser();
    let f = player_lock_info_writer();
    let c = lock_info_canonicals();
    assert forall|x: Seq<u8>| #[trigger] p(x) is Some && c(x) implies f((p(x)->0).0) == x.take((p(x)->0).1) by {
        lemma_player_lock_info_resave(x);
    }
    assert forall|x: Seq<u8>| #[trigger] p(x) is Some implies 0 <= (p(x)->0).1 <= x.len() by {}
    lemma_repeat_resave(p, f, c, q, count as nat);
    lemma_repeat_bounds(p, q, count as nat);
    let (infos, m) = parse_repeat(p, q, count as nat)->0;
    lemma_u32_reencode(s.skip(1).skip(n));
    let d = parse_password_lock_module(s)->0;
    let a = seq![s[0]];
    let b = ser_fstring(pw);
    let cc = le_u32(infos.len() as u32);
    let r = ser_repeat(f, infos);
    let tb = q.skip(m).take(4);
    assert(a == s.take(1));
    assert(b == s.skip(1).take(n));
    assert(cc == s.skip(1).skip(n).take(4));
    assert(r == q.take(m));
    assert(ser_module_data(d) =~= a + b + cc + r + tb);
    assert(a + b + cc + r + tb =~= s.take(1 + n + 4 + m + 4));
}

/// Bytes that read as a module payload of type `t`, in the form that writing
/// gives it, are written back unchanged: the payload written is the bytes it
/// was read from (all of them, when the reader consumed all of them).
pub proof fn lemma_module_bytes_resave(t: Seq<char>, s: Seq<u8>)
    requires
        parse_module_data(t, s) is Some,
        module_data_canonical(t, s),
    ensures
        ser_module_data(parse_module_data(t, s)->0).len() <= s.len(),
        ser_module_data(parse_module_data(t, s)->0) == s.take(ser_module_data(parse_module_data(t, s)->0).len() as int),
{
    let d = parse_module_data(t, s)->0;
    if s.len() == 0 {
        assert(s.take(0) =~= s);
        assert(ser_module_data(d) =~= Seq::<u8>::empty());
    } else {
        match module_kind(t) {
            ModuleKind::ItemContainer => {
                lemma_item_container_module_resave(t, s);
            },
            ModuleKind::PasswordLock => lemma_password_lock_module_resave(t, s),
            ModuleKind::CharacterContainer => {
                lemma_guid_reencode(s);
                assert(ser_module_data(d) =~= s.take(20));
            },
            ModuleKind::Workee => {
                lemma_guid_reencode(s);
                assert(ser_module_data(d) =~= s.take(20));
            },
            ModuleKind::Switch => {
                assert(ser_module_data(d) =~= s.take(5));
            },
            ModuleKind::RequireElementalAction => {
                let (item, n) = parse_fstring(s)->0;
                assert(ser_module_data(d) =~= s.take(n) + s.skip(n).take(12));
                assert(s.take(n) + s.skip(n).take(12) =~= s.take(n + 12));
            },
            ModuleKind::Other => {
                assert(s.take(s.len() as int) =~= s);
            },
            _ => {
                assert(s.take(0) =~= Seq::<u8>::empty());
                assert(ser_module_data(d) =~= Seq::<u8>::empty());
            },
        }
    }
}

/// Slot indexes against their bytes: the attribute (byte 0), the count
/// (1..5), then the indexes, four bytes each.
pub proof fn lemma_slot_indexes_layout(s: Seq<u8>)
    requires
        parse_module_slot_indexes(s) is Some,
    ensures
        ({
            let (v, k) = parse_module_slot_indexes(s)->0;
            &&& v.attribute == s[0]
            &&& le_u32(v.indexes.len() as u32) == s.subrange(1, 5)
            &&& k == 5 + 4 * v.indexes.len()
            &&& forall|i: int| 0 <= i < v.indexes.len() ==> le_i32(#[trigger] v.indexes[i]) == s.subrange(5 + 4 * i, 9 + 4 * i)
        }),
{
    lemma_u32_at(s, 1);
    let count = (parse_u32(s.skip(1))->0).0;
    let r = s.skip(1).skip(4);
    assert(r =~= s.skip(5));
    lemma_i32_list_layout(r, count as nat);
    let (v, k) = parse_module_slot_indexes(s)->0;
    assert forall|i: int| 0 <= i < v.indexes.len() implies le_i32(#[trigger] v.indexes[i]) == s.subrange(5 + 4 * i, 9 + 4 * i) by {
        assert(r.subrange(4 * i, 4 * i + 4) =~= s.subrange(5 + 4 * i, 9 + 4 * i));
    }
}

/// Consecutive `i32`s: value `i` is the four bytes at `4 * i`.
proof fn lemma_i32_list_layout(r: Seq<u8>, count: nat)
    requires
        parse_repeat(i32_parser(), r, count) is Some,
    ensures
        ({
            let (xs, n) = parse_repeat(i32_parser(), r, count)->0;
            &&& xs.len() == count
            &&& n == 4 * count
            &&& n <= r.len()
            &&& forall|i: int| 0 <= i < count ==> le_i32(#[trigger] xs[i]) == r.subrange(4 * i, 4 * i + 4)
        }),
    decreases count,
{
    if count > 0 {
        let k = (count - 1) as nat;
        lemma_i32_list_layout(r, k);
        let (xs, n) = parse_repeat(i32_parser(), r, k)->0;
        lemma_i32_at(r, n);
        let ys = (parse_repeat(i32_parser(), r, count)->0).0;
        assert forall|i: int| 0 <= i < count implies le_i32(#[trigger] ys[i]) == r.subrange(4 * i, 4 * i + 4) by {
            if i < k {
                assert(ys[i] == xs[i]);
            }
        }
    }
}

/// Lock attempts against their bytes: the player (0..16), the failed tries
/// (16..20) and the success flag (20..24, any nonzero value meaning true).
pub proof fn lemma_player_lock_info_layout(s: Seq<u8>)
    requires
        parse_player_lock_info(s) is Some,
    ensures
        ({
            let v = (parse_player_lock_info(s)->0).0;
            &&& ser_guid(v.player_uid) == s.subrange(0, 16)
            &&& le_i32(v.try_failed_count) == s.subrange(16, 20)
            &&& v.try_success_cache == ((parse_u32(s.skip(20))->0).0 != 0)
            &&& le_u32((parse_u32(s.skip(20))->0).0) == s.subrange(20, 24)
        }),
{
    lemma_guid_at(s, 0);
    lemma_i32_at(s, 16);
    lemma_u32_at(s, 20);
    assert(s.skip(0) =~= s);
    assert(s.skip(16).skip(4) =~= s.skip(20));
}

/// Module payloads against their bytes, by module type: a character
/// container or a workee holds a GUID (0..16) and four bytes (16..20); a
/// switch its state (byte 0) and four bytes (1..5); an elemental action its
/// unlock item and twelve bytes after it; a password lock its state (byte
/// 0), its password from byte 1, the count of attempts and the attempts
/// after it; other types keep all the bytes.
pub proof fn lemma_module_data_layout(t: Seq<char>, s: Seq<u8>)
    requires
        parse_module_data(t, s) is Some,
        s.len() > 0,
    ensures
        ({
            let d = parse_module_data(t, s)->0;
            match module_kind(t) {
                ModuleKind::CharacterContainer => d matches ModuleDataView::CharacterContainer {
                    target_container_id: g,
                    trailing_bytes: tb,
                } && ser_guid(g) == s.subrange(0, 16) && tb == s.subrange(16, 20),
                ModuleKind::Workee => d matches ModuleDataView::Workee { target_work_id: g, trailing_bytes: tb }
                    && ser_guid(g) == s.subrange(0, 16) && tb == s.subrange(16, 20),
                ModuleKind::Switch => d matches ModuleDataView::Switch { switch_state: st, trailing_bytes: tb } && st == s[0]
                    && tb == s.subrange(1, 5),
                ModuleKind::RequireElementalAction => d matches ModuleDataView::RequireElementalAction {
                    unlock_item: it,
                    trailing_bytes: tb,
                } && it == (parse_fstring(s)->0).0 && tb == s.subrange(
                    (parse_fstring(s)->0).1,
                    (parse_fstring(s)->0).1 + 12,
                ),
                ModuleKind::PasswordLock => d matches ModuleDataView::PasswordLock {
                    lock_state: st,
                    password: pw,
                    player_infos: infos,
                    ..
                } && st == s[0] && pw == (parse_fstring(s.skip(1))->0).0 && le_u32(infos.len() as u32) == s.subrange(
                    1 + (parse_fstring(s.skip(1))->0).1,
                    5 + (parse_fstring(s.skip(1))->0).1,
                ),
                ModuleKind::Other => d == ModuleDataView::Unknown { module_type: t, raw_bytes: s },
                _ => true,
            }
        }),
{
    match module_kind(t) {
        ModuleKind::CharacterContainer => {
            lemma_guid_at(s, 0);
            assert(s.skip(0) =~= s);
            assert(s.skip(16).take(4) =~= s.subrange(16, 20));
        },
        ModuleKind::Workee => {
            lemma_guid_at(s, 0);
            assert(s.skip(0) =~= s);
            assert(s.skip(16).take(4) =~= s.subrange(16, 20));
        },
        ModuleKind::Switch => {
            assert(s.skip(1).take(4) =~= s.subrange(1, 5));
        },
        ModuleKind::RequireElementalAction => {
            let n = (parse_fstring(s)->0).1;
            assert(s.skip(n).take(12) =~= s.subrange(n, n + 12));
        },
        ModuleKind::PasswordLock => {
            let n = (parse_fstring(s.skip(1))->0).1;
            assert(s.skip(1).skip(n) =~= s.skip(1 + n));
            lemma_u32_at(s, 1 + n);
            let count = (parse_u32(s.skip(1 + n))->0).0;
            assert forall|x: Seq<u8>| #[trigger] player_lock_info_parser()(x) is Some implies 0 <= (
            player_lock_info_parser()(x)->0).1 <= x.len() by {}
            lemma_repeat_bounds(player_lock_info_parser(), s.skip(1 + n).skip(4), count as nat);
        },
        _ => {},
    }
}

/// An item container payload against its bytes: the container (0..16), the
/// count of slot index groups (16..20), the groups from byte 20 (taking `m`
/// bytes), the counted slot attribute bytes, the drop flag (any nonzero
/// value meaning true), the usage type and four trailing bytes.
#[verifier::spinoff_prover]
#[verifier::rlimit(60)]
pub proof fn lemma_item_container_module_layout(s: Seq<u8>)
    requires
        parse_item_container_module(s) is Some,
    ensures
        ({
            let d = parse_item_container_module(s)->0;
            let count = (parse_u32(s.skip(16))->0).0;
            let (slots, m) = parse_repeat(slot_indexes_parser(), s.skip(20), count as nat)->0;
            let nall = (parse_u32(s.skip(20 + m))->0).0 as int;
            let f = 24 + m + nall;
            &&& d matches ModuleDataView::ItemContainer {
                target_container_id: g,
                slot_attribute_indexes: sl,
                all_slot_attribute: all,
                drop_item_at_disposed: drop,
                usage_type: usage,
                trailing_bytes: tb,
            }
            &&& ser_guid(d->ItemContainer_target_container_id) == s.subrange(0, 16)
            &&& le_u32(d->slot_attribute_indexes.len() as u32) == s.subrange(16, 20)
            &&& d->slot_attribute_indexes == slots
            &&& le_u32(d->all_slot_attribute.len() as u32) == s.subrange(20 + m, 24 + m)
            &&& d->all_slot_attribute == s.subrange(24 + m, f)
            &&& d->drop_item_at_disposed == ((parse_u32(s.skip(f))->0).0 != 0)
            &&& d->usage_type == s[f + 4]
            &&& d->ItemContainer_trailing_bytes == s.subrange(f + 5, f + 9)
        }),
{
    lemma_guid_at(s, 0);
    assert(s.skip(0) =~= s);
    lemma_u32_at(s, 16);
    assert(s.skip(16).skip(4) =~= s.skip(20));
    let count = (parse_u32(s.skip(16))->0).0;
    assert forall|x: Seq<u8>| #[trigger] slot_indexes_parser()(x) is Some implies 0 <= (slot_indexes_parser()(x)->0).1
        <= x.len() by {
        lemma_slot_indexes_bounds(x);
    }
    lemma_repeat_bounds(slot_indexes_parser(), s.skip(20), count as nat);
    let m = (parse_repeat(slot_indexes_parser(), s.skip(20), count as nat)->0).1;
    let u = s.skip(20).skip(m);
    assert(u =~= s.skip(20 + m));
    lemma_u32_at(s, 20 + m);
    let nall = (parse_u32(u)->0).0 as int;
    let w = u.skip(4).skip(nall);
    assert(w =~= s.skip(24 + m + nall));
    assert(u.skip(4).take(nall) =~= s.subrange(24 + m, 24 + m + nall));
    assert(w.skip(4).skip(1).take(4) =~= s.subrange(29 + m + nall, 33 + m + nall));
}

} // verus!
