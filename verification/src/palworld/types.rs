//! Identifiers, player records and transforms shared by the Palworld structs.
use vstd::prelude::*;
use crate::bytes::{Reader, parse_u32, parse_i64, le_u32, le_i64, write_u32, write_i64, lemma_u32_at, lemma_i64_at};
use crate::error::Error;
use crate::fstring::{parse_fstring, fstring_error, ser_fstring, fstring_ok, fstring_writable, read_string, write_string};
use crate::guid::{Guid, parse_guid, ser_guid, lemma_guid_at};
use crate::math::{Vector, Quat, parse_vector, parse_quat, ser_vector, ser_quat};

verus! {

broadcast use
    crate::bytes::group_codec,
    crate::guid::lemma_guid_roundtrip,
    crate::fstring::lemma_fstring_roundtrip,
    crate::fstring::lemma_fstring_bounds,
    crate::repeat::lemma_skip_skip,
    crate::math::lemma_vector_roundtrip,
    crate::math::lemma_quat_roundtrip,
;

/// Where a dynamic item was created: the world and the id within it.
#[derive(Clone, Copy, Debug, PartialEq, Eq)]
pub struct PalDynamicId {
    pub created_world_id: Guid,
    pub local_id_in_created_world: Guid,
}

/// An item: its static (catalogue) id and its dynamic id.
#[derive(Debug, PartialEq, Eq)]
pub struct PalItemId {
    pub static_id: String,
    pub dynamic_id: PalDynamicId,
}

/// Model of [`PalItemId`].
pub ghost struct PalItemIdView {
    pub static_id: Seq<char>,
    pub dynamic_id: PalDynamicId,
}

impl View for PalItemId {
    type V = PalItemIdView;

    open spec fn view(&self) -> PalItemIdView {
        PalItemIdView { static_id: self.static_id@, dynamic_id: self.dynamic_id }
    }
}

/// An item with a count.
#[derive(Debug, PartialEq, Eq)]
pub struct PalItemAndNum {
    pub item_id: PalItemId,
    pub num: u32,
}

/// Model of [`PalItemAndNum`].
pub ghost struct PalItemAndNumView {
    pub item_id: PalItemIdView,
    pub num: u32,
}

impl View for PalItemAndNum {
    type V = PalItemAndNumView;

    open spec fn view(&self) -> PalItemAndNumView {
        PalItemAndNumView { item_id: self.item_id@, num: self.num }
    }
}

/// A character handle: its GUID and its instance id.
#[derive(Clone, Copy, Debug, PartialEq, Eq)]
pub struct PalInstanceId {
    pub guid: Guid,
    pub instance_id: Guid,
}

/// Details recorded for a player.
#[derive(Debug, PartialEq, Eq)]
pub struct PalPlayerInfoDetails {
    pub last_online_real_time: i64,
    pub player_name: String,
}

/// A player and the details recorded for them.
#[derive(Debug, PartialEq, Eq)]
pub struct PalPlayerInfo {
    pub player_uid: Guid,
    pub player_info: PalPlayerInfoDetails,
}

/// Model of [`PalPlayerInfo`].
pub ghost struct PalPlayerInfoView {
    pub player_uid: Guid,
    pub last_online_real_time: i64,
    pub player_name: Seq<char>,
}

impl View for PalPlayerInfo {
    type V = PalPlayerInfoView;

    open spec fn view(&self) -> PalPlayerInfoView {
        PalPlayerInfoView {
            player_uid: self.player_uid,
            last_online_real_time: self.player_info.last_online_real_time,
            player_name: self.player_info.player_name@,
        }
    }
}

/// Rotation, translation and scale.
#[derive(Clone, Copy, Debug, PartialEq, Eq)]
pub struct PalTransform {
    pub rotation: Quat,
    pub translation: Vector,
    pub scale: Vector,
}

/// Parse of a dynamic id: two GUIDs.
pub open spec fn parse_dynamic_id(s: Seq<u8>) -> Option<(PalDynamicId, int)> {
    match parse_guid(s) {
        None => None,
        Some((a, _)) => match parse_guid(s.skip(16)) {
            None => None,
            Some((b, _)) => Some((PalDynamicId { created_world_id: a, local_id_in_created_world: b }, 32)),
        },
    }
}

/// Encoding of a dynamic id.
pub open spec fn ser_dynamic_id(d: PalDynamicId) -> Seq<u8> {
    ser_guid(d.created_world_id) + ser_guid(d.local_id_in_created_world)
}

/// Parse of an item id: an `FString` and a dynamic id.
pub open spec fn parse_item_id(s: Seq<u8>) -> Option<(PalItemIdView, int)> {
    match parse_fstring(s) {
        None => None,
        Some((sid, n)) => match parse_dynamic_id(s.skip(n)) {
            None => None,
            Some((d, m)) => Some((PalItemIdView { static_id: sid, dynamic_id: d }, n + m)),
        },
    }
}

/// Why an item id fails to parse: its string's error, or too few bytes.
pub open spec fn item_id_error(s: Seq<u8>) -> Error {
    match parse_fstring(s) {
        None => fstring_error(s),
        Some(_) => Error::UnexpectedEof,
    }
}

/// Encoding of an item id.
pub open spec fn ser_item_id(v: PalItemIdView) -> Seq<u8> {
    ser_fstring(v.static_id) + ser_dynamic_id(v.dynamic_id)
}

/// Item ids whose string the encoding carries unchanged.
pub open spec fn item_id_ok(v: PalItemIdView) -> bool {
    fstring_ok(v.static_id)
}

/// Item ids that can be written: the string fits its length field.
pub open spec fn item_id_writable(v: PalItemIdView) -> bool {
    fstring_writable(v.static_id)
}

/// Parse of an item and count.
pub open spec fn parse_item_and_num(s: Seq<u8>) -> Option<(PalItemAndNumView, int)> {
    match parse_item_id(s) {
        None => None,
        Some((id, n)) => match parse_u32(s.skip(n)) {
            None => None,
            Some((num, m)) => Some((PalItemAndNumView { item_id: id, num }, n + m)),
        },
    }
}

/// Why an item and count fails to parse.
pub open spec fn item_and_num_error(s: Seq<u8>) -> Error {
    match parse_item_id(s) {
        None => item_id_error(s),
        Some(_) => Error::UnexpectedEof,
    }
}

/// Encoding of an item and count.
pub open spec fn ser_item_and_num(v: PalItemAndNumView) -> Seq<u8> {
    ser_item_id(v.item_id) + le_u32(v.num)
}

/// Parse of an instance id: two GUIDs.
pub open spec fn parse_instance_id(s: Seq<u8>) -> Option<(PalInstanceId, int)> {
    match parse_guid(s) {
        None => None,
        Some((a, _)) => match parse_guid(s.skip(16)) {
            None => None,
            Some((b, _)) => Some((PalInstanceId { guid: a, instance_id: b }, 32)),
        },
    }
}

/// Encoding of an instance id.
pub open spec fn ser_instance_id(v: PalInstanceId) -> Seq<u8> {
    ser_guid(v.guid) + ser_guid(v.instance_id)
}

/// Parse of a player record: GUID, `i64` time, `FString` name.
pub open spec fn parse_player_info(s: Seq<u8>) -> Option<(PalPlayerInfoView, int)> {
    match parse_guid(s) {
        None => None,
        Some((uid, _)) => match parse_i64(s.skip(16)) {
            None => None,
            Some((t, _)) => match parse_fstring(s.skip(16).skip(8)) {
                None => None,
                Some((name, n)) => Some((
                    PalPlayerInfoView { player_uid: uid, last_online_real_time: t, player_name: name },
                    24 + n,
                )),
            },
        },
    }
}

/// Why a player record fails to parse: too few bytes before the name, or
/// the name's error.
pub open spec fn player_info_error(s: Seq<u8>) -> Error {
    if s.len() < 24 {
        Error::UnexpectedEof
    } else {
        fstring_error(s.skip(16).skip(8))
    }
}

/// Encoding of a player record.
pub open spec fn ser_player_info(v: PalPlayerInfoView) -> Seq<u8> {
    ser_guid(v.player_uid) + le_i64(v.last_online_real_time) + ser_fstring(v.player_name)
}

/// Player records whose name the encoding carries unchanged.
pub open spec fn player_info_ok(v: PalPlayerInfoView) -> bool {
    fstring_ok(v.player_name)
}

/// Player records that can be written: the name fits its length field.
pub open spec fn player_info_writable(v: PalPlayerInfoView) -> bool {
    fstring_writable(v.player_name)
}

/// Parse of a transform: rotation, translation, scale.
pub open spec fn parse_transform(s: Seq<u8>) -> Option<(PalTransform, int)> {
    match parse_quat(s) {
        None => None,
        Some((q, _)) => match parse_vector(s.skip(32)) {
            None => None,
            Some((t, _)) => match parse_vector(s.skip(32).skip(24)) {
                None => None,
                Some((sc, _)) => Some((PalTransform { rotation: q, translation: t, scale: sc }, 80)),
            },
        },
    }
}

/// Encoding of a transform.
pub open spec fn ser_transform(v: PalTransform) -> Seq<u8> {
    ser_quat(v.rotation) + ser_vector(v.translation) + ser_vector(v.scale)
}

impl PalDynamicId {
    /// Reads a dynamic id.
    pub fn read(r: &mut Reader) -> (res: Result<Self, Error>)
        requires
            old(r).valid(),
        ensures
            final(r).valid(),
            final(r).data() == old(r).data(),
            match parse_dynamic_id(old(r).rest()) {
                Some((v, n)) => res == Ok::<Self, Error>(v) && final(r).position() == old(r).position() + n
                    && final(r).rest() == old(r).rest().skip(n),
                None => res == Err::<Self, Error>(Error::UnexpectedEof),
            },
    {
        let a = Guid::read(r)?;
        let b = Guid::read(r)?;
        Ok(PalDynamicId { created_world_id: a, local_id_in_created_world: b })
    }

    /// Writes a dynamic id.
    pub fn write(&self, out: &mut Vec<u8>)
        ensures
            final(out)@ == old(out)@ + ser_dynamic_id(*self),
    {
        self.created_world_id.write(out);
        self.local_id_in_created_world.write(out);
        assert(out@ =~= old(out)@ + ser_dynamic_id(*self));
    }
}

impl PalItemId {
    /// Reads an item id.
    pub fn read(r: &mut Reader) -> (res: Result<Self, Error>)
        requires
            old(r).valid(),
        ensures
            final(r).valid(),
            final(r).data() == old(r).data(),
            match parse_item_id(old(r).rest()) {
                Some((v, n)) => res matches Ok(x) && x@ == v && final(r).position() == old(r).position() + n
                    && final(r).rest() == old(r).rest().skip(n),
                None => res == Err::<Self, Error>(item_id_error(old(r).rest())),
            },
    {
        let static_id = read_string(r)?;
        let dynamic_id = PalDynamicId::read(r)?;
        Ok(PalItemId { static_id, dynamic_id })
    }

    /// Writes an item id.
    pub fn write(&self, out: &mut Vec<u8>)
        requires
            item_id_writable(self@),
        ensures
            final(out)@ == old(out)@ + ser_item_id(self@),
    {
        write_string(out, self.static_id.as_str());
        self.dynamic_id.write(out);
        assert(out@ =~= old(out)@ + ser_item_id(self@));
    }
}

impl PalItemAndNum {
    /// Reads an item and count.
    pub fn read(r: &mut Reader) -> (res: Result<Self, Error>)
        requires
            old(r).valid(),
        ensures
            final(r).valid(),
            final(r).data() == old(r).data(),
            match parse_item_and_num(old(r).rest()) {
                Some((v, n)) => res matches Ok(x) && x@ == v && final(r).position() == old(r).position() + n
                    && final(r).rest() == old(r).rest().skip(n),
                None => res == Err::<Self, Error>(item_and_num_error(old(r).rest())),
            },
    {
        let item_id = PalItemId::read(r)?;
        let num = r.read_u32()?;
        Ok(PalItemAndNum { item_id, num })
    }

    /// Writes an item and count.
    pub fn write(&self, out: &mut Vec<u8>)
        requires
            item_id_writable(self@.item_id),
        ensures
            final(out)@ == old(out)@ + ser_item_and_num(self@),
    {
        self.item_id.write(out);
        write_u32(out, self.num);
        assert(out@ =~= old(out)@ + ser_item_and_num(self@));
    }
}

impl PalInstanceId {
    /// Reads an instance id.
    pub fn read(r: &mut Reader) -> (res: Result<Self, Error>)
        requires
            old(r).valid(),
        ensures
            final(r).valid(),
            final(r).data() == old(r).data(),
            match parse_instance_id(old(r).rest()) {
                Some((v, n)) => res == Ok::<Self, Error>(v) && final(r).position() == old(r).position() + n
                    && final(r).rest() == old(r).rest().skip(n),
                None => res == Err::<Self, Error>(Error::UnexpectedEof),
            },
    {
        let guid = Guid::read(r)?;
        let instance_id = Guid::read(r)?;
        Ok(PalInstanceId { guid, instance_id })
    }

    /// Writes an instance id.
    pub fn write(&self, out: &mut Vec<u8>)
        ensures
            final(out)@ == old(out)@ + ser_instance_id(*self),
    {
        self.guid.write(out);
        self.instance_id.write(out);
        assert(out@ =~= old(out)@ + ser_instance_id(*self));
    }
}

impl PalPlayerInfo {
    /// Reads a player record.
    pub fn read(r: &mut Reader) -> (res: Result<Self, Error>)
        requires
            old(r).valid(),
        ensures
            final(r).valid(),
            final(r).data() == old(r).data(),
            match parse_player_info(old(r).rest()) {
                Some((v, n)) => res matches Ok(x) && x@ == v && final(r).position() == old(r).position() + n
                    && final(r).rest() == old(r).rest().skip(n),
                None => res == Err::<Self, Error>(player_info_error(old(r).rest())),
            },
    {
        let player_uid = Guid::read(r)?;
        let last_online_real_time = r.read_i64()?;
        let player_name = read_string(r)?;
        Ok(PalPlayerInfo { player_uid, player_info: PalPlayerInfoDetails { last_online_real_time, player_name } })
    }

    /// Writes a player record.
    pub fn write(&self, out: &mut Vec<u8>)
        requires
            player_info_writable(self@),
        ensures
            final(out)@ == old(out)@ + ser_player_info(self@),
    {
        self.player_uid.write(out);
        write_i64(out, self.player_info.last_online_real_time);
        write_string(out, self.player_info.player_name.as_str());
        assert(out@ =~= old(out)@ + ser_player_info(self@));
    }
}

impl PalTransform {
    /// Reads a transform.
    pub fn read(r: &mut Reader) -> (res: Result<Self, Error>)
        requires
            old(r).valid(),
        ensures
            final(r).valid(),
            final(r).data() == old(r).data(),
            match parse_transform(old(r).rest()) {
                Some((v, n)) => res == Ok::<Self, Error>(v) && final(r).position() == old(r).position() + n
                    && final(r).rest() == old(r).rest().skip(n),
                None => res == Err::<Self, Error>(Error::UnexpectedEof),
            },
    {
        let rotation = Quat::read(r)?;
        let translation = Vector::read(r)?;
        let scale = Vector::read(r)?;
        Ok(PalTransform { rotation, translation, scale })
    }

    /// Writes a transform.
    pub fn write(&self, out: &mut Vec<u8>)
        ensures
            final(out)@ == old(out)@ + ser_transform(*self),
    {
        self.rotation.write(out);
        self.translation.write(out);
        self.scale.write(out);
        assert(out@ =~= old(out)@ + ser_transform(*self));
    }
}

/// A written dynamic id reads back.
pub broadcast proof fn lemma_dynamic_id_roundtrip(v: PalDynamicId, rest: Seq<u8>)
    ensures
        #[trigger] parse_dynamic_id(ser_dynamic_id(v) + rest) == Some((v, 32int)),
        #[trigger] ser_dynamic_id(v).len() == 32,
{
    let s = ser_dynamic_id(v) + rest;
    assert(s =~= ser_guid(v.created_world_id) + (ser_guid(v.local_id_in_created_world) + rest));
}

/// A written item id reads back.
pub broadcast proof fn lemma_item_id_roundtrip(v: PalItemIdView, rest: Seq<u8>)
    requires
        item_id_ok(v),
    ensures
        #[trigger] parse_item_id(ser_item_id(v) + rest) == Some((v, ser_item_id(v).len() as int)),
{
    broadcast use lemma_dynamic_id_roundtrip;
    let s = ser_item_id(v) + rest;
    assert(s =~= ser_fstring(v.static_id) + (ser_dynamic_id(v.dynamic_id) + rest));
}

/// A written item and count reads back.
pub broadcast proof fn lemma_item_and_num_roundtrip(v: PalItemAndNumView, rest: Seq<u8>)
    requires
        item_id_ok(v.item_id),
    ensures
        #[trigger] parse_item_and_num(ser_item_and_num(v) + rest) == Some((v, ser_item_and_num(v).len() as int)),
{
    broadcast use lemma_item_id_roundtrip;
    let s = ser_item_and_num(v) + rest;
    assert(s =~= ser_item_id(v.item_id) + (le_u32(v.num) + rest));
}

/// A written instance id reads back.
pub broadcast proof fn lemma_instance_id_roundtrip(v: PalInstanceId, rest: Seq<u8>)
    ensures
        #[trigger] parse_instance_id(ser_instance_id(v) + rest) == Some((v, 32int)),
        #[trigger] ser_instance_id(v).len() == 32,
{
    let s = ser_instance_id(v) + rest;
    assert(s =~= ser_guid(v.guid) + (ser_guid(v.instance_id) + rest));
}

/// A written player record reads back.
pub broadcast proof fn lemma_player_info_roundtrip(v: PalPlayerInfoView, rest: Seq<u8>)
    requires
        player_info_ok(v),
    ensures
        #[trigger] parse_player_info(ser_player_info(v) + rest) == Some((v, ser_player_info(v).len() as int)),
{
    let s = ser_player_info(v) + rest;
    assert(s =~= ser_guid(v.player_uid) + (le_i64(v.last_online_real_time) + (ser_fstring(v.player_name) + rest)));

}

/// A written transform reads back.
pub broadcast proof fn lemma_transform_roundtrip(v: PalTransform, rest: Seq<u8>)
    ensures
        #[trigger] parse_transform(ser_transform(v) + rest) == Some((v, 80int)),
        #[trigger] ser_transform(v).len() == 80,
{
    let s = ser_transform(v) + rest;
    assert(s =~= ser_quat(v.rotation) + (ser_vector(v.translation) + (ser_vector(v.scale) + rest)));

}

/// A dynamic id is the GUID of its world (bytes 0..16) then its local id
/// (bytes 16..32).
pub proof fn lemma_dynamic_id_layout(s: Seq<u8>)
    requires
        parse_dynamic_id(s) is Some,
    ensures
        ser_guid((parse_dynamic_id(s)->0).0.created_world_id) == s.subrange(0, 16),
        ser_guid((parse_dynamic_id(s)->0).0.local_id_in_created_world) == s.subrange(16, 32),
        ser_dynamic_id((parse_dynamic_id(s)->0).0) == s.take(32),
{
    lemma_guid_at(s, 0);
    lemma_guid_at(s, 16);
    assert(s.skip(0) =~= s);
    assert(s.subrange(0, 16) + s.subrange(16, 32) =~= s.take(32));
}

/// An instance id is the character's GUID (bytes 0..16) then its instance
/// id (bytes 16..32).
pub proof fn lemma_instance_id_layout(s: Seq<u8>)
    requires
        parse_instance_id(s) is Some,
    ensures
        ser_guid((parse_instance_id(s)->0).0.guid) == s.subrange(0, 16),
        ser_guid((parse_instance_id(s)->0).0.instance_id) == s.subrange(16, 32),
{
    lemma_guid_at(s, 0);
    lemma_guid_at(s, 16);
    assert(s.skip(0) =~= s);
}

/// An item id's dynamic id is the 32 bytes after its static id's string.
pub proof fn lemma_item_id_layout(s: Seq<u8>)
    requires
        parse_item_id(s) is Some,
    ensures
        ({
            let (v, k) = parse_item_id(s)->0;
            let n = (parse_fstring(s)->0).1;
            &&& v.static_id == (parse_fstring(s)->0).0
            &&& k == n + 32
            &&& ser_dynamic_id(v.dynamic_id) == s.subrange(n, n + 32)
        }),
{
    let n = (parse_fstring(s)->0).1;
    lemma_dynamic_id_layout(s.skip(n));
    assert(s.skip(n).take(32) =~= s.subrange(n, n + 32));
}

/// An item and count: the item id, then the count in the four bytes after it.
pub proof fn lemma_item_and_num_layout(s: Seq<u8>)
    requires
        parse_item_and_num(s) is Some,
    ensures
        ({
            let (v, k) = parse_item_and_num(s)->0;
            let (id, n) = parse_item_id(s)->0;
            &&& v.item_id == id
            &&& le_u32(v.num) == s.subrange(n, n + 4)
        }),
{
    let n = (parse_item_id(s)->0).1;
    lemma_u32_at(s, n);
}

/// A player record: the player's GUID (bytes 0..16), the last online time
/// (bytes 16..24), then the name.
pub proof fn lemma_player_info_layout(s: Seq<u8>)
    requires
        parse_player_info(s) is Some,
    ensures
        ser_guid((parse_player_info(s)->0).0.player_uid) == s.subrange(0, 16),
        le_i64((parse_player_info(s)->0).0.last_online_real_time) == s.subrange(16, 24),
        (parse_player_info(s)->0).0.player_name == (parse_fstring(s.skip(24))->0).0,
{
    lemma_guid_at(s, 0);
    lemma_i64_at(s, 16);
    assert(s.skip(0) =~= s);
    assert(s.skip(16).skip(8) =~= s.skip(24));
}

/// A transform: rotation (bytes 0..32), translation (32..56), scale (56..80).
pub proof fn lemma_transform_layout(s: Seq<u8>)
    requires
        parse_transform(s) is Some,
    ensures
        ser_quat((parse_transform(s)->0).0.rotation) == s.subrange(0, 32),
        ser_vector((parse_transform(s)->0).0.translation) == s.subrange(32, 56),
        ser_vector((parse_transform(s)->0).0.scale) == s.subrange(56, 80),
        ser_transform((parse_transform(s)->0).0) == s.take(80),
{
    crate::math::lemma_quat_layout(s);
    crate::math::lemma_vector_layout(s.skip(32));
    crate::math::lemma_vector_layout(s.skip(32).skip(24));
    assert(s.skip(32).skip(24) =~= s.skip(56));
    assert(s.take(32) =~= s.subrange(0, 32));
    assert(s.skip(32).take(24) =~= s.subrange(32, 56));
    assert(s.skip(56).take(24) =~= s.subrange(56, 80));
    assert(s.subrange(0, 32) + s.subrange(32, 56) + s.subrange(56, 80) =~= s.take(80));
}

} // verus!
