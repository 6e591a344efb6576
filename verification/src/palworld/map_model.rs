//! Map object models.
use vstd::prelude::*;
use crate::bytes::{
    Reader, parse_u8, parse_u32, parse_i32, le_u32, le_i32, write_u8, write_u32, write_i32, write_all, lemma_u32_at, lemma_i32_at,
    lemma_subrange_shift,
};
use crate::error::Error;
use crate::guid::{Guid, parse_guid, ser_guid, lemma_guid_at};
use crate::palworld::types::{PalTransform, parse_transform, ser_transform, lemma_transform_layout};
use crate::repeat::lemma_assoc;

verus! {

broadcast use
    crate::bytes::group_codec,
    crate::guid::lemma_guid_roundtrip,
    crate::palworld::types::lemma_transform_roundtrip,
    crate::repeat::lemma_skip_skip,
;

/// Current and maximum hit points.
#[derive(Clone, Copy, Debug, PartialEq, Eq)]
pub struct PalMapObjectHp {
    pub current: i32,
    pub max: i32,
}

/// The stage a map object belongs to.
#[derive(Clone, Copy, Debug, PartialEq, Eq)]
pub struct PalStageInstanceId {
    pub id: Guid,
    pub valid: u32,
}

/// A map object model; the bytes after the stage id are kept as they are.
/// `deterioration_damage` is the bit pattern of an IEEE-754 single.
#[derive(Debug, PartialEq, Eq)]
pub struct PalMapModel {
    pub instance_id: Guid,
    pub concrete_model_instance_id: Guid,
    pub base_camp_id_belong_to: Guid,
    pub group_id_belong_to: Guid,
    pub hp: PalMapObjectHp,
    pub initial_transform_cache: PalTransform,
    pub repair_work_id: Guid,
    pub owner_spawner_level_object_instance_id: Guid,
    pub owner_instance_id: Guid,
    pub build_player_uid: Guid,
    pub interact_restrict_type: u8,
    pub deterioration_damage: u32,
    pub stage_instance_id_belong_to: PalStageInstanceId,
    pub unknown_bytes: Vec<u8>,
}

/// The fixed-size leading fields of a map model.
#[derive(Clone, Copy, Debug, PartialEq, Eq)]
pub struct PalMapModelHead {
    pub instance_id: Guid,
    pub concrete_model_instance_id: Guid,
    pub base_camp_id_belong_to: Guid,
    pub group_id_belong_to: Guid,
    pub hp: PalMapObjectHp,
    pub initial_transform_cache: PalTransform,
}

/// The fixed-size fields of a map model after its transform.
#[derive(Clone, Copy, Debug, PartialEq, Eq)]
pub struct PalMapModelMiddle {
    pub repair_work_id: Guid,
    pub owner_spawner_level_object_instance_id: Guid,
    pub owner_instance_id: Guid,
    pub build_player_uid: Guid,
    pub interact_restrict_type: u8,
    pub deterioration_damage: u32,
    pub stage_instance_id_belong_to: PalStageInstanceId,
}

/// Model of [`PalMapModel`].
pub ghost struct PalMapModelView {
    pub head: PalMapModelHead,
    pub middle: PalMapModelMiddle,
    pub unknown_bytes: Seq<u8>,
}

impl View for PalMapModel {
    type V = PalMapModelView;

    open spec fn view(&self) -> PalMapModelView {
        PalMapModelView {
            head: PalMapModelHead {
                instance_id: self.instance_id,
                concrete_model_instance_id: self.concrete_model_instance_id,
                base_camp_id_belong_to: self.base_camp_id_belong_to,
                group_id_belong_to: self.group_id_belong_to,
                hp: self.hp,
                initial_transform_cache: self.initial_transform_cache,
            },
            middle: PalMapModelMiddle {
                repair_work_id: self.repair_work_id,
                owner_spawner_level_object_instance_id: self.owner_spawner_level_object_instance_id,
                owner_instance_id: self.owner_instance_id,
                build_player_uid: self.build_player_uid,
                interact_restrict_type: self.interact_restrict_type,
                deterioration_damage: self.deterioration_damage,
                stage_instance_id_belong_to: self.stage_instance_id_belong_to,
            },
            unknown_bytes: self.unknown_bytes@,
        }
    }
}

/// Parse of hit points: two `i32`.
pub open spec fn parse_map_object_hp(s: Seq<u8>) -> Option<(PalMapObjectHp, int)> {
    match parse_i32(s) {
        None => None,
        Some((c, _)) => match parse_i32(s.skip(4)) {
            None => None,
            Some((m, _)) => Some((PalMapObjectHp { current: c, max: m }, 8)),
        },
    }
}

/// Encoding of hit points.
pub open spec fn ser_map_object_hp(v: PalMapObjectHp) -> Seq<u8> {
    le_i32(v.current) + le_i32(v.max)
}

/// Parse of a stage id: a GUID and a `u32`.
pub open spec fn parse_stage_instance_id(s: Seq<u8>) -> Option<(PalStageInstanceId, int)> {
    match parse_guid(s) {
        None => None,
        Some((g, _)) => match parse_u32(s.skip(16)) {
            None => None,
            Some((v, _)) => Some((PalStageInstanceId { id: g, valid: v }, 20)),
        },
    }
}

/// Encoding of a stage id.
pub open spec fn ser_stage_instance_id(v: PalStageInstanceId) -> Seq<u8> {
    ser_guid(v.id) + le_u32(v.valid)
}

/// Parse of the leading fields: four GUIDs, hit points, a transform (152 bytes).
pub open spec fn parse_map_model_head(s: Seq<u8>) -> Option<(PalMapModelHead, int)> {
    match parse_guid(s) {
        None => None,
        Some((a, _)) => match parse_guid(s.skip(16)) {
            None => None,
            Some((b, _)) => match parse_guid(s.skip(16).skip(16)) {
                None => None,
                Some((c, _)) => match parse_guid(s.skip(16).skip(16).skip(16)) {
                    None => None,
                    Some((d, _)) => match parse_map_object_hp(s.skip(16).skip(16).skip(16).skip(16)) {
                        None => None,
                        Some((hp, _)) => match parse_transform(s.skip(16).skip(16).skip(16).skip(16).skip(8)) {
                            None => None,
                            Some((t, _)) => Some((
                                PalMapModelHead {
                                    instance_id: a,
                                    concrete_model_instance_id: b,
                                    base_camp_id_belong_to: c,
                                    group_id_belong_to: d,
                                    hp,
                                    initial_transform_cache: t,
                                },
                                152,
                            )),
                        },
                    },
                },
            },
        },
    }
}

/// Encoding of the leading fields.
pub open spec fn ser_map_model_head(v: PalMapModelHead) -> Seq<u8> {
    ser_guid(v.instance_id) + (ser_guid(v.concrete_model_instance_id) + (ser_guid(v.base_camp_id_belong_to)
        + (ser_guid(v.group_id_belong_to) + (ser_map_object_hp(v.hp) + ser_transform(v.initial_transform_cache)))))
}

/// Parse of the middle fields: four GUIDs, a byte, a single, a stage id (89 bytes).
pub open spec fn parse_map_model_middle(s: Seq<u8>) -> Option<(PalMapModelMiddle, int)> {
    match parse_guid(s) {
        None => None,
        Some((a, _)) => match parse_guid(s.skip(16)) {
            None => None,
            Some((b, _)) => match parse_guid(s.skip(16).skip(16)) {
                None => None,
                Some((c, _)) => match parse_guid(s.skip(16).skip(16).skip(16)) {
                    None => None,
                    Some((d, _)) => match parse_u8(s.skip(16).skip(16).skip(16).skip(16)) {
                        None => None,
                        Some((it, _)) => match parse_u32(s.skip(16).skip(16).skip(16).skip(16).skip(1)) {
                            None => None,
                            Some((dd, _)) => match parse_stage_instance_id(s.skip(16).skip(16).skip(16).skip(16).skip(1).skip(4)) {
                                None => None,
                                Some((st, _)) => Some((
                                    PalMapModelMiddle {
                                        repair_work_id: a,
                                        owner_spawner_level_object_instance_id: b,
                                        owner_instance_id: c,
                                        build_player_uid: d,
                                        interact_restrict_type: it,
                                        deterioration_damage: dd,
                                        stage_instance_id_belong_to: st,
                                    },
                                    89,
                                )),
                            },
                        },
                    },
                },
            },
        },
    }
}

/// Encoding of the middle fields.
pub open spec fn ser_map_model_middle(v: PalMapModelMiddle) -> Seq<u8> {
    ser_guid(v.repair_work_id) + (ser_guid(v.owner_spawner_level_object_instance_id) + (ser_guid(v.owner_instance_id)
        + (ser_guid(v.build_player_uid) + (seq![v.interact_restrict_type] + (le_u32(v.deterioration_damage)
        + ser_stage_instance_id(v.stage_instance_id_belong_to))))))
}

/// Parse of a map model: the fixed fields, then all remaining bytes.
pub open spec fn parse_map_model(s: Seq<u8>) -> Option<PalMapModelView> {
    match parse_map_model_head(s) {
        None => None,
        Some((h, _)) => match parse_map_model_middle(s.skip(152)) {
            None => None,
            Some((m, _)) => Some(PalMapModelView { head: h, middle: m, unknown_bytes: s.skip(152).skip(89) }),
        },
    }
}

/// Encoding of a map model.
pub open spec fn ser_map_model(v: PalMapModelView) -> Seq<u8> {
    ser_map_model_head(v.head) + ser_map_model_middle(v.middle) + v.unknown_bytes
}

impl PalMapObjectHp {
    /// Reads hit points.
    pub fn read(r: &mut Reader) -> (res: Result<Self, Error>)
        requires
            old(r).valid(),
        ensures
            final(r).valid(),
            final(r).data() == old(r).data(),
            match parse_map_object_hp(old(r).rest()) {
                Some((v, n)) => res == Ok::<Self, Error>(v) && final(r).position() == old(r).position() + n
                    && final(r).rest() == old(r).rest().skip(n),
                None => res == Err::<Self, Error>(Error::UnexpectedEof),
            },
    {
        let current = r.read_i32()?;
        let max = r.read_i32()?;
        Ok(PalMapObjectHp { current, max })
    }

    /// Writes hit points.
    pub fn write(&self, out: &mut Vec<u8>)
        ensures
            final(out)@ == old(out)@ + ser_map_object_hp(*self),
    {
        write_i32(out, self.current);
        write_i32(out, self.max);
        assert(out@ =~= old(out)@ + ser_map_object_hp(*self));
    }
}

impl PalStageInstanceId {
    /// Reads a stage id.
    pub fn read(r: &mut Reader) -> (res: Result<Self, Error>)
        requires
            old(r).valid(),
        ensures
            final(r).valid(),
            final(r).data() == old(r).data(),
            match parse_stage_instance_id(old(r).rest()) {
                Some((v, n)) => res == Ok::<Self, Error>(v) && final(r).position() == old(r).position() + n
                    && final(r).rest() == old(r).rest().skip(n),
                None => res == Err::<Self, Error>(Error::UnexpectedEof),
            },
    {
        let id = Guid::read(r)?;
        let valid = r.read_u32()?;
        Ok(PalStageInstanceId { id, valid })
    }

    /// Writes a stage id.
    pub fn write(&self, out: &mut Vec<u8>)
        ensures
            final(out)@ == old(out)@ + ser_stage_instance_id(*self),
    {
        self.id.write(out);
        write_u32(out, self.valid);
        assert(out@ =~= old(out)@ + ser_stage_instance_id(*self));
    }
}

impl PalMapModelHead {
    /// Reads the leading fields of a map model.
    pub fn read(r: &mut Reader) -> (res: Result<Self, Error>)
        requires
            old(r).valid(),
        ensures
            final(r).valid(),
            final(r).data() == old(r).data(),
            match parse_map_model_head(old(r).rest()) {
                Some((v, n)) => res == Ok::<Self, Error>(v) && final(r).position() == old(r).position() + n
                    && final(r).rest() == old(r).rest().skip(n),
                None => res == Err::<Self, Error>(Error::UnexpectedEof),
            },
    {
        let instance_id = Guid::read(r)?;
        let concrete_model_instance_id = Guid::read(r)?;
        let base_camp_id_belong_to = Guid::read(r)?;
        let group_id_belong_to = Guid::read(r)?;
        let hp = PalMapObjectHp::read(r)?;
        let initial_transform_cache = PalTransform::read(r)?;
        Ok(PalMapModelHead {
            instance_id,
            concrete_model_instance_id,
            base_camp_id_belong_to,
            group_id_belong_to,
            hp,
            initial_transform_cache,
        })
    }
}

impl PalMapModelMiddle {
    /// Reads the middle fields of a map model.
    pub fn read(r: &mut Reader) -> (res: Result<Self, Error>)
        requires
            old(r).valid(),
        ensures
            final(r).valid(),
            final(r).data() == old(r).data(),
            match parse_map_model_middle(old(r).rest()) {
                Some((v, n)) => res == Ok::<Self, Error>(v) && final(r).position() == old(r).position() + n
                    && final(r).rest() == old(r).rest().skip(n),
                None => res == Err::<Self, Error>(Error::UnexpectedEof),
            },
    {
        let repair_work_id = Guid::read(r)?;
        let owner_spawner_level_object_instance_id = Guid::read(r)?;
        let owner_instance_id = Guid::read(r)?;
        let build_player_uid = Guid::read(r)?;
        let interact_restrict_type = r.read_u8()?;
        let deterioration_damage = r.read_u32()?;
        let stage_instance_id_belong_to = PalStageInstanceId::read(r)?;
        Ok(PalMapModelMiddle {
            repair_work_id,
            owner_spawner_level_object_instance_id,
            owner_instance_id,
            build_player_uid,
            interact_restrict_type,
            deterioration_damage,
            stage_instance_id_belong_to,
        })
    }
}

impl PalMapModel {
    /// Reads a map model, taking all of the remaining bytes.
    pub fn read(r: &mut Reader) -> (res: Result<Self, Error>)
        requires
            old(r).valid(),
        ensures
            final(r).valid(),
            final(r).data() == old(r).data(),
            match parse_map_model(old(r).rest()) {
                Some(v) => res matches Ok(x) && x@ == v && final(r).rest().len() == 0,
                None => res == Err::<Self, Error>(Error::UnexpectedEof),
            },
    {
        let h = PalMapModelHead::read(r)?;
        let m = PalMapModelMiddle::read(r)?;
        let unknown_bytes = r.read_to_end();
        Ok(PalMapModel {
            instance_id: h.instance_id,
            concrete_model_instance_id: h.concrete_model_instance_id,
            base_camp_id_belong_to: h.base_camp_id_belong_to,
            group_id_belong_to: h.group_id_belong_to,
            hp: h.hp,
            initial_transform_cache: h.initial_transform_cache,
            repair_work_id: m.repair_work_id,
            owner_spawner_level_object_instance_id: m.owner_spawner_level_object_instance_id,
            owner_instance_id: m.owner_instance_id,
            build_player_uid: m.build_player_uid,
            interact_restrict_type: m.interact_restrict_type,
            deterioration_damage: m.deterioration_damage,
            stage_instance_id_belong_to: m.stage_instance_id_belong_to,
            unknown_bytes,
        })
    }

    /// Writes a map model.
    pub fn write(&self, out: &mut Vec<u8>)
        ensures
            final(out)@ == old(out)@ + ser_map_model(self@),
    {
        let ghost start = out@;
        self.instance_id.write(out);
        self.concrete_model_instance_id.write(out);
        self.base_camp_id_belong_to.write(out);
        self.group_id_belong_to.write(out);
        self.hp.write(out);
        self.initial_transform_cache.write(out);
        assert(out@ =~= start + ser_map_model_head(self@.head));
        let ghost mid = out@;
        self.repair_work_id.write(out);
        self.owner_spawner_level_object_instance_id.write(out);
        self.owner_instance_id.write(out);
        self.build_player_uid.write(out);
        write_u8(out, self.interact_restrict_type);
        write_u32(out, self.deterioration_damage);
        self.stage_instance_id_belong_to.write(out);
        assert(out@ =~= mid + ser_map_model_middle(self@.middle));
        write_all(out, self.unknown_bytes.as_slice());
        assert(out@ =~= old(out)@ + ser_map_model(self@));
    }
}

/// Written hit points read back.
pub broadcast proof fn lemma_map_object_hp_roundtrip(v: PalMapObjectHp, rest: Seq<u8>)
    ensures
        #[trigger] parse_map_object_hp(ser_map_object_hp(v) + rest) == Some((v, 8int)),
        #[trigger] ser_map_object_hp(v).len() == 8,
{
    lemma_assoc(le_i32(v.current), le_i32(v.max), rest);
}

/// A written stage id reads back.
pub broadcast proof fn lemma_stage_instance_id_roundtrip(v: PalStageInstanceId, rest: Seq<u8>)
    ensures
        #[trigger] parse_stage_instance_id(ser_stage_instance_id(v) + rest) == Some((v, 20int)),
        #[trigger] ser_stage_instance_id(v).len() == 20,
{
    lemma_assoc(ser_guid(v.id), le_u32(v.valid), rest);
}

proof fn lemma_map_model_head_roundtrip(v: PalMapModelHead, rest: Seq<u8>)
    ensures
        parse_map_model_head(ser_map_model_head(v) + rest) == Some((v, 152int)),
        ser_map_model_head(v).len() == 152,
{
    broadcast use lemma_map_object_hp_roundtrip;
    assert(ser_map_model_head(v) + rest =~= ser_guid(v.instance_id) + (ser_guid(v.concrete_model_instance_id)
        + (ser_guid(v.base_camp_id_belong_to) + (ser_guid(v.group_id_belong_to) + (ser_map_object_hp(v.hp)
        + (ser_transform(v.initial_transform_cache) + rest))))));
}

proof fn lemma_map_model_middle_roundtrip(v: PalMapModelMiddle, rest: Seq<u8>)
    ensures
        parse_map_model_middle(ser_map_model_middle(v) + rest) == Some((v, 89int)),
        ser_map_model_middle(v).len() == 89,
{
    broadcast use lemma_stage_instance_id_roundtrip;
    let g = ser_stage_instance_id(v.stage_instance_id_belong_to);
    let f = le_u32(v.deterioration_damage) + g;
    let e = seq![v.interact_restrict_type] + f;
    let d = ser_guid(v.build_player_uid) + e;
    let c = ser_guid(v.owner_instance_id) + d;
    let b = ser_guid(v.owner_spawner_level_object_instance_id) + c;
    lemma_assoc(ser_guid(v.repair_work_id), b, rest);
    lemma_assoc(ser_guid(v.owner_spawner_level_object_instance_id), c, rest);
    lemma_assoc(ser_guid(v.owner_instance_id), d, rest);
    lemma_assoc(ser_guid(v.build_player_uid), e, rest);
    lemma_assoc(seq![v.interact_restrict_type], f, rest);
    lemma_assoc(le_u32(v.deterioration_damage), g, rest);
}

/// A written map model reads back.
pub proof fn lemma_map_model_roundtrip(v: PalMapModelView)
    ensures
        parse_map_model(ser_map_model(v)) == Some(v),
{
    lemma_map_model_head_roundtrip(v.head, ser_map_model_middle(v.middle) + v.unknown_bytes);
    lemma_map_model_middle_roundtrip(v.middle, v.unknown_bytes);
    lemma_assoc(ser_map_model_head(v.head), ser_map_model_middle(v.middle), v.unknown_bytes);
}

/// Hit points: the current value in bytes 0..4, the maximum in 4..8.
pub proof fn lemma_map_object_hp_layout(s: Seq<u8>)
    requires
        parse_map_object_hp(s) is Some,
    ensures
        le_i32((parse_map_object_hp(s)->0).0.current) == s.subrange(0, 4),
        le_i32((parse_map_object_hp(s)->0).0.max) == s.subrange(4, 8),
{
    lemma_i32_at(s, 0);
    lemma_i32_at(s, 4);
    assert(s.skip(0) =~= s);
}

/// A stage id: its GUID in bytes 0..16, its validity in 16..20.
pub proof fn lemma_stage_instance_id_layout(s: Seq<u8>)
    requires
        parse_stage_instance_id(s) is Some,
    ensures
        ser_guid((parse_stage_instance_id(s)->0).0.id) == s.subrange(0, 16),
        le_u32((parse_stage_instance_id(s)->0).0.valid) == s.subrange(16, 20),
{
    lemma_guid_at(s, 0);
    lemma_u32_at(s, 16);
    assert(s.skip(0) =~= s);
}

/// The leading fields of a map model against its bytes: the instance id
/// (0..16), the concrete model's instance id (16..32), the base camp
/// (32..48), the group (48..64), the current hit points (64..68), the
/// maximum (68..72) and the transform (72..152).
#[verifier::spinoff_prover]
#[verifier::rlimit(60)]
pub proof fn lemma_map_model_head_layout(s: Seq<u8>)
    requires
        parse_map_model_head(s) is Some,
    ensures
        ({
            let h = (parse_map_model_head(s)->0).0;
            &&& ser_guid(h.instance_id) == s.subrange(0, 16)
            &&& ser_guid(h.concrete_model_instance_id) == s.subrange(16, 32)
            &&& ser_guid(h.base_camp_id_belong_to) == s.subrange(32, 48)
            &&& ser_guid(h.group_id_belong_to) == s.subrange(48, 64)
            &&& le_i32(h.hp.current) == s.subrange(64, 68)
            &&& le_i32(h.hp.max) == s.subrange(68, 72)
            &&& ser_transform(h.initial_transform_cache) == s.subrange(72, 152)
        }),
{
    assert(s.skip(0) =~= s);
    assert(s.skip(16).skip(16) =~= s.skip(32));
    assert(s.skip(16).skip(16).skip(16) =~= s.skip(48));
    assert(s.skip(16).skip(16).skip(16).skip(16) =~= s.skip(64));
    assert(s.skip(16).skip(16).skip(16).skip(16).skip(8) =~= s.skip(72));
    lemma_guid_at(s, 0);
    lemma_guid_at(s, 16);
    lemma_guid_at(s, 32);
    lemma_guid_at(s, 48);
    lemma_map_object_hp_layout(s.skip(64));
    lemma_subrange_shift(s, 64, 0, 4);
    lemma_subrange_shift(s, 64, 4, 8);
    lemma_transform_layout(s.skip(72));
    assert(s.skip(72).take(80) =~= s.subrange(72, 152));
}

/// The fixed fields after the transform, against their bytes: the repair
/// work (0..16), the owning spawner (16..32), the owner (32..48), the
/// building player (48..64), the interaction restriction (byte 64), the
/// deterioration damage (65..69) and the stage id (69..89).
#[verifier::spinoff_prover]
#[verifier::rlimit(60)]
pub proof fn lemma_map_model_middle_layout(s: Seq<u8>)
    requires
        parse_map_model_middle(s) is Some,
    ensures
        ({
            let m = (parse_map_model_middle(s)->0).0;
            &&& ser_guid(m.repair_work_id) == s.subrange(0, 16)
            &&& ser_guid(m.owner_spawner_level_object_instance_id) == s.subrange(16, 32)
            &&& ser_guid(m.owner_instance_id) == s.subrange(32, 48)
            &&& ser_guid(m.build_player_uid) == s.subrange(48, 64)
            &&& m.interact_restrict_type == s[64]
            &&& le_u32(m.deterioration_damage) == s.subrange(65, 69)
            &&& ser_guid(m.stage_instance_id_belong_to.id) == s.subrange(69, 85)
            &&& le_u32(m.stage_instance_id_belong_to.valid) == s.subrange(85, 89)
        }),
{
    assert(s.skip(0) =~= s);
    assert(s.skip(16).skip(16) =~= s.skip(32));
    assert(s.skip(16).skip(16).skip(16) =~= s.skip(48));
    assert(s.skip(16).skip(16).skip(16).skip(16) =~= s.skip(64));
    assert(s.skip(16).skip(16).skip(16).skip(16).skip(1) =~= s.skip(65));
    assert(s.skip(16).skip(16).skip(16).skip(16).skip(1).skip(4) =~= s.skip(69));
    lemma_guid_at(s, 0);
    lemma_guid_at(s, 16);
    lemma_guid_at(s, 32);
    lemma_guid_at(s, 48);
    lemma_u32_at(s, 65);
    lemma_stage_instance_id_layout(s.skip(69));
    lemma_subrange_shift(s, 69, 0, 16);
    lemma_subrange_shift(s, 69, 16, 20);
}

/// A map model against its bytes: the leading fields from byte 0, the fixed
/// fields after the transform from byte 152, and everything from byte 241 on
/// kept as it is. In particular the current hit points are bytes 64..68 and
/// the maximum 68..72.
pub proof fn lemma_map_model_layout(s: Seq<u8>)
    requires
        parse_map_model(s) is Some,
    ensures
        ({
            let v = parse_map_model(s)->0;
            &&& v.head == (parse_map_model_head(s)->0).0
            &&& le_i32(v.head.hp.current) == s.subrange(64, 68)
            &&& le_i32(v.head.hp.max) == s.subrange(68, 72)
            &&& v.middle == (parse_map_model_middle(s.skip(152))->0).0
            &&& v.unknown_bytes == s.skip(241)
        }),
{
    lemma_map_model_head_layout(s);
    assert(s.skip(152).skip(89) =~= s.skip(241));
}

} // verus!
