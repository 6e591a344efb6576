//! Work sites, assignments and their geometry.
use vstd::prelude::*;
use crate::bytes::{Reader, parse_u64, le_u64, write_u64, write_all, lemma_u64_at};
use crate::error::Error;
use crate::guid::Guid;
use crate::math::{Vector, Quat, parse_vector, parse_quat, ser_vector, ser_quat, lemma_vector_layout, lemma_quat_layout};
use crate::palworld::types::PalInstanceId;
use crate::repeat::lemma_assoc;

verus! {

broadcast use
    crate::bytes::group_codec,
    crate::math::lemma_vector_roundtrip,
    crate::math::lemma_quat_roundtrip,
    crate::repeat::lemma_skip_skip,
;

/// A work site. Only the raw payload is read: the typed parts stay at their defaults.
#[derive(Debug, PartialEq, Eq)]
pub struct PalWork {
    pub work_type: String,
    pub base_data: Option<PalWorkBase>,
    pub assign_data: Option<PalWorkAssign>,
    pub transform: PalWorkTransform,
    pub work_specific_data: PalWorkTypeSpecificData,
}

/// Common data of a work site.
#[derive(Debug, PartialEq, Eq)]
pub struct PalWorkBase {
    pub id: Guid,
    pub workable_bounds: PalWorkableBounds,
    pub base_camp_id_belong_to: Guid,
    pub owner_map_object_model_id: Guid,
    pub owner_map_object_concrete_model_id: Guid,
    pub current_state: u8,
    pub assign_locations: Vec<PalAssignLocation>,
    pub behaviour_type: u8,
    pub assign_define_data_id: String,
    pub override_work_type: u8,
    pub assignable_fixed_type: u8,
    pub assignable_otomo: bool,
    pub can_trigger_worker_event: bool,
    pub can_steal_assign: bool,
}

/// A worker assigned to a work site.
#[derive(Debug, PartialEq, Eq)]
pub struct PalWorkAssign {
    pub handle_id: Guid,
    pub location_index: i32,
    pub assign_type: u8,
    pub assigned_individual_id: PalInstanceId,
    pub state: u8,
    pub fixed: u32,
    pub target_map_object_model_id: Option<Guid>,
}

/// The region a work site covers.
#[derive(Clone, Copy, Debug, PartialEq, Eq)]
pub struct PalWorkableBounds {
    pub location: Vector,
    pub rotation: Quat,
    pub box_sphere_bounds: PalBoxSphereBounds,
}

/// A box with a bounding sphere; `sphere_radius` is the bit pattern of an IEEE-754 double.
#[derive(Clone, Copy, Debug, PartialEq, Eq)]
pub struct PalBoxSphereBounds {
    pub origin: Vector,
    pub box_extent: Vector,
    pub sphere_radius: u64,
}

/// A place where a worker stands and the direction it faces.
#[derive(Clone, Copy, Debug, PartialEq, Eq)]
pub struct PalAssignLocation {
    pub location: Vector,
    pub facing_direction: Vector,
}

/// How a work site is placed.
#[derive(Clone, Copy, Debug, PartialEq, Eq)]
pub struct PalWorkTransform {
    pub transform_type: u8,
    pub map_object_instance_id: Option<Guid>,
    pub trailing_bytes: Option<[u8; 8]>,
}

/// Data particular to the kind of work. Singles and doubles are kept as bit patterns.
#[derive(Debug, PartialEq, Eq)]
pub enum PalWorkTypeSpecificData {
    Unknown { data: Vec<u8> },
    Defense { leading_bytes: [u8; 4], defense_combat_type: u8, trailing_bytes: [u8; 4] },
    Progress {
        required_work_amount: u32,
        current_work_amount: u32,
        work_exp: i32,
        work_exp_calc_type: u8,
        auto_work_self_amount_by_sec: u32,
        progress_time_since_last_tick: u32,
        tick_process_min_interval: u32,
    },
    ReviveCharacter { target_individual_id: PalInstanceId },
    SimpleWork { required_work_amount: u32 },
}

/// The payload that a work site writes: the raw data of an unparsed site, else nothing.
pub open spec fn ser_work(w: &PalWork) -> Seq<u8> {
    match &w.work_specific_data {
        PalWorkTypeSpecificData::Unknown { data } => data@,
        _ => Seq::empty(),
    }
}

/// Parse of workable bounds: location, rotation, box-sphere bounds (112 bytes).
pub open spec fn parse_workable_bounds(s: Seq<u8>) -> Option<(PalWorkableBounds, int)> {
    match parse_vector(s) {
        None => None,
        Some((l, _)) => match parse_quat(s.skip(24)) {
            None => None,
            Some((q, _)) => match parse_box_sphere_bounds(s.skip(24).skip(32)) {
                None => None,
                Some((b, _)) => Some((PalWorkableBounds { location: l, rotation: q, box_sphere_bounds: b }, 112)),
            },
        },
    }
}

/// Encoding of workable bounds.
pub open spec fn ser_workable_bounds(v: PalWorkableBounds) -> Seq<u8> {
    ser_vector(v.location) + ser_quat(v.rotation) + ser_box_sphere_bounds(v.box_sphere_bounds)
}

/// Parse of box-sphere bounds: origin, extent, radius (56 bytes).
pub open spec fn parse_box_sphere_bounds(s: Seq<u8>) -> Option<(PalBoxSphereBounds, int)> {
    match parse_vector(s) {
        None => None,
        Some((o, _)) => match parse_vector(s.skip(24)) {
            None => None,
            Some((e, _)) => match parse_u64(s.skip(24).skip(24)) {
                None => None,
                Some((r, _)) => Some((PalBoxSphereBounds { origin: o, box_extent: e, sphere_radius: r }, 56)),
            },
        },
    }
}

/// Encoding of box-sphere bounds.
pub open spec fn ser_box_sphere_bounds(v: PalBoxSphereBounds) -> Seq<u8> {
    ser_vector(v.origin) + ser_vector(v.box_extent) + le_u64(v.sphere_radius)
}

/// Parse of an assign location: two vectors (48 bytes).
pub open spec fn parse_assign_location(s: Seq<u8>) -> Option<(PalAssignLocation, int)> {
    match parse_vector(s) {
        None => None,
        Some((l, _)) => match parse_vector(s.skip(24)) {
            None => None,
            Some((f, _)) => Some((PalAssignLocation { location: l, facing_direction: f }, 48)),
        },
    }
}

/// Encoding of an assign location.
pub open spec fn ser_assign_location(v: PalAssignLocation) -> Seq<u8> {
    ser_vector(v.location) + ser_vector(v.facing_direction)
}

/// The fields that reading gives a work site besides its raw data: type
/// `"Unknown"`, no base or assign data, a zero transform type with no
/// instance id and no trailing bytes.
pub open spec fn work_read_defaults(w: PalWork) -> bool {
    &&& w.work_type@ == "Unknown"@
    &&& w.base_data is None
    &&& w.assign_data is None
    &&& w.transform == (PalWorkTransform { transform_type: 0, map_object_instance_id: None, trailing_bytes: None })
}

impl PalWork {
    /// Reads a work site: all remaining bytes become its raw data, and the other
    /// fields take their defaults (type `"Unknown"`, no base or assign data,
    /// a zero transform type).
    pub fn read(r: &mut Reader) -> (res: Result<Self, Error>)
        requires
            old(r).valid(),
        ensures
            final(r).valid(),
            final(r).data() == old(r).data(),
            final(r).rest().len() == 0,
            res matches Ok(w) && (work_read_defaults(w)
                && (w.work_specific_data matches PalWorkTypeSpecificData::Unknown { data } && data@ == old(r).rest())),
    {
        let data = r.read_to_end();
        Ok(PalWork {
            work_type: String::from_str("Unknown"),
            base_data: None,
            assign_data: None,
            transform: PalWorkTransform { transform_type: 0, map_object_instance_id: None, trailing_bytes: None },
            work_specific_data: PalWorkTypeSpecificData::Unknown { data },
        })
    }

    /// Writes a work site: the raw data of an unparsed site, nothing otherwise.
    pub fn write(&self, out: &mut Vec<u8>)
        ensures
            final(out)@ == old(out)@ + ser_work(self),
    {
        match &self.work_specific_data {
            PalWorkTypeSpecificData::Unknown { data } => write_all(out, data.as_slice()),
            _ => {
                assert(out@ =~= old(out)@ + ser_work(self));
            },
        }
    }
}

impl PalWorkableBounds {
    /// Reads workable bounds.
    pub fn read(r: &mut Reader) -> (res: Result<Self, Error>)
        requires
            old(r).valid(),
        ensures
            final(r).valid(),
            final(r).data() == old(r).data(),
            match parse_workable_bounds(old(r).rest()) {
                Some((v, n)) => res == Ok::<Self, Error>(v) && final(r).position() == old(r).position() + n
                    && final(r).rest() == old(r).rest().skip(n),
                None => res == Err::<Self, Error>(Error::UnexpectedEof),
            },
    {
        let location = Vector::read(r)?;
        let rotation = Quat::read(r)?;
        let box_sphere_bounds = PalBoxSphereBounds::read(r)?;
        Ok(PalWorkableBounds { location, rotation, box_sphere_bounds })
    }

    /// Writes workable bounds.
    pub fn write(&self, out: &mut Vec<u8>)
        ensures
            final(out)@ == old(out)@ + ser_workable_bounds(*self),
    {
        self.location.write(out);
        self.rotation.write(out);
        self.box_sphere_bounds.write(out);
        assert(out@ =~= old(out)@ + ser_workable_bounds(*self));
    }
}

impl PalBoxSphereBounds {
    /// Reads box-sphere bounds.
    pub fn read(r: &mut Reader) -> (res: Result<Self, Error>)
        requires
            old(r).valid(),
        ensures
            final(r).valid(),
            final(r).data() == old(r).data(),
            match parse_box_sphere_bounds(old(r).rest()) {
                Some((v, n)) => res == Ok::<Self, Error>(v) && final(r).position() == old(r).position() + n
                    && final(r).rest() == old(r).rest().skip(n),
                None => res == Err::<Self, Error>(Error::UnexpectedEof),
            },
    {
        let origin = Vector::read(r)?;
        let box_extent = Vector::read(r)?;
        let sphere_radius = r.read_u64()?;
        Ok(PalBoxSphereBounds { origin, box_extent, sphere_radius })
    }

    /// Writes box-sphere bounds.
    pub fn write(&self, out: &mut Vec<u8>)
        ensures
            final(out)@ == old(out)@ + ser_box_sphere_bounds(*self),
    {
        self.origin.write(out);
        self.box_extent.write(out);
        write_u64(out, self.sphere_radius);
        assert(out@ =~= old(out)@ + ser_box_sphere_bounds(*self));
    }
}

impl PalAssignLocation {
    /// Reads an assign location.
    pub fn read(r: &mut Reader) -> (res: Result<Self, Error>)
        requires
            old(r).valid(),
        ensures
            final(r).valid(),
            final(r).data() == old(r).data(),
            match parse_assign_location(old(r).rest()) {
                Some((v, n)) => res == Ok::<Self, Error>(v) && final(r).position() == old(r).position() + n
                    && final(r).rest() == old(r).rest().skip(n),
                None => res == Err::<Self, Error>(Error::UnexpectedEof),
            },
    {
        let location = Vector::read(r)?;
        let facing_direction = Vector::read(r)?;
        Ok(PalAssignLocation { location, facing_direction })
    }

    /// Writes an assign location.
    pub fn write(&self, out: &mut Vec<u8>)
        ensures
            final(out)@ == old(out)@ + ser_assign_location(*self),
    {
        self.location.write(out);
        self.facing_direction.write(out);
        assert(out@ =~= old(out)@ + ser_assign_location(*self));
    }
}

/// Written box-sphere bounds read back.
pub broadcast proof fn lemma_box_sphere_bounds_roundtrip(v: PalBoxSphereBounds, rest: Seq<u8>)
    ensures
        #[trigger] parse_box_sphere_bounds(ser_box_sphere_bounds(v) + rest) == Some((v, 56int)),
        #[trigger] ser_box_sphere_bounds(v).len() == 56,
{
    lemma_assoc(ser_vector(v.origin) + ser_vector(v.box_extent), le_u64(v.sphere_radius), rest);
    lemma_assoc(ser_vector(v.origin), ser_vector(v.box_extent), le_u64(v.sphere_radius) + rest);
}

/// Written workable bounds read back.
pub proof fn lemma_workable_bounds_roundtrip(v: PalWorkableBounds, rest: Seq<u8>)
    ensures
        parse_workable_bounds(ser_workable_bounds(v) + rest) == Some((v, 112int)),
{
    broadcast use lemma_box_sphere_bounds_roundtrip;
    lemma_assoc(ser_vector(v.location) + ser_quat(v.rotation), ser_box_sphere_bounds(v.box_sphere_bounds), rest);
    lemma_assoc(ser_vector(v.location), ser_quat(v.rotation), ser_box_sphere_bounds(v.box_sphere_bounds) + rest);
}

/// A written assign location reads back.
pub proof fn lemma_assign_location_roundtrip(v: PalAssignLocation, rest: Seq<u8>)
    ensures
        parse_assign_location(ser_assign_location(v) + rest) == Some((v, 48int)),
{
    lemma_assoc(ser_vector(v.location), ser_vector(v.facing_direction), rest);
}

/// A work site read from bytes writes those same bytes back.
pub proof fn lemma_work_bytes_roundtrip(w: &PalWork, data: Seq<u8>)
    requires
        w.work_specific_data matches PalWorkTypeSpecificData::Unknown { data: d } && d@ == data,
    ensures
        ser_work(w) == data,
{
}

/// Box-sphere bounds against their bytes: the origin (0..24), the box
/// extent (24..48) and the sphere radius (48..56).
pub proof fn lemma_box_sphere_bounds_layout(s: Seq<u8>)
    requires
        parse_box_sphere_bounds(s) is Some,
    ensures
        ser_vector((parse_box_sphere_bounds(s)->0).0.origin) == s.subrange(0, 24),
        ser_vector((parse_box_sphere_bounds(s)->0).0.box_extent) == s.subrange(24, 48),
        le_u64((parse_box_sphere_bounds(s)->0).0.sphere_radius) == s.subrange(48, 56),
{
    lemma_vector_layout(s);
    lemma_vector_layout(s.skip(24));
    lemma_u64_at(s, 48);
    assert(s.take(24) =~= s.subrange(0, 24));
    assert(s.skip(24).take(24) =~= s.subrange(24, 48));
    assert(s.skip(24).skip(24) =~= s.skip(48));
}

/// Workable bounds against their bytes: the location (0..24), the rotation
/// (24..56) and the box-sphere bounds (56..112).
pub proof fn lemma_workable_bounds_layout(s: Seq<u8>)
    requires
        parse_workable_bounds(s) is Some,
    ensures
        ser_vector((parse_workable_bounds(s)->0).0.location) == s.subrange(0, 24),
        ser_quat((parse_workable_bounds(s)->0).0.rotation) == s.subrange(24, 56),
        (parse_workable_bounds(s)->0).0.box_sphere_bounds == (parse_box_sphere_bounds(s.skip(56))->0).0,
{
    lemma_vector_layout(s);
    lemma_quat_layout(s.skip(24));
    assert(s.take(24) =~= s.subrange(0, 24));
    assert(s.skip(24).take(32) =~= s.subrange(24, 56));
    assert(s.skip(24).skip(32) =~= s.skip(56));
}

/// An assign location against its bytes: the location (0..24), then the
/// facing direction (24..48).
pub proof fn lemma_assign_location_layout(s: Seq<u8>)
    requires
        parse_assign_location(s) is Some,
    ensures
        ser_vector((parse_assign_location(s)->0).0.location) == s.subrange(0, 24),
        ser_vector((parse_assign_location(s)->0).0.facing_direction) == s.subrange(24, 48),
{
    lemma_vector_layout(s);
    lemma_vector_layout(s.skip(24));
    assert(s.take(24) =~= s.subrange(0, 24));
    assert(s.skip(24).take(24) =~= s.subrange(24, 48));
}

} // verus!
