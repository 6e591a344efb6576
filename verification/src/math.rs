//! Vectors and quaternions as stored in saves with large world coordinates:
//! each component is an IEEE-754 double, kept here as its 64-bit pattern so
//! that every value, NaNs included, is carried unchanged.
use vstd::prelude::*;
use crate::bytes::{Reader, parse_u64, le_u64, write_u64, lemma_u64_at};
use crate::error::Error;

verus! {

broadcast use crate::bytes::group_codec;

/// A 3-component vector of doubles, as bit patterns.
#[derive(Clone, Copy, Debug, PartialEq, Eq)]
pub struct Vector {
    pub x: u64,
    pub y: u64,
    pub z: u64,
}

/// A quaternion of doubles, as bit patterns.
#[derive(Clone, Copy, Debug, PartialEq, Eq)]
pub struct Quat {
    pub x: u64,
    pub y: u64,
    pub z: u64,
    pub w: u64,
}

/// Parse of a vector: three little-endian doubles.
pub open spec fn parse_vector(s: Seq<u8>) -> Option<(Vector, int)> {
    match parse_u64(s) {
        None => None,
        Some((x, _)) => match parse_u64(s.skip(8)) {
            None => None,
            Some((y, _)) => match parse_u64(s.skip(8).skip(8)) {
                None => None,
                Some((z, _)) => Some((Vector { x, y, z }, 24)),
            },
        },
    }
}

/// Encoding of a vector.
pub open spec fn ser_vector(v: Vector) -> Seq<u8> {
    le_u64(v.x) + le_u64(v.y) + le_u64(v.z)
}

/// Parse of a quaternion: four little-endian doubles.
pub open spec fn parse_quat(s: Seq<u8>) -> Option<(Quat, int)> {
    match parse_u64(s) {
        None => None,
        Some((x, _)) => match parse_u64(s.skip(8)) {
            None => None,
            Some((y, _)) => match parse_u64(s.skip(8).skip(8)) {
                None => None,
                Some((z, _)) => match parse_u64(s.skip(8).skip(8).skip(8)) {
                    None => None,
                    Some((w, _)) => Some((Quat { x, y, z, w }, 32)),
                },
            },
        },
    }
}

/// Encoding of a quaternion.
pub open spec fn ser_quat(q: Quat) -> Seq<u8> {
    le_u64(q.x) + le_u64(q.y) + le_u64(q.z) + le_u64(q.w)
}

impl Vector {
    /// Reads a vector.
    pub fn read(r: &mut Reader) -> (res: Result<Vector, Error>)
        requires
            old(r).valid(),
        ensures
            final(r).valid(),
            final(r).data() == old(r).data(),
            match parse_vector(old(r).rest()) {
                Some((v, n)) => res == Ok::<Vector, Error>(v) && final(r).position() == old(r).position() + n
                    && final(r).rest() == old(r).rest().skip(n),
                None => res == Err::<Vector, Error>(Error::UnexpectedEof),
            },
    {
        let x = r.read_u64()?;
        let y = r.read_u64()?;
        let z = r.read_u64()?;
        Ok(Vector { x, y, z })
    }

    /// Writes a vector.
    pub fn write(&self, out: &mut Vec<u8>)
        ensures
            final(out)@ == old(out)@ + ser_vector(*self),
    {
        write_u64(out, self.x);
        write_u64(out, self.y);
        write_u64(out, self.z);
        assert(out@ =~= old(out)@ + ser_vector(*self));
    }
}

impl Quat {
    /// Reads a quaternion.
    pub fn read(r: &mut Reader) -> (res: Result<Quat, Error>)
        requires
            old(r).valid(),
        ensures
            final(r).valid(),
            final(r).data() == old(r).data(),
            match parse_quat(old(r).rest()) {
                Some((v, n)) => res == Ok::<Quat, Error>(v) && final(r).position() == old(r).position() + n
                    && final(r).rest() == old(r).rest().skip(n),
                None => res == Err::<Quat, Error>(Error::UnexpectedEof),
            },
    {
        let x = r.read_u64()?;
        let y = r.read_u64()?;
        let z = r.read_u64()?;
        let w = r.read_u64()?;
        Ok(Quat { x, y, z, w })
    }

    /// Writes a quaternion.
    pub fn write(&self, out: &mut Vec<u8>)
        ensures
            final(out)@ == old(out)@ + ser_quat(*self),
    {
        write_u64(out, self.x);
        write_u64(out, self.y);
        write_u64(out, self.z);
        write_u64(out, self.w);
        assert(out@ =~= old(out)@ + ser_quat(*self));
    }
}

/// A written vector reads back.
pub broadcast proof fn lemma_vector_roundtrip(v: Vector, rest: Seq<u8>)
    ensures
        #[trigger] parse_vector(ser_vector(v) + rest) == Some((v, 24int)),
        #[trigger] ser_vector(v).len() == 24,
{
    let s = ser_vector(v) + rest;
    assert(s =~= le_u64(v.x) + (le_u64(v.y) + (le_u64(v.z) + rest)));
}

/// A written quaternion reads back.
pub broadcast proof fn lemma_quat_roundtrip(q: Quat, rest: Seq<u8>)
    ensures
        #[trigger] parse_quat(ser_quat(q) + rest) == Some((q, 32int)),
        #[trigger] ser_quat(q).len() == 32,
{
    let s = ser_quat(q) + rest;
    assert(s =~= le_u64(q.x) + (le_u64(q.y) + (le_u64(q.z) + (le_u64(q.w) + rest))));
}

/// A vector's components are the doubles at offsets 0, 8 and 16, in the
/// order x, y, z.
pub proof fn lemma_vector_layout(s: Seq<u8>)
    requires
        parse_vector(s) is Some,
    ensures
        le_u64((parse_vector(s)->0).0.x) == s.subrange(0, 8),
        le_u64((parse_vector(s)->0).0.y) == s.subrange(8, 16),
        le_u64((parse_vector(s)->0).0.z) == s.subrange(16, 24),
        ser_vector((parse_vector(s)->0).0) == s.take(24),
{
    lemma_u64_at(s, 0);
    lemma_u64_at(s, 8);
    lemma_u64_at(s, 16);
    assert(s.skip(0) =~= s);
    assert(s.skip(8).skip(8) =~= s.skip(16));
    assert(s.subrange(0, 8) + s.subrange(8, 16) + s.subrange(16, 24) =~= s.take(24));
}

/// A quaternion's components are the doubles at offsets 0, 8, 16 and 24, in
/// the order x, y, z, w.
pub proof fn lemma_quat_layout(s: Seq<u8>)
    requires
        parse_quat(s) is Some,
    ensures
        le_u64((parse_quat(s)->0).0.x) == s.subrange(0, 8),
        le_u64((parse_quat(s)->0).0.y) == s.subrange(8, 16),
        le_u64((parse_quat(s)->0).0.z) == s.subrange(16, 24),
        le_u64((parse_quat(s)->0).0.w) == s.subrange(24, 32),
        ser_quat((parse_quat(s)->0).0) == s.take(32),
{
    lemma_u64_at(s, 0);
    lemma_u64_at(s, 8);
    lemma_u64_at(s, 16);
    lemma_u64_at(s, 24);
    assert(s.skip(0) =~= s);
    assert(s.skip(8).skip(8) =~= s.skip(16));
    assert(s.skip(8).skip(8).skip(8) =~= s.skip(24));
    assert(s.subrange(0, 8) + s.subrange(8, 16) + s.subrange(16, 24) + s.subrange(24, 32) =~= s.take(32));
}

} // verus!
