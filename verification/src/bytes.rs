//! Little-endian primitives over byte slices and byte vectors.
//!
//! Reading goes through [`Reader`], a cursor over a borrowed byte slice;
//! writing appends to a `Vec<u8>`. The integer codecs are those of the
//! `byteorder` crate; their contracts are stated over the little-endian
//! conversions of `vstd::bytes`.
use vstd::prelude::*;
use vstd::bytes::*;
use byteorder::LittleEndian;
use byteorder::ReadBytesExt;
use byteorder::WriteBytesExt;
use crate::error::Error;

verus! {

broadcast use crate::repeat::lemma_skip_skip;

/// Two's-complement reading of a 32-bit pattern.
pub open spec fn i32_from_bits(u: u32) -> i32 {
    if u < 0x8000_0000 { u as i32 } else { (u - 0x1_0000_0000) as i32 }
}

/// Two's-complement 32-bit pattern of a signed value.
pub open spec fn i32_to_bits(v: i32) -> u32 {
    if v >= 0 { v as u32 } else { (v + 0x1_0000_0000) as u32 }
}

/// Two's-complement reading of a 64-bit pattern.
pub open spec fn i64_from_bits(u: u64) -> i64 {
    if u < 0x8000_0000_0000_0000 { u as i64 } else { (u - 0x1_0000_0000_0000_0000) as i64 }
}

/// Two's-complement 64-bit pattern of a signed value.
pub open spec fn i64_to_bits(v: i64) -> u64 {
    if v >= 0 { v as u64 } else { (v + 0x1_0000_0000_0000_0000) as u64 }
}

/// Little-endian encoding of a `u16`.
pub open spec fn le_u16(v: u16) -> Seq<u8> {
    spec_u16_to_le_bytes(v)
}

/// Little-endian encoding of a `u32`.
pub open spec fn le_u32(v: u32) -> Seq<u8> {
    spec_u32_to_le_bytes(v)
}

/// Little-endian encoding of a `u64`.
pub open spec fn le_u64(v: u64) -> Seq<u8> {
    spec_u64_to_le_bytes(v)
}

/// Little-endian two's-complement encoding of an `i32`.
pub open spec fn le_i32(v: i32) -> Seq<u8> {
    spec_u32_to_le_bytes(i32_to_bits(v))
}

/// Little-endian two's-complement encoding of an `i64`.
pub open spec fn le_i64(v: i64) -> Seq<u8> {
    spec_u64_to_le_bytes(i64_to_bits(v))
}

/// The value of a parse result, without the count of bytes consumed.
pub open spec fn parsed_value<T>(p: Option<(T, int)>) -> Option<T> {
    match p {
        Some((v, _)) => Some(v),
        None => None,
    }
}

/// Parse of a little-endian `u16` at the start of `s`: the value and the bytes consumed.
pub open spec fn parse_u16(s: Seq<u8>) -> Option<(u16, int)> {
    if s.len() >= 2 { Some((spec_u16_from_le_bytes(s.take(2)), 2)) } else { None }
}

/// Parse of a little-endian `u32` at the start of `s`.
pub open spec fn parse_u32(s: Seq<u8>) -> Option<(u32, int)> {
    if s.len() >= 4 { Some((spec_u32_from_le_bytes(s.take(4)), 4)) } else { None }
}

/// Parse of a little-endian `u64` at the start of `s`.
pub open spec fn parse_u64(s: Seq<u8>) -> Option<(u64, int)> {
    if s.len() >= 8 { Some((spec_u64_from_le_bytes(s.take(8)), 8)) } else { None }
}

/// Parse of a little-endian `i32` at the start of `s`.
pub open spec fn parse_i32(s: Seq<u8>) -> Option<(i32, int)> {
    if s.len() >= 4 { Some((i32_from_bits(spec_u32_from_le_bytes(s.take(4))), 4)) } else { None }
}

/// Parse of a little-endian `i64` at the start of `s`.
pub open spec fn parse_i64(s: Seq<u8>) -> Option<(i64, int)> {
    if s.len() >= 8 { Some((i64_from_bits(spec_u64_from_le_bytes(s.take(8))), 8)) } else { None }
}

/// Parse of `n` raw bytes at the start of `s`.
pub open spec fn parse_bytes(s: Seq<u8>, n: int) -> Option<(Seq<u8>, int)> {
    if 0 <= n <= s.len() { Some((s.take(n), n)) } else { None }
}

/// Parse of one byte at the start of `s`.
pub open spec fn parse_u8(s: Seq<u8>) -> Option<(u8, int)> {
    if s.len() >= 1 { Some((s[0], 1)) } else { None }
}

/// Parse of a 32-bit boolean: any nonzero value reads as `true`.
pub open spec fn parse_bool32(s: Seq<u8>) -> Option<(bool, int)> {
    match parse_u32(s) {
        Some((v, n)) => Some((v > 0, n)),
        None => None,
    }
}

/// Encoding of a 32-bit boolean: `1` for `true`, `0` for `false`.
pub open spec fn le_bool32(b: bool) -> Seq<u8> {
    le_u32(if b { 1 } else { 0 })
}

/// `byteorder::ReadBytesExt::read_u16::<LittleEndian>` on the bytes from `pos`:
/// the first two bytes in little-endian order, or failure when fewer remain.
#[verifier::external_body]
fn byteorder_read_u16(data: &[u8], pos: usize) -> (r: Option<u16>)
    requires
        pos <= data@.len(),
    ensures
        r == parsed_value(parse_u16(data@.skip(pos as int))),
{
    let mut rest: &[u8] = &data[pos..];
    rest.read_u16::<LittleEndian>().ok()
}

/// `byteorder::ReadBytesExt::read_u32::<LittleEndian>` on the bytes from `pos`.
#[verifier::external_body]
fn byteorder_read_u32(data: &[u8], pos: usize) -> (r: Option<u32>)
    requires
        pos <= data@.len(),
    ensures
        r == parsed_value(parse_u32(data@.skip(pos as int))),
{
    let mut rest: &[u8] = &data[pos..];
    rest.read_u32::<LittleEndian>().ok()
}

/// `byteorder::ReadBytesExt::read_u64::<LittleEndian>` on the bytes from `pos`.
#[verifier::external_body]
fn byteorder_read_u64(data: &[u8], pos: usize) -> (r: Option<u64>)
    requires
        pos <= data@.len(),
    ensures
        r == parsed_value(parse_u64(data@.skip(pos as int))),
{
    let mut rest: &[u8] = &data[pos..];
    rest.read_u64::<LittleEndian>().ok()
}

/// `byteorder::ReadBytesExt::read_i32::<LittleEndian>` on the bytes from `pos`:
/// the `u32` read of the same bytes, taken as two's complement.
#[verifier::external_body]
fn byteorder_read_i32(data: &[u8], pos: usize) -> (r: Option<i32>)
    requires
        pos <= data@.len(),
    ensures
        r == parsed_value(parse_i32(data@.skip(pos as int))),
{
    let mut rest: &[u8] = &data[pos..];
    rest.read_i32::<LittleEndian>().ok()
}

/// `byteorder::ReadBytesExt::read_i64::<LittleEndian>` on the bytes from `pos`.
#[verifier::external_body]
fn byteorder_read_i64(data: &[u8], pos: usize) -> (r: Option<i64>)
    requires
        pos <= data@.len(),
    ensures
        r == parsed_value(parse_i64(data@.skip(pos as int))),
{
    let mut rest: &[u8] = &data[pos..];
    rest.read_i64::<LittleEndian>().ok()
}

/// `byteorder::WriteBytesExt::write_u16::<LittleEndian>` on a `Vec<u8>`, which
/// appends the two little-endian bytes (writing to a vector cannot fail).
#[verifier::external_body]
fn byteorder_write_u16(out: &mut Vec<u8>, v: u16)
    ensures
        final(out)@ == old(out)@ + le_u16(v),
{
    let _ = out.write_u16::<LittleEndian>(v);
}

/// Appends the little-endian bytes of a `u16`.
pub fn write_u16(out: &mut Vec<u8>, v: u16)
    ensures
        final(out)@ == old(out)@ + le_u16(v),
{
    byteorder_write_u16(out, v);
}

/// `byteorder::WriteBytesExt::write_u32::<LittleEndian>` on a `Vec<u8>`.
#[verifier::external_body]
fn byteorder_write_u32(out: &mut Vec<u8>, v: u32)
    ensures
        final(out)@ == old(out)@ + le_u32(v),
{
    let _ = out.write_u32::<LittleEndian>(v);
}

/// Appends the little-endian bytes of a `u32`.
pub fn write_u32(out: &mut Vec<u8>, v: u32)
    ensures
        final(out)@ == old(out)@ + le_u32(v),
{
    byteorder_write_u32(out, v);
}

/// `byteorder::WriteBytesExt::write_u64::<LittleEndian>` on a `Vec<u8>`.
#[verifier::external_body]
fn byteorder_write_u64(out: &mut Vec<u8>, v: u64)
    ensures
        final(out)@ == old(out)@ + le_u64(v),
{
    let _ = out.write_u64::<LittleEndian>(v);
}

/// Appends the little-endian bytes of a `u64`.
pub fn write_u64(out: &mut Vec<u8>, v: u64)
    ensures
        final(out)@ == old(out)@ + le_u64(v),
{
    byteorder_write_u64(out, v);
}

/// `byteorder::WriteBytesExt::write_i32::<LittleEndian>` on a `Vec<u8>`: the
/// two's-complement bit pattern, little-endian.
#[verifier::external_body]
fn byteorder_write_i32(out: &mut Vec<u8>, v: i32)
    ensures
        final(out)@ == old(out)@ + le_i32(v),
{
    let _ = out.write_i32::<LittleEndian>(v);
}

/// Appends the little-endian bytes of a `i32`.
pub fn write_i32(out: &mut Vec<u8>, v: i32)
    ensures
        final(out)@ == old(out)@ + le_i32(v),
{
    byteorder_write_i32(out, v);
}

/// `byteorder::WriteBytesExt::write_i64::<LittleEndian>` on a `Vec<u8>`.
#[verifier::external_body]
fn byteorder_write_i64(out: &mut Vec<u8>, v: i64)
    ensures
        final(out)@ == old(out)@ + le_i64(v),
{
    let _ = out.write_i64::<LittleEndian>(v);
}

/// Appends the little-endian bytes of a `i64`.
pub fn write_i64(out: &mut Vec<u8>, v: i64)
    ensures
        final(out)@ == old(out)@ + le_i64(v),
{
    byteorder_write_i64(out, v);
}

/// Appends one byte.
pub fn write_u8(out: &mut Vec<u8>, v: u8)
    ensures
        final(out)@ == old(out)@ + seq![v],
{
    out.push(v);
    assert(out@ =~= old(out)@ + seq![v]);
}

/// Appends a 32-bit boolean (`1` or `0`).
pub fn write_bool32(out: &mut Vec<u8>, b: bool)
    ensures
        final(out)@ == old(out)@ + le_bool32(b),
{
    write_u32(out, if b { 1 } else { 0 });
}

/// Appends all bytes of `bytes`.
pub fn write_all(out: &mut Vec<u8>, bytes: &[u8])
    ensures
        final(out)@ == old(out)@ + bytes@,
{
    let ghost start = out@;
    let mut i: usize = 0;
    while i < bytes.len()
        invariant
            i <= bytes@.len(),
            out@ == start + bytes@.take(i as int),
        decreases bytes@.len() - i,
    {
        out.push(bytes[i]);
        i = i + 1;
        assert(out@ =~= start + bytes@.take(i as int));
    }
    assert(bytes@.take(i as int) =~= bytes@);
}

/// The first four bytes, read as a `u32` and written again, are unchanged.
pub proof fn lemma_u32_reencode(s: Seq<u8>)
    requires
        s.len() >= 4,
    ensures
        le_u32((parse_u32(s)->0).0) == s.take(4),
{
    lemma_auto_spec_u32_to_from_le_bytes();
}

/// The first four bytes, read as an `i32` and written again, are unchanged.
pub proof fn lemma_i32_reencode(s: Seq<u8>)
    requires
        s.len() >= 4,
    ensures
        le_i32((parse_i32(s)->0).0) == s.take(4),
{
    lemma_auto_spec_u32_to_from_le_bytes();
    let u = spec_u32_from_le_bytes(s.take(4));
    assert(i32_to_bits(i32_from_bits(u)) == u);
}

/// A 32-bit boolean stored as `0` or `1`, read and written again, is unchanged.
pub proof fn lemma_bool32_reencode(s: Seq<u8>)
    requires
        s.len() >= 4,
        (parse_u32(s)->0).0 <= 1,
    ensures
        le_bool32((parse_bool32(s)->0).0) == s.take(4),
{
    lemma_auto_spec_u32_to_from_le_bytes();
}

/// The four bytes at offset `a` hold the `u32` read there.
pub proof fn lemma_u32_at(s: Seq<u8>, a: int)
    requires
        0 <= a,
        a + 4 <= s.len(),
    ensures
        parse_u32(s.skip(a)) is Some,
        le_u32((parse_u32(s.skip(a))->0).0) == s.subrange(a, a + 4),
{
    lemma_u32_reencode(s.skip(a));
    assert(s.skip(a).take(4) =~= s.subrange(a, a + 4));
}

/// The four bytes at offset `a` hold the `i32` read there.
pub proof fn lemma_i32_at(s: Seq<u8>, a: int)
    requires
        0 <= a,
        a + 4 <= s.len(),
    ensures
        parse_i32(s.skip(a)) is Some,
        le_i32((parse_i32(s.skip(a))->0).0) == s.subrange(a, a + 4),
{
    lemma_i32_reencode(s.skip(a));
    assert(s.skip(a).take(4) =~= s.subrange(a, a + 4));
}

/// The eight bytes at offset `a` hold the `u64` read there.
pub proof fn lemma_u64_at(s: Seq<u8>, a: int)
    requires
        0 <= a,
        a + 8 <= s.len(),
    ensures
        parse_u64(s.skip(a)) is Some,
        le_u64((parse_u64(s.skip(a))->0).0) == s.subrange(a, a + 8),
{
    lemma_auto_spec_u64_to_from_le_bytes();
    assert(s.skip(a).take(8) =~= s.subrange(a, a + 8));
}

/// The eight bytes at offset `a` hold the `i64` read there.
pub proof fn lemma_i64_at(s: Seq<u8>, a: int)
    requires
        0 <= a,
        a + 8 <= s.len(),
    ensures
        parse_i64(s.skip(a)) is Some,
        le_i64((parse_i64(s.skip(a))->0).0) == s.subrange(a, a + 8),
{
    lemma_auto_spec_u64_to_from_le_bytes();
    let u = spec_u64_from_le_bytes(s.skip(a).take(8));
    assert(i64_to_bits(i64_from_bits(u)) == u);
    assert(s.skip(a).take(8) =~= s.subrange(a, a + 8));
}

/// A range of the bytes after offset `b` is the range shifted by `b`.
pub proof fn lemma_subrange_shift(s: Seq<u8>, b: int, i: int, j: int)
    requires
        0 <= b,
        0 <= i <= j,
        b + j <= s.len(),
    ensures
        s.skip(b).subrange(i, j) == s.subrange(b + i, b + j),
{
    assert(s.skip(b).subrange(i, j) =~= s.subrange(b + i, b + j));
}

/// Taking `a` bytes and then `b` more is taking `a + b`.
pub proof fn lemma_take_split(s: Seq<u8>, a: int, b: int)
    requires
        0 <= a,
        0 <= b,
        a + b <= s.len(),
    ensures
        s.take(a) + s.skip(a).take(b) == s.take(a + b),
{
    assert(s.take(a) + s.skip(a).take(b) =~= s.take(a + b));
}

/// Length of a little-endian `u16`.
pub broadcast proof fn lemma_le_u16_len(v: u16)
    ensures
        #[trigger] le_u16(v).len() == 2,
{
    lemma_auto_spec_u16_to_from_le_bytes();
}

/// Length of a little-endian `u32`.
pub broadcast proof fn lemma_le_u32_len(v: u32)
    ensures
        #[trigger] le_u32(v).len() == 4,
{
    lemma_auto_spec_u32_to_from_le_bytes();
}

/// Length of a little-endian `u64`.
pub broadcast proof fn lemma_le_u64_len(v: u64)
    ensures
        #[trigger] le_u64(v).len() == 8,
{
    lemma_auto_spec_u64_to_from_le_bytes();
}

/// Length of a little-endian `i32`.
pub broadcast proof fn lemma_le_i32_len(v: i32)
    ensures
        #[trigger] le_i32(v).len() == 4,
{
    lemma_auto_spec_u32_to_from_le_bytes();
}

/// Length of a little-endian `i64`.
pub broadcast proof fn lemma_le_i64_len(v: i64)
    ensures
        #[trigger] le_i64(v).len() == 8,
{
    lemma_auto_spec_u64_to_from_le_bytes();
}

/// Length of a 32-bit boolean.
pub broadcast proof fn lemma_le_bool32_len(b: bool)
    ensures
        #[trigger] le_bool32(b).len() == 4,
{
    lemma_auto_spec_u32_to_from_le_bytes();
}

/// A written `u16` reads back.
pub broadcast proof fn lemma_u16_roundtrip(v: u16, rest: Seq<u8>)
    ensures
        #[trigger] parse_u16(le_u16(v) + rest) == Some((v, 2int)),
{
    lemma_auto_spec_u16_to_from_le_bytes();
    assert((le_u16(v) + rest).take(2) =~= le_u16(v));
}

/// A written `u32` reads back.
pub broadcast proof fn lemma_u32_roundtrip(v: u32, rest: Seq<u8>)
    ensures
        #[trigger] parse_u32(le_u32(v) + rest) == Some((v, 4int)),
{
    lemma_auto_spec_u32_to_from_le_bytes();
    assert((le_u32(v) + rest).take(4) =~= le_u32(v));
}

/// A written `u64` reads back.
pub broadcast proof fn lemma_u64_roundtrip(v: u64, rest: Seq<u8>)
    ensures
        #[trigger] parse_u64(le_u64(v) + rest) == Some((v, 8int)),
{
    lemma_auto_spec_u64_to_from_le_bytes();
    assert((le_u64(v) + rest).take(8) =~= le_u64(v));
}

/// A written `i32` reads back.
pub broadcast proof fn lemma_i32_roundtrip(v: i32, rest: Seq<u8>)
    ensures
        #[trigger] parse_i32(le_i32(v) + rest) == Some((v, 4int)),
{
    lemma_auto_spec_u32_to_from_le_bytes();
    assert((le_i32(v) + rest).take(4) =~= le_i32(v));
}

/// A written `i64` reads back.
pub broadcast proof fn lemma_i64_roundtrip(v: i64, rest: Seq<u8>)
    ensures
        #[trigger] parse_i64(le_i64(v) + rest) == Some((v, 8int)),
{
    lemma_auto_spec_u64_to_from_le_bytes();
    assert((le_i64(v) + rest).take(8) =~= le_i64(v));
}

/// A written 32-bit boolean reads back.
pub broadcast proof fn lemma_bool32_roundtrip(b: bool, rest: Seq<u8>)
    ensures
        #[trigger] parse_bool32(le_bool32(b) + rest) == Some((b, 4int)),
{
    lemma_u32_roundtrip(if b { 1u32 } else { 0u32 }, rest);
}

/// A written byte reads back.
pub broadcast proof fn lemma_u8_roundtrip(v: u8, rest: Seq<u8>)
    ensures
        #[trigger] parse_u8(seq![v] + rest) == Some((v, 1int)),
{
}

/// Raw bytes read back.
pub broadcast proof fn lemma_bytes_roundtrip(b: Seq<u8>, rest: Seq<u8>)
    ensures
        #[trigger] parse_bytes(b + rest, b.len() as int) == Some((b, b.len() as int)),
{
    assert((b + rest).take(b.len() as int) =~= b);
}

/// The facts about the primitive codecs that proofs of compound ones use.
pub broadcast group group_codec {
    lemma_le_u16_len,
    lemma_le_u32_len,
    lemma_le_u64_len,
    lemma_le_i32_len,
    lemma_le_i64_len,
    lemma_le_bool32_len,
    lemma_u16_roundtrip,
    lemma_u32_roundtrip,
    lemma_u64_roundtrip,
    lemma_i32_roundtrip,
    lemma_i64_roundtrip,
    lemma_bool32_roundtrip,
    lemma_u8_roundtrip,
    lemma_bytes_roundtrip,
    vstd::seq_lib::lemma_seq_append_take_skip,
}

/// A read cursor over a borrowed byte slice.
pub struct Reader<'a> {
    data: &'a [u8],
    pos: usize,
}

impl<'a> Reader<'a> {
    /// All bytes the reader runs over.
    pub closed spec fn data(&self) -> Seq<u8> {
        self.data@
    }

    /// The current offset into [`Self::data`].
    pub closed spec fn position(&self) -> int {
        self.pos as int
    }

    /// The offset lies within the data.
    pub open spec fn valid(&self) -> bool {
        0 <= self.position() <= self.data().len()
    }

    /// The bytes not yet read.
    pub open spec fn rest(&self) -> Seq<u8> {
        self.data().skip(self.position())
    }

    /// A reader at the start of `data`.
    pub fn new(data: &'a [u8]) -> (r: Self)
        ensures
            r.valid(),
            r.data() == data@,
            r.position() == 0,
    {
        Reader { data, pos: 0 }
    }

    /// The current offset.
    pub fn stream_position(&self) -> (p: usize)
        ensures
            p == self.position(),
    {
        self.pos
    }

    /// The total number of bytes.
    pub fn data_len(&self) -> (n: usize)
        ensures
            n == self.data().len(),
    {
        self.data.len()
    }

    /// Moves to offset `p`.
    pub fn seek(&mut self, p: usize)
        requires
            p <= old(self).data().len(),
        ensures
            final(self).valid(),
            final(self).data() == old(self).data(),
            final(self).position() == p,
    {
        self.pos = p;
    }

    /// The number of bytes not yet read.
    pub fn remaining(&self) -> (n: usize)
        requires
            self.valid(),
        ensures
            n == self.rest().len(),
    {
        self.data.len() - self.pos
    }

    /// Reads one byte.
    pub fn read_u8(&mut self) -> (r: Result<u8, Error>)
        requires
            old(self).valid(),
        ensures
            final(self).valid(),
            final(self).data() == old(self).data(),
            match parse_u8(old(self).rest()) {
                Some((v, n)) => r == Ok::<u8, Error>(v) && final(self).position() == old(self).position() + n
                    && final(self).rest() == old(self).rest().skip(n),
                None => r == Err::<u8, Error>(Error::UnexpectedEof),
            },
    {
        if self.pos < self.data.len() {
            let v = self.data[self.pos];
            self.pos = self.pos + 1;
            Ok(v)
        } else {
            Err(Error::UnexpectedEof)
        }
    }

    /// Reads a little-endian `u16`.
    pub fn read_u16(&mut self) -> (r: Result<u16, Error>)
        requires
            old(self).valid(),
        ensures
            final(self).valid(),
            final(self).data() == old(self).data(),
            match parse_u16(old(self).rest()) {
                Some((v, n)) => r == Ok::<u16, Error>(v) && final(self).position() == old(self).position() + n
                    && final(self).rest() == old(self).rest().skip(n),
                None => r == Err::<u16, Error>(Error::UnexpectedEof),
            },
    {
        assert(self.data@.skip(self.pos as int).len() == self.data@.len() - self.pos);
        assert(self.data@.len() == self.data.len());
        match byteorder_read_u16(self.data, self.pos) {
            Some(v) => {
                self.pos = self.pos + 2;
                Ok(v)
            },
            None => Err(Error::UnexpectedEof),
        }
    }

    /// Reads a little-endian `u32`.
    pub fn read_u32(&mut self) -> (r: Result<u32, Error>)
        requires
            old(self).valid(),
        ensures
            final(self).valid(),
            final(self).data() == old(self).data(),
            match parse_u32(old(self).rest()) {
                Some((v, n)) => r == Ok::<u32, Error>(v) && final(self).position() == old(self).position() + n
                    && final(self).rest() == old(self).rest().skip(n),
                None => r == Err::<u32, Error>(Error::UnexpectedEof),
            },
    {
        assert(self.data@.skip(self.pos as int).len() == self.data@.len() - self.pos);
        assert(self.data@.len() == self.data.len());
        match byteorder_read_u32(self.data, self.pos) {
            Some(v) => {
                self.pos = self.pos + 4;
                Ok(v)
            },
            None => Err(Error::UnexpectedEof),
        }
    }

    /// Reads a little-endian `u64`.
    pub fn read_u64(&mut self) -> (r: Result<u64, Error>)
        requires
            old(self).valid(),
        ensures
            final(self).valid(),
            final(self).data() == old(self).data(),
            match parse_u64(old(self).rest()) {
                Some((v, n)) => r == Ok::<u64, Error>(v) && final(self).position() == old(self).position() + n
                    && final(self).rest() == old(self).rest().skip(n),
                None => r == Err::<u64, Error>(Error::UnexpectedEof),
            },
    {
        assert(self.data@.skip(self.pos as int).len() == self.data@.len() - self.pos);
        assert(self.data@.len() == self.data.len());
        match byteorder_read_u64(self.data, self.pos) {
            Some(v) => {
                self.pos = self.pos + 8;
                Ok(v)
            },
            None => Err(Error::UnexpectedEof),
        }
    }

    /// Reads a little-endian `i32`.
    pub fn read_i32(&mut self) -> (r: Result<i32, Error>)
        requires
            old(self).valid(),
        ensures
            final(self).valid(),
            final(self).data() == old(self).data(),
            match parse_i32(old(self).rest()) {
                Some((v, n)) => r == Ok::<i32, Error>(v) && final(self).position() == old(self).position() + n
                    && final(self).rest() == old(self).rest().skip(n),
                None => r == Err::<i32, Error>(Error::UnexpectedEof),
            },
    {
        assert(self.data@.skip(self.pos as int).len() == self.data@.len() - self.pos);
        assert(self.data@.len() == self.data.len());
        match byteorder_read_i32(self.data, self.pos) {
            Some(v) => {
                self.pos = self.pos + 4;
                Ok(v)
            },
            None => Err(Error::UnexpectedEof),
        }
    }

    /// Reads a little-endian `i64`.
    pub fn read_i64(&mut self) -> (r: Result<i64, Error>)
        requires
            old(self).valid(),
        ensures
            final(self).valid(),
            final(self).data() == old(self).data(),
            match parse_i64(old(self).rest()) {
                Some((v, n)) => r == Ok::<i64, Error>(v) && final(self).position() == old(self).position() + n
                    && final(self).rest() == old(self).rest().skip(n),
                None => r == Err::<i64, Error>(Error::UnexpectedEof),
            },
    {
        assert(self.data@.skip(self.pos as int).len() == self.data@.len() - self.pos);
        assert(self.data@.len() == self.data.len());
        match byteorder_read_i64(self.data, self.pos) {
            Some(v) => {
                self.pos = self.pos + 8;
                Ok(v)
            },
            None => Err(Error::UnexpectedEof),
        }
    }

    /// Reads a 32-bit boolean.
    pub fn read_bool32(&mut self) -> (r: Result<bool, Error>)
        requires
            old(self).valid(),
        ensures
            final(self).valid(),
            final(self).data() == old(self).data(),
            match parse_bool32(old(self).rest()) {
                Some((v, n)) => r == Ok::<bool, Error>(v) && final(self).position() == old(self).position() + n
                    && final(self).rest() == old(self).rest().skip(n),
                None => r == Err::<bool, Error>(Error::UnexpectedEof),
            },
    {
        let v = self.read_u32()?;
        Ok(v > 0)
    }

    /// Reads exactly `n` bytes.
    pub fn read_bytes(&mut self, n: usize) -> (r: Result<Vec<u8>, Error>)
        requires
            old(self).valid(),
        ensures
            final(self).valid(),
            final(self).data() == old(self).data(),
            n <= old(self).rest().len() ==> (r matches Ok(v) && v@ == old(self).rest().take(n as int)
                && final(self).position() == old(self).position() + n
                && final(self).rest() == old(self).rest().skip(n as int)),
            n > old(self).rest().len() ==> r == Err::<Vec<u8>, Error>(Error::UnexpectedEof),
    {
        if n > self.data.len() - self.pos {
            return Err(Error::UnexpectedEof);
        }
        let ghost s = self.data@.skip(self.pos as int);
        let mut v: Vec<u8> = Vec::new();
        let mut i: usize = 0;
        while i < n
            invariant
                i <= n,
                self.pos + n <= self.data@.len(),
                self.data@.len() == self.data.len(),
                s == self.data@.skip(self.pos as int),
                v@ == s.take(i as int),
            decreases n - i,
        {
            v.push(self.data[self.pos + i]);
            i = i + 1;
            assert(v@ =~= s.take(i as int));
        }
        self.pos = self.pos + n;
        Ok(v)
    }

    /// Reads exactly `N` bytes into an array.
    pub fn read_array<const N: usize>(&mut self) -> (r: Result<[u8; N], Error>)
        requires
            old(self).valid(),
        ensures
            final(self).valid(),
            final(self).data() == old(self).data(),
            match parse_bytes(old(self).rest(), N as int) {
                Some((v, n)) => r matches Ok(a) && a@ == v && final(self).position() == old(self).position() + n
                    && final(self).rest() == old(self).rest().skip(n),
                None => r == Err::<[u8; N], Error>(Error::UnexpectedEof),
            },
    {
        let v = self.read_bytes(N)?;
        let mut a: [u8; N] = vstd::array::array_fill_for_copy_types::<u8, N>(0u8);
        let mut i: usize = 0;
        while i < N
            invariant
                i <= N,
                v@.len() == N,
                forall|j: int| 0 <= j < i ==> a@[j] == v@[j],
            decreases N - i,
        {
            a[i] = v[i];
            i = i + 1;
        }
        assert(a@ =~= v@);
        Ok(a)
    }

    /// Reads every byte that is left.
    pub fn read_to_end(&mut self) -> (r: Vec<u8>)
        requires
            old(self).valid(),
        ensures
            final(self).valid(),
            final(self).data() == old(self).data(),
            r@ == old(self).rest(),
            final(self).position() == old(self).data().len(),
    {
        let n = self.data.len() - self.pos;
        match self.read_bytes(n) {
            Ok(v) => {
                assert(old(self).rest().take(n as int) =~= old(self).rest());
                v
            },
            Err(_) => Vec::new(),
        }
    }
}

} // verus!
