//! Unreal Engine `FString` encoding.
//!
//! An `FString` is a little-endian `i32` length followed by the characters.
//! A positive length counts bytes of a narrow string, a negative length
//! counts UTF-16 code units of a wide string; both include a terminating
//! NUL. A length of zero is the empty string. Reading stops at the first NUL;
//! narrow strings that are not valid UTF-8 are decoded lossily. Writing uses
//! the narrow form for ASCII text and the wide form otherwise.
use vstd::prelude::*;
use vstd::utf8::*;
use vstd::bytes::*;
use crate::bytes::{le_u16, le_u32, le_i32, parse_i32, parse_u16, i32_from_bits, i32_to_bits, write_u32, write_i32, write_u16, write_u8, write_all};
use crate::error::Error;

verus! {

broadcast use vstd::utf8::group_utf8_lib, crate::repeat::lemma_skip_skip;

/// Index of the first element equal to `zero`, or the length when there is none.
pub open spec fn first_zero<T>(s: Seq<T>, zero: T) -> int
    decreases s.len(),
{
    if s.len() == 0 {
        0
    } else if s[0] == zero {
        0
    } else {
        1 + first_zero(s.drop_first(), zero)
    }
}

/// `first_zero` is the index `k` before which no element is `zero` and at which
/// either the sequence ends or `zero` stands.
pub proof fn lemma_first_zero<T>(s: Seq<T>, zero: T, k: int)
    requires
        0 <= k <= s.len(),
        forall|j: int| 0 <= j < k ==> s[j] != zero,
        k == s.len() || s[k] == zero,
    ensures
        first_zero(s, zero) == k,
    decreases s.len(),
{
    if s.len() > 0 && k > 0 {
        assert forall|j: int| 0 <= j < k - 1 implies s.drop_first()[j] != zero by {
            assert(s.drop_first()[j] == s[j + 1]);
        }
        lemma_first_zero(s.drop_first(), zero, k - 1);
    }
}

/// UTF-16 code units of one character.
pub open spec fn utf16_encode_char(c: char) -> Seq<u16> {
    let v = (c as u32) as int;
    if v < 0x10000 {
        seq![v as u16]
    } else {
        let w = v - 0x10000;
        seq![(0xD800 + w / 1024) as u16, (0xDC00 + w % 1024) as u16]
    }
}

/// UTF-16 encoding of a character sequence.
pub open spec fn utf16_encode(cs: Seq<char>) -> Seq<u16>
    decreases cs.len(),
{
    if cs.len() == 0 {
        seq![]
    } else {
        utf16_encode_char(cs[0]) + utf16_encode(cs.drop_first())
    }
}

/// UTF-16 decoding: `None` when the units hold an unpaired surrogate.
pub open spec fn utf16_decode(u: Seq<u16>) -> Option<Seq<char>>
    decreases u.len(),
{
    if u.len() == 0 {
        Some(seq![])
    } else if u[0] < 0xD800 || u[0] >= 0xE000 {
        match utf16_decode(u.drop_first()) {
            Some(rest) => Some(seq![(u[0] as u32) as char] + rest),
            None => None,
        }
    } else if u[0] < 0xDC00 && u.len() >= 2 && 0xDC00 <= u[1] && u[1] < 0xE000 {
        let v = 0x10000 + (u[0] - 0xD800) * 1024 + (u[1] - 0xDC00);
        match utf16_decode(u.skip(2)) {
            Some(rest) => Some(seq![(v as u32) as char] + rest),
            None => None,
        }
    } else {
        None
    }
}

/// Code units read from consecutive little-endian byte pairs.
pub open spec fn units_from_le(b: Seq<u8>) -> Seq<u16> {
    Seq::new((b.len() / 2) as nat, |i: int| spec_u16_from_le_bytes(b.subrange(2 * i, 2 * i + 2)))
}

/// Little-endian bytes of a sequence of code units.
pub open spec fn units_to_le(u: Seq<u16>) -> Seq<u8>
    decreases u.len(),
{
    if u.len() == 0 {
        seq![]
    } else {
        units_to_le(u.drop_last()) + le_u16(u.last())
    }
}

/// Decoding of the bytes of a narrow string before its first NUL: UTF-8 when
/// valid, else the lossy decoding.
pub open spec fn narrow_decode(b: Seq<u8>) -> Seq<char> {
    if valid_utf8(b) { decode_utf8(b) } else { utf8_lossy(b) }
}

/// The string that `String::from_utf8_lossy` makes of bytes that are not valid UTF-8.
pub uninterp spec fn utf8_lossy(b: Seq<u8>) -> Seq<char>;

/// Parse of an `FString` at the start of `s`: its characters and the bytes consumed.
pub closed spec fn parse_fstring(s: Seq<u8>) -> Option<(Seq<char>, int)> {
    match parse_i32(s) {
        None => None,
        Some((len, _)) => {
            let body = s.skip(4);
            if len < 0 {
                let n = -(len as int);
                if body.len() < 2 * n {
                    None
                } else {
                    let units = units_from_le(body.take(2 * n));
                    match utf16_decode(units.take(first_zero(units, 0u16))) {
                        Some(cs) => Some((cs, 4 + 2 * n)),
                        None => None,
                    }
                }
            } else {
                if body.len() < len {
                    None
                } else {
                    let raw = body.take(len as int);
                    Some((narrow_decode(raw.take(first_zero(raw, 0u8))), 4 + len))
                }
            }
        }
    }
}

/// Why parsing an `FString` at the start of `s` fails, when it does: wide
/// code units that are not valid UTF-16, or else too few bytes.
pub closed spec fn fstring_error(s: Seq<u8>) -> Error {
    match parse_i32(s) {
        Some((len, _)) => if len < 0 && s.skip(4).len() >= 2 * (-(len as int)) {
            Error::InvalidUtf16
        } else {
            Error::UnexpectedEof
        },
        None => Error::UnexpectedEof,
    }
}

/// Encoding of a string as an `FString`.
pub closed spec fn ser_fstring(cs: Seq<char>) -> Seq<u8> {
    if cs.len() == 0 {
        le_u32(0)
    } else if is_ascii_chars(cs) {
        le_u32((encode_utf8(cs).len() + 1) as u32) + encode_utf8(cs) + seq![0u8]
    } else {
        let u = utf16_encode(cs);
        le_i32((-(u.len() + 1)) as i32) + units_to_le(u) + le_u16(0)
    }
}

/// The bytes at the start of `s` hold an `FString` that writing its
/// characters again gives back unchanged (it has no NUL before its end,
/// decodes without loss, and is in the encoding that writing chooses).
pub open spec fn fstring_canonical(s: Seq<u8>) -> bool {
    parse_fstring(s) matches Some((cs, n)) && ser_fstring(cs) == s.take(n)
}

/// Strings short enough for the length field: every such string can be written.
pub open spec fn fstring_writable(cs: Seq<char>) -> bool {
    cs.len() < 0x3fff_ffff
}

/// Strings that the encoding carries unchanged: writable, and without a NUL
/// character (reading stops at the first one).
pub open spec fn fstring_ok(cs: Seq<char>) -> bool {
    &&& fstring_writable(cs)
    &&& forall|i: int| 0 <= i < cs.len() ==> cs[i] != '\0'
}

/// `String::from_utf8_lossy(b).into_owned()`: for valid UTF-8 the string that the
/// bytes encode, else the lossy decoding, which replaces invalid sequences.
#[verifier::external_body]
fn string_from_utf8_lossy(b: &[u8]) -> (r: String)
    ensures
        valid_utf8(b@) ==> r@ == decode_utf8(b@),
        !valid_utf8(b@) ==> r@ == utf8_lossy(b@),
{
    String::from_utf8_lossy(b).into_owned()
}

/// `String::from_utf16(u).ok()`: the decoded string, or `None` for an unpaired surrogate.
#[verifier::external_body]
fn string_from_utf16(u: &[u16]) -> (r: Option<String>)
    ensures
        match r {
            Some(s) => utf16_decode(u@) == Some(s@),
            None => utf16_decode(u@) is None,
        },
{
    String::from_utf16(u).ok()
}

/// `str::encode_utf16` collected into a vector: the UTF-16 code units of `s`.
#[verifier::external_body]
fn str_encode_utf16(s: &str) -> (r: Vec<u16>)
    ensures
        r@ == utf16_encode(s@),
{
    s.encode_utf16().collect()
}

proof fn lemma_units_from_le_step(b: Seq<u8>, i: int)
    requires
        0 <= i,
        2 * i + 2 <= b.len(),
    ensures
        units_from_le(b.take(2 * i + 2)) == units_from_le(b.take(2 * i)).push(
            spec_u16_from_le_bytes(b.subrange(2 * i, 2 * i + 2)),
        ),
{
    let l = units_from_le(b.take(2 * i + 2));
    let r = units_from_le(b.take(2 * i)).push(spec_u16_from_le_bytes(b.subrange(2 * i, 2 * i + 2)));
    assert forall|j: int| 0 <= j < l.len() implies l[j] == r[j] by {
        assert(b.take(2 * i + 2).subrange(2 * j, 2 * j + 2) =~= b.subrange(2 * j, 2 * j + 2));
        if j < i {
            assert(b.take(2 * i).subrange(2 * j, 2 * j + 2) =~= b.subrange(2 * j, 2 * j + 2));
        }
    }
    assert(l =~= r);
}

/// Index of the first zero in `v`, or its length.
fn find_first_zero_u8(v: &[u8]) -> (k: usize)
    ensures
        k <= v@.len(),
        k == first_zero(v@, 0u8),
{
    let mut k: usize = 0;
    while k < v.len() && v[k] != 0
        invariant
            k <= v@.len(),
            forall|j: int| 0 <= j < k ==> v@[j] != 0u8,
        decreases v@.len() - k,
    {
        k = k + 1;
    }
    proof {
        lemma_first_zero(v@, 0u8, k as int);
    }
    k
}

/// Index of the first zero in `v`, or its length.
fn find_first_zero_u16(v: &[u16]) -> (k: usize)
    ensures
        k <= v@.len(),
        k == first_zero(v@, 0u16),
{
    let mut k: usize = 0;
    while k < v.len() && v[k] != 0
        invariant
            k <= v@.len(),
            forall|j: int| 0 <= j < k ==> v@[j] != 0u16,
        decreases v@.len() - k,
    {
        k = k + 1;
    }
    proof {
        lemma_first_zero(v@, 0u16, k as int);
    }
    k
}

/// Reads an `FString`.
pub fn read_string(r: &mut crate::bytes::Reader) -> (res: Result<String, Error>)
    requires
        old(r).valid(),
    ensures
        final(r).valid(),
        final(r).data() == old(r).data(),
        match parse_fstring(old(r).rest()) {
            Some((cs, n)) => res matches Ok(s) && s@ == cs && final(r).position() == old(r).position() + n
                && final(r).rest() == old(r).rest().skip(n),
            None => res == Err::<String, Error>(fstring_error(old(r).rest())),
        },
{
    let ghost s0 = r.rest();
    let ghost p0 = r.position();
    let len = r.read_i32()?;
    let ghost body = s0.skip(4);
    assert(r.rest() =~= body);
    assert(body =~= r.data().skip(p0 + 4));
    if len < 0 {
        let n: u64 = (0i64 - (len as i64)) as u64;
        let mut units: Vec<u16> = Vec::new();
        let mut i: u64 = 0;
        while i < n
            invariant
                r.valid(),
                r.data() == old(r).data(),
                i <= n,
                n == -(len as int),
                len < 0,
                s0 == old(r).rest(),
                p0 == old(r).position(),
                0 <= p0,
                parse_i32(s0) == Some((len, 4int)),
                body == s0.skip(4),
                body == r.data().skip(p0 + 4),
                2 * i <= body.len(),
                r.rest() == body.skip(2 * i as int),
                r.position() == p0 + 4 + 2 * i,
                units@ == units_from_le(body.take(2 * i as int)),
            decreases n - i,
        {
            let ghost before = r.rest();
            let u = match r.read_u16() {
                Ok(u) => u,
                Err(e) => {
                    return Err(e);
                },
            };
            proof {
                lemma_units_from_le_step(body, i as int);
                assert(before.take(2) =~= body.subrange(2 * i as int, 2 * i + 2));
                assert(parse_u16(before) is Some);
                assert(r.position() == p0 + 4 + 2 * i + 2);
                assert(r.rest() =~= body.skip(2 * i + 2));
            }
            units.push(u);
            i = i + 1;
        }
        let k = find_first_zero_u16(units.as_slice());
        let prefix = vstd::slice::slice_subrange(units.as_slice(), 0, k);
        assert(prefix@ =~= units@.take(k as int));
        match string_from_utf16(prefix) {
            Some(s) => Ok(s),
            None => Err(Error::InvalidUtf16),
        }
    } else {
        let raw = r.read_bytes(len as usize)?;
        let k = find_first_zero_u8(raw.as_slice());
        let prefix = vstd::slice::slice_subrange(raw.as_slice(), 0, k);
        assert(prefix@ =~= raw@.take(k as int));
        Ok(string_from_utf8_lossy(prefix))
    }
}


/// A parsed `FString` takes its 4-byte length and no more than the input.
pub broadcast proof fn lemma_fstring_bounds(s: Seq<u8>)
    ensures
        #[trigger] parse_fstring(s) matches Some((_, n)) ==> 4 <= n <= s.len(),
{
}

/// Writes an `FString`: empty strings as a zero length, ASCII text as a narrow
/// string, anything else as a wide UTF-16 string.
pub fn write_string(out: &mut Vec<u8>, s: &str)
    requires
        fstring_writable(s@),
    ensures
        final(out)@ == old(out)@ + ser_fstring(s@),
{
    if s.is_empty() {
        write_u32(out, 0);
    } else if s.is_ascii() {
        let b = s.as_bytes();
        proof {
            is_ascii_chars_encode_utf8(s@);
        }
        write_u32(out, b.len() as u32 + 1);
        write_all(out, b);
        write_u8(out, 0);
        assert(out@ =~= old(out)@ + ser_fstring(s@));
    } else {
        let units = str_encode_utf16(s);
        proof {
            lemma_utf16_encode_len(s@);
        }
        let ghost start = out@;
        write_i32(out, -(units.len() as i32 + 1));
        let ghost mid = out@;
        let mut i: usize = 0;
        while i < units.len()
            invariant
                i <= units@.len(),
                out@ == mid + units_to_le(units@.take(i as int)),
            decreases units@.len() - i,
        {
            write_u16(out, units[i]);
            proof {
                assert(units@.take(i + 1).drop_last() =~= units@.take(i as int));
            }
            i = i + 1;
        }
        assert(units@.take(i as int) =~= units@);
        write_u16(out, 0);
        assert(out@ =~= old(out)@ + ser_fstring(s@));
    }
}

/// Each character takes one or two UTF-16 code units.
pub proof fn lemma_utf16_encode_len(cs: Seq<char>)
    ensures
        cs.len() <= utf16_encode(cs).len() <= 2 * cs.len(),
    decreases cs.len(),
{
    if cs.len() > 0 {
        lemma_utf16_encode_len(cs.drop_first());
    }
}

/// Without NUL characters the UTF-16 encoding holds no zero unit.
proof fn lemma_utf16_encode_nonzero(cs: Seq<char>)
    requires
        forall|i: int| 0 <= i < cs.len() ==> cs[i] != '\0',
    ensures
        forall|j: int| 0 <= j < utf16_encode(cs).len() ==> utf16_encode(cs)[j] != 0u16,
    decreases cs.len(),
{
    if cs.len() > 0 {
        assert forall|i: int| 0 <= i < cs.drop_first().len() implies cs.drop_first()[i] != '\0' by {
            assert(cs.drop_first()[i] == cs[i + 1]);
        }
        lemma_utf16_encode_nonzero(cs.drop_first());
        let c = cs[0];
        assert(c != '\0');
        char_is_scalar(c);
        char_u32_cast(c, c as u32);
        assert((c as u32) != 0);
        let e = utf16_encode(cs);
        let h = utf16_encode_char(c);
        let t = utf16_encode(cs.drop_first());
        assert(e == h + t);
        assert forall|j: int| 0 <= j < e.len() implies e[j] != 0u16 by {
            if j >= h.len() {
                assert(e[j] == t[j - h.len()]);
            }
        }
    }
}

/// Decoding the UTF-16 encoding of a character sequence gives it back.
pub proof fn lemma_utf16_roundtrip(cs: Seq<char>)
    ensures
        utf16_decode(utf16_encode(cs)) == Some(cs),
    decreases cs.len(),
{
    if cs.len() > 0 {
        let c = cs[0];
        let v = c as u32;
        char_is_scalar(c);
        char_u32_cast(c, v);
        assert(is_scalar(v));
        lemma_utf16_roundtrip(cs.drop_first());
        let h = utf16_encode_char(c);
        let t = utf16_encode(cs.drop_first());
        let u = h + t;
        assert(utf16_encode(cs) == u);
        if (v as int) < 0x10000 {
            assert(u[0] == v as u16);
            assert(u.drop_first() =~= t);
            assert(((u[0] as u32) as char) == c);
        } else {
            let w = v - 0x10000;
            assert(u.skip(2) =~= t);
            let d = 0x10000 + (u[0] - 0xD800) * 1024 + (u[1] - 0xDC00);
            assert(d == v);
            assert(((d as u32) as char) == c);
        }
        assert(seq![c] + cs.drop_first() =~= cs);
    }
}

proof fn lemma_units_to_le(u: Seq<u16>)
    ensures
        units_to_le(u).len() == 2 * u.len(),
        forall|i: int| 0 <= i < u.len() ==> #[trigger] units_to_le(u).subrange(2 * i, 2 * i + 2) == le_u16(u[i]),
    decreases u.len(),
{
    lemma_auto_spec_u16_to_from_le_bytes();
    if u.len() > 0 {
        lemma_units_to_le(u.drop_last());
        let b = units_to_le(u);
        let p = units_to_le(u.drop_last());
        assert(b == p + le_u16(u.last()));
        assert forall|i: int| 0 <= i < u.len() implies #[trigger] units_to_le(u).subrange(2 * i, 2 * i + 2) == le_u16(u[i]) by {
            if i < u.len() - 1 {
                assert(b.subrange(2 * i, 2 * i + 2) =~= p.subrange(2 * i, 2 * i + 2));
                assert(u.drop_last()[i] == u[i]);
            } else {
                assert(b.subrange(2 * i, 2 * i + 2) =~= le_u16(u.last()));
            }
        }
    }
}

/// Units written little-endian are read back unchanged.
proof fn lemma_units_le_roundtrip(u: Seq<u16>)
    ensures
        units_from_le(units_to_le(u)) == u,
{
    lemma_units_to_le(u);
    lemma_auto_spec_u16_to_from_le_bytes();
    let b = units_to_le(u);
    assert forall|i: int| 0 <= i < u.len() implies units_from_le(b)[i] == u[i] by {
        assert(b.subrange(2 * i, 2 * i + 2) == le_u16(u[i]));
    }
    assert(units_from_le(b) =~= u);
}

/// Reading back what [`write_string`] wrote gives the same characters and
/// consumes exactly the written bytes, whatever follows them.
pub broadcast proof fn lemma_fstring_roundtrip(cs: Seq<char>, rest: Seq<u8>)
    requires
        fstring_ok(cs),
    ensures
        #[trigger] parse_fstring(ser_fstring(cs) + rest) == Some((cs, ser_fstring(cs).len() as int)),
{
    lemma_auto_spec_u32_to_from_le_bytes();
    lemma_auto_spec_u16_to_from_le_bytes();
    let s = ser_fstring(cs) + rest;
    if cs.len() == 0 {
        assert(s.take(4) =~= le_u32(0));
        assert(s.skip(4).take(0) =~= Seq::<u8>::empty());
        assert(first_zero(Seq::<u8>::empty(), 0u8) == 0);
        assert(Seq::<u8>::empty().take(0) =~= Seq::<u8>::empty());
        assert(decode_utf8(Seq::<u8>::empty()) =~= cs);
    } else if is_ascii_chars(cs) {
        let b = encode_utf8(cs);
        is_ascii_chars_encode_utf8(cs);
        let n = (b.len() + 1) as u32;
        assert(s.take(4) =~= le_u32(n));
        assert(i32_from_bits(n) == n as int);
        let body = s.skip(4);
        let raw = body.take(n as int);
        assert(raw =~= b + seq![0u8]);
        assert forall|j: int| 0 <= j < b.len() implies raw[j] != 0u8 by {
            assert(cs[j] != '\0');
            assert(raw[j] == b[j]);
            assert(cs[j] as u8 == b[j]);
        }
        lemma_first_zero(raw, 0u8, b.len() as int);
        assert(raw.take(b.len() as int) =~= b);
    } else {
        let u = utf16_encode(cs);
        lemma_utf16_encode_len(cs);
        lemma_utf16_encode_nonzero(cs);
        lemma_utf16_roundtrip(cs);
        let len: i32 = (-(u.len() + 1)) as i32;
        assert(i32_from_bits(i32_to_bits(len)) == len);
        assert(s.take(4) =~= le_i32(len));
        let body = s.skip(4);
        let n: int = u.len() as int + 1;
        let w = u.push(0u16);
        lemma_units_le_roundtrip(w);
        assert(w.drop_last() =~= u);
        lemma_units_to_le(u);
        assert(units_to_le(w) =~= units_to_le(u) + le_u16(0));
        assert(body.take(2 * n) =~= units_to_le(w));
        let units = units_from_le(body.take(2 * n));
        assert(units == w);
        lemma_first_zero(w, 0u16, u.len() as int);
        assert(w.take(u.len() as int) =~= u);
    }
}

/// Whether two strings hold the same characters.
pub fn str_eq(a: &str, b: &str) -> (r: bool)
    ensures
        r == (a@ == b@),
{
    let x = a.as_bytes();
    let y = b.as_bytes();
    proof {
        encode_utf8_decode_utf8(a@);
        encode_utf8_decode_utf8(b@);
    }
    if x.len() != y.len() {
        return false;
    }
    let mut i: usize = 0;
    while i < x.len()
        invariant
            i <= x@.len(),
            x@.len() == y@.len(),
            x@ == encode_utf8(a@),
            y@ == encode_utf8(b@),
            forall|j: int| 0 <= j < i ==> x@[j] == y@[j],
        decreases x@.len() - i,
    {
        if x[i] != y[i] {
            return false;
        }
        i = i + 1;
    }
    assert(x@ =~= y@);
    true
}

} // verus!
