use uesave::bytes::{Reader, write_bool32, write_i32, write_i64, write_u16, write_u32, write_u64, write_u8, write_all};
use uesave::error::Error;
use uesave::fstring::{read_string, str_eq, write_string};
use uesave::guid::Guid;
use uesave::math::{Quat, Vector};

#[test]
fn integers_are_little_endian() {
    let mut out = Vec::new();
    write_u16(&mut out, 0x0102);
    write_u32(&mut out, 0x01020304);
    write_u64(&mut out, 0x0102030405060708);
    write_i32(&mut out, -2);
    write_i64(&mut out, -3);
    write_u8(&mut out, 9);
    write_bool32(&mut out, true);
    assert_eq!(
        out,
        vec![
            2, 1, 4, 3, 2, 1, 8, 7, 6, 5, 4, 3, 2, 1, 0xfe, 0xff, 0xff, 0xff, 0xfd, 0xff, 0xff, 0xff, 0xff, 0xff, 0xff,
            0xff, 9, 1, 0, 0, 0
        ]
    );
    let mut r = Reader::new(&out);
    assert_eq!(r.read_u16(), Ok(0x0102));
    assert_eq!(r.read_u32(), Ok(0x01020304));
    assert_eq!(r.read_u64(), Ok(0x0102030405060708));
    assert_eq!(r.read_i32(), Ok(-2));
    assert_eq!(r.read_i64(), Ok(-3));
    assert_eq!(r.read_u8(), Ok(9));
    assert_eq!(r.read_bool32(), Ok(true));
    assert_eq!(r.remaining(), 0);
}

#[test]
fn reading_past_the_end_fails() {
    let data = [1u8, 2, 3];
    let mut r = Reader::new(&data);
    assert_eq!(r.read_u32(), Err(Error::UnexpectedEof));
    assert_eq!(r.read_u16(), Ok(0x0201));
    assert_eq!(r.read_u16(), Err(Error::UnexpectedEof));
    assert_eq!(r.read_bytes(2), Err(Error::UnexpectedEof));
    assert_eq!(r.read_bytes(1), Ok(vec![3]));
    assert_eq!(r.read_u8(), Err(Error::UnexpectedEof));
}

#[test]
fn bool32_is_any_nonzero_value() {
    let data = [7u8, 0, 0, 0, 0, 0, 0, 0];
    let mut r = Reader::new(&data);
    assert_eq!(r.read_bool32(), Ok(true));
    assert_eq!(r.read_bool32(), Ok(false));
}

#[test]
fn seek_and_read_to_end() {
    let data = [1u8, 2, 3, 4, 5];
    let mut r = Reader::new(&data);
    r.seek(3);
    assert_eq!(r.stream_position(), 3);
    assert_eq!(r.read_to_end(), vec![4, 5]);
    assert_eq!(r.data_len(), 5);
    let a: [u8; 2] = {
        r.seek(1);
        r.read_array::<2>().unwrap()
    };
    assert_eq!(a, [2, 3]);
}

#[test]
fn narrow_strings() {
    let mut out = Vec::new();
    write_string(&mut out, "abc");
    assert_eq!(out, vec![4, 0, 0, 0, b'a', b'b', b'c', 0]);
    let mut r = Reader::new(&out);
    assert_eq!(read_string(&mut r), Ok("abc".to_string()));
    assert_eq!(r.remaining(), 0);
}

#[test]
fn empty_string_is_a_zero_length() {
    let mut out = Vec::new();
    write_string(&mut out, "");
    assert_eq!(out, vec![0, 0, 0, 0]);
    let mut r = Reader::new(&out);
    assert_eq!(read_string(&mut r), Ok(String::new()));
}

#[test]
fn wide_strings() {
    let mut out = Vec::new();
    write_string(&mut out, "é€");
    assert_eq!(out, vec![0xfd, 0xff, 0xff, 0xff, 0xe9, 0x00, 0xac, 0x20, 0, 0]);
    let mut r = Reader::new(&out);
    assert_eq!(read_string(&mut r), Ok("é€".to_string()));
    assert_eq!(r.remaining(), 0);
}

#[test]
fn wide_string_outside_the_basic_plane() {
    let mut out = Vec::new();
    write_string(&mut out, "a😀");
    let mut r = Reader::new(&out);
    assert_eq!(read_string(&mut r), Ok("a😀".to_string()));
    assert_eq!(out.len(), 4 + 2 * 4);
}

#[test]
fn reading_stops_at_the_first_nul() {
    let data = [5u8, 0, 0, 0, b'h', b'i', 0, b'x', 0];
    let mut r = Reader::new(&data);
    assert_eq!(read_string(&mut r), Ok("hi".to_string()));
    assert_eq!(r.remaining(), 0);
}

#[test]
fn invalid_utf8_is_decoded_lossily() {
    let data = [3u8, 0, 0, 0, 0xff, b'a', 0];
    let mut r = Reader::new(&data);
    assert_eq!(read_string(&mut r), Ok("\u{fffd}a".to_string()));
}

#[test]
fn lone_surrogate_is_an_error() {
    let data = [0xfeu8, 0xff, 0xff, 0xff, 0x00, 0xd8, 0, 0];
    let mut r = Reader::new(&data);
    assert_eq!(read_string(&mut r), Err(Error::InvalidUtf16));
}

#[test]
fn truncated_string_is_an_error() {
    let data = [9u8, 0, 0, 0, b'a'];
    let mut r = Reader::new(&data);
    assert_eq!(read_string(&mut r), Err(Error::UnexpectedEof));
}

#[test]
fn string_equality() {
    assert!(str_eq("abc", "abc"));
    assert!(!str_eq("abc", "abd"));
    assert!(!str_eq("abc", "ab"));
}

#[test]
fn guid_roundtrip() {
    let g = Guid::from_bytes([1, 2, 3, 4, 5, 6, 7, 8, 9, 10, 11, 12, 13, 14, 15, 16]);
    let mut out = Vec::new();
    g.write(&mut out);
    assert_eq!(out, (1u8..=16).collect::<Vec<u8>>());
    let mut r = Reader::new(&out);
    assert_eq!(Guid::read(&mut r), Ok(g));
    assert_eq!(Guid::zero().bytes, [0u8; 16]);
}

#[test]
fn vector_and_quat_roundtrip() {
    let v = Vector { x: 1.5f64.to_bits(), y: (-2.0f64).to_bits(), z: 0 };
    let q = Quat { x: 1, y: 2, z: 3, w: 4 };
    let mut out = Vec::new();
    v.write(&mut out);
    q.write(&mut out);
    assert_eq!(out.len(), 24 + 32);
    assert_eq!(&out[0..8], &1.5f64.to_le_bytes());
    let mut r = Reader::new(&out);
    assert_eq!(Vector::read(&mut r), Ok(v));
    assert_eq!(Quat::read(&mut r), Ok(q));
}

#[test]
fn write_all_appends() {
    let mut out = vec![1u8];
    write_all(&mut out, &[2, 3]);
    assert_eq!(out, vec![1, 2, 3]);
}
