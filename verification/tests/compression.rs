use uesave::compression::{compress_save, decompress_save, CompressionFormat, CompressionHeader, MagicBytes};
use uesave::error::Error;

#[test]
fn magic_bytes_as_and_from_bytes() {
    assert_eq!(MagicBytes::GVAS.as_bytes(), b"GVAS");
    assert_eq!(MagicBytes::PLM.as_bytes(), b"PlM");
    assert_eq!(MagicBytes::PLZ.as_bytes(), b"PlZ");
    assert_eq!(MagicBytes::CNK.as_bytes(), b"CNK");
    for m in [MagicBytes::GVAS, MagicBytes::PLM, MagicBytes::PLZ, MagicBytes::CNK] {
        assert_eq!(MagicBytes::from_bytes(m.as_bytes()), Some(m));
    }
    assert_eq!(MagicBytes::from_bytes(b"PlX"), None);
    assert_eq!(MagicBytes::from_bytes(b"GVA"), None);
    assert_eq!(MagicBytes::from_bytes(b""), None);
}

fn plm_save(payload: &[u8]) -> Vec<u8> {
    let mut v = Vec::new();
    v.extend(100u32.to_le_bytes());
    v.extend((payload.len() as u32).to_le_bytes());
    v.extend(b"PlM");
    v.push(0x31);
    v.extend_from_slice(payload);
    v
}

#[test]
fn plm_header() {
    let data = plm_save(&[1, 2, 3]);
    let h = CompressionHeader::read(&data).unwrap().unwrap();
    assert_eq!(h.uncompressed_len, 100);
    assert_eq!(h.compressed_len, 3);
    assert_eq!(h.magic_bytes, MagicBytes::PLM);
    assert_eq!(h.save_type, 0x31);
    assert_eq!(h.data_offset, 12);
}

#[test]
fn header_write_then_read() {
    let h = CompressionHeader { uncompressed_len: 5000, compressed_len: 42, magic_bytes: MagicBytes::PLM, save_type: 0x31, data_offset: 12 };
    let mut out = Vec::new();
    assert_eq!(h.write(&mut out), Ok(()));
    assert_eq!(out, vec![0x88, 0x13, 0, 0, 42, 0, 0, 0, b'P', b'l', b'M', 0x31]);
    assert_eq!(CompressionHeader::read(&out), Ok(Some(h)));
}

#[test]
fn only_plm_headers_are_written() {
    let h = CompressionHeader { uncompressed_len: 1, compressed_len: 1, magic_bytes: MagicBytes::PLZ, save_type: 0x32, data_offset: 12 };
    let mut out = vec![9u8];
    assert_eq!(h.write(&mut out), Err(Error::UnsupportedHeaderWrite));
    assert_eq!(out, vec![9u8]);
}

#[test]
fn chunked_header() {
    let mut data = vec![0u8; 12];
    data.extend(77u32.to_le_bytes());
    data.extend(11u32.to_le_bytes());
    data.extend(b"CNK");
    data.push(0x30);
    let h = CompressionHeader::read(&data).unwrap().unwrap();
    assert_eq!(h.uncompressed_len, 77);
    assert_eq!(h.compressed_len, 11);
    assert_eq!(h.magic_bytes, MagicBytes::CNK);
    assert_eq!(h.save_type, 0x30);
    assert_eq!(h.data_offset, 24);
}

#[test]
fn no_header_for_short_or_uncompressed_saves() {
    assert_eq!(CompressionHeader::read(&[1, 2, 3]), Ok(None));
    let mut gvas = b"GVAS".to_vec();
    gvas.extend([0u8; 20]);
    assert_eq!(CompressionHeader::read(&gvas), Ok(None));
}

#[test]
fn unknown_magic_is_an_error() {
    let mut data = vec![0u8; 8];
    data.extend(b"XYZ");
    data.push(0);
    assert_eq!(CompressionHeader::read(&data), Err(Error::UnknownMagicBytes));
}

#[test]
fn uncompressed_saves_pass_through() {
    let mut gvas = b"GVAS".to_vec();
    gvas.extend([1u8, 2, 3, 4, 5, 6, 7, 8, 9, 10]);
    assert_eq!(decompress_save(gvas.clone()), Ok(gvas));
    assert_eq!(decompress_save(vec![1, 2]), Ok(vec![1, 2]));
}

#[test]
fn compressed_saves_are_refused() {
    assert_eq!(decompress_save(plm_save(&[0; 4])), Err(Error::OodleUnsupported));
    let mut plz = plm_save(&[0; 4]);
    plz[10] = b'Z';
    assert_eq!(decompress_save(plz), Err(Error::ZlibUnsupported));
    let mut cnk = vec![0u8; 20];
    cnk.extend(b"CNK");
    cnk.push(0);
    assert_eq!(decompress_save(cnk), Err(Error::ChunkUnsupported));
    let mut bad = vec![0u8; 8];
    bad.extend(b"ABC");
    bad.push(0);
    assert_eq!(decompress_save(bad), Err(Error::UnknownMagicBytes));
}

#[test]
fn compress_without_compression_copies() {
    assert_eq!(compress_save(&[1, 2, 3], CompressionFormat::Uncompressed), Ok(vec![1, 2, 3]));
    assert_eq!(compress_save(&[1], CompressionFormat::Oodle), Err(Error::CompressionUnsupported));
    assert_eq!(compress_save(&[1], CompressionFormat::Zlib), Err(Error::CompressionUnsupported));
    assert_eq!(compress_save(&[1], CompressionFormat::Chunk), Err(Error::CompressionUnsupported));
}
