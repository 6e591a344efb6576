//! The header that wraps compressed Palworld saves, and what this build does
//! with each compression format.
use vstd::prelude::*;
use crate::bytes::{Reader, parse_u32, le_u32, write_u8, write_u32, write_all, lemma_u32_at};
use crate::error::Error;

verus! {

broadcast use crate::bytes::group_codec;

/// How a save is compressed.
#[derive(Clone, Copy, Debug, PartialEq, Eq)]
pub enum CompressionFormat {
    /// No compression (named `None` in the save tool's command line).
    Uncompressed,
    Oodle,
    Zlib,
    Chunk,
}

/// The tags that identify a save's layout.
#[derive(Clone, Copy, Debug, PartialEq, Eq)]
pub enum MagicBytes {
    GVAS,
    PLM,
    PLZ,
    CNK,
}

/// The bytes of each tag: `GVAS`, `PlM`, `PlZ` and `CNK`.
pub open spec fn magic_seq(m: MagicBytes) -> Seq<u8> {
    match m {
        MagicBytes::GVAS => seq![0x47u8, 0x56u8, 0x41u8, 0x53u8],
        MagicBytes::PLM => seq![0x50u8, 0x6cu8, 0x4du8],
        MagicBytes::PLZ => seq![0x50u8, 0x6cu8, 0x5au8],
        MagicBytes::CNK => seq![0x43u8, 0x4eu8, 0x4bu8],
    }
}

/// The tag whose bytes are exactly `s`, if any.
pub open spec fn magic_from_seq(s: Seq<u8>) -> Option<MagicBytes> {
    if s == magic_seq(MagicBytes::GVAS) {
        Some(MagicBytes::GVAS)
    } else if s == magic_seq(MagicBytes::PLM) {
        Some(MagicBytes::PLM)
    } else if s == magic_seq(MagicBytes::PLZ) {
        Some(MagicBytes::PLZ)
    } else if s == magic_seq(MagicBytes::CNK) {
        Some(MagicBytes::CNK)
    } else {
        None
    }
}

impl MagicBytes {
    /// The tag's bytes.
    pub fn as_bytes(&self) -> (r: &'static [u8])
        ensures
            r@ == magic_seq(*self),
    {
        let r = match self {
            MagicBytes::GVAS => "GVAS".as_bytes(),
            MagicBytes::PLM => "PlM".as_bytes(),
            MagicBytes::PLZ => "PlZ".as_bytes(),
            MagicBytes::CNK => "CNK".as_bytes(),
        };
        proof {
            reveal_strlit("GVAS");
            reveal_strlit("PlM");
            reveal_strlit("PlZ");
            reveal_strlit("CNK");
            vstd::utf8::is_ascii_chars_encode_utf8("GVAS"@);
            vstd::utf8::is_ascii_chars_encode_utf8("PlM"@);
            vstd::utf8::is_ascii_chars_encode_utf8("PlZ"@);
            vstd::utf8::is_ascii_chars_encode_utf8("CNK"@);
        }
        assert(r@ =~= magic_seq(*self));
        r
    }
}

impl MagicBytes {
    /// The tag whose bytes are exactly `bytes`, if any.
    pub fn from_bytes(bytes: &[u8]) -> (r: Option<Self>)
        ensures
            r == magic_from_seq(bytes@),
    {
        if bytes.len() == 4 && bytes[0] == 0x47 && bytes[1] == 0x56 && bytes[2] == 0x41 && bytes[3] == 0x53 {
            assert(bytes@ =~= magic_seq(MagicBytes::GVAS));
            Some(MagicBytes::GVAS)
        } else if bytes.len() == 3 && bytes[0] == 0x50 && bytes[1] == 0x6c && bytes[2] == 0x4d {
            assert(bytes@ =~= magic_seq(MagicBytes::PLM));
            Some(MagicBytes::PLM)
        } else if bytes.len() == 3 && bytes[0] == 0x50 && bytes[1] == 0x6c && bytes[2] == 0x5a {
            assert(bytes@ =~= magic_seq(MagicBytes::PLZ));
            Some(MagicBytes::PLZ)
        } else if bytes.len() == 3 && bytes[0] == 0x43 && bytes[1] == 0x4e && bytes[2] == 0x4b {
            assert(bytes@ =~= magic_seq(MagicBytes::CNK));
            Some(MagicBytes::CNK)
        } else {
            assert(bytes@ != magic_seq(MagicBytes::GVAS) || (bytes@[0] == 0x47 && bytes@[1] == 0x56 && bytes@[2] == 0x41 && bytes@[3] == 0x53));
            assert(bytes@ != magic_seq(MagicBytes::PLM) || (bytes@[0] == 0x50 && bytes@[1] == 0x6c && bytes@[2] == 0x4d));
            assert(bytes@ != magic_seq(MagicBytes::PLZ) || (bytes@[0] == 0x50 && bytes@[1] == 0x6c && bytes@[2] == 0x5a));
            assert(bytes@ != magic_seq(MagicBytes::CNK) || (bytes@[0] == 0x43 && bytes@[1] == 0x4e && bytes@[2] == 0x4b));
            None
        }
    }
}

/// Each tag is recognized from its own bytes.
pub proof fn lemma_magic_roundtrip(m: MagicBytes)
    ensures
        magic_from_seq(magic_seq(m)) == Some(m),
{
    assert(magic_seq(MagicBytes::GVAS).len() == 4);
    assert(magic_seq(MagicBytes::PLM)[2] != magic_seq(MagicBytes::PLZ)[2]);
    assert(magic_seq(MagicBytes::PLM)[0] != magic_seq(MagicBytes::CNK)[0]);
    assert(magic_seq(MagicBytes::PLZ)[0] != magic_seq(MagicBytes::CNK)[0]);
}

/// The header in front of a compressed save.
#[derive(Clone, Copy, Debug, PartialEq, Eq)]
pub struct CompressionHeader {
    pub uncompressed_len: u32,
    pub compressed_len: u32,
    pub magic_bytes: MagicBytes,
    pub save_type: u8,
    /// Where the compressed payload starts.
    pub data_offset: usize,
}

/// The little-endian `u32` at offset `i`, or 0 past the end.
pub open spec fn u32_at(d: Seq<u8>, i: int) -> u32 {
    match parse_u32(d.skip(i)) {
        Some((v, _)) => v,
        None => 0,
    }
}

/// A save of at least 24 bytes whose bytes 20 to 22 read `CNK` uses the
/// chunked header layout, which starts 12 bytes later.
pub open spec fn is_chunked_layout(d: Seq<u8>) -> bool {
    d.len() >= 24 && d.subrange(20, 23) == magic_seq(MagicBytes::CNK)
}

/// The header of a save: none for inputs under 12 bytes and for saves that
/// start with `GVAS` (uncompressed); else the lengths, the tag and the save
/// type, at offset 0 or, in the chunked layout, at offset 12. An unknown tag
/// is an error.
pub open spec fn parse_header(d: Seq<u8>) -> Result<Option<CompressionHeader>, Error> {
    if d.len() < 12 {
        Ok(None)
    } else if d.take(4) == magic_seq(MagicBytes::GVAS) {
        Ok(None)
    } else {
        let base: int = if is_chunked_layout(d) { 12 } else { 0 };
        match magic_from_seq(d.subrange(base + 8, base + 11)) {
            None => Err(Error::UnknownMagicBytes),
            Some(m) => Ok(
                Some(
                    CompressionHeader {
                        uncompressed_len: u32_at(d, base),
                        compressed_len: u32_at(d, base + 4),
                        magic_bytes: m,
                        save_type: d[base + 11],
                        data_offset: (base + 12) as usize,
                    },
                ),
            ),
        }
    }
}

/// Encoding of a header in the PLM layout.
pub open spec fn ser_header(h: CompressionHeader) -> Seq<u8> {
    le_u32(h.uncompressed_len) + le_u32(h.compressed_len) + magic_seq(h.magic_bytes) + seq![h.save_type]
}

impl CompressionHeader {
    /// Reads the header at the start of a save's bytes; only the first 24
    /// bytes are looked at.
    pub fn read(data: &[u8]) -> (res: Result<Option<Self>, Error>)
        ensures
            res == parse_header(data@),
    {
        let n = data.len();
        if n < 12 {
            return Ok(None);
        }
        if data[0] == 0x47 && data[1] == 0x56 && data[2] == 0x41 && data[3] == 0x53 {
            assert(data@.take(4) =~= magic_seq(MagicBytes::GVAS));
            return Ok(None);
        }
        assert(data@.take(4) != magic_seq(MagicBytes::GVAS) || (data@.take(4)[0] == 0x47 && data@.take(4)[1] == 0x56
            && data@.take(4)[2] == 0x41 && data@.take(4)[3] == 0x53));
        let chunked = n >= 24 && data[20] == 0x43 && data[21] == 0x4e && data[22] == 0x4b;
        proof {
            if n >= 24 {
                let w = data@.subrange(20, 23);
                if w[0] == 0x43 && w[1] == 0x4e && w[2] == 0x4b {
                    assert(w =~= magic_seq(MagicBytes::CNK));
                }
            }
        }
        assert(chunked == is_chunked_layout(data@));
        let base: usize = if chunked { 12 } else { 0 };
        let mut r = Reader::new(data);
        r.seek(base);
        let uncompressed_len = r.read_u32()?;
        let compressed_len = r.read_u32()?;
        assert(r.rest() =~= data@.skip(base + 4).skip(4));
        let tag = vstd::slice::slice_subrange(data, base + 8, base + 11);
        let magic = MagicBytes::from_bytes(tag);
        match magic {
            None => Err(Error::UnknownMagicBytes),
            Some(magic_bytes) => Ok(
                Some(
                    CompressionHeader {
                        uncompressed_len,
                        compressed_len,
                        magic_bytes,
                        save_type: data[base + 11],
                        data_offset: base + 12,
                    },
                ),
            ),
        }
    }

    /// Writes the header; only the PLM layout can be written.
    pub fn write(&self, out: &mut Vec<u8>) -> (res: Result<(), Error>)
        ensures
            self.magic_bytes != MagicBytes::PLM ==> res == Err::<(), Error>(Error::UnsupportedHeaderWrite)
                && final(out)@ == old(out)@,
            self.magic_bytes == MagicBytes::PLM ==> res is Ok && final(out)@ == old(out)@ + ser_header(*self),
    {
        match self.magic_bytes {
            MagicBytes::PLM => {},
            _ => return Err(Error::UnsupportedHeaderWrite),
        }
        write_u32(out, self.uncompressed_len);
        write_u32(out, self.compressed_len);
        write_all(out, self.magic_bytes.as_bytes());
        write_u8(out, self.save_type);
        assert(out@ =~= old(out)@ + ser_header(*self));
        Ok(())
    }
}

/// What decompressing a save comes to: `Ok` when the save is kept as it is
/// (no header, or a header that needs no decompression), else the error.
/// This build decompresses no format.
pub open spec fn decompress_outcome(d: Seq<u8>) -> Result<(), Error> {
    match parse_header(d) {
        Err(e) => Err(e),
        Ok(None) => Ok(()),
        Ok(Some(h)) => match h.magic_bytes {
            MagicBytes::PLM => Err(Error::OodleUnsupported),
            MagicBytes::PLZ => Err(Error::ZlibUnsupported),
            MagicBytes::CNK => Err(Error::ChunkUnsupported),
            MagicBytes::GVAS => Ok(()),
        },
    }
}

/// Decompresses a save's bytes; a save without a compression header is
/// returned as it is.
pub fn decompress_save(data: Vec<u8>) -> (res: Result<Vec<u8>, Error>)
    ensures
        match decompress_outcome(data@) {
            Ok(()) => res matches Ok(v) && v@ == data@,
            Err(e) => res == Err::<Vec<u8>, Error>(e),
        },
{
    match CompressionHeader::read(data.as_slice())? {
        Some(header) => match header.magic_bytes {
            MagicBytes::PLM => Err(Error::OodleUnsupported),
            MagicBytes::PLZ => Err(Error::ZlibUnsupported),
            MagicBytes::CNK => Err(Error::ChunkUnsupported),
            MagicBytes::GVAS => Ok(data),
        },
        None => Ok(data),
    }
}

/// Compresses a save's bytes in the given format; this build can only
/// leave them uncompressed.
pub fn compress_save(data: &[u8], format: CompressionFormat) -> (res: Result<Vec<u8>, Error>)
    ensures
        format == CompressionFormat::Uncompressed ==> (res matches Ok(v) && v@ == data@),
        format != CompressionFormat::Uncompressed ==> res == Err::<Vec<u8>, Error>(Error::CompressionUnsupported),
{
    match format {
        CompressionFormat::Uncompressed => Ok(vstd::slice::slice_to_vec(data)),
        _ => Err(Error::CompressionUnsupported),
    }
}

/// A written PLM header reads back, with its payload at offset 12, provided
/// that its first four bytes do not read `GVAS` and that the bytes after it
/// do not make the input look like the chunked layout.
pub proof fn lemma_header_roundtrip(h: CompressionHeader, rest: Seq<u8>)
    requires
        h.magic_bytes == MagicBytes::PLM,
        le_u32(h.uncompressed_len) != magic_seq(MagicBytes::GVAS),
        !is_chunked_layout(ser_header(h) + rest),
    ensures
        parse_header(ser_header(h) + rest) == Ok::<Option<CompressionHeader>, Error>(
            Some(CompressionHeader { data_offset: 12, ..h }),
        ),
{
    let d = ser_header(h) + rest;
    let a = le_u32(h.uncompressed_len);
    let b = le_u32(h.compressed_len);
    let m = magic_seq(h.magic_bytes);
    assert(ser_header(h).len() == 12);
    assert(d.take(4) =~= a);
    assert(d.subrange(8, 11) =~= m);
    lemma_magic_roundtrip(MagicBytes::PLM);
    assert(d.skip(0) =~= a + (b + (m + seq![h.save_type] + rest)));
    assert(d.skip(4) =~= b + (m + seq![h.save_type] + rest));
    assert(d[11] == h.save_type);
}

/// Decompressing an uncompressed save (one that starts with `GVAS`) gives it
/// back unchanged.
pub proof fn lemma_uncompressed_passthrough(d: Seq<u8>)
    requires
        d.len() >= 4,
        d.take(4) == magic_seq(MagicBytes::GVAS),
    ensures
        decompress_outcome(d) == Ok::<(), Error>(()),
{
}

/// A header against the save's bytes: from its start (offset 0, or 12 in
/// the chunked layout), the uncompressed length (bytes 0..4), the compressed
/// length (4..8), the tag (8..11) and the save type (byte 11); the data
/// follows.
pub proof fn lemma_header_layout(d: Seq<u8>)
    requires
        parse_header(d) matches Ok(Some(_)),
    ensures
        ({
            let h = parse_header(d)->Ok_0->0;
            let base = h.data_offset - 12;
            &&& base == (if is_chunked_layout(d) { 12int } else { 0int })
            &&& le_u32(h.uncompressed_len) == d.subrange(base, base + 4)
            &&& le_u32(h.compressed_len) == d.subrange(base + 4, base + 8)
            &&& magic_seq(h.magic_bytes) == d.subrange(base + 8, base + 11)
            &&& h.save_type == d[base + 11]
        }),
{
    let base: int = if is_chunked_layout(d) { 12 } else { 0 };
    lemma_u32_at(d, base);
    lemma_u32_at(d, base + 4);
}

} // verus!
