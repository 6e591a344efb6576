use vstd::prelude::*;

verus! {

/// Why reading or writing save data failed.
#[derive(Debug, Clone, Copy, PartialEq, Eq)]
pub enum Error {
    /// The input ended before a complete value could be read.
    UnexpectedEof,
    /// A wide (UTF-16) string held data that is not valid UTF-16.
    InvalidUtf16,
    /// A value that must extend to the end of its byte range was followed by more bytes.
    TrailingData,
    /// An embedded payload was parsed without consuming all of its bytes.
    PartialParse,
    /// The compression header carries magic bytes that are not known.
    UnknownMagicBytes,
    /// Only the PLM (Oodle) header layout can be written.
    UnsupportedHeaderWrite,
    /// The save is compressed with Oodle, which this build cannot decompress or produce.
    OodleUnsupported,
    /// This build cannot compress saves.
    CompressionUnsupported,
    /// The save is compressed with zlib, which is not supported.
    ZlibUnsupported,
    /// The save uses the chunked layout, which is not supported.
    ChunkUnsupported,
    /// A concrete model module cannot be read without knowing its module type.
    MissingModuleType,
    /// The struct type has no reader that works without further context.
    NoContextFreeReader,
    /// A struct type hint is not of the form `path=Type`.
    MalformedType,
    /// A property needed to interpret a map object is missing or has the wrong shape.
    MalformedMapObject,
    /// An element of the map object data array, at this position counted from
    /// one, is not a struct of properties.
    MapObjectNotAStruct(u64),
}

} // verus!
