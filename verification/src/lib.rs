//! Reading and writing of the binary data that Palworld embeds in Unreal
//! Engine save games, and of the compression header that wraps such saves.
pub mod error;
pub mod bytes;
pub mod fstring;
pub mod guid;
pub mod repeat;
pub mod math;
pub mod properties;
pub mod property_values;
pub mod compression;
pub mod struct_types;
pub mod palworld;
