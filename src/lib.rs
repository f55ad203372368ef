//! Decoder for the header region of Portable Executable images: the DOS
//! stub header, the COFF file header, the optional header (standard and
//! Windows-specific fields) and the data-directory table.
pub mod error;
pub mod utils;
pub mod structs;
pub mod layout;
pub mod parser;
pub mod encode;
pub mod laws;

pub use error::{DecodeError, OffsetField};
pub use parser::{parse_characteristics, parse_pe_headers};
pub use structs::{
    COFFHeaders, Characteristics, CharacteristicsVal, DOSHeaders, DataDirectories, DataDirectory,
    Headers, OptionalHeaders, StandardFields, Variant, WindowsSpecific,
};
pub use utils::{consume_u16_from_buffer, consume_u32_from_buffer, consume_u64_from_buffer};
