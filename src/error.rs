use vstd::prelude::*;

verus! {

/// A header field whose declared value can place a later region.
#[derive(Debug, Clone, Copy, PartialEq, Eq, Structural)]
pub enum OffsetField {
    /// `DOSHeaders::offset_to_pe_headers`.
    OffsetToPeHeaders,
}

/// Why a buffer could not be decoded.
#[derive(Debug, Clone, Copy, PartialEq, Eq, Structural)]
pub enum DecodeError {
    /// A read of `width` bytes at `attempted_offset` does not fit in a buffer
    /// of `buffer_length` bytes.
    OutOfBounds { attempted_offset: usize, width: usize, buffer_length: usize },
    /// The declared number of data directories exceeds the table's capacity.
    InvalidDirectoryCount { declared: u32, max: u32 },
    /// A declared offset places a region before the end of the one it follows.
    MalformedOffset { field: OffsetField, value: u32 },
}

} // verus!
