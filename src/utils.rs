use vstd::prelude::*;

use crate::error::DecodeError;

verus! {

/// The little-endian value of the two bytes of `b` at `i`.
pub open spec fn le16(b: Seq<u8>, i: int) -> int {
    b[i] as int + 256 * (b[i + 1] as int)
}

/// The little-endian value of the four bytes of `b` at `i`.
pub open spec fn le32(b: Seq<u8>, i: int) -> int {
    le16(b, i) + 0x1_0000 * le16(b, i + 2)
}

/// The little-endian value of the eight bytes of `b` at `i`.
pub open spec fn le64(b: Seq<u8>, i: int) -> int {
    le32(b, i) + 0x1_0000_0000 * le32(b, i + 4)
}

/// The error for a read of `width` bytes at `index` that runs past the buffer.
pub open spec fn out_of_bounds(index: usize, width: usize, len: usize) -> DecodeError {
    DecodeError::OutOfBounds { attempted_offset: index, width, buffer_length: len }
}

/// Reads a little-endian `u16` at the cursor, which must leave room for it.
pub(crate) fn take_u16(buffer: &[u8], index: &mut usize) -> (r: u16)
    requires
        *old(index) + 2 <= buffer@.len(),
    ensures
        r as int == le16(buffer@, *old(index) as int),
        *final(index) == *old(index) + 2,
{
    let i = *index;
    let r = (buffer[i] as u16) + (buffer[i + 1] as u16) * 256;
    *index = i + 2;
    r
}

/// Reads a little-endian `u32` at the cursor, which must leave room for it.
pub(crate) fn take_u32(buffer: &[u8], index: &mut usize) -> (r: u32)
    requires
        *old(index) + 4 <= buffer@.len(),
    ensures
        r as int == le32(buffer@, *old(index) as int),
        *final(index) == *old(index) + 4,
{
    let lo = take_u16(buffer, index);
    let hi = take_u16(buffer, index);
    (hi as u32) * 0x1_0000 + (lo as u32)
}

/// Reads a little-endian `u64` at the cursor, which must leave room for it.
pub(crate) fn take_u64(buffer: &[u8], index: &mut usize) -> (r: u64)
    requires
        *old(index) + 8 <= buffer@.len(),
    ensures
        r as int == le64(buffer@, *old(index) as int),
        *final(index) == *old(index) + 8,
{
    let lo = take_u32(buffer, index);
    let hi = take_u32(buffer, index);
    (hi as u64) * 0x1_0000_0000 + (lo as u64)
}

/// Whether `width` bytes starting at `index` lie inside a buffer of `len` bytes.
pub open spec fn fits(index: int, width: int, len: int) -> bool {
    index + width <= len
}

/// Reads a little-endian `u16` at `*index` and moves the cursor past it.
/// Fails, leaving the cursor alone, when fewer than two bytes remain.
pub fn consume_u16_from_buffer(buffer: &[u8], index: &mut usize) -> (r: Result<u16, DecodeError>)
    ensures
        fits(*old(index) as int, 2, buffer@.len() as int) ==> r is Ok && r->Ok_0 as int == le16(
            buffer@,
            *old(index) as int,
        ) && *final(index) == *old(index) + 2,
        !fits(*old(index) as int, 2, buffer@.len() as int) ==> r == Err::<u16, DecodeError>(
            out_of_bounds(*old(index), 2, buffer@.len() as usize),
        ) && *final(index) == *old(index),
{
    if *index > buffer.len() || buffer.len() - *index < 2 {
        return Err(DecodeError::OutOfBounds {
            attempted_offset: *index,
            width: 2,
            buffer_length: buffer.len(),
        });
    }
    Ok(take_u16(buffer, index))
}

/// Reads a little-endian `u32` at `*index` and moves the cursor past it.
/// Fails, leaving the cursor alone, when fewer than four bytes remain.
pub fn consume_u32_from_buffer(buffer: &[u8], index: &mut usize) -> (r: Result<u32, DecodeError>)
    ensures
        fits(*old(index) as int, 4, buffer@.len() as int) ==> r is Ok && r->Ok_0 as int == le32(
            buffer@,
            *old(index) as int,
        ) && *final(index) == *old(index) + 4,
        !fits(*old(index) as int, 4, buffer@.len() as int) ==> r == Err::<u32, DecodeError>(
            out_of_bounds(*old(index), 4, buffer@.len() as usize),
        ) && *final(index) == *old(index),
{
    if *index > buffer.len() || buffer.len() - *index < 4 {
        return Err(DecodeError::OutOfBounds {
            attempted_offset: *index,
            width: 4,
            buffer_length: buffer.len(),
        });
    }
    Ok(take_u32(buffer, index))
}

/// Reads a little-endian `u64` at `*index` and moves the cursor past it.
/// Fails, leaving the cursor alone, when fewer than eight bytes remain.
pub fn consume_u64_from_buffer(buffer: &[u8], index: &mut usize) -> (r: Result<u64, DecodeError>)
    ensures
        fits(*old(index) as int, 8, buffer@.len() as int) ==> r is Ok && r->Ok_0 as int == le64(
            buffer@,
            *old(index) as int,
        ) && *final(index) == *old(index) + 8,
        !fits(*old(index) as int, 8, buffer@.len() as int) ==> r == Err::<u64, DecodeError>(
            out_of_bounds(*old(index), 8, buffer@.len() as usize),
        ) && *final(index) == *old(index),
{
    if *index > buffer.len() || buffer.len() - *index < 8 {
        return Err(DecodeError::OutOfBounds {
            attempted_offset: *index,
            width: 8,
            buffer_length: buffer.len(),
        });
    }
    Ok(take_u64(buffer, index))
}

} // verus!
