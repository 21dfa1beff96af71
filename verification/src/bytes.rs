//! Little-endian words of a byte buffer.

use crate::error::{DecodeError, Decoded};
use byteorder::{ByteOrder, LittleEndian};
use vstd::prelude::*;
use vstd::slice::slice_subrange;

verus! {

/// The 16-bit word stored low byte first at `offset`.
pub open spec fn le16(bytes: Seq<u8>, offset: int) -> int {
    bytes[offset] + 0x100 * bytes[offset + 1]
}

/// The 32-bit word stored low byte first at `offset`.
pub open spec fn le32(bytes: Seq<u8>, offset: int) -> int {
    bytes[offset] + 0x100 * bytes[offset + 1] + 0x1_0000 * bytes[offset + 2] + 0x100_0000
        * bytes[offset + 3]
}

/// What reading two bytes at `offset` gives: the word, or `OutOfBounds`
/// when the buffer ends before `offset + 2`.
pub open spec fn word16(sram: Seq<u8>, offset: int) -> Decoded<u16> {
    if 0 <= offset && offset + 2 <= sram.len() {
        Ok(le16(sram, offset) as u16)
    } else {
        Err(DecodeError::OutOfBounds)
    }
}

/// What reading four bytes at `offset` gives: the word, or `OutOfBounds`
/// when the buffer ends before `offset + 4`.
pub open spec fn word32(sram: Seq<u8>, offset: int) -> Decoded<u32> {
    if 0 <= offset && offset + 4 <= sram.len() {
        Ok(le32(sram, offset) as u32)
    } else {
        Err(DecodeError::OutOfBounds)
    }
}

/// `byteorder::LittleEndian::read_u16`, which takes the first two bytes of
/// the slice as a little-endian number and panics on a shorter slice.
/// Trusted: the result is `bytes[0] + 256 * bytes[1]`.
#[verifier::external_body]
fn le_u16(bytes: &[u8]) -> (word: u16)
    requires
        bytes@.len() >= 2,
    ensures
        word == le16(bytes@, 0),
{
    LittleEndian::read_u16(bytes)
}

/// `byteorder::LittleEndian::read_u32`, which takes the first four bytes of
/// the slice as a little-endian number and panics on a shorter slice.
/// Trusted: the result is `bytes[0] + 2^8 * bytes[1] + 2^16 * bytes[2] +
/// 2^24 * bytes[3]`.
#[verifier::external_body]
fn le_u32(bytes: &[u8]) -> (word: u32)
    requires
        bytes@.len() >= 4,
    ensures
        word == le32(bytes@, 0),
{
    LittleEndian::read_u32(bytes)
}

/// The 16-bit little-endian word at `offset`, for a caller that knows it to
/// lie inside the buffer.
pub(crate) fn u16_at(sram: &[u8], offset: usize) -> (word: u16)
    requires
        offset + 2 <= sram@.len(),
    ensures
        word == le16(sram@, offset as int),
{
    assert(sram@.len() == sram.len());
    le_u16(slice_subrange(sram, offset, offset + 2))
}

/// The 32-bit little-endian word at `offset`, for a caller that knows it to
/// lie inside the buffer.
pub(crate) fn u32_at(sram: &[u8], offset: usize) -> (word: u32)
    requires
        offset + 4 <= sram@.len(),
    ensures
        word == le32(sram@, offset as int),
{
    assert(sram@.len() == sram.len());
    le_u32(slice_subrange(sram, offset, offset + 4))
}

/// Reads the 16-bit little-endian word at `offset`.
pub fn read_u16_le(sram: &[u8], offset: usize) -> (word: Decoded<u16>)
    ensures
        word == word16(sram@, offset as int),
{
    if sram.len() < 2 || offset > sram.len() - 2 {
        return Err(DecodeError::OutOfBounds);
    }
    Ok(u16_at(sram, offset))
}

/// Reads the 32-bit little-endian word at `offset`.
pub fn read_u32_le(sram: &[u8], offset: usize) -> (word: Decoded<u32>)
    ensures
        word == word32(sram@, offset as int),
{
    if sram.len() < 4 || offset > sram.len() - 4 {
        return Err(DecodeError::OutOfBounds);
    }
    Ok(u32_at(sram, offset))
}

} // verus!
