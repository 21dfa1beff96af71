//! The bit extractor: a field of up to sixteen bits anywhere in one or two
//! bytes of the buffer.

use crate::bytes::{le16, read_u16_le};
use crate::error::{DecodeError, Decoded};
use vstd::arithmetic::div_mod::{lemma_div_nonincreasing, lemma_mod_bound, lemma_mod_decreases};
use vstd::arithmetic::power2::{lemma_pow2_pos, pow2};
use vstd::bits::{
    lemma_u32_low_bits_mask_is_mod, lemma_u32_pow2_no_overflow, lemma_u32_shl_is_mul,
    lemma_u32_shr_is_div, low_bits_mask,
};
use vstd::prelude::*;

verus! {

/// How many bytes hold a field of `bits` bits that starts `shift` bits into
/// its first byte.
pub open spec fn byte_span(bits: nat, shift: nat) -> nat {
    (bits + shift + 7) / 8
}

/// The `bits` bits of `word` that start at bit `shift`, as a number.
pub open spec fn field_of(word: nat, bits: nat, shift: nat) -> nat {
    (word / pow2(shift)) % pow2(bits)
}

/// What extracting a field gives. A field of one to eight bits in all,
/// shift included, is taken from the byte at `offset`; one of nine to
/// sixteen from the little-endian word there. Any other width is refused
/// before the buffer is touched, and the error says at which offset.
pub open spec fn extracted(sram: Seq<u8>, offset: int, bits: nat, shift: nat) -> Decoded<u32> {
    if byte_span(bits, shift) == 1 {
        if 0 <= offset < sram.len() {
            Ok(field_of(sram[offset] as nat, bits, shift) as u32)
        } else {
            Err(DecodeError::OutOfBounds)
        }
    } else if byte_span(bits, shift) == 2 {
        if 0 <= offset && offset + 2 <= sram.len() {
            Ok(field_of(le16(sram, offset) as nat, bits, shift) as u32)
        } else {
            Err(DecodeError::OutOfBounds)
        }
    } else {
        Err(DecodeError::WidthOverflow(offset as usize))
    }
}

/// A field never exceeds its width.
pub proof fn lemma_field_of_bound(word: nat, bits: nat, shift: nat)
    ensures
        field_of(word, bits, shift) < pow2(bits),
        field_of(word, bits, shift) <= word,
{
    lemma_pow2_pos(bits);
    lemma_pow2_pos(shift);
    let shifted = word / pow2(shift);
    lemma_mod_bound(shifted as int, pow2(bits) as int);
    lemma_mod_decreases(shifted, pow2(bits));
    lemma_div_nonincreasing(word as int, pow2(shift) as int);
}

/// The mask whose low `bits` bits are set.
pub fn bitmask(bits: u32) -> (mask: u32)
    requires
        bits < 32,
    ensures
        mask == low_bits_mask(bits as nat),
{
    proof {
        lemma_u32_pow2_no_overflow(bits as nat);
        lemma_u32_shl_is_mul(1u32, bits);
    }
    (1u32 << bits) - 1u32
}

/// Extracts the field of `bits` bits that starts `shift` bits into the byte
/// at `offset`.
pub fn read_bits(sram: &[u8], offset: usize, bits: u32, shift: u32) -> (value: Decoded<u32>)
    ensures
        value == extracted(sram@, offset as int, bits as nat, shift as nat),
{
    let total: u64 = bits as u64 + shift as u64;
    if total == 0 || total > 16 {
        return Err(DecodeError::WidthOverflow(offset));
    }
    let word: u32 = if total <= 8 {
        if offset < sram.len() {
            sram[offset] as u32
        } else {
            return Err(DecodeError::OutOfBounds);
        }
    } else {
        match read_u16_le(sram, offset) {
            Ok(w) => w as u32,
            Err(e) => {
                return Err(e);
            },
        }
    };
    let mask = bitmask(bits);
    proof {
        lemma_u32_shr_is_div(word, shift);
        lemma_u32_low_bits_mask_is_mod(word >> shift, bits as nat);
        lemma_u32_pow2_no_overflow(bits as nat);
        lemma_field_of_bound(word as nat, bits as nat, shift as nat);
    }
    Ok((word >> shift) & mask)
}

} // verus!
