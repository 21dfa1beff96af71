//! The validator: four checks that a buffer must pass, in order, before any
//! field read from it can be trusted.

use crate::bytes::{le16, u16_at};
use crate::error::{DecodeError, Decoded};
use vstd::arithmetic::div_mod::{lemma_add_mod_noop, lemma_small_mod};
use vstd::prelude::*;

verus! {

/// The only length a save-state image can have.
pub const SRAM_SIZE: usize = 0x8000;

/// Where the checksum-validity word stands.
pub const VALIDITY_OFFSET: usize = 0x3E1;

/// What the checksum-validity word must be.
pub const VALIDITY_WORD: u16 = 0x55AA;

/// Where the randomizer writes its marker byte.
pub const MARKER_OFFSET: usize = 0x4F0;

/// What the marker byte must be.
pub const MARKER_BYTE: u8 = 0xFF;

/// Where the ROM name starts.
pub const ROM_NAME_OFFSET: usize = 0x2000;

/// The tag `VT` in ASCII, which starts the ROM name of one kind of randomized game.
pub const TAG_VT: [u8; 2] = [0x56, 0x54];

/// The tag `ER` in ASCII, which starts the ROM name of the other kind.
pub const TAG_ER: [u8; 2] = [0x45, 0x52];

/// Where the summed region ends and the stored inverse checksum stands.
pub const CHECKSUM_END: usize = 0x4FE;

/// What the checksum and its stored inverse add up to, modulo 2^16.
pub const CHECKSUM_TARGET: u16 = 0x5A5A;

/// The sum of the first `words` little-endian 16-bit words of the buffer.
pub open spec fn word_total(sram: Seq<u8>, words: nat) -> int
    decreases words,
{
    if words == 0 {
        0
    } else {
        word_total(sram, (words - 1) as nat) + le16(sram, 2 * (words - 1))
    }
}

/// The checksum of the buffer: its words below `CHECKSUM_END`, summed
/// modulo 2^16.
pub open spec fn checksum(sram: Seq<u8>) -> int {
    word_total(sram, (CHECKSUM_END / 2) as nat) % 0x1_0000
}

/// The inverse that a buffer with this checksum must store.
pub open spec fn inverse_checksum(sram: Seq<u8>) -> int {
    (CHECKSUM_TARGET - checksum(sram)) % 0x1_0000
}

/// The validity word and the marker byte are both in place.
pub open spec fn has_markers(sram: Seq<u8>) -> bool {
    le16(sram, VALIDITY_OFFSET as int) == VALIDITY_WORD && sram[MARKER_OFFSET as int]
        == MARKER_BYTE
}

/// The ROM name starts with the two bytes of `tag`.
pub open spec fn has_tag(sram: Seq<u8>, tag: [u8; 2]) -> bool {
    &&& sram.len() >= ROM_NAME_OFFSET + 2
    &&& sram[ROM_NAME_OFFSET as int] == tag[0]
    &&& sram[ROM_NAME_OFFSET + 1] == tag[1]
}

/// The ROM name starts with `VT` or with `ER`.
pub open spec fn has_known_tag(sram: Seq<u8>) -> bool {
    has_tag(sram, TAG_VT) || has_tag(sram, TAG_ER)
}

/// The stored inverse checksum is the one that the summed region calls for.
pub open spec fn has_checksum(sram: Seq<u8>) -> bool {
    le16(sram, CHECKSUM_END as int) == inverse_checksum(sram)
}

/// The outcome of validation: the first check that fails, in the order
/// length, markers, ROM tag, checksum.
pub open spec fn validation(sram: Seq<u8>) -> Decoded<()> {
    if sram.len() != SRAM_SIZE {
        Err(DecodeError::SizeError)
    } else if !has_markers(sram) {
        Err(DecodeError::MarkerError)
    } else if !has_known_tag(sram) {
        Err(DecodeError::IdentityError)
    } else if !has_checksum(sram) {
        Err(DecodeError::ChecksumError)
    } else {
        Ok(())
    }
}

/// Sums the words below `CHECKSUM_END` with wraparound.
fn sum_words(sram: &[u8]) -> (sum: u16)
    requires
        sram@.len() >= CHECKSUM_END,
    ensures
        sum == checksum(sram@),
{
    let mut sum: u16 = 0;
    let mut pos: usize = 0;
    while pos < CHECKSUM_END
        invariant
            sram@.len() >= CHECKSUM_END,
            pos <= CHECKSUM_END,
            pos % 2 == 0,
            sum == word_total(sram@, (pos / 2) as nat) % 0x1_0000,
        decreases CHECKSUM_END - pos,
    {
        let word = u16_at(sram, pos);
        proof {
            let before = word_total(sram@, (pos / 2) as nat);
            lemma_add_mod_noop(before, word as int, 0x1_0000);
            lemma_small_mod(word as nat, 0x1_0000);
        }
        sum = sum.wrapping_add(word);
        pos = pos + 2;
    }
    sum
}

/// Tells whether the ROM name starts with the two bytes of `tag`.
pub fn starts_with_tag(sram: &[u8], tag: &[u8; 2]) -> (found: bool)
    ensures
        found == has_tag(sram@, *tag),
{
    sram.len() >= ROM_NAME_OFFSET + 2 && sram[ROM_NAME_OFFSET] == tag[0] && sram[ROM_NAME_OFFSET
        + 1] == tag[1]
}

/// Checks a buffer: its length, its two markers, the tag of its ROM name
/// and its checksum, and reports the first of them that is wrong.
pub fn validate_sram(sram: &[u8]) -> (result: Decoded<()>)
    ensures
        result == validation(sram@),
        sram@.len() != SRAM_SIZE ==> result == Decoded::<()>::Err(DecodeError::SizeError),
{
    if sram.len() != SRAM_SIZE {
        return Err(DecodeError::SizeError);
    }
    if u16_at(sram, VALIDITY_OFFSET) != VALIDITY_WORD || sram[MARKER_OFFSET] != MARKER_BYTE {
        return Err(DecodeError::MarkerError);
    }
    if !starts_with_tag(sram, &TAG_VT) && !starts_with_tag(sram, &TAG_ER) {
        return Err(DecodeError::IdentityError);
    }
    let expected = CHECKSUM_TARGET.wrapping_sub(sum_words(sram));
    if u16_at(sram, CHECKSUM_END) != expected {
        return Err(DecodeError::ChecksumError);
    }
    Ok(())
}

/// A buffer is valid exactly when it has the right length, both markers, a
/// known tag and the inverse of its own checksum; any other buffer is
/// refused with one of the four errors of validation.
pub proof fn validation_accepts_checked_buffers(sram: Seq<u8>)
    ensures
        validation(sram) is Ok <==> (sram.len() == SRAM_SIZE && has_markers(sram)
            && has_known_tag(sram) && has_checksum(sram)),
        validation(sram) matches Err(e) ==> e.is_validation(),
{
}

/// A buffer of any other length than `SRAM_SIZE` is refused for its size,
/// whatever it holds.
pub proof fn validation_checks_size_first(sram: Seq<u8>)
    requires
        sram.len() != SRAM_SIZE,
    ensures
        validation(sram) == Decoded::<()>::Err(DecodeError::SizeError),
{
}

/// What a byte contributes to the word it belongs to: itself as the low
/// byte, 256 times itself as the high byte.
pub open spec fn byte_weight(index: int) -> int {
    if index % 2 == 0 {
        1
    } else {
        0x100
    }
}

/// Replacing one byte among the first `words` words moves their sum by the
/// difference of the two bytes, taken with the weight of the byte's place.
pub proof fn lemma_word_total_update(sram: Seq<u8>, words: nat, index: int, byte: u8)
    requires
        2 * words <= sram.len(),
        0 <= index < 2 * words,
    ensures
        word_total(sram.update(index, byte), words) == word_total(sram, words) + (byte
            - sram[index]) * byte_weight(index),
    decreases words,
{
    let last = 2 * (words - 1);
    if index >= last {
        lemma_word_total_unchanged(sram, (words - 1) as nat, index, byte);
    } else {
        lemma_word_total_update(sram, (words - 1) as nat, index, byte);
    }
}

/// Replacing a byte past the first `words` words leaves their sum as it was.
pub proof fn lemma_word_total_unchanged(sram: Seq<u8>, words: nat, index: int, byte: u8)
    requires
        2 * words <= index < sram.len(),
    ensures
        word_total(sram.update(index, byte), words) == word_total(sram, words),
    decreases words,
{
    if words > 0 {
        lemma_word_total_unchanged(sram, (words - 1) as nat, index, byte);
    }
}

/// Change one byte of the summed region of a buffer that stores the
/// inverse of its checksum, and leave the stored inverse as it is: the
/// buffer no longer stores the inverse of its checksum. It is then refused,
/// and for its checksum unless a marker is wrong or the tag is unknown.
pub proof fn changed_byte_changes_checksum(sram: Seq<u8>, index: int, byte: u8)
    requires
        sram.len() == SRAM_SIZE,
        has_checksum(sram),
        0 <= index < CHECKSUM_END,
        byte != sram[index],
    ensures
        !has_checksum(sram.update(index, byte)),
        validation(sram.update(index, byte)) is Err,
        has_markers(sram.update(index, byte)) && has_known_tag(sram.update(index, byte))
            ==> validation(sram.update(index, byte)) == Decoded::<()>::Err(
            DecodeError::ChecksumError,
        ),
{
    let changed = sram.update(index, byte);
    let words = (CHECKSUM_END / 2) as nat;
    lemma_word_total_update(sram, words, index, byte);
    let before = word_total(sram, words);
    let after = word_total(changed, words);
    let moved = (byte - sram[index]) * byte_weight(index);
    assert(after == before + moved);
    assert(moved != 0 && -0x1_0000 < moved < 0x1_0000);
    assert(before % 0x1_0000 != after % 0x1_0000);
    assert(le16(changed, CHECKSUM_END as int) == le16(sram, CHECKSUM_END as int));
}

/// Take a valid buffer and change one byte of the summed region, but not a
/// byte of the validity word nor the marker byte, and leave the stored
/// inverse checksum as it is: the buffer is then refused for its checksum.
/// (A changed byte of the validity word, or a changed marker byte, is a
/// `MarkerError` first.)
pub proof fn changed_byte_breaks_checksum(sram: Seq<u8>, index: int, byte: u8)
    requires
        validation(sram) is Ok,
        0 <= index < CHECKSUM_END,
        byte != sram[index],
        index != VALIDITY_OFFSET,
        index != VALIDITY_OFFSET + 1,
        index != MARKER_OFFSET,
    ensures
        validation(sram.update(index, byte)) == Decoded::<()>::Err(
            DecodeError::ChecksumError,
        ),
{
    changed_byte_changes_checksum(sram, index, byte);
}

/// A changed byte of the validity word, or a changed marker byte, makes a
/// valid buffer a buffer with a wrong marker.
pub proof fn changed_marker_breaks_markers(sram: Seq<u8>, index: int, byte: u8)
    requires
        validation(sram) is Ok,
        byte != sram[index],
        index == VALIDITY_OFFSET || index == VALIDITY_OFFSET + 1 || index == MARKER_OFFSET,
    ensures
        validation(sram.update(index, byte)) == Decoded::<()>::Err(DecodeError::MarkerError),
{
}

} // verus!
