//! The ways in which validating or decoding a buffer can fail.

use crate::decimal::{decimal, push_decimal};
use vstd::prelude::*;
use vstd::string::StringExecFns;

verus! {

/// Why a buffer was rejected. Decoding stops at the first failure, so a
/// result is either complete or one of these.
#[derive(Clone, Copy, Debug, PartialEq, Eq, Structural)]
pub enum DecodeError {
    /// The buffer is not exactly 32768 bytes long.
    SizeError,
    /// The checksum-validity word or the randomizer marker byte is wrong.
    MarkerError,
    /// The ROM name does not start with a known tag, or the hash id that
    /// follows the tag is not text.
    IdentityError,
    /// The stored inverse checksum does not match the summed region.
    ChecksumError,
    /// A field lies partly or wholly past the end of the buffer.
    OutOfBounds,
    /// The bit field asked for at this offset would span no byte at all,
    /// or more than two bytes.
    WidthOverflow(usize),
    /// A flag field holds a value other than 0 or 1.
    InvalidBoolean,
    /// A code unit of the file name selects no glyph.
    GlyphIndexOutOfRange,
}

/// What decoding gives: a value, or the reason why there is none.
pub type Decoded<T> = Result<T, DecodeError>;

impl DecodeError {
    /// True for the four errors that validation reports.
    pub open spec fn is_validation(self) -> bool {
        self is SizeError || self is MarkerError || self is IdentityError || self is ChecksumError
    }

    /// The message shown for this error. That of a field too wide ends
    /// with the offset at which the field was asked for, in decimal.
    pub open spec fn text(self) -> Seq<char> {
        match self {
            DecodeError::SizeError => "Validation Error: Unexpected file size"@,
            DecodeError::MarkerError => "Validation Error: Invalid file"@,
            DecodeError::IdentityError => "Validation Error: Invalid ROM name"@,
            DecodeError::ChecksumError => "Validation Error: Invalid checksum"@,
            DecodeError::OutOfBounds => "Tried reading past the end of the buffer"@,
            DecodeError::WidthOverflow(offset) => "Tried reading more than two bytes at "@
                + decimal(offset as nat),
            DecodeError::InvalidBoolean => "Expected boolean equipment value"@,
            DecodeError::GlyphIndexOutOfRange => "Invalid File Name"@,
        }
    }

    /// Renders the error as its message.
    pub fn to_string(&self) -> (message: String)
        ensures
            message@ == self.text(),
    {
        match self {
            DecodeError::SizeError => String::from_str("Validation Error: Unexpected file size"),
            DecodeError::MarkerError => String::from_str("Validation Error: Invalid file"),
            DecodeError::IdentityError => String::from_str("Validation Error: Invalid ROM name"),
            DecodeError::ChecksumError => String::from_str("Validation Error: Invalid checksum"),
            DecodeError::OutOfBounds => String::from_str(
                "Tried reading past the end of the buffer",
            ),
            DecodeError::WidthOverflow(offset) => {
                let mut message = String::from_str("Tried reading more than two bytes at ");
                push_decimal(&mut message, *offset as u64);
                message
            },
            DecodeError::InvalidBoolean => String::from_str("Expected boolean equipment value"),
            DecodeError::GlyphIndexOutOfRange => String::from_str("Invalid File Name"),
        }
    }
}

} // verus!
