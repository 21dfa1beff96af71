//! Decoder for the 32 KiB save-state image of a randomized console game.
//!
//! A buffer is checked by [`validate_sram`] and read field by field:
//! [`equipment::read_equipment`] yields what the player carries,
//! [`stats::read_stats`] the names, counters, fractions and durations that
//! the game keeps about a run, and [`report::parse_sram`] both, laid out
//! for display. Each result is a list of named entries in a fixed order;
//! [`lookup::find`] finds an entry by its name.
//!
//! Every function is verified against a contract over the bytes of the
//! buffer. Decoding never panics: a buffer that is too short, a field that
//! is too wide, a flag that is no flag and a name that is no text are each
//! reported as an [`error::DecodeError`], and the first failure ends the
//! decoding.
//!
//! The modules, from the ground up: [`bytes`] reads little-endian words,
//! [`bits`] extracts bit fields, [`validate`] checks a buffer, [`text`]
//! decodes names, [`decimal`] and [`duration`] write numbers and times,
//! [`collect`] says what decoding in order means, and [`equipment`],
//! [`stats`] and [`report`] hold the catalogs of fields and decode them.

pub mod bits;
pub mod bytes;
pub mod collect;
pub mod decimal;
pub mod duration;
pub mod equipment;
pub mod error;
pub mod lookup;
pub mod report;
pub mod stats;
pub mod strings;
pub mod text;
pub mod validate;

pub use crate::bits::bitmask;
pub use crate::validate::validate_sram;
