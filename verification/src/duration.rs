//! Durations, which the game counts in frames of a sixtieth of a second.

use crate::decimal::{decimal, decimal_reads_back, decimal_value, push_decimal};
use vstd::prelude::*;

verus! {

/// Frames in a second.
pub const FRAMES_PER_SECOND: u32 = 60;

/// Frames in a minute.
pub const FRAMES_PER_MINUTE: u32 = 3600;

/// Frames in an hour.
pub const FRAMES_PER_HOUR: u32 = 216000;

/// The whole hours in a duration.
pub open spec fn hours(frames: nat) -> nat {
    frames / (FRAMES_PER_HOUR as nat)
}

/// The whole minutes past the last whole hour.
pub open spec fn minutes(frames: nat) -> nat {
    frames % (FRAMES_PER_HOUR as nat) / (FRAMES_PER_MINUTE as nat)
}

/// The whole seconds past the last whole minute.
pub open spec fn seconds(frames: nat) -> nat {
    frames % (FRAMES_PER_MINUTE as nat) / (FRAMES_PER_SECOND as nat)
}

/// The frames past the last whole second.
pub open spec fn odd_frames(frames: nat) -> nat {
    frames % (FRAMES_PER_SECOND as nat)
}

/// `n` in decimal, with a zero in front where it has one digit only.
pub open spec fn two_digits(n: nat) -> Seq<char> {
    if n < 10 {
        seq!['0'] + decimal(n)
    } else {
        decimal(n)
    }
}

/// A duration written as `HH:MM:SS.FF`: hours, minutes, seconds and odd
/// frames, each with two digits at least.
pub open spec fn duration_text(frames: nat) -> Seq<char> {
    two_digits(hours(frames)) + seq![':'] + two_digits(minutes(frames)) + seq![':'] + two_digits(
        seconds(frames),
    ) + seq!['.'] + two_digits(odd_frames(frames))
}

/// The four parts of a duration are within their units and add up to it.
pub proof fn duration_parts_add_up(frames: nat)
    ensures
        minutes(frames) < 60,
        seconds(frames) < 60,
        odd_frames(frames) < 60,
        hours(frames) * FRAMES_PER_HOUR + minutes(frames) * FRAMES_PER_MINUTE + seconds(frames)
            * FRAMES_PER_SECOND + odd_frames(frames) == frames,
{
}

/// Each of the four numbers in a written duration reads back as the part
/// it was written from, so that the frame count can be had again from the
/// text: hours times 216000, plus minutes times 3600, plus seconds times
/// 60, plus odd frames.
pub proof fn duration_text_reads_back(frames: nat)
    ensures
        decimal_value(two_digits(hours(frames))) * FRAMES_PER_HOUR + decimal_value(
            two_digits(minutes(frames)),
        ) * FRAMES_PER_MINUTE + decimal_value(two_digits(seconds(frames))) * FRAMES_PER_SECOND
            + decimal_value(two_digits(odd_frames(frames))) == frames,
{
    duration_parts_add_up(frames);
    lemma_two_digits_read_back(hours(frames));
    lemma_two_digits_read_back(minutes(frames));
    lemma_two_digits_read_back(seconds(frames));
    lemma_two_digits_read_back(odd_frames(frames));
}

/// A zero in front does not change what a number reads back as.
pub proof fn lemma_two_digits_read_back(n: nat)
    ensures
        decimal_value(two_digits(n)) == n,
{
    decimal_reads_back(n);
    if n < 10 {
        let padded = seq!['0'] + decimal(n);
        assert(padded.drop_last() =~= seq!['0']);
        assert(seq!['0'].drop_last() =~= Seq::<char>::empty());
        assert(decimal_value(Seq::<char>::empty()) == 0);
        assert(decimal_value(seq!['0']) == 0);
    }
}

/// Appends `n` to `out` with two digits at least.
fn push_two_digits(out: &mut String, n: u32)
    ensures
        final(out)@ == old(out)@ + two_digits(n as nat),
{
    if n < 10 {
        out.push('0');
    }
    push_decimal(out, n as u64);
}

/// Splits a frame count into hours, minutes, seconds and odd frames.
pub fn duration_parts(frames: u32) -> (parts: (u32, u32, u32, u32))
    ensures
        parts.0 == hours(frames as nat),
        parts.1 == minutes(frames as nat),
        parts.2 == seconds(frames as nat),
        parts.3 == odd_frames(frames as nat),
{
    let hours: u32 = frames / FRAMES_PER_HOUR;
    let mut rest: u32 = frames % FRAMES_PER_HOUR;
    let minutes: u32 = rest / FRAMES_PER_MINUTE;
    rest = rest % FRAMES_PER_MINUTE;
    let seconds: u32 = rest / FRAMES_PER_SECOND;
    rest = rest % FRAMES_PER_SECOND;
    (hours, minutes, seconds, rest)
}

/// Writes a frame count as `HH:MM:SS.FF`.
pub fn format_duration(frames: u32) -> (text: String)
    ensures
        text@ == duration_text(frames as nat),
{
    let (hours, minutes, seconds, rest) = duration_parts(frames);
    let mut text = String::new();
    push_two_digits(&mut text, hours);
    text.push(':');
    push_two_digits(&mut text, minutes);
    text.push(':');
    push_two_digits(&mut text, seconds);
    text.push('.');
    push_two_digits(&mut text, rest);
    text
}

} // verus!
