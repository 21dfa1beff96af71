//! What the game keeps about a run: the names of the file and of the
//! ROM, counters, fractions of what there is to find, and durations.

use crate::bits::{extracted, read_bits};
use crate::bytes::{read_u32_le, word32};
use crate::collect::{collect, followed_by, lemma_collect_all, lemma_collect_stops};
use crate::decimal::{decimal, decimal_string, push_decimal};
use crate::duration::{duration_text, format_duration};
use crate::error::{DecodeError, Decoded};
use crate::lookup::{distinct_names_are_found_in_place, mark, names_of, position};
use crate::strings::utf8_text;
use crate::text::{decode_file_name, file_name, lemma_file_name_inside, name_is_known};
use crate::validate::{
    has_tag, starts_with_tag, validate_sram, validation, ROM_NAME_OFFSET, SRAM_SIZE, TAG_VT,
};
use vstd::prelude::*;
use vstd::slice::slice_subrange;
use vstd::std_specs::convert::TryFromSpecImpl;
use vstd::string::StringExecFns;
use vstd::utf8::{decode_utf8, valid_utf8};

verus! {

/// One decoded statistic. A fraction and a duration carry the text they
/// are shown as and, beside it, the numbers it was written from, so that
/// nothing has to be read back out of the text.
#[derive(Debug, PartialEq, Eq)]
pub enum Z3RStat {
    /// A name or another text, or the lack of one.
    Meta(Option<String>),
    /// A plain counter.
    Number(u32),
    /// How much of a total was found: the text `found/total`, then the
    /// number found and the total.
    Fraction(String, u32, u8),
    /// A duration: the text `HH:MM:SS.FF`, then the frames it lasted.
    Time(String, u32),
}

/// A statistic as contracts see it: each text by its characters.
pub enum StatView {
    /// A name or another text, or the lack of one.
    Meta(Option<Seq<char>>),
    /// A plain counter.
    Number(u32),
    /// The text, the number found and the total.
    Fraction(Seq<char>, u32, u8),
    /// The text and the frames.
    Time(Seq<char>, u32),
}

/// What converting a name or another text to a number fails with.
#[derive(Clone, Copy, Debug, PartialEq, Eq, Structural)]
pub struct NotNumeric;

impl NotNumeric {
    /// The message shown for this error.
    pub open spec fn text(self) -> Seq<char> {
        "Can't convert non-numeric Z3Rstat to u32"@
    }

    /// Renders the error as its message.
    pub fn to_string(&self) -> (message: String)
        ensures
            message@ == self.text(),
    {
        String::from_str("Can't convert non-numeric Z3Rstat to u32")
    }
}

impl View for Z3RStat {
    type V = StatView;

    open spec fn view(&self) -> StatView {
        match self {
            Z3RStat::Meta(Some(text)) => StatView::Meta(Some(text@)),
            Z3RStat::Meta(None) => StatView::Meta(None),
            Z3RStat::Number(n) => StatView::Number(*n),
            Z3RStat::Fraction(text, found, total) => StatView::Fraction(text@, *found, *total),
            Z3RStat::Time(text, frames) => StatView::Time(text@, *frames),
        }
    }
}

/// A fraction as it is shown: the number found, a slash, the total.
pub open spec fn fraction_text(found: u32, total: u8) -> Seq<char> {
    decimal(found as nat) + seq!['/'] + decimal(total as nat)
}

/// The fraction of `found` out of `total`.
pub open spec fn fraction_view(found: u32, total: u8) -> StatView {
    StatView::Fraction(fraction_text(found, total), found, total)
}

/// The duration of `frames` frames.
pub open spec fn time_view(frames: u32) -> StatView {
    StatView::Time(duration_text(frames as nat), frames)
}

impl StatView {
    /// The text of a fraction or of a duration is the one that its numbers
    /// are shown as.
    pub open spec fn wf(self) -> bool {
        match self {
            StatView::Fraction(text, found, total) => text == fraction_text(found, total),
            StatView::Time(text, frames) => text == duration_text(frames as nat),
            _ => true,
        }
    }

    /// How the statistic is shown: a text as it is, the lack of one as
    /// `none`, a counter in decimal, a fraction or a duration by its text.
    pub open spec fn text(self) -> Seq<char> {
        match self {
            StatView::Meta(Some(text)) => text,
            StatView::Meta(None) => "none"@,
            StatView::Number(n) => decimal(n as nat),
            StatView::Fraction(text, _, _) => text,
            StatView::Time(text, _) => text,
        }
    }

    /// The number that the statistic stands for: a counter itself, the
    /// number found of a fraction, the frames of a duration. A text stands
    /// for none.
    pub open spec fn number(self) -> Option<u32> {
        match self {
            StatView::Meta(_) => None,
            StatView::Number(n) => Some(n),
            StatView::Fraction(_, found, _) => Some(found),
            StatView::Time(_, frames) => Some(frames),
        }
    }
}

impl Clone for Z3RStat {
    fn clone(&self) -> (copy: Z3RStat)
        ensures
            copy@ == self@,
    {
        match self {
            Z3RStat::Meta(Some(text)) => Z3RStat::Meta(Some(text.clone())),
            Z3RStat::Meta(None) => Z3RStat::Meta(None),
            Z3RStat::Number(n) => Z3RStat::Number(*n),
            Z3RStat::Fraction(text, found, total) => Z3RStat::Fraction(
                text.clone(),
                *found,
                *total,
            ),
            Z3RStat::Time(text, frames) => Z3RStat::Time(text.clone(), *frames),
        }
    }
}

impl Z3RStat {
    /// The fraction of `found` out of `total`.
    pub fn new_fraction(found: u32, total: u8) -> (stat: Z3RStat)
        ensures
            stat@ == fraction_view(found, total),
            stat@.wf(),
    {
        let mut text = String::new();
        push_decimal(&mut text, found as u64);
        text.push('/');
        push_decimal(&mut text, total as u64);
        assert(text@ =~= fraction_text(found, total));
        Z3RStat::Fraction(text, found, total)
    }

    /// The duration of `frames` frames.
    pub fn new_time(frames: u32) -> (stat: Z3RStat)
        ensures
            stat@ == time_view(frames),
            stat@.wf(),
    {
        Z3RStat::Time(format_duration(frames), frames)
    }

    /// Renders the statistic for display.
    pub fn to_string(&self) -> (shown: String)
        ensures
            shown@ == self@.text(),
    {
        match self {
            Z3RStat::Meta(Some(text)) => text.clone(),
            Z3RStat::Meta(None) => String::from_str("none"),
            Z3RStat::Number(n) => decimal_string(*n as u64),
            Z3RStat::Fraction(text, _, _) => text.clone(),
            Z3RStat::Time(text, _) => text.clone(),
        }
    }
}

impl<'a> TryFrom<&'a Z3RStat> for u32 {
    type Error = NotNumeric;

    /// The number that a statistic stands for.
    fn try_from(stat: &'a Z3RStat) -> (number: Result<u32, NotNumeric>) {
        match stat {
            Z3RStat::Meta(_) => Err(NotNumeric),
            Z3RStat::Number(n) => Ok(*n),
            Z3RStat::Fraction(_, found, _) => Ok(*found),
            Z3RStat::Time(_, frames) => Ok(*frames),
        }
    }
}

impl<'a> TryFromSpecImpl<&'a Z3RStat> for u32 {
    open spec fn obeys_try_from_spec() -> bool {
        true
    }

    open spec fn try_from_spec(stat: &'a Z3RStat) -> Result<u32, NotNumeric> {
        match stat@.number() {
            Some(n) => Ok(n),
            None => Err(NotNumeric),
        }
    }
}

/// A decoded statistic under its name.
pub type StatEntry = (&'static str, Z3RStat);

/// A list of decoded statistics as contracts see it: each name and each
/// text by its characters.
pub type StatList = Seq<(Seq<char>, StatView)>;

/// One line of the catalog of fractions: the field's name, the offset of
/// its first byte, its width in bits, the number of bits below it in that
/// byte, and the total that it is a part of.
pub type FractionField = (&'static str, usize, u32, u32, u8);

/// One line of the catalog of counters: the field's name, the offset of
/// its first byte, its width in bits, and the number of bits below it in
/// that byte.
pub type CounterField = (&'static str, usize, u32, u32);

/// One line of the catalog of durations: the field's name and the offset
/// of its four bytes.
pub type TimeField = (&'static str, usize);

/// How many locations were checked, out of all there are.
pub const COLLECTION_RATE: FractionField = ("collection rate", 0x423, 8, 0, 216);

/// How many of the checked locations were chests.
pub const CHEST_LOCATIONS: CounterField = ("chest locations", 0x442, 8, 0);

/// The fractions that are listed as they are read.
pub const FRACTION_FIELDS: [FractionField; 34] = [
    ("y items", 0x421, 5, 3, 27),
    ("a items", 0x421, 3, 0, 5),
    ("swords", 0x422, 3, 5, 4),
    ("shields", 0x422, 2, 3, 3),
    ("mails", 0x424, 2, 6, 3),
    ("capacity upgrades", 0x452, 4, 0, 15),
    ("heart containers", 0x429, 4, 4, 11),
    ("heart pieces", 0x448, 8, 0, 24),
    ("maps", 0x428, 4, 4, 12),
    ("compasses", 0x428, 4, 0, 11),
    ("small keys", 0x424, 6, 0, 61),
    ("big keys", 0x427, 4, 4, 12),
    ("big chests", 0x427, 4, 0, 11),
    ("pendants", 0x429, 2, 0, 3),
    ("crystals", 0x422, 3, 0, 7),
    ("hyrule castle", 0x434, 4, 4, 8),
    ("eastern palace", 0x436, 3, 0, 6),
    ("desert palace", 0x435, 3, 5, 6),
    ("tower of hera", 0x435, 3, 2, 5),
    ("castle tower", 0x435, 2, 0, 2),
    ("palace of darkness", 0x434, 4, 0, 14),
    ("swamp palace", 0x439, 4, 0, 10),
    ("skull woods", 0x437, 4, 4, 8),
    ("thieves town", 0x437, 4, 0, 8),
    ("ice palace", 0x438, 4, 4, 8),
    ("misery mire", 0x438, 4, 0, 8),
    ("turtle rock", 0x439, 4, 4, 12),
    ("ganons tower", 0x436, 5, 3, 27),
    ("ganons tower big key", 0x42A, 5, 0, 22),
    ("swordless bosses", 0x452, 4, 4, 13),
    ("fighter sword bosses", 0x426, 4, 4, 13),
    ("master sword bosses", 0x426, 4, 0, 13),
    ("tempered sword bosses", 0x425, 4, 4, 13),
    ("golden sword bosses", 0x425, 4, 0, 13),
];

/// The counters that are listed as they are read.
pub const COUNTER_FIELDS: [CounterField; 11] = [
    ("locations pre boots", 0x432, 8, 0),
    ("locations pre mirror", 0x433, 8, 0),
    ("bonks", 0x420, 8, 0),
    ("overworld mirrors", 0x43A, 8, 0),
    ("underworld mirrors", 0x43B, 8, 0),
    ("times fluted", 0x44B, 8, 0),
    ("screen transitions", 0x43C, 16, 0),
    ("rupees spent", 0x42B, 16, 0),
    ("save and quits", 0x42D, 8, 0),
    ("deaths", 0x449, 8, 0),
    ("faerie revivals", 0x453, 8, 0),
];

/// How long the game ran in all.
pub const TOTAL_TIME: TimeField = ("total time", 0x43E);

/// How long the menu was open.
pub const MENU_TIME: TimeField = ("menu time", 0x444);

/// How long the game loop ran; what is left of the total is lag.
pub const LOOP_TIME: TimeField = ("loop time", 0x42E);

/// The durations that are listed as they are read.
pub const TIME_FIELDS: [TimeField; 4] = [
    ("first sword", 0x458),
    ("boots found", 0x45C),
    ("flute found", 0x460),
    ("mirror found", 0x464),
];

/// Where the hash id stands in the ROM name: its first byte, and the byte
/// after its last.
pub const HASH_ID: (usize, usize) = (0x2003, 0x200D);

/// What stands before the hash id in the address of the game's page.
pub const PERMALINK_BASE: &'static str = "https://alttpr.com/h/";

/// What one field decodes to: its bits are extracted, and shown as a
/// fraction of `total` where there is one, as a counter where not.
pub open spec fn stat_at(
    sram: Seq<u8>,
    offset: int,
    bits: nat,
    shift: nat,
    total: Option<u8>,
) -> Decoded<StatView> {
    match extracted(sram, offset, bits, shift) {
        Ok(raw) => Ok(
            match total {
                Some(total) => fraction_view(raw, total),
                None => StatView::Number(raw),
            },
        ),
        Err(e) => Err(e),
    }
}

/// The duration that the four bytes at `offset` hold.
pub open spec fn time_at(sram: Seq<u8>, offset: int) -> Decoded<StatView> {
    match word32(sram, offset) {
        Ok(frames) => Ok(time_view(frames)),
        Err(e) => Err(e),
    }
}

/// A value under a name, or the error that stood in its place.
pub open spec fn entry(
    name: Seq<char>,
    value: Decoded<StatView>,
) -> Decoded<(Seq<char>, StatView)> {
    match value {
        Ok(value) => Ok((name, value)),
        Err(e) => Err(e),
    }
}

/// What a line of the catalog of fractions decodes to.
pub open spec fn fraction_item(
    sram: Seq<u8>,
    field: FractionField,
) -> Decoded<(Seq<char>, StatView)> {
    entry(field.0@, stat_at(sram, field.1 as int, field.2 as nat, field.3 as nat, Some(field.4)))
}

/// What a line of the catalog of counters decodes to.
pub open spec fn counter_item(
    sram: Seq<u8>,
    field: CounterField,
) -> Decoded<(Seq<char>, StatView)> {
    entry(field.0@, stat_at(sram, field.1 as int, field.2 as nat, field.3 as nat, None))
}

/// What a line of the catalog of durations decodes to.
pub open spec fn time_item(sram: Seq<u8>, field: TimeField) -> Decoded<(Seq<char>, StatView)> {
    entry(field.0@, time_at(sram, field.1 as int))
}

/// What the lines of a catalog of fractions decode to, by their place.
pub open spec fn fraction_items(
    sram: Seq<u8>,
    fields: Seq<FractionField>,
) -> spec_fn(int) -> Decoded<(Seq<char>, StatView)> {
    |i: int| fraction_item(sram, fields[i])
}

/// What the lines of a catalog of counters decode to, by their place.
pub open spec fn counter_items(
    sram: Seq<u8>,
    fields: Seq<CounterField>,
) -> spec_fn(int) -> Decoded<(Seq<char>, StatView)> {
    |i: int| counter_item(sram, fields[i])
}

/// What the lines of a catalog of durations decode to, by their place.
pub open spec fn time_items(
    sram: Seq<u8>,
    fields: Seq<TimeField>,
) -> spec_fn(int) -> Decoded<(Seq<char>, StatView)> {
    |i: int| time_item(sram, fields[i])
}

/// What a catalog of fractions decodes to: every field in order, or the
/// error of the first field that fails.
pub open spec fn decoded_fractions(sram: Seq<u8>, fields: Seq<FractionField>) -> Decoded<StatList> {
    collect(fraction_items(sram, fields), fields.len())
}

/// What a catalog of counters decodes to: every field in order, or the
/// error of the first field that fails.
pub open spec fn decoded_counters(sram: Seq<u8>, fields: Seq<CounterField>) -> Decoded<StatList> {
    collect(counter_items(sram, fields), fields.len())
}

/// What a catalog of durations decodes to: every field in order, or the
/// error of the first field that fails.
pub open spec fn decoded_times(sram: Seq<u8>, fields: Seq<TimeField>) -> Decoded<StatList> {
    collect(time_items(sram, fields), fields.len())
}

/// The hash id of the game. A buffer that ends before the tag of the ROM
/// name does is refused. A ROM name with another tag than `VT` has no id,
/// and the buffer may end where it likes after the tag. Under `VT` a
/// buffer that ends before the id does is refused; the ten bytes of the id
/// are taken as UTF-8, and refused where they are not.
pub open spec fn hash_id(sram: Seq<u8>) -> Decoded<StatView> {
    if sram.len() < ROM_NAME_OFFSET + 2 {
        Err(DecodeError::OutOfBounds)
    } else if !has_tag(sram, TAG_VT) {
        Ok(StatView::Meta(None))
    } else if sram.len() < HASH_ID.1 {
        Err(DecodeError::OutOfBounds)
    } else if valid_utf8(sram.subrange(HASH_ID.0 as int, HASH_ID.1 as int)) {
        Ok(StatView::Meta(Some(decode_utf8(sram.subrange(HASH_ID.0 as int, HASH_ID.1 as int)))))
    } else {
        Err(DecodeError::IdentityError)
    }
}

/// The address of the game's page, where the game has a hash id.
pub open spec fn permalink(id: StatView) -> StatView {
    match id {
        StatView::Meta(Some(id)) => StatView::Meta(Some(PERMALINK_BASE@ + id)),
        _ => StatView::Meta(None),
    }
}

/// The file name as a statistic.
pub open spec fn file_name_stat(sram: Seq<u8>) -> Decoded<StatView> {
    match file_name(sram) {
        Ok(name) => Ok(StatView::Meta(Some(name))),
        Err(e) => Err(e),
    }
}

/// The names: the hash id, the permalink made from it, and the file name.
pub open spec fn meta_stats(sram: Seq<u8>) -> Decoded<StatList> {
    match hash_id(sram) {
        Err(e) => Err(e),
        Ok(id) => match file_name_stat(sram) {
            Err(e) => Err(e),
            Ok(name) => Ok(
                seq![("hash id"@, id), ("permalink"@, permalink(id)), ("filename"@, name)],
            ),
        },
    }
}

/// The difference of two counters, modulo 2^32.
pub open spec fn difference(from: u32, take: u32) -> u32 {
    ((from - take) % 0x1_0000_0000) as u32
}

/// The checked locations: those that were no chests, then all of them as a
/// fraction, then the chests.
pub open spec fn location_stats(sram: Seq<u8>) -> Decoded<StatList> {
    match extracted(
        sram,
        COLLECTION_RATE.1 as int,
        COLLECTION_RATE.2 as nat,
        COLLECTION_RATE.3 as nat,
    ) {
        Err(e) => Err(e),
        Ok(checked) => match extracted(
            sram,
            CHEST_LOCATIONS.1 as int,
            CHEST_LOCATIONS.2 as nat,
            CHEST_LOCATIONS.3 as nat,
        ) {
            Err(e) => Err(e),
            Ok(chests) => Ok(
                seq![
                    ("other locations"@, StatView::Number(difference(checked, chests))),
                    (COLLECTION_RATE.0@, fraction_view(checked, COLLECTION_RATE.4)),
                    (CHEST_LOCATIONS.0@, StatView::Number(chests)),
                ],
            ),
        },
    }
}

/// The three clocks: the lag, which is the total less the game loop, then
/// the total, then the menu.
pub open spec fn clock_stats(sram: Seq<u8>) -> Decoded<StatList> {
    match word32(sram, TOTAL_TIME.1 as int) {
        Err(e) => Err(e),
        Ok(total) => match word32(sram, MENU_TIME.1 as int) {
            Err(e) => Err(e),
            Ok(menu) => match word32(sram, LOOP_TIME.1 as int) {
                Err(e) => Err(e),
                Ok(in_loop) => Ok(
                    seq![
                        ("lag time"@, time_view(difference(total, in_loop))),
                        (TOTAL_TIME.0@, time_view(total)),
                        (MENU_TIME.0@, time_view(menu)),
                    ],
                ),
            },
        },
    }
}

/// What is counted and timed: the checked locations, the listed fractions
/// and counters, the three clocks and the listed durations. They are
/// decoded in this order, and the first that fails decides the error.
pub open spec fn counted_stats(sram: Seq<u8>) -> Decoded<StatList> {
    followed_by(
        location_stats(sram),
        followed_by(
            decoded_fractions(sram, FRACTION_FIELDS@),
            followed_by(
                decoded_counters(sram, COUNTER_FIELDS@),
                followed_by(clock_stats(sram), decoded_times(sram, TIME_FIELDS@)),
            ),
        ),
    )
}

/// The statistics in a buffer: the names, then what is counted and timed.
/// The names are decoded first.
pub open spec fn decoded_stats(sram: Seq<u8>) -> Decoded<StatList> {
    followed_by(meta_stats(sram), counted_stats(sram))
}

/// What reading the statistics gives: with `validate`, the error of
/// validation where it fails; otherwise, and without `validate`, what the
/// buffer decodes to.
pub open spec fn stats_outcome(sram: Seq<u8>, validate: bool) -> Decoded<StatList> {
    if validate && validation(sram) is Err {
        Err(validation(sram)->Err_0)
    } else {
        decoded_stats(sram)
    }
}

/// Entries as contracts see them: each name and each text by its
/// characters.
pub open spec fn listed(entries: Seq<StatEntry>) -> StatList {
    entries.map_values(|entry: StatEntry| (entry.0@, entry.1@))
}

/// A list of entries, or an error, as contracts see it.
pub open spec fn listed_result(decoded: Decoded<Vec<StatEntry>>) -> Decoded<StatList> {
    match decoded {
        Ok(entries) => Ok(listed(entries@)),
        Err(e) => Err(e),
    }
}

/// A statistic, or an error, as contracts see it.
pub open spec fn stat_result(decoded: Decoded<Z3RStat>) -> Decoded<StatView> {
    match decoded {
        Ok(stat) => Ok(stat@),
        Err(e) => Err(e),
    }
}

/// Decodes the field of `bits` bits that starts `shift` bits into the byte
/// at `offset`, as a fraction of `max` where there is one.
pub fn get_stat(
    sram: &[u8],
    offset: usize,
    bits: u32,
    shift: u32,
    max: Option<u8>,
) -> (stat: Decoded<Z3RStat>)
    ensures
        stat_result(stat) == stat_at(sram@, offset as int, bits as nat, shift as nat, max),
        stat matches Ok(decoded) ==> decoded@.wf(),
{
    match read_bits(sram, offset, bits, shift) {
        Ok(raw) => Ok(
            match max {
                Some(total) => Z3RStat::new_fraction(raw, total),
                None => Z3RStat::Number(raw),
            },
        ),
        Err(e) => Err(e),
    }
}

/// Decodes the duration that the four bytes at `offset` hold.
pub fn get_time(sram: &[u8], offset: usize) -> (stat: Decoded<Z3RStat>)
    ensures
        stat_result(stat) == time_at(sram@, offset as int),
        stat matches Ok(decoded) ==> decoded@.wf(),
{
    match read_u32_le(sram, offset) {
        Ok(frames) => Ok(Z3RStat::new_time(frames)),
        Err(e) => Err(e),
    }
}

/// Decodes the hash id of the game.
pub fn get_hash_id(sram: &[u8]) -> (id: Decoded<Z3RStat>)
    ensures
        stat_result(id) == hash_id(sram@),
{
    if sram.len() < ROM_NAME_OFFSET + 2 {
        return Err(DecodeError::OutOfBounds);
    }
    if !starts_with_tag(sram, &TAG_VT) {
        return Ok(Z3RStat::Meta(None));
    }
    if sram.len() < HASH_ID.1 {
        return Err(DecodeError::OutOfBounds);
    }
    match utf8_text(slice_subrange(sram, HASH_ID.0, HASH_ID.1)) {
        Some(id) => Ok(Z3RStat::Meta(Some(String::from_str(id)))),
        None => Err(DecodeError::IdentityError),
    }
}

/// Decodes the file name.
pub fn z3rfile_to_unicode(sram: &[u8]) -> (name: Decoded<Z3RStat>)
    ensures
        stat_result(name) == file_name_stat(sram@),
{
    match decode_file_name(sram) {
        Ok(name) => Ok(Z3RStat::Meta(Some(name))),
        Err(e) => Err(e),
    }
}

/// Decodes the fields of a catalog of fractions in order.
pub fn decode_fractions(sram: &[u8], fields: &[FractionField]) -> (decoded: Decoded<Vec<StatEntry>>)
    ensures
        listed_result(decoded) == decoded_fractions(sram@, fields@),
{
    let mut entries: Vec<StatEntry> = Vec::new();
    let mut done: usize = 0;
    assert(listed(entries@) =~= Seq::empty());
    while done < fields.len()
        invariant
            done <= fields@.len(),
            collect(fraction_items(sram@, fields@), done as nat) == Decoded::<StatList>::Ok(
                listed(entries@),
            ),
        decreases fields@.len() - done,
    {
        let field = &fields[done];
        match get_stat(sram, field.1, field.2, field.3, Some(field.4)) {
            Ok(stat) => {
                let ghost before = listed(entries@);
                let ghost value = stat@;
                entries.push((field.0, stat));
                assert(listed(entries@) =~= before.push((field.0@, value)));
            },
            Err(e) => {
                proof {
                    lemma_collect_stops(
                        fraction_items(sram@, fields@),
                        (done + 1) as nat,
                        fields@.len(),
                    );
                }
                return Err(e);
            },
        }
        done = done + 1;
    }
    Ok(entries)
}

/// Decodes the fields of a catalog of counters in order.
pub fn decode_counters(sram: &[u8], fields: &[CounterField]) -> (decoded: Decoded<Vec<StatEntry>>)
    ensures
        listed_result(decoded) == decoded_counters(sram@, fields@),
{
    let mut entries: Vec<StatEntry> = Vec::new();
    let mut done: usize = 0;
    assert(listed(entries@) =~= Seq::empty());
    while done < fields.len()
        invariant
            done <= fields@.len(),
            collect(counter_items(sram@, fields@), done as nat) == Decoded::<StatList>::Ok(
                listed(entries@),
            ),
        decreases fields@.len() - done,
    {
        let field = &fields[done];
        match get_stat(sram, field.1, field.2, field.3, None) {
            Ok(stat) => {
                let ghost before = listed(entries@);
                let ghost value = stat@;
                entries.push((field.0, stat));
                assert(listed(entries@) =~= before.push((field.0@, value)));
            },
            Err(e) => {
                proof {
                    lemma_collect_stops(
                        counter_items(sram@, fields@),
                        (done + 1) as nat,
                        fields@.len(),
                    );
                }
                return Err(e);
            },
        }
        done = done + 1;
    }
    Ok(entries)
}

/// Decodes the fields of a catalog of durations in order.
pub fn decode_times(sram: &[u8], fields: &[TimeField]) -> (decoded: Decoded<Vec<StatEntry>>)
    ensures
        listed_result(decoded) == decoded_times(sram@, fields@),
{
    let mut entries: Vec<StatEntry> = Vec::new();
    let mut done: usize = 0;
    assert(listed(entries@) =~= Seq::empty());
    while done < fields.len()
        invariant
            done <= fields@.len(),
            collect(time_items(sram@, fields@), done as nat) == Decoded::<StatList>::Ok(
                listed(entries@),
            ),
        decreases fields@.len() - done,
    {
        let field = &fields[done];
        match get_time(sram, field.1) {
            Ok(stat) => {
                let ghost before = listed(entries@);
                let ghost value = stat@;
                entries.push((field.0, stat));
                assert(listed(entries@) =~= before.push((field.0@, value)));
            },
            Err(e) => {
                proof {
                    lemma_collect_stops(
                        time_items(sram@, fields@),
                        (done + 1) as nat,
                        fields@.len(),
                    );
                }
                return Err(e);
            },
        }
        done = done + 1;
    }
    Ok(entries)
}

/// Decodes the names: the hash id, the permalink and the file name.
pub fn read_meta(sram: &[u8]) -> (decoded: Decoded<Vec<StatEntry>>)
    ensures
        listed_result(decoded) == meta_stats(sram@),
{
    let id = match get_hash_id(sram) {
        Ok(id) => id,
        Err(e) => {
            return Err(e);
        },
    };
    let name = match z3rfile_to_unicode(sram) {
        Ok(name) => name,
        Err(e) => {
            return Err(e);
        },
    };
    let link = match &id {
        Z3RStat::Meta(Some(id)) => {
            let mut link = String::from_str(PERMALINK_BASE);
            link.append(id.as_str());
            Z3RStat::Meta(Some(link))
        },
        _ => Z3RStat::Meta(None),
    };
    let mut entries: Vec<StatEntry> = Vec::new();
    entries.push(("hash id", id));
    entries.push(("permalink", link));
    entries.push(("filename", name));
    assert(listed(entries@) =~= meta_stats(sram@)->Ok_0);
    Ok(entries)
}

/// Subtracts one counter from another, modulo 2^32.
pub fn subtract(from: u32, take: u32) -> (left: u32)
    ensures
        left == difference(from, take),
{
    from.wrapping_sub(take)
}

/// Decodes the checked locations.
pub fn read_locations(sram: &[u8]) -> (decoded: Decoded<Vec<StatEntry>>)
    ensures
        listed_result(decoded) == location_stats(sram@),
{
    let checked = match read_bits(sram, COLLECTION_RATE.1, COLLECTION_RATE.2, COLLECTION_RATE.3) {
        Ok(checked) => checked,
        Err(e) => {
            return Err(e);
        },
    };
    let chests = match read_bits(sram, CHEST_LOCATIONS.1, CHEST_LOCATIONS.2, CHEST_LOCATIONS.3) {
        Ok(chests) => chests,
        Err(e) => {
            return Err(e);
        },
    };
    let mut entries: Vec<StatEntry> = Vec::new();
    entries.push(("other locations", Z3RStat::Number(subtract(checked, chests))));
    entries.push((COLLECTION_RATE.0, Z3RStat::new_fraction(checked, COLLECTION_RATE.4)));
    entries.push((CHEST_LOCATIONS.0, Z3RStat::Number(chests)));
    assert(listed(entries@) =~= location_stats(sram@)->Ok_0);
    Ok(entries)
}

/// Decodes the three clocks.
pub fn read_clocks(sram: &[u8]) -> (decoded: Decoded<Vec<StatEntry>>)
    ensures
        listed_result(decoded) == clock_stats(sram@),
{
    let total = match read_u32_le(sram, TOTAL_TIME.1) {
        Ok(total) => total,
        Err(e) => {
            return Err(e);
        },
    };
    let menu = match read_u32_le(sram, MENU_TIME.1) {
        Ok(menu) => menu,
        Err(e) => {
            return Err(e);
        },
    };
    let in_loop = match read_u32_le(sram, LOOP_TIME.1) {
        Ok(in_loop) => in_loop,
        Err(e) => {
            return Err(e);
        },
    };
    let mut entries: Vec<StatEntry> = Vec::new();
    entries.push(("lag time", Z3RStat::new_time(subtract(total, in_loop))));
    entries.push((TOTAL_TIME.0, Z3RStat::new_time(total)));
    entries.push((MENU_TIME.0, Z3RStat::new_time(menu)));
    assert(listed(entries@) =~= clock_stats(sram@)->Ok_0);
    Ok(entries)
}

/// Moves the entries of `part` to the end of `entries`.
fn extend(entries: &mut Vec<StatEntry>, part: Vec<StatEntry>)
    ensures
        listed(final(entries)@) == listed(old(entries)@) + listed(part@),
{
    let mut part = part;
    entries.append(&mut part);
}

/// Decodes what is counted and timed.
pub fn read_counts(sram: &[u8]) -> (decoded: Decoded<Vec<StatEntry>>)
    ensures
        listed_result(decoded) == counted_stats(sram@),
{
    let mut entries = match read_locations(sram) {
        Ok(part) => part,
        Err(e) => {
            return Err(e);
        },
    };
    match decode_fractions(sram, FRACTION_FIELDS.as_slice()) {
        Ok(part) => extend(&mut entries, part),
        Err(e) => {
            return Err(e);
        },
    }
    match decode_counters(sram, COUNTER_FIELDS.as_slice()) {
        Ok(part) => extend(&mut entries, part),
        Err(e) => {
            return Err(e);
        },
    }
    match read_clocks(sram) {
        Ok(part) => extend(&mut entries, part),
        Err(e) => {
            return Err(e);
        },
    }
    match decode_times(sram, TIME_FIELDS.as_slice()) {
        Ok(part) => extend(&mut entries, part),
        Err(e) => {
            return Err(e);
        },
    }
    assert(listed(entries@) =~= counted_stats(sram@)->Ok_0);
    Ok(entries)
}

/// Reads the statistics out of a buffer, after validating it where
/// `validate` is set.
pub fn read_stats(sram: &[u8], validate: bool) -> (result: Decoded<Vec<StatEntry>>)
    ensures
        listed_result(result) == stats_outcome(sram@, validate),
{
    if validate {
        match validate_sram(sram) {
            Ok(()) => {},
            Err(e) => {
                return Err(e);
            },
        }
    }
    let mut entries = match read_meta(sram) {
        Ok(part) => part,
        Err(e) => {
            return Err(e);
        },
    };
    match read_counts(sram) {
        Ok(part) => extend(&mut entries, part),
        Err(e) => {
            return Err(e);
        },
    }
    Ok(entries)
}

/// A field lies inside a buffer of `len` bytes, and spans one or two bytes.
pub open spec fn stat_fits(offset: usize, bits: u32, shift: u32, len: nat) -> bool {
    1 <= bits + shift <= 16 && offset + 2 <= len
}

/// Where every field fits the buffer, a catalog of fractions decodes.
pub proof fn lemma_fractions_decode(sram: Seq<u8>, fields: Seq<FractionField>)
    requires
        forall|i: int|
            0 <= i < fields.len() ==> stat_fits(
                (#[trigger] fields[i]).1,
                fields[i].2,
                fields[i].3,
                sram.len(),
            ),
    ensures
        decoded_fractions(sram, fields) is Ok,
{
    lemma_collect_all(fraction_items(sram, fields), fields.len());
}

/// Where every field fits the buffer, a catalog of counters decodes.
pub proof fn lemma_counters_decode(sram: Seq<u8>, fields: Seq<CounterField>)
    requires
        forall|i: int|
            0 <= i < fields.len() ==> stat_fits(
                (#[trigger] fields[i]).1,
                fields[i].2,
                fields[i].3,
                sram.len(),
            ),
    ensures
        decoded_counters(sram, fields) is Ok,
{
    lemma_collect_all(counter_items(sram, fields), fields.len());
}

/// Where every field lies inside the buffer, a catalog of durations
/// decodes.
pub proof fn lemma_times_decode(sram: Seq<u8>, fields: Seq<TimeField>)
    requires
        forall|i: int| 0 <= i < fields.len() ==> (#[trigger] fields[i]).1 + 4 <= sram.len(),
    ensures
        decoded_times(sram, fields) is Ok,
{
    lemma_collect_all(time_items(sram, fields), fields.len());
}

/// In a buffer of full size every statistic lies inside the buffer.
/// Decoding then succeeds exactly when the hash id and the file name do:
/// when the ten bytes of the id are UTF-8 wherever the ROM name has the
/// tag `VT`, and each code unit of the file name selects a glyph. It fails
/// with `IdentityError` for the id, else with `GlyphIndexOutOfRange` for
/// the name.
pub proof fn full_buffer_stats(sram: Seq<u8>)
    requires
        sram.len() == SRAM_SIZE,
    ensures
        decoded_stats(sram) is Ok <==> hash_id(sram) is Ok && name_is_known(sram),
        hash_id(sram) is Ok <==> (has_tag(sram, TAG_VT) ==> valid_utf8(
            sram.subrange(HASH_ID.0 as int, HASH_ID.1 as int),
        )),
        hash_id(sram) is Err ==> decoded_stats(sram) == Decoded::<StatList>::Err(
            DecodeError::IdentityError,
        ),
        hash_id(sram) is Ok && !name_is_known(sram) ==> decoded_stats(sram) == Decoded::<
            StatList,
        >::Err(DecodeError::GlyphIndexOutOfRange),
{
    lemma_file_name_inside(sram);
    lemma_fractions_decode(sram, FRACTION_FIELDS@);
    lemma_counters_decode(sram, COUNTER_FIELDS@);
    lemma_times_decode(sram, TIME_FIELDS@);
}

/// A valid buffer whose hash id and file name decode yields its
/// statistics, with validation as without it.
pub proof fn valid_buffer_stats(sram: Seq<u8>)
    requires
        validation(sram) is Ok,
        hash_id(sram) is Ok,
        name_is_known(sram),
    ensures
        stats_outcome(sram, true) is Ok,
        stats_outcome(sram, true) == stats_outcome(sram, false),
{
    full_buffer_stats(sram);
}

/// The name of the statistic at each place of the list that a buffer
/// decodes to.
pub open spec fn stat_name(place: int) -> Seq<char> {
    if place == 0 {
        "hash id"@
    } else if place == 1 {
        "permalink"@
    } else if place == 2 {
        "filename"@
    } else if place == 3 {
        "other locations"@
    } else if place == 4 {
        COLLECTION_RATE.0@
    } else if place == 5 {
        CHEST_LOCATIONS.0@
    } else if place < 40 {
        FRACTION_FIELDS[place - 6].0@
    } else if place < 51 {
        COUNTER_FIELDS[place - 40].0@
    } else if place == 51 {
        "lag time"@
    } else if place == 52 {
        TOTAL_TIME.0@
    } else if place == 53 {
        MENU_TIME.0@
    } else {
        TIME_FIELDS[place - 54].0@
    }
}

/// A catalog of fractions that decodes yields one entry for each of its
/// lines: a well-formed value under the line's name.
pub proof fn lemma_fraction_names(sram: Seq<u8>, fields: Seq<FractionField>)
    requires
        decoded_fractions(sram, fields) is Ok,
    ensures
        decoded_fractions(sram, fields)->Ok_0.len() == fields.len(),
        forall|i: int|
            0 <= i < fields.len() ==> (#[trigger] decoded_fractions(sram, fields)->Ok_0[i]).0
                == fields[i].0@ && decoded_fractions(sram, fields)->Ok_0[i].1.wf(),
{
    lemma_collect_all(fraction_items(sram, fields), fields.len());
    let entries = decoded_fractions(sram, fields)->Ok_0;
    assert forall|i: int| 0 <= i < fields.len() implies (#[trigger] entries[i]).0
        == fields[i].0@ && entries[i].1.wf() by {
        assert(fraction_items(sram, fields)(i) == Decoded::<(Seq<char>, StatView)>::Ok(
            entries[i],
        ));
    }
}

/// A catalog of counters that decodes yields one entry for each of its
/// lines: a well-formed value under the line's name.
pub proof fn lemma_counter_names(sram: Seq<u8>, fields: Seq<CounterField>)
    requires
        decoded_counters(sram, fields) is Ok,
    ensures
        decoded_counters(sram, fields)->Ok_0.len() == fields.len(),
        forall|i: int|
            0 <= i < fields.len() ==> (#[trigger] decoded_counters(sram, fields)->Ok_0[i]).0
                == fields[i].0@ && decoded_counters(sram, fields)->Ok_0[i].1.wf(),
{
    lemma_collect_all(counter_items(sram, fields), fields.len());
    let entries = decoded_counters(sram, fields)->Ok_0;
    assert forall|i: int| 0 <= i < fields.len() implies (#[trigger] entries[i]).0
        == fields[i].0@ && entries[i].1.wf() by {
        assert(counter_items(sram, fields)(i) == Decoded::<(Seq<char>, StatView)>::Ok(
            entries[i],
        ));
    }
}

/// A catalog of durations that decodes yields one entry for each of its
/// lines: a well-formed value under the line's name.
pub proof fn lemma_time_names(sram: Seq<u8>, fields: Seq<TimeField>)
    requires
        decoded_times(sram, fields) is Ok,
    ensures
        decoded_times(sram, fields)->Ok_0.len() == fields.len(),
        forall|i: int|
            0 <= i < fields.len() ==> (#[trigger] decoded_times(sram, fields)->Ok_0[i]).0
                == fields[i].0@ && decoded_times(sram, fields)->Ok_0[i].1.wf(),
{
    lemma_collect_all(time_items(sram, fields), fields.len());
    let entries = decoded_times(sram, fields)->Ok_0;
    assert forall|i: int| 0 <= i < fields.len() implies (#[trigger] entries[i]).0
        == fields[i].0@ && entries[i].1.wf() by {
        assert(time_items(sram, fields)(i) == Decoded::<(Seq<char>, StatView)>::Ok(entries[i]));
    }
}

/// The statistics that a buffer decodes to are 58, each under the name of
/// its place, and each well formed: the text of a fraction or of a
/// duration is the one that its numbers are shown as.
pub proof fn stats_go_by_their_names(sram: Seq<u8>)
    requires
        decoded_stats(sram) is Ok,
    ensures
        decoded_stats(sram)->Ok_0.len() == 58,
        forall|i: int|
            0 <= i < 58 ==> (#[trigger] decoded_stats(sram)->Ok_0[i]).0 == stat_name(i)
                && decoded_stats(sram)->Ok_0[i].1.wf(),
{
    let entries = decoded_stats(sram)->Ok_0;
    let names = meta_stats(sram)->Ok_0;
    let locations = location_stats(sram)->Ok_0;
    let fractions = decoded_fractions(sram, FRACTION_FIELDS@)->Ok_0;
    let counters = decoded_counters(sram, COUNTER_FIELDS@)->Ok_0;
    let clocks = clock_stats(sram)->Ok_0;
    let times = decoded_times(sram, TIME_FIELDS@)->Ok_0;
    lemma_fraction_names(sram, FRACTION_FIELDS@);
    lemma_counter_names(sram, COUNTER_FIELDS@);
    lemma_time_names(sram, TIME_FIELDS@);
    assert(entries == names + (locations + (fractions + (counters + (clocks + times)))));
}

/// No two places of the list of statistics go by one name.
pub proof fn stat_names_differ()
    ensures
        forall|i: int, j: int|
            0 <= i < j < 58 ==> #[trigger] stat_name(i) != #[trigger] stat_name(j),
{
    reveal_strlit("hash id");
    assert(mark("hash id"@) == (7nat, 'h', 'a', 'i', 'd'));
    reveal_strlit("permalink");
    assert(mark("permalink"@) == (9nat, 'p', 'e', 'n', 'k'));
    reveal_strlit("filename");
    assert(mark("filename"@) == (8nat, 'f', 'i', 'm', 'e'));
    reveal_strlit("other locations");
    assert(mark("other locations"@) == (15nat, 'o', 't', 'n', 's'));
    reveal_strlit("collection rate");
    assert(mark("collection rate"@) == (15nat, 'c', 'o', 't', 'e'));
    reveal_strlit("chest locations");
    assert(mark("chest locations"@) == (15nat, 'c', 'h', 'n', 's'));
    reveal_strlit("y items");
    assert(mark("y items"@) == (7nat, 'y', ' ', 'm', 's'));
    reveal_strlit("a items");
    assert(mark("a items"@) == (7nat, 'a', ' ', 'm', 's'));
    reveal_strlit("swords");
    assert(mark("swords"@) == (6nat, 's', 'w', 'd', 's'));
    reveal_strlit("shields");
    assert(mark("shields"@) == (7nat, 's', 'h', 'd', 's'));
    reveal_strlit("mails");
    assert(mark("mails"@) == (5nat, 'm', 'a', 'l', 's'));
    reveal_strlit("capacity upgrades");
    assert(mark("capacity upgrades"@) == (17nat, 'c', 'a', 'e', 's'));
    reveal_strlit("heart containers");
    assert(mark("heart containers"@) == (16nat, 'h', 'e', 'r', 's'));
    reveal_strlit("heart pieces");
    assert(mark("heart pieces"@) == (12nat, 'h', 'e', 'e', 's'));
    reveal_strlit("maps");
    assert(mark("maps"@) == (4nat, 'm', 'a', 'p', 's'));
    reveal_strlit("compasses");
    assert(mark("compasses"@) == (9nat, 'c', 'o', 'e', 's'));
    reveal_strlit("small keys");
    assert(mark("small keys"@) == (10nat, 's', 'm', 'y', 's'));
    reveal_strlit("big keys");
    assert(mark("big keys"@) == (8nat, 'b', 'i', 'y', 's'));
    reveal_strlit("big chests");
    assert(mark("big chests"@) == (10nat, 'b', 'i', 't', 's'));
    reveal_strlit("pendants");
    assert(mark("pendants"@) == (8nat, 'p', 'e', 't', 's'));
    reveal_strlit("crystals");
    assert(mark("crystals"@) == (8nat, 'c', 'r', 'l', 's'));
    reveal_strlit("hyrule castle");
    assert(mark("hyrule castle"@) == (13nat, 'h', 'y', 'l', 'e'));
    reveal_strlit("eastern palace");
    assert(mark("eastern palace"@) == (14nat, 'e', 'a', 'c', 'e'));
    reveal_strlit("desert palace");
    assert(mark("desert palace"@) == (13nat, 'd', 'e', 'c', 'e'));
    reveal_strlit("tower of hera");
    assert(mark("tower of hera"@) == (13nat, 't', 'o', 'r', 'a'));
    reveal_strlit("castle tower");
    assert(mark("castle tower"@) == (12nat, 'c', 'a', 'e', 'r'));
    reveal_strlit("palace of darkness");
    assert(mark("palace of darkness"@) == (18nat, 'p', 'a', 's', 's'));
    reveal_strlit("swamp palace");
    assert(mark("swamp palace"@) == (12nat, 's', 'w', 'c', 'e'));
    reveal_strlit("skull woods");
    assert(mark("skull woods"@) == (11nat, 's', 'k', 'd', 's'));
    reveal_strlit("thieves town");
    assert(mark("thieves town"@) == (12nat, 't', 'h', 'w', 'n'));
    reveal_strlit("ice palace");
    assert(mark("ice palace"@) == (10nat, 'i', 'c', 'c', 'e'));
    reveal_strlit("misery mire");
    assert(mark("misery mire"@) == (11nat, 'm', 'i', 'r', 'e'));
    reveal_strlit("turtle rock");
    assert(mark("turtle rock"@) == (11nat, 't', 'u', 'c', 'k'));
    reveal_strlit("ganons tower");
    assert(mark("ganons tower"@) == (12nat, 'g', 'a', 'e', 'r'));
    reveal_strlit("ganons tower big key");
    assert(mark("ganons tower big key"@) == (20nat, 'g', 'a', 'e', 'y'));
    reveal_strlit("swordless bosses");
    assert(mark("swordless bosses"@) == (16nat, 's', 'w', 'e', 's'));
    reveal_strlit("fighter sword bosses");
    assert(mark("fighter sword bosses"@) == (20nat, 'f', 'i', 'e', 's'));
    reveal_strlit("master sword bosses");
    assert(mark("master sword bosses"@) == (19nat, 'm', 'a', 'e', 's'));
    reveal_strlit("tempered sword bosses");
    assert(mark("tempered sword bosses"@) == (21nat, 't', 'e', 'e', 's'));
    reveal_strlit("golden sword bosses");
    assert(mark("golden sword bosses"@) == (19nat, 'g', 'o', 'e', 's'));
    reveal_strlit("locations pre boots");
    assert(mark("locations pre boots"@) == (19nat, 'l', 'o', 't', 's'));
    reveal_strlit("locations pre mirror");
    assert(mark("locations pre mirror"@) == (20nat, 'l', 'o', 'o', 'r'));
    reveal_strlit("bonks");
    assert(mark("bonks"@) == (5nat, 'b', 'o', 'k', 's'));
    reveal_strlit("overworld mirrors");
    assert(mark("overworld mirrors"@) == (17nat, 'o', 'v', 'r', 's'));
    reveal_strlit("underworld mirrors");
    assert(mark("underworld mirrors"@) == (18nat, 'u', 'n', 'r', 's'));
    reveal_strlit("times fluted");
    assert(mark("times fluted"@) == (12nat, 't', 'i', 'e', 'd'));
    reveal_strlit("screen transitions");
    assert(mark("screen transitions"@) == (18nat, 's', 'c', 'n', 's'));
    reveal_strlit("rupees spent");
    assert(mark("rupees spent"@) == (12nat, 'r', 'u', 'n', 't'));
    reveal_strlit("save and quits");
    assert(mark("save and quits"@) == (14nat, 's', 'a', 't', 's'));
    reveal_strlit("deaths");
    assert(mark("deaths"@) == (6nat, 'd', 'e', 'h', 's'));
    reveal_strlit("faerie revivals");
    assert(mark("faerie revivals"@) == (15nat, 'f', 'a', 'l', 's'));
    reveal_strlit("lag time");
    assert(mark("lag time"@) == (8nat, 'l', 'a', 'm', 'e'));
    reveal_strlit("total time");
    assert(mark("total time"@) == (10nat, 't', 'o', 'm', 'e'));
    reveal_strlit("menu time");
    assert(mark("menu time"@) == (9nat, 'm', 'e', 'm', 'e'));
    reveal_strlit("first sword");
    assert(mark("first sword"@) == (11nat, 'f', 'i', 'r', 'd'));
    reveal_strlit("boots found");
    assert(mark("boots found"@) == (11nat, 'b', 'o', 'n', 'd'));
    reveal_strlit("flute found");
    assert(mark("flute found"@) == (11nat, 'f', 'l', 'n', 'd'));
    reveal_strlit("mirror found");
    assert(mark("mirror found"@) == (12nat, 'm', 'i', 'n', 'd'));
    assert forall|i: int, j: int| 0 <= i < j < 58 implies mark(#[trigger] stat_name(i)) != mark(
        #[trigger] stat_name(j),
    ) by {}
}

/// In the list that reading the statistics gives, each entry is the one
/// that is found under the name of its place.
pub proof fn stat_is_found_by_name(sram: Seq<u8>, entries: Seq<StatEntry>, place: int)
    requires
        decoded_stats(sram) == Decoded::<StatList>::Ok(listed(entries)),
        0 <= place < 58,
    ensures
        position(names_of(entries), stat_name(place)) == Some(place),
{
    stats_go_by_their_names(sram);
    stat_names_differ();
    let names = names_of(entries);
    assert forall|i: int| 0 <= i < 58 implies #[trigger] names[i] == stat_name(i) by {
        assert(listed(entries)[i].0 == stat_name(i));
    }
    distinct_names_are_found_in_place(names, place);
}

} // verus!
