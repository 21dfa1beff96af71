//! The whole of a buffer, decoded and laid out for display: the names,
//! the statistics and the equipment, each value as a text, a number, a
//! flag or nothing.

use crate::equipment::{
    bottle_label, decoded_equipment, flags_are_boolean, full_buffer_equipment, gloves_label,
    label_of, magic_consumption_label, mail_label, map_bottle_contents, map_gloves,
    map_magic_consumption, map_mail, map_mirror, map_shield, map_sword, mirror_label, named,
    read_equipment, shield_label, sword_label, EquipEntry, EquipList, Z3REquip, EQUIPMENT_FIELDS,
};
use crate::error::Decoded;
use crate::stats::{
    counted_stats, full_buffer_stats, hash_id, listed, meta_stats, read_counts, read_meta,
    StatEntry, StatList, StatView, Z3RStat,
};
use crate::strings::same_text;
use crate::text::name_is_known;
use crate::validate::{validate_sram, validation};
use vstd::prelude::*;

verus! {

/// A value as it is displayed.
#[derive(Debug, PartialEq, Eq)]
pub enum Shown {
    /// A name, a label, a fraction or a duration.
    Text(String),
    /// A counter or a level.
    Number(u32),
    /// Whether the player has an item.
    Flag(bool),
    /// The lack of a name or of an item.
    Nothing,
}

/// A displayed value as contracts see it: a text by its characters.
pub enum ShownView {
    /// A name, a label, a fraction or a duration.
    Text(Seq<char>),
    /// A counter or a level.
    Number(u32),
    /// Whether the player has an item.
    Flag(bool),
    /// The lack of a name or of an item.
    Nothing,
}

impl View for Shown {
    type V = ShownView;

    open spec fn view(&self) -> ShownView {
        match self {
            Shown::Text(text) => ShownView::Text(text@),
            Shown::Number(n) => ShownView::Number(*n),
            Shown::Flag(b) => ShownView::Flag(*b),
            Shown::Nothing => ShownView::Nothing,
        }
    }
}

/// A displayed value under its name.
pub type ShownEntry = (&'static str, Shown);

/// A list of displayed values as contracts see it: each name and each
/// text by its characters.
pub type ShownList = Seq<(Seq<char>, ShownView)>;

/// A decoded buffer.
#[derive(Debug, PartialEq, Eq)]
pub struct Report {
    /// The hash id, the permalink and the file name.
    pub meta: Vec<ShownEntry>,
    /// What is counted and timed.
    pub stats: Vec<ShownEntry>,
    /// What the player carries.
    pub equipment: Vec<ShownEntry>,
}

/// A decoded buffer as contracts see it.
pub struct ReportView {
    /// The hash id, the permalink and the file name.
    pub meta: ShownList,
    /// What is counted and timed.
    pub stats: ShownList,
    /// What the player carries.
    pub equipment: ShownList,
}

/// Entries as contracts see them.
pub open spec fn shown(entries: Seq<ShownEntry>) -> ShownList {
    entries.map_values(|entry: ShownEntry| (entry.0@, entry.1@))
}

impl View for Report {
    type V = ReportView;

    open spec fn view(&self) -> ReportView {
        ReportView {
            meta: shown(self.meta@),
            stats: shown(self.stats@),
            equipment: shown(self.equipment@),
        }
    }
}

/// How a statistic is displayed: a counter as a number, the lack of a name
/// as nothing, anything else by its text.
pub open spec fn shown_stat(stat: StatView) -> ShownView {
    match stat {
        StatView::Meta(Some(text)) => ShownView::Text(text),
        StatView::Meta(None) => ShownView::Nothing,
        StatView::Number(n) => ShownView::Number(n),
        StatView::Fraction(text, _, _) => ShownView::Text(text),
        StatView::Time(text, _) => ShownView::Text(text),
    }
}

/// How a label is displayed, or the lack of one.
pub open spec fn shown_label(label: Option<Seq<char>>) -> ShownView {
    match label {
        Some(text) => ShownView::Text(text),
        None => ShownView::Nothing,
    }
}

/// The name is that of one of the four bottles.
pub open spec fn is_bottle(name: Seq<char>) -> bool {
    name == "bottle 1"@ || name == "bottle 2"@ || name == "bottle 3"@ || name == "bottle 4"@
}

/// How a piece of equipment is displayed. The items that come in grades,
/// the rate of magic consumption and the bottles are displayed by the name
/// of their grade or content; a flag and any other number as they are.
pub open spec fn shown_equipment(name: Seq<char>, value: Z3REquip) -> ShownView {
    if name == "mirror"@ {
        shown_label(mirror_label(value.worth()))
    } else if name == "sword"@ {
        shown_label(sword_label(value.worth()))
    } else if name == "shield"@ {
        shown_label(shield_label(value.worth()))
    } else if name == "mail"@ {
        ShownView::Text(mail_label(value.worth()))
    } else if name == "gloves"@ {
        shown_label(gloves_label(value.worth()))
    } else if name == "magic consumption"@ {
        ShownView::Text(magic_consumption_label(value.worth()))
    } else if is_bottle(name) {
        shown_label(bottle_label(value.worth()))
    } else {
        match value {
            Z3REquip::Has(b) => ShownView::Flag(b),
            Z3REquip::Number(n) => ShownView::Number(n),
        }
    }
}

/// How a list of statistics is displayed.
pub open spec fn shown_stats(entries: StatList) -> ShownList {
    entries.map_values(|entry: (Seq<char>, StatView)| (entry.0, shown_stat(entry.1)))
}

/// How a list of equipment is displayed.
pub open spec fn shown_equipments(entries: EquipList) -> ShownList {
    entries.map_values(|entry: (Seq<char>, Z3REquip)| (entry.0, shown_equipment(entry.0, entry.1)))
}

/// What a buffer decodes to as a whole. The names are decoded first, then
/// what is counted and timed, then the equipment; the first that fails
/// decides the error.
pub open spec fn parsed(sram: Seq<u8>) -> Decoded<ReportView> {
    match meta_stats(sram) {
        Err(e) => Err(e),
        Ok(meta) => match counted_stats(sram) {
            Err(e) => Err(e),
            Ok(stats) => match decoded_equipment(sram) {
                Err(e) => Err(e),
                Ok(equipment) => Ok(
                    ReportView {
                        meta: shown_stats(meta),
                        stats: shown_stats(stats),
                        equipment: shown_equipments(equipment),
                    },
                ),
            },
        },
    }
}

/// What parsing gives: with `validate`, the error of validation where it
/// fails; otherwise, and without `validate`, what the buffer decodes to.
pub open spec fn parse_outcome(sram: Seq<u8>, validate: bool) -> Decoded<ReportView> {
    if validate && validation(sram) is Err {
        Err(validation(sram)->Err_0)
    } else {
        parsed(sram)
    }
}

/// A report, or an error, as contracts see it.
pub open spec fn report_result(report: Decoded<Report>) -> Decoded<ReportView> {
    match report {
        Ok(report) => Ok(report@),
        Err(e) => Err(e),
    }
}

/// Lays out a statistic for display.
pub fn show_stat(stat: &Z3RStat) -> (value: Shown)
    ensures
        value@ == shown_stat(stat@),
{
    match stat {
        Z3RStat::Meta(Some(text)) => Shown::Text(text.clone()),
        Z3RStat::Meta(None) => Shown::Nothing,
        Z3RStat::Number(n) => Shown::Number(*n),
        Z3RStat::Fraction(text, _, _) => Shown::Text(text.clone()),
        Z3RStat::Time(text, _) => Shown::Text(text.clone()),
    }
}

/// Lays out a label for display, or the lack of one.
fn show_label(label: Option<String>) -> (value: Shown)
    ensures
        value@ == shown_label(label_of(label)),
{
    match label {
        Some(text) => Shown::Text(text),
        None => Shown::Nothing,
    }
}

/// Lays out a piece of equipment for display.
pub fn show_equipment(name: &str, value: Z3REquip) -> (laid_out: Shown)
    ensures
        laid_out@ == shown_equipment(name@, value),
{
    if same_text(name, "mirror") {
        show_label(map_mirror(value.value()))
    } else if same_text(name, "sword") {
        show_label(map_sword(value.value()))
    } else if same_text(name, "shield") {
        show_label(map_shield(value.value()))
    } else if same_text(name, "mail") {
        Shown::Text(map_mail(value.value()))
    } else if same_text(name, "gloves") {
        show_label(map_gloves(value.value()))
    } else if same_text(name, "magic consumption") {
        Shown::Text(map_magic_consumption(value.value()))
    } else if same_text(name, "bottle 1") || same_text(name, "bottle 2") || same_text(
        name,
        "bottle 3",
    ) || same_text(name, "bottle 4") {
        show_label(map_bottle_contents(value.value()))
    } else {
        match value {
            Z3REquip::Has(b) => Shown::Flag(b),
            Z3REquip::Number(n) => Shown::Number(n),
        }
    }
}

/// Lays out a list of statistics for display.
pub fn show_stats(entries: &[StatEntry]) -> (laid_out: Vec<ShownEntry>)
    ensures
        shown(laid_out@) == shown_stats(listed(entries@)),
{
    let mut laid_out: Vec<ShownEntry> = Vec::new();
    let mut done: usize = 0;
    while done < entries.len()
        invariant
            done <= entries@.len(),
            laid_out@.len() == done,
            forall|i: int|
                0 <= i < done ==> (#[trigger] laid_out@[i]).0@ == entries@[i].0@ && laid_out@[i].1@
                    == shown_stat(entries@[i].1@),
        decreases entries@.len() - done,
    {
        let entry = &entries[done];
        laid_out.push((entry.0, show_stat(&entry.1)));
        done = done + 1;
    }
    laid_out
}

/// Lays out a list of equipment for display.
pub fn show_equipments(entries: &[EquipEntry]) -> (laid_out: Vec<ShownEntry>)
    ensures
        shown(laid_out@) == shown_equipments(named(entries@)),
{
    let mut laid_out: Vec<ShownEntry> = Vec::new();
    let mut done: usize = 0;
    while done < entries.len()
        invariant
            done <= entries@.len(),
            laid_out@.len() == done,
            forall|i: int|
                0 <= i < done ==> (#[trigger] laid_out@[i]).0@ == entries@[i].0@ && laid_out@[i].1@
                    == shown_equipment(entries@[i].0@, entries@[i].1),
        decreases entries@.len() - done,
    {
        let entry = &entries[done];
        laid_out.push((entry.0, show_equipment(entry.0, entry.1)));
        done = done + 1;
    }
    laid_out
}

/// Decodes a buffer as a whole, after validating it where `validate` is
/// set.
pub fn parse_sram(sram: &[u8], validate: bool) -> (report: Decoded<Report>)
    ensures
        report_result(report) == parse_outcome(sram@, validate),
{
    if validate {
        match validate_sram(sram) {
            Ok(()) => {},
            Err(e) => {
                return Err(e);
            },
        }
    }
    let meta = match read_meta(sram) {
        Ok(meta) => meta,
        Err(e) => {
            return Err(e);
        },
    };
    let stats = match read_counts(sram) {
        Ok(stats) => stats,
        Err(e) => {
            return Err(e);
        },
    };
    let equipment = match read_equipment(sram, false) {
        Ok(equipment) => equipment,
        Err(e) => {
            return Err(e);
        },
    };
    Ok(
        Report {
            meta: show_stats(meta.as_slice()),
            stats: show_stats(stats.as_slice()),
            equipment: show_equipments(equipment.as_slice()),
        },
    )
}

/// A valid buffer parses, with validation as without it, where each
/// listed flag of the equipment holds 0 or 1, the hash id decodes and each
/// code unit of the file name selects a glyph. A valid buffer that lacks
/// one of the three does not parse.
pub proof fn valid_buffer_parses(sram: Seq<u8>)
    requires
        validation(sram) is Ok,
    ensures
        parse_outcome(sram, true) == parse_outcome(sram, false),
        parse_outcome(sram, true) is Ok <==> (flags_are_boolean(sram, EQUIPMENT_FIELDS@)
            && hash_id(sram) is Ok && name_is_known(sram)),
{
    full_buffer_equipment(sram);
    full_buffer_stats(sram);
}

} // verus!
