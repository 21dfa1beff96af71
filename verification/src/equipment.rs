//! What the player carries: counters, flags and the items that come in
//! several grades.

use crate::bits::{extracted, lemma_field_of_bound, read_bits};
use crate::collect::{collect, lemma_collect_all, lemma_collect_error, lemma_collect_stops};
use crate::decimal::{decimal, decimal_string};
use crate::error::{DecodeError, Decoded};
use crate::lookup::{distinct_names_are_found_in_place, mark, names_of, position};
use crate::validate::{validate_sram, validation, SRAM_SIZE};
use vstd::arithmetic::power2::lemma2_to64;
use vstd::prelude::*;
use vstd::string::StringExecFns;

verus! {

/// One decoded piece of equipment: a flag, or a number.
#[derive(Clone, Copy, Debug, PartialEq, Eq, Structural)]
pub enum Z3REquip {
    /// The player has the item, or has not.
    Has(bool),
    /// A count, a level or a grade.
    Number(u32),
}

impl Z3REquip {
    /// A flag holds when it is set, a number when it is not zero.
    pub open spec fn holds(&self) -> bool {
        match self {
            Z3REquip::Has(b) => *b,
            Z3REquip::Number(n) => *n > 0,
        }
    }

    /// A number is worth itself, a flag one when set and zero when not.
    pub open spec fn worth(&self) -> u32 {
        match self {
            Z3REquip::Has(b) => if *b {
                1u32
            } else {
                0u32
            },
            Z3REquip::Number(n) => *n,
        }
    }

    /// How the value is shown: `True` or `False` for a flag, decimal digits
    /// for a number.
    pub open spec fn text(&self) -> Seq<char> {
        match self {
            Z3REquip::Has(true) => "True"@,
            Z3REquip::Has(false) => "False"@,
            Z3REquip::Number(n) => decimal(*n as nat),
        }
    }

    /// Tells whether the player has the item at all.
    #[verifier::when_used_as_spec(holds)]
    pub fn has(&self) -> (held: bool)
        ensures
            held == self.holds(),
    {
        match self {
            Z3REquip::Has(b) => *b,
            Z3REquip::Number(n) => *n > 0,
        }
    }

    /// The value as a number.
    #[verifier::when_used_as_spec(worth)]
    pub fn value(&self) -> (number: u32)
        ensures
            number == self.worth(),
    {
        match self {
            Z3REquip::Has(b) => if *b {
                1u32
            } else {
                0u32
            },
            Z3REquip::Number(n) => *n,
        }
    }

    /// Renders the value for display.
    pub fn to_string(&self) -> (shown: String)
        ensures
            shown@ == self.text(),
    {
        match self {
            Z3REquip::Has(true) => String::from_str("True"),
            Z3REquip::Has(false) => String::from_str("False"),
            Z3REquip::Number(n) => decimal_string(*n as u64),
        }
    }
}

/// One line of a catalog: the field's name, the offset of its first byte,
/// its width in bits, the number of bits below it in that byte, and whether
/// it is a flag.
pub type EquipField = (&'static str, usize, u32, u32, bool);

/// A decoded field under its name.
pub type EquipEntry = (&'static str, Z3REquip);

/// A list of decoded fields as contracts see it: each name by its
/// characters.
pub type EquipList = Seq<(Seq<char>, Z3REquip)>;

/// The fields that are listed as they are read.
pub const EQUIPMENT_FIELDS: [EquipField; 48] = [
    ("current rupees", 0x362, 16, 0, false),
    ("current arrows", 0x377, 8, 0, false),
    ("current bombs", 0x343, 8, 0, false),
    ("current health", 0x36D, 8, 0, false),
    ("current magic", 0x36E, 8, 0, false),
    ("magic consumption", 0x37B, 8, 0, false),
    ("goal items", 0x418, 8, 0, false),
    ("bomb upgrades", 0x370, 8, 0, false),
    ("arrow upgrades", 0x371, 8, 0, false),
    ("fire rod", 0x345, 8, 0, true),
    ("ice rod", 0x346, 8, 0, true),
    ("bombos", 0x347, 8, 0, true),
    ("ether", 0x348, 8, 0, true),
    ("quake", 0x349, 8, 0, true),
    ("lamp", 0x34A, 8, 0, true),
    ("hammer", 0x34B, 8, 0, true),
    ("hookshot", 0x342, 8, 0, true),
    ("bug net", 0x34D, 8, 0, true),
    ("book", 0x34E, 8, 0, true),
    ("somaria", 0x350, 8, 0, true),
    ("byrna", 0x351, 8, 0, true),
    ("cape", 0x352, 8, 0, true),
    ("mirror", 0x353, 8, 0, false),
    ("gloves", 0x353, 8, 0, false),
    ("boots", 0x355, 8, 0, true),
    ("flippers", 0x356, 8, 0, true),
    ("moon pearl", 0x357, 8, 0, true),
    ("sword", 0x359, 8, 0, false),
    ("shield", 0x35A, 8, 0, false),
    ("mail", 0x35B, 8, 0, false),
    ("bottle 1", 0x35C, 8, 0, false),
    ("bottle 2", 0x35D, 8, 0, false),
    ("bottle 3", 0x35E, 8, 0, false),
    ("bottle 4", 0x35F, 8, 0, false),
    ("blue boomerang", 0x38C, 1, 7, true),
    ("red boomerang", 0x38C, 1, 6, true),
    ("powder", 0x38C, 1, 4, true),
    ("shovel", 0x38C, 1, 2, true),
    ("green pendant", 0x374, 1, 2, true),
    ("blue pendant", 0x374, 1, 1, true),
    ("red pendant", 0x374, 1, 0, true),
    ("crystal 1", 0x37A, 1, 1, true),
    ("crystal 2", 0x37A, 1, 4, true),
    ("crystal 3", 0x37A, 1, 6, true),
    ("crystal 4", 0x37A, 1, 5, true),
    ("crystal 5", 0x37A, 1, 2, true),
    ("crystal 6", 0x37A, 1, 0, true),
    ("crystal 7", 0x37A, 1, 3, true),
];

/// The fields that are read only to work out others from them: the four
/// bottles, then the two mushroom flags (in the inventory, turned in), the
/// two flute flags (found, activated) and the three bow flags (bow, silver
/// bow, second progressive bow).
pub const DERIVED_SOURCES: [EquipField; 11] = [
    ("bottle 1", 0x35C, 8, 0, false),
    ("bottle 2", 0x35D, 8, 0, false),
    ("bottle 3", 0x35E, 8, 0, false),
    ("bottle 4", 0x35F, 8, 0, false),
    ("mushroom in inventory", 0x38C, 1, 5, true),
    ("mushroom turned in", 0x38C, 1, 3, true),
    ("flute found", 0x38C, 1, 1, true),
    ("flute activated", 0x38C, 1, 0, true),
    ("bow", 0x38E, 1, 7, true),
    ("silver bow", 0x38E, 1, 6, true),
    ("second progressive bow", 0x38E, 1, 5, true),
];

/// How a raw number is classified. A number passes as it is; a flag must
/// be 0 or 1, and any other value is refused.
pub open spec fn classified(raw: u32, boolean: bool) -> Decoded<Z3REquip> {
    if !boolean {
        Ok(Z3REquip::Number(raw))
    } else if raw == 0 {
        Ok(Z3REquip::Has(false))
    } else if raw == 1 {
        Ok(Z3REquip::Has(true))
    } else {
        Err(DecodeError::InvalidBoolean)
    }
}

/// What one field of the buffer decodes to: its bits are extracted, then
/// classified.
pub open spec fn equipment_at(
    sram: Seq<u8>,
    offset: int,
    bits: nat,
    shift: nat,
    boolean: bool,
) -> Decoded<Z3REquip> {
    match extracted(sram, offset, bits, shift) {
        Ok(raw) => classified(raw, boolean),
        Err(e) => Err(e),
    }
}

/// What one line of a catalog decodes to, under the line's name.
pub open spec fn equipment_item(
    sram: Seq<u8>,
    field: EquipField,
) -> Decoded<(Seq<char>, Z3REquip)> {
    match equipment_at(sram, field.1 as int, field.2 as nat, field.3 as nat, field.4) {
        Ok(value) => Ok((field.0@, value)),
        Err(e) => Err(e),
    }
}

/// What the lines of a catalog decode to, by their place in the catalog.
pub open spec fn equipment_items(
    sram: Seq<u8>,
    fields: Seq<EquipField>,
) -> spec_fn(int) -> Decoded<(Seq<char>, Z3REquip)> {
    |i: int| equipment_item(sram, fields[i])
}

/// What a whole catalog decodes to: every field in order, or the error of
/// the first field that fails.
pub open spec fn decoded_catalog(sram: Seq<u8>, fields: Seq<EquipField>) -> Decoded<EquipList> {
    collect(equipment_items(sram, fields), fields.len())
}

/// How many of the first `count` entries hold a number other than zero.
pub open spec fn filled(entries: EquipList, count: nat) -> nat
    decreases count,
{
    if count == 0 {
        0
    } else {
        filled(entries, (count - 1) as nat) + if entries[count - 1].1.worth() != 0 {
            1nat
        } else {
            0nat
        }
    }
}

/// The entries worked out from the decoded `DERIVED_SOURCES`: how many
/// bottles are filled, and five flags that hold when one of two sources
/// does.
pub open spec fn derived(sources: EquipList) -> EquipList {
    seq![
        ("bottles"@, Z3REquip::Number(filled(sources, 4) as u32)),
        ("bow"@, Z3REquip::Has(sources[8].1.holds() || sources[9].1.holds())),
        ("silver arrows"@, Z3REquip::Has(sources[9].1.holds() || sources[10].1.holds())),
        ("mushroom"@, Z3REquip::Has(sources[4].1.holds() || sources[5].1.holds())),
        ("mushroom turned in"@, Z3REquip::Has(sources[5].1.holds())),
        ("flute"@, Z3REquip::Has(sources[6].1.holds() || sources[7].1.holds())),
    ]
}

/// The equipment in a buffer: the listed fields in the order of
/// `EQUIPMENT_FIELDS`, then the derived entries. The listed fields are
/// decoded first, then the sources of the derived entries; the first field
/// that fails decides the error.
pub open spec fn decoded_equipment(sram: Seq<u8>) -> Decoded<EquipList> {
    match decoded_catalog(sram, EQUIPMENT_FIELDS@) {
        Err(e) => Err(e),
        Ok(listed) => match decoded_catalog(sram, DERIVED_SOURCES@) {
            Err(e) => Err(e),
            Ok(sources) => Ok(listed + derived(sources)),
        },
    }
}

/// What reading the equipment gives: with `validate`, the error of
/// validation where it fails; otherwise, and without `validate`, what the
/// buffer decodes to.
pub open spec fn equipment_outcome(sram: Seq<u8>, validate: bool) -> Decoded<EquipList> {
    if validate && validation(sram) is Err {
        Err(validation(sram)->Err_0)
    } else {
        decoded_equipment(sram)
    }
}

/// Entries as contracts see them: each name by its characters.
pub open spec fn named(entries: Seq<EquipEntry>) -> EquipList {
    entries.map_values(|entry: EquipEntry| (entry.0@, entry.1))
}

/// A result as contracts see it.
pub open spec fn named_result(decoded: Decoded<Vec<EquipEntry>>) -> Decoded<EquipList> {
    match decoded {
        Ok(entries) => Ok(named(entries@)),
        Err(e) => Err(e),
    }
}

/// Classifies a raw number as a flag or as a number.
pub fn classify(raw: u32, boolean: bool) -> (value: Decoded<Z3REquip>)
    ensures
        value == classified(raw, boolean),
{
    if !boolean {
        Ok(Z3REquip::Number(raw))
    } else if raw == 0 {
        Ok(Z3REquip::Has(false))
    } else if raw == 1 {
        Ok(Z3REquip::Has(true))
    } else {
        Err(DecodeError::InvalidBoolean)
    }
}

/// Decodes the field of `bits` bits that starts `shift` bits into the byte
/// at `offset`.
pub fn get_equipment(sram: &[u8], offset: usize, bits: u32, shift: u32, boolean: bool) -> (value:
    Decoded<Z3REquip>)
    ensures
        value == equipment_at(sram@, offset as int, bits as nat, shift as nat, boolean),
{
    match read_bits(sram, offset, bits, shift) {
        Ok(raw) => classify(raw, boolean),
        Err(e) => Err(e),
    }
}

/// Decodes the fields of a catalog in order.
pub fn decode_catalog(sram: &[u8], fields: &[EquipField]) -> (decoded: Decoded<Vec<EquipEntry>>)
    ensures
        named_result(decoded) == decoded_catalog(sram@, fields@),
{
    let mut entries: Vec<EquipEntry> = Vec::new();
    let mut done: usize = 0;
    assert(named(entries@) =~= Seq::empty());
    while done < fields.len()
        invariant
            done <= fields@.len(),
            collect(equipment_items(sram@, fields@), done as nat) == Decoded::<EquipList>::Ok(
                named(entries@),
            ),
        decreases fields@.len() - done,
    {
        let field = &fields[done];
        match get_equipment(sram, field.1, field.2, field.3, field.4) {
            Ok(value) => {
                let ghost before = named(entries@);
                entries.push((field.0, value));
                assert(named(entries@) =~= before.push((field.0@, value)));
            },
            Err(e) => {
                proof {
                    lemma_collect_stops(
                        equipment_items(sram@, fields@),
                        (done + 1) as nat,
                        fields@.len(),
                    );
                }
                return Err(e);
            },
        }
        done = done + 1;
    }
    Ok(entries)
}

/// Counts, among the first `count` sources, those that hold a number other
/// than zero.
fn count_filled(sources: &[EquipEntry], count: usize) -> (number: u32)
    requires
        count <= sources@.len(),
        count <= u32::MAX,
    ensures
        number == filled(named(sources@), count as nat),
{
    let mut number: u32 = 0;
    let mut seen: usize = 0;
    while seen < count
        invariant
            seen <= count <= sources@.len(),
            count <= u32::MAX,
            number == filled(named(sources@), seen as nat),
            number <= seen,
        decreases count - seen,
    {
        if sources[seen].1.value() != 0 {
            number = number + 1;
        }
        seen = seen + 1;
    }
    number
}

/// Works out the derived entries from the decoded `DERIVED_SOURCES`.
pub fn derive_equipment(sources: &[EquipEntry]) -> (entries: Vec<EquipEntry>)
    requires
        sources@.len() == DERIVED_SOURCES@.len(),
    ensures
        named(entries@) == derived(named(sources@)),
{
    let mut entries: Vec<EquipEntry> = Vec::new();
    entries.push(("bottles", Z3REquip::Number(count_filled(sources, 4))));
    entries.push(("bow", Z3REquip::Has(sources[8].1.has() || sources[9].1.has())));
    entries.push(("silver arrows", Z3REquip::Has(sources[9].1.has() || sources[10].1.has())));
    entries.push(("mushroom", Z3REquip::Has(sources[4].1.has() || sources[5].1.has())));
    entries.push(("mushroom turned in", Z3REquip::Has(sources[5].1.has())));
    entries.push(("flute", Z3REquip::Has(sources[6].1.has() || sources[7].1.has())));
    entries
}

/// Reads the equipment out of a buffer, after validating it where
/// `validate` is set. The result lists the fields of `EQUIPMENT_FIELDS` in
/// their order, then the derived entries.
pub fn read_equipment(sram: &[u8], validate: bool) -> (result: Decoded<Vec<EquipEntry>>)
    ensures
        named_result(result) == equipment_outcome(sram@, validate),
{
    if validate {
        match validate_sram(sram) {
            Ok(()) => {},
            Err(e) => {
                return Err(e);
            },
        }
    }
    let mut entries = match decode_catalog(sram, EQUIPMENT_FIELDS.as_slice()) {
        Ok(entries) => entries,
        Err(e) => {
            return Err(e);
        },
    };
    let sources = match decode_catalog(sram, DERIVED_SOURCES.as_slice()) {
        Ok(sources) => sources,
        Err(e) => {
            return Err(e);
        },
    };
    proof {
        lemma_collect_all(equipment_items(sram@, DERIVED_SOURCES@), DERIVED_SOURCES@.len());
    }
    let ghost listed = named(entries@);
    let mut extra = derive_equipment(sources.as_slice());
    entries.append(&mut extra);
    assert(named(entries@) =~= listed + derived(named(sources@)));
    Ok(entries)
}

/// The name of a rate of magic consumption.
pub open spec fn magic_consumption_label(v: u32) -> Seq<char> {
    match v {
        0 => "Normal Magic"@,
        1 => "1/2 Magic"@,
        2 => "1/4 Magic"@,
        _ => "Unknown Magic Consumption"@,
    }
}

/// The name of a grade of sword; grade 0 is no sword and has no name.
pub open spec fn sword_label(v: u32) -> Option<Seq<char>> {
    match v {
        0 => None,
        1 => Some("Fighter's Sword"@),
        2 => Some("Master Sword"@),
        3 => Some("Tempered Sword"@),
        4 => Some("Gold Sword"@),
        255 => Some("Swordless"@),
        _ => Some("Unknown Sword"@),
    }
}

/// The name of a grade of shield; grade 0 is no shield and has no name.
pub open spec fn shield_label(v: u32) -> Option<Seq<char>> {
    match v {
        0 => None,
        1 => Some("Blue Shield"@),
        2 => Some("Red Shield"@),
        3 => Some("Mirror Shield"@),
        _ => Some("Unknown Shield"@),
    }
}

/// The name of a grade of mail.
pub open spec fn mail_label(v: u32) -> Seq<char> {
    match v {
        0 => "Green Mail"@,
        1 => "Blue Mail"@,
        2 => "Red Mail"@,
        _ => "Unknown Mail"@,
    }
}

/// The name of a grade of gloves; grade 0 is no gloves and has no name.
pub open spec fn gloves_label(v: u32) -> Option<Seq<char>> {
    match v {
        0 => None,
        1 => Some("Power Gloves"@),
        2 => Some("Titan's Mitts"@),
        _ => Some("Unknown Gloves"@),
    }
}

/// The name of a grade of mirror; grade 0 is no mirror and has no name.
pub open spec fn mirror_label(v: u32) -> Option<Seq<char>> {
    match v {
        0 => None,
        1 => Some("Mirror Scroll"@),
        2 => Some("Magic Mirror"@),
        _ => Some("Unknown Mirror"@),
    }
}

/// The name of what a bottle holds; 0 is no bottle and has no name.
pub open spec fn bottle_label(v: u32) -> Option<Seq<char>> {
    match v {
        0 => None,
        1 => Some("Mushroom"@),
        2 => Some("Empty Bottle"@),
        3 => Some("Red Potion"@),
        4 => Some("Green Potion"@),
        5 => Some("Blue Potion"@),
        6 => Some("Fairy"@),
        7 => Some("Bee"@),
        8 => Some("Good Bee"@),
        _ => Some("Unknown Bottle"@),
    }
}

/// A label as contracts see it: by its characters.
pub open spec fn label_of(label: Option<String>) -> Option<Seq<char>> {
    match label {
        Some(text) => Some(text@),
        None => None,
    }
}

/// Names the rate of magic consumption.
pub fn map_magic_consumption(v: u32) -> (label: String)
    ensures
        label@ == magic_consumption_label(v),
{
    match v {
        0 => String::from_str("Normal Magic"),
        1 => String::from_str("1/2 Magic"),
        2 => String::from_str("1/4 Magic"),
        _ => String::from_str("Unknown Magic Consumption"),
    }
}

/// Names the grade of the sword.
pub fn map_sword(v: u32) -> (label: Option<String>)
    ensures
        label_of(label) == sword_label(v),
{
    match v {
        0 => None,
        1 => Some(String::from_str("Fighter's Sword")),
        2 => Some(String::from_str("Master Sword")),
        3 => Some(String::from_str("Tempered Sword")),
        4 => Some(String::from_str("Gold Sword")),
        255 => Some(String::from_str("Swordless")),
        _ => Some(String::from_str("Unknown Sword")),
    }
}

/// Names the grade of the shield.
pub fn map_shield(v: u32) -> (label: Option<String>)
    ensures
        label_of(label) == shield_label(v),
{
    match v {
        0 => None,
        1 => Some(String::from_str("Blue Shield")),
        2 => Some(String::from_str("Red Shield")),
        3 => Some(String::from_str("Mirror Shield")),
        _ => Some(String::from_str("Unknown Shield")),
    }
}

/// Names the grade of the mail.
pub fn map_mail(v: u32) -> (label: String)
    ensures
        label@ == mail_label(v),
{
    match v {
        0 => String::from_str("Green Mail"),
        1 => String::from_str("Blue Mail"),
        2 => String::from_str("Red Mail"),
        _ => String::from_str("Unknown Mail"),
    }
}

/// Names the grade of the gloves.
pub fn map_gloves(v: u32) -> (label: Option<String>)
    ensures
        label_of(label) == gloves_label(v),
{
    match v {
        0 => None,
        1 => Some(String::from_str("Power Gloves")),
        2 => Some(String::from_str("Titan's Mitts")),
        _ => Some(String::from_str("Unknown Gloves")),
    }
}

/// Names the grade of the mirror.
pub fn map_mirror(v: u32) -> (label: Option<String>)
    ensures
        label_of(label) == mirror_label(v),
{
    match v {
        0 => None,
        1 => Some(String::from_str("Mirror Scroll")),
        2 => Some(String::from_str("Magic Mirror")),
        _ => Some(String::from_str("Unknown Mirror")),
    }
}

/// Names what a bottle holds.
pub fn map_bottle_contents(v: u32) -> (label: Option<String>)
    ensures
        label_of(label) == bottle_label(v),
{
    match v {
        0 => None,
        1 => Some(String::from_str("Mushroom")),
        2 => Some(String::from_str("Empty Bottle")),
        3 => Some(String::from_str("Red Potion")),
        4 => Some(String::from_str("Green Potion")),
        5 => Some(String::from_str("Blue Potion")),
        6 => Some(String::from_str("Fairy")),
        7 => Some(String::from_str("Bee")),
        8 => Some(String::from_str("Good Bee")),
        _ => Some(String::from_str("Unknown Bottle")),
    }
}

/// A field lies inside a buffer of `len` bytes, and spans one or two bytes.
pub open spec fn field_fits(field: EquipField, len: nat) -> bool {
    1 <= field.2 + field.3 <= 16 && field.1 + 2 <= len
}

/// The field was extracted, and holds 0 or 1.
pub open spec fn is_boolean(raw: Decoded<u32>) -> bool {
    match raw {
        Ok(raw) => raw <= 1,
        Err(_) => false,
    }
}

/// The field holds 0 or 1 in this buffer, if it is a flag at all.
pub open spec fn flag_is_boolean(sram: Seq<u8>, field: EquipField) -> bool {
    field.4 ==> is_boolean(extracted(sram, field.1 as int, field.2 as nat, field.3 as nat))
}

/// Each flag among `fields` holds 0 or 1 in this buffer.
pub open spec fn flags_are_boolean(sram: Seq<u8>, fields: Seq<EquipField>) -> bool {
    forall|i: int| 0 <= i < fields.len() ==> flag_is_boolean(sram, #[trigger] fields[i])
}

/// Where every field fits the buffer, a catalog decodes unless one of its
/// flags holds another value than 0 or 1, and can fail with no other error
/// than `InvalidBoolean`.
pub proof fn lemma_catalog_decodes(sram: Seq<u8>, fields: Seq<EquipField>)
    requires
        forall|i: int| 0 <= i < fields.len() ==> field_fits(#[trigger] fields[i], sram.len()),
    ensures
        decoded_catalog(sram, fields) is Ok <==> flags_are_boolean(sram, fields),
        decoded_catalog(sram, fields) matches Err(e) ==> e == DecodeError::InvalidBoolean,
{
    let items = equipment_items(sram, fields);
    lemma_collect_all(items, fields.len());
    assert forall|i: int| 0 <= i < fields.len() implies ((#[trigger] items(i)) is Ok
        <==> flag_is_boolean(sram, fields[i])) && (items(i) matches Err(e) ==> e
        == DecodeError::InvalidBoolean) by {}
    if decoded_catalog(sram, fields) is Ok {
        assert forall|i: int| 0 <= i < fields.len() implies flag_is_boolean(
            sram,
            #[trigger] fields[i],
        ) by {
            assert(items(i) is Ok);
        }
    } else {
        lemma_collect_error(items, fields.len());
    }
    if flags_are_boolean(sram, fields) {
        assert forall|i: int| 0 <= i < fields.len() implies (#[trigger] items(i)) is Ok by {}
    }
}

/// The sources of the derived entries are single bits where they are
/// flags, so that in a buffer of full size each of them decodes.
proof fn lemma_sources_decode(sram: Seq<u8>)
    requires
        sram.len() == SRAM_SIZE,
    ensures
        decoded_catalog(sram, DERIVED_SOURCES@) is Ok,
{
    lemma_catalog_decodes(sram, DERIVED_SOURCES@);
    assert forall|i: int| 0 <= i < DERIVED_SOURCES@.len() implies flag_is_boolean(
        sram,
        #[trigger] DERIVED_SOURCES@[i],
    ) by {
        let field = DERIVED_SOURCES@[i];
        if field.4 {
            lemma_field_of_bound(sram[field.1 as int] as nat, 1, field.3 as nat);
            lemma2_to64();
        }
    }
}

/// In a buffer of full size every field of the equipment lies inside the
/// buffer. Decoding then succeeds exactly when every listed flag holds 0
/// or 1, and fails with no other error than `InvalidBoolean`.
pub proof fn full_buffer_equipment(sram: Seq<u8>)
    requires
        sram.len() == SRAM_SIZE,
    ensures
        decoded_equipment(sram) is Ok <==> flags_are_boolean(sram, EQUIPMENT_FIELDS@),
        decoded_equipment(sram) matches Err(e) ==> e == DecodeError::InvalidBoolean,
{
    lemma_catalog_decodes(sram, EQUIPMENT_FIELDS@);
    lemma_sources_decode(sram);
}

/// A valid buffer in which every listed flag holds 0 or 1 decodes, with
/// validation as without it.
pub proof fn valid_buffer_equipment(sram: Seq<u8>)
    requires
        validation(sram) is Ok,
        flags_are_boolean(sram, EQUIPMENT_FIELDS@),
    ensures
        equipment_outcome(sram, true) is Ok,
        equipment_outcome(sram, true) == equipment_outcome(sram, false),
{
    full_buffer_equipment(sram);
}

/// A catalog that decodes yields one entry for each of its lines, under
/// the line's name.
pub proof fn lemma_catalog_names(sram: Seq<u8>, fields: Seq<EquipField>)
    requires
        decoded_catalog(sram, fields) is Ok,
    ensures
        decoded_catalog(sram, fields)->Ok_0.len() == fields.len(),
        forall|i: int|
            0 <= i < fields.len() ==> (#[trigger] decoded_catalog(sram, fields)->Ok_0[i]).0
                == fields[i].0@,
{
    lemma_collect_all(equipment_items(sram, fields), fields.len());
    let entries = decoded_catalog(sram, fields)->Ok_0;
    assert forall|i: int| 0 <= i < fields.len() implies (#[trigger] entries[i]).0
        == fields[i].0@ by {
        assert(equipment_items(sram, fields)(i) == Decoded::<(Seq<char>, Z3REquip)>::Ok(
            entries[i],
        ));
    }
}

/// The name of the piece of equipment at each place of the list that a
/// buffer decodes to.
pub open spec fn equipment_name(place: int) -> Seq<char> {
    if place < 48 {
        EQUIPMENT_FIELDS[place].0@
    } else if place == 48 {
        "bottles"@
    } else if place == 49 {
        "bow"@
    } else if place == 50 {
        "silver arrows"@
    } else if place == 51 {
        "mushroom"@
    } else if place == 52 {
        "mushroom turned in"@
    } else {
        "flute"@
    }
}

/// The pieces of equipment that a buffer decodes to are 54, each under the
/// name of its place.
pub proof fn equipment_goes_by_its_names(sram: Seq<u8>)
    requires
        decoded_equipment(sram) is Ok,
    ensures
        decoded_equipment(sram)->Ok_0.len() == 54,
        forall|i: int|
            0 <= i < 54 ==> (#[trigger] decoded_equipment(sram)->Ok_0[i]).0 == equipment_name(i),
{
    let entries = decoded_equipment(sram)->Ok_0;
    let listed = decoded_catalog(sram, EQUIPMENT_FIELDS@)->Ok_0;
    let extra = derived(decoded_catalog(sram, DERIVED_SOURCES@)->Ok_0);
    lemma_catalog_names(sram, EQUIPMENT_FIELDS@);
    assert(entries == listed + extra);
}

/// No two places of the list of equipment go by one name.
pub proof fn equipment_names_differ()
    ensures
        forall|i: int, j: int|
            0 <= i < j < 54 ==> #[trigger] equipment_name(i) != #[trigger] equipment_name(j),
{
    reveal_strlit("current rupees");
    assert(mark("current rupees"@) == (14nat, 'c', 'u', 'e', 's'));
    reveal_strlit("current arrows");
    assert(mark("current arrows"@) == (14nat, 'c', 'u', 'w', 's'));
    reveal_strlit("current bombs");
    assert(mark("current bombs"@) == (13nat, 'c', 'u', 'b', 's'));
    reveal_strlit("current health");
    assert(mark("current health"@) == (14nat, 'c', 'u', 't', 'h'));
    reveal_strlit("current magic");
    assert(mark("current magic"@) == (13nat, 'c', 'u', 'i', 'c'));
    reveal_strlit("magic consumption");
    assert(mark("magic consumption"@) == (17nat, 'm', 'a', 'o', 'n'));
    reveal_strlit("goal items");
    assert(mark("goal items"@) == (10nat, 'g', 'o', 'm', 's'));
    reveal_strlit("bomb upgrades");
    assert(mark("bomb upgrades"@) == (13nat, 'b', 'o', 'e', 's'));
    reveal_strlit("arrow upgrades");
    assert(mark("arrow upgrades"@) == (14nat, 'a', 'r', 'e', 's'));
    reveal_strlit("fire rod");
    assert(mark("fire rod"@) == (8nat, 'f', 'i', 'o', 'd'));
    reveal_strlit("ice rod");
    assert(mark("ice rod"@) == (7nat, 'i', 'c', 'o', 'd'));
    reveal_strlit("bombos");
    assert(mark("bombos"@) == (6nat, 'b', 'o', 'o', 's'));
    reveal_strlit("ether");
    assert(mark("ether"@) == (5nat, 'e', 't', 'e', 'r'));
    reveal_strlit("quake");
    assert(mark("quake"@) == (5nat, 'q', 'u', 'k', 'e'));
    reveal_strlit("lamp");
    assert(mark("lamp"@) == (4nat, 'l', 'a', 'm', 'p'));
    reveal_strlit("hammer");
    assert(mark("hammer"@) == (6nat, 'h', 'a', 'e', 'r'));
    reveal_strlit("hookshot");
    assert(mark("hookshot"@) == (8nat, 'h', 'o', 'o', 't'));
    reveal_strlit("bug net");
    assert(mark("bug net"@) == (7nat, 'b', 'u', 'e', 't'));
    reveal_strlit("book");
    assert(mark("book"@) == (4nat, 'b', 'o', 'o', 'k'));
    reveal_strlit("somaria");
    assert(mark("somaria"@) == (7nat, 's', 'o', 'i', 'a'));
    reveal_strlit("byrna");
    assert(mark("byrna"@) == (5nat, 'b', 'y', 'n', 'a'));
    reveal_strlit("cape");
    assert(mark("cape"@) == (4nat, 'c', 'a', 'p', 'e'));
    reveal_strlit("mirror");
    assert(mark("mirror"@) == (6nat, 'm', 'i', 'o', 'r'));
    reveal_strlit("gloves");
    assert(mark("gloves"@) == (6nat, 'g', 'l', 'e', 's'));
    reveal_strlit("boots");
    assert(mark("boots"@) == (5nat, 'b', 'o', 't', 's'));
    reveal_strlit("flippers");
    assert(mark("flippers"@) == (8nat, 'f', 'l', 'r', 's'));
    reveal_strlit("moon pearl");
    assert(mark("moon pearl"@) == (10nat, 'm', 'o', 'r', 'l'));
    reveal_strlit("sword");
    assert(mark("sword"@) == (5nat, 's', 'w', 'r', 'd'));
    reveal_strlit("shield");
    assert(mark("shield"@) == (6nat, 's', 'h', 'l', 'd'));
    reveal_strlit("mail");
    assert(mark("mail"@) == (4nat, 'm', 'a', 'i', 'l'));
    reveal_strlit("bottle 1");
    assert(mark("bottle 1"@) == (8nat, 'b', 'o', ' ', '1'));
    reveal_strlit("bottle 2");
    assert(mark("bottle 2"@) == (8nat, 'b', 'o', ' ', '2'));
    reveal_strlit("bottle 3");
    assert(mark("bottle 3"@) == (8nat, 'b', 'o', ' ', '3'));
    reveal_strlit("bottle 4");
    assert(mark("bottle 4"@) == (8nat, 'b', 'o', ' ', '4'));
    reveal_strlit("blue boomerang");
    assert(mark("blue boomerang"@) == (14nat, 'b', 'l', 'n', 'g'));
    reveal_strlit("red boomerang");
    assert(mark("red boomerang"@) == (13nat, 'r', 'e', 'n', 'g'));
    reveal_strlit("powder");
    assert(mark("powder"@) == (6nat, 'p', 'o', 'e', 'r'));
    reveal_strlit("shovel");
    assert(mark("shovel"@) == (6nat, 's', 'h', 'e', 'l'));
    reveal_strlit("green pendant");
    assert(mark("green pendant"@) == (13nat, 'g', 'r', 'n', 't'));
    reveal_strlit("blue pendant");
    assert(mark("blue pendant"@) == (12nat, 'b', 'l', 'n', 't'));
    reveal_strlit("red pendant");
    assert(mark("red pendant"@) == (11nat, 'r', 'e', 'n', 't'));
    reveal_strlit("crystal 1");
    assert(mark("crystal 1"@) == (9nat, 'c', 'r', ' ', '1'));
    reveal_strlit("crystal 2");
    assert(mark("crystal 2"@) == (9nat, 'c', 'r', ' ', '2'));
    reveal_strlit("crystal 3");
    assert(mark("crystal 3"@) == (9nat, 'c', 'r', ' ', '3'));
    reveal_strlit("crystal 4");
    assert(mark("crystal 4"@) == (9nat, 'c', 'r', ' ', '4'));
    reveal_strlit("crystal 5");
    assert(mark("crystal 5"@) == (9nat, 'c', 'r', ' ', '5'));
    reveal_strlit("crystal 6");
    assert(mark("crystal 6"@) == (9nat, 'c', 'r', ' ', '6'));
    reveal_strlit("crystal 7");
    assert(mark("crystal 7"@) == (9nat, 'c', 'r', ' ', '7'));
    reveal_strlit("bottles");
    assert(mark("bottles"@) == (7nat, 'b', 'o', 'e', 's'));
    reveal_strlit("bow");
    assert(mark("bow"@) == (3nat, 'b', 'o', 'o', 'w'));
    reveal_strlit("silver arrows");
    assert(mark("silver arrows"@) == (13nat, 's', 'i', 'w', 's'));
    reveal_strlit("mushroom");
    assert(mark("mushroom"@) == (8nat, 'm', 'u', 'o', 'm'));
    reveal_strlit("mushroom turned in");
    assert(mark("mushroom turned in"@) == (18nat, 'm', 'u', 'i', 'n'));
    reveal_strlit("flute");
    assert(mark("flute"@) == (5nat, 'f', 'l', 't', 'e'));
    assert forall|i: int, j: int| 0 <= i < j < 54 implies mark(#[trigger] equipment_name(i))
        != mark(#[trigger] equipment_name(j)) by {}
}

/// In the list that reading the equipment gives, each entry is the one
/// that is found under the name of its place.
pub proof fn equipment_is_found_by_name(sram: Seq<u8>, entries: Seq<EquipEntry>, place: int)
    requires
        decoded_equipment(sram) == Decoded::<EquipList>::Ok(named(entries)),
        0 <= place < 54,
    ensures
        position(names_of(entries), equipment_name(place)) == Some(place),
{
    equipment_goes_by_its_names(sram);
    equipment_names_differ();
    let names = names_of(entries);
    assert forall|i: int| 0 <= i < 54 implies #[trigger] names[i] == equipment_name(i) by {
        assert(named(entries)[i].0 == equipment_name(i));
    }
    distinct_names_are_found_in_place(names, place);
}

} // verus!
