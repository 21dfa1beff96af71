use z3r_sramr::equipment::{
    classify, decode_catalog, derive_equipment, get_equipment, map_bottle_contents, map_gloves,
    map_magic_consumption, map_mail, map_mirror, map_shield, map_sword, read_equipment, EquipEntry,
    Z3REquip, DERIVED_SOURCES, EQUIPMENT_FIELDS,
};
use z3r_sramr::error::DecodeError;
use z3r_sramr::lookup::find;

fn seal(sram: &mut [u8]) {
    let mut sum: u16 = 0;
    let mut at = 0;
    while at < 0x4FE {
        sum = sum.wrapping_add(u16::from_le_bytes([sram[at], sram[at + 1]]));
        at += 2;
    }
    let inverse = 0x5A5Au16.wrapping_sub(sum);
    sram[0x4FE] = inverse.to_le_bytes()[0];
    sram[0x4FF] = inverse.to_le_bytes()[1];
}

fn valid_buffer() -> Vec<u8> {
    let mut sram = vec![0u8; 0x8000];
    sram[0x3E1] = 0xAA;
    sram[0x3E2] = 0x55;
    sram[0x4F0] = 0xFF;
    sram[0x2000] = b'V';
    sram[0x2001] = b'T';
    seal(&mut sram);
    sram
}

fn get(entries: &[EquipEntry], name: &str) -> Z3REquip {
    match find(entries, name) {
        Some(value) => *value,
        None => panic!("no entry {name}"),
    }
}

fn some(text: &str) -> Option<String> {
    Some(String::from(text))
}

#[test]
fn flag_is_held_when_set() {
    assert!(Z3REquip::Has(true).has());
    assert!(!Z3REquip::Has(false).has());
}

#[test]
fn number_is_held_when_not_zero() {
    assert!(!Z3REquip::Number(0).has());
    assert!(Z3REquip::Number(1).has());
    assert!(Z3REquip::Number(u32::MAX).has());
}

#[test]
fn value_of_a_flag_is_one_or_zero() {
    assert_eq!(Z3REquip::Has(true).value(), 1);
    assert_eq!(Z3REquip::Has(false).value(), 0);
}

#[test]
fn value_of_a_number_is_itself() {
    assert_eq!(Z3REquip::Number(0).value(), 0);
    assert_eq!(Z3REquip::Number(999).value(), 999);
    assert_eq!(Z3REquip::Number(u32::MAX).value(), u32::MAX);
}

#[test]
fn equipment_is_shown_as_text() {
    assert_eq!(Z3REquip::Has(true).to_string(), "True");
    assert_eq!(Z3REquip::Has(false).to_string(), "False");
    assert_eq!(Z3REquip::Number(0).to_string(), "0");
    assert_eq!(Z3REquip::Number(999).to_string(), "999");
}

#[test]
fn raw_zero_is_false() {
    assert_eq!(classify(0, true), Ok(Z3REquip::Has(false)));
}

#[test]
fn raw_one_is_true() {
    assert_eq!(classify(1, true), Ok(Z3REquip::Has(true)));
}

#[test]
fn raw_two_is_no_boolean() {
    assert_eq!(classify(2, true), Err(DecodeError::InvalidBoolean));
    assert_eq!(classify(255, true), Err(DecodeError::InvalidBoolean));
    assert_eq!(classify(u32::MAX, true), Err(DecodeError::InvalidBoolean));
}

#[test]
fn raw_number_passes_as_it_is() {
    assert_eq!(classify(0, false), Ok(Z3REquip::Number(0)));
    assert_eq!(classify(2, false), Ok(Z3REquip::Number(2)));
    assert_eq!(classify(u32::MAX, false), Ok(Z3REquip::Number(u32::MAX)));
}

#[test]
fn field_is_extracted_then_classified() {
    let sram = [0b1110_0000, 0x01, 0x02];
    assert_eq!(get_equipment(&sram, 0, 3, 5, false), Ok(Z3REquip::Number(7)));
    assert_eq!(get_equipment(&sram, 0, 1, 7, true), Ok(Z3REquip::Has(true)));
    assert_eq!(get_equipment(&sram, 0, 1, 0, true), Ok(Z3REquip::Has(false)));
    assert_eq!(get_equipment(&sram, 1, 8, 0, true), Ok(Z3REquip::Has(true)));
    assert_eq!(get_equipment(&sram, 2, 8, 0, true), Err(DecodeError::InvalidBoolean));
    assert_eq!(get_equipment(&sram, 1, 16, 0, false), Ok(Z3REquip::Number(0x0201)));
    assert_eq!(get_equipment(&sram, 3, 8, 0, false), Err(DecodeError::OutOfBounds));
    assert_eq!(get_equipment(&sram, 0, 17, 0, false), Err(DecodeError::WidthOverflow(0)));
    assert_eq!(get_equipment(&sram, 1, 0, 0, true), Err(DecodeError::WidthOverflow(1)));
}

#[test]
fn equipment_of_seventeen_bits_is_too_wide() {
    let sram = [0xFFu8, 0xFF, 0xFF];
    let wide = get_equipment(&sram, 0, 16, 1, false);
    assert_eq!(wide, Err(DecodeError::WidthOverflow(0)));
    assert_eq!(wide.unwrap_err().to_string(), "Tried reading more than two bytes at 0");
    let wide = get_equipment(&sram, 866, 16, 1, true);
    assert_eq!(wide.unwrap_err().to_string(), "Tried reading more than two bytes at 866");
}

#[test]
fn catalog_is_decoded_in_order() {
    let sram = [5, 1, 0b0100_0000];
    let fields = [("five", 0, 8, 0, false), ("held", 1, 8, 0, true), ("bit six", 2, 1, 6, true)];
    assert_eq!(
        decode_catalog(&sram, &fields),
        Ok(vec![
            ("five", Z3REquip::Number(5)),
            ("held", Z3REquip::Has(true)),
            ("bit six", Z3REquip::Has(true)),
        ])
    );
    assert_eq!(decode_catalog(&sram, &[]), Ok(vec![]));
}

#[test]
fn first_failing_field_of_a_catalog_decides() {
    let sram = [5, 2];
    let flag_then_end = [("held", 1, 8, 0, true), ("past", 2, 8, 0, false)];
    assert_eq!(decode_catalog(&sram, &flag_then_end), Err(DecodeError::InvalidBoolean));
    let end_then_flag = [("past", 2, 8, 0, false), ("held", 1, 8, 0, true)];
    assert_eq!(decode_catalog(&sram, &end_then_flag), Err(DecodeError::OutOfBounds));
    let wide_then_end = [("wide", 9, 9, 9, false), ("past", 2, 8, 0, false)];
    assert_eq!(decode_catalog(&sram, &wide_then_end), Err(DecodeError::WidthOverflow(9)));
}

#[test]
fn equipment_of_an_empty_buffer() {
    let sram = vec![0u8; 0x8000];
    let entries = read_equipment(&sram, false).unwrap();
    assert_eq!(entries.len(), 54);
    for (place, field) in EQUIPMENT_FIELDS.iter().enumerate() {
        assert_eq!(entries[place].0, field.0);
        let expected = if field.4 { Z3REquip::Has(false) } else { Z3REquip::Number(0) };
        assert_eq!(entries[place].1, expected);
    }
    assert_eq!(entries[48], ("bottles", Z3REquip::Number(0)));
    assert_eq!(entries[49], ("bow", Z3REquip::Has(false)));
    assert_eq!(entries[50], ("silver arrows", Z3REquip::Has(false)));
    assert_eq!(entries[51], ("mushroom", Z3REquip::Has(false)));
    assert_eq!(entries[52], ("mushroom turned in", Z3REquip::Has(false)));
    assert_eq!(entries[53], ("flute", Z3REquip::Has(false)));
}

#[test]
fn equipment_names_are_all_different() {
    let entries = read_equipment(&vec![0u8; 0x8000], false).unwrap();
    for (place, entry) in entries.iter().enumerate() {
        for other in &entries[..place] {
            assert_ne!(entry.0, other.0);
        }
    }
}

#[test]
fn every_piece_of_equipment_is_found_under_its_name() {
    let mut sram = vec![0u8; 0x8000];
    sram[0x362] = 5;
    sram[0x38C] = 0b1010_1010;
    sram[0x35D] = 2;
    let entries = read_equipment(&sram, false).unwrap();
    for entry in &entries {
        assert_eq!(find(&entries, entry.0), Some(&entry.1));
    }
}

#[test]
fn counters_and_levels_are_read_from_their_bytes() {
    let mut sram = vec![0u8; 0x8000];
    sram[0x362] = 0xE7;
    sram[0x363] = 0x03;
    sram[0x377] = 30;
    sram[0x343] = 10;
    sram[0x36D] = 0x18;
    sram[0x36E] = 0x80;
    sram[0x37B] = 1;
    sram[0x418] = 20;
    sram[0x370] = 2;
    sram[0x371] = 3;
    sram[0x353] = 2;
    sram[0x359] = 4;
    sram[0x35A] = 3;
    sram[0x35B] = 1;
    let entries = read_equipment(&sram, false).unwrap();
    assert_eq!(get(&entries, "current rupees"), Z3REquip::Number(999));
    assert_eq!(get(&entries, "current arrows"), Z3REquip::Number(30));
    assert_eq!(get(&entries, "current bombs"), Z3REquip::Number(10));
    assert_eq!(get(&entries, "current health"), Z3REquip::Number(0x18));
    assert_eq!(get(&entries, "current magic"), Z3REquip::Number(0x80));
    assert_eq!(get(&entries, "magic consumption"), Z3REquip::Number(1));
    assert_eq!(get(&entries, "goal items"), Z3REquip::Number(20));
    assert_eq!(get(&entries, "bomb upgrades"), Z3REquip::Number(2));
    assert_eq!(get(&entries, "arrow upgrades"), Z3REquip::Number(3));
    assert_eq!(get(&entries, "mirror"), Z3REquip::Number(2));
    assert_eq!(get(&entries, "gloves"), Z3REquip::Number(2));
    assert_eq!(get(&entries, "sword"), Z3REquip::Number(4));
    assert_eq!(get(&entries, "shield"), Z3REquip::Number(3));
    assert_eq!(get(&entries, "mail"), Z3REquip::Number(1));
}

#[test]
fn items_are_flags_of_a_whole_byte() {
    let items = [
        ("fire rod", 0x345),
        ("ice rod", 0x346),
        ("bombos", 0x347),
        ("ether", 0x348),
        ("quake", 0x349),
        ("lamp", 0x34A),
        ("hammer", 0x34B),
        ("hookshot", 0x342),
        ("bug net", 0x34D),
        ("book", 0x34E),
        ("somaria", 0x350),
        ("byrna", 0x351),
        ("cape", 0x352),
        ("boots", 0x355),
        ("flippers", 0x356),
        ("moon pearl", 0x357),
    ];
    for (name, at) in items {
        let mut sram = vec![0u8; 0x8000];
        sram[at] = 1;
        let entries = read_equipment(&sram, false).unwrap();
        for (other, _) in items {
            assert_eq!(get(&entries, other), Z3REquip::Has(other == name));
        }
        sram[at] = 2;
        assert_eq!(read_equipment(&sram, false), Err(DecodeError::InvalidBoolean));
        sram[at] = 0xFF;
        assert_eq!(read_equipment(&sram, false), Err(DecodeError::InvalidBoolean));
    }
}

#[test]
fn inventory_flags_are_single_bits() {
    let bits = [
        ("blue boomerang", 0x38C, 7),
        ("red boomerang", 0x38C, 6),
        ("powder", 0x38C, 4),
        ("shovel", 0x38C, 2),
        ("green pendant", 0x374, 2),
        ("blue pendant", 0x374, 1),
        ("red pendant", 0x374, 0),
        ("crystal 1", 0x37A, 1),
        ("crystal 2", 0x37A, 4),
        ("crystal 3", 0x37A, 6),
        ("crystal 4", 0x37A, 5),
        ("crystal 5", 0x37A, 2),
        ("crystal 6", 0x37A, 0),
        ("crystal 7", 0x37A, 3),
    ];
    for (name, at, bit) in bits {
        let mut sram = vec![0u8; 0x8000];
        sram[at] = 1 << bit;
        let entries = read_equipment(&sram, false).unwrap();
        for (other, _, _) in bits {
            assert_eq!(get(&entries, other), Z3REquip::Has(other == name));
        }
    }
}

#[test]
fn bottles_are_counted_when_filled() {
    let mut sram = vec![0u8; 0x8000];
    assert_eq!(get(&read_equipment(&sram, false).unwrap(), "bottles"), Z3REquip::Number(0));
    sram[0x35D] = 2;
    let entries = read_equipment(&sram, false).unwrap();
    assert_eq!(get(&entries, "bottle 1"), Z3REquip::Number(0));
    assert_eq!(get(&entries, "bottle 2"), Z3REquip::Number(2));
    assert_eq!(get(&entries, "bottles"), Z3REquip::Number(1));
    sram[0x35C] = 3;
    sram[0x35E] = 0xFF;
    sram[0x35F] = 8;
    let entries = read_equipment(&sram, false).unwrap();
    assert_eq!(get(&entries, "bottle 1"), Z3REquip::Number(3));
    assert_eq!(get(&entries, "bottle 3"), Z3REquip::Number(255));
    assert_eq!(get(&entries, "bottle 4"), Z3REquip::Number(8));
    assert_eq!(get(&entries, "bottles"), Z3REquip::Number(4));
}

#[test]
fn bow_and_silver_arrows_share_a_flag() {
    let cases = [
        (0b0000_0000, false, false),
        (0b1000_0000, true, false),
        (0b0100_0000, true, true),
        (0b0010_0000, false, true),
        (0b1010_0000, true, true),
        (0b0001_1111, false, false),
    ];
    for (byte, bow, silver) in cases {
        let mut sram = vec![0u8; 0x8000];
        sram[0x38E] = byte;
        let entries = read_equipment(&sram, false).unwrap();
        assert_eq!(get(&entries, "bow"), Z3REquip::Has(bow));
        assert_eq!(get(&entries, "silver arrows"), Z3REquip::Has(silver));
    }
}

#[test]
fn mushroom_and_flute_hold_in_either_state() {
    let cases = [
        (0b0000_0000, false, false, false),
        (0b0010_0000, true, false, false),
        (0b0000_1000, true, true, false),
        (0b0000_0010, false, false, true),
        (0b0000_0001, false, false, true),
        (0b0010_1011, true, true, true),
        (0b1101_0100, false, false, false),
    ];
    for (byte, mushroom, turned_in, flute) in cases {
        let mut sram = vec![0u8; 0x8000];
        sram[0x38C] = byte;
        let entries = read_equipment(&sram, false).unwrap();
        assert_eq!(get(&entries, "mushroom"), Z3REquip::Has(mushroom));
        assert_eq!(get(&entries, "mushroom turned in"), Z3REquip::Has(turned_in));
        assert_eq!(get(&entries, "flute"), Z3REquip::Has(flute));
    }
}

#[test]
fn derived_entries_from_their_sources() {
    let sources: Vec<EquipEntry> = vec![
        ("bottle 1", Z3REquip::Number(2)),
        ("bottle 2", Z3REquip::Number(0)),
        ("bottle 3", Z3REquip::Number(7)),
        ("bottle 4", Z3REquip::Number(0)),
        ("mushroom in inventory", Z3REquip::Has(false)),
        ("mushroom turned in", Z3REquip::Has(true)),
        ("flute found", Z3REquip::Has(false)),
        ("flute activated", Z3REquip::Has(false)),
        ("bow", Z3REquip::Has(false)),
        ("silver bow", Z3REquip::Has(false)),
        ("second progressive bow", Z3REquip::Has(true)),
    ];
    assert_eq!(sources.len(), DERIVED_SOURCES.len());
    assert_eq!(
        derive_equipment(&sources),
        vec![
            ("bottles", Z3REquip::Number(2)),
            ("bow", Z3REquip::Has(false)),
            ("silver arrows", Z3REquip::Has(true)),
            ("mushroom", Z3REquip::Has(true)),
            ("mushroom turned in", Z3REquip::Has(true)),
            ("flute", Z3REquip::Has(false)),
        ]
    );
}

#[test]
fn short_buffer_is_out_of_bounds() {
    assert_eq!(read_equipment(&[], false), Err(DecodeError::OutOfBounds));
    assert_eq!(read_equipment(&vec![0u8; 0x363], false), Err(DecodeError::OutOfBounds));
    assert_eq!(read_equipment(&vec![0u8; 0x418], false), Err(DecodeError::OutOfBounds));
    assert!(read_equipment(&vec![0u8; 0x419], false).is_ok());
}

#[test]
fn first_failing_field_of_the_equipment_decides() {
    // the goal items, which lie past the end, come before the fire rod
    let mut sram = vec![0u8; 0x418];
    sram[0x345] = 2;
    assert_eq!(read_equipment(&sram, false), Err(DecodeError::OutOfBounds));
    sram.push(0);
    assert_eq!(read_equipment(&sram, false), Err(DecodeError::InvalidBoolean));
}

#[test]
fn valid_buffer_decodes_with_validation() {
    let mut sram = valid_buffer();
    sram[0x345] = 1;
    sram[0x362] = 50;
    seal(&mut sram);
    let checked = read_equipment(&sram, true);
    assert!(checked.is_ok());
    assert_eq!(checked, read_equipment(&sram, false));
    let entries = checked.unwrap();
    assert_eq!(get(&entries, "fire rod"), Z3REquip::Has(true));
    assert_eq!(get(&entries, "current rupees"), Z3REquip::Number(50));
}

#[test]
fn valid_buffer_with_a_bad_flag_does_not_decode() {
    let mut sram = valid_buffer();
    sram[0x345] = 2;
    seal(&mut sram);
    assert_eq!(z3r_sramr::validate_sram(&sram), Ok(()));
    assert_eq!(read_equipment(&sram, true), Err(DecodeError::InvalidBoolean));
}

#[test]
fn validation_comes_before_decoding() {
    let mut sram = valid_buffer();
    sram[0x345] = 2;
    assert_eq!(read_equipment(&sram, true), Err(DecodeError::ChecksumError));
    assert_eq!(read_equipment(&sram, false), Err(DecodeError::InvalidBoolean));
    assert_eq!(read_equipment(&sram[..0x7FFF], true), Err(DecodeError::SizeError));
    assert_eq!(read_equipment(&vec![0u8; 0x8000], true), Err(DecodeError::MarkerError));
    sram[0x2000] = b'?';
    assert_eq!(read_equipment(&sram, true), Err(DecodeError::IdentityError));
}

#[test]
fn unvalidated_buffer_is_decoded_as_it_is() {
    // nothing is right about this buffer but its equipment
    let mut sram = vec![0u8; 0x500];
    sram[0x34A] = 1;
    let entries = read_equipment(&sram, false).unwrap();
    assert_eq!(get(&entries, "lamp"), Z3REquip::Has(true));
}

#[test]
fn entry_is_found_by_its_name() {
    let entries: Vec<EquipEntry> = vec![
        ("lamp", Z3REquip::Has(true)),
        ("sword", Z3REquip::Number(2)),
        ("lamp", Z3REquip::Has(false)),
    ];
    assert_eq!(find(&entries, "lamp"), Some(&Z3REquip::Has(true)));
    assert_eq!(find(&entries, "sword"), Some(&Z3REquip::Number(2)));
    assert_eq!(find(&entries, "shield"), None);
    assert_eq!(find(&entries, ""), None);
    assert_eq!(find(&entries[..0], "lamp"), None);
}

#[test]
fn magic_consumption_labels() {
    assert_eq!(map_magic_consumption(0), "Normal Magic");
    assert_eq!(map_magic_consumption(1), "1/2 Magic");
    assert_eq!(map_magic_consumption(2), "1/4 Magic");
    assert_eq!(map_magic_consumption(3), "Unknown Magic Consumption");
    assert_eq!(map_magic_consumption(u32::MAX), "Unknown Magic Consumption");
}

#[test]
fn sword_labels() {
    assert_eq!(map_sword(0), None);
    assert_eq!(map_sword(1), some("Fighter's Sword"));
    assert_eq!(map_sword(2), some("Master Sword"));
    assert_eq!(map_sword(3), some("Tempered Sword"));
    assert_eq!(map_sword(4), some("Gold Sword"));
    assert_eq!(map_sword(255), some("Swordless"));
    assert_eq!(map_sword(5), some("Unknown Sword"));
    assert_eq!(map_sword(254), some("Unknown Sword"));
    assert_eq!(map_sword(256), some("Unknown Sword"));
}

#[test]
fn shield_labels() {
    assert_eq!(map_shield(0), None);
    assert_eq!(map_shield(1), some("Blue Shield"));
    assert_eq!(map_shield(2), some("Red Shield"));
    assert_eq!(map_shield(3), some("Mirror Shield"));
    assert_eq!(map_shield(4), some("Unknown Shield"));
}

#[test]
fn mail_labels() {
    assert_eq!(map_mail(0), "Green Mail");
    assert_eq!(map_mail(1), "Blue Mail");
    assert_eq!(map_mail(2), "Red Mail");
    assert_eq!(map_mail(3), "Unknown Mail");
}

#[test]
fn gloves_labels() {
    assert_eq!(map_gloves(0), None);
    assert_eq!(map_gloves(1), some("Power Gloves"));
    assert_eq!(map_gloves(2), some("Titan's Mitts"));
    assert_eq!(map_gloves(3), some("Unknown Gloves"));
}

#[test]
fn mirror_labels() {
    assert_eq!(map_mirror(0), None);
    assert_eq!(map_mirror(1), some("Mirror Scroll"));
    assert_eq!(map_mirror(2), some("Magic Mirror"));
    assert_eq!(map_mirror(3), some("Unknown Mirror"));
}

#[test]
fn bottle_labels() {
    assert_eq!(map_bottle_contents(0), None);
    assert_eq!(map_bottle_contents(1), some("Mushroom"));
    assert_eq!(map_bottle_contents(2), some("Empty Bottle"));
    assert_eq!(map_bottle_contents(3), some("Red Potion"));
    assert_eq!(map_bottle_contents(4), some("Green Potion"));
    assert_eq!(map_bottle_contents(5), some("Blue Potion"));
    assert_eq!(map_bottle_contents(6), some("Fairy"));
    assert_eq!(map_bottle_contents(7), some("Bee"));
    assert_eq!(map_bottle_contents(8), some("Good Bee"));
    assert_eq!(map_bottle_contents(9), some("Unknown Bottle"));
}
