use z3r_sramr::equipment::Z3REquip;
use z3r_sramr::error::DecodeError;
use z3r_sramr::lookup::find;
use z3r_sramr::report::{parse_sram, show_equipment, show_equipments, show_stat, show_stats, Shown};
use z3r_sramr::stats::Z3RStat;

fn seal(sram: &mut [u8]) {
    let mut sum: u16 = 0;
    let mut at = 0;
    while at < 0x4FE {
        sum = sum.wrapping_add(u16::from_le_bytes([sram[at], sram[at + 1]]));
        at += 2;
    }
    let inverse = 0x5A5Au16.wrapping_sub(sum);
    sram[0x4FE] = inverse.to_le_bytes()[0];
    sram[0x4FF] = inverse.to_le_bytes()[1];
}

fn valid_buffer() -> Vec<u8> {
    let mut sram = vec![0u8; 0x8000];
    sram[0x3E1] = 0xAA;
    sram[0x3E2] = 0x55;
    sram[0x4F0] = 0xFF;
    sram[0x2000..0x200D].copy_from_slice(b"VT abcdefghij");
    seal(&mut sram);
    sram
}

fn text(text: &str) -> Shown {
    Shown::Text(String::from(text))
}

#[test]
fn stats_laid_out_for_display() {
    assert_eq!(show_stat(&Z3RStat::Meta(Some(String::from("LINK")))), text("LINK"));
    assert_eq!(show_stat(&Z3RStat::Meta(None)), Shown::Nothing);
    assert_eq!(show_stat(&Z3RStat::Number(12)), Shown::Number(12));
    assert_eq!(show_stat(&Z3RStat::new_fraction(5, 216)), text("5/216"));
    assert_eq!(show_stat(&Z3RStat::new_time(219661)), text("01:01:01.01"));
}

#[test]
fn plain_equipment_laid_out_for_display() {
    assert_eq!(show_equipment("lamp", Z3REquip::Has(true)), Shown::Flag(true));
    assert_eq!(show_equipment("lamp", Z3REquip::Has(false)), Shown::Flag(false));
    assert_eq!(show_equipment("current rupees", Z3REquip::Number(999)), Shown::Number(999));
    assert_eq!(show_equipment("bottles", Z3REquip::Number(3)), Shown::Number(3));
    assert_eq!(show_equipment("bomb upgrades", Z3REquip::Number(2)), Shown::Number(2));
    assert_eq!(show_equipment("arrow upgrades", Z3REquip::Number(0)), Shown::Number(0));
    assert_eq!(show_equipment("", Z3REquip::Number(1)), Shown::Number(1));
}

#[test]
fn graded_equipment_laid_out_by_its_label() {
    assert_eq!(show_equipment("mirror", Z3REquip::Number(2)), text("Magic Mirror"));
    assert_eq!(show_equipment("mirror", Z3REquip::Number(0)), Shown::Nothing);
    assert_eq!(show_equipment("sword", Z3REquip::Number(255)), text("Swordless"));
    assert_eq!(show_equipment("sword", Z3REquip::Number(0)), Shown::Nothing);
    assert_eq!(show_equipment("shield", Z3REquip::Number(3)), text("Mirror Shield"));
    assert_eq!(show_equipment("shield", Z3REquip::Number(9)), text("Unknown Shield"));
    assert_eq!(show_equipment("mail", Z3REquip::Number(0)), text("Green Mail"));
    assert_eq!(show_equipment("gloves", Z3REquip::Number(1)), text("Power Gloves"));
    assert_eq!(show_equipment("gloves", Z3REquip::Number(0)), Shown::Nothing);
    assert_eq!(show_equipment("magic consumption", Z3REquip::Number(2)), text("1/4 Magic"));
    for bottle in ["bottle 1", "bottle 2", "bottle 3", "bottle 4"] {
        assert_eq!(show_equipment(bottle, Z3REquip::Number(6)), text("Fairy"));
        assert_eq!(show_equipment(bottle, Z3REquip::Number(0)), Shown::Nothing);
    }
}

#[test]
fn label_goes_by_the_worth_of_a_flag() {
    assert_eq!(show_equipment("mail", Z3REquip::Has(true)), text("Blue Mail"));
    assert_eq!(show_equipment("sword", Z3REquip::Has(false)), Shown::Nothing);
}

#[test]
fn label_needs_the_exact_name() {
    assert_eq!(show_equipment("Mirror", Z3REquip::Number(2)), Shown::Number(2));
    assert_eq!(show_equipment("bottle 5", Z3REquip::Number(2)), Shown::Number(2));
    assert_eq!(show_equipment("bottle", Z3REquip::Number(2)), Shown::Number(2));
    assert_eq!(show_equipment("swords", Z3REquip::Number(2)), Shown::Number(2));
}

#[test]
fn lists_are_laid_out_entry_by_entry() {
    let stats = vec![("bonks", Z3RStat::Number(4)), ("hash id", Z3RStat::Meta(None))];
    assert_eq!(show_stats(&stats), vec![("bonks", Shown::Number(4)), ("hash id", Shown::Nothing)]);
    assert_eq!(show_stats(&[]), vec![]);
    let equipment = vec![("sword", Z3REquip::Number(2)), ("lamp", Z3REquip::Has(true))];
    assert_eq!(
        show_equipments(&equipment),
        vec![("sword", text("Master Sword")), ("lamp", Shown::Flag(true))]
    );
    assert_eq!(show_equipments(&[]), vec![]);
}

#[test]
fn whole_buffer_is_parsed_into_three_lists() {
    let mut sram = valid_buffer();
    sram[0x423] = 100;
    sram[0x442] = 40;
    sram[0x359] = 2;
    sram[0x35C] = 3;
    sram[0x34A] = 1;
    sram[0x362] = 77;
    seal(&mut sram);
    let report = parse_sram(&sram, true).unwrap();
    assert_eq!(
        report.meta,
        vec![
            ("hash id", text("abcdefghij")),
            ("permalink", text("https://alttpr.com/h/abcdefghij")),
            ("filename", text("ああああああああああああ")),
        ]
    );
    assert_eq!(report.stats.len(), 55);
    assert_eq!(find(&report.stats, "other locations"), Some(&Shown::Number(60)));
    assert_eq!(find(&report.stats, "collection rate"), Some(&text("100/216")));
    assert_eq!(find(&report.stats, "total time"), Some(&text("00:00:00.00")));
    assert_eq!(find(&report.stats, "filename"), None);
    assert_eq!(report.equipment.len(), 54);
    assert_eq!(find(&report.equipment, "sword"), Some(&text("Master Sword")));
    assert_eq!(find(&report.equipment, "shield"), Some(&Shown::Nothing));
    assert_eq!(find(&report.equipment, "mail"), Some(&text("Green Mail")));
    assert_eq!(find(&report.equipment, "bottle 1"), Some(&text("Red Potion")));
    assert_eq!(find(&report.equipment, "bottle 2"), Some(&Shown::Nothing));
    assert_eq!(find(&report.equipment, "bottles"), Some(&Shown::Number(1)));
    assert_eq!(find(&report.equipment, "lamp"), Some(&Shown::Flag(true)));
    assert_eq!(find(&report.equipment, "hammer"), Some(&Shown::Flag(false)));
    assert_eq!(find(&report.equipment, "current rupees"), Some(&Shown::Number(77)));
    assert_eq!(parse_sram(&sram, false), Ok(report));
}

#[test]
fn parsing_validates_first() {
    let mut sram = valid_buffer();
    sram[0x345] = 2;
    assert_eq!(parse_sram(&sram, true), Err(DecodeError::ChecksumError));
    assert_eq!(parse_sram(&sram, false), Err(DecodeError::InvalidBoolean));
    assert_eq!(parse_sram(&sram[..0x100], true), Err(DecodeError::SizeError));
    assert_eq!(parse_sram(&sram[..0x100], false), Err(DecodeError::OutOfBounds));
}

#[test]
fn stats_are_parsed_before_the_equipment() {
    let mut sram = valid_buffer();
    sram[0x345] = 2;
    sram[0x500] = 0xFF;
    sram[0x501] = 0xFF;
    assert_eq!(parse_sram(&sram, false), Err(DecodeError::GlyphIndexOutOfRange));
    sram[0x2003] = 0xFF;
    assert_eq!(parse_sram(&sram, false), Err(DecodeError::IdentityError));
}
