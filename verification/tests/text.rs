use z3r_sramr::error::DecodeError;
use z3r_sramr::strings::same_text;
use z3r_sramr::text::{
    decode_file_name, decode_glyph, decode_text, GLYPHS, GLYPH_COUNT, NAME_HEAD, NAME_TAIL,
};

/// The code unit that selects the glyph at `index`.
fn code_for(index: u16) -> u16 {
    (index & 0xF) | ((index & 0xF0) << 1)
}

fn put(sram: &mut [u8], at: usize, code: u16) {
    sram[at] = code.to_le_bytes()[0];
    sram[at + 1] = code.to_le_bytes()[1];
}

#[test]
fn table_has_its_glyphs_in_place() {
    assert_eq!(GLYPH_COUNT, 207);
    assert_eq!(GLYPHS.len(), 207);
    assert_eq!(GLYPHS[0], 'あ');
    assert_eq!(GLYPHS[79], 'ぉ');
    assert_eq!(GLYPHS[80], 'ア');
    assert_eq!(GLYPHS[159], 'ォ');
    assert_eq!(GLYPHS[160], '0');
    assert_eq!(GLYPHS[169], '9');
    assert_eq!(GLYPHS[170], 'A');
    assert_eq!(GLYPHS[195], 'Z');
    assert_eq!(GLYPHS[196], '「');
    assert_eq!(GLYPHS[197], '」');
    assert_eq!(GLYPHS[198], '?');
    assert_eq!(GLYPHS[199], '!');
    assert_eq!(GLYPHS[200], ',');
    assert_eq!(GLYPHS[201], '-');
    assert_eq!(GLYPHS[202], '<');
    assert_eq!(GLYPHS[203], '>');
    assert_eq!(GLYPHS[204], ' ');
    assert_eq!(GLYPHS[205], '。');
    assert_eq!(GLYPHS[206], '~');
}

#[test]
fn katakana_follow_hiragana_in_step() {
    for index in 0..80 {
        assert_eq!(GLYPHS[index + 80] as u32, GLYPHS[index] as u32 + 0x60);
    }
}

#[test]
fn digits_and_letters_are_in_order() {
    for d in 0..10u8 {
        assert_eq!(GLYPHS[160 + d as usize], (b'0' + d) as char);
    }
    for l in 0..26u8 {
        assert_eq!(GLYPHS[170 + l as usize], (b'A' + l) as char);
    }
}

#[test]
fn glyph_of_a_code_unit() {
    assert_eq!(decode_glyph(0x0000), Ok('あ'));
    assert_eq!(decode_glyph(0x000F), Ok('ん'));
    assert_eq!(decode_glyph(0x0020), Ok('さ'));
    // 0x14A: low four bits 0xA, bits five to eight 0xA, so index 0xAA = 170
    assert_eq!(decode_glyph(0x014A), Ok('A'));
    assert_eq!(decode_glyph(0x018E), Ok('~'));
}

#[test]
fn bits_outside_the_index_do_not_count() {
    // bit four and the bits above bit eight are dropped
    assert_eq!(decode_glyph(0x0010), Ok('あ'));
    assert_eq!(decode_glyph(0x0200), Ok('あ'));
    assert_eq!(decode_glyph(0xFE10), Ok('あ'));
    assert_eq!(decode_glyph(0x014A | 0x0010 | 0x8000), Ok('A'));
}

#[test]
fn every_index_of_the_table_is_reached() {
    for index in 0..207u16 {
        assert_eq!(decode_glyph(code_for(index)), Ok(GLYPHS[index as usize]));
    }
}

#[test]
fn index_past_the_table_is_refused() {
    for index in 207..256u16 {
        assert_eq!(decode_glyph(code_for(index)), Err(DecodeError::GlyphIndexOutOfRange));
    }
    assert_eq!(decode_glyph(0xFFFF), Err(DecodeError::GlyphIndexOutOfRange));
}

#[test]
fn text_of_two_bytes() {
    assert_eq!(decode_text(&[0x4A, 0x01], 0, 1), Ok(String::from("A")));
}

#[test]
fn same_bytes_give_the_same_text_every_time() {
    let sram = [0x4A, 0x01, 0x4B, 0x01, 0x00, 0x00];
    let first = decode_text(&sram, 0, 3);
    let second = decode_text(&sram, 0, 3);
    assert_eq!(first, Ok(String::from("ABあ")));
    assert_eq!(first, second);
}

#[test]
fn text_of_no_units_is_empty() {
    assert_eq!(decode_text(&[], 0, 0), Ok(String::new()));
    assert_eq!(decode_text(&[], 100, 0), Ok(String::new()));
}

#[test]
fn text_past_the_end_is_out_of_bounds() {
    let sram = [0x4A, 0x01, 0x4B];
    assert_eq!(decode_text(&sram, 0, 2), Err(DecodeError::OutOfBounds));
    assert_eq!(decode_text(&sram, 2, 1), Err(DecodeError::OutOfBounds));
    assert_eq!(decode_text(&sram, usize::MAX, 1), Err(DecodeError::OutOfBounds));
}

#[test]
fn first_failing_unit_decides_the_error() {
    // the second unit selects no glyph, the third lies past the end
    let sram = [0x4A, 0x01, 0xFF, 0xFF];
    assert_eq!(decode_text(&sram, 0, 3), Err(DecodeError::GlyphIndexOutOfRange));
    // the first unit is fine, the second lies past the end
    assert_eq!(decode_text(&sram[..3], 0, 2), Err(DecodeError::OutOfBounds));
}

#[test]
fn file_name_joins_its_two_parts() {
    let mut sram = vec![0u8; 0x510];
    for (place, letter) in "LINK".bytes().enumerate() {
        put(&mut sram, 0x3D9 + 2 * place, code_for(170 + (letter - b'A') as u16));
    }
    for (place, digit) in "01234567".bytes().enumerate() {
        put(&mut sram, 0x500 + 2 * place, code_for(160 + (digit - b'0') as u16));
    }
    assert_eq!(decode_file_name(&sram), Ok(String::from("LINK01234567")));
}

#[test]
fn file_name_of_an_empty_buffer() {
    let sram = vec![0u8; 0x8000];
    assert_eq!(decode_file_name(&sram), Ok(String::from("ああああああああああああ")));
}

#[test]
fn file_name_with_glyphs_of_several_bytes() {
    let mut sram = vec![0u8; 0x510];
    put(&mut sram, 0x3D9, code_for(80));
    put(&mut sram, 0x3DB, code_for(205));
    put(&mut sram, 0x50E, code_for(206));
    assert_eq!(decode_file_name(&sram), Ok(String::from("ア。あああああああああ~")));
}

#[test]
fn file_name_needs_both_parts() {
    assert_eq!(NAME_HEAD, (0x3D9, 4));
    assert_eq!(NAME_TAIL, (0x500, 8));
    assert_eq!(decode_file_name(&vec![0u8; 0x50F]), Err(DecodeError::OutOfBounds));
    assert_eq!(decode_file_name(&vec![0u8; 0x3E0]), Err(DecodeError::OutOfBounds));
    assert_eq!(decode_file_name(&[]), Err(DecodeError::OutOfBounds));
    assert!(decode_file_name(&vec![0u8; 0x510]).is_ok());
}

#[test]
fn file_name_with_an_unknown_glyph() {
    let mut sram = vec![0u8; 0x510];
    put(&mut sram, 0x3DF, code_for(207));
    assert_eq!(decode_file_name(&sram), Err(DecodeError::GlyphIndexOutOfRange));
    let mut sram = vec![0u8; 0x510];
    put(&mut sram, 0x50E, code_for(255));
    assert_eq!(decode_file_name(&sram), Err(DecodeError::GlyphIndexOutOfRange));
}

#[test]
fn bad_glyph_in_the_head_comes_before_a_missing_tail() {
    let mut sram = vec![0u8; 0x400];
    put(&mut sram, 0x3D9, code_for(250));
    assert_eq!(decode_file_name(&sram), Err(DecodeError::GlyphIndexOutOfRange));
}

#[test]
fn texts_are_compared_by_their_characters() {
    assert!(same_text("", ""));
    assert!(same_text("mirror", "mirror"));
    assert!(!same_text("mirror", "mirrors"));
    assert!(!same_text("mirror", "mirroR"));
    assert!(!same_text("bottle 1", "bottle 2"));
    assert!(same_text("ア。~", "ア。~"));
    assert!(!same_text("ア。~", "イ。~"));
    assert!(!same_text("a", ""));
}
