//! The text decoder: names are stored as 16-bit code units, each of which
//! selects a glyph from a fixed table.

use crate::bytes::{le16, read_u16_le, word16};
use crate::collect::{
    collect, followed_by, lemma_collect_agrees, lemma_collect_all, lemma_collect_error,
    lemma_collect_stops,
};
use crate::error::{DecodeError, Decoded};
use vstd::prelude::*;
use vstd::string::StringExecFns;

verus! {

/// How many glyphs there are.
pub const GLYPH_COUNT: usize = 207;

/// The glyphs that a name can hold, in the order of their indices:
/// hiragana, katakana, digits, capital letters and punctuation.
pub const GLYPHS: [char; GLYPH_COUNT] = [
    'あ', 'い', 'う', 'え', 'お', 'や', 'ゆ', 'よ', 'か', 'き', 'く', 'け', 'こ', 'わ', 'を',
    'ん', 'さ', 'し', 'す', 'せ', 'そ', 'が', 'ぎ', 'ぐ', 'た', 'ち', 'つ', 'て', 'と', 'げ',
    'ご', 'ざ', 'な', 'に', 'ぬ', 'ね', 'の', 'じ', 'ず', 'ぜ', 'は', 'ひ', 'ふ', 'へ', 'ほ',
    'ぞ', 'だ', 'ぢ', 'ま', 'み', 'む', 'め', 'も', 'づ', 'で', 'ど', 'ら', 'り', 'る', 'れ',
    'ろ', 'ば', 'び', 'ぶ', 'べ', 'ぼ', 'ぱ', 'ぴ', 'ぷ', 'ぺ', 'ぽ', 'ゃ', 'ゅ', 'ょ', 'っ',
    'ぁ', 'ぃ', 'ぅ', 'ぇ', 'ぉ', 'ア', 'イ', 'ウ', 'エ', 'オ', 'ヤ', 'ユ', 'ヨ', 'カ', 'キ',
    'ク', 'ケ', 'コ', 'ワ', 'ヲ', 'ン', 'サ', 'シ', 'ス', 'セ', 'ソ', 'ガ', 'ギ', 'グ', 'タ',
    'チ', 'ツ', 'テ', 'ト', 'ゲ', 'ゴ', 'ザ', 'ナ', 'ニ', 'ヌ', 'ネ', 'ノ', 'ジ', 'ズ', 'ゼ',
    'ハ', 'ヒ', 'フ', 'ヘ', 'ホ', 'ゾ', 'ダ', 'ヂ', 'マ', 'ミ', 'ム', 'メ', 'モ', 'ヅ', 'デ',
    'ド', 'ラ', 'リ', 'ル', 'レ', 'ロ', 'バ', 'ビ', 'ブ', 'ベ', 'ボ', 'パ', 'ピ', 'プ', 'ペ',
    'ポ', 'ャ', 'ュ', 'ョ', 'ッ', 'ァ', 'ィ', 'ゥ', 'ェ', 'ォ', '0', '1', '2', '3', '4',
    '5', '6', '7', '8', '9', 'A', 'B', 'C', 'D', 'E', 'F', 'G', 'H', 'I', 'J',
    'K', 'L', 'M', 'N', 'O', 'P', 'Q', 'R', 'S', 'T', 'U', 'V', 'W', 'X', 'Y',
    'Z', '「', '」', '?', '!', ',', '-', '<', '>', ' ', '。', '~',
];

/// The index that a code unit selects: bits 0 to 3 of the unit, and above
/// them its bits 5 to 8. Bit 4 and the bits above bit 8 do not count.
pub open spec fn glyph_index(code: u16) -> int {
    ((code & 0xF) | ((code >> 1) & 0xF0)) as int
}

/// The glyph that a code unit stands for, if it selects one.
pub open spec fn glyph(code: u16) -> Decoded<char> {
    if glyph_index(code) < GLYPH_COUNT {
        Ok(GLYPHS[glyph_index(code)])
    } else {
        Err(DecodeError::GlyphIndexOutOfRange)
    }
}

/// The glyph of the code unit at `offset`.
pub open spec fn glyph_at(sram: Seq<u8>, offset: int) -> Decoded<char> {
    match word16(sram, offset) {
        Ok(code) => glyph(code),
        Err(e) => Err(e),
    }
}

/// The glyphs of the code units that follow one another from `offset` on,
/// by their place in the text.
pub open spec fn glyphs_from(sram: Seq<u8>, offset: int) -> spec_fn(int) -> Decoded<char> {
    |i: int| glyph_at(sram, offset + 2 * i)
}

/// The text of `units` code units that start at `offset`. The units are
/// taken in order; the first that lies past the end of the buffer, or that
/// selects no glyph, decides the error.
pub open spec fn text_at(sram: Seq<u8>, offset: int, units: nat) -> Decoded<Seq<char>> {
    collect(glyphs_from(sram, offset), units)
}

/// Where the first part of the file name stands, and how many code units
/// it has.
pub const NAME_HEAD: (usize, usize) = (0x3D9, 4);

/// Where the second part of the file name stands, and how many code units
/// it has.
pub const NAME_TAIL: (usize, usize) = (0x500, 8);

/// The file name: its two parts, which lie apart in the buffer, joined
/// with nothing between them.
pub open spec fn file_name(sram: Seq<u8>) -> Decoded<Seq<char>> {
    followed_by(
        text_at(sram, NAME_HEAD.0 as int, NAME_HEAD.1 as nat),
        text_at(sram, NAME_TAIL.0 as int, NAME_TAIL.1 as nat),
    )
}

/// What a decoded string stands for in contracts: its characters.
pub open spec fn text_of(decoded: Decoded<String>) -> Decoded<Seq<char>> {
    match decoded {
        Ok(text) => Ok(text@),
        Err(e) => Err(e),
    }
}

/// Looks up the glyph of a code unit.
pub fn decode_glyph(code: u16) -> (found: Decoded<char>)
    ensures
        found == glyph(code),
{
    let index: u16 = (code & 0xF) | ((code >> 1) & 0xF0);
    assert(index < 0x100) by (bit_vector)
        requires
            index == (code & 0xF) | ((code >> 1) & 0xF0),
    ;
    if (index as usize) < GLYPH_COUNT {
        Ok(GLYPHS[index as usize])
    } else {
        Err(DecodeError::GlyphIndexOutOfRange)
    }
}

/// Decodes `units` code units that start at `offset`.
pub fn decode_text(sram: &[u8], offset: usize, units: usize) -> (decoded: Decoded<String>)
    ensures
        text_of(decoded) == text_at(sram@, offset as int, units as nat),
{
    let mut text = String::new();
    let mut pos: usize = offset;
    let mut done: usize = 0;
    while done < units
        invariant
            done <= units,
            pos == offset + 2 * done,
            text_at(sram@, offset as int, done as nat) == Decoded::<Seq<char>>::Ok(text@),
        decreases units - done,
    {
        let code = match read_u16_le(sram, pos) {
            Ok(code) => code,
            Err(e) => {
                proof {
                    lemma_collect_stops(
                        glyphs_from(sram@, offset as int),
                        (done + 1) as nat,
                        units as nat,
                    );
                }
                return Err(e);
            },
        };
        let c = match decode_glyph(code) {
            Ok(c) => c,
            Err(e) => {
                proof {
                    lemma_collect_stops(
                        glyphs_from(sram@, offset as int),
                        (done + 1) as nat,
                        units as nat,
                    );
                }
                return Err(e);
            },
        };
        text.push(c);
        assert(sram@.len() == sram.len());
        pos = pos + 2;
        done = done + 1;
    }
    Ok(text)
}

/// Decodes the file name.
pub fn decode_file_name(sram: &[u8]) -> (decoded: Decoded<String>)
    ensures
        text_of(decoded) == file_name(sram@),
{
    let mut name = match decode_text(sram, NAME_HEAD.0, NAME_HEAD.1) {
        Ok(head) => head,
        Err(e) => {
            return Err(e);
        },
    };
    let tail = match decode_text(sram, NAME_TAIL.0, NAME_TAIL.1) {
        Ok(tail) => tail,
        Err(e) => {
            return Err(e);
        },
    };
    name.append(tail.as_str());
    Ok(name)
}

/// The code unit that stands `i` units after `offset`.
pub open spec fn unit_at(sram: Seq<u8>, offset: int, i: int) -> u16 {
    le16(sram, offset + 2 * i) as u16
}

/// Each of the `units` code units from `offset` on selects a glyph.
pub open spec fn glyphs_known(sram: Seq<u8>, offset: int, units: nat) -> bool {
    forall|i: int|
        0 <= i < units ==> glyph_index(#[trigger] unit_at(sram, offset, i)) < GLYPH_COUNT
}

/// Text that lies inside the buffer decodes exactly when each of its code
/// units selects a glyph, and can fail with no other error than
/// `GlyphIndexOutOfRange`.
pub proof fn lemma_text_inside(sram: Seq<u8>, offset: int, units: nat)
    requires
        0 <= offset,
        offset + 2 * units <= sram.len(),
    ensures
        text_at(sram, offset, units) is Ok <==> glyphs_known(sram, offset, units),
        text_at(sram, offset, units) matches Err(e) ==> e == DecodeError::GlyphIndexOutOfRange,
{
    let items = glyphs_from(sram, offset);
    lemma_collect_all(items, units);
    assert forall|i: int| 0 <= i < units implies (#[trigger] items(i)) == glyph(
        unit_at(sram, offset, i),
    ) by {}
    if text_at(sram, offset, units) is Ok {
        assert forall|i: int| 0 <= i < units implies glyph_index(
            #[trigger] unit_at(sram, offset, i),
        ) < GLYPH_COUNT by {
            assert(items(i) is Ok);
        }
    } else {
        lemma_collect_error(items, units);
    }
    if glyphs_known(sram, offset, units) {
        assert forall|i: int| 0 <= i < units implies (#[trigger] items(i)) is Ok by {}
    }
}

/// Text depends on nothing but the bytes of its code units: two buffers of
/// one length that agree on them hold the same text there, or fail there
/// with the same error.
pub proof fn text_depends_on_its_bytes(left: Seq<u8>, right: Seq<u8>, offset: int, units: nat)
    requires
        left.len() == right.len(),
        forall|at: int|
            offset <= at < offset + 2 * units && 0 <= at < left.len() ==> left[at] == right[at],
    ensures
        text_at(left, offset, units) == text_at(right, offset, units),
{
    assert forall|i: int| 0 <= i < units implies #[trigger] glyphs_from(left, offset)(i)
        == glyphs_from(right, offset)(i) by {}
    lemma_collect_agrees(glyphs_from(left, offset), glyphs_from(right, offset), units);
}

/// Each code unit of the file name selects a glyph.
pub open spec fn name_is_known(sram: Seq<u8>) -> bool {
    glyphs_known(sram, NAME_HEAD.0 as int, NAME_HEAD.1 as nat) && glyphs_known(
        sram,
        NAME_TAIL.0 as int,
        NAME_TAIL.1 as nat,
    )
}

/// Where the buffer holds both parts of the file name, the name decodes
/// exactly when each of its code units selects a glyph, and can fail with
/// no other error than `GlyphIndexOutOfRange`.
pub proof fn lemma_file_name_inside(sram: Seq<u8>)
    requires
        sram.len() >= NAME_TAIL.0 + 2 * NAME_TAIL.1,
    ensures
        file_name(sram) is Ok <==> name_is_known(sram),
        file_name(sram) matches Err(e) ==> e == DecodeError::GlyphIndexOutOfRange,
{
    lemma_text_inside(sram, NAME_HEAD.0 as int, NAME_HEAD.1 as nat);
    lemma_text_inside(sram, NAME_TAIL.0 as int, NAME_TAIL.1 as nat);
}

} // verus!
