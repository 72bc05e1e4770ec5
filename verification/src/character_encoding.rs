//! The character table of the western releases.
//!
//! Text in a save image is stored one byte per character in the game's own
//! code page.  The table is total: codes that stand for control sequences,
//! multi-letter glyphs or nothing at all map to [`PLACEHOLDER`].

use vstd::prelude::*;

verus! {

/// Character produced for every code without a printable glyph.
pub const PLACEHOLDER: char = '\u{FFFD}';

/// Code of the first upper-case letter; the alphabet follows in order.
pub const UPPERCASE_BASE: u8 = 0xBB;

/// Code of the first lower-case letter; the alphabet follows in order.
pub const LOWERCASE_BASE: u8 = 0xD5;

/// Code of the digit zero; the other digits follow in order.
pub const DIGIT_BASE: u8 = 0xA1;

/// Display character of each of the 256 character codes.
pub const CHAR_ENCODING_US: [char; 256] = [
    // 0x00
    ' ', '\u{C0}', '\u{C1}', '\u{C2}', '\u{C7}', '\u{C8}', '\u{C9}', '\u{CA}',
    '\u{CB}', '\u{CC}', PLACEHOLDER, '\u{CE}', '\u{CF}', '\u{D2}', '\u{D3}', '\u{D4}',
    // 0x10
    '\u{152}', '\u{D9}', '\u{DA}', '\u{DB}', '\u{D1}', '\u{DF}', '\u{E0}', '\u{E1}',
    PLACEHOLDER, '\u{E7}', '\u{E8}', '\u{E9}', '\u{EA}', '\u{EB}', '\u{EC}', PLACEHOLDER,
    // 0x20
    '\u{EE}', '\u{EF}', '\u{F2}', '\u{F3}', '\u{F4}', '\u{153}', '\u{F9}', '\u{FA}',
    '\u{FB}', '\u{F1}', '\u{BA}', '\u{AA}', PLACEHOLDER, '&', '+', PLACEHOLDER,
    // 0x30
    PLACEHOLDER, PLACEHOLDER, PLACEHOLDER, PLACEHOLDER, PLACEHOLDER, '=', ';', PLACEHOLDER,
    PLACEHOLDER, PLACEHOLDER, PLACEHOLDER, PLACEHOLDER, PLACEHOLDER, PLACEHOLDER, PLACEHOLDER, PLACEHOLDER,
    // 0x40
    PLACEHOLDER, PLACEHOLDER, PLACEHOLDER, PLACEHOLDER, PLACEHOLDER, PLACEHOLDER, PLACEHOLDER, PLACEHOLDER,
    PLACEHOLDER, PLACEHOLDER, PLACEHOLDER, PLACEHOLDER, PLACEHOLDER, PLACEHOLDER, PLACEHOLDER, PLACEHOLDER,
    // 0x50
    PLACEHOLDER, '\u{BF}', '\u{A1}', PLACEHOLDER, PLACEHOLDER, PLACEHOLDER, PLACEHOLDER, PLACEHOLDER,
    PLACEHOLDER, PLACEHOLDER, '\u{CD}', '%', '(', ')', PLACEHOLDER, PLACEHOLDER,
    // 0x60
    PLACEHOLDER, PLACEHOLDER, PLACEHOLDER, PLACEHOLDER, PLACEHOLDER, PLACEHOLDER, PLACEHOLDER, PLACEHOLDER,
    '\u{E2}', PLACEHOLDER, PLACEHOLDER, PLACEHOLDER, PLACEHOLDER, PLACEHOLDER, PLACEHOLDER, '\u{ED}',
    // 0x70
    PLACEHOLDER, PLACEHOLDER, PLACEHOLDER, PLACEHOLDER, PLACEHOLDER, PLACEHOLDER, PLACEHOLDER, PLACEHOLDER,
    PLACEHOLDER, '\u{2191}', '\u{2193}', '\u{2190}', '\u{2192}', PLACEHOLDER, PLACEHOLDER, PLACEHOLDER,
    // 0x80
    PLACEHOLDER, PLACEHOLDER, PLACEHOLDER, PLACEHOLDER, PLACEHOLDER, '<', '>', PLACEHOLDER,
    PLACEHOLDER, PLACEHOLDER, PLACEHOLDER, PLACEHOLDER, PLACEHOLDER, PLACEHOLDER, PLACEHOLDER, PLACEHOLDER,
    // 0x90
    PLACEHOLDER, PLACEHOLDER, PLACEHOLDER, PLACEHOLDER, PLACEHOLDER, PLACEHOLDER, PLACEHOLDER, PLACEHOLDER,
    PLACEHOLDER, PLACEHOLDER, PLACEHOLDER, PLACEHOLDER, PLACEHOLDER, PLACEHOLDER, PLACEHOLDER, PLACEHOLDER,
    // 0xA0
    PLACEHOLDER, '0', '1', '2', '3', '4', '5', '6',
    '7', '8', '9', '!', '?', '.', '-', '\u{B7}',
    // 0xB0
    '\u{2026}', '\u{201C}', '\u{201D}', '\u{2018}', '\u{2019}', '\u{2642}', '\u{2640}', '$',
    ',', '\u{D7}', '/', 'A', 'B', 'C', 'D', 'E',
    // 0xC0
    'F', 'G', 'H', 'I', 'J', 'K', 'L', 'M',
    'N', 'O', 'P', 'Q', 'R', 'S', 'T', 'U',
    // 0xD0
    'V', 'W', 'X', 'Y', 'Z', 'a', 'b', 'c',
    'd', 'e', 'f', 'g', 'h', 'i', 'j', 'k',
    // 0xE0
    'l', 'm', 'n', 'o', 'p', 'q', 'r', 's',
    't', 'u', 'v', 'w', 'x', 'y', 'z', '\u{25B6}',
    // 0xF0
    ':', '\u{C4}', '\u{D6}', '\u{DC}', '\u{E4}', '\u{F6}', '\u{FC}', PLACEHOLDER,
    PLACEHOLDER, PLACEHOLDER, PLACEHOLDER, PLACEHOLDER, PLACEHOLDER, PLACEHOLDER, PLACEHOLDER, PLACEHOLDER,
];

/// The character that a code stands for.
pub open spec fn spec_decode_char(code: u8) -> char {
    CHAR_ENCODING_US[code as int]
}

/// The text that a run of codes stands for, one character per code.
pub open spec fn spec_decode_text(codes: Seq<u8>) -> Seq<char> {
    Seq::new(codes.len(), |i: int| spec_decode_char(codes[i]))
}

/// Looks up the display character of a code.  Every code has one.
#[verifier::when_used_as_spec(spec_decode_char)]
pub fn decode_char(code: u8) -> (c: char)
    ensures
        c == spec_decode_char(code),
{
    CHAR_ENCODING_US[code as usize]
}

/// Letters and digits sit in the table in their usual order: the upper-case
/// alphabet from [`UPPERCASE_BASE`], the lower-case alphabet from
/// [`LOWERCASE_BASE`] and the ten digits from [`DIGIT_BASE`].
pub proof fn lemma_letters_and_digits(code: u8)
    ensures
        UPPERCASE_BASE <= code < UPPERCASE_BASE + 26 ==> spec_decode_char(code) as int == 'A' as int
            + (code - UPPERCASE_BASE),
        LOWERCASE_BASE <= code < LOWERCASE_BASE + 26 ==> spec_decode_char(code) as int == 'a' as int
            + (code - LOWERCASE_BASE),
        DIGIT_BASE <= code < DIGIT_BASE + 10 ==> spec_decode_char(code) as int == '0' as int + (code
            - DIGIT_BASE),
{
}

/// `String::push` of the standard library appends the character to the end
/// of the string and leaves the characters before it as they were.
pub assume_specification[ String::push ](s: &mut String, ch: char)
    ensures
        final(s)@ == old(s)@.push(ch),
;

/// Decodes a run of codes into text, one character per code.
pub fn decode_text(codes: &[u8]) -> (text: String)
    ensures
        text@ == spec_decode_text(codes@),
{
    let mut text = String::new();
    let mut i: usize = 0;
    while i < codes.len()
        invariant
            i <= codes@.len(),
            text@ == spec_decode_text(codes@.subrange(0, i as int)),
        decreases codes@.len() - i,
    {
        text.push(decode_char(codes[i]));
        i += 1;
    }
    text
}

} // verus!
