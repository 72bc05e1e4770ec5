use gen3_save::character_encoding::{decode_char, decode_text, CHAR_ENCODING_US, PLACEHOLDER};

#[test]
fn every_code_has_a_character() {
    for code in 0..=255u8 {
        let c = decode_char(code);
        assert_eq!(c, CHAR_ENCODING_US[code as usize]);
        assert_eq!(c, decode_char(code));
    }
}

#[test]
fn letters_follow_in_order() {
    for (i, letter) in ('A'..='Z').enumerate() {
        assert_eq!(decode_char(0xBB + i as u8), letter);
    }
    for (i, letter) in ('a'..='z').enumerate() {
        assert_eq!(decode_char(0xD5 + i as u8), letter);
    }
}

#[test]
fn digits_follow_in_order() {
    for (i, digit) in ('0'..='9').enumerate() {
        assert_eq!(decode_char(0xA1 + i as u8), digit);
    }
}

#[test]
fn punctuation_is_mapped() {
    assert_eq!(decode_char(0x00), ' ');
    assert_eq!(decode_char(0xAB), '!');
    assert_eq!(decode_char(0xAC), '?');
    assert_eq!(decode_char(0xAD), '.');
    assert_eq!(decode_char(0xAE), '-');
    assert_eq!(decode_char(0xB8), ',');
    assert_eq!(decode_char(0xBA), '/');
    assert_eq!(decode_char(0xF0), ':');
    assert_eq!(decode_char(0xB5), '\u{2642}');
    assert_eq!(decode_char(0xB6), '\u{2640}');
    assert_eq!(decode_char(0x1B), '\u{E9}');
}

#[test]
fn codes_without_a_glyph_give_the_placeholder() {
    assert_eq!(PLACEHOLDER, '\u{FFFD}');
    for code in [0x0Au8, 0x18, 0x40, 0x90, 0xF7, 0xFA, 0xFE, 0xFF] {
        assert_eq!(decode_char(code), PLACEHOLDER);
    }
}

#[test]
fn text_is_decoded_code_by_code() {
    assert_eq!(decode_text(&[]), "");
    assert_eq!(decode_text(&[0xCC, 0xBF, 0xBE]), "RED");
    assert_eq!(decode_text(&[0xC1, 0xCC, 0xBF, 0xBF, 0xC8]), "GREEN");
    assert_eq!(decode_text(&[0xBB, 0xE7, 0xDC, 0x00, 0xA2, 0xAB]), "Ash 1!");
    assert_eq!(decode_text(&[0xCC, 0xFF, 0x00]), "R\u{FFFD} ");
}

#[test]
fn text_has_one_character_per_code() {
    let codes: Vec<u8> = (0..=255u8).collect();
    let text = decode_text(&codes);
    assert_eq!(text.chars().count(), 256);
    for (code, c) in codes.iter().zip(text.chars()) {
        assert_eq!(c, decode_char(*code));
    }
}
