//! The character set: ASCII passthrough, the extended table, and the
//! round-trip property over all 256 codes, cross-checked against the
//! reference cp437 dialect.
use codepage_437::CP437_CONTROL;
use thermal::char_from_code;
use thermal::code_from_char;

#[test]
fn every_code_survives_a_round_trip() {
    for code in 0..=255u8 {
        let c = char_from_code(code);
        assert_eq!(code_from_char(c), Some(code));
    }
}

#[test]
fn ascii_codes_decode_to_themselves() {
    for code in 0..=0x7Fu8 {
        assert_eq!(char_from_code(code), code as char);
    }
}

#[test]
fn extended_codes_decode_to_their_assigned_characters() {
    assert_eq!(char_from_code(0x80), '\u{00C7}');
    assert_eq!(char_from_code(0x82), '\u{00E9}');
    assert_eq!(char_from_code(0x9C), '\u{00A3}');
    assert_eq!(char_from_code(0xB3), '\u{2502}');
    assert_eq!(char_from_code(0xE1), '\u{00DF}');
    assert_eq!(char_from_code(0xFE), '\u{25A0}');
    assert_eq!(char_from_code(0xFF), '\u{00A0}');
}

#[test]
fn assigned_characters_encode_to_their_codes() {
    assert_eq!(code_from_char('A'), Some(0x41));
    assert_eq!(code_from_char('\u{0000}'), Some(0x00));
    assert_eq!(code_from_char('\u{00E9}'), Some(0x82));
    assert_eq!(code_from_char('\u{00A3}'), Some(0x9C));
    assert_eq!(code_from_char('\u{00A0}'), Some(0xFF));
}

#[test]
fn characters_outside_the_set_have_no_code() {
    assert_eq!(code_from_char('\u{20AC}'), None);
    assert_eq!(code_from_char('\u{0100}'), None);
    assert_eq!(code_from_char('\u{4E2D}'), None);
    assert_eq!(code_from_char('\u{1F600}'), None);
}

#[test]
fn decoding_matches_the_reference_dialect() {
    for code in 0..=255u8 {
        assert_eq!(char_from_code(code), CP437_CONTROL.decode(code));
    }
}

#[test]
fn encoding_assigned_characters_matches_the_reference_dialect() {
    for code in 0..=255u8 {
        let c = CP437_CONTROL.decode(code);
        assert_eq!(code_from_char(c), CP437_CONTROL.encode(c));
    }
}
