//! Text encoding: success over representable text, failure at the first
//! character outside the set, and the reported byte offset.
use thermal::PrinterChar;
use thermal::PrinterString;
use thermal::TextEncoder;
use thermal::TextError;

#[test]
fn encodes_ascii_text() {
    let p = TextEncoder::encode("Hello!").unwrap();
    assert_eq!(p.bytes(), vec![0x48, 0x65, 0x6C, 0x6C, 0x6F, 0x21]);
}

#[test]
fn encodes_extended_characters() {
    let p = TextEncoder::encode("\u{00E9}").unwrap();
    assert_eq!(p.bytes(), vec![0x82]);
}

#[test]
fn rejects_characters_outside_the_set() {
    let err = TextEncoder::encode("\u{20AC}").unwrap_err();
    assert_eq!(err, TextError::Cp437 { character: '\u{20AC}', position: 0 });
}

#[test]
fn reports_the_byte_offset_of_the_first_failure() {
    // 'a' occupies one byte and the e-acute two, so the euro sign that
    // cannot be encoded starts at byte offset 3 of the text.
    let err = TextEncoder::encode("a\u{00E9}\u{20AC}x").unwrap_err();
    assert_eq!(err, TextError::Cp437 { character: '\u{20AC}', position: 3 });
}

#[test]
fn reports_only_the_first_failure() {
    let err = TextEncoder::encode("ab\u{0100}\u{20AC}").unwrap_err();
    assert_eq!(err, TextError::Cp437 { character: '\u{0100}', position: 2 });
}

#[test]
fn encodes_the_empty_text() {
    let p = TextEncoder::encode("").unwrap();
    assert_eq!(p.bytes(), Vec::<u8>::new());
}

#[test]
fn printer_string_round_trips_through_text() {
    let p = PrinterString::from_str("Caf\u{00E9} \u{2502}").unwrap();
    assert_eq!(p.bytes(), vec![0x43, 0x61, 0x66, 0x82, 0x20, 0xB3]);
    assert_eq!(p.to_string(), "Caf\u{00E9} \u{2502}");
}

#[test]
fn from_str_rejects_unmappable_text() {
    assert!(PrinterString::from_str("\u{0100}").is_none());
}

#[test]
fn printer_char_round_trips() {
    let pc = PrinterChar::from_char('\u{00E9}').unwrap();
    assert_eq!(pc.to_char(), '\u{00E9}');
    assert!(PrinterChar::from_char('\u{20AC}').is_none());
}
