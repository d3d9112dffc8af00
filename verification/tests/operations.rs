//! The printer operations: the exact frame each one emits, and the
//! validation each one performs before any byte is handed out.
use thermal::BarcodeError;
use thermal::DeviceInfo;
use thermal::EndpointDirection;
use thermal::EndpointInfo;
use thermal::Justification;
use thermal::PaperType;
use thermal::Printer;
use thermal::SlipSide;
use thermal::TextError;
use thermal::TransferKind;

fn connected_printer() -> Printer {
    let devices = vec![DeviceInfo {
        vendor_id: 0x1A86,
        product_id: 0x7584,
        endpoints: vec![EndpointInfo {
            transfer_kind: TransferKind::Bulk,
            direction: EndpointDirection::Out,
            number: 2,
        }],
    }];
    Printer::builder(0x1A86, 0x7584)
        .connect(&devices)
        .unwrap()
        .unwrap()
}

#[test]
fn init_emits_esc_at() {
    let p = connected_printer();
    assert_eq!(p.init(), vec![0x1B, 0x40]);
}

#[test]
fn cut_emits_a_full_cut() {
    let p = connected_printer();
    assert_eq!(p.cut(), vec![0x1D, 0x56, 0x41, 0x96]);
}

#[test]
fn justify_emits_the_layout_code() {
    let p = connected_printer();
    assert_eq!(p.justify(Justification::Center), vec![0x1B, 0x61, 0x01]);
    assert_eq!(p.justify(Justification::Left), vec![0x1B, 0x61, 0x00]);
    assert_eq!(p.justify(Justification::Right), vec![0x1B, 0x61, 0x02]);
}

#[test]
fn paper_type_emits_the_sheet_flags() {
    let p = connected_printer();
    assert_eq!(p.paper_type(PaperType::Roll), vec![0x1B, 0x63, 0x30, 0x03]);
    assert_eq!(p.paper_type(PaperType::Slip), vec![0x1B, 0x63, 0x30, 0x04]);
    assert_eq!(
        p.paper_type(PaperType::Validation),
        vec![0x1B, 0x63, 0x30, 0x08]
    );
}

#[test]
fn slip_side_emits_function_48() {
    let p = connected_printer();
    assert_eq!(
        p.slip_side(SlipSide::Face),
        vec![0x1D, 0x28, 0x47, 0x02, 0x00, 0x30, 0x04]
    );
    assert_eq!(
        p.slip_side(SlipSide::Back),
        vec![0x1D, 0x28, 0x47, 0x02, 0x00, 0x30, 0x44]
    );
}

#[test]
fn carriage_reset_encodes_the_buffer_choice() {
    let p = connected_printer();
    assert_eq!(p.carriage_reset(true), vec![0x1D, 0x54, 0x00]);
    assert_eq!(p.carriage_reset(false), vec![0x1D, 0x54, 0x01]);
}

#[test]
fn mode_switches_emit_their_frames() {
    let p = connected_printer();
    assert_eq!(p.standard_mode(), vec![0x1B, 0x53]);
    assert_eq!(p.page_mode(), vec![0x1B, 0x4C]);
    assert_eq!(p.double_density_page_mode(), vec![0x1C, 0x4C]);
    assert_eq!(p.form_feed(), vec![0x0C]);
}

#[test]
fn print_emits_the_encoded_text() {
    let p = connected_printer();
    assert_eq!(p.print("Hi").unwrap(), vec![0x48, 0x69]);
    assert_eq!(p.print("\u{00E9}").unwrap(), vec![0x82]);
}

#[test]
fn println_appends_a_line_feed() {
    let p = connected_printer();
    assert_eq!(p.println("Hi").unwrap(), vec![0x48, 0x69, 0x0A]);
}

#[test]
fn print_rejects_unmappable_text_before_emitting_anything() {
    let p = connected_printer();
    let err = p.print("ok \u{20AC}").unwrap_err();
    assert_eq!(
        err,
        TextError::Cp437 {
            character: '\u{20AC}',
            position: 3
        }
    );
}

#[test]
fn barcode_accepts_eleven_digits() {
    let p = connected_printer();
    let frame = p.barcode_upc_a(b"12345678901").unwrap();
    let mut expected = vec![0x1D, 0x48, 0x02, 0x1D, 0x6B, 0x41, 11];
    expected.extend_from_slice(b"12345678901");
    assert_eq!(frame, expected);
}

#[test]
fn barcode_accepts_twelve_digits() {
    let p = connected_printer();
    let frame = p.barcode_upc_a(b"036000291452").unwrap();
    let mut expected = vec![0x1D, 0x48, 0x02, 0x1D, 0x6B, 0x41, 12];
    expected.extend_from_slice(b"036000291452");
    assert_eq!(frame, expected);
}

#[test]
fn barcode_rejects_ten_digits() {
    let p = connected_printer();
    let err = p.barcode_upc_a(b"1234567890").unwrap_err();
    assert_eq!(
        err,
        BarcodeError::InvalidSize {
            expected_min: 11,
            expected_max: 12,
            provided: 10
        }
    );
}

#[test]
fn barcode_rejects_thirteen_digits() {
    let p = connected_printer();
    let err = p.barcode_upc_a(b"1234567890123").unwrap_err();
    assert_eq!(
        err,
        BarcodeError::InvalidSize {
            expected_min: 11,
            expected_max: 12,
            provided: 13
        }
    );
}

#[test]
fn barcode_reports_the_first_byte_that_is_no_digit() {
    let p = connected_printer();
    let err = p.barcode_upc_a(b"1234567890A").unwrap_err();
    assert_eq!(
        err,
        BarcodeError::InvalidChar {
            range_start: b'0',
            range_end: b'9',
            position: 10
        }
    );
}

#[test]
fn barcode_checks_the_length_before_the_bytes() {
    let p = connected_printer();
    // Bad length and bad bytes at once: the size error wins.
    let err = p.barcode_upc_a(b"ABC").unwrap_err();
    assert_eq!(
        err,
        BarcodeError::InvalidSize {
            expected_min: 11,
            expected_max: 12,
            provided: 3
        }
    );
}
