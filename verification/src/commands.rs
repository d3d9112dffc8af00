//! The printer operations' wire format: the enumerated command parameters,
//! the code each parameter stands for on the wire, and the exact byte
//! sequence each operation emits.
use vstd::prelude::*;

verus! {

/// Text justification.
#[derive(Clone, Copy, Debug, PartialEq, Eq, Structural)]
pub enum Justification {
    Left,
    Center,
    Right,
}

/// The type of paper to print to.
#[derive(Clone, Copy, Debug, PartialEq, Eq, Structural)]
pub enum PaperType {
    Roll,
    Slip,
    Validation,
}

/// The side of the slip paper to print to.
#[derive(Clone, Copy, Debug, PartialEq, Eq, Structural)]
pub enum SlipSide {
    Face,
    Back,
}

/// Wire code of a justification: 0x00, 0x01, 0x02.
pub open spec fn justification_code(j: Justification) -> u8 {
    match j {
        Justification::Left => 0x00,
        Justification::Center => 0x01,
        Justification::Right => 0x02,
    }
}

/// Wire code of a paper type: the bit flags 0b0011, 0b0100, 0b1000.
pub open spec fn paper_type_code(p: PaperType) -> u8 {
    match p {
        PaperType::Roll => 0x03,
        PaperType::Slip => 0x04,
        PaperType::Validation => 0x08,
    }
}

/// Wire code of a slip side: 0x04, 0x44.
pub open spec fn slip_side_code(s: SlipSide) -> u8 {
    match s {
        SlipSide::Face => 0x04,
        SlipSide::Back => 0x44,
    }
}

/// Initialize printer: ESC @.
pub open spec fn init_frame() -> Seq<u8> {
    seq![0x1Bu8, 0x40u8]
}

/// Feed and full-cut the paper: GS V 65 0x96.
pub open spec fn cut_frame() -> Seq<u8> {
    seq![0x1Du8, 0x56u8, 0x41u8, 0x96u8]
}

/// Select justification: ESC a n.
pub open spec fn justify_frame(j: Justification) -> Seq<u8> {
    seq![0x1Bu8, 0x61u8, justification_code(j)]
}

/// Select the active sheet: ESC c 0 n.
pub open spec fn paper_type_frame(p: PaperType) -> Seq<u8> {
    seq![0x1Bu8, 0x63u8, 0x30u8, paper_type_code(p)]
}

/// Select the slip side: GS ( G pL pH fn m, function 48.
pub open spec fn slip_side_frame(s: SlipSide) -> Seq<u8> {
    seq![0x1Du8, 0x28u8, 0x47u8, 0x02u8, 0x00u8, 0x30u8, slip_side_code(s)]
}

/// Move the print position to the beginning of the line: GS T n, with n = 0
/// to cancel the print buffer first and n = 1 to print it first.
pub open spec fn carriage_reset_frame(cancel_print_buffer: bool) -> Seq<u8> {
    seq![0x1Du8, 0x54u8, if cancel_print_buffer { 0x00u8 } else { 0x01u8 }]
}

/// Select standard mode: ESC S.
pub open spec fn standard_mode_frame() -> Seq<u8> {
    seq![0x1Bu8, 0x53u8]
}

/// Select page mode: ESC L.
pub open spec fn page_mode_frame() -> Seq<u8> {
    seq![0x1Bu8, 0x4Cu8]
}

/// Select double-density page mode: FS L.
pub open spec fn double_density_page_mode_frame() -> Seq<u8> {
    seq![0x1Cu8, 0x4Cu8]
}

/// Print and eject a cut sheet in standard mode: FF.
pub open spec fn form_feed_frame() -> Seq<u8> {
    seq![0x0Cu8]
}

/// An ASCII decimal digit, the only bytes a UPC-A payload may hold.
pub open spec fn is_upc_digit(b: u8) -> bool {
    0x30 <= b <= 0x39
}

/// A UPC-A payload is 11 or 12 digits long.
pub open spec fn upc_a_length_ok(n: int) -> bool {
    11 <= n <= 12
}

/// Every byte of the payload is an ASCII digit.
pub open spec fn all_upc_digits(data: Seq<u8>) -> bool {
    forall|i: int| 0 <= i < data.len() ==> is_upc_digit(data[i])
}

/// Index of the first payload byte that is not an ASCII digit; the length
/// when every byte is one.
pub open spec fn first_non_digit(data: Seq<u8>) -> int
    decreases data.len(),
{
    if data.len() == 0 {
        0
    } else if !is_upc_digit(data[0]) {
        0
    } else {
        1 + first_non_digit(data.drop_first())
    }
}

/// `first_non_digit` names exactly the index whose byte is no digit while
/// every earlier byte is one.
pub proof fn lemma_first_non_digit_is(data: Seq<u8>, i: int)
    requires
        0 <= i < data.len(),
        !is_upc_digit(data[i]),
        forall|j: int| 0 <= j < i ==> is_upc_digit(data[j]),
    ensures
        first_non_digit(data) == i,
    decreases i,
{
    if i > 0 {
        lemma_first_non_digit_is(data.drop_first(), i - 1);
    }
}

/// Print a UPC-A barcode with its digits below the bars: GS H 2 selecting
/// the HRI position, then GS k 65 n followed by the digit bytes.
pub open spec fn barcode_upc_a_frame(data: Seq<u8>) -> Seq<u8>
    recommends
        upc_a_length_ok(data.len() as int),
{
    seq![0x1Du8, 0x48u8, 0x02u8, 0x1Du8, 0x6Bu8, 0x41u8, data.len() as u8] + data
}

} // verus!
