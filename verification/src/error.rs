//! Error taxonomy of the printer library.
//!
//! Validation failures carry plain data naming exactly what was wrong and
//! where; transport failures are reported by the caller that performs the
//! USB work and carry no further detail here.
use vstd::prelude::*;

verus! {

/// Failure while locating the printer or claiming its interface.
#[derive(Clone, Copy, Debug, PartialEq, Eq, Structural)]
pub enum ConnectionError {
    /// Transport failure during enumeration, open, or claim; constructed by
    /// the caller that performs the USB work.
    USB,
    /// A device matched the requested identifiers but its active
    /// configuration exposes no bulk-OUT endpoint.
    NoBulkEndpoint,
}

/// Failure while writing a command frame to the printer.
#[derive(Clone, Copy, Debug, PartialEq, Eq, Structural)]
pub enum PrinterError {
    /// The bulk write failed or timed out; constructed by the caller that
    /// performs the USB work.
    USB,
}

/// Failure while printing text.
#[derive(Clone, Copy, Debug, PartialEq, Eq, Structural)]
pub enum TextError {
    /// The write of an already encoded text failed.
    Printer(PrinterError),
    /// The text holds a character with no code in the printer's character
    /// set: the first such character, and its byte offset in the text.
    Cp437 { character: char, position: usize },
}

/// Failure while printing a barcode.
#[derive(Clone, Copy, Debug, PartialEq, Eq, Structural)]
pub enum BarcodeError {
    /// The write of an already validated barcode failed.
    Printer(PrinterError),
    /// A payload byte outside the accepted range: the position of the first
    /// such byte, and the inclusive range the payload must stay in.
    InvalidChar { range_start: u8, range_end: u8, position: usize },
    /// A payload of the wrong length: the inclusive length range expected,
    /// and the length provided.
    InvalidSize { expected_min: usize, expected_max: usize, provided: usize },
}

} // verus!
