//! Command and encoding layer for an ESC/POS receipt printer reached over USB
//! bulk transfer.
//!
//! The crate covers the protocol work that must be byte-exact: translating
//! text into the printer's single-byte character set, validating inputs such
//! as barcode payloads before anything is sent, building the command frames
//! for each printer operation, and picking the device and bulk-OUT endpoint
//! out of an enumerated device list.  The USB transport itself (enumeration,
//! claiming the interface, the bulk write) is left to the caller, which hands
//! in plain descriptor data and writes the returned frames.

pub mod codepage;
pub mod commands;
pub mod encoding;
pub mod error;
pub mod locator;
pub mod printer;

pub use codepage::char_from_code;
pub use codepage::code_from_char;
pub use commands::Justification;
pub use commands::PaperType;
pub use commands::SlipSide;
pub use error::BarcodeError;
pub use error::ConnectionError;
pub use error::PrinterError;
pub use error::TextError;
pub use encoding::PrinterChar;
pub use encoding::PrinterString;
pub use encoding::TextEncoder;
pub use locator::DeviceInfo;
pub use locator::EndpointDirection;
pub use locator::EndpointInfo;
pub use locator::TransferKind;
pub use printer::Printer;
pub use printer::PrinterBuilder;
