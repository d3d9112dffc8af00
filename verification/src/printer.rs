//! The printer handle and its operations.
//!
//! [`PrinterBuilder::connect`] picks the first enumerated device carrying
//! the requested identifiers and resolves its bulk-OUT endpoint.  Each
//! operation of [`Printer`] validates its input and returns the exact byte
//! frame to transmit over that endpoint; the caller that owns the USB handle
//! performs the bulk write.  Validation always happens before a frame is
//! handed out, so an operation either yields its full frame or a typed
//! error and no bytes at all.
use vstd::prelude::*;

use crate::commands::all_upc_digits;
use crate::commands::barcode_upc_a_frame;
use crate::commands::carriage_reset_frame;
use crate::commands::cut_frame;
use crate::commands::double_density_page_mode_frame;
use crate::commands::first_non_digit;
use crate::commands::form_feed_frame;
use crate::commands::init_frame;
use crate::commands::is_upc_digit;
use crate::commands::justify_frame;
use crate::commands::lemma_first_non_digit_is;
use crate::commands::page_mode_frame;
use crate::commands::paper_type_frame;
use crate::commands::slip_side_frame;
use crate::commands::standard_mode_frame;
use crate::commands::upc_a_length_ok;
use crate::commands::Justification;
use crate::commands::PaperType;
use crate::commands::SlipSide;
use crate::encoding::encodable;
use crate::encoding::encoded_codes;
use crate::encoding::reports_first_unmappable;
use crate::encoding::TextEncoder;
use crate::error::BarcodeError;
use crate::error::ConnectionError;
use crate::error::TextError;
use crate::locator::device_matches;
use crate::locator::any_device_matches;
use crate::locator::find_bulk_out;
use crate::locator::first_bulk_out;
use crate::locator::first_matching_device;
use crate::locator::has_bulk_out;
use crate::locator::lemma_first_matching_device_is;
use crate::locator::DeviceInfo;

verus! {

/// Configuration for locating a printer: the identifiers to match and the
/// write timeout the connected handle will carry.
#[derive(Clone, Copy, Debug)]
pub struct PrinterBuilder {
    vendor_id: u16,
    product_id: u16,
    timeout_ms: u64,
}

/// A connected printer handle: the index of the selected device within the
/// enumeration it was picked from, the resolved bulk-OUT endpoint number,
/// and the write timeout.  All three are fixed at connection time;
/// reconnecting takes a fresh [`PrinterBuilder::connect`] pass.
#[derive(Debug)]
pub struct Printer {
    device_index: usize,
    endpoint: u8,
    timeout_ms: u64,
}

impl PrinterBuilder {
    /// The vendor identifier the builder will match.
    pub closed spec fn spec_vendor_id(&self) -> u16 {
        self.vendor_id
    }

    /// The product identifier the builder will match.
    pub closed spec fn spec_product_id(&self) -> u16 {
        self.product_id
    }

    /// The write timeout, in milliseconds, a connected handle will carry.
    pub closed spec fn spec_timeout_ms(&self) -> u64 {
        self.timeout_ms
    }

    /// Set the write timeout, in milliseconds.
    pub fn timeout(self, timeout_ms: u64) -> (b: Self)
        ensures
            b.spec_vendor_id() == self.spec_vendor_id(),
            b.spec_product_id() == self.spec_product_id(),
            b.spec_timeout_ms() == timeout_ms,
    {
        PrinterBuilder { vendor_id: self.vendor_id, product_id: self.product_id, timeout_ms }
    }

    /// Finalize the builder and connect to the printer among the enumerated
    /// devices.
    ///
    /// The first device carrying the requested identifiers is selected; a
    /// matching device without a bulk-OUT endpoint is a
    /// [`ConnectionError::NoBulkEndpoint`] failure, while a list with no
    /// matching device at all is the empty result, not an error.
    pub fn connect(&self, devices: &Vec<DeviceInfo>) -> (r: Result<
        Option<Printer>,
        ConnectionError,
    >)
        ensures
            !any_device_matches(devices@, self.spec_vendor_id(), self.spec_product_id()) ==> r
                == Ok::<Option<Printer>, ConnectionError>(None),
            any_device_matches(devices@, self.spec_vendor_id(), self.spec_product_id()) ==> ({
                let d = devices@[first_matching_device(
                    devices@,
                    self.spec_vendor_id(),
                    self.spec_product_id(),
                )];
                &&& !has_bulk_out(d.endpoints@) ==> r == Err::<Option<Printer>, ConnectionError>(
                    ConnectionError::NoBulkEndpoint,
                )
                &&& has_bulk_out(d.endpoints@) ==> (r matches Ok(Some(p))
                    && p.spec_device_index() == first_matching_device(
                    devices@,
                    self.spec_vendor_id(),
                    self.spec_product_id(),
                ) && p.spec_endpoint() == d.endpoints@[first_bulk_out(d.endpoints@)].number
                    && p.spec_timeout_ms() == self.spec_timeout_ms())
            }),
    {
        let mut idx: usize = 0;
        while idx < devices.len()
            invariant
                idx <= devices@.len(),
                forall|j: int|
                    0 <= j < idx ==> !device_matches(
                        devices@[j],
                        self.spec_vendor_id(),
                        self.spec_product_id(),
                    ),
            decreases devices@.len() - idx,
        {
            let d = &devices[idx];
            if d.vendor_id == self.vendor_id && d.product_id == self.product_id {
                proof {
                    lemma_first_matching_device_is(
                        devices@,
                        self.spec_vendor_id(),
                        self.spec_product_id(),
                        idx as int,
                    );
                }
                return match find_bulk_out(&d.endpoints) {
                    Some(endpoint) => Ok(
                        Some(
                            Printer {
                                device_index: idx,
                                endpoint,
                                timeout_ms: self.timeout_ms,
                            },
                        ),
                    ),
                    None => Err(ConnectionError::NoBulkEndpoint),
                };
            }
            idx = idx + 1;
        }
        Ok(None)
    }
}

impl Printer {
    /// Index of the selected device within the enumerated list.
    pub closed spec fn spec_device_index(&self) -> usize {
        self.device_index
    }

    /// Number of the resolved bulk-OUT endpoint.
    pub closed spec fn spec_endpoint(&self) -> u8 {
        self.endpoint
    }

    /// The write timeout, in milliseconds.
    pub closed spec fn spec_timeout_ms(&self) -> u64 {
        self.timeout_ms
    }

    /// Create a printer builder to configure printer settings; the write
    /// timeout starts at ten seconds.
    pub fn builder(vendor_id: u16, product_id: u16) -> (b: PrinterBuilder)
        ensures
            b.spec_vendor_id() == vendor_id,
            b.spec_product_id() == product_id,
            b.spec_timeout_ms() == 10_000,
    {
        PrinterBuilder { vendor_id, product_id, timeout_ms: 10_000 }
    }

    /// Index of the selected device within the enumerated list.
    pub fn device_index(&self) -> (i: usize)
        ensures
            i == self.spec_device_index(),
    {
        self.device_index
    }

    /// Number of the resolved bulk-OUT endpoint.
    pub fn endpoint(&self) -> (e: u8)
        ensures
            e == self.spec_endpoint(),
    {
        self.endpoint
    }

    /// The write timeout, in milliseconds.
    pub fn timeout_ms(&self) -> (t: u64)
        ensures
            t == self.spec_timeout_ms(),
    {
        self.timeout_ms
    }

    /// Print some text: the frame is the encoded text, byte for byte.
    pub fn print(&self, text: &str) -> (r: Result<Vec<u8>, TextError>)
        ensures
            r is Ok <==> encodable(text@),
            r matches Ok(frame) ==> frame@ == encoded_codes(text@),
            r matches Err(e) ==> reports_first_unmappable(text@, e),
    {
        match TextEncoder::encode(text) {
            Ok(p) => Ok(p.bytes()),
            Err(e) => Err(e),
        }
    }

    /// Print some text followed by a line feed.
    pub fn println(&self, text: &str) -> (r: Result<Vec<u8>, TextError>)
        ensures
            r is Ok <==> encodable(text@),
            r matches Ok(frame) ==> frame@ == encoded_codes(text@) + seq![0x0Au8],
            r matches Err(e) ==> reports_first_unmappable(text@, e),
    {
        match TextEncoder::encode(text) {
            Ok(p) => {
                let mut frame = p.bytes();
                frame.push(0x0A);
                proof {
                    assert(frame@ =~= encoded_codes(text@) + seq![0x0Au8]);
                }
                Ok(frame)
            },
            Err(e) => Err(e),
        }
    }

    /// Print and eject a cut sheet in standard mode.
    ///
    /// ASCII: FF
    pub fn form_feed(&self) -> (frame: Vec<u8>)
        ensures
            frame@ == form_feed_frame(),
    {
        let mut v: Vec<u8> = Vec::new();
        v.push(0x0C);
        proof {
            assert(v@ =~= form_feed_frame());
        }
        v
    }

    /// Initialize printer.
    ///
    /// Clears the data in the print buffer and resets the printer modes to
    /// the modes that were in effect when the power was turned on; data held
    /// in non-volatile memory is kept.
    ///
    /// ASCII: ESC @
    pub fn init(&self) -> (frame: Vec<u8>)
        ensures
            frame@ == init_frame(),
    {
        let mut v: Vec<u8> = Vec::new();
        v.push(0x1B);
        v.push(0x40);
        proof {
            assert(v@ =~= init_frame());
        }
        v
    }

    /// Select cut mode and cut paper: feeds to the cutting position and
    /// executes a full cut.
    ///
    /// ASCII: GS V m n
    pub fn cut(&self) -> (frame: Vec<u8>)
        ensures
            frame@ == cut_frame(),
    {
        let mut v: Vec<u8> = Vec::new();
        v.push(0x1D);
        v.push(0x56);
        v.push(0x41);
        v.push(0x96);
        proof {
            assert(v@ =~= cut_frame());
        }
        v
    }

    /// Select justification: in standard mode, aligns all the data in one
    /// line to the selected layout.
    ///
    /// ASCII: ESC a n
    pub fn justify(&self, justification: Justification) -> (frame: Vec<u8>)
        ensures
            frame@ == justify_frame(justification),
    {
        let code: u8 = match justification {
            Justification::Left => 0x00,
            Justification::Center => 0x01,
            Justification::Right => 0x02,
        };
        let mut v: Vec<u8> = Vec::new();
        v.push(0x1B);
        v.push(0x61);
        v.push(code);
        proof {
            assert(v@ =~= justify_frame(justification));
        }
        v
    }

    /// Select paper type(s) for printing: selects the active sheet(s).
    ///
    /// ASCII: ESC c 0 n
    pub fn paper_type(&self, paper_type: PaperType) -> (frame: Vec<u8>)
        ensures
            frame@ == paper_type_frame(paper_type),
    {
        let code: u8 = match paper_type {
            PaperType::Roll => 0x03,
            PaperType::Slip => 0x04,
            PaperType::Validation => 0x08,
        };
        let mut v: Vec<u8> = Vec::new();
        v.push(0x1B);
        v.push(0x63);
        v.push(0x30);
        v.push(code);
        proof {
            assert(v@ =~= paper_type_frame(paper_type));
        }
        v
    }

    /// Select the side of the slip (face or back): selects slip as the
    /// active sheet and the side of the slip to be printed.
    ///
    /// ASCII: GS ( G pL pH fn m, function 48
    pub fn slip_side(&self, slip_side: SlipSide) -> (frame: Vec<u8>)
        ensures
            frame@ == slip_side_frame(slip_side),
    {
        let code: u8 = match slip_side {
            SlipSide::Face => 0x04,
            SlipSide::Back => 0x44,
        };
        let mut v: Vec<u8> = Vec::new();
        v.push(0x1D);
        v.push(0x28);
        v.push(0x47);
        v.push(0x02);
        v.push(0x00);
        v.push(0x30);
        v.push(code);
        proof {
            assert(v@ =~= slip_side_frame(slip_side));
        }
        v
    }

    /// Set the print position to the beginning of the print line, either
    /// cancelling the print buffer or printing it first.
    ///
    /// ASCII: GS T n
    pub fn carriage_reset(&self, cancel_print_buffer: bool) -> (frame: Vec<u8>)
        ensures
            frame@ == carriage_reset_frame(cancel_print_buffer),
    {
        let code: u8 = if cancel_print_buffer {
            0x00
        } else {
            0x01
        };
        let mut v: Vec<u8> = Vec::new();
        v.push(0x1D);
        v.push(0x54);
        v.push(code);
        proof {
            assert(v@ =~= carriage_reset_frame(cancel_print_buffer));
        }
        v
    }

    /// Select standard mode: switches from page mode or double-density page
    /// mode to standard mode.
    ///
    /// ASCII: ESC S
    pub fn standard_mode(&self) -> (frame: Vec<u8>)
        ensures
            frame@ == standard_mode_frame(),
    {
        let mut v: Vec<u8> = Vec::new();
        v.push(0x1B);
        v.push(0x53);
        proof {
            assert(v@ =~= standard_mode_frame());
        }
        v
    }

    /// Select page mode: switches from standard mode to page mode.
    ///
    /// ASCII: ESC L
    pub fn page_mode(&self) -> (frame: Vec<u8>)
        ensures
            frame@ == page_mode_frame(),
    {
        let mut v: Vec<u8> = Vec::new();
        v.push(0x1B);
        v.push(0x4C);
        proof {
            assert(v@ =~= page_mode_frame());
        }
        v
    }

    /// Select double-density page mode: switches from standard mode to
    /// double-density page mode.
    ///
    /// ASCII: FS L
    pub fn double_density_page_mode(&self) -> (frame: Vec<u8>)
        ensures
            frame@ == double_density_page_mode_frame(),
    {
        let mut v: Vec<u8> = Vec::new();
        v.push(0x1C);
        v.push(0x4C);
        proof {
            assert(v@ =~= double_density_page_mode_frame());
        }
        v
    }

    /// Print a UPC-A barcode with its digits below the bars.
    ///
    /// The payload must be 11 or 12 ASCII digits; the length is checked
    /// first, then the bytes, and the first offending byte is reported by
    /// position.  The caller is responsible for positioning, via separate
    /// calls, before transmitting the frame.
    ///
    /// ASCII: GS H n, then GS k m n
    pub fn barcode_upc_a(&self, data: &[u8]) -> (r: Result<Vec<u8>, BarcodeError>)
        ensures
            upc_a_length_ok(data@.len() as int) && all_upc_digits(data@) ==> (r matches Ok(frame)
                && frame@ == barcode_upc_a_frame(data@)),
            !upc_a_length_ok(data@.len() as int) ==> (r matches Err(e)
                && e matches BarcodeError::InvalidSize { expected_min, expected_max, provided }
                && expected_min == 11 && expected_max == 12 && provided == data@.len()),
            upc_a_length_ok(data@.len() as int) && !all_upc_digits(data@) ==> (r matches Err(e)
                && e matches BarcodeError::InvalidChar { range_start, range_end, position }
                && range_start == 0x30 && range_end == 0x39 && position == first_non_digit(
                data@,
            )),
    {
        let data_len = data.len();
        if !(11 <= data_len && data_len <= 12) {
            return Err(
                BarcodeError::InvalidSize { expected_min: 11, expected_max: 12, provided: data_len },
            );
        }
        let mut i: usize = 0;
        while i < data_len
            invariant
                data_len == data@.len(),
                11 <= data_len <= 12,
                i <= data_len,
                forall|j: int| 0 <= j < i ==> is_upc_digit(data@[j]),
            decreases data_len - i,
        {
            let b = data[i];
            if !(0x30 <= b && b <= 0x39) {
                proof {
                    lemma_first_non_digit_is(data@, i as int);
                }
                return Err(
                    BarcodeError::InvalidChar { range_start: 0x30, range_end: 0x39, position: i },
                );
            }
            i = i + 1;
        }
        let mut frame: Vec<u8> = Vec::new();
        frame.push(0x1D);
        frame.push(0x48);
        frame.push(0x02);
        frame.push(0x1D);
        frame.push(0x6B);
        frame.push(0x41);
        frame.push(data_len as u8);
        let mut k: usize = 0;
        while k < data_len
            invariant
                data_len == data@.len(),
                11 <= data_len <= 12,
                all_upc_digits(data@),
                k <= data_len,
                frame@.len() == 7 + k,
                frame@.subrange(0, 7) =~= seq![
                    0x1Du8,
                    0x48u8,
                    0x02u8,
                    0x1Du8,
                    0x6Bu8,
                    0x41u8,
                    data_len as u8,
                ],
                forall|j: int| 0 <= j < k ==> frame@[7 + j] == data@[j],
            decreases data_len - k,
        {
            frame.push(data[k]);
            k = k + 1;
        }
        proof {
            assert(frame@ =~= barcode_upc_a_frame(data@));
        }
        Ok(frame)
    }
}

} // verus!
