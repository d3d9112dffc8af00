//! Selecting the printer out of an enumerated USB device list: matching
//! vendor and product identifiers, and finding the bulk-OUT endpoint the
//! command frames will be written to.
//!
//! The caller that performs the USB work enumerates the bus and hands in one
//! [`DeviceInfo`] per device, with the endpoint descriptors of its active
//! configuration flattened in descriptor order (interfaces, then alternate
//! settings, then endpoints).
use vstd::prelude::*;

verus! {

/// Transfer type of a USB endpoint, as its descriptor reports it.
#[derive(Clone, Copy, Debug, PartialEq, Eq, Structural)]
pub enum TransferKind {
    Control,
    Isochronous,
    Bulk,
    Interrupt,
}

/// Direction of a USB endpoint, as its descriptor reports it.
#[derive(Clone, Copy, Debug, PartialEq, Eq, Structural)]
pub enum EndpointDirection {
    In,
    Out,
}

/// What the library reads of one endpoint descriptor.
#[derive(Clone, Copy, Debug, PartialEq, Eq, Structural)]
pub struct EndpointInfo {
    pub transfer_kind: TransferKind,
    pub direction: EndpointDirection,
    /// The endpoint number.
    pub number: u8,
}

/// What the library reads of one enumerated device.
#[derive(Debug)]
pub struct DeviceInfo {
    pub vendor_id: u16,
    pub product_id: u16,
    /// Endpoint descriptors of the active configuration, in descriptor
    /// order.
    pub endpoints: Vec<EndpointInfo>,
}

/// A bulk endpoint in the OUT direction: the kind the printer is driven
/// through.
pub open spec fn is_bulk_out(e: EndpointInfo) -> bool {
    e.transfer_kind is Bulk && e.direction is Out
}

/// Some endpoint of the list is bulk-OUT.
pub open spec fn has_bulk_out(endpoints: Seq<EndpointInfo>) -> bool {
    exists|i: int| 0 <= i < endpoints.len() && is_bulk_out(endpoints[i])
}

/// Index of the first bulk-OUT endpoint; the length when there is none.
pub open spec fn first_bulk_out(endpoints: Seq<EndpointInfo>) -> int
    decreases endpoints.len(),
{
    if endpoints.len() == 0 {
        0
    } else if is_bulk_out(endpoints[0]) {
        0
    } else {
        1 + first_bulk_out(endpoints.drop_first())
    }
}

/// The device carries the requested vendor and product identifiers.
pub open spec fn device_matches(d: DeviceInfo, vendor_id: u16, product_id: u16) -> bool {
    d.vendor_id == vendor_id && d.product_id == product_id
}

/// Some device of the list carries the requested identifiers.
pub open spec fn any_device_matches(
    devices: Seq<DeviceInfo>,
    vendor_id: u16,
    product_id: u16,
) -> bool {
    exists|i: int| 0 <= i < devices.len() && device_matches(devices[i], vendor_id, product_id)
}

/// Index of the first device carrying the requested identifiers; the length
/// when there is none.
pub open spec fn first_matching_device(
    devices: Seq<DeviceInfo>,
    vendor_id: u16,
    product_id: u16,
) -> int
    decreases devices.len(),
{
    if devices.len() == 0 {
        0
    } else if device_matches(devices[0], vendor_id, product_id) {
        0
    } else {
        1 + first_matching_device(devices.drop_first(), vendor_id, product_id)
    }
}

/// `first_bulk_out` names exactly the index whose endpoint is bulk-OUT while
/// no earlier endpoint is.
pub proof fn lemma_first_bulk_out_is(endpoints: Seq<EndpointInfo>, i: int)
    requires
        0 <= i < endpoints.len(),
        is_bulk_out(endpoints[i]),
        forall|j: int| 0 <= j < i ==> !is_bulk_out(endpoints[j]),
    ensures
        first_bulk_out(endpoints) == i,
    decreases i,
{
    if i > 0 {
        lemma_first_bulk_out_is(endpoints.drop_first(), i - 1);
    }
}

/// `first_matching_device` names exactly the index whose device matches
/// while no earlier device does.
pub proof fn lemma_first_matching_device_is(
    devices: Seq<DeviceInfo>,
    vendor_id: u16,
    product_id: u16,
    i: int,
)
    requires
        0 <= i < devices.len(),
        device_matches(devices[i], vendor_id, product_id),
        forall|j: int| 0 <= j < i ==> !device_matches(devices[j], vendor_id, product_id),
    ensures
        first_matching_device(devices, vendor_id, product_id) == i,
    decreases i,
{
    if i > 0 {
        lemma_first_matching_device_is(devices.drop_first(), vendor_id, product_id, i - 1);
    }
}

/// Scan the endpoint list for the first bulk-OUT endpoint and return its
/// number.
pub fn find_bulk_out(endpoints: &Vec<EndpointInfo>) -> (r: Option<u8>)
    ensures
        r is Some <==> has_bulk_out(endpoints@),
        r matches Some(n) ==> n == endpoints@[first_bulk_out(endpoints@)].number,
{
    let mut i: usize = 0;
    while i < endpoints.len()
        invariant
            i <= endpoints@.len(),
            forall|j: int| 0 <= j < i ==> !is_bulk_out(endpoints@[j]),
        decreases endpoints@.len() - i,
    {
        let e = endpoints[i];
        if e.transfer_kind == TransferKind::Bulk && e.direction == EndpointDirection::Out {
            proof {
                lemma_first_bulk_out_is(endpoints@, i as int);
            }
            return Some(e.number);
        }
        i = i + 1;
    }
    None
}

} // verus!
