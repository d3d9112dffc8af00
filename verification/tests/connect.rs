//! Device selection: the empty result when nothing matches, the endpoint
//! error when a match is unusable, and the choice of device and endpoint
//! when the connection succeeds.
use thermal::ConnectionError;
use thermal::DeviceInfo;
use thermal::EndpointDirection;
use thermal::EndpointInfo;
use thermal::Printer;
use thermal::TransferKind;

fn endpoint(kind: TransferKind, direction: EndpointDirection, number: u8) -> EndpointInfo {
    EndpointInfo {
        transfer_kind: kind,
        direction,
        number,
    }
}

#[test]
fn no_matching_device_is_the_empty_result() {
    let devices = vec![DeviceInfo {
        vendor_id: 0x0403,
        product_id: 0x6001,
        endpoints: vec![endpoint(TransferKind::Bulk, EndpointDirection::Out, 2)],
    }];
    let r = Printer::builder(0x1A86, 0x7584).connect(&devices).unwrap();
    assert!(r.is_none());
}

#[test]
fn an_empty_enumeration_is_the_empty_result() {
    let devices: Vec<DeviceInfo> = Vec::new();
    let r = Printer::builder(0x1A86, 0x7584).connect(&devices).unwrap();
    assert!(r.is_none());
}

#[test]
fn a_match_without_a_bulk_out_endpoint_is_an_error() {
    let devices = vec![DeviceInfo {
        vendor_id: 0x1A86,
        product_id: 0x7584,
        endpoints: vec![
            endpoint(TransferKind::Bulk, EndpointDirection::In, 1),
            endpoint(TransferKind::Interrupt, EndpointDirection::Out, 3),
            endpoint(TransferKind::Control, EndpointDirection::Out, 0),
        ],
    }];
    let err = Printer::builder(0x1A86, 0x7584)
        .connect(&devices)
        .unwrap_err();
    assert_eq!(err, ConnectionError::NoBulkEndpoint);
}

#[test]
fn the_first_bulk_out_endpoint_is_selected() {
    let devices = vec![DeviceInfo {
        vendor_id: 0x1A86,
        product_id: 0x7584,
        endpoints: vec![
            endpoint(TransferKind::Interrupt, EndpointDirection::Out, 1),
            endpoint(TransferKind::Bulk, EndpointDirection::In, 5),
            endpoint(TransferKind::Bulk, EndpointDirection::Out, 3),
            endpoint(TransferKind::Bulk, EndpointDirection::Out, 4),
        ],
    }];
    let p = Printer::builder(0x1A86, 0x7584)
        .connect(&devices)
        .unwrap()
        .unwrap();
    assert_eq!(p.endpoint(), 3);
    assert_eq!(p.device_index(), 0);
}

#[test]
fn the_first_matching_device_is_selected() {
    let devices = vec![
        DeviceInfo {
            vendor_id: 0x0403,
            product_id: 0x6001,
            endpoints: vec![endpoint(TransferKind::Bulk, EndpointDirection::Out, 1)],
        },
        DeviceInfo {
            vendor_id: 0x1A86,
            product_id: 0x7584,
            endpoints: vec![endpoint(TransferKind::Bulk, EndpointDirection::Out, 2)],
        },
        DeviceInfo {
            vendor_id: 0x1A86,
            product_id: 0x7584,
            endpoints: vec![endpoint(TransferKind::Bulk, EndpointDirection::Out, 7)],
        },
    ];
    let p = Printer::builder(0x1A86, 0x7584)
        .connect(&devices)
        .unwrap()
        .unwrap();
    assert_eq!(p.device_index(), 1);
    assert_eq!(p.endpoint(), 2);
}

#[test]
fn an_unusable_first_match_is_not_skipped() {
    // The first device carrying the identifiers decides, even when a later
    // one would have been usable.
    let devices = vec![
        DeviceInfo {
            vendor_id: 0x1A86,
            product_id: 0x7584,
            endpoints: vec![endpoint(TransferKind::Bulk, EndpointDirection::In, 1)],
        },
        DeviceInfo {
            vendor_id: 0x1A86,
            product_id: 0x7584,
            endpoints: vec![endpoint(TransferKind::Bulk, EndpointDirection::Out, 2)],
        },
    ];
    let err = Printer::builder(0x1A86, 0x7584)
        .connect(&devices)
        .unwrap_err();
    assert_eq!(err, ConnectionError::NoBulkEndpoint);
}

#[test]
fn the_timeout_is_carried_into_the_handle() {
    let devices = vec![DeviceInfo {
        vendor_id: 0x1A86,
        product_id: 0x7584,
        endpoints: vec![endpoint(TransferKind::Bulk, EndpointDirection::Out, 2)],
    }];
    let p = Printer::builder(0x1A86, 0x7584)
        .connect(&devices)
        .unwrap()
        .unwrap();
    assert_eq!(p.timeout_ms(), 10_000);
    let q = Printer::builder(0x1A86, 0x7584)
        .timeout(2_500)
        .connect(&devices)
        .unwrap()
        .unwrap();
    assert_eq!(q.timeout_ms(), 2_500);
}
