use adb_usb_core::errors::AdbError;
use adb_usb_core::usb_info::{
    find_adb_endpoint_pair, first_matching_device, is_adb_device, select_adb_device, AltSetting,
    Endpoint, EndpointInfo, InterfaceTriple, UsbDeviceSummary,
};

fn bulk(address: u8, is_in: bool) -> EndpointInfo {
    EndpointInfo { address, is_bulk: true, is_in }
}

fn adb_setting(interface_number: u8, endpoints: Vec<EndpointInfo>) -> AltSetting {
    AltSetting { interface_number, class: 0xff, subclass: 0x42, protocol: 0x01, endpoints }
}

fn summary(vendor_id: u16, product_id: u16, triples: Vec<InterfaceTriple>) -> UsbDeviceSummary {
    UsbDeviceSummary { vendor_id, product_id, triples }
}

#[test]
fn endpoint_pair_found() {
    let settings = vec![adb_setting(1, vec![bulk(0x81, true), bulk(0x01, false)])];
    let (read, write) = find_adb_endpoint_pair(&settings).unwrap();
    assert_eq!(read, Endpoint { interface_number: 1, address: 0x81 });
    assert_eq!(write, Endpoint { interface_number: 1, address: 0x01 });
}

#[test]
fn endpoint_pair_first_of_each_direction() {
    // Within the qualifying setting, the first endpoint of each direction
    // wins, whatever the order.
    let settings = vec![adb_setting(
        0,
        vec![bulk(0x02, false), bulk(0x82, true), bulk(0x83, true), bulk(0x03, false)],
    )];
    let (read, write) = find_adb_endpoint_pair(&settings).unwrap();
    assert_eq!(read.address, 0x82);
    assert_eq!(write.address, 0x02);
}

#[test]
fn endpoint_pair_within_one_setting() {
    // A setting with only an IN and another with only an OUT do not pair
    // across settings; a later complete setting wins.
    let settings = vec![
        adb_setting(0, vec![bulk(0x81, true)]),
        adb_setting(1, vec![bulk(0x02, false)]),
        adb_setting(2, vec![bulk(0x83, true), bulk(0x03, false)]),
    ];
    let (read, write) = find_adb_endpoint_pair(&settings).unwrap();
    assert_eq!(read, Endpoint { interface_number: 2, address: 0x83 });
    assert_eq!(write, Endpoint { interface_number: 2, address: 0x03 });
}

#[test]
fn endpoint_pair_ignores_non_adb_settings() {
    // A mass-storage setting and a non-bulk endpoint do not qualify.
    let mut storage = adb_setting(2, vec![bulk(0x81, true), bulk(0x01, false)]);
    storage.class = 0x08;
    let mut interrupt_only = adb_setting(3, vec![bulk(0x82, true), bulk(0x02, false)]);
    interrupt_only.endpoints[0].is_bulk = false;
    interrupt_only.endpoints[1].is_bulk = false;
    let settings = vec![storage, interrupt_only];
    assert_eq!(find_adb_endpoint_pair(&settings), Err(AdbError::NoDescriptor));
}

#[test]
fn endpoint_pair_missing_direction() {
    let settings = vec![adb_setting(1, vec![bulk(0x81, true)])];
    assert_eq!(find_adb_endpoint_pair(&settings), Err(AdbError::NoDescriptor));
    assert_eq!(find_adb_endpoint_pair(&Vec::new()), Err(AdbError::NoDescriptor));
}

#[test]
fn device_qualifies_by_adb_triple() {
    let d = summary(1, 2, vec![InterfaceTriple { class: 0xff, subclass: 0x42, protocol: 0x01 }]);
    assert!(is_adb_device(&d));
}

#[test]
fn device_qualifies_by_bulk_triple() {
    // Some devices expose the file-transfer interface while debugging.
    let d = summary(1, 2, vec![InterfaceTriple { class: 0xdc, subclass: 0x02, protocol: 0x01 }]);
    assert!(is_adb_device(&d));
}

#[test]
fn device_with_other_interfaces_does_not_qualify() {
    let d = summary(
        1,
        2,
        vec![
            InterfaceTriple { class: 0x08, subclass: 0x06, protocol: 0x50 },
            InterfaceTriple { class: 0xff, subclass: 0x42, protocol: 0x02 },
            InterfaceTriple { class: 0xdc, subclass: 0x03, protocol: 0x01 },
        ],
    );
    assert!(!is_adb_device(&d));
}

#[test]
fn autodetect_none() {
    let devices = vec![summary(5, 6, vec![])];
    assert_eq!(select_adb_device(&devices), Ok(None));
}

#[test]
fn autodetect_single() {
    let devices = vec![
        summary(5, 6, vec![]),
        summary(
            0x18d1,
            0x4ee7,
            vec![InterfaceTriple { class: 0xff, subclass: 0x42, protocol: 0x01 }],
        ),
    ];
    assert_eq!(select_adb_device(&devices), Ok(Some((0x18d1, 0x4ee7))));
}

#[test]
fn autodetect_ambiguous() {
    // Two qualifying devices: both identities are cited.
    let adb = vec![InterfaceTriple { class: 0xff, subclass: 0x42, protocol: 0x01 }];
    let devices = vec![
        summary(0x18d1, 0x4ee7, adb.clone()),
        summary(5, 6, vec![]),
        summary(0x2717, 0xff68, adb),
    ];
    assert_eq!(
        select_adb_device(&devices),
        Err(AdbError::Ambiguous {
            first_vendor: 0x18d1,
            first_product: 0x4ee7,
            second_vendor: 0x2717,
            second_product: 0xff68,
        })
    );
}

#[test]
fn first_matching_device_picks_first() {
    let ids = vec![
        None,
        Some((0x18d1, 0x4ee7)),
        Some((0x2717, 0xff68)),
        Some((0x18d1, 0x4ee7)),
    ];
    assert_eq!(first_matching_device(&ids, 0x18d1, 0x4ee7), Some(1));
    assert_eq!(first_matching_device(&ids, 0x2717, 0xff68), Some(2));
}

#[test]
fn first_matching_device_none() {
    let ids = vec![None, Some((1, 2))];
    assert_eq!(first_matching_device(&ids, 3, 4), None);
    assert_eq!(first_matching_device(&Vec::new(), 1, 2), None);
}
