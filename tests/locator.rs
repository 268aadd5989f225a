use leptrino_publisher::locator::{
    first_matching_path, port_is_candidate, search_usb_sensor_path, ConnectionKind,
    DiscoveryError, HardwareIdentity, Located, PortInfo, SENSOR_PRODUCT_ID, SENSOR_VENDOR_ID,
};

fn usb(path: &str, vendor_id: u16, product_id: u16) -> PortInfo {
    PortInfo { path: path.to_string(), kind: ConnectionKind::Usb { vendor_id, product_id } }
}

fn other(path: &str, kind: ConnectionKind) -> PortInfo {
    PortInfo { path: path.to_string(), kind }
}

fn found_path(r: &Located) -> Option<&str> {
    match r {
        Located::Found(p) => Some(p.as_str()),
        _ => None,
    }
}

#[test]
fn supported_sensor_identity() {
    let id = HardwareIdentity::supported_sensor();
    assert_eq!(id.vendor_id, 0x0483);
    assert_eq!(id.product_id, 0x5740);
    assert_eq!(SENSOR_VENDOR_ID, 0x0483);
    assert_eq!(SENSOR_PRODUCT_ID, 0x5740);
}

#[test]
fn single_matching_usb_port_is_found() {
    let id = HardwareIdentity::supported_sensor();
    let ports = vec![usb("/dev/ttyX", 0x0483, 0x5740)];
    let r = search_usb_sensor_path(Ok(ports), &id);
    assert_eq!(found_path(&r), Some("/dev/ttyX"));
}

#[test]
fn foreign_usb_port_is_not_found() {
    let id = HardwareIdentity::supported_sensor();
    let ports = vec![usb("/dev/ttyACM0", 0x1234, 0x0001)];
    let r = search_usb_sensor_path(Ok(ports), &id);
    assert!(matches!(r, Located::NotFound));
}

#[test]
fn empty_listing_is_not_found() {
    let id = HardwareIdentity::supported_sensor();
    let r = search_usb_sensor_path(Ok(Vec::new()), &id);
    assert!(matches!(r, Located::NotFound));
}

#[test]
fn no_candidate_among_many_is_not_found() {
    let id = HardwareIdentity::supported_sensor();
    let ports = vec![
        usb("/dev/ttyUSB0", 0x0483, 0x0001),
        usb("/dev/ttyUSB1", 0x1234, 0x5740),
        other("/dev/ttyS0", ConnectionKind::Pci),
        other("/dev/rfcomm0", ConnectionKind::Bluetooth),
        other("/dev/ttyS1", ConnectionKind::Unknown),
    ];
    let r = search_usb_sensor_path(Ok(ports), &id);
    assert!(matches!(r, Located::NotFound));
}

#[test]
fn only_vendor_and_product_together_match() {
    let id = HardwareIdentity::supported_sensor();
    assert!(port_is_candidate(&usb("a", 0x0483, 0x5740), &id));
    assert!(!port_is_candidate(&usb("a", 0x0483, 0x5741), &id));
    assert!(!port_is_candidate(&usb("a", 0x0484, 0x5740), &id));
    assert!(!port_is_candidate(&other("a", ConnectionKind::Pci), &id));
    assert!(!port_is_candidate(&other("a", ConnectionKind::Bluetooth), &id));
    assert!(!port_is_candidate(&other("a", ConnectionKind::Unknown), &id));
}

#[test]
fn single_candidate_among_others_is_found() {
    let id = HardwareIdentity::supported_sensor();
    let ports = vec![
        other("/dev/ttyS0", ConnectionKind::Pci),
        usb("/dev/ttyUSB0", 0x1234, 0x0001),
        usb("/dev/ttyUSB1", 0x0483, 0x5740),
        other("/dev/rfcomm0", ConnectionKind::Bluetooth),
    ];
    let r = search_usb_sensor_path(Ok(ports), &id);
    assert_eq!(found_path(&r), Some("/dev/ttyUSB1"));
}

#[test]
fn first_of_several_candidates_wins() {
    let id = HardwareIdentity::supported_sensor();
    let listing = || {
        vec![
            usb("/dev/ttyUSB0", 0x1234, 0x0001),
            usb("/dev/ttyUSB3", 0x0483, 0x5740),
            usb("/dev/ttyUSB1", 0x0483, 0x5740),
        ]
    };
    let first = search_usb_sensor_path(Ok(listing()), &id);
    let again = search_usb_sensor_path(Ok(listing()), &id);
    assert_eq!(found_path(&first), Some("/dev/ttyUSB3"));
    assert_eq!(found_path(&again), Some("/dev/ttyUSB3"));
}

#[test]
fn other_identity_is_honoured() {
    let id = HardwareIdentity { vendor_id: 0x1234, product_id: 0x0001 };
    let ports = vec![usb("/dev/ttyUSB0", 0x0483, 0x5740), usb("/dev/ttyUSB1", 0x1234, 0x0001)];
    assert_eq!(first_matching_path(&ports, &id), Some("/dev/ttyUSB1".to_string()));
}

#[test]
fn enumeration_failure_is_passed_on() {
    let id = HardwareIdentity::supported_sensor();
    let err = DiscoveryError { message: "no ports".to_string() };
    let r = search_usb_sensor_path(Err(err), &id);
    match r {
        Located::DiscoveryFailed(e) => assert_eq!(e.message, "no ports"),
        _ => panic!("expected a discovery failure"),
    }
}
