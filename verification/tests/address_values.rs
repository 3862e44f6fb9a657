use netdefs::addresses::{AddressParseError, Eui64, Ipv4Address, MacAddress};

#[test]
fn mac_string_round_trip() {
    let m = MacAddress::from_str("01:23:45:67:89:AB").unwrap();
    assert_eq!(m.to_string(), "01:23:45:67:89:AB");
}

#[test]
fn mac_from_str_accepts_dashes_and_lowercase() {
    let m = MacAddress::from_str("01-23-45-67-89-ab").unwrap();
    assert_eq!(m.to_bytes(), [0x01, 0x23, 0x45, 0x67, 0x89, 0xAB]);
    assert_eq!(m.to_string(), "01:23:45:67:89:AB");
    let mixed = MacAddress::from_str("de:ad-BE:ef-00:Ff").unwrap();
    assert_eq!(mixed.to_string(), "DE:AD:BE:EF:00:FF");
}

#[test]
fn mac_from_str_rejects_malformed_input() {
    for bad in [
        "",
        "01:23:45:67:89",
        "01:23:45:67:89:AB:CD",
        "0123:45:67:89:AB",
        "GG:23:45:67:89:AB",
        "01:23:45:67:89:A",
        "01 23 45 67 89 AB",
        "01:23:45:67:89:AB ",
    ] {
        match MacAddress::from_str(bad) {
            Err(AddressParseError::BadPattern(s)) => assert_eq!(s, bad),
            other => panic!("expected a pattern error for {:?}, got {:?}", bad, other),
        }
    }
}

#[test]
fn mac_from_slice_checks_length() {
    let m = MacAddress::from_slice(&[1, 2, 3, 4, 5, 6]).unwrap();
    assert_eq!(m.to_bytes(), [1, 2, 3, 4, 5, 6]);
    match MacAddress::from_slice(&[1, 2, 3]) {
        Err(AddressParseError::WrongLength(n)) => assert_eq!(n, 3),
        other => panic!("expected a length error, got {:?}", other),
    }
    match MacAddress::from_slice(&[0; 7]) {
        Err(AddressParseError::WrongLength(n)) => assert_eq!(n, 7),
        other => panic!("expected a length error, got {:?}", other),
    }
}

#[test]
fn mac_from_vec_checks_length() {
    let m = MacAddress::from_vec(vec![9, 8, 7, 6, 5, 4]).unwrap();
    assert_eq!(m.to_bytes(), [9, 8, 7, 6, 5, 4]);
    assert!(MacAddress::from_vec(vec![1, 2]).is_err());
}

#[test]
fn mac_bytes_round_trip() {
    let x = MacAddress::from_bytes([0x00, 0xFF, 0x10, 0x20, 0x30, 0x40]);
    let y = MacAddress::from_bytes(x.to_bytes());
    assert_eq!(y, x);
    assert_eq!(y.to_bytes(), [0x00, 0xFF, 0x10, 0x20, 0x30, 0x40]);
}

#[test]
fn mac_display_pads_with_zeros() {
    let m = MacAddress::from_bytes([0, 0, 0, 0, 0, 0]);
    assert_eq!(m.to_string(), "00:00:00:00:00:00");
    let m = MacAddress::from_bytes([0x0F, 0xF0, 0x00, 0x01, 0x10, 0xFF]);
    assert_eq!(m.to_string(), "0F:F0:00:01:10:FF");
}

#[test]
fn mac_equality_is_byte_equality() {
    let a = MacAddress::from_bytes([1, 2, 3, 4, 5, 6]);
    let b = MacAddress::from_bytes([1, 2, 3, 4, 5, 6]);
    let c = MacAddress::from_bytes([1, 2, 3, 4, 5, 7]);
    assert_eq!(a, b);
    assert_ne!(a, c);
}

#[test]
fn mac_oui_is_first_three_bytes() {
    let m = MacAddress::from_bytes([0xAA, 0xBB, 0xCC, 0x01, 0x02, 0x03]);
    assert_eq!(m.get_oui(), [0xAA, 0xBB, 0xCC]);
}

#[test]
fn eui64_insertion_pattern() {
    let m = MacAddress::from_bytes([0xAA, 0xBB, 0xCC, 0x01, 0x02, 0x03]);
    let e = m.to_eui64();
    assert_eq!(e.get_oui(), [0xAA, 0xBB, 0xCC]);
    let expected = Eui64::from_slice(&[0xAA, 0xBB, 0xCC, 0xFF, 0xFF, 0x01, 0x02, 0x03]).unwrap();
    assert_eq!(expected.to_mac_address(), m);
    assert_eq!(e.to_mac_address(), m);
}

#[test]
fn eui64_round_trip_identity() {
    for bytes in [
        [0u8, 0, 0, 0, 0, 0],
        [0xFF, 0xFF, 0xFF, 0xFF, 0xFF, 0xFF],
        [0x01, 0x23, 0x45, 0x67, 0x89, 0xAB],
        [0xDE, 0xAD, 0xBE, 0xEF, 0x00, 0x01],
    ] {
        let m = MacAddress::from_bytes(bytes);
        assert_eq!(m.to_eui64().to_mac_address(), m);
        assert_eq!(Eui64::from_mac_address(m).to_mac_address(), m);
    }
}

#[test]
fn eui64_from_string_and_contraction() {
    let e = Eui64::from_string("AA:BB:CC:FF:FF:01:02:03").unwrap();
    assert_eq!(e.get_oui(), [0xAA, 0xBB, 0xCC]);
    assert_eq!(
        e.to_mac_address(),
        MacAddress::from_bytes([0xAA, 0xBB, 0xCC, 0x01, 0x02, 0x03])
    );
    match Eui64::from_string("AA:BB:CC:FF:FF:01:02") {
        Err(AddressParseError::BadPattern(s)) => assert_eq!(s, "AA:BB:CC:FF:FF:01:02"),
        other => panic!("expected a pattern error, got {:?}", other),
    }
}

#[test]
fn eui64_from_slice_checks_length() {
    assert!(Eui64::from_slice(&[0; 8]).is_ok());
    match Eui64::from_slice(&[0; 6]) {
        Err(AddressParseError::WrongLength(n)) => assert_eq!(n, 6),
        other => panic!("expected a length error, got {:?}", other),
    }
    assert!(Eui64::from_vec(vec![1, 2, 3, 4, 5, 6, 7, 8]).is_ok());
    assert!(Eui64::from_vec(vec![1, 2, 3]).is_err());
}

#[test]
fn ipv4_octets() {
    let ip = Ipv4Address::new(192, 168, 0, 1);
    assert_eq!(ip.octets(), [192, 168, 0, 1]);
    assert_eq!(ip, Ipv4Address::new(192, 168, 0, 1));
    assert_ne!(ip, Ipv4Address::new(192, 168, 0, 2));
}
