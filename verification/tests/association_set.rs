use netdefs::addresses::{Ipv4Address, MacAddress};
use netdefs::assoc::{IpMacCombo, IpMacSet, SingleAssignmentError};

fn ip(n: u8) -> Ipv4Address {
    Ipv4Address::new(10, 0, 0, n)
}

fn mac(n: u8) -> MacAddress {
    MacAddress::from_bytes([0, 0, 0, 0, 0, n])
}

#[test]
fn combo_constructors_and_accessors() {
    let c = IpMacCombo::new(ip(1), mac(1));
    assert!(c.has_ip() && c.has_mac());
    assert_eq!(c.get_ip(), Some(ip(1)));
    assert_eq!(c.get_mac(), Some(mac(1)));

    let p = IpMacCombo::from_ip(ip(2));
    assert!(p.has_ip() && !p.has_mac());
    assert_eq!(p.get_ip(), Some(ip(2)));
    assert_eq!(p.get_mac(), None);

    let q = IpMacCombo::from_mac(mac(3));
    assert!(!q.has_ip() && q.has_mac());
    assert_eq!(q.get_mac(), Some(mac(3)));
}

#[test]
fn combo_fields_are_single_assignment() {
    let mut c = IpMacCombo::from_ip(ip(1));
    assert!(c.add_mac(mac(1)).is_ok());
    assert_eq!(c.get_mac(), Some(mac(1)));

    match c.add_mac(mac(2)) {
        Err(SingleAssignmentError::MacAlreadySet(m)) => assert_eq!(m, mac(2)),
        other => panic!("expected a rejection, got {:?}", other),
    }
    assert_eq!(c.get_mac(), Some(mac(1)));

    match c.add_ip(ip(9)) {
        Err(SingleAssignmentError::IpAlreadySet(i)) => assert_eq!(i, ip(9)),
        other => panic!("expected a rejection, got {:?}", other),
    }
    assert_eq!(c.get_ip(), Some(ip(1)));

    let mut d = IpMacCombo::from_mac(mac(4));
    assert!(d.add_ip(ip(4)).is_ok());
    assert_eq!(d.get_ip(), Some(ip(4)));
}

#[test]
fn combo_equality_is_field_equality() {
    assert_eq!(IpMacCombo::new(ip(1), mac(1)), IpMacCombo::new(ip(1), mac(1)));
    assert_ne!(IpMacCombo::new(ip(1), mac(1)), IpMacCombo::new(ip(1), mac(2)));
    assert_ne!(IpMacCombo::new(ip(1), mac(1)), IpMacCombo::from_ip(ip(1)));
    assert_eq!(IpMacCombo::from_ip(ip(1)), IpMacCombo::from_ip(ip(1)));
    assert_ne!(IpMacCombo::from_ip(ip(1)), IpMacCombo::from_mac(mac(1)));
}

#[test]
fn push_get_and_index() {
    let mut set = IpMacSet::new();
    assert!(set.get(0).is_none());
    set.push(IpMacCombo::new(ip(1), mac(1)));
    set.push_ip(ip(2));
    set.push_mac(mac(3));
    assert_eq!(set.get(0), Some(IpMacCombo::new(ip(1), mac(1))));
    assert_eq!(set.get(1), Some(IpMacCombo::from_ip(ip(2))));
    assert_eq!(set.get(2), Some(IpMacCombo::from_mac(mac(3))));
    assert!(set.get(3).is_none());
    assert_eq!(set.get_index(IpMacCombo::from_ip(ip(2))), 1);
    assert_eq!(set.get_index(IpMacCombo::new(ip(1), mac(1))), 0);
}

#[test]
fn contains_queries() {
    let mut set = IpMacSet::new();
    set.push_ip(ip(1));
    set.push_mac(mac(2));
    assert!(set.contains(&IpMacCombo::from_ip(ip(1))));
    assert!(!set.contains(&IpMacCombo::from_ip(ip(2))));
    assert!(set.contains_ip(ip(1)));
    assert!(!set.contains_ip(ip(2)));
    assert!(set.contains_mac(mac(2)));
    assert!(!set.contains_mac(mac(1)));
}

#[test]
fn get_by_queries_return_all_matches() {
    let mut set = IpMacSet::new();
    set.push(IpMacCombo::new(ip(1), mac(1)));
    set.push_ip(ip(1));
    set.push(IpMacCombo::new(ip(1), mac(2)));
    set.push_mac(mac(1));
    assert_eq!(set.get_by_ip(ip(1)).len(), 3);
    assert_eq!(set.get_by_mac(mac(1)).len(), 2);
    assert_eq!(set.get_by_ip_mac(ip(1), mac(1)).len(), 1);
    assert_eq!(set.get_by_ip(ip(2)).len(), 0);
    assert_eq!(set.get_indices_by_ip(ip(1)), vec![0, 1, 2]);
    assert_eq!(set.get_indices_by_mac(mac(1)), vec![0, 3]);
}

#[test]
fn associate_after_partial_pushes() {
    let mut set = IpMacSet::new();
    set.push_ip(ip(1));
    set.push_mac(mac(1));
    let r = set.associate_ip_mac(ip(1), mac(1)).unwrap();
    assert_eq!(r, IpMacCombo::new(ip(1), mac(1)));
    // Exactly one record is complete with that pair afterwards.
    assert_eq!(set.get_by_ip_mac(ip(1), mac(1)).len(), 1);
    assert_eq!(set.get_by_ip(ip(1)).len(), 1);
    let only = set.get(0).unwrap();
    assert!(only.has_ip() && only.has_mac());
    assert!(set.get(1).is_none());
}

#[test]
fn associate_without_both_addresses_fails_unchanged() {
    let mut set = IpMacSet::new();
    set.push_ip(ip(1));
    let e = set.associate_ip_mac(ip(1), mac(1)).unwrap_err();
    assert_eq!(e.0, ip(1));
    assert_eq!(e.1, mac(1));
    assert_eq!(set.get(0), Some(IpMacCombo::from_ip(ip(1))));
    assert!(set.get(1).is_none());

    let e = set.associate_ip_mac(ip(9), mac(9)).unwrap_err();
    assert_eq!(e.0, ip(9));
    assert_eq!(e.1, mac(9));
}

#[test]
fn associate_consolidates_every_matching_record() {
    let mut set = IpMacSet::new();
    set.push_ip(ip(1));
    set.push_ip(ip(1));
    set.push_mac(mac(1));
    set.push(IpMacCombo::new(ip(2), mac(1)));
    set.push_ip(ip(3));
    let r = set.associate_ip_mac(ip(1), mac(1)).unwrap();
    assert_eq!(r, IpMacCombo::new(ip(1), mac(1)));
    // Every record containing ip(1) or mac(1) went away; ip(3) survived.
    assert_eq!(set.get(0), Some(IpMacCombo::from_ip(ip(3))));
    assert_eq!(set.get(1), Some(IpMacCombo::new(ip(1), mac(1))));
    assert!(set.get(2).is_none());
}

#[test]
fn multiple_macs_are_flagged() {
    let mut set = IpMacSet::new();
    set.push(IpMacCombo::new(ip(1), mac(1)));
    set.push(IpMacCombo::new(ip(1), mac(2)));
    assert!(set.ip_has_multiple_macs(ip(1)));
    assert!(!set.mac_has_multiple_ips(mac(1)));
}

#[test]
fn same_mac_twice_is_not_multiple() {
    let mut set = IpMacSet::new();
    set.push(IpMacCombo::new(ip(1), mac(1)));
    set.push(IpMacCombo::new(ip(1), mac(1)));
    assert!(!set.ip_has_multiple_macs(ip(1)));
    assert!(set.has_multiples_of(ip(1), mac(1)));
}

#[test]
fn multiple_ips_are_flagged() {
    let mut set = IpMacSet::new();
    set.push(IpMacCombo::new(ip(1), mac(1)));
    set.push(IpMacCombo::new(ip(2), mac(1)));
    assert!(set.mac_has_multiple_ips(mac(1)));
    assert!(!set.ip_has_multiple_macs(ip(1)));
    assert!(!set.has_multiples_of(ip(1), mac(1)));
}

#[test]
fn associate_consolidation_clears_earlier_macs() {
    // Association removes every record with the IP, the earlier complete
    // record included, so after two associations only the latest MAC
    // remains and no ambiguity is reported.
    let mut set = IpMacSet::new();
    set.push_ip(ip(1));
    set.push_mac(mac(1));
    set.associate_ip_mac(ip(1), mac(1)).unwrap();
    set.push_mac(mac(2));
    set.associate_ip_mac(ip(1), mac(2)).unwrap();
    assert_eq!(set.get_by_ip(ip(1)).len(), 1);
    assert!(!set.ip_has_multiple_macs(ip(1)));
    assert_eq!(set.get(0), Some(IpMacCombo::new(ip(1), mac(2))));
}

#[test]
fn remove_single_position() {
    let mut set = IpMacSet::new();
    set.push_ip(ip(1));
    set.push_ip(ip(2));
    set.push_ip(ip(3));
    let removed = set.remove(1);
    assert_eq!(removed, IpMacCombo::from_ip(ip(2)));
    assert_eq!(set.get(0), Some(IpMacCombo::from_ip(ip(1))));
    assert_eq!(set.get(1), Some(IpMacCombo::from_ip(ip(3))));
    assert!(set.get(2).is_none());
}

#[test]
fn remove_indices_removes_exactly_those_records() {
    let mut set = IpMacSet::new();
    for n in 1..=5 {
        set.push_ip(ip(n));
    }
    let removed = set.remove_indices(vec![1, 3]);
    assert_eq!(
        removed,
        vec![IpMacCombo::from_ip(ip(2)), IpMacCombo::from_ip(ip(4))]
    );
    assert_eq!(set.get(0), Some(IpMacCombo::from_ip(ip(1))));
    assert_eq!(set.get(1), Some(IpMacCombo::from_ip(ip(3))));
    assert_eq!(set.get(2), Some(IpMacCombo::from_ip(ip(5))));
    assert!(set.get(3).is_none());
}

#[test]
fn remove_indices_of_nothing_and_of_everything() {
    let mut set = IpMacSet::new();
    set.push_ip(ip(1));
    set.push_ip(ip(2));
    assert_eq!(set.remove_indices(vec![]), vec![]);
    assert_eq!(set.get_by_ip(ip(1)).len(), 1);
    let removed = set.remove_indices(vec![0, 1]);
    assert_eq!(removed.len(), 2);
    assert!(set.get(0).is_none());
}

#[test]
fn remove_by_ip_removes_all_matches() {
    let mut set = IpMacSet::new();
    set.push_ip(ip(1));
    set.push(IpMacCombo::new(ip(1), mac(1)));
    set.push_ip(ip(2));
    let removed = set.remove_by_ip(ip(1));
    assert_eq!(
        removed,
        vec![IpMacCombo::from_ip(ip(1)), IpMacCombo::new(ip(1), mac(1))]
    );
    assert_eq!(set.get(0), Some(IpMacCombo::from_ip(ip(2))));
    assert!(set.get(1).is_none());
}

#[test]
fn remove_by_mac_removes_all_matches() {
    let mut set = IpMacSet::new();
    set.push_mac(mac(1));
    set.push(IpMacCombo::new(ip(1), mac(1)));
    set.push_mac(mac(2));
    let removed = set.remove_by_mac(mac(1));
    assert_eq!(removed.len(), 2);
    assert_eq!(set.get(0), Some(IpMacCombo::from_mac(mac(2))));
    assert!(set.get(1).is_none());
}

#[test]
fn associate_error_constructor() {
    let e = netdefs::assoc::IPMACAssociateError::new(ip(1), mac(2));
    assert_eq!(e.0, ip(1));
    assert_eq!(e.1, mac(2));
}
