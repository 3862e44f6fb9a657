use netdefs::layer4::TransportProtocol;
use netdefs::tcp::{get_tcp_flag_vec, parse_tcp_flags, TCPFlag, TCPPort, TCPPortRange};

#[test]
fn single_low_bit_is_fin() {
    assert_eq!(parse_tcp_flags(0b1), vec![TCPFlag::FIN]);
}

#[test]
fn two_low_bits_are_fin_syn() {
    assert_eq!(parse_tcp_flags(0b11), vec![TCPFlag::FIN, TCPFlag::SYN]);
}

#[test]
fn zero_yields_no_flags() {
    assert_eq!(parse_tcp_flags(0), Vec::<TCPFlag>::new());
}

#[test]
fn all_nine_bits_yield_canonical_order() {
    assert_eq!(
        parse_tcp_flags(0x1FF),
        vec![
            TCPFlag::FIN,
            TCPFlag::SYN,
            TCPFlag::RST,
            TCPFlag::PSH,
            TCPFlag::ACK,
            TCPFlag::URG,
            TCPFlag::ECE,
            TCPFlag::CWR,
            TCPFlag::NS,
        ]
    );
}

#[test]
fn bits_beyond_the_ninth_are_ignored() {
    assert_eq!(parse_tcp_flags(0x200), Vec::<TCPFlag>::new());
    assert_eq!(parse_tcp_flags(0xFE00), Vec::<TCPFlag>::new());
    assert_eq!(parse_tcp_flags(0x0204), vec![TCPFlag::RST]);
}

#[test]
fn scattered_bits_keep_canonical_order() {
    assert_eq!(
        parse_tcp_flags(0b100010010),
        vec![TCPFlag::SYN, TCPFlag::ACK, TCPFlag::NS]
    );
}

#[test]
fn flag_vec_lists_all_flags_in_order() {
    let v = get_tcp_flag_vec();
    assert_eq!(
        v,
        vec![
            TCPFlag::FIN,
            TCPFlag::SYN,
            TCPFlag::RST,
            TCPFlag::PSH,
            TCPFlag::ACK,
            TCPFlag::URG,
            TCPFlag::ECE,
            TCPFlag::CWR,
            TCPFlag::NS,
        ]
    );
}

#[test]
fn flag_names() {
    assert_eq!(TCPFlag::FIN.name(), "FIN");
    assert_eq!(TCPFlag::NS.name(), "NS");
}

#[test]
fn tcp_port_accessors() {
    let p = TCPPort::new(TransportProtocol::TCP, 443);
    assert_eq!(p.get_proto(), TransportProtocol::TCP);
    assert_eq!(p.get_port_num(), 443);
}

#[test]
fn tcp_port_range_accessors() {
    let r = TCPPortRange::new(TransportProtocol::UDP, 1000, 2000);
    assert_eq!(r.get_protocol(), TransportProtocol::UDP);
    assert_eq!(r.get_first_port_num(), 1000);
    assert_eq!(r.get_second_port_num(), 2000);
}

#[test]
fn port_range_membership() {
    let r = TCPPortRange::new(TransportProtocol::TCP, 1000, 2000);
    assert!(r.is_in_range(TCPPort::new(TransportProtocol::TCP, 1000)));
    assert!(r.is_in_range(TCPPort::new(TransportProtocol::TCP, 1500)));
    assert!(r.is_in_range(TCPPort::new(TransportProtocol::TCP, 2000)));
    assert!(!r.is_in_range(TCPPort::new(TransportProtocol::TCP, 999)));
    assert!(!r.is_in_range(TCPPort::new(TransportProtocol::TCP, 2001)));
    assert!(!r.is_in_range(TCPPort::new(TransportProtocol::UDP, 1500)));
}
