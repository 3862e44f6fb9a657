use netdefs::ethernet::parse_ethertype;
use netdefs::icmp::{parse_icmp_control_msg, ICMPControlMessage};
use netdefs::ipv4::parse_protocol_field;
use netdefs::layer3::NetworkProtocol;
use netdefs::layer4::{parse_protocol_raw, TransportProtocol};

#[test]
fn it_works() {
}

#[test]
fn ethertype_declared_codes() {
    assert_eq!(parse_ethertype(0x0800).unwrap(), NetworkProtocol::IPv4);
    assert_eq!(parse_ethertype(0x0806).unwrap(), NetworkProtocol::ARP);
    assert_eq!(parse_ethertype(0x0842).unwrap(), NetworkProtocol::Wake_on_LAN);
    assert_eq!(parse_ethertype(0x8035).unwrap(), NetworkProtocol::Reverse_ARP);
    assert_eq!(parse_ethertype(0x809B).unwrap(), NetworkProtocol::AppleTalk);
    assert_eq!(parse_ethertype(0x80F3).unwrap(), NetworkProtocol::AppleTalk_ARP);
    assert_eq!(parse_ethertype(0x8100).unwrap(), NetworkProtocol::VLAN_Tagged);
    assert_eq!(parse_ethertype(0x8137).unwrap(), NetworkProtocol::IPX);
    assert_eq!(parse_ethertype(0x86DD).unwrap(), NetworkProtocol::IPv6);
    assert_eq!(parse_ethertype(0x889A).unwrap(), NetworkProtocol::Hyper_SCSI);
    assert_eq!(parse_ethertype(0x88A2).unwrap(), NetworkProtocol::ATAoE);
    assert_eq!(parse_ethertype(0x88A8).unwrap(), NetworkProtocol::Double_VLAN_Tagged);
    assert_eq!(parse_ethertype(0x88CC).unwrap(), NetworkProtocol::LLDP);
    assert_eq!(parse_ethertype(0x88E5).unwrap(), NetworkProtocol::MAC_Sec);
    assert_eq!(parse_ethertype(0x8906).unwrap(), NetworkProtocol::FCoE);
}

#[test]
fn ethertype_miss_carries_code() {
    let e = parse_ethertype(0x1234).unwrap_err();
    assert_eq!(e.0, 0x1234);
    let e = parse_ethertype(0x0000).unwrap_err();
    assert_eq!(e.0, 0x0000);
}

#[test]
fn transport_protocol_declared_codes() {
    assert_eq!(parse_protocol_raw(0x00).unwrap(), TransportProtocol::HOPOPT);
    assert_eq!(parse_protocol_raw(0x01).unwrap(), TransportProtocol::ICMP);
    assert_eq!(parse_protocol_raw(0x04).unwrap(), TransportProtocol::IP_in_IP);
    assert_eq!(parse_protocol_raw(0x06).unwrap(), TransportProtocol::TCP);
    assert_eq!(parse_protocol_raw(0x11).unwrap(), TransportProtocol::UDP);
    assert_eq!(parse_protocol_raw(0x29).unwrap(), TransportProtocol::IPv6);
    assert_eq!(parse_protocol_raw(0x3A).unwrap(), TransportProtocol::IPv6_ICMP);
    assert_eq!(parse_protocol_raw(0x84).unwrap(), TransportProtocol::SCTP);
    assert_eq!(parse_protocol_raw(0x85).unwrap(), TransportProtocol::FC);
}

#[test]
fn transport_protocol_miss_carries_code() {
    let e = parse_protocol_raw(0x02).unwrap_err();
    assert_eq!(e.0, 0x02);
    let e = parse_protocol_raw(0xFF).unwrap_err();
    assert_eq!(e.0, 0xFF);
}

#[test]
fn protocol_field_matches_raw_parse() {
    assert_eq!(parse_protocol_field(0x06).unwrap(), TransportProtocol::TCP);
    assert_eq!(parse_protocol_field(0x11).unwrap(), TransportProtocol::UDP);
    let e = parse_protocol_field(0x7F).unwrap_err();
    assert_eq!(e.0, 0x7F);
}

#[test]
fn icmp_declared_codes() {
    assert_eq!(parse_icmp_control_msg(0x0000).unwrap(), ICMPControlMessage::ECHO_REPLY);
    assert_eq!(
        parse_icmp_control_msg(0x0301).unwrap(),
        ICMPControlMessage::DEST_UNREACHABLE_HOST_UNREACHABLE
    );
    assert_eq!(parse_icmp_control_msg(0x0800).unwrap(), ICMPControlMessage::ECHO);
    assert_eq!(parse_icmp_control_msg(0x0B00).unwrap(), ICMPControlMessage::TIME_EXCEEDED_TTL_IN_TRANSIT);
    assert_eq!(parse_icmp_control_msg(0x2805).unwrap(), ICMPControlMessage::PHOTURIS_NEED_AUTHORIZATION);
}

#[test]
fn icmp_miss_carries_code() {
    let e = parse_icmp_control_msg(0xFFFF).unwrap_err();
    assert_eq!(e.0, 0xFFFF);
    let e = parse_icmp_control_msg(0x0910 + 1).unwrap_err();
    assert_eq!(e.0, 0x0911);
}

#[test]
fn canonical_names() {
    assert_eq!(parse_ethertype(0x0800).unwrap().name(), "IPv4");
    assert_eq!(parse_ethertype(0x88A8).unwrap().name(), "Double_VLAN_Tagged");
    assert_eq!(parse_protocol_raw(0x06).unwrap().name(), "TCP");
    assert_eq!(
        parse_icmp_control_msg(0x0304).unwrap().name(),
        "DEST_UNREACHABLE_FRAG_BUT_DONT_FRAG"
    );
}

#[test]
fn error_constructors_carry_code() {
    let e = netdefs::layer3::NetworkProtocolNotRecognizedError::new(0xABCD);
    assert_eq!(e.0, 0xABCD);
    let e = netdefs::layer4::TransportProtocolNotRecognizedError::new(0x99);
    assert_eq!(e.0, 0x99);
    let e = netdefs::icmp::ICMPControlMessageNotRecognizedError::new(0x1234);
    assert_eq!(e.0, 0x1234);
}
