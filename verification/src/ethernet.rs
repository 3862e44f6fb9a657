//! Link-layer definitions: the ethertype registry over the
//! network-layer identifiers.
use vstd::prelude::*;

use crate::layer3::{NetworkProtocol, NetworkProtocolNotRecognizedError};

verus! {

/// The ethertype table: the identifier declared for each recognized code.
pub open spec fn spec_ethertype(code: u16) -> Option<NetworkProtocol> {
    if code == 0x0800 {
        Some(NetworkProtocol::IPv4)
    } else if code == 0x0806 {
        Some(NetworkProtocol::ARP)
    } else if code == 0x0842 {
        Some(NetworkProtocol::Wake_on_LAN)
    } else if code == 0x8035 {
        Some(NetworkProtocol::Reverse_ARP)
    } else if code == 0x809B {
        Some(NetworkProtocol::AppleTalk)
    } else if code == 0x80F3 {
        Some(NetworkProtocol::AppleTalk_ARP)
    } else if code == 0x8100 {
        Some(NetworkProtocol::VLAN_Tagged)
    } else if code == 0x8137 {
        Some(NetworkProtocol::IPX)
    } else if code == 0x86DD {
        Some(NetworkProtocol::IPv6)
    } else if code == 0x889A {
        Some(NetworkProtocol::Hyper_SCSI)
    } else if code == 0x88A2 {
        Some(NetworkProtocol::ATAoE)
    } else if code == 0x88A8 {
        Some(NetworkProtocol::Double_VLAN_Tagged)
    } else if code == 0x88CC {
        Some(NetworkProtocol::LLDP)
    } else if code == 0x88E5 {
        Some(NetworkProtocol::MAC_Sec)
    } else if code == 0x8906 {
        Some(NetworkProtocol::FCoE)
    } else {
        None
    }
}

/// Looks an ethertype up in the registry; a miss reports the code.
pub fn parse_ethertype(code: u16) -> (r: Result<NetworkProtocol, NetworkProtocolNotRecognizedError>)
    ensures
        r == (match spec_ethertype(code) {
            Some(p) => Ok::<NetworkProtocol, NetworkProtocolNotRecognizedError>(p),
            None => Err::<NetworkProtocol, NetworkProtocolNotRecognizedError>(NetworkProtocolNotRecognizedError(code)),
        }),
{
    if code == 0x0800 {
        Ok(NetworkProtocol::IPv4)
    } else if code == 0x0806 {
        Ok(NetworkProtocol::ARP)
    } else if code == 0x0842 {
        Ok(NetworkProtocol::Wake_on_LAN)
    } else if code == 0x8035 {
        Ok(NetworkProtocol::Reverse_ARP)
    } else if code == 0x809B {
        Ok(NetworkProtocol::AppleTalk)
    } else if code == 0x80F3 {
        Ok(NetworkProtocol::AppleTalk_ARP)
    } else if code == 0x8100 {
        Ok(NetworkProtocol::VLAN_Tagged)
    } else if code == 0x8137 {
        Ok(NetworkProtocol::IPX)
    } else if code == 0x86DD {
        Ok(NetworkProtocol::IPv6)
    } else if code == 0x889A {
        Ok(NetworkProtocol::Hyper_SCSI)
    } else if code == 0x88A2 {
        Ok(NetworkProtocol::ATAoE)
    } else if code == 0x88A8 {
        Ok(NetworkProtocol::Double_VLAN_Tagged)
    } else if code == 0x88CC {
        Ok(NetworkProtocol::LLDP)
    } else if code == 0x88E5 {
        Ok(NetworkProtocol::MAC_Sec)
    } else if code == 0x8906 {
        Ok(NetworkProtocol::FCoE)
    } else {
        Err(NetworkProtocolNotRecognizedError(code))
    }
}

} // verus!
