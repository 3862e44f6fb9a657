//! Network-layer protocol identifiers and their lookup error.
use vstd::prelude::*;

verus! {

/// Error carrying a network-protocol (ethertype) code that has no table entry.
#[derive(Clone, Copy, Debug, PartialEq, Eq, Structural)]
pub struct NetworkProtocolNotRecognizedError(pub u16);

impl NetworkProtocolNotRecognizedError {
    /// Wraps the unrecognized code.
    pub fn new(val: u16) -> (r: NetworkProtocolNotRecognizedError)
        ensures
            r == NetworkProtocolNotRecognizedError(val),
    {
        NetworkProtocolNotRecognizedError(val)
    }
}

/// The closed set of network-layer protocol identifiers.
#[allow(non_camel_case_types)]
#[derive(Clone, Copy, Debug, PartialEq, Eq, Structural, Hash)]
pub enum NetworkProtocol {
    IPv4,
    ARP,
    Wake_on_LAN,
    Reverse_ARP,
    AppleTalk,
    AppleTalk_ARP,
    VLAN_Tagged,
    IPX,
    IPv6,
    Hyper_SCSI,
    ATAoE,
    LLDP,
    MAC_Sec,
    FCoE,
    Double_VLAN_Tagged,
}

impl NetworkProtocol {
    /// The canonical name of the identifier.
    pub open spec fn spec_name(self) -> Seq<char> {
        match self {
            NetworkProtocol::IPv4 => "IPv4"@,
            NetworkProtocol::ARP => "ARP"@,
            NetworkProtocol::Wake_on_LAN => "Wake_on_LAN"@,
            NetworkProtocol::Reverse_ARP => "Reverse_ARP"@,
            NetworkProtocol::AppleTalk => "AppleTalk"@,
            NetworkProtocol::AppleTalk_ARP => "AppleTalk_ARP"@,
            NetworkProtocol::VLAN_Tagged => "VLAN_Tagged"@,
            NetworkProtocol::IPX => "IPX"@,
            NetworkProtocol::IPv6 => "IPv6"@,
            NetworkProtocol::Hyper_SCSI => "Hyper_SCSI"@,
            NetworkProtocol::ATAoE => "ATAoE"@,
            NetworkProtocol::LLDP => "LLDP"@,
            NetworkProtocol::MAC_Sec => "MAC_Sec"@,
            NetworkProtocol::FCoE => "FCoE"@,
            NetworkProtocol::Double_VLAN_Tagged => "Double_VLAN_Tagged"@,
        }
    }

    /// The canonical display name.
    pub fn name(&self) -> (r: &'static str)
        ensures
            r@ == self.spec_name(),
    {
        match self {
            NetworkProtocol::IPv4 => "IPv4",
            NetworkProtocol::ARP => "ARP",
            NetworkProtocol::Wake_on_LAN => "Wake_on_LAN",
            NetworkProtocol::Reverse_ARP => "Reverse_ARP",
            NetworkProtocol::AppleTalk => "AppleTalk",
            NetworkProtocol::AppleTalk_ARP => "AppleTalk_ARP",
            NetworkProtocol::VLAN_Tagged => "VLAN_Tagged",
            NetworkProtocol::IPX => "IPX",
            NetworkProtocol::IPv6 => "IPv6",
            NetworkProtocol::Hyper_SCSI => "Hyper_SCSI",
            NetworkProtocol::ATAoE => "ATAoE",
            NetworkProtocol::LLDP => "LLDP",
            NetworkProtocol::MAC_Sec => "MAC_Sec",
            NetworkProtocol::FCoE => "FCoE",
            NetworkProtocol::Double_VLAN_Tagged => "Double_VLAN_Tagged",
        }
    }
}

} // verus!
