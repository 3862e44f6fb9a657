//! Transport-layer protocol identifiers, their registry and lookup.
use vstd::prelude::*;

verus! {

/// Error carrying a transport-protocol code that has no table entry.
#[derive(Clone, Copy, Debug, PartialEq, Eq, Structural)]
pub struct TransportProtocolNotRecognizedError(pub u8);

impl TransportProtocolNotRecognizedError {
    /// Wraps the unrecognized code.
    pub fn new(val: u8) -> (r: TransportProtocolNotRecognizedError)
        ensures
            r == TransportProtocolNotRecognizedError(val),
    {
        TransportProtocolNotRecognizedError(val)
    }
}

/// The closed set of transport-layer protocol identifiers.
#[allow(non_camel_case_types)]
#[derive(Clone, Copy, Debug, PartialEq, Eq, Structural, Hash)]
pub enum TransportProtocol {
    HOPOPT,
    ICMP,
    IP_in_IP,
    TCP,
    EGP,
    IGP,
    UDP,
    IPv6,
    IPv6_Route,
    IPv6_Frag,
    IPv6_ICMP,
    IPv6_NoNxt,
    IPv6_Opts,
    SCTP,
    FC,
}

impl TransportProtocol {
    /// The canonical name of the identifier.
    pub open spec fn spec_name(self) -> Seq<char> {
        match self {
            TransportProtocol::HOPOPT => "HOPOPT"@,
            TransportProtocol::ICMP => "ICMP"@,
            TransportProtocol::IP_in_IP => "IP_in_IP"@,
            TransportProtocol::TCP => "TCP"@,
            TransportProtocol::EGP => "EGP"@,
            TransportProtocol::IGP => "IGP"@,
            TransportProtocol::UDP => "UDP"@,
            TransportProtocol::IPv6 => "IPv6"@,
            TransportProtocol::IPv6_Route => "IPv6_Route"@,
            TransportProtocol::IPv6_Frag => "IPv6_Frag"@,
            TransportProtocol::IPv6_ICMP => "IPv6_ICMP"@,
            TransportProtocol::IPv6_NoNxt => "IPv6_NoNxt"@,
            TransportProtocol::IPv6_Opts => "IPv6_Opts"@,
            TransportProtocol::SCTP => "SCTP"@,
            TransportProtocol::FC => "FC"@,
        }
    }

    /// The canonical display name.
    pub fn name(&self) -> (r: &'static str)
        ensures
            r@ == self.spec_name(),
    {
        match self {
            TransportProtocol::HOPOPT => "HOPOPT",
            TransportProtocol::ICMP => "ICMP",
            TransportProtocol::IP_in_IP => "IP_in_IP",
            TransportProtocol::TCP => "TCP",
            TransportProtocol::EGP => "EGP",
            TransportProtocol::IGP => "IGP",
            TransportProtocol::UDP => "UDP",
            TransportProtocol::IPv6 => "IPv6",
            TransportProtocol::IPv6_Route => "IPv6_Route",
            TransportProtocol::IPv6_Frag => "IPv6_Frag",
            TransportProtocol::IPv6_ICMP => "IPv6_ICMP",
            TransportProtocol::IPv6_NoNxt => "IPv6_NoNxt",
            TransportProtocol::IPv6_Opts => "IPv6_Opts",
            TransportProtocol::SCTP => "SCTP",
            TransportProtocol::FC => "FC",
        }
    }
}

/// The protocol-number table: the identifier declared for each recognized code.
pub open spec fn spec_transport_protocol(code: u8) -> Option<TransportProtocol> {
    if code == 0x00 {
        Some(TransportProtocol::HOPOPT)
    } else if code == 0x01 {
        Some(TransportProtocol::ICMP)
    } else if code == 0x04 {
        Some(TransportProtocol::IP_in_IP)
    } else if code == 0x06 {
        Some(TransportProtocol::TCP)
    } else if code == 0x08 {
        Some(TransportProtocol::EGP)
    } else if code == 0x09 {
        Some(TransportProtocol::IGP)
    } else if code == 0x11 {
        Some(TransportProtocol::UDP)
    } else if code == 0x29 {
        Some(TransportProtocol::IPv6)
    } else if code == 0x2B {
        Some(TransportProtocol::IPv6_Route)
    } else if code == 0x2C {
        Some(TransportProtocol::IPv6_Frag)
    } else if code == 0x3A {
        Some(TransportProtocol::IPv6_ICMP)
    } else if code == 0x3B {
        Some(TransportProtocol::IPv6_NoNxt)
    } else if code == 0x3C {
        Some(TransportProtocol::IPv6_Opts)
    } else if code == 0x84 {
        Some(TransportProtocol::SCTP)
    } else if code == 0x85 {
        Some(TransportProtocol::FC)
    } else {
        None
    }
}

/// Looks a raw protocol number up in the registry; a miss reports the code.
pub fn parse_protocol_raw(code: u8) -> (r: Result<TransportProtocol, TransportProtocolNotRecognizedError>)
    ensures
        r == (match spec_transport_protocol(code) {
            Some(p) => Ok::<TransportProtocol, TransportProtocolNotRecognizedError>(p),
            None => Err::<TransportProtocol, TransportProtocolNotRecognizedError>(TransportProtocolNotRecognizedError(code)),
        }),
{
    if code == 0x00 {
        Ok(TransportProtocol::HOPOPT)
    } else if code == 0x01 {
        Ok(TransportProtocol::ICMP)
    } else if code == 0x04 {
        Ok(TransportProtocol::IP_in_IP)
    } else if code == 0x06 {
        Ok(TransportProtocol::TCP)
    } else if code == 0x08 {
        Ok(TransportProtocol::EGP)
    } else if code == 0x09 {
        Ok(TransportProtocol::IGP)
    } else if code == 0x11 {
        Ok(TransportProtocol::UDP)
    } else if code == 0x29 {
        Ok(TransportProtocol::IPv6)
    } else if code == 0x2B {
        Ok(TransportProtocol::IPv6_Route)
    } else if code == 0x2C {
        Ok(TransportProtocol::IPv6_Frag)
    } else if code == 0x3A {
        Ok(TransportProtocol::IPv6_ICMP)
    } else if code == 0x3B {
        Ok(TransportProtocol::IPv6_NoNxt)
    } else if code == 0x3C {
        Ok(TransportProtocol::IPv6_Opts)
    } else if code == 0x84 {
        Ok(TransportProtocol::SCTP)
    } else if code == 0x85 {
        Ok(TransportProtocol::FC)
    } else {
        Err(TransportProtocolNotRecognizedError(code))
    }
}

} // verus!
