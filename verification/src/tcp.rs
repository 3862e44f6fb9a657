//! TCP definitions: header flag bits, ports and port ranges.
use vstd::prelude::*;

use crate::layer4::TransportProtocol;

verus! {

/// The nine TCP header flags, in canonical low-bit-to-high-bit order.
#[derive(Clone, Copy, Debug, PartialEq, Eq, Structural, Hash)]
pub enum TCPFlag {
    FIN,
    SYN,
    RST,
    PSH,
    ACK,
    URG,
    ECE,
    CWR,
    NS,
}

impl TCPFlag {
    /// The canonical name of the flag.
    pub open spec fn spec_name(self) -> Seq<char> {
        match self {
            TCPFlag::FIN => "FIN"@,
            TCPFlag::SYN => "SYN"@,
            TCPFlag::RST => "RST"@,
            TCPFlag::PSH => "PSH"@,
            TCPFlag::ACK => "ACK"@,
            TCPFlag::URG => "URG"@,
            TCPFlag::ECE => "ECE"@,
            TCPFlag::CWR => "CWR"@,
            TCPFlag::NS => "NS"@,
        }
    }

    /// The canonical display name.
    pub fn name(&self) -> (r: &'static str)
        ensures
            r@ == self.spec_name(),
    {
        match self {
            TCPFlag::FIN => "FIN",
            TCPFlag::SYN => "SYN",
            TCPFlag::RST => "RST",
            TCPFlag::PSH => "PSH",
            TCPFlag::ACK => "ACK",
            TCPFlag::URG => "URG",
            TCPFlag::ECE => "ECE",
            TCPFlag::CWR => "CWR",
            TCPFlag::NS => "NS",
        }
    }
}

/// The bit that carries a flag in the wire-format flag word.
pub open spec fn spec_tcp_flag_bit(f: TCPFlag) -> u16 {
    match f {
        TCPFlag::FIN => 0x1,
        TCPFlag::SYN => 0x2,
        TCPFlag::RST => 0x4,
        TCPFlag::PSH => 0x8,
        TCPFlag::ACK => 0x10,
        TCPFlag::URG => 0x20,
        TCPFlag::ECE => 0x40,
        TCPFlag::CWR => 0x80,
        TCPFlag::NS => 0x100,
    }
}

/// All nine flags in canonical order.
pub open spec fn spec_tcp_flag_order() -> Seq<TCPFlag> {
    seq![
        TCPFlag::FIN,
        TCPFlag::SYN,
        TCPFlag::RST,
        TCPFlag::PSH,
        TCPFlag::ACK,
        TCPFlag::URG,
        TCPFlag::ECE,
        TCPFlag::CWR,
        TCPFlag::NS,
    ]
}

/// Whether the bit that carries a flag is set in `flags`.
pub open spec fn spec_tcp_flag_set(flags: u16) -> spec_fn(TCPFlag) -> bool {
    |f: TCPFlag| (flags & spec_tcp_flag_bit(f)) == spec_tcp_flag_bit(f)
}

/// The flags whose bit is set in `flags`, in canonical order.
pub open spec fn spec_tcp_flags(flags: u16) -> Seq<TCPFlag> {
    spec_tcp_flag_order().filter(spec_tcp_flag_set(flags))
}

/// The bit that carries a flag in the wire-format flag word.
fn tcp_flag_bit(f: TCPFlag) -> (r: u16)
    ensures
        r == spec_tcp_flag_bit(f),
{
    match f {
        TCPFlag::FIN => 0x1,
        TCPFlag::SYN => 0x2,
        TCPFlag::RST => 0x4,
        TCPFlag::PSH => 0x8,
        TCPFlag::ACK => 0x10,
        TCPFlag::URG => 0x20,
        TCPFlag::ECE => 0x40,
        TCPFlag::CWR => 0x80,
        TCPFlag::NS => 0x100,
    }
}

/// All nine flags in canonical order.
pub fn get_tcp_flag_vec() -> (r: Vec<TCPFlag>)
    ensures
        r@ == spec_tcp_flag_order(),
{
    let r = vec![
        TCPFlag::FIN,
        TCPFlag::SYN,
        TCPFlag::RST,
        TCPFlag::PSH,
        TCPFlag::ACK,
        TCPFlag::URG,
        TCPFlag::ECE,
        TCPFlag::CWR,
        TCPFlag::NS,
    ];
    proof {
        assert(r@ =~= spec_tcp_flag_order());
    }
    r
}

/// Decodes a wire-format flag word: a flag is included exactly when its bit
/// is set, and the output is always in canonical order.
pub fn parse_tcp_flags(flags: u16) -> (r: Vec<TCPFlag>)
    ensures
        r@ == spec_tcp_flags(flags),
{
    let order = get_tcp_flag_vec();
    let mut result: Vec<TCPFlag> = Vec::new();
    let ghost pred = spec_tcp_flag_set(flags);
    let mut i: usize = 0;
    while i < order.len()
        invariant
            i <= order@.len(),
            order@ == spec_tcp_flag_order(),
            pred == spec_tcp_flag_set(flags),
            result@ == order@.take(i as int).filter(pred),
        decreases order@.len() - i,
    {
        let f = order[i];
        let bit = tcp_flag_bit(f);
        proof {
            crate::seqtools::lemma_filter_push(order@.take(i as int), f, pred);
            assert(order@.take(i as int + 1) =~= order@.take(i as int).push(f));
            assert(pred(f) == ((flags & spec_tcp_flag_bit(f)) == spec_tcp_flag_bit(f)));
        }
        if flags & bit == bit {
            result.push(f);
        }
        i += 1;
    }
    proof {
        assert(order@.take(order@.len() as int) =~= order@);
    }
    result
}

/// A transport protocol together with one port number.
pub struct TCPPort {
    proto: TransportProtocol,
    port_num: u16,
}

impl TCPPort {
    /// The protocol of the port.
    pub closed spec fn spec_proto(self) -> TransportProtocol {
        self.proto
    }

    /// The port number.
    pub closed spec fn spec_port_num(self) -> u16 {
        self.port_num
    }

    /// Builds a port of the given protocol and number.
    pub fn new(protocol: TransportProtocol, port_num: u16) -> (r: TCPPort)
        ensures
            r.spec_proto() == protocol,
            r.spec_port_num() == port_num,
    {
        TCPPort { proto: protocol, port_num }
    }

    /// The protocol of the port.
    pub fn get_proto(&self) -> (r: TransportProtocol)
        ensures
            r == self.spec_proto(),
    {
        self.proto
    }

    /// The port number.
    pub fn get_port_num(&self) -> (r: u16)
        ensures
            r == self.spec_port_num(),
    {
        self.port_num
    }
}

/// A transport protocol together with an inclusive range of port numbers.
pub struct TCPPortRange {
    proto: TransportProtocol,
    port_num1: u16,
    port_num2: u16,
}

impl TCPPortRange {
    /// The protocol of the range.
    pub closed spec fn spec_proto(self) -> TransportProtocol {
        self.proto
    }

    /// The lower bound of the range.
    pub closed spec fn spec_first_port_num(self) -> u16 {
        self.port_num1
    }

    /// The upper bound of the range.
    pub closed spec fn spec_second_port_num(self) -> u16 {
        self.port_num2
    }

    /// Builds a range; the first port number must not exceed the second.
    pub fn new(proto: TransportProtocol, first_port_num: u16, second_port_num: u16) -> (r:
        TCPPortRange)
        requires
            first_port_num <= second_port_num,
        ensures
            r.spec_proto() == proto,
            r.spec_first_port_num() == first_port_num,
            r.spec_second_port_num() == second_port_num,
    {
        TCPPortRange { proto, port_num1: first_port_num, port_num2: second_port_num }
    }

    /// The protocol of the range.
    pub fn get_protocol(&self) -> (r: TransportProtocol)
        ensures
            r == self.spec_proto(),
    {
        self.proto
    }

    /// The lower bound of the range.
    pub fn get_first_port_num(&self) -> (r: u16)
        ensures
            r == self.spec_first_port_num(),
    {
        self.port_num1
    }

    /// The upper bound of the range.
    pub fn get_second_port_num(&self) -> (r: u16)
        ensures
            r == self.spec_second_port_num(),
    {
        self.port_num2
    }

    /// A port lies in the range when its protocol matches and its number is
    /// between the bounds, inclusive.
    pub fn is_in_range(&self, port: TCPPort) -> (r: bool)
        ensures
            r == (port.spec_proto() == self.spec_proto() && self.spec_first_port_num()
                <= port.spec_port_num() <= self.spec_second_port_num()),
    {
        port.get_proto() == self.proto && port.get_port_num() <= self.port_num2
            && port.get_port_num() >= self.port_num1
    }
}

} // verus!
