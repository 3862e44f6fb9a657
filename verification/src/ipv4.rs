//! IPv4 header helpers: reading the protocol field.
use vstd::prelude::*;

use crate::layer4::{
    parse_protocol_raw, spec_transport_protocol, TransportProtocol,
    TransportProtocolNotRecognizedError,
};

verus! {

/// Looks the protocol field of an IPv4 header up in the transport-protocol
/// registry; a miss reports the code.
pub fn parse_protocol_field(proto_num: u8) -> (r: Result<
    TransportProtocol,
    TransportProtocolNotRecognizedError,
>)
    ensures
        r == (match spec_transport_protocol(proto_num) {
            Some(p) => Ok::<TransportProtocol, TransportProtocolNotRecognizedError>(p),
            None => Err::<TransportProtocol, TransportProtocolNotRecognizedError>(
                TransportProtocolNotRecognizedError(proto_num),
            ),
        }),
{
    parse_protocol_raw(proto_num)
}

} // verus!
