//! ICMP control-message identifiers, their registry and lookup.
use vstd::prelude::*;

verus! {

/// Error carrying a control-message code that has no table entry.
#[derive(Clone, Copy, Debug, PartialEq, Eq, Structural)]
pub struct ICMPControlMessageNotRecognizedError(pub u16);

impl ICMPControlMessageNotRecognizedError {
    /// Wraps the unrecognized code.
    pub fn new(val: u16) -> (r: ICMPControlMessageNotRecognizedError)
        ensures
            r == ICMPControlMessageNotRecognizedError(val),
    {
        ICMPControlMessageNotRecognizedError(val)
    }
}

/// The closed set of ICMP control-message identifiers.
#[allow(non_camel_case_types)]
#[derive(Clone, Copy, Debug, PartialEq, Eq, Structural, Hash)]
pub enum ICMPControlMessage {
    ECHO_REPLY,
    DEST_UNREACHABLE_NET_UNREACHABLE,
    DEST_UNREACHABLE_HOST_UNREACHABLE,
    DEST_UNREACHABLE_PROTO_UNREACHABLE,
    DEST_UNREACHABLE_PORT_UNREACHABLE,
    DEST_UNREACHABLE_FRAG_BUT_DONT_FRAG,
    DEST_UNREACHABLE_SRC_ROUTE_FAIL,
    DEST_UNREACHABLE_DEST_NET_UNKNOWN,
    DEST_UNREACHABLE_DEST_HOST_UNKNOWN,
    DEST_UNREACHABLE_SRC_HOST_ISOLATED,
    DEST_UNREACHABLE_DEST_NET_ADMIN_DENIED,
    DEST_UNREACHABLE_DEST_HOST_ADMIN_DENIED,
    DEST_UNREACHABLE_DEST_NET_TOS_UNREACHABLE,
    DEST_UNREACHABLE_DEST_HOST_TOS_UNREACHABLE,
    DEST_UNREACHABLE_COMM_ADMIN_DENIED,
    DEST_UNREACHABLE_HOST_PRECEDENCE_VIOLATION,
    DEST_UNREACHABLE_PRECEDENCE_CUTOFF,
    SOURCE_QUENCH,
    REDIRECT_FOR_NET,
    REDIRECT_FOR_HOST,
    REDIRECT_FOR_TOS_AND_NET,
    REDIRECT_FOR_TOS_AND_HOST,
    ECHO,
    ROUTER_ADVERT_NORMAL,
    ROUTER_ADVERT_NOT_COMMON,
    ROUTER_SOLICIT,
    TIME_EXCEEDED_TTL_IN_TRANSIT,
    TIME_EXCEEDED_FRAG_REASSY_TIME,
    PARAM_PROBLEM_PTR_ERROR,
    PARAM_PROBLEM_MISSING_REQ_OPT,
    PARAM_PROBLEM_BAD_LENGTH,
    TIMESTAMP,
    TIMESTAMP_REPLY,
    INFO_REQUEST,
    INFO_REPLY,
    PHOTURIS_BAD_SPI,
    PHOTURIS_AUTHENTICATION_FAIL,
    PHOTURIS_DECOMPRESS_FAIL,
    PHOTURIS_DECRYPTION_FAIL,
    PHOTURIS_NEED_AUTHENTICATION,
    PHOTURIS_NEED_AUTHORIZATION,
}

impl ICMPControlMessage {
    /// The canonical name of the identifier.
    pub open spec fn spec_name(self) -> Seq<char> {
        match self {
            ICMPControlMessage::ECHO_REPLY => "ECHO_REPLY"@,
            ICMPControlMessage::DEST_UNREACHABLE_NET_UNREACHABLE => "DEST_UNREACHABLE_NET_UNREACHABLE"@,
            ICMPControlMessage::DEST_UNREACHABLE_HOST_UNREACHABLE => "DEST_UNREACHABLE_HOST_UNREACHABLE"@,
            ICMPControlMessage::DEST_UNREACHABLE_PROTO_UNREACHABLE => "DEST_UNREACHABLE_PROTO_UNREACHABLE"@,
            ICMPControlMessage::DEST_UNREACHABLE_PORT_UNREACHABLE => "DEST_UNREACHABLE_PORT_UNREACHABLE"@,
            ICMPControlMessage::DEST_UNREACHABLE_FRAG_BUT_DONT_FRAG => "DEST_UNREACHABLE_FRAG_BUT_DONT_FRAG"@,
            ICMPControlMessage::DEST_UNREACHABLE_SRC_ROUTE_FAIL => "DEST_UNREACHABLE_SRC_ROUTE_FAIL"@,
            ICMPControlMessage::DEST_UNREACHABLE_DEST_NET_UNKNOWN => "DEST_UNREACHABLE_DEST_NET_UNKNOWN"@,
            ICMPControlMessage::DEST_UNREACHABLE_DEST_HOST_UNKNOWN => "DEST_UNREACHABLE_DEST_HOST_UNKNOWN"@,
            ICMPControlMessage::DEST_UNREACHABLE_SRC_HOST_ISOLATED => "DEST_UNREACHABLE_SRC_HOST_ISOLATED"@,
            ICMPControlMessage::DEST_UNREACHABLE_DEST_NET_ADMIN_DENIED => "DEST_UNREACHABLE_DEST_NET_ADMIN_DENIED"@,
            ICMPControlMessage::DEST_UNREACHABLE_DEST_HOST_ADMIN_DENIED => "DEST_UNREACHABLE_DEST_HOST_ADMIN_DENIED"@,
            ICMPControlMessage::DEST_UNREACHABLE_DEST_NET_TOS_UNREACHABLE => "DEST_UNREACHABLE_DEST_NET_TOS_UNREACHABLE"@,
            ICMPControlMessage::DEST_UNREACHABLE_DEST_HOST_TOS_UNREACHABLE => "DEST_UNREACHABLE_DEST_HOST_TOS_UNREACHABLE"@,
            ICMPControlMessage::DEST_UNREACHABLE_COMM_ADMIN_DENIED => "DEST_UNREACHABLE_COMM_ADMIN_DENIED"@,
            ICMPControlMessage::DEST_UNREACHABLE_HOST_PRECEDENCE_VIOLATION => "DEST_UNREACHABLE_HOST_PRECEDENCE_VIOLATION"@,
            ICMPControlMessage::DEST_UNREACHABLE_PRECEDENCE_CUTOFF => "DEST_UNREACHABLE_PRECEDENCE_CUTOFF"@,
            ICMPControlMessage::SOURCE_QUENCH => "SOURCE_QUENCH"@,
            ICMPControlMessage::REDIRECT_FOR_NET => "REDIRECT_FOR_NET"@,
            ICMPControlMessage::REDIRECT_FOR_HOST => "REDIRECT_FOR_HOST"@,
            ICMPControlMessage::REDIRECT_FOR_TOS_AND_NET => "REDIRECT_FOR_TOS_AND_NET"@,
            ICMPControlMessage::REDIRECT_FOR_TOS_AND_HOST => "REDIRECT_FOR_TOS_AND_HOST"@,
            ICMPControlMessage::ECHO => "ECHO"@,
            ICMPControlMessage::ROUTER_ADVERT_NORMAL => "ROUTER_ADVERT_NORMAL"@,
            ICMPControlMessage::ROUTER_ADVERT_NOT_COMMON => "ROUTER_ADVERT_NOT_COMMON"@,
            ICMPControlMessage::ROUTER_SOLICIT => "ROUTER_SOLICIT"@,
            ICMPControlMessage::TIME_EXCEEDED_TTL_IN_TRANSIT => "TIME_EXCEEDED_TTL_IN_TRANSIT"@,
            ICMPControlMessage::TIME_EXCEEDED_FRAG_REASSY_TIME => "TIME_EXCEEDED_FRAG_REASSY_TIME"@,
            ICMPControlMessage::PARAM_PROBLEM_PTR_ERROR => "PARAM_PROBLEM_PTR_ERROR"@,
            ICMPControlMessage::PARAM_PROBLEM_MISSING_REQ_OPT => "PARAM_PROBLEM_MISSING_REQ_OPT"@,
            ICMPControlMessage::PARAM_PROBLEM_BAD_LENGTH => "PARAM_PROBLEM_BAD_LENGTH"@,
            ICMPControlMessage::TIMESTAMP => "TIMESTAMP"@,
            ICMPControlMessage::TIMESTAMP_REPLY => "TIMESTAMP_REPLY"@,
            ICMPControlMessage::INFO_REQUEST => "INFO_REQUEST"@,
            ICMPControlMessage::INFO_REPLY => "INFO_REPLY"@,
            ICMPControlMessage::PHOTURIS_BAD_SPI => "PHOTURIS_BAD_SPI"@,
            ICMPControlMessage::PHOTURIS_AUTHENTICATION_FAIL => "PHOTURIS_AUTHENTICATION_FAIL"@,
            ICMPControlMessage::PHOTURIS_DECOMPRESS_FAIL => "PHOTURIS_DECOMPRESS_FAIL"@,
            ICMPControlMessage::PHOTURIS_DECRYPTION_FAIL => "PHOTURIS_DECRYPTION_FAIL"@,
            ICMPControlMessage::PHOTURIS_NEED_AUTHENTICATION => "PHOTURIS_NEED_AUTHENTICATION"@,
            ICMPControlMessage::PHOTURIS_NEED_AUTHORIZATION => "PHOTURIS_NEED_AUTHORIZATION"@,
        }
    }

    /// The canonical display name.
    pub fn name(&self) -> (r: &'static str)
        ensures
            r@ == self.spec_name(),
    {
        match self {
            ICMPControlMessage::ECHO_REPLY => "ECHO_REPLY",
            ICMPControlMessage::DEST_UNREACHABLE_NET_UNREACHABLE => "DEST_UNREACHABLE_NET_UNREACHABLE",
            ICMPControlMessage::DEST_UNREACHABLE_HOST_UNREACHABLE => "DEST_UNREACHABLE_HOST_UNREACHABLE",
            ICMPControlMessage::DEST_UNREACHABLE_PROTO_UNREACHABLE => "DEST_UNREACHABLE_PROTO_UNREACHABLE",
            ICMPControlMessage::DEST_UNREACHABLE_PORT_UNREACHABLE => "DEST_UNREACHABLE_PORT_UNREACHABLE",
            ICMPControlMessage::DEST_UNREACHABLE_FRAG_BUT_DONT_FRAG => "DEST_UNREACHABLE_FRAG_BUT_DONT_FRAG",
            ICMPControlMessage::DEST_UNREACHABLE_SRC_ROUTE_FAIL => "DEST_UNREACHABLE_SRC_ROUTE_FAIL",
            ICMPControlMessage::DEST_UNREACHABLE_DEST_NET_UNKNOWN => "DEST_UNREACHABLE_DEST_NET_UNKNOWN",
            ICMPControlMessage::DEST_UNREACHABLE_DEST_HOST_UNKNOWN => "DEST_UNREACHABLE_DEST_HOST_UNKNOWN",
            ICMPControlMessage::DEST_UNREACHABLE_SRC_HOST_ISOLATED => "DEST_UNREACHABLE_SRC_HOST_ISOLATED",
            ICMPControlMessage::DEST_UNREACHABLE_DEST_NET_ADMIN_DENIED => "DEST_UNREACHABLE_DEST_NET_ADMIN_DENIED",
            ICMPControlMessage::DEST_UNREACHABLE_DEST_HOST_ADMIN_DENIED => "DEST_UNREACHABLE_DEST_HOST_ADMIN_DENIED",
            ICMPControlMessage::DEST_UNREACHABLE_DEST_NET_TOS_UNREACHABLE => "DEST_UNREACHABLE_DEST_NET_TOS_UNREACHABLE",
            ICMPControlMessage::DEST_UNREACHABLE_DEST_HOST_TOS_UNREACHABLE => "DEST_UNREACHABLE_DEST_HOST_TOS_UNREACHABLE",
            ICMPControlMessage::DEST_UNREACHABLE_COMM_ADMIN_DENIED => "DEST_UNREACHABLE_COMM_ADMIN_DENIED",
            ICMPControlMessage::DEST_UNREACHABLE_HOST_PRECEDENCE_VIOLATION => "DEST_UNREACHABLE_HOST_PRECEDENCE_VIOLATION",
            ICMPControlMessage::DEST_UNREACHABLE_PRECEDENCE_CUTOFF => "DEST_UNREACHABLE_PRECEDENCE_CUTOFF",
            ICMPControlMessage::SOURCE_QUENCH => "SOURCE_QUENCH",
            ICMPControlMessage::REDIRECT_FOR_NET => "REDIRECT_FOR_NET",
            ICMPControlMessage::REDIRECT_FOR_HOST => "REDIRECT_FOR_HOST",
            ICMPControlMessage::REDIRECT_FOR_TOS_AND_NET => "REDIRECT_FOR_TOS_AND_NET",
            ICMPControlMessage::REDIRECT_FOR_TOS_AND_HOST => "REDIRECT_FOR_TOS_AND_HOST",
            ICMPControlMessage::ECHO => "ECHO",
            ICMPControlMessage::ROUTER_ADVERT_NORMAL => "ROUTER_ADVERT_NORMAL",
            ICMPControlMessage::ROUTER_ADVERT_NOT_COMMON => "ROUTER_ADVERT_NOT_COMMON",
            ICMPControlMessage::ROUTER_SOLICIT => "ROUTER_SOLICIT",
            ICMPControlMessage::TIME_EXCEEDED_TTL_IN_TRANSIT => "TIME_EXCEEDED_TTL_IN_TRANSIT",
            ICMPControlMessage::TIME_EXCEEDED_FRAG_REASSY_TIME => "TIME_EXCEEDED_FRAG_REASSY_TIME",
            ICMPControlMessage::PARAM_PROBLEM_PTR_ERROR => "PARAM_PROBLEM_PTR_ERROR",
            ICMPControlMessage::PARAM_PROBLEM_MISSING_REQ_OPT => "PARAM_PROBLEM_MISSING_REQ_OPT",
            ICMPControlMessage::PARAM_PROBLEM_BAD_LENGTH => "PARAM_PROBLEM_BAD_LENGTH",
            ICMPControlMessage::TIMESTAMP => "TIMESTAMP",
            ICMPControlMessage::TIMESTAMP_REPLY => "TIMESTAMP_REPLY",
            ICMPControlMessage::INFO_REQUEST => "INFO_REQUEST",
            ICMPControlMessage::INFO_REPLY => "INFO_REPLY",
            ICMPControlMessage::PHOTURIS_BAD_SPI => "PHOTURIS_BAD_SPI",
            ICMPControlMessage::PHOTURIS_AUTHENTICATION_FAIL => "PHOTURIS_AUTHENTICATION_FAIL",
            ICMPControlMessage::PHOTURIS_DECOMPRESS_FAIL => "PHOTURIS_DECOMPRESS_FAIL",
            ICMPControlMessage::PHOTURIS_DECRYPTION_FAIL => "PHOTURIS_DECRYPTION_FAIL",
            ICMPControlMessage::PHOTURIS_NEED_AUTHENTICATION => "PHOTURIS_NEED_AUTHENTICATION",
            ICMPControlMessage::PHOTURIS_NEED_AUTHORIZATION => "PHOTURIS_NEED_AUTHORIZATION",
        }
    }
}

/// The control-message table, keyed by type and code packed as one word.
pub open spec fn spec_icmp_control_msg(code: u16) -> Option<ICMPControlMessage> {
    if code == 0x0000 {
        Some(ICMPControlMessage::ECHO_REPLY)
    } else if code == 0x0300 {
        Some(ICMPControlMessage::DEST_UNREACHABLE_NET_UNREACHABLE)
    } else if code == 0x0301 {
        Some(ICMPControlMessage::DEST_UNREACHABLE_HOST_UNREACHABLE)
    } else if code == 0x0302 {
        Some(ICMPControlMessage::DEST_UNREACHABLE_PROTO_UNREACHABLE)
    } else if code == 0x0303 {
        Some(ICMPControlMessage::DEST_UNREACHABLE_PORT_UNREACHABLE)
    } else if code == 0x0304 {
        Some(ICMPControlMessage::DEST_UNREACHABLE_FRAG_BUT_DONT_FRAG)
    } else if code == 0x0305 {
        Some(ICMPControlMessage::DEST_UNREACHABLE_SRC_ROUTE_FAIL)
    } else if code == 0x0306 {
        Some(ICMPControlMessage::DEST_UNREACHABLE_DEST_NET_UNKNOWN)
    } else if code == 0x0307 {
        Some(ICMPControlMessage::DEST_UNREACHABLE_DEST_HOST_UNKNOWN)
    } else if code == 0x0308 {
        Some(ICMPControlMessage::DEST_UNREACHABLE_SRC_HOST_ISOLATED)
    } else if code == 0x0309 {
        Some(ICMPControlMessage::DEST_UNREACHABLE_DEST_NET_ADMIN_DENIED)
    } else if code == 0x030A {
        Some(ICMPControlMessage::DEST_UNREACHABLE_DEST_HOST_ADMIN_DENIED)
    } else if code == 0x030B {
        Some(ICMPControlMessage::DEST_UNREACHABLE_DEST_NET_TOS_UNREACHABLE)
    } else if code == 0x030C {
        Some(ICMPControlMessage::DEST_UNREACHABLE_DEST_HOST_TOS_UNREACHABLE)
    } else if code == 0x030D {
        Some(ICMPControlMessage::DEST_UNREACHABLE_COMM_ADMIN_DENIED)
    } else if code == 0x030E {
        Some(ICMPControlMessage::DEST_UNREACHABLE_HOST_PRECEDENCE_VIOLATION)
    } else if code == 0x030F {
        Some(ICMPControlMessage::DEST_UNREACHABLE_PRECEDENCE_CUTOFF)
    } else if code == 0x0400 {
        Some(ICMPControlMessage::SOURCE_QUENCH)
    } else if code == 0x0500 {
        Some(ICMPControlMessage::REDIRECT_FOR_NET)
    } else if code == 0x0501 {
        Some(ICMPControlMessage::REDIRECT_FOR_HOST)
    } else if code == 0x0502 {
        Some(ICMPControlMessage::REDIRECT_FOR_TOS_AND_NET)
    } else if code == 0x0503 {
        Some(ICMPControlMessage::REDIRECT_FOR_TOS_AND_HOST)
    } else if code == 0x0800 {
        Some(ICMPControlMessage::ECHO)
    } else if code == 0x0900 {
        Some(ICMPControlMessage::ROUTER_ADVERT_NORMAL)
    } else if code == 0x0910 {
        Some(ICMPControlMessage::ROUTER_ADVERT_NOT_COMMON)
    } else if code == 0x0A00 {
        Some(ICMPControlMessage::ROUTER_SOLICIT)
    } else if code == 0x0B00 {
        Some(ICMPControlMessage::TIME_EXCEEDED_TTL_IN_TRANSIT)
    } else if code == 0x0B01 {
        Some(ICMPControlMessage::TIME_EXCEEDED_FRAG_REASSY_TIME)
    } else if code == 0x0C00 {
        Some(ICMPControlMessage::PARAM_PROBLEM_PTR_ERROR)
    } else if code == 0x0C01 {
        Some(ICMPControlMessage::PARAM_PROBLEM_MISSING_REQ_OPT)
    } else if code == 0x0C02 {
        Some(ICMPControlMessage::PARAM_PROBLEM_BAD_LENGTH)
    } else if code == 0x0D00 {
        Some(ICMPControlMessage::TIMESTAMP)
    } else if code == 0x0E00 {
        Some(ICMPControlMessage::TIMESTAMP_REPLY)
    } else if code == 0x0F00 {
        Some(ICMPControlMessage::INFO_REQUEST)
    } else if code == 0x1000 {
        Some(ICMPControlMessage::INFO_REPLY)
    } else if code == 0x2800 {
        Some(ICMPControlMessage::PHOTURIS_BAD_SPI)
    } else if code == 0x2801 {
        Some(ICMPControlMessage::PHOTURIS_AUTHENTICATION_FAIL)
    } else if code == 0x2802 {
        Some(ICMPControlMessage::PHOTURIS_DECOMPRESS_FAIL)
    } else if code == 0x2803 {
        Some(ICMPControlMessage::PHOTURIS_DECRYPTION_FAIL)
    } else if code == 0x2804 {
        Some(ICMPControlMessage::PHOTURIS_NEED_AUTHENTICATION)
    } else if code == 0x2805 {
        Some(ICMPControlMessage::PHOTURIS_NEED_AUTHORIZATION)
    } else {
        None
    }
}

/// Looks a control message up in the registry; a miss reports the code.
pub fn parse_icmp_control_msg(code: u16) -> (r: Result<ICMPControlMessage, ICMPControlMessageNotRecognizedError>)
    ensures
        r == (match spec_icmp_control_msg(code) {
            Some(p) => Ok::<ICMPControlMessage, ICMPControlMessageNotRecognizedError>(p),
            None => Err::<ICMPControlMessage, ICMPControlMessageNotRecognizedError>(ICMPControlMessageNotRecognizedError(code)),
        }),
{
    if code == 0x0000 {
        Ok(ICMPControlMessage::ECHO_REPLY)
    } else if code == 0x0300 {
        Ok(ICMPControlMessage::DEST_UNREACHABLE_NET_UNREACHABLE)
    } else if code == 0x0301 {
        Ok(ICMPControlMessage::DEST_UNREACHABLE_HOST_UNREACHABLE)
    } else if code == 0x0302 {
        Ok(ICMPControlMessage::DEST_UNREACHABLE_PROTO_UNREACHABLE)
    } else if code == 0x0303 {
        Ok(ICMPControlMessage::DEST_UNREACHABLE_PORT_UNREACHABLE)
    } else if code == 0x0304 {
        Ok(ICMPControlMessage::DEST_UNREACHABLE_FRAG_BUT_DONT_FRAG)
    } else if code == 0x0305 {
        Ok(ICMPControlMessage::DEST_UNREACHABLE_SRC_ROUTE_FAIL)
    } else if code == 0x0306 {
        Ok(ICMPControlMessage::DEST_UNREACHABLE_DEST_NET_UNKNOWN)
    } else if code == 0x0307 {
        Ok(ICMPControlMessage::DEST_UNREACHABLE_DEST_HOST_UNKNOWN)
    } else if code == 0x0308 {
        Ok(ICMPControlMessage::DEST_UNREACHABLE_SRC_HOST_ISOLATED)
    } else if code == 0x0309 {
        Ok(ICMPControlMessage::DEST_UNREACHABLE_DEST_NET_ADMIN_DENIED)
    } else if code == 0x030A {
        Ok(ICMPControlMessage::DEST_UNREACHABLE_DEST_HOST_ADMIN_DENIED)
    } else if code == 0x030B {
        Ok(ICMPControlMessage::DEST_UNREACHABLE_DEST_NET_TOS_UNREACHABLE)
    } else if code == 0x030C {
        Ok(ICMPControlMessage::DEST_UNREACHABLE_DEST_HOST_TOS_UNREACHABLE)
    } else if code == 0x030D {
        Ok(ICMPControlMessage::DEST_UNREACHABLE_COMM_ADMIN_DENIED)
    } else if code == 0x030E {
        Ok(ICMPControlMessage::DEST_UNREACHABLE_HOST_PRECEDENCE_VIOLATION)
    } else if code == 0x030F {
        Ok(ICMPControlMessage::DEST_UNREACHABLE_PRECEDENCE_CUTOFF)
    } else if code == 0x0400 {
        Ok(ICMPControlMessage::SOURCE_QUENCH)
    } else if code == 0x0500 {
        Ok(ICMPControlMessage::REDIRECT_FOR_NET)
    } else if code == 0x0501 {
        Ok(ICMPControlMessage::REDIRECT_FOR_HOST)
    } else if code == 0x0502 {
        Ok(ICMPControlMessage::REDIRECT_FOR_TOS_AND_NET)
    } else if code == 0x0503 {
        Ok(ICMPControlMessage::REDIRECT_FOR_TOS_AND_HOST)
    } else if code == 0x0800 {
        Ok(ICMPControlMessage::ECHO)
    } else if code == 0x0900 {
        Ok(ICMPControlMessage::ROUTER_ADVERT_NORMAL)
    } else if code == 0x0910 {
        Ok(ICMPControlMessage::ROUTER_ADVERT_NOT_COMMON)
    } else if code == 0x0A00 {
        Ok(ICMPControlMessage::ROUTER_SOLICIT)
    } else if code == 0x0B00 {
        Ok(ICMPControlMessage::TIME_EXCEEDED_TTL_IN_TRANSIT)
    } else if code == 0x0B01 {
        Ok(ICMPControlMessage::TIME_EXCEEDED_FRAG_REASSY_TIME)
    } else if code == 0x0C00 {
        Ok(ICMPControlMessage::PARAM_PROBLEM_PTR_ERROR)
    } else if code == 0x0C01 {
        Ok(ICMPControlMessage::PARAM_PROBLEM_MISSING_REQ_OPT)
    } else if code == 0x0C02 {
        Ok(ICMPControlMessage::PARAM_PROBLEM_BAD_LENGTH)
    } else if code == 0x0D00 {
        Ok(ICMPControlMessage::TIMESTAMP)
    } else if code == 0x0E00 {
        Ok(ICMPControlMessage::TIMESTAMP_REPLY)
    } else if code == 0x0F00 {
        Ok(ICMPControlMessage::INFO_REQUEST)
    } else if code == 0x1000 {
        Ok(ICMPControlMessage::INFO_REPLY)
    } else if code == 0x2800 {
        Ok(ICMPControlMessage::PHOTURIS_BAD_SPI)
    } else if code == 0x2801 {
        Ok(ICMPControlMessage::PHOTURIS_AUTHENTICATION_FAIL)
    } else if code == 0x2802 {
        Ok(ICMPControlMessage::PHOTURIS_DECOMPRESS_FAIL)
    } else if code == 0x2803 {
        Ok(ICMPControlMessage::PHOTURIS_DECRYPTION_FAIL)
    } else if code == 0x2804 {
        Ok(ICMPControlMessage::PHOTURIS_NEED_AUTHENTICATION)
    } else if code == 0x2805 {
        Ok(ICMPControlMessage::PHOTURIS_NEED_AUTHORIZATION)
    } else {
        Err(ICMPControlMessageNotRecognizedError(code))
    }
}

} // verus!
