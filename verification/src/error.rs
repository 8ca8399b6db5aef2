//! Typed failures of the codec and of the negotiation.

use vstd::prelude::*;

verus! {

/// A domain name whose UTF-8 form does not fit the one-octet length prefix.
#[derive(Debug, Clone, Copy, PartialEq, Eq, Structural)]
pub struct AddressEncodingError {
    /// Length in bytes of the rejected name.
    pub len: usize,
}

/// Why an address could not be read from a buffer.
#[derive(Debug, Clone, Copy, PartialEq, Eq, Structural)]
pub enum DecodeError {
    /// The buffer ends before the address does.
    InsufficientBytes,
    /// The tag octet names no address family of the protocol.
    UnknownAddressType,
}

/// The one reason with which a negotiation that did not succeed ended.
#[derive(Debug, Clone, Copy, PartialEq, Eq, Structural)]
pub enum Failure {
    /// A message of the server carries a version octet other than 5.
    ProtocolMismatch,
    /// The server chose no method, or one that the client did not offer.
    NoAcceptableMethod,
    /// The bytes received hold no whole message of the expected shape.
    MalformedResponse,
    /// The server refused the request; the reply code says why.
    RelayRejected(u8),
    /// The target is a domain name too long for its length octet.
    AddressEncodingError,
    /// The byte stream failed, or did not do what the negotiation asked for.
    TransportError,
}

/// Meaning of the reply code of a relay response.
#[derive(Debug, Clone, Copy, PartialEq, Eq, Structural)]
pub enum Reply {
    /// 0: the request was granted.
    Succeeded,
    /// 1: general SOCKS server failure.
    GeneralFailure,
    /// 2: connection not allowed by the ruleset.
    NotAllowedByRuleset,
    /// 3: network unreachable.
    NetworkUnreachable,
    /// 4: host unreachable.
    HostUnreachable,
    /// 5: connection refused.
    ConnectionRefused,
    /// 6: TTL expired.
    TtlExpired,
    /// 7: command not supported.
    CommandNotSupported,
    /// 8: address type not supported.
    AddressTypeNotSupported,
    /// A code to which the protocol gives no meaning; a failure all the same.
    Unassigned(u8),
}

impl Reply {
    /// The meaning of a reply code.
    pub open spec fn spec_from_code(code: u8) -> Reply {
        if code == 0 {
            Reply::Succeeded
        } else if code == 1 {
            Reply::GeneralFailure
        } else if code == 2 {
            Reply::NotAllowedByRuleset
        } else if code == 3 {
            Reply::NetworkUnreachable
        } else if code == 4 {
            Reply::HostUnreachable
        } else if code == 5 {
            Reply::ConnectionRefused
        } else if code == 6 {
            Reply::TtlExpired
        } else if code == 7 {
            Reply::CommandNotSupported
        } else if code == 8 {
            Reply::AddressTypeNotSupported
        } else {
            Reply::Unassigned(code)
        }
    }

    /// The code that stands for a reply on the wire.
    pub open spec fn spec_code(self) -> u8 {
        match self {
            Reply::Succeeded => 0,
            Reply::GeneralFailure => 1,
            Reply::NotAllowedByRuleset => 2,
            Reply::NetworkUnreachable => 3,
            Reply::HostUnreachable => 4,
            Reply::ConnectionRefused => 5,
            Reply::TtlExpired => 6,
            Reply::CommandNotSupported => 7,
            Reply::AddressTypeNotSupported => 8,
            Reply::Unassigned(code) => code,
        }
    }

    /// Classifies a reply code.
    pub fn from_code(code: u8) -> (reply: Reply)
        ensures
            reply == Reply::spec_from_code(code),
            reply.spec_code() == code,
    {
        match code {
            0 => Reply::Succeeded,
            1 => Reply::GeneralFailure,
            2 => Reply::NotAllowedByRuleset,
            3 => Reply::NetworkUnreachable,
            4 => Reply::HostUnreachable,
            5 => Reply::ConnectionRefused,
            6 => Reply::TtlExpired,
            7 => Reply::CommandNotSupported,
            8 => Reply::AddressTypeNotSupported,
            _ => Reply::Unassigned(code),
        }
    }

    /// The code of this reply.
    pub fn code(self) -> (code: u8)
        ensures
            code == self.spec_code(),
    {
        match self {
            Reply::Succeeded => 0,
            Reply::GeneralFailure => 1,
            Reply::NotAllowedByRuleset => 2,
            Reply::NetworkUnreachable => 3,
            Reply::HostUnreachable => 4,
            Reply::ConnectionRefused => 5,
            Reply::TtlExpired => 6,
            Reply::CommandNotSupported => 7,
            Reply::AddressTypeNotSupported => 8,
            Reply::Unassigned(code) => code,
        }
    }
}

} // verus!
