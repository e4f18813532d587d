//! The values the exchange speaks of: methods, endpoints, outcomes, errors.

use crate::status::HandshakeStatus;
use vstd::prelude::*;

verus! {

/// An authentication method a client can offer to the proxy.
#[derive(Clone, Copy, Debug, PartialEq, Eq)]
pub enum AuthMethod {
    /// No authentication at all.
    NoAuthentication,
    /// GSSAPI.
    Gssapi,
    /// User name and password.
    UsernamePassword,
}

impl AuthMethod {
    /// The byte that stands for this method on the wire.
    pub open spec fn spec_code(self) -> u8 {
        match self {
            AuthMethod::NoAuthentication => 0x00,
            AuthMethod::Gssapi => 0x01,
            AuthMethod::UsernamePassword => 0x02,
        }
    }

    /// The byte that stands for this method on the wire.
    #[verifier::when_used_as_spec(spec_code)]
    pub fn code(self) -> (code: u8)
        ensures
            code == self.spec_code(),
    {
        match self {
            AuthMethod::NoAuthentication => 0x00,
            AuthMethod::Gssapi => 0x01,
            AuthMethod::UsernamePassword => 0x02,
        }
    }
}

/// A network address, tagged by its kind as it is on the wire.
#[derive(Clone, Copy, Debug, PartialEq, Eq)]
pub enum Address {
    /// An IPv4 address: four bytes in network order.
    Ipv4([u8; 4]),
}

/// The destination the tunnel should reach.
#[derive(Clone, Copy, Debug, PartialEq, Eq)]
pub struct TargetEndpoint {
    pub address: Address,
    pub port: u16,
}

/// The address and port the proxy bound for the relay, as its reply names
/// them.
#[derive(Clone, Copy, Debug, PartialEq, Eq)]
pub struct BoundAddress {
    pub address: Address,
    pub port: u16,
}

/// How method selection ended.
#[derive(Clone, Copy, Debug, PartialEq, Eq)]
pub enum HandshakeOutcome {
    /// The proxy chose this method.
    Negotiated(AuthMethod),
    /// The proxy accepted none of the methods offered.
    Rejected,
}

impl HandshakeOutcome {
    /// The outcome as a plain yes or no: `true` when a method was chosen.
    pub fn status(&self) -> (status: HandshakeStatus<bool>)
        ensures
            status@ == (*self is Negotiated),
    {
        match self {
            HandshakeOutcome::Negotiated(_) => HandshakeStatus::new(true),
            HandshakeOutcome::Rejected => HandshakeStatus::new(false),
        }
    }
}

/// How the connection request ended.
#[derive(Clone, Copy, Debug, PartialEq, Eq)]
pub enum ConnectOutcome {
    /// The proxy relays to the target; it bound this address for it.
    Established(BoundAddress),
    /// The proxy refused, with this reply code, which is never rewritten.
    Failed(u8),
}

/// Why an exchange did not end in an open tunnel.
#[derive(Clone, Copy, Debug, PartialEq, Eq)]
pub enum HandshakeError {
    /// The link broke: a write or a read failed, or a frame did not arrive
    /// whole.
    TransportError,
    /// A fixed field of a frame does not hold its constant: the peer does
    /// not speak this protocol.
    ProtocolViolation,
    /// The proxy declined every method offered.
    NegotiationRejected,
    /// The proxy answered the connection request with this nonzero code.
    ConnectFailed(u8),
}

/// What either step of the exchange returns.
pub type HandshakeResult<T> = Result<T, HandshakeError>;

/// The meaning of a reply code.
#[derive(Clone, Copy, Debug, PartialEq, Eq)]
pub enum ReplyCode {
    Succeeded,
    GeneralFailure,
    NotAllowedByRuleset,
    NetworkUnreachable,
    HostUnreachable,
    ConnectionRefused,
    TtlExpired,
    CommandNotSupported,
    AddressTypeNotSupported,
    /// A code to which the protocol gives no meaning.
    Unassigned(u8),
}

impl ReplyCode {
    /// The meaning of `code`.
    pub open spec fn spec_from_code(code: u8) -> ReplyCode {
        if code == 0 {
            ReplyCode::Succeeded
        } else if code == 1 {
            ReplyCode::GeneralFailure
        } else if code == 2 {
            ReplyCode::NotAllowedByRuleset
        } else if code == 3 {
            ReplyCode::NetworkUnreachable
        } else if code == 4 {
            ReplyCode::HostUnreachable
        } else if code == 5 {
            ReplyCode::ConnectionRefused
        } else if code == 6 {
            ReplyCode::TtlExpired
        } else if code == 7 {
            ReplyCode::CommandNotSupported
        } else if code == 8 {
            ReplyCode::AddressTypeNotSupported
        } else {
            ReplyCode::Unassigned(code)
        }
    }

    /// The byte that stands for this meaning on the wire.
    pub open spec fn spec_code(self) -> u8 {
        match self {
            ReplyCode::Succeeded => 0,
            ReplyCode::GeneralFailure => 1,
            ReplyCode::NotAllowedByRuleset => 2,
            ReplyCode::NetworkUnreachable => 3,
            ReplyCode::HostUnreachable => 4,
            ReplyCode::ConnectionRefused => 5,
            ReplyCode::TtlExpired => 6,
            ReplyCode::CommandNotSupported => 7,
            ReplyCode::AddressTypeNotSupported => 8,
            ReplyCode::Unassigned(code) => code,
        }
    }

    /// The meaning of `code`.
    #[verifier::when_used_as_spec(spec_from_code)]
    pub fn from_code(code: u8) -> (reply: ReplyCode)
        ensures
            reply == Self::spec_from_code(code),
    {
        match code {
            0 => ReplyCode::Succeeded,
            1 => ReplyCode::GeneralFailure,
            2 => ReplyCode::NotAllowedByRuleset,
            3 => ReplyCode::NetworkUnreachable,
            4 => ReplyCode::HostUnreachable,
            5 => ReplyCode::ConnectionRefused,
            6 => ReplyCode::TtlExpired,
            7 => ReplyCode::CommandNotSupported,
            8 => ReplyCode::AddressTypeNotSupported,
            _ => ReplyCode::Unassigned(code),
        }
    }

    /// The byte that stands for this meaning on the wire.
    #[verifier::when_used_as_spec(spec_code)]
    pub fn code(self) -> (code: u8)
        ensures
            code == self.spec_code(),
    {
        match self {
            ReplyCode::Succeeded => 0,
            ReplyCode::GeneralFailure => 1,
            ReplyCode::NotAllowedByRuleset => 2,
            ReplyCode::NetworkUnreachable => 3,
            ReplyCode::HostUnreachable => 4,
            ReplyCode::ConnectionRefused => 5,
            ReplyCode::TtlExpired => 6,
            ReplyCode::CommandNotSupported => 7,
            ReplyCode::AddressTypeNotSupported => 8,
            ReplyCode::Unassigned(code) => code,
        }
    }

    /// Naming a code loses nothing: the meaning of a code has that code.
    pub proof fn code_survives_naming(code: u8)
        ensures
            Self::spec_from_code(code).spec_code() == code,
    {
    }
}

} // verus!
