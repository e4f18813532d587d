//! The connection request, the second step of the exchange: the client
//! names its target and the proxy grants or refuses the relay.

use crate::model::{
    Address, BoundAddress, ConnectOutcome, HandshakeError, HandshakeResult, TargetEndpoint,
};
use crate::wire::{
    address_bytes, decode_port, encode_port, port_bytes, port_bytes_are_big_endian, port_of,
    ADDRESS_TYPE_IPV4, VERSION,
};
use vstd::prelude::*;

verus! {

/// The command that asks for a TCP stream to the target.
pub const COMMAND_CONNECT: u8 = 0x01;

/// The reserved byte of a connection request or reply.
pub const RESERVED: u8 = 0x00;

/// The reply code of a request that was granted.
pub const REPLY_SUCCEEDED: u8 = 0x00;

/// The length of a connection reply that names an IPv4 address.
pub const CONNECT_REPLY_LEN: usize = 10;

/// The connection request for `target`: version, command, reserved byte,
/// then the target's address and port.
pub open spec fn connect_request(target: TargetEndpoint) -> Seq<u8> {
    seq![VERSION, COMMAND_CONNECT, RESERVED] + address_bytes(target.address) + port_bytes(
        target.port,
    )
}

/// What a connection reply means.
///
/// A reply that is not ten bytes long did not arrive whole. One whose
/// version or reserved byte is off does not follow the protocol. A nonzero
/// reply code is a refusal and is handed on as it came. A granted request
/// names the bound address, which must be an IPv4 one to be read.
pub open spec fn connect_reply_outcome(reply: Seq<u8>) -> HandshakeResult<ConnectOutcome> {
    if reply.len() != CONNECT_REPLY_LEN {
        Err(HandshakeError::TransportError)
    } else if reply[0] != VERSION || reply[2] != RESERVED {
        Err(HandshakeError::ProtocolViolation)
    } else if reply[1] != REPLY_SUCCEEDED {
        Ok(ConnectOutcome::Failed(reply[1]))
    } else if reply[3] != ADDRESS_TYPE_IPV4 {
        Err(HandshakeError::ProtocolViolation)
    } else {
        Ok(
            ConnectOutcome::Established(
                BoundAddress {
                    address: Address::Ipv4([reply[4], reply[5], reply[6], reply[7]]),
                    port: port_of(reply[8], reply[9]),
                },
            ),
        )
    }
}

/// Encodes the connection request for `target`.
pub fn encode_connect_request(target: &TargetEndpoint) -> (request: Vec<u8>)
    ensures
        request@ == connect_request(*target),
{
    let mut request: Vec<u8> = Vec::new();
    request.push(VERSION);
    request.push(COMMAND_CONNECT);
    request.push(RESERVED);
    match target.address {
        Address::Ipv4(octets) => {
            request.push(ADDRESS_TYPE_IPV4);
            request.push(octets[0]);
            request.push(octets[1]);
            request.push(octets[2]);
            request.push(octets[3]);
        },
    }
    let port: [u8; 2] = encode_port(target.port);
    request.push(port[0]);
    request.push(port[1]);
    request
}

/// Decodes a connection reply.
pub fn parse_connect_reply(reply: &[u8]) -> (outcome: HandshakeResult<ConnectOutcome>)
    ensures
        outcome == connect_reply_outcome(reply@),
{
    if reply.len() != CONNECT_REPLY_LEN {
        return Err(HandshakeError::TransportError);
    }
    if reply[0] != VERSION || reply[2] != RESERVED {
        return Err(HandshakeError::ProtocolViolation);
    }
    if reply[1] != REPLY_SUCCEEDED {
        return Ok(ConnectOutcome::Failed(reply[1]));
    }
    if reply[3] != ADDRESS_TYPE_IPV4 {
        return Err(HandshakeError::ProtocolViolation);
    }
    Ok(
        ConnectOutcome::Established(
            BoundAddress {
                address: Address::Ipv4([reply[4], reply[5], reply[6], reply[7]]),
                port: decode_port(reply[8], reply[9]),
            },
        ),
    )
}

/// The connection request for an IPv4 target is ten bytes: version,
/// command, reserved byte, address type, the four address bytes, then the
/// port with its high byte first.
pub proof fn connect_request_layout(a: u8, b: u8, c: u8, d: u8, port: u16)
    ensures
        connect_request(TargetEndpoint { address: Address::Ipv4([a, b, c, d]), port }) == seq![
            0x05u8,
            0x01u8,
            0x00u8,
            0x01u8,
            a,
            b,
            c,
            d,
            (port >> 8) as u8,
            (port & 0xFF) as u8,
        ],
{
    port_bytes_are_big_endian(port);
    let octets: [u8; 4] = [a, b, c, d];
    assert(octets@ =~= seq![a, b, c, d]);
}

/// A connection reply of ten bytes whose version and reserved byte are in
/// order is a refusal when its code is not zero, and carries that very
/// code. With the code zero and an IPv4 address it is an established
/// relay, bound to the address and port that the reply holds. A refusal
/// never carries the code zero.
pub proof fn connect_reply_cases(reply: Seq<u8>)
    requires
        reply.len() == 10,
        reply[0] == 0x05,
        reply[2] == 0x00,
    ensures
        reply[1] != 0x00 ==> connect_reply_outcome(reply) == Ok::<ConnectOutcome, HandshakeError>(
            ConnectOutcome::Failed(reply[1]),
        ),
        reply[1] == 0x00 && reply[3] == 0x01 ==> connect_reply_outcome(reply) == Ok::<
            ConnectOutcome,
            HandshakeError,
        >(
            ConnectOutcome::Established(
                BoundAddress {
                    address: Address::Ipv4([reply[4], reply[5], reply[6], reply[7]]),
                    port: (reply[8] * 256 + reply[9]) as u16,
                },
            ),
        ),
        connect_reply_outcome(reply) != Ok::<ConnectOutcome, HandshakeError>(
            ConnectOutcome::Failed(0x00),
        ),
{
}

/// A reply that is ten bytes long and does not open with the version, or
/// does not hold zero in its reserved byte, is a protocol violation,
/// whatever its reply code: it is told apart from every refusal.
pub proof fn misframed_connect_reply_is_no_refusal(reply: Seq<u8>)
    requires
        reply.len() == 10,
        reply[0] != 0x05 || reply[2] != 0x00,
    ensures
        connect_reply_outcome(reply) == Err::<ConnectOutcome, HandshakeError>(
            HandshakeError::ProtocolViolation,
        ),
{
}

/// A reply that grants the request and names an endpoint in the form in
/// which a request names its target decodes to that endpoint.
pub proof fn bound_address_mirrors_target(address: Address, port: u16)
    ensures
        connect_reply_outcome(
            seq![VERSION, REPLY_SUCCEEDED, RESERVED] + address_bytes(address) + port_bytes(port),
        ) == Ok::<ConnectOutcome, HandshakeError>(
            ConnectOutcome::Established(BoundAddress { address, port }),
        ),
{
    let reply = seq![VERSION, REPLY_SUCCEEDED, RESERVED] + address_bytes(address) + port_bytes(
        port,
    );
    match address {
        Address::Ipv4(octets) => {
            assert([reply[4], reply[5], reply[6], reply[7]] =~= octets);
        },
    }
}

} // verus!
