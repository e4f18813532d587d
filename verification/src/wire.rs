//! What the frames of the exchange share: the version byte, and the form
//! in which an endpoint travels.

use crate::model::Address;
use vstd::prelude::*;

verus! {

/// The protocol version, which opens every frame.
pub const VERSION: u8 = 0x05;

/// The address type of an IPv4 address.
pub const ADDRESS_TYPE_IPV4: u8 = 0x01;

/// An address on the wire: its type, then its bytes in network order.
pub open spec fn address_bytes(address: Address) -> Seq<u8> {
    match address {
        Address::Ipv4(octets) => seq![ADDRESS_TYPE_IPV4] + octets@,
    }
}

/// A port on the wire: the high byte, then the low byte.
pub open spec fn port_bytes(port: u16) -> Seq<u8> {
    seq![(port / 256) as u8, (port % 256) as u8]
}

/// The port that two bytes on the wire stand for, the high byte first.
pub open spec fn port_of(high: u8, low: u8) -> u16 {
    (high * 256 + low) as u16
}

/// The two bytes of `port` on the wire.
pub fn encode_port(port: u16) -> (bytes: [u8; 2])
    ensures
        bytes@ == port_bytes(port),
{
    assert(port >> 8 == port / 256 && port >> 8 < 256) by (bit_vector);
    assert(port & 0xFF == port % 256 && port & 0xFF < 256) by (bit_vector);
    [(port >> 8) as u8, (port & 0xFF) as u8]
}

/// The port that `high` and `low` stand for.
pub fn decode_port(high: u8, low: u8) -> (port: u16)
    ensures
        port == port_of(high, low),
{
    let high: u16 = high as u16;
    let low: u16 = low as u16;
    high * 256 + low
}

/// The high byte of a port on the wire is the port shifted right by eight
/// bits, the low byte its lowest eight bits.
pub proof fn port_bytes_are_big_endian(port: u16)
    ensures
        port_bytes(port) == seq![(port >> 8) as u8, (port & 0xFF) as u8],
{
    assert(port >> 8 == port / 256 && port >> 8 < 256) by (bit_vector);
    assert(port & 0xFF == port % 256 && port & 0xFF < 256) by (bit_vector);
}

/// The two bytes of a port stand for that port again, and any two bytes
/// are the bytes of the port they stand for.
pub proof fn port_survives_the_wire(port: u16, high: u8, low: u8)
    ensures
        port_of(port_bytes(port)[0], port_bytes(port)[1]) == port,
        port_bytes(port_of(high, low)) == seq![high, low],
{
}

} // verus!
