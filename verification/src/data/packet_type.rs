use vstd::prelude::*;

use crate::error::PacketReadError;

verus! {

/// The type of an MQTT packet, encoded in the upper four bits of the first header byte
#[derive(Debug, PartialEq, Eq, Clone, Copy, Structural)]
pub enum PacketType {
    /// Connection request, client to server
    Connect,
    /// Connect acknowledgment, server to client
    Connack,
    /// Publish message, either direction
    Publish,
    /// Publish acknowledgment (quality of service 1), either direction
    Puback,
    /// Publish received (quality of service 2 delivery part 1), either direction
    Pubrec,
    /// Publish release (quality of service 2 delivery part 2), either direction
    Pubrel,
    /// Publish complete (quality of service 2 delivery part 3), either direction
    Pubcomp,
    /// Subscribe request, client to server
    Subscribe,
    /// Subscribe acknowledgment, server to client
    Suback,
    /// Unsubscribe request, client to server
    Unsubscribe,
    /// Unsubscribe acknowledgment, server to client
    Unsuback,
    /// PING request, client to server
    Pingreq,
    /// PING response, server to client
    Pingresp,
    /// Disconnect notification, either direction
    Disconnect,
    /// Authentication exchange, either direction
    Auth,
}

/// The number (1 to 15) of a packet type, held in the upper four bits of the first header byte
pub open spec fn packet_type_number(t: PacketType) -> u8 {
    match t {
        PacketType::Connect => 1,
        PacketType::Connack => 2,
        PacketType::Publish => 3,
        PacketType::Puback => 4,
        PacketType::Pubrec => 5,
        PacketType::Pubrel => 6,
        PacketType::Pubcomp => 7,
        PacketType::Subscribe => 8,
        PacketType::Suback => 9,
        PacketType::Unsubscribe => 10,
        PacketType::Unsuback => 11,
        PacketType::Pingreq => 12,
        PacketType::Pingresp => 13,
        PacketType::Disconnect => 14,
        PacketType::Auth => 15,
    }
}

/// The fixed flag bits (lower four bits of the first header byte) that each packet type
/// requires; for Publish these are the base value, with no flags set
pub open spec fn packet_type_flags(t: PacketType) -> u8 {
    match t {
        PacketType::Pubrel | PacketType::Subscribe | PacketType::Unsubscribe => 2,
        _ => 0,
    }
}

/// The "base" first header byte of a packet type: the type in the upper four bits, and
/// the fixed flag bits that some packets require in the lower four bits
pub open spec fn packet_type_byte(t: PacketType) -> u8 {
    (packet_type_number(t) * 16 + packet_type_flags(t)) as u8
}

/// The packet type encoded in the upper four bits of a byte, if any
pub open spec fn packet_type_from_number(n: u8) -> Option<PacketType> {
    if n == 1 { Some(PacketType::Connect) }
    else if n == 2 { Some(PacketType::Connack) }
    else if n == 3 { Some(PacketType::Publish) }
    else if n == 4 { Some(PacketType::Puback) }
    else if n == 5 { Some(PacketType::Pubrec) }
    else if n == 6 { Some(PacketType::Pubrel) }
    else if n == 7 { Some(PacketType::Pubcomp) }
    else if n == 8 { Some(PacketType::Subscribe) }
    else if n == 9 { Some(PacketType::Suback) }
    else if n == 10 { Some(PacketType::Unsubscribe) }
    else if n == 11 { Some(PacketType::Unsuback) }
    else if n == 12 { Some(PacketType::Pingreq) }
    else if n == 13 { Some(PacketType::Pingresp) }
    else if n == 14 { Some(PacketType::Disconnect) }
    else if n == 15 { Some(PacketType::Auth) }
    else { None }
}

/// A byte is a valid first header byte of a Publish packet when its upper four bits
/// encode Publish and its quality of service bits (1 and 2) do not hold the invalid value 3
pub open spec fn valid_publish_first_header_byte(b: u8) -> bool {
    b / 16 == 3 && (b / 2) % 4 != 3
}

/// A byte is a valid first header byte when it encodes a packet type, and its lower four
/// bits are the fixed flags of that type, or for Publish, valid publish flags
pub open spec fn valid_first_header_byte(b: u8) -> bool {
    match packet_type_from_number(b / 16) {
        Some(PacketType::Publish) => valid_publish_first_header_byte(b),
        Some(t) => b == packet_type_byte(t),
        None => false,
    }
}

/// Check whether a byte is a valid first header byte of a Publish packet
pub fn is_valid_publish_first_header_byte(encoded: u8) -> (r: bool)
    ensures
        r == valid_publish_first_header_byte(encoded),
{
    let first_nibble_ok = (encoded >> 4) == 3;
    let qos_ok = (encoded >> 1) & 3 != 3;
    assert((encoded >> 4) == encoded / 16) by (bit_vector);
    assert((encoded >> 1) & 3 == (encoded / 2) % 4) by (bit_vector);
    first_nibble_ok && qos_ok
}

impl PacketType {
    /// The "base" first header byte: no additional flags for [PacketType::Publish], but the
    /// fixed additional bits that some packets require
    pub fn to_u8(&self) -> (r: u8)
        ensures
            r == packet_type_byte(*self),
    {
        match self {
            PacketType::Connect => 0x10,
            PacketType::Connack => 0x20,
            PacketType::Publish => 0x30,
            PacketType::Puback => 0x40,
            PacketType::Pubrec => 0x50,
            PacketType::Pubrel => 0x62,
            PacketType::Pubcomp => 0x70,
            PacketType::Subscribe => 0x82,
            PacketType::Suback => 0x90,
            PacketType::Unsubscribe => 0xA2,
            PacketType::Unsuback => 0xB0,
            PacketType::Pingreq => 0xC0,
            PacketType::Pingresp => 0xD0,
            PacketType::Disconnect => 0xE0,
            PacketType::Auth => 0xF0,
        }
    }

    /// Parse the packet type from a byte, using only the upper 4 bits and ignoring any
    /// flags; fails with [PacketReadError::InvalidPacketType] when the upper bits are 0
    pub fn try_from_u8(value: u8) -> (r: Result<PacketType, PacketReadError>)
        ensures
            r == (match packet_type_from_number(value / 16) {
                Some(t) => Ok(t),
                None => Err(PacketReadError::InvalidPacketType),
            }),
    {
        let n = value >> 4;
        assert(value >> 4 == value / 16) by (bit_vector);
        if n == 1 { Ok(PacketType::Connect) }
        else if n == 2 { Ok(PacketType::Connack) }
        else if n == 3 { Ok(PacketType::Publish) }
        else if n == 4 { Ok(PacketType::Puback) }
        else if n == 5 { Ok(PacketType::Pubrec) }
        else if n == 6 { Ok(PacketType::Pubrel) }
        else if n == 7 { Ok(PacketType::Pubcomp) }
        else if n == 8 { Ok(PacketType::Subscribe) }
        else if n == 9 { Ok(PacketType::Suback) }
        else if n == 10 { Ok(PacketType::Unsubscribe) }
        else if n == 11 { Ok(PacketType::Unsuback) }
        else if n == 12 { Ok(PacketType::Pingreq) }
        else if n == 13 { Ok(PacketType::Pingresp) }
        else if n == 14 { Ok(PacketType::Disconnect) }
        else if n == 15 { Ok(PacketType::Auth) }
        else { Err(PacketReadError::InvalidPacketType) }
    }

    /// Check whether a u8 value is a valid first header byte of a packet
    pub fn is_valid_first_header_byte(encoded: u8) -> (r: bool)
        ensures
            r == valid_first_header_byte(encoded),
    {
        match PacketType::try_from_u8(encoded) {
            Ok(packet_type) => match packet_type {
                PacketType::Publish => is_valid_publish_first_header_byte(encoded),
                _ => encoded == packet_type.to_u8(),
            },
            Err(_) => false,
        }
    }
}

/// The base first header byte of every packet type is a valid first header byte, and
/// parsing it gives back the packet type.
pub proof fn lemma_packet_type_byte_roundtrip(t: PacketType)
    ensures
        packet_type_from_number(packet_type_byte(t) / 16) == Some(t),
        valid_first_header_byte(packet_type_byte(t)),
{
}

/// Any valid first header byte that is not that of a Publish packet is the base byte of
/// its packet type: there is exactly one valid first header byte for each such type.
pub proof fn lemma_valid_first_header_byte_unique(b: u8)
    requires
        valid_first_header_byte(b),
        b / 16 != 3,
    ensures
        packet_type_from_number(b / 16) matches Some(t) && b == packet_type_byte(t),
{
}

} // verus!
