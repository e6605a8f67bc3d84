use vstd::prelude::*;

use crate::data::packet_type::{packet_type_byte, packet_type_from_number, PacketType};
use crate::error::Error;

verus! {

/// The first byte of the fixed header of a packet, as its packet type determines it: the
/// type in the upper four bits, and the flags that the type requires in the lower four
#[derive(Debug, PartialEq, Eq, Clone, Copy, Structural)]
pub struct FixedHeaderFirstByte(u8);

/// The packet type whose first header byte a byte is, if any
pub open spec fn first_byte_packet_type(b: u8) -> Option<PacketType> {
    match packet_type_from_number(b / 16) {
        Some(t) => if packet_type_byte(t) == b {
            Some(t)
        } else {
            None
        },
        None => None,
    }
}

impl FixedHeaderFirstByte {
    /// The byte
    pub closed spec fn value(&self) -> u8 {
        self.0
    }

    /// The first header byte of a packet type
    pub fn from_packet_type(value: PacketType) -> (r: Self)
        ensures
            r.value() == packet_type_byte(value),
    {
        FixedHeaderFirstByte(value.to_u8())
    }

    /// The packet type whose first header byte this is, otherwise
    /// [Error::InvalidFixedHeaderFirstByte]
    pub fn to_packet_type(&self) -> (r: Result<PacketType, Error>)
        ensures
            r == match first_byte_packet_type(self.value()) {
                Some(t) => Ok::<PacketType, Error>(t),
                None => Err::<PacketType, Error>(Error::InvalidFixedHeaderFirstByte),
            },
    {
        match PacketType::try_from_u8(self.0) {
            Ok(t) => if t.to_u8() == self.0 {
                Ok(t)
            } else {
                Err(Error::InvalidFixedHeaderFirstByte)
            },
            Err(_) => Err(Error::InvalidFixedHeaderFirstByte),
        }
    }
}

impl From<PacketType> for FixedHeaderFirstByte {
    fn from(value: PacketType) -> (r: Self) {
        FixedHeaderFirstByte::from_packet_type(value)
    }
}

impl vstd::std_specs::convert::FromSpecImpl<PacketType> for FixedHeaderFirstByte {
    open spec fn obeys_from_spec() -> bool {
        true
    }

    closed spec fn from_spec(v: PacketType) -> Self {
        FixedHeaderFirstByte(packet_type_byte(v))
    }
}

/// The first header byte of a packet type converts back to that packet type.
pub proof fn lemma_fixed_header_first_byte_roundtrip(t: PacketType)
    ensures
        first_byte_packet_type(packet_type_byte(t)) == Some(t),
{
}

} // verus!
