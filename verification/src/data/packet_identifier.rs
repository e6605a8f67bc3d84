use vstd::prelude::*;

use crate::data::quality_of_service::QualityOfService;

verus! {

/// A Packet Identifier as defined in section 2.2.1 of the MQTT v5.0 spec.
/// Note that a packet identifier in use can't be 0
#[derive(Debug, PartialEq, Eq, Copy, Clone, Hash, Structural)]
pub struct PacketIdentifier(pub u16);

/// The identifier that follows `id` in sequence: the next value, wrapping from 65535 to 1
/// so that 0 is skipped
pub open spec fn next_packet_identifier(id: u16) -> u16 {
    if id == 65535 {
        1
    } else {
        (id + 1) as u16
    }
}

impl PacketIdentifier {
    /// Increment this packet identifier to the next identifier in sequence,
    /// wrapping if this overflows, and never giving 0
    pub fn increment_wrapping(&mut self)
        ensures
            final(self).0 == next_packet_identifier(old(self).0),
            final(self).0 != 0,
    {
        self.0 = self.0.wrapping_add(1);
        if self.0 == 0 {
            self.0 = 1
        }
    }
}

impl Default for PacketIdentifier {
    /// The default packet identifier, 1
    fn default() -> (r: PacketIdentifier)
        ensures
            r.0 == 1,
    {
        PacketIdentifier(1)
    }
}

/// The packet identifier of a Publish packet, which is present exactly for quality of
/// service 1 and 2 (the variant without identifier is named for quality of service 0)
#[derive(Debug, PartialEq, Eq, Copy, Clone, Structural)]
pub enum PublishPacketIdentifier {
    Qos0,
    Qos1(PacketIdentifier),
    Qos2(PacketIdentifier),
}

/// The quality of service that a publish packet identifier stands for
pub open spec fn publish_identifier_qos(p: PublishPacketIdentifier) -> QualityOfService {
    match p {
        PublishPacketIdentifier::Qos0 => QualityOfService::Qos0,
        PublishPacketIdentifier::Qos1(_) => QualityOfService::Qos1,
        PublishPacketIdentifier::Qos2(_) => QualityOfService::Qos2,
    }
}

impl PublishPacketIdentifier {
    /// The quality of service: 0 when there is no identifier, otherwise that of the variant
    pub fn qos(&self) -> (r: QualityOfService)
        ensures
            r == publish_identifier_qos(*self),
    {
        match self {
            PublishPacketIdentifier::Qos0 => QualityOfService::Qos0,
            PublishPacketIdentifier::Qos1(_id) => QualityOfService::Qos1,
            PublishPacketIdentifier::Qos2(_id) => QualityOfService::Qos2,
        }
    }
}

} // verus!
