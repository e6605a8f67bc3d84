use vstd::prelude::*;

use crate::codec::encoding::WriteStep;
use crate::codec::mqtt_reader::{advanced, MqttBufReader};
use crate::codec::mqtt_writer::{put_outcome, MqttWriter};
use crate::data::packet_type::PacketType;
use crate::data::property::{properties_view, DisconnectProperty, PropertyContext, PropertyView};
use crate::data::reason_code::{
    disconnect_reason_code_general, lemma_disconnect_reason_code_roundtrip,
    DisconnectReasonCode, ReasonCode,
};
use crate::codec::encoding::{steps_bytes, steps_failure};
use crate::packets::laws::{
    lemma_code_properties_roundtrip, lemma_packet_body_written, lemma_packet_roundtrip,
    properties_accepted,
};
use crate::error::{PacketReadError, PacketWriteError};
use crate::packets::packet::{
    packet_steps,
    code_properties_steps, parse_code_properties, parse_packet, put_code_and_properties,
    read_packet, Packet, PacketRead, PacketWrite, ReasonCodeSubset,
};

verus! {

/// A Disconnect packet as a mathematical value
pub struct DisconnectView {
    pub reason_code: ReasonCode,
    pub properties: Seq<PropertyView>,
}

/// A Disconnect packet, the final packet sent by either side, with the reason for
/// disconnecting. `P` is the maximum number of properties that reading one accepts.
#[derive(Debug, PartialEq)]
pub struct Disconnect<'a, const P: usize> {
    reason_code: DisconnectReasonCode,
    properties: Vec<DisconnectProperty<'a>>,
}

impl<'a, const P: usize> View for Disconnect<'a, P> {
    type V = DisconnectView;

    closed spec fn view(&self) -> DisconnectView {
        DisconnectView {
            reason_code: disconnect_reason_code_general(self.reason_code),
            properties: properties_view(self.properties@),
        }
    }
}

impl<'a, const P: usize> Disconnect<'a, P> {
    /// Create a packet
    pub fn new(reason_code: DisconnectReasonCode, properties: Vec<DisconnectProperty<'a>>) -> (r: Self)
        ensures
            r@ == (DisconnectView {
                reason_code: disconnect_reason_code_general(reason_code),
                properties: properties_view(properties@),
            }),
    {
        Disconnect { reason_code, properties }
    }

    /// The reason code
    pub fn reason_code(&self) -> (r: &DisconnectReasonCode)
        ensures
            disconnect_reason_code_general(*r) == self@.reason_code,
    {
        &self.reason_code
    }

    /// The properties
    pub fn properties(&self) -> (r: &Vec<DisconnectProperty<'a>>)
        ensures
            properties_view(r@) == self@.properties,
    {
        &self.properties
    }

    /// Read a whole Disconnect packet
    pub fn read(reader: &mut MqttBufReader<'a>) -> (r: Result<Self, PacketReadError>)
        ensures
            final(reader).data() == old(reader).data(),
            match parse_packet::<Self>(old(reader).rest()) {
                Ok((v, n)) => r is Ok && r->Ok_0@ == v && advanced(*old(reader), *final(reader), n),
                Err(e) => r == Err::<Self, PacketReadError>(e),
            },
    {
        read_packet(reader)
    }
}

impl<'a> Default for Disconnect<'a, 0> {
    /// A Disconnect packet with reason code success and no properties
    fn default() -> (r: Self)
        ensures
            r@ == (DisconnectView { reason_code: ReasonCode::Success, properties: Seq::empty() }),
    {
        let r = Disconnect { reason_code: DisconnectReasonCode::Success, properties: Vec::new() };
        assert(properties_view(r.properties@) =~= Seq::<PropertyView>::empty());
        r
    }
}

impl<'a, const P: usize> Packet for Disconnect<'a, P> {
    open spec fn spec_packet_type() -> PacketType {
        PacketType::Disconnect
    }

    fn packet_type(&self) -> (r: PacketType) {
        PacketType::Disconnect
    }
}

impl<'a, const P: usize> PacketWrite for Disconnect<'a, P> {
    open spec fn spec_first_byte(&self) -> u8 {
        0xE0
    }

    /// The reason code and properties, leaving out what can be left out
    open spec fn body_steps(&self) -> Seq<WriteStep> {
        code_properties_steps(self@.reason_code, self@.properties)
    }

    fn fixed_header_first_byte(&self) -> (r: u8) {
        0xE0
    }

    fn put_variable_header_and_payload<W: MqttWriter>(&self, writer: &mut W) -> (r: Result<(), PacketWriteError>) {
        put_code_and_properties(writer, self.reason_code.reason_code(), &self.properties)
    }
}

impl<'a, const P: usize> PacketRead<'a> for Disconnect<'a, P> {
    /// With remaining length 0 nothing is read (success, no properties), with remaining
    /// length 1 the reason code alone, otherwise the reason code and the properties
    open spec fn parse_body(s: Seq<u8>, first_header_byte: u8, len: nat) -> Result<(DisconnectView, nat), PacketReadError> {
        match parse_code_properties(s, len == 0, len == 1, ReasonCodeSubset::Disconnect, PropertyContext::Disconnect, P as nat) {
            Err(e) => Err(e),
            Ok(((c, ps), n)) => Ok((DisconnectView { reason_code: c, properties: ps }, n)),
        }
    }

    fn get_variable_header_and_payload(reader: &mut MqttBufReader<'a>, first_header_byte: u8, len: usize) -> (r: Result<Self, PacketReadError>) {
        let (code, properties) = match reader.get_code_and_properties(
            len == 0,
            len == 1,
            ReasonCodeSubset::Disconnect,
            PropertyContext::Disconnect,
            P,
        ) {
            Ok(x) => x,
            Err(e) => return Err(e),
        };
        match DisconnectReasonCode::try_from_reason_code(code) {
            Ok(reason_code) => {
                proof {
                    lemma_disconnect_reason_code_roundtrip(reason_code, code);
                }
                Ok(Disconnect { reason_code, properties })
            },
            Err(e) => Err(e),
        }
    }
}

/// A Disconnect packet whose properties are accepted in Disconnect packets, and are no more
/// than reading one accepts, written without failure, reads back as the same packet,
/// whatever data follows it.
pub proof fn lemma_disconnect_roundtrip<'a, const P: usize>(p: Disconnect<'a, P>, rest: Seq<u8>)
    requires
        properties_accepted(p@.properties, PropertyContext::Disconnect),
        p@.properties.len() <= P,
        steps_failure(packet_steps(p.spec_first_byte(), p.body_steps())) is None,
    ensures
        parse_packet::<Disconnect<'a, P>>(steps_bytes(packet_steps(p.spec_first_byte(), p.body_steps())) + rest)
            == Ok::<(DisconnectView, nat), PacketReadError>((p@, steps_bytes(packet_steps(p.spec_first_byte(), p.body_steps())).len())),
{
    lemma_disconnect_reason_code_roundtrip(p.reason_code, p@.reason_code);
    lemma_packet_body_written(p.spec_first_byte(), p.body_steps());
    lemma_code_properties_roundtrip(p@.reason_code, p@.properties, ReasonCodeSubset::Disconnect, PropertyContext::Disconnect, P as nat, rest);
    lemma_packet_roundtrip(p, rest);
}

} // verus!
