use vstd::prelude::*;

use crate::codec::encoding::WriteStep;
use crate::codec::mqtt_reader::{advanced, MqttBufReader};
use crate::codec::mqtt_writer::{put_outcome, MqttWriter};
use crate::data::packet_identifier::PacketIdentifier;
use crate::data::packet_type::PacketType;
use crate::data::property::{properties_view, PubrecProperty};
use crate::data::reason_code::{
    lemma_publish_reason_code_roundtrip, publish_reason_code_general, PublishReasonCode,
};
use crate::codec::encoding::{steps_bytes, steps_failure};
use crate::data::property::PropertyContext;
use crate::error::{PacketReadError, PacketWriteError};
use crate::packets::laws::{
    lemma_acknowledgement_roundtrip, lemma_packet_body_written, lemma_packet_roundtrip,
    properties_accepted,
};
use crate::packets::acknowledgement::{
    acknowledgement_steps, parse_acknowledgement, put_acknowledgement, AcknowledgementView,
};
use crate::packets::packet::{
    packet_steps,
    parse_packet, read_packet, Packet, PacketRead, PacketWrite, ReasonCodeSubset,
};

verus! {

/// A Pubrec packet, the first reply to a Publish packet of quality of service 2. `P` is the
/// maximum number of properties that reading one accepts.
#[derive(Debug, PartialEq)]
pub struct Pubrec<'a, const P: usize> {
    packet_identifier: PacketIdentifier,
    reason_code: PublishReasonCode,
    properties: Vec<PubrecProperty<'a>>,
}

impl<'a, const P: usize> View for Pubrec<'a, P> {
    type V = AcknowledgementView;

    closed spec fn view(&self) -> AcknowledgementView {
        AcknowledgementView {
            packet_identifier: self.packet_identifier.0,
            reason_code: publish_reason_code_general(self.reason_code),
            properties: properties_view(self.properties@),
        }
    }
}

impl<'a, const P: usize> Pubrec<'a, P> {
    /// Create a packet
    pub fn new(
        packet_identifier: PacketIdentifier,
        reason_code: PublishReasonCode,
        properties: Vec<PubrecProperty<'a>>,
    ) -> (r: Self)
        ensures
            r@ == (AcknowledgementView {
                packet_identifier: packet_identifier.0,
                reason_code: publish_reason_code_general(reason_code),
                properties: properties_view(properties@),
            }),
    {
        Pubrec { packet_identifier, reason_code, properties }
    }

    /// The identifier of the Publish packet acknowledged
    pub fn packet_identifier(&self) -> (r: &PacketIdentifier)
        ensures
            r.0 == self@.packet_identifier,
    {
        &self.packet_identifier
    }

    /// The reason code
    pub fn reason_code(&self) -> (r: &PublishReasonCode)
        ensures
            publish_reason_code_general(*r) == self@.reason_code,
    {
        &self.reason_code
    }

    /// The properties
    pub fn properties(&self) -> (r: &Vec<PubrecProperty<'a>>)
        ensures
            properties_view(r@) == self@.properties,
    {
        &self.properties
    }

    /// Read a whole Pubrec packet
    pub fn read(reader: &mut MqttBufReader<'a>) -> (r: Result<Self, PacketReadError>)
        ensures
            final(reader).data() == old(reader).data(),
            match parse_packet::<Self>(old(reader).rest()) {
                Ok((v, n)) => r is Ok && r->Ok_0@ == v && advanced(*old(reader), *final(reader), n),
                Err(e) => r == Err::<Self, PacketReadError>(e),
            },
    {
        read_packet(reader)
    }
}

impl<'a, const P: usize> Packet for Pubrec<'a, P> {
    open spec fn spec_packet_type() -> PacketType {
        PacketType::Pubrec
    }

    fn packet_type(&self) -> (r: PacketType) {
        PacketType::Pubrec
    }
}

impl<'a, const P: usize> PacketWrite for Pubrec<'a, P> {
    open spec fn spec_first_byte(&self) -> u8 {
        0x50
    }

    open spec fn body_steps(&self) -> Seq<WriteStep> {
        acknowledgement_steps(self@)
    }

    fn fixed_header_first_byte(&self) -> (r: u8) {
        0x50
    }

    fn put_variable_header_and_payload<W: MqttWriter>(&self, writer: &mut W) -> (r: Result<(), PacketWriteError>) {
        put_acknowledgement(writer, self.packet_identifier.0, self.reason_code.reason_code(), &self.properties)
    }
}

impl<'a, const P: usize> PacketRead<'a> for Pubrec<'a, P> {
    open spec fn parse_body(s: Seq<u8>, first_header_byte: u8, len: nat) -> Result<(AcknowledgementView, nat), PacketReadError> {
        parse_acknowledgement(s, len, ReasonCodeSubset::Publish, P as nat)
    }

    fn get_variable_header_and_payload(reader: &mut MqttBufReader<'a>, first_header_byte: u8, len: usize) -> (r: Result<Self, PacketReadError>) {
        let (id, code, properties) = match reader.get_acknowledgement(len, ReasonCodeSubset::Publish, P) {
            Ok(x) => x,
            Err(e) => return Err(e),
        };
        match PublishReasonCode::try_from_reason_code(code) {
            Ok(reason_code) => {
                proof {
                    lemma_publish_reason_code_roundtrip(reason_code, code);
                }
                Ok(Pubrec { packet_identifier: PacketIdentifier(id), reason_code, properties })
            },
            Err(e) => Err(e),
        }
    }
}

/// A Pubrec packet whose properties are accepted in acknowledgements, and are no more than
/// reading one accepts, written without failure, reads back as the same packet, whatever
/// data follows it.
pub proof fn lemma_pubrec_roundtrip<'a, const P: usize>(p: Pubrec<'a, P>, rest: Seq<u8>)
    requires
        properties_accepted(p@.properties, PropertyContext::Acknowledgement),
        p@.properties.len() <= P,
        steps_failure(packet_steps(p.spec_first_byte(), p.body_steps())) is None,
    ensures
        parse_packet::<Pubrec<'a, P>>(steps_bytes(packet_steps(p.spec_first_byte(), p.body_steps())) + rest)
            == Ok::<(AcknowledgementView, nat), PacketReadError>((p@, steps_bytes(packet_steps(p.spec_first_byte(), p.body_steps())).len())),
{
    lemma_publish_reason_code_roundtrip(p.reason_code, p@.reason_code);
    lemma_packet_body_written(p.spec_first_byte(), p.body_steps());
    lemma_acknowledgement_roundtrip(p@, ReasonCodeSubset::Publish, P as nat, rest);
    lemma_packet_roundtrip(p, rest);
}

} // verus!
