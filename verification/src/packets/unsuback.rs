use vstd::prelude::*;
use vstd::string::StringSliceAdditionalSpecFns;

use crate::codec::encoding::{str_steps, WriteStep};
use crate::codec::mqtt_reader::{advanced, lemma_advanced_trans, parse_str, parse_u8, MqttBufReader};
use crate::codec::mqtt_writer::{put_outcome, MqttWriter};
use crate::codec::write::lemma_put_then;
use crate::data::packet_identifier::PacketIdentifier;
use crate::data::packet_type::PacketType;
use crate::data::property::{properties_view, UnsubackProperty, PropertyContext};
use crate::error::{PacketReadError, PacketWriteError};
use crate::packets::packet::{
    packet_steps, parse_packet, read_packet, Packet, PacketRead, PacketWrite,
};
use crate::codec::encoding::{steps_bytes, steps_failure};
use crate::packets::laws::{lemma_packet_body_written, lemma_packet_roundtrip, properties_accepted};
use crate::packets::payload_list::{
    item_packet_steps, items_view, lemma_item_packet_roundtrip, lemma_items_view_wf,
    parse_item_packet, put_item_packet, ItemPacketView, PayloadItem,
};
use crate::data::reason_code::{unsubscribe_reason_code_general, lemma_unsubscribe_reason_code_roundtrip, reason_code_value, ReasonCode, UnsubscribeReasonCode};
use crate::packets::packet::{parse_reason_code, ReasonCodeSubset};

use crate::codec::roundtrip::lemma_steps_one;
use crate::packets::laws::lemma_reason_code_roundtrip;
use crate::packets::packet::reason_code_in;

verus! {

impl<'a> PayloadItem<'a> for UnsubscribeReasonCode {
    type ItemView = ReasonCode;

    open spec fn item_view(&self) -> ReasonCode {
        unsubscribe_reason_code_general(*self)
    }

    open spec fn parse_item(s: Seq<u8>) -> Result<(ReasonCode, nat), PacketReadError> {
        parse_reason_code(s, ReasonCodeSubset::Unsubscribe)
    }

    open spec fn item_steps(v: ReasonCode) -> Seq<WriteStep> {
        seq![WriteStep::Bytes(seq![reason_code_value(v)])]
    }

    proof fn lemma_parse_item_len(s: Seq<u8>) {
    }

    open spec fn item_wf(v: ReasonCode) -> bool {
        reason_code_in(ReasonCodeSubset::Unsubscribe, v)
    }

    proof fn lemma_item_view_wf(&self) {
        lemma_unsubscribe_reason_code_roundtrip(*self, self.item_view());
    }

    proof fn lemma_item_roundtrip(v: ReasonCode, rest: Seq<u8>) {
        lemma_steps_one(seq![reason_code_value(v)]);
        lemma_reason_code_roundtrip(v, ReasonCodeSubset::Unsubscribe, rest);
    }

    fn read_item(reader: &mut MqttBufReader<'a>) -> (r: Result<Self, PacketReadError>) {
        let c = match reader.get_reason_code_in(ReasonCodeSubset::Unsubscribe) {
            Ok(c) => c,
            Err(e) => return Err(e),
        };
        match UnsubscribeReasonCode::try_from_reason_code(c) {
            Ok(x) => {
                proof {
                    lemma_unsubscribe_reason_code_roundtrip(x, c);
                }
                Ok(x)
            },
            Err(e) => Err(e),
        }
    }

    fn write_item<W: MqttWriter>(&self, writer: &mut W) -> (r: Result<(), PacketWriteError>) {
        writer.put_u8(self.value())
    }
}

/// An Unsuback packet, the reply of a server to an Unsubscribe packet, with a reason code for each of its requests. `P` is the maximum number of properties and `S` the maximum number of items after
/// the first that reading one accepts.
#[derive(Debug, PartialEq)]
pub struct Unsuback<'a, const P: usize, const S: usize> {
    packet_identifier: PacketIdentifier,
    first_reason_code: UnsubscribeReasonCode,
    other_reason_codes: Vec<UnsubscribeReasonCode>,
    properties: Vec<UnsubackProperty<'a>>,
}

impl<'a, const P: usize, const S: usize> View for Unsuback<'a, P, S> {
    type V = ItemPacketView<ReasonCode>;

    closed spec fn view(&self) -> ItemPacketView<ReasonCode> {
        ItemPacketView {
            packet_identifier: self.packet_identifier.0,
            first: self.first_reason_code.item_view(),
            others: items_view(self.other_reason_codes@),
            properties: properties_view(self.properties@),
        }
    }
}

impl<'a, const P: usize, const S: usize> Unsuback<'a, P, S> {
    /// Create a packet
    pub fn new(
        packet_identifier: PacketIdentifier,
        first_reason_code: UnsubscribeReasonCode,
        other_reason_codes: Vec<UnsubscribeReasonCode>,
        properties: Vec<UnsubackProperty<'a>>,
    ) -> (r: Self)
        ensures
            r@ == (ItemPacketView {
                packet_identifier: packet_identifier.0,
                first: first_reason_code.item_view(),
                others: items_view(other_reason_codes@),
                properties: properties_view(properties@),
            }),
    {
        Unsuback { packet_identifier, first_reason_code, other_reason_codes, properties }
    }

    /// The packet identifier
    pub fn packet_identifier(&self) -> (r: &PacketIdentifier)
        ensures
            r.0 == self@.packet_identifier,
    {
        &self.packet_identifier
    }

    /// The reason code for the first request
    pub fn first_reason_code(&self) -> (r: &UnsubscribeReasonCode)
        ensures
            r.item_view() == self@.first,
    {
        &self.first_reason_code
    }

    /// The reason codes for the other requests
    pub fn other_reason_codes(&self) -> (r: &Vec<UnsubscribeReasonCode>)
        ensures
            items_view(r@) == self@.others,
    {
        &self.other_reason_codes
    }

    /// The properties
    pub fn properties(&self) -> (r: &Vec<UnsubackProperty<'a>>)
        ensures
            properties_view(r@) == self@.properties,
    {
        &self.properties
    }

    /// Read a whole Unsuback packet
    pub fn read(reader: &mut MqttBufReader<'a>) -> (r: Result<Self, PacketReadError>)
        ensures
            final(reader).data() == old(reader).data(),
            match parse_packet::<Self>(old(reader).rest()) {
                Ok((v, n)) => r is Ok && r->Ok_0@ == v && advanced(*old(reader), *final(reader), n),
                Err(e) => r == Err::<Self, PacketReadError>(e),
            },
    {
        read_packet(reader)
    }
}

impl<'a, const P: usize, const S: usize> Packet for Unsuback<'a, P, S> {
    open spec fn spec_packet_type() -> PacketType {
        PacketType::Unsuback
    }

    fn packet_type(&self) -> (r: PacketType) {
        PacketType::Unsuback
    }
}

impl<'a, const P: usize, const S: usize> PacketWrite for Unsuback<'a, P, S> {
    open spec fn spec_first_byte(&self) -> u8 {
        0xB0
    }

    open spec fn body_steps(&self) -> Seq<WriteStep> {
        item_packet_steps::<UnsubscribeReasonCode>(self@)
    }

    fn fixed_header_first_byte(&self) -> (r: u8) {
        0xB0
    }

    fn put_variable_header_and_payload<W: MqttWriter>(&self, writer: &mut W) -> (r: Result<(), PacketWriteError>) {
        put_item_packet(writer, self.packet_identifier.0, &self.properties, &self.first_reason_code, &self.other_reason_codes)
    }
}

impl<'a, const P: usize, const S: usize> PacketRead<'a> for Unsuback<'a, P, S> {
    open spec fn parse_body(s: Seq<u8>, first_header_byte: u8, len: nat) -> Result<(ItemPacketView<ReasonCode>, nat), PacketReadError> {
        parse_item_packet::<UnsubscribeReasonCode>(s, len, PropertyContext::Acknowledgement, PacketReadError::UnsubackWithoutValidReasonCode, P as nat, S as nat)
    }

    fn get_variable_header_and_payload(reader: &mut MqttBufReader<'a>, first_header_byte: u8, len: usize) -> (r: Result<Self, PacketReadError>) {
        match reader.get_item_packet::<UnsubscribeReasonCode>(len, PropertyContext::Acknowledgement, PacketReadError::UnsubackWithoutValidReasonCode, P, S) {
            Ok((id, properties, first_reason_code, other_reason_codes)) => Ok(Unsuback {
                packet_identifier: PacketIdentifier(id),
                first_reason_code,
                other_reason_codes,
                properties,
            }),
            Err(e) => Err(e),
        }
    }
}

/// A Unsuback packet whose properties are accepted in acknowledgements, with no more properties and
/// items after the first than reading one accepts, written without failure, reads back as
/// the same packet, whatever data follows it.
pub proof fn lemma_unsuback_roundtrip<'a, const P: usize, const S: usize>(p: Unsuback<'a, P, S>, rest: Seq<u8>)
    requires
        properties_accepted(p@.properties, PropertyContext::Acknowledgement),
        p@.properties.len() <= P,
        p@.others.len() <= S,
        steps_failure(packet_steps(p.spec_first_byte(), p.body_steps())) is None,
    ensures
        parse_packet::<Unsuback<'a, P, S>>(steps_bytes(packet_steps(p.spec_first_byte(), p.body_steps())) + rest)
            == Ok::<(ItemPacketView<ReasonCode>, nat), PacketReadError>((p@, steps_bytes(packet_steps(p.spec_first_byte(), p.body_steps())).len())),
{
    p.first_reason_code.lemma_item_view_wf();
    lemma_items_view_wf::<UnsubscribeReasonCode>(p.other_reason_codes@);
    lemma_packet_body_written(p.spec_first_byte(), p.body_steps());
    lemma_item_packet_roundtrip::<UnsubscribeReasonCode>(p@, PropertyContext::Acknowledgement, PacketReadError::UnsubackWithoutValidReasonCode, P as nat, S as nat, rest);
    lemma_packet_roundtrip(p, rest);
}

} // verus!
