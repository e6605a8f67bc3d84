use vstd::prelude::*;
use vstd::string::StringSliceAdditionalSpecFns;

use crate::codec::encoding::{str_steps, WriteStep};
use crate::codec::mqtt_reader::{advanced, lemma_advanced_trans, parse_str, parse_u8, MqttBufReader};
use crate::codec::mqtt_writer::{put_outcome, MqttWriter};
use crate::codec::write::lemma_put_then;
use crate::data::packet_identifier::PacketIdentifier;
use crate::data::packet_type::PacketType;
use crate::data::property::{properties_view, UnsubscribeProperty, PropertyContext};
use crate::error::{PacketReadError, PacketWriteError};
use crate::packets::packet::{
    packet_steps, parse_packet, read_packet, Packet, PacketRead, PacketWrite,
};
use crate::codec::encoding::{steps_bytes, steps_failure};
use crate::packets::laws::{lemma_packet_body_written, lemma_packet_roundtrip, properties_accepted};
use crate::packets::payload_list::{
    item_packet_steps, items_view, lemma_item_packet_roundtrip, lemma_items_view_wf,
    parse_item_packet, put_item_packet, ItemPacketView, PayloadItem,
};

use crate::codec::roundtrip::lemma_str_steps_roundtrip;
use crate::codec::mqtt_reader::{lemma_str_utf8_valid, utf8_valid};

verus! {

impl<'a> PayloadItem<'a> for &'a str {
    type ItemView = Seq<u8>;

    open spec fn item_view(&self) -> Seq<u8> {
        self.spec_bytes()
    }

    open spec fn parse_item(s: Seq<u8>) -> Result<(Seq<u8>, nat), PacketReadError> {
        parse_str(s)
    }

    open spec fn item_steps(v: Seq<u8>) -> Seq<WriteStep> {
        str_steps(v)
    }

    proof fn lemma_parse_item_len(s: Seq<u8>) {
        crate::codec::mqtt_reader::lemma_parse_str_len(s);
    }

    open spec fn item_wf(v: Seq<u8>) -> bool {
        utf8_valid(v)
    }

    proof fn lemma_item_view_wf(&self) {
        lemma_str_utf8_valid(*self);
    }

    proof fn lemma_item_roundtrip(v: Seq<u8>, rest: Seq<u8>) {
        lemma_str_steps_roundtrip(v, rest);
    }

    fn read_item(reader: &mut MqttBufReader<'a>) -> (r: Result<Self, PacketReadError>) {
        reader.get_str()
    }

    fn write_item<W: MqttWriter>(&self, writer: &mut W) -> (r: Result<(), PacketWriteError>) {
        writer.put_str(self)
    }
}

/// An Unsubscribe packet, asking a server to end subscriptions to topic filters. `P` is the maximum number of properties and `S` the maximum number of items after
/// the first that reading one accepts.
#[derive(Debug, PartialEq)]
pub struct Unsubscribe<'a, const P: usize, const S: usize> {
    packet_identifier: PacketIdentifier,
    first_request: &'a str,
    other_requests: Vec<&'a str>,
    properties: Vec<UnsubscribeProperty<'a>>,
}

impl<'a, const P: usize, const S: usize> View for Unsubscribe<'a, P, S> {
    type V = ItemPacketView<Seq<u8>>;

    closed spec fn view(&self) -> ItemPacketView<Seq<u8>> {
        ItemPacketView {
            packet_identifier: self.packet_identifier.0,
            first: self.first_request.item_view(),
            others: items_view(self.other_requests@),
            properties: properties_view(self.properties@),
        }
    }
}

impl<'a, const P: usize, const S: usize> Unsubscribe<'a, P, S> {
    /// Create a packet
    pub fn new(
        packet_identifier: PacketIdentifier,
        first_request: &'a str,
        other_requests: Vec<&'a str>,
        properties: Vec<UnsubscribeProperty<'a>>,
    ) -> (r: Self)
        ensures
            r@ == (ItemPacketView {
                packet_identifier: packet_identifier.0,
                first: first_request.item_view(),
                others: items_view(other_requests@),
                properties: properties_view(properties@),
            }),
    {
        Unsubscribe { packet_identifier, first_request, other_requests, properties }
    }

    /// The packet identifier
    pub fn packet_identifier(&self) -> (r: &PacketIdentifier)
        ensures
            r.0 == self@.packet_identifier,
    {
        &self.packet_identifier
    }

    /// The first topic filter to unsubscribe from
    pub fn first_request(&self) -> (r: &&'a str)
        ensures
            r.item_view() == self@.first,
    {
        &self.first_request
    }

    /// The other topic filters to unsubscribe from
    pub fn other_requests(&self) -> (r: &Vec<&'a str>)
        ensures
            items_view(r@) == self@.others,
    {
        &self.other_requests
    }

    /// The properties
    pub fn properties(&self) -> (r: &Vec<UnsubscribeProperty<'a>>)
        ensures
            properties_view(r@) == self@.properties,
    {
        &self.properties
    }

    /// Read a whole Unsubscribe packet
    pub fn read(reader: &mut MqttBufReader<'a>) -> (r: Result<Self, PacketReadError>)
        ensures
            final(reader).data() == old(reader).data(),
            match parse_packet::<Self>(old(reader).rest()) {
                Ok((v, n)) => r is Ok && r->Ok_0@ == v && advanced(*old(reader), *final(reader), n),
                Err(e) => r == Err::<Self, PacketReadError>(e),
            },
    {
        read_packet(reader)
    }
}

impl<'a, const P: usize, const S: usize> Packet for Unsubscribe<'a, P, S> {
    open spec fn spec_packet_type() -> PacketType {
        PacketType::Unsubscribe
    }

    fn packet_type(&self) -> (r: PacketType) {
        PacketType::Unsubscribe
    }
}

impl<'a, const P: usize, const S: usize> PacketWrite for Unsubscribe<'a, P, S> {
    open spec fn spec_first_byte(&self) -> u8 {
        0xA2
    }

    open spec fn body_steps(&self) -> Seq<WriteStep> {
        item_packet_steps::<&'a str>(self@)
    }

    fn fixed_header_first_byte(&self) -> (r: u8) {
        0xA2
    }

    fn put_variable_header_and_payload<W: MqttWriter>(&self, writer: &mut W) -> (r: Result<(), PacketWriteError>) {
        put_item_packet(writer, self.packet_identifier.0, &self.properties, &self.first_request, &self.other_requests)
    }
}

impl<'a, const P: usize, const S: usize> PacketRead<'a> for Unsubscribe<'a, P, S> {
    open spec fn parse_body(s: Seq<u8>, first_header_byte: u8, len: nat) -> Result<(ItemPacketView<Seq<u8>>, nat), PacketReadError> {
        parse_item_packet::<&'a str>(s, len, PropertyContext::Unsubscribe, PacketReadError::UnsubscribeWithoutValidSubscriptionRequest, P as nat, S as nat)
    }

    fn get_variable_header_and_payload(reader: &mut MqttBufReader<'a>, first_header_byte: u8, len: usize) -> (r: Result<Self, PacketReadError>) {
        match reader.get_item_packet::<&'a str>(len, PropertyContext::Unsubscribe, PacketReadError::UnsubscribeWithoutValidSubscriptionRequest, P, S) {
            Ok((id, properties, first_request, other_requests)) => Ok(Unsubscribe {
                packet_identifier: PacketIdentifier(id),
                first_request,
                other_requests,
                properties,
            }),
            Err(e) => Err(e),
        }
    }
}

/// A Unsubscribe packet whose properties are accepted in Unsubscribe packets, with no more properties and
/// items after the first than reading one accepts, written without failure, reads back as
/// the same packet, whatever data follows it.
pub proof fn lemma_unsubscribe_roundtrip<'a, const P: usize, const S: usize>(p: Unsubscribe<'a, P, S>, rest: Seq<u8>)
    requires
        properties_accepted(p@.properties, PropertyContext::Unsubscribe),
        p@.properties.len() <= P,
        p@.others.len() <= S,
        steps_failure(packet_steps(p.spec_first_byte(), p.body_steps())) is None,
    ensures
        parse_packet::<Unsubscribe<'a, P, S>>(steps_bytes(packet_steps(p.spec_first_byte(), p.body_steps())) + rest)
            == Ok::<(ItemPacketView<Seq<u8>>, nat), PacketReadError>((p@, steps_bytes(packet_steps(p.spec_first_byte(), p.body_steps())).len())),
{
    p.first_request.lemma_item_view_wf();
    lemma_items_view_wf::<&'a str>(p.other_requests@);
    lemma_packet_body_written(p.spec_first_byte(), p.body_steps());
    lemma_item_packet_roundtrip::<&'a str>(p@, PropertyContext::Unsubscribe, PacketReadError::UnsubscribeWithoutValidSubscriptionRequest, P as nat, S as nat, rest);
    lemma_packet_roundtrip(p, rest);
}

} // verus!
