use vstd::prelude::*;
use vstd::string::StringSliceAdditionalSpecFns;

use crate::codec::encoding::{str_steps, WriteStep};
use crate::codec::mqtt_reader::{advanced, lemma_advanced_trans, parse_str, parse_u8, MqttBufReader};
use crate::codec::mqtt_writer::{put_outcome, MqttWriter};
use crate::codec::write::lemma_put_then;
use crate::data::packet_identifier::PacketIdentifier;
use crate::data::packet_type::PacketType;
use crate::data::property::{properties_view, SubscribeProperty, PropertyContext};
use crate::error::{PacketReadError, PacketWriteError};
use crate::packets::packet::{
    packet_steps, parse_packet, read_packet, Packet, PacketRead, PacketWrite,
};
use crate::codec::encoding::{steps_bytes, steps_failure};
use crate::packets::laws::{lemma_packet_body_written, lemma_packet_roundtrip, properties_accepted};
use crate::packets::payload_list::{
    item_packet_steps, items_view, lemma_item_packet_roundtrip, lemma_items_view_wf,
    parse_item_packet, put_item_packet, ItemPacketView, PayloadItem,
};
use crate::data::quality_of_service::QualityOfService;
use crate::data::subscription_options::{
    subscription_options_byte, subscription_options_from_byte, RetainHandling,
    SubscriptionOptions,
};

use crate::codec::encoding::enc_u16;
use crate::codec::roundtrip::{
    lemma_steps_append, lemma_steps_one, lemma_str_steps_roundtrip, lemma_uint_steps_roundtrip,
};
use crate::data::subscription_options::lemma_subscription_options_roundtrip;
use crate::codec::mqtt_reader::{lemma_str_utf8_valid, utf8_valid};

verus! {

/// A subscription request as a mathematical value, with the topic filter given by its bytes
pub struct SubscriptionRequestView {
    pub topic_name: Seq<u8>,
    pub options: SubscriptionOptions,
}

/// Reading subscription options: one byte, decoded as [subscription_options_from_byte] does
pub open spec fn parse_subscription_options(s: Seq<u8>) -> Result<(SubscriptionOptions, nat), PacketReadError> {
    match parse_u8(s) {
        Err(e) => Err(e),
        Ok((b, n)) => match subscription_options_from_byte(b) {
            Err(e) => Err(e),
            Ok(o) => Ok((o, n)),
        },
    }
}

/// Reading a subscription request: the topic filter as a string, then the options
pub open spec fn parse_subscription_request(s: Seq<u8>) -> Result<(SubscriptionRequestView, nat), PacketReadError> {
    match parse_str(s) {
        Err(e) => Err(e),
        Ok((topic_name, n1)) => match parse_subscription_options(s.skip(n1 as int)) {
            Err(e) => Err(e),
            Ok((options, n2)) => Ok((SubscriptionRequestView { topic_name, options }, n1 + n2)),
        },
    }
}

/// A request to subscribe to a topic filter, with options
#[derive(Debug, PartialEq, Eq, Clone, Copy)]
pub struct SubscriptionRequest<'a> {
    pub topic_name: &'a str,
    pub options: SubscriptionOptions,
}

impl<'a> SubscriptionRequest<'a> {
    /// A request with a maximum quality of service, and the other options at their
    /// defaults: local messages are sent, the retain flag is not kept as published, and
    /// retained messages are sent when the subscription is made
    pub fn new(topic_name: &'a str, maximum_qos: QualityOfService) -> (r: SubscriptionRequest<'a>)
        ensures
            r.topic_name == topic_name,
            r.options == (SubscriptionOptions {
                maximum_qos,
                no_local: false,
                retain_as_published: false,
                retain_handling: RetainHandling::SendOnSubscribe,
            }),
    {
        SubscriptionRequest {
            topic_name,
            options: SubscriptionOptions {
                maximum_qos,
                no_local: false,
                retain_as_published: false,
                retain_handling: RetainHandling::SendOnSubscribe,
            },
        }
    }
}

impl<'a> MqttBufReader<'a> {
    /// Get subscription options, encoded as one byte
    pub fn get_subscription_options(&mut self) -> (r: Result<SubscriptionOptions, PacketReadError>)
        ensures
            final(self).data() == old(self).data(),
            match parse_subscription_options(old(self).rest()) {
                Ok((o, n)) => r == Ok::<SubscriptionOptions, PacketReadError>(o) && advanced(*old(self), *final(self), n),
                Err(e) => r == Err::<SubscriptionOptions, PacketReadError>(e),
            },
    {
        let b = match self.get_u8() {
            Ok(b) => b,
            Err(e) => return Err(e),
        };
        SubscriptionOptions::try_from_u8(b)
    }

    /// Get a subscription request: the topic filter, then the options
    pub fn get_subscription_request(&mut self) -> (r: Result<SubscriptionRequest<'a>, PacketReadError>)
        ensures
            final(self).data() == old(self).data(),
            match parse_subscription_request(old(self).rest()) {
                Ok((v, n)) => r is Ok && r->Ok_0.item_view() == v && advanced(*old(self), *final(self), n),
                Err(e) => r == Err::<SubscriptionRequest, PacketReadError>(e),
            },
    {
        let topic_name = match self.get_str() {
            Ok(t) => t,
            Err(e) => return Err(e),
        };
        let ghost mid = *self;
        let ghost n1 = parse_str(old(self).rest())->Ok_0.1;
        let options = match self.get_subscription_options() {
            Ok(o) => o,
            Err(e) => return Err(e),
        };
        proof {
            let n2 = parse_subscription_options(mid.rest())->Ok_0.1;
            lemma_advanced_trans(*old(self), mid, *self, n1, n2);
        }
        Ok(SubscriptionRequest { topic_name, options })
    }
}

/// Subscription options, written as their byte, read back as the same options.
#[verifier::spinoff_prover]
pub proof fn lemma_subscription_options_bytes_roundtrip(o: SubscriptionOptions, rest: Seq<u8>)
    ensures
        parse_subscription_options(seq![subscription_options_byte(o)] + rest) == Ok::<(SubscriptionOptions, nat), PacketReadError>((o, 1)),
{
    let b = subscription_options_byte(o);
    lemma_subscription_options_roundtrip(o, b);
    lemma_uint_steps_roundtrip(b, 0, 0, rest);
}

/// A subscription request with a valid topic filter, written without failure, reads back
/// as the same request.
#[verifier::spinoff_prover]
pub proof fn lemma_subscription_request_roundtrip(v: SubscriptionRequestView, rest: Seq<u8>)
    requires
        utf8_valid(v.topic_name),
        steps_failure(str_steps(v.topic_name) + seq![WriteStep::Bytes(seq![subscription_options_byte(v.options)])]) is None,
    ensures
        ({
            let bytes = steps_bytes(str_steps(v.topic_name) + seq![WriteStep::Bytes(seq![subscription_options_byte(v.options)])]);
            parse_subscription_request(bytes + rest) == Ok::<(SubscriptionRequestView, nat), PacketReadError>((v, bytes.len()))
        }),
{
    let a = str_steps(v.topic_name);
    let b = subscription_options_byte(v.options);
    lemma_steps_append(a, seq![WriteStep::Bytes(seq![b])]);
    lemma_steps_one(seq![b]);
    let ta = enc_u16(v.topic_name.len() as u16) + v.topic_name;
    lemma_str_steps_roundtrip(v.topic_name, seq![b] + rest);
    lemma_subscription_options_bytes_roundtrip(v.options, rest);
    let bytes = steps_bytes(a + seq![WriteStep::Bytes(seq![b])]);
    assert(bytes == ta + seq![b]);
    let s = bytes + rest;
    assert(s =~= ta + (seq![b] + rest));
    assert(s.skip(ta.len() as int) =~= seq![b] + rest);
}

impl<'a> PayloadItem<'a> for SubscriptionRequest<'a> {
    type ItemView = SubscriptionRequestView;

    open spec fn item_view(&self) -> SubscriptionRequestView {
        SubscriptionRequestView { topic_name: self.topic_name.spec_bytes(), options: self.options }
    }

    open spec fn parse_item(s: Seq<u8>) -> Result<(SubscriptionRequestView, nat), PacketReadError> {
        parse_subscription_request(s)
    }

    /// The topic filter, then the options as one byte
    open spec fn item_steps(v: SubscriptionRequestView) -> Seq<WriteStep> {
        str_steps(v.topic_name) + seq![WriteStep::Bytes(seq![subscription_options_byte(v.options)])]
    }

    proof fn lemma_parse_item_len(s: Seq<u8>) {
        crate::codec::mqtt_reader::lemma_parse_str_len(s);
    }

    open spec fn item_wf(v: SubscriptionRequestView) -> bool {
        utf8_valid(v.topic_name)
    }

    proof fn lemma_item_view_wf(&self) {
        lemma_str_utf8_valid(self.topic_name);
    }

    proof fn lemma_item_roundtrip(v: SubscriptionRequestView, rest: Seq<u8>) {
        lemma_subscription_request_roundtrip(v, rest);
    }

    fn read_item(reader: &mut MqttBufReader<'a>) -> (r: Result<Self, PacketReadError>) {
        reader.get_subscription_request()
    }

    fn write_item<W: MqttWriter>(&self, writer: &mut W) -> (r: Result<(), PacketWriteError>) {
        let ghost w0 = writer.written();
        let ghost m0 = writer.room();
        let ghost a = str_steps(self.topic_name.spec_bytes());
        let ghost b = seq![WriteStep::Bytes(seq![subscription_options_byte(self.options)])];
        let r1 = writer.put_str(self.topic_name);
        if r1.is_err() {
            proof {
                crate::codec::write::lemma_put_stop(w0, m0, writer.written(), writer.room(), r1, a, b);
            }
            return r1;
        }
        let ghost w1 = writer.written();
        let ghost m1 = writer.room();
        let r2 = writer.put_u8(self.options.to_u8());
        proof {
            lemma_put_then(w0, m0, w1, m1, r1, a, writer.written(), writer.room(), r2, b);
        }
        r2
    }
}

/// A Subscribe packet, asking a server for subscriptions to topic filters. `P` is the maximum number of properties and `S` the maximum number of items after
/// the first that reading one accepts.
#[derive(Debug, PartialEq)]
pub struct Subscribe<'a, const P: usize, const S: usize> {
    packet_identifier: PacketIdentifier,
    primary_request: SubscriptionRequest<'a>,
    additional_requests: Vec<SubscriptionRequest<'a>>,
    properties: Vec<SubscribeProperty<'a>>,
}

impl<'a, const P: usize, const S: usize> View for Subscribe<'a, P, S> {
    type V = ItemPacketView<SubscriptionRequestView>;

    closed spec fn view(&self) -> ItemPacketView<SubscriptionRequestView> {
        ItemPacketView {
            packet_identifier: self.packet_identifier.0,
            first: self.primary_request.item_view(),
            others: items_view(self.additional_requests@),
            properties: properties_view(self.properties@),
        }
    }
}

impl<'a, const P: usize, const S: usize> Subscribe<'a, P, S> {
    /// Create a packet
    pub fn new(
        packet_identifier: PacketIdentifier,
        primary_request: SubscriptionRequest<'a>,
        additional_requests: Vec<SubscriptionRequest<'a>>,
        properties: Vec<SubscribeProperty<'a>>,
    ) -> (r: Self)
        ensures
            r@ == (ItemPacketView {
                packet_identifier: packet_identifier.0,
                first: primary_request.item_view(),
                others: items_view(additional_requests@),
                properties: properties_view(properties@),
            }),
    {
        Subscribe { packet_identifier, primary_request, additional_requests, properties }
    }

    /// The packet identifier
    pub fn packet_identifier(&self) -> (r: &PacketIdentifier)
        ensures
            r.0 == self@.packet_identifier,
    {
        &self.packet_identifier
    }

    /// The first subscription request
    pub fn primary_request(&self) -> (r: &SubscriptionRequest<'a>)
        ensures
            r.item_view() == self@.first,
    {
        &self.primary_request
    }

    /// The other subscription requests
    pub fn additional_requests(&self) -> (r: &Vec<SubscriptionRequest<'a>>)
        ensures
            items_view(r@) == self@.others,
    {
        &self.additional_requests
    }

    /// The properties
    pub fn properties(&self) -> (r: &Vec<SubscribeProperty<'a>>)
        ensures
            properties_view(r@) == self@.properties,
    {
        &self.properties
    }

    /// Read a whole Subscribe packet
    pub fn read(reader: &mut MqttBufReader<'a>) -> (r: Result<Self, PacketReadError>)
        ensures
            final(reader).data() == old(reader).data(),
            match parse_packet::<Self>(old(reader).rest()) {
                Ok((v, n)) => r is Ok && r->Ok_0@ == v && advanced(*old(reader), *final(reader), n),
                Err(e) => r == Err::<Self, PacketReadError>(e),
            },
    {
        read_packet(reader)
    }
}

impl<'a, const P: usize, const S: usize> Packet for Subscribe<'a, P, S> {
    open spec fn spec_packet_type() -> PacketType {
        PacketType::Subscribe
    }

    fn packet_type(&self) -> (r: PacketType) {
        PacketType::Subscribe
    }
}

impl<'a, const P: usize, const S: usize> PacketWrite for Subscribe<'a, P, S> {
    open spec fn spec_first_byte(&self) -> u8 {
        0x82
    }

    open spec fn body_steps(&self) -> Seq<WriteStep> {
        item_packet_steps::<SubscriptionRequest<'a>>(self@)
    }

    fn fixed_header_first_byte(&self) -> (r: u8) {
        0x82
    }

    fn put_variable_header_and_payload<W: MqttWriter>(&self, writer: &mut W) -> (r: Result<(), PacketWriteError>) {
        put_item_packet(writer, self.packet_identifier.0, &self.properties, &self.primary_request, &self.additional_requests)
    }
}

impl<'a, const P: usize, const S: usize> PacketRead<'a> for Subscribe<'a, P, S> {
    open spec fn parse_body(s: Seq<u8>, first_header_byte: u8, len: nat) -> Result<(ItemPacketView<SubscriptionRequestView>, nat), PacketReadError> {
        parse_item_packet::<SubscriptionRequest<'a>>(s, len, PropertyContext::Subscribe, PacketReadError::SubscribeWithoutValidSubscriptionRequest, P as nat, S as nat)
    }

    fn get_variable_header_and_payload(reader: &mut MqttBufReader<'a>, first_header_byte: u8, len: usize) -> (r: Result<Self, PacketReadError>) {
        match reader.get_item_packet::<SubscriptionRequest<'a>>(len, PropertyContext::Subscribe, PacketReadError::SubscribeWithoutValidSubscriptionRequest, P, S) {
            Ok((id, properties, primary_request, additional_requests)) => Ok(Subscribe {
                packet_identifier: PacketIdentifier(id),
                primary_request,
                additional_requests,
                properties,
            }),
            Err(e) => Err(e),
        }
    }
}

impl<'a, const P: usize, const S: usize> Subscribe<'a, P, S> {
    /// The number of subscription requests: the first and the others (at most the largest
    /// usize)
    pub fn request_count(&self) -> (r: usize)
        ensures
            r == (if self@.others.len() < usize::MAX { 1 + self@.others.len() } else { usize::MAX as nat }),
    {
        assert(items_view(self.additional_requests@).len() == self.additional_requests@.len());
        if self.additional_requests.len() < usize::MAX {
            1 + self.additional_requests.len()
        } else {
            usize::MAX
        }
    }

    /// The maximum quality of service of the first subscription request
    pub fn request_maximum_qos(&self) -> (r: QualityOfService)
        ensures
            r == self@.first.options.maximum_qos,
    {
        self.primary_request.options.maximum_qos
    }
}

/// A Subscribe packet whose properties are accepted in Subscribe packets, with no more properties and
/// items after the first than reading one accepts, written without failure, reads back as
/// the same packet, whatever data follows it.
pub proof fn lemma_subscribe_roundtrip<'a, const P: usize, const S: usize>(p: Subscribe<'a, P, S>, rest: Seq<u8>)
    requires
        properties_accepted(p@.properties, PropertyContext::Subscribe),
        p@.properties.len() <= P,
        p@.others.len() <= S,
        steps_failure(packet_steps(p.spec_first_byte(), p.body_steps())) is None,
    ensures
        parse_packet::<Subscribe<'a, P, S>>(steps_bytes(packet_steps(p.spec_first_byte(), p.body_steps())) + rest)
            == Ok::<(ItemPacketView<SubscriptionRequestView>, nat), PacketReadError>((p@, steps_bytes(packet_steps(p.spec_first_byte(), p.body_steps())).len())),
{
    p.primary_request.lemma_item_view_wf();
    lemma_items_view_wf::<SubscriptionRequest<'a>>(p.additional_requests@);
    lemma_packet_body_written(p.spec_first_byte(), p.body_steps());
    lemma_item_packet_roundtrip::<SubscriptionRequest<'a>>(p@, PropertyContext::Subscribe, PacketReadError::SubscribeWithoutValidSubscriptionRequest, P as nat, S as nat, rest);
    lemma_packet_roundtrip(p, rest);
}

} // verus!
