use vstd::prelude::*;
use vstd::string::StringSliceAdditionalSpecFns;

use crate::codec::encoding::{enc_u16, str_steps, WriteStep};
use crate::codec::mqtt_reader::{
    advanced, lemma_advanced_trans, parse_str, parse_u16, MqttBufReader,
};
use crate::codec::mqtt_writer::{put_outcome, MqttWriter};
use crate::codec::write::{lemma_put_nothing, lemma_put_stop, lemma_put_then};
use crate::data::packet_identifier::{
    publish_identifier_qos, PacketIdentifier, PublishPacketIdentifier,
};
use crate::data::packet_type::PacketType;
use crate::data::property::{
    parse_property_list, properties_view, PropertyContext, PropertyView, PublishProperty,
};
use crate::data::quality_of_service::{qos_value, QualityOfService};
use crate::codec::encoding::{steps_bytes, steps_failure};
use crate::codec::roundtrip::{
    lemma_steps_append, lemma_steps_one, lemma_str_steps_roundtrip, lemma_uint_steps_roundtrip,
};
use crate::error::{PacketReadError, PacketWriteError};
use crate::packets::laws::{
    lemma_packet_body_written, lemma_packet_roundtrip, lemma_property_list_roundtrip,
    properties_accepted,
};
use crate::packets::packet::{
    packet_steps,
    parse_packet, property_list_steps, put_properties, read_packet, Packet, PacketRead,
    PacketWrite,
};

verus! {

/// A Publish packet as a mathematical value, with the topic name and payload given by
/// their bytes
pub struct PublishView {
    pub duplicate: bool,
    pub retain: bool,
    pub topic_name: Seq<u8>,
    pub packet_identifier: PublishPacketIdentifier,
    pub payload: Seq<u8>,
    pub properties: Seq<PropertyView>,
}

/// The first header byte of a Publish packet: the packet type, then the retain flag in bit
/// 0, the quality of service in bits 1 and 2 and the duplicate flag in bit 3
pub open spec fn publish_first_byte(duplicate: bool, retain: bool, qos: QualityOfService) -> u8 {
    (0x30 + (if retain { 1u8 } else { 0u8 }) + 2 * qos_value(qos) + (if duplicate { 8u8 } else { 0u8 })) as u8
}

/// The steps of writing the packet identifier of a Publish packet: none for quality of
/// service 0, otherwise the identifier as a u16
pub open spec fn publish_identifier_steps(id: PublishPacketIdentifier) -> Seq<WriteStep> {
    match id {
        PublishPacketIdentifier::Qos0 => Seq::empty(),
        PublishPacketIdentifier::Qos1(i) => seq![WriteStep::Bytes(enc_u16(i.0))],
        PublishPacketIdentifier::Qos2(i) => seq![WriteStep::Bytes(enc_u16(i.0))],
    }
}

/// The steps of writing the variable header and payload of a Publish packet: the topic
/// name, the packet identifier, the property list, then the payload as raw bytes (its length
/// is what remains of the packet)
pub open spec fn publish_steps(v: PublishView) -> Seq<WriteStep> {
    str_steps(v.topic_name) + publish_identifier_steps(v.packet_identifier) + property_list_steps(
        v.properties,
    ) + seq![WriteStep::Bytes(v.payload)]
}

/// Reading the packet identifier of a Publish packet whose quality of service bits hold
/// `qos`: none for 0, a u16 for 1 and 2, and [PacketReadError::InvalidQosValue] for 3
pub open spec fn parse_publish_identifier(s: Seq<u8>, qos: u8) -> Result<(PublishPacketIdentifier, nat), PacketReadError> {
    if qos == 0 {
        Ok((PublishPacketIdentifier::Qos0, 0))
    } else if qos == 1 || qos == 2 {
        match parse_u16(s) {
            Err(e) => Err(e),
            Ok((id, n)) => Ok(
                (if qos == 1 {
                    PublishPacketIdentifier::Qos1(PacketIdentifier(id))
                } else {
                    PublishPacketIdentifier::Qos2(PacketIdentifier(id))
                }, n),
            ),
        }
    } else {
        Err(PacketReadError::InvalidQosValue)
    }
}

/// Reading the variable header and payload of a Publish packet with first header byte
/// `first` and remaining length `len`: the flags come from the first byte; then the topic
/// name, the packet identifier and the property list are read, which must not take more
/// than the remaining length (otherwise [PacketReadError::IncorrectPacketLength]), and the
/// rest of the remaining length is the payload
pub open spec fn parse_publish(s: Seq<u8>, first: u8, len: nat, capacity: nat) -> Result<(PublishView, nat), PacketReadError> {
    let retain = first % 2 == 1;
    let duplicate = (first / 8) % 2 == 1;
    let qos = (first / 2) % 4;
    match parse_str(s) {
        Err(e) => Err(e),
        Ok((topic_name, n1)) => match parse_publish_identifier(s.skip(n1 as int), qos) {
            Err(e) => Err(e),
            Ok((packet_identifier, n2)) => match parse_property_list(s.skip((n1 + n2) as int), PropertyContext::Publish, capacity) {
                Err(e) => Err(e),
                Ok((properties, n3)) => {
                    let read = n1 + n2 + n3;
                    if read > len {
                        Err(PacketReadError::IncorrectPacketLength)
                    } else if len > s.len() {
                        Err(PacketReadError::InsufficientData)
                    } else {
                        Ok((PublishView {
                            duplicate,
                            retain,
                            topic_name,
                            packet_identifier,
                            payload: s.subrange(read as int, len as int),
                            properties,
                        }, len))
                    }
                },
            },
        },
    }
}

/// A Publish packet, carrying an application message. `P` is the maximum number of
/// properties that reading one accepts.
#[derive(Debug, PartialEq)]
pub struct Publish<'a, const P: usize> {
    duplicate: bool,
    retain: bool,
    topic_name: &'a str,
    publish_packet_identifier: PublishPacketIdentifier,
    payload: &'a [u8],
    properties: Vec<PublishProperty<'a>>,
}

impl<'a, const P: usize> View for Publish<'a, P> {
    type V = PublishView;

    closed spec fn view(&self) -> PublishView {
        PublishView {
            duplicate: self.duplicate,
            retain: self.retain,
            topic_name: self.topic_name.spec_bytes(),
            packet_identifier: self.publish_packet_identifier,
            payload: self.payload@,
            properties: properties_view(self.properties@),
        }
    }
}

impl<'a, const P: usize> Publish<'a, P> {
    /// Create a packet
    pub fn new(
        duplicate: bool,
        retain: bool,
        topic_name: &'a str,
        packet_identifier: PublishPacketIdentifier,
        payload: &'a [u8],
        properties: Vec<PublishProperty<'a>>,
    ) -> (r: Self)
        ensures
            r@ == (PublishView {
                duplicate,
                retain,
                topic_name: topic_name.spec_bytes(),
                packet_identifier,
                payload: payload@,
                properties: properties_view(properties@),
            }),
            r.spec_topic_name() == topic_name,
            r.spec_payload() == payload,
    {
        Publish {
            duplicate,
            retain,
            topic_name,
            publish_packet_identifier: packet_identifier,
            payload,
            properties,
        }
    }

    /// The topic name
    pub closed spec fn spec_topic_name(&self) -> &'a str {
        self.topic_name
    }

    /// The payload
    pub closed spec fn spec_payload(&self) -> &'a [u8] {
        self.payload
    }

    /// Whether this may be a re-delivery of an earlier attempt to send the packet
    pub fn duplicate(&self) -> (r: bool)
        ensures
            r == self@.duplicate,
    {
        self.duplicate
    }

    /// Whether the message is to be retained by the server
    pub fn retain(&self) -> (r: bool)
        ensures
            r == self@.retain,
    {
        self.retain
    }

    /// The topic name
    pub fn topic_name(&self) -> (r: &'a str)
        ensures
            r.spec_bytes() == self@.topic_name,
            r == self.spec_topic_name(),
    {
        self.topic_name
    }

    /// The packet identifier, which also gives the quality of service
    pub fn publish_packet_identifier(&self) -> (r: &PublishPacketIdentifier)
        ensures
            *r == self@.packet_identifier,
    {
        &self.publish_packet_identifier
    }

    /// The quality of service, given by the packet identifier
    pub fn qos(&self) -> (r: QualityOfService)
        ensures
            r == publish_identifier_qos(self@.packet_identifier),
    {
        self.publish_packet_identifier.qos()
    }

    /// The payload
    pub fn payload(&self) -> (r: &'a [u8])
        ensures
            r@ == self@.payload,
            r == self.spec_payload(),
    {
        self.payload
    }

    /// The properties
    pub fn properties(&self) -> (r: &Vec<PublishProperty<'a>>)
        ensures
            properties_view(r@) == self@.properties,
    {
        &self.properties
    }

    /// Read a whole Publish packet
    pub fn read(reader: &mut MqttBufReader<'a>) -> (r: Result<Self, PacketReadError>)
        ensures
            final(reader).data() == old(reader).data(),
            match parse_packet::<Self>(old(reader).rest()) {
                Ok((v, n)) => r is Ok && r->Ok_0@ == v && advanced(*old(reader), *final(reader), n),
                Err(e) => r == Err::<Self, PacketReadError>(e),
            },
    {
        read_packet(reader)
    }
}

impl<'a, const P: usize> Packet for Publish<'a, P> {
    open spec fn spec_packet_type() -> PacketType {
        PacketType::Publish
    }

    fn packet_type(&self) -> (r: PacketType) {
        PacketType::Publish
    }
}

impl<'a, const P: usize> PacketWrite for Publish<'a, P> {
    open spec fn spec_first_byte(&self) -> u8 {
        publish_first_byte(self@.duplicate, self@.retain, publish_identifier_qos(self@.packet_identifier))
    }

    open spec fn body_steps(&self) -> Seq<WriteStep> {
        publish_steps(self@)
    }

    fn fixed_header_first_byte(&self) -> (r: u8) {
        let mut b: u8 = 0x30;
        if self.retain {
            b = b + 1;
        }
        b = b + 2 * self.publish_packet_identifier.qos().value();
        if self.duplicate {
            b = b + 8;
        }
        b
    }

    fn put_variable_header_and_payload<W: MqttWriter>(&self, writer: &mut W) -> (r: Result<(), PacketWriteError>) {
        let ghost w0 = writer.written();
        let ghost m0 = writer.room();
        let ghost v = self@;
        let ghost a = str_steps(v.topic_name);
        let ghost b = publish_identifier_steps(v.packet_identifier);
        let ghost c = property_list_steps(v.properties);
        let ghost d = seq![WriteStep::Bytes(v.payload)];
        let r1 = writer.put_str(self.topic_name);
        let ghost w1 = writer.written();
        let ghost m1 = writer.room();
        if r1.is_err() {
            proof {
                lemma_put_stop(w0, m0, w1, m1, r1, a, b + c + d);
                assert(a + (b + c + d) =~= publish_steps(v));
            }
            return r1;
        }
        let r2 = match self.publish_packet_identifier {
            PublishPacketIdentifier::Qos0 => {
                proof {
                    lemma_put_nothing(w1, m1);
                }
                Ok(())
            },
            PublishPacketIdentifier::Qos1(id) => writer.put_u16(id.0),
            PublishPacketIdentifier::Qos2(id) => writer.put_u16(id.0),
        };
        let ghost w2 = writer.written();
        let ghost m2 = writer.room();
        proof {
            lemma_put_then(w0, m0, w1, m1, r1, a, w2, m2, r2, b);
        }
        if r2.is_err() {
            proof {
                lemma_put_stop(w0, m0, w2, m2, r2, a + b, c + d);
                assert(a + b + (c + d) =~= publish_steps(v));
            }
            return r2;
        }
        let r3 = put_properties(writer, &self.properties);
        let ghost w3 = writer.written();
        let ghost m3 = writer.room();
        proof {
            lemma_put_then(w0, m0, w2, m2, r2, a + b, w3, m3, r3, c);
        }
        if r3.is_err() {
            proof {
                lemma_put_stop(w0, m0, w3, m3, r3, a + b + c, d);
            }
            return r3;
        }
        let r4 = writer.put_slice(self.payload);
        proof {
            lemma_put_then(w0, m0, w3, m3, r3, a + b + c, writer.written(), writer.room(), r4, d);
        }
        r4
    }
}

impl<'a, const P: usize> PacketRead<'a> for Publish<'a, P> {
    open spec fn parse_body(s: Seq<u8>, first_header_byte: u8, len: nat) -> Result<(PublishView, nat), PacketReadError> {
        parse_publish(s, first_header_byte, len, P as nat)
    }

    #[verifier::rlimit(30)]
    fn get_variable_header_and_payload(reader: &mut MqttBufReader<'a>, first_header_byte: u8, len: usize) -> (r: Result<Self, PacketReadError>) {
        let ghost s0 = reader.rest();
        let start = reader.position();
        let retain = first_header_byte & 1 != 0;
        let duplicate = first_header_byte & 8 != 0;
        let qos = (first_header_byte >> 1) & 3;
        assert(first_header_byte & 1 != 0 <==> first_header_byte % 2 == 1) by (bit_vector);
        assert(first_header_byte & 8 != 0 <==> (first_header_byte / 8) % 2 == 1) by (bit_vector);
        assert((first_header_byte >> 1) & 3 == (first_header_byte / 2) % 4) by (bit_vector);
        let topic_name = match reader.get_str() {
            Ok(t) => t,
            Err(e) => return Err(e),
        };
        let ghost r1 = *reader;
        let ghost n1 = parse_str(s0)->Ok_0.1;
        let packet_identifier = if qos == 0 {
            PublishPacketIdentifier::Qos0
        } else if qos == 1 || qos == 2 {
            let id = match reader.get_u16() {
                Ok(id) => id,
                Err(e) => return Err(e),
            };
            if qos == 1 {
                PublishPacketIdentifier::Qos1(PacketIdentifier(id))
            } else {
                PublishPacketIdentifier::Qos2(PacketIdentifier(id))
            }
        } else {
            return Err(PacketReadError::InvalidQosValue);
        };
        let ghost r2 = *reader;
        let ghost n2 = parse_publish_identifier(r1.rest(), qos)->Ok_0.1;
        proof {
            if qos == 0 {
                assert(r1.rest().skip(0) =~= r1.rest());
            }
            lemma_advanced_trans(*old(reader), r1, r2, n1, n2);
            assert(r2.rest() =~= s0.skip((n1 + n2) as int));
        }
        let properties = match reader.get_property_list(PropertyContext::Publish, P) {
            Ok(ps) => ps,
            Err(e) => return Err(e),
        };
        let ghost r3 = *reader;
        proof {
            let n3 = parse_property_list(r2.rest(), PropertyContext::Publish, P as nat)->Ok_0.1;
            lemma_advanced_trans(*old(reader), r2, r3, n1 + n2, n3);
        }
        let read = reader.position() - start;
        if read > len {
            return Err(PacketReadError::IncorrectPacketLength);
        }
        let payload = match reader.get_slice(len - read) {
            Ok(p) => p,
            Err(e) => return Err(e),
        };
        proof {
            lemma_advanced_trans(*old(reader), r3, *reader, read as nat, (len - read) as nat);
            assert(payload@ =~= s0.subrange(read as int, len as int));
        }
        Ok(Publish {
            duplicate,
            retain,
            topic_name,
            publish_packet_identifier: packet_identifier,
            payload,
            properties,
        })
    }
}

/// The parts of a Publish packet that matter to the application
#[derive(Debug, PartialEq)]
pub struct ApplicationMessage<'a, const P: usize> {
    pub topic_name: &'a str,
    pub payload: &'a [u8],
    pub qos: QualityOfService,
    pub retain: bool,
    pub properties: Vec<PublishProperty<'a>>,
}

impl<'a, const P: usize> ApplicationMessage<'a, P> {
    /// The application message of a Publish packet
    pub fn from_publish(p: Publish<'a, P>) -> (r: Self)
        ensures
            r.topic_name == p.spec_topic_name(),
            r.payload == p.spec_payload(),
            r.qos == publish_identifier_qos(p@.packet_identifier),
            r.retain == p@.retain,
            properties_view(r.properties@) == p@.properties,
    {
        let qos = p.qos();
        ApplicationMessage {
            retain: p.retain,
            topic_name: p.topic_name,
            qos,
            payload: p.payload,
            properties: p.properties,
        }
    }
}

/// The flags of the first header byte of a Publish packet read back as they were written.
pub proof fn lemma_publish_first_byte(duplicate: bool, retain: bool, qos: QualityOfService)
    ensures
        ({
            let first = publish_first_byte(duplicate, retain, qos);
            &&& first % 2 == 1 <==> retain
            &&& (first / 8) % 2 == 1 <==> duplicate
            &&& (first / 2) % 4 == qos_value(qos)
            &&& first / 16 == 3
        }),
{
}

/// The bytes of the variable header and payload of a Publish packet written without
/// failure: the topic name with its length, the packet identifier, the property list and
/// the payload.
pub proof fn lemma_publish_bytes(v: PublishView)
    requires
        steps_failure(publish_steps(v)) is None,
    ensures
        steps_failure(str_steps(v.topic_name)) is None,
        steps_failure(property_list_steps(v.properties)) is None,
        steps_bytes(publish_steps(v)) == steps_bytes(str_steps(v.topic_name)) + steps_bytes(publish_identifier_steps(v.packet_identifier))
            + steps_bytes(property_list_steps(v.properties)) + v.payload,
{
    let a = str_steps(v.topic_name);
    let b = publish_identifier_steps(v.packet_identifier);
    let c = property_list_steps(v.properties);
    let d = seq![WriteStep::Bytes(v.payload)];
    lemma_steps_append(a + b + c, d);
    lemma_steps_append(a + b, c);
    lemma_steps_append(a, b);
    lemma_steps_one(v.payload);
}

/// The variable header and payload of a Publish packet, with a valid topic name and
/// properties accepted in Publish packets with room for them, written without failure,
/// read back as the same packet when the first header byte holds its flags and the
/// remaining length is the length written.
#[verifier::spinoff_prover]
#[verifier::rlimit(40)]
pub proof fn lemma_publish_body_roundtrip(v: PublishView, capacity: nat, rest: Seq<u8>)
    requires
        crate::codec::mqtt_reader::utf8_valid(v.topic_name),
        properties_accepted(v.properties, PropertyContext::Publish),
        v.properties.len() <= capacity,
        steps_failure(publish_steps(v)) is None,
    ensures
        parse_publish(
            steps_bytes(publish_steps(v)) + rest,
            publish_first_byte(v.duplicate, v.retain, publish_identifier_qos(v.packet_identifier)),
            steps_bytes(publish_steps(v)).len(),
            capacity,
        ) == Ok::<(PublishView, nat), PacketReadError>((v, steps_bytes(publish_steps(v)).len())),
{
    let first = publish_first_byte(v.duplicate, v.retain, publish_identifier_qos(v.packet_identifier));
    lemma_publish_first_byte(v.duplicate, v.retain, publish_identifier_qos(v.packet_identifier));
    lemma_publish_bytes(v);
    let bb = steps_bytes(publish_identifier_steps(v.packet_identifier));
    let cb = steps_bytes(property_list_steps(v.properties));
    let tail = bb + cb + v.payload + rest;
    lemma_str_steps_roundtrip(v.topic_name, tail);
    let ta = enc_u16(v.topic_name.len() as u16) + v.topic_name;
    let body = steps_bytes(publish_steps(v));
    let s = body + rest;
    assert(s =~= ta + tail);
    let n1 = ta.len();
    assert(parse_str(s) == Ok::<(Seq<u8>, nat), PacketReadError>((v.topic_name, n1)));
    assert(s.skip(n1 as int) =~= tail);
    let after_id = cb + (v.payload + rest);
    assert(parse_publish_identifier(tail, (first / 2) % 4) == Ok::<(PublishPacketIdentifier, nat), PacketReadError>((v.packet_identifier, bb.len()))) by {
        match v.packet_identifier {
            PublishPacketIdentifier::Qos0 => {
                assert(bb =~= Seq::<u8>::empty());
            },
            PublishPacketIdentifier::Qos1(i) => {
                lemma_steps_one(enc_u16(i.0));
                lemma_uint_steps_roundtrip(0, i.0, 0, after_id);
                assert(tail =~= enc_u16(i.0) + after_id);
            },
            PublishPacketIdentifier::Qos2(i) => {
                lemma_steps_one(enc_u16(i.0));
                lemma_uint_steps_roundtrip(0, i.0, 0, after_id);
                assert(tail =~= enc_u16(i.0) + after_id);
            },
        }
    }
    let n2 = bb.len();
    assert(s.skip((n1 + n2) as int) =~= after_id);
    lemma_property_list_roundtrip(v.properties, PropertyContext::Publish, capacity, v.payload + rest);
    let n3 = cb.len();
    assert(body.len() == n1 + n2 + n3 + v.payload.len());
    assert(s.subrange((n1 + n2 + n3) as int, body.len() as int) =~= v.payload);
}

/// A Publish packet whose properties are accepted in Publish packets, and are no more than
/// reading one accepts, written without failure, reads back as the same packet, whatever
/// data follows it: the payload is what the remaining length leaves after the properties.
pub proof fn lemma_publish_roundtrip<'a, const P: usize>(p: Publish<'a, P>, rest: Seq<u8>)
    requires
        properties_accepted(p@.properties, PropertyContext::Publish),
        p@.properties.len() <= P,
        steps_failure(packet_steps(p.spec_first_byte(), p.body_steps())) is None,
    ensures
        parse_packet::<Publish<'a, P>>(steps_bytes(packet_steps(p.spec_first_byte(), p.body_steps())) + rest)
            == Ok::<(PublishView, nat), PacketReadError>((p@, steps_bytes(packet_steps(p.spec_first_byte(), p.body_steps())).len())),
{
    let v = p@;
    lemma_publish_first_byte(v.duplicate, v.retain, publish_identifier_qos(v.packet_identifier));
    lemma_packet_body_written(p.spec_first_byte(), p.body_steps());
    crate::codec::mqtt_reader::lemma_str_utf8_valid(p.topic_name);
    lemma_publish_body_roundtrip(v, P as nat, rest);
    lemma_packet_roundtrip(p, rest);
}

} // verus!
