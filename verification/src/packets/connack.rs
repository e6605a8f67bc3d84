use vstd::prelude::*;

use crate::codec::encoding::WriteStep;
use crate::codec::mqtt_reader::{advanced, lemma_advanced_trans, parse_bool, MqttBufReader};
use crate::codec::mqtt_writer::{put_outcome, MqttWriter};
use crate::codec::write::{lemma_put_stop, lemma_put_then};
use crate::data::packet_type::PacketType;
use crate::data::property::{
    parse_property_list, properties_view, ConnackProperty, PropertyContext, PropertyView,
};
use crate::data::reason_code::{
    connect_reason_code_general, lemma_connect_reason_code_roundtrip, reason_code_value,
    ConnectReasonCode, ReasonCode,
};
use crate::codec::encoding::{steps_bytes, steps_failure};
use crate::codec::roundtrip::{lemma_steps_append, lemma_steps_one, lemma_uint_steps_roundtrip};
use crate::packets::laws::{
    lemma_packet_body_written, lemma_packet_roundtrip, lemma_property_list_roundtrip,
    lemma_reason_code_roundtrip, properties_accepted,
};
use crate::error::{PacketReadError, PacketWriteError};
use crate::packets::packet::{
    packet_steps, parse_packet, parse_reason_code, property_list_steps, put_properties, read_packet, Packet,
    PacketRead, PacketWrite, ReasonCodeSubset,
};

verus! {

/// A Connack packet as a mathematical value
pub struct ConnackView {
    pub session_present: bool,
    pub reason_code: ReasonCode,
    pub properties: Seq<PropertyView>,
}

/// The steps of writing the variable header of a Connack packet: the session present flag
/// as a byte 0 or 1, the reason code, then the property list
pub open spec fn connack_steps(v: ConnackView) -> Seq<WriteStep> {
    seq![
        WriteStep::Bytes(seq![if v.session_present { 1u8 } else { 0u8 }]),
        WriteStep::Bytes(seq![reason_code_value(v.reason_code)]),
    ] + property_list_steps(v.properties)
}

/// Reading the variable header of a Connack packet: the session present flag (a byte that
/// must be 0 or 1), a reason code of the Connect subset, then the property list
pub open spec fn parse_connack(s: Seq<u8>, capacity: nat) -> Result<(ConnackView, nat), PacketReadError> {
    match parse_bool(s) {
        Err(e) => Err(e),
        Ok((session_present, n1)) => match parse_reason_code(s.skip(n1 as int), ReasonCodeSubset::Connect) {
            Err(e) => Err(e),
            Ok((c, n2)) => match parse_property_list(s.skip((n1 + n2) as int), PropertyContext::Connack, capacity) {
                Err(e) => Err(e),
                Ok((ps, n3)) => Ok((ConnackView { session_present, reason_code: c, properties: ps }, n1 + n2 + n3)),
            },
        },
    }
}

/// A Connack packet, the reply of a server to a Connect packet. `P` is the maximum number
/// of properties that reading one accepts.
#[derive(Debug, PartialEq)]
pub struct Connack<'a, const P: usize> {
    session_present: bool,
    reason_code: ConnectReasonCode,
    properties: Vec<ConnackProperty<'a>>,
}

impl<'a, const P: usize> View for Connack<'a, P> {
    type V = ConnackView;

    closed spec fn view(&self) -> ConnackView {
        ConnackView {
            session_present: self.session_present,
            reason_code: connect_reason_code_general(self.reason_code),
            properties: properties_view(self.properties@),
        }
    }
}

impl<'a, const P: usize> Connack<'a, P> {
    /// Create a packet
    pub fn new(session_present: bool, reason_code: ConnectReasonCode, properties: Vec<ConnackProperty<'a>>) -> (r: Self)
        ensures
            r@ == (ConnackView {
                session_present,
                reason_code: connect_reason_code_general(reason_code),
                properties: properties_view(properties@),
            }),
    {
        Connack { session_present, reason_code, properties }
    }

    /// Whether the server holds a session for the client from an earlier connection
    pub fn session_present(&self) -> (r: bool)
        ensures
            r == self@.session_present,
    {
        self.session_present
    }

    /// The reason code
    pub fn reason_code(&self) -> (r: &ConnectReasonCode)
        ensures
            connect_reason_code_general(*r) == self@.reason_code,
    {
        &self.reason_code
    }

    /// The properties
    pub fn properties(&self) -> (r: &Vec<ConnackProperty<'a>>)
        ensures
            properties_view(r@) == self@.properties,
    {
        &self.properties
    }

    /// Read a whole Connack packet
    pub fn read(reader: &mut MqttBufReader<'a>) -> (r: Result<Self, PacketReadError>)
        ensures
            final(reader).data() == old(reader).data(),
            match parse_packet::<Self>(old(reader).rest()) {
                Ok((v, n)) => r is Ok && r->Ok_0@ == v && advanced(*old(reader), *final(reader), n),
                Err(e) => r == Err::<Self, PacketReadError>(e),
            },
    {
        read_packet(reader)
    }
}

impl<'a, const P: usize> Packet for Connack<'a, P> {
    open spec fn spec_packet_type() -> PacketType {
        PacketType::Connack
    }

    fn packet_type(&self) -> (r: PacketType) {
        PacketType::Connack
    }
}

impl<'a, const P: usize> PacketWrite for Connack<'a, P> {
    open spec fn spec_first_byte(&self) -> u8 {
        0x20
    }

    open spec fn body_steps(&self) -> Seq<WriteStep> {
        connack_steps(self@)
    }

    fn fixed_header_first_byte(&self) -> (r: u8) {
        0x20
    }

    fn put_variable_header_and_payload<W: MqttWriter>(&self, writer: &mut W) -> (r: Result<(), PacketWriteError>) {
        let ghost w0 = writer.written();
        let ghost m0 = writer.room();
        let ghost v = self@;
        let ghost a = seq![WriteStep::Bytes(seq![if v.session_present { 1u8 } else { 0u8 }])];
        let ghost b = seq![WriteStep::Bytes(seq![reason_code_value(v.reason_code)])];
        let ghost c = property_list_steps(v.properties);
        assert(connack_steps(v) =~= a + b + c);
        let r1 = writer.put_bool_zero_one(self.session_present);
        let ghost w1 = writer.written();
        let ghost m1 = writer.room();
        if r1.is_err() {
            proof {
                lemma_put_stop(w0, m0, w1, m1, r1, a, b + c);
                assert(a + (b + c) =~= a + b + c);
            }
            return r1;
        }
        let r2 = writer.put_u8(self.reason_code.value());
        let ghost w2 = writer.written();
        let ghost m2 = writer.room();
        proof {
            lemma_put_then(w0, m0, w1, m1, r1, a, w2, m2, r2, b);
        }
        if r2.is_err() {
            proof {
                lemma_put_stop(w0, m0, w2, m2, r2, a + b, c);
            }
            return r2;
        }
        let r3 = put_properties(writer, &self.properties);
        proof {
            lemma_put_then(w0, m0, w2, m2, r2, a + b, writer.written(), writer.room(), r3, c);
        }
        r3
    }
}

impl<'a, const P: usize> PacketRead<'a> for Connack<'a, P> {
    open spec fn parse_body(s: Seq<u8>, first_header_byte: u8, len: nat) -> Result<(ConnackView, nat), PacketReadError> {
        parse_connack(s, P as nat)
    }

    fn get_variable_header_and_payload(reader: &mut MqttBufReader<'a>, first_header_byte: u8, len: usize) -> (r: Result<Self, PacketReadError>) {
        let ghost s0 = reader.rest();
        let session_present = match reader.get_bool_zero_one() {
            Ok(b) => b,
            Err(e) => return Err(e),
        };
        let ghost r1 = *reader;
        let ghost n1 = parse_bool(s0)->Ok_0.1;
        let code = match reader.get_reason_code_in(ReasonCodeSubset::Connect) {
            Ok(c) => c,
            Err(e) => return Err(e),
        };
        let ghost r2 = *reader;
        let ghost n2 = parse_reason_code(r1.rest(), ReasonCodeSubset::Connect)->Ok_0.1;
        proof {
            lemma_advanced_trans(*old(reader), r1, r2, n1, n2);
            assert(r2.rest() =~= s0.skip((n1 + n2) as int));
        }
        let properties = match reader.get_property_list(PropertyContext::Connack, P) {
            Ok(ps) => ps,
            Err(e) => return Err(e),
        };
        proof {
            let n3 = parse_property_list(r2.rest(), PropertyContext::Connack, P as nat)->Ok_0.1;
            lemma_advanced_trans(*old(reader), r2, *reader, n1 + n2, n3);
        }
        match ConnectReasonCode::try_from_reason_code(code) {
            Ok(reason_code) => {
                proof {
                    lemma_connect_reason_code_roundtrip(reason_code, code);
                }
                Ok(Connack { session_present, reason_code, properties })
            },
            Err(e) => Err(e),
        }
    }
}

/// A Connack packet whose properties are accepted in Connack packets, and are no more than
/// reading one accepts, written without failure, reads back as the same packet, whatever
/// data follows it.
pub proof fn lemma_connack_roundtrip<'a, const P: usize>(p: Connack<'a, P>, rest: Seq<u8>)
    requires
        properties_accepted(p@.properties, PropertyContext::Connack),
        p@.properties.len() <= P,
        steps_failure(packet_steps(p.spec_first_byte(), p.body_steps())) is None,
    ensures
        parse_packet::<Connack<'a, P>>(steps_bytes(packet_steps(p.spec_first_byte(), p.body_steps())) + rest)
            == Ok::<(ConnackView, nat), PacketReadError>((p@, steps_bytes(packet_steps(p.spec_first_byte(), p.body_steps())).len())),
{
    let v = p@;
    lemma_connect_reason_code_roundtrip(p.reason_code, v.reason_code);
    lemma_packet_body_written(p.spec_first_byte(), p.body_steps());
    let b = if v.session_present { 1u8 } else { 0u8 };
    let c = reason_code_value(v.reason_code);
    let front = seq![WriteStep::Bytes(seq![b]), WriteStep::Bytes(seq![c])];
    let list = property_list_steps(v.properties);
    lemma_steps_append(front, list);
    lemma_steps_append(seq![WriteStep::Bytes(seq![b])], seq![WriteStep::Bytes(seq![c])]);
    assert(seq![WriteStep::Bytes(seq![b])] + seq![WriteStep::Bytes(seq![c])] =~= front);
    lemma_steps_one(seq![b]);
    lemma_steps_one(seq![c]);
    let lb = steps_bytes(list);
    lemma_property_list_roundtrip(v.properties, PropertyContext::Connack, P as nat, rest);
    lemma_reason_code_roundtrip(v.reason_code, ReasonCodeSubset::Connect, lb + rest);
    let s = steps_bytes(connack_steps(v)) + rest;
    assert(s =~= seq![b] + (seq![c] + (lb + rest)));
    lemma_uint_steps_roundtrip(b, 0, 0, seq![c] + (lb + rest));
    assert(s.skip(1) =~= seq![c] + (lb + rest));
    assert(s.skip(2) =~= lb + rest);
    lemma_packet_roundtrip(p, rest);
}

} // verus!
