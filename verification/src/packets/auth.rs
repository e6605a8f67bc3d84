use vstd::prelude::*;

use crate::codec::encoding::WriteStep;
use crate::codec::mqtt_reader::{advanced, MqttBufReader};
use crate::codec::mqtt_writer::{put_outcome, MqttWriter};
use crate::data::packet_type::PacketType;
use crate::data::property::{properties_view, AuthProperty, PropertyContext, PropertyView};
use crate::data::reason_code::ReasonCode;
use crate::codec::encoding::{steps_bytes, steps_failure};
use crate::error::{PacketReadError, PacketWriteError};
use crate::packets::laws::{
    lemma_code_properties_roundtrip, lemma_packet_body_written, lemma_packet_roundtrip,
    properties_accepted,
};
use crate::packets::packet::{
    code_properties_steps, packet_steps, parse_code_properties, parse_packet, put_code_and_properties,
    read_packet, reason_code_in, Packet, PacketRead, PacketWrite, ReasonCodeSubset,
};

verus! {

/// An Auth packet as a mathematical value
pub struct AuthView {
    pub reason_code: ReasonCode,
    pub properties: Seq<PropertyView>,
}

/// A Auth packet, the final packet sent by either side, with the reason for
/// authing. `P` is the maximum number of properties that reading one accepts.
#[derive(Debug, PartialEq)]
pub struct Auth<'a, const P: usize> {
    reason_code: ReasonCode,
    properties: Vec<AuthProperty<'a>>,
}

impl<'a, const P: usize> View for Auth<'a, P> {
    type V = AuthView;

    closed spec fn view(&self) -> AuthView {
        AuthView {
            reason_code: self.reason_code,
            properties: properties_view(self.properties@),
        }
    }
}

impl<'a, const P: usize> Auth<'a, P> {
    /// Create a packet
    pub fn new(reason_code: ReasonCode, properties: Vec<AuthProperty<'a>>) -> (r: Self)
        requires
            reason_code_in(ReasonCodeSubset::Auth, reason_code),
        ensures
            r@ == (AuthView {
                reason_code: reason_code,
                properties: properties_view(properties@),
            }),
    {
        Auth { reason_code, properties }
    }

    /// The reason code
    pub fn reason_code(&self) -> (r: &ReasonCode)
        ensures
            *r == self@.reason_code,
    {
        &self.reason_code
    }

    /// The properties
    pub fn properties(&self) -> (r: &Vec<AuthProperty<'a>>)
        ensures
            properties_view(r@) == self@.properties,
    {
        &self.properties
    }

    /// Read a whole Auth packet
    pub fn read(reader: &mut MqttBufReader<'a>) -> (r: Result<Self, PacketReadError>)
        ensures
            final(reader).data() == old(reader).data(),
            match parse_packet::<Self>(old(reader).rest()) {
                Ok((v, n)) => r is Ok && r->Ok_0@ == v && advanced(*old(reader), *final(reader), n),
                Err(e) => r == Err::<Self, PacketReadError>(e),
            },
    {
        read_packet(reader)
    }
}

impl<'a> Default for Auth<'a, 0> {
    /// An Auth packet with reason code success and no properties
    fn default() -> (r: Self)
        ensures
            r@ == (AuthView { reason_code: ReasonCode::Success, properties: Seq::empty() }),
    {
        let r = Auth { reason_code: ReasonCode::Success, properties: Vec::new() };
        assert(properties_view(r.properties@) =~= Seq::<PropertyView>::empty());
        r
    }
}

impl<'a, const P: usize> Packet for Auth<'a, P> {
    open spec fn spec_packet_type() -> PacketType {
        PacketType::Auth
    }

    fn packet_type(&self) -> (r: PacketType) {
        PacketType::Auth
    }
}

impl<'a, const P: usize> PacketWrite for Auth<'a, P> {
    open spec fn spec_first_byte(&self) -> u8 {
        0xF0
    }

    /// The reason code and properties, leaving out what can be left out
    open spec fn body_steps(&self) -> Seq<WriteStep> {
        code_properties_steps(self@.reason_code, self@.properties)
    }

    fn fixed_header_first_byte(&self) -> (r: u8) {
        0xF0
    }

    fn put_variable_header_and_payload<W: MqttWriter>(&self, writer: &mut W) -> (r: Result<(), PacketWriteError>) {
        put_code_and_properties(writer, self.reason_code, &self.properties)
    }
}

impl<'a, const P: usize> PacketRead<'a> for Auth<'a, P> {
    /// With remaining length 0 nothing is read (success, no properties), with remaining
    /// length 1 the reason code alone, otherwise the reason code and the properties
    open spec fn parse_body(s: Seq<u8>, first_header_byte: u8, len: nat) -> Result<(AuthView, nat), PacketReadError> {
        match parse_code_properties(s, len == 0, len == 1, ReasonCodeSubset::Auth, PropertyContext::Auth, P as nat) {
            Err(e) => Err(e),
            Ok(((c, ps), n)) => Ok((AuthView { reason_code: c, properties: ps }, n)),
        }
    }

    fn get_variable_header_and_payload(reader: &mut MqttBufReader<'a>, first_header_byte: u8, len: usize) -> (r: Result<Self, PacketReadError>) {
        let (code, properties) = match reader.get_code_and_properties(
            len == 0,
            len == 1,
            ReasonCodeSubset::Auth,
            PropertyContext::Auth,
            P,
        ) {
            Ok(x) => x,
            Err(e) => return Err(e),
        };
        Ok(Auth { reason_code: code, properties })
    }
}

/// An Auth packet with a reason code of the authentication subset, whose properties are
/// accepted in Auth packets, and are no more than reading one accepts, written without
/// failure, reads back as the same packet, whatever data follows it.
pub proof fn lemma_auth_roundtrip<'a, const P: usize>(p: Auth<'a, P>, rest: Seq<u8>)
    requires
        reason_code_in(ReasonCodeSubset::Auth, p@.reason_code),
        properties_accepted(p@.properties, PropertyContext::Auth),
        p@.properties.len() <= P,
        steps_failure(packet_steps(p.spec_first_byte(), p.body_steps())) is None,
    ensures
        parse_packet::<Auth<'a, P>>(steps_bytes(packet_steps(p.spec_first_byte(), p.body_steps())) + rest)
            == Ok::<(AuthView, nat), PacketReadError>((p@, steps_bytes(packet_steps(p.spec_first_byte(), p.body_steps())).len())),
{
    lemma_packet_body_written(p.spec_first_byte(), p.body_steps());
    lemma_code_properties_roundtrip(p@.reason_code, p@.properties, ReasonCodeSubset::Auth, PropertyContext::Auth, P as nat, rest);
    lemma_packet_roundtrip(p, rest);
}

} // verus!
