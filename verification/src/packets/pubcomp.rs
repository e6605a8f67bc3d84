use vstd::prelude::*;

use crate::codec::encoding::WriteStep;
use crate::codec::mqtt_reader::{advanced, MqttBufReader};
use crate::codec::mqtt_writer::{put_outcome, MqttWriter};
use crate::data::packet_identifier::PacketIdentifier;
use crate::data::packet_type::PacketType;
use crate::data::property::{properties_view, PubcompProperty};
use crate::data::reason_code::{
    lemma_pubrel_reason_code_roundtrip, pubrel_reason_code_general, PubrelReasonCode,
};
use crate::codec::encoding::{steps_bytes, steps_failure};
use crate::codec::roundtrip::{lemma_steps_append, lemma_steps_one, lemma_uint_steps_roundtrip};
use crate::packets::laws::{
    lemma_packet_body_written, lemma_packet_roundtrip, lemma_property_list_roundtrip,
    lemma_reason_code_roundtrip, properties_accepted,
};
use crate::error::{PacketReadError, PacketWriteError};
use crate::codec::encoding::enc_u16;
use crate::codec::mqtt_reader::{lemma_advanced_trans, parse_u16};
use crate::codec::write::{lemma_put_nothing, lemma_put_stop, lemma_put_then};
use crate::data::property::{PropertyContext, PropertyView};
use crate::data::reason_code::{reason_code_value, ReasonCode};
use crate::packets::acknowledgement::AcknowledgementView;
use crate::packets::packet::{
    packet_steps,
    parse_code_properties, parse_packet, property_list_steps, put_properties, read_packet,
    Packet, PacketRead, PacketWrite, ReasonCodeSubset,
};

verus! {

/// The steps of writing the variable header of a Pubcomp packet: the packet identifier,
/// then, unless the reason code is success and there are no properties, the reason code and
/// the property list
pub open spec fn pubcomp_steps(v: AcknowledgementView) -> Seq<WriteStep> {
    seq![WriteStep::Bytes(enc_u16(v.packet_identifier))] + if v.reason_code != ReasonCode::Success
        || v.properties.len() > 0 {
        seq![WriteStep::Bytes(seq![reason_code_value(v.reason_code)])] + property_list_steps(
            v.properties,
        )
    } else {
        Seq::empty()
    }
}

/// Reading the variable header of a Pubcomp packet with remaining length `len`: the packet
/// identifier, then, when the length is 2, nothing more (success, no properties),
/// otherwise the reason code and the property list
pub open spec fn parse_pubcomp(s: Seq<u8>, len: nat, capacity: nat) -> Result<(AcknowledgementView, nat), PacketReadError> {
    match parse_u16(s) {
        Err(e) => Err(e),
        Ok((id, n1)) => match parse_code_properties(
            s.skip(n1 as int),
            len == 2,
            false,
            ReasonCodeSubset::Pubrel,
            PropertyContext::Acknowledgement,
            capacity,
        ) {
            Err(e) => Err(e),
            Ok(((c, ps), n2)) => Ok(
                (AcknowledgementView { packet_identifier: id, reason_code: c, properties: ps }, n1 + n2),
            ),
        },
    }
}

/// A Pubcomp packet, releasing a Publish packet of quality of service 2 after its Pubrec. `P` is the
/// maximum number of properties that reading one accepts.
#[derive(Debug, PartialEq)]
pub struct Pubcomp<'a, const P: usize> {
    packet_identifier: PacketIdentifier,
    reason_code: PubrelReasonCode,
    properties: Vec<PubcompProperty<'a>>,
}

impl<'a, const P: usize> View for Pubcomp<'a, P> {
    type V = AcknowledgementView;

    closed spec fn view(&self) -> AcknowledgementView {
        AcknowledgementView {
            packet_identifier: self.packet_identifier.0,
            reason_code: pubrel_reason_code_general(self.reason_code),
            properties: properties_view(self.properties@),
        }
    }
}

impl<'a, const P: usize> Pubcomp<'a, P> {
    /// Create a packet
    pub fn new(
        packet_identifier: PacketIdentifier,
        reason_code: PubrelReasonCode,
        properties: Vec<PubcompProperty<'a>>,
    ) -> (r: Self)
        ensures
            r@ == (AcknowledgementView {
                packet_identifier: packet_identifier.0,
                reason_code: pubrel_reason_code_general(reason_code),
                properties: properties_view(properties@),
            }),
    {
        Pubcomp { packet_identifier, reason_code, properties }
    }

    /// The identifier of the Publish packet completed
    pub fn packet_identifier(&self) -> (r: &PacketIdentifier)
        ensures
            r.0 == self@.packet_identifier,
    {
        &self.packet_identifier
    }

    /// The reason code
    pub fn reason_code(&self) -> (r: &PubrelReasonCode)
        ensures
            pubrel_reason_code_general(*r) == self@.reason_code,
    {
        &self.reason_code
    }

    /// The properties
    pub fn properties(&self) -> (r: &Vec<PubcompProperty<'a>>)
        ensures
            properties_view(r@) == self@.properties,
    {
        &self.properties
    }

    /// Read a whole Pubcomp packet
    pub fn read(reader: &mut MqttBufReader<'a>) -> (r: Result<Self, PacketReadError>)
        ensures
            final(reader).data() == old(reader).data(),
            match parse_packet::<Self>(old(reader).rest()) {
                Ok((v, n)) => r is Ok && r->Ok_0@ == v && advanced(*old(reader), *final(reader), n),
                Err(e) => r == Err::<Self, PacketReadError>(e),
            },
    {
        read_packet(reader)
    }
}

impl<'a, const P: usize> Packet for Pubcomp<'a, P> {
    open spec fn spec_packet_type() -> PacketType {
        PacketType::Pubcomp
    }

    fn packet_type(&self) -> (r: PacketType) {
        PacketType::Pubcomp
    }
}

impl<'a, const P: usize> PacketWrite for Pubcomp<'a, P> {
    open spec fn spec_first_byte(&self) -> u8 {
        0x70
    }

    open spec fn body_steps(&self) -> Seq<WriteStep> {
        pubcomp_steps(self@)
    }

    fn fixed_header_first_byte(&self) -> (r: u8) {
        0x70
    }

    fn put_variable_header_and_payload<W: MqttWriter>(&self, writer: &mut W) -> (r: Result<(), PacketWriteError>) {
        let ghost w0 = writer.written();
        let ghost m0 = writer.room();
        let ghost v = self@;
        let ghost first = seq![WriteStep::Bytes(enc_u16(v.packet_identifier))];
        let ghost rest = pubcomp_steps(v).skip(1);
        assert(pubcomp_steps(v) =~= first + rest);
        let r1 = writer.put_u16(self.packet_identifier.0);
        let ghost w1 = writer.written();
        let ghost m1 = writer.room();
        match r1 {
            Ok(()) => {},
            Err(e) => {
                proof {
                    lemma_put_stop(w0, m0, w1, m1, r1, first, rest);
                }
                return Err(e);
            },
        }
        let code = self.reason_code.reason_code();
        if code != ReasonCode::Success || self.properties.len() > 0 {
            let ghost code_step = seq![WriteStep::Bytes(seq![reason_code_value(code)])];
            let r2 = writer.put_u8(code.value());
            let ghost w2 = writer.written();
            let ghost m2 = writer.room();
            proof {
                lemma_put_then(w0, m0, w1, m1, r1, first, w2, m2, r2, code_step);
                assert(rest =~= code_step + property_list_steps(v.properties));
                assert(first + rest =~= (first + code_step) + property_list_steps(v.properties));
            }
            match r2 {
                Ok(()) => {},
                Err(e) => {
                    proof {
                        lemma_put_stop(w0, m0, w2, m2, r2, first + code_step, property_list_steps(v.properties));
                    }
                    return Err(e);
                },
            }
            let r3 = put_properties(writer, &self.properties);
            proof {
                lemma_put_then(w0, m0, w2, m2, r2, first + code_step, writer.written(), writer.room(), r3, property_list_steps(v.properties));
            }
            r3
        } else {
            proof {
                lemma_put_nothing(w1, m1);
                lemma_put_then(w0, m0, w1, m1, r1, first, w1, m1, Ok(()), Seq::empty());
                assert(rest =~= Seq::<WriteStep>::empty());
            }
            Ok(())
        }
    }
}

impl<'a, const P: usize> PacketRead<'a> for Pubcomp<'a, P> {
    open spec fn parse_body(s: Seq<u8>, first_header_byte: u8, len: nat) -> Result<(AcknowledgementView, nat), PacketReadError> {
        parse_pubcomp(s, len, P as nat)
    }

    fn get_variable_header_and_payload(reader: &mut MqttBufReader<'a>, first_header_byte: u8, len: usize) -> (r: Result<Self, PacketReadError>) {
        let id = match reader.get_u16() {
            Ok(id) => id,
            Err(e) => return Err(e),
        };
        let ghost mid = *reader;
        let ghost n1 = parse_u16(old(reader).rest())->Ok_0.1;
        let (code, properties) = match reader.get_code_and_properties(
            len == 2,
            false,
            ReasonCodeSubset::Pubrel,
            PropertyContext::Acknowledgement,
            P,
        ) {
            Ok(x) => x,
            Err(e) => return Err(e),
        };
        proof {
            let n2 = parse_code_properties(mid.rest(), len == 2, false, ReasonCodeSubset::Pubrel, PropertyContext::Acknowledgement, P as nat)->Ok_0.1;
            lemma_advanced_trans(*old(reader), mid, *reader, n1, n2);
        }
        match PubrelReasonCode::try_from_reason_code(code) {
            Ok(reason_code) => {
                proof {
                    lemma_pubrel_reason_code_roundtrip(reason_code, code);
                }
                Ok(Pubcomp { packet_identifier: PacketIdentifier(id), reason_code, properties })
            },
            Err(e) => Err(e),
        }
    }
}

/// A Pubcomp packet whose properties are accepted in acknowledgements, and are no more
/// than reading one accepts, written without failure, reads back as the same packet,
/// whatever data follows it.
pub proof fn lemma_pubcomp_roundtrip<'a, const P: usize>(p: Pubcomp<'a, P>, rest: Seq<u8>)
    requires
        properties_accepted(p@.properties, PropertyContext::Acknowledgement),
        p@.properties.len() <= P,
        steps_failure(packet_steps(p.spec_first_byte(), p.body_steps())) is None,
    ensures
        parse_packet::<Pubcomp<'a, P>>(steps_bytes(packet_steps(p.spec_first_byte(), p.body_steps())) + rest)
            == Ok::<(AcknowledgementView, nat), PacketReadError>((p@, steps_bytes(packet_steps(p.spec_first_byte(), p.body_steps())).len())),
{
    let v = p@;
    lemma_pubrel_reason_code_roundtrip(p.reason_code, v.reason_code);
    lemma_packet_body_written(p.spec_first_byte(), p.body_steps());
    let id = seq![WriteStep::Bytes(enc_u16(v.packet_identifier))];
    lemma_steps_one(enc_u16(v.packet_identifier));
    crate::codec::encoding::lemma_uint_roundtrip(v.packet_identifier, 0);
    let s = steps_bytes(pubcomp_steps(v)) + rest;
    if v.reason_code != ReasonCode::Success || v.properties.len() > 0 {
        let code = seq![WriteStep::Bytes(seq![reason_code_value(v.reason_code)])];
        let list = property_list_steps(v.properties);
        lemma_steps_append(id, code + list);
        lemma_steps_append(code, list);
        lemma_steps_one(seq![reason_code_value(v.reason_code)]);
        let lb = steps_bytes(list);
        lemma_property_list_roundtrip(v.properties, PropertyContext::Acknowledgement, P as nat, rest);
        lemma_reason_code_roundtrip(v.reason_code, ReasonCodeSubset::Pubrel, lb + rest);
        lemma_uint_steps_roundtrip(0, v.packet_identifier, 0, seq![reason_code_value(v.reason_code)] + (lb + rest));
        assert(s =~= enc_u16(v.packet_identifier) + (seq![reason_code_value(v.reason_code)] + (lb + rest)));
        assert(s.skip(2) =~= seq![reason_code_value(v.reason_code)] + (lb + rest));
        assert(s.skip(2).skip(1) =~= lb + rest);
    } else {
        assert(v.properties =~= Seq::<PropertyView>::empty());
        assert(pubcomp_steps(v) =~= id);
        lemma_uint_steps_roundtrip(0, v.packet_identifier, 0, rest);
        assert(s =~= enc_u16(v.packet_identifier) + rest);
    }
    lemma_packet_roundtrip(p, rest);
}

} // verus!
