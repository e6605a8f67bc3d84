use vstd::prelude::*;

use crate::codec::encoding::{
    lemma_dec_vbi_bound, lemma_run_fail, lemma_run_steps_append, read_vbi, run_steps,
    vbi_steps, WriteStep, VARIABLE_BYTE_INTEGER_MAX_VALUE,
};
use crate::codec::mqtt_reader::{advanced, lemma_advanced_trans, parse_u8, MqttBufReader};
use crate::codec::mqtt_writer::{put_outcome, MqttLenWriter, MqttWriter};
use crate::codec::write::{
    delimited_steps, items_steps, lemma_put_nothing, lemma_put_stop, lemma_put_then,
    put_variable_u32_delimited_vec, Write,
};
use crate::data::packet_type::{packet_type_from_number, PacketType};
use crate::data::property::{
    parse_property_list, properties_view, property_steps, property_view, Property,
    PropertyContext, PropertyView,
};
use crate::data::reason_code::{
    connect_reason_code_from_general, disconnect_reason_code_from_general,
    publish_reason_code_from_general, pubrel_reason_code_from_general, reason_code_from_value,
    reason_code_value, subscribe_reason_code_from_general, unsubscribe_reason_code_from_general,
    ReasonCode,
};
use crate::error::{PacketReadError, PacketWriteError};

verus! {

/// The keep alive interval, in seconds, of a Connect packet built without one
pub const KEEP_ALIVE_DEFAULT: u16 = 60;

/// The protocol name that a Connect packet holds
pub const PROTOCOL_NAME: &'static str = "MQTT";

/// The protocol version of MQTT v5, as a Connect packet holds it
pub const PROTOCOL_VERSION_5: u8 = 0x05;

/// The steps of writing a packet whose first header byte is `first_byte` and whose variable
/// header and payload are written by `body`: the body is first measured (failing as writing
/// it would fail, with all the room a usize allows), then the first byte, the measured
/// length as a variable byte integer ("remaining length") and the body are put
pub open spec fn packet_steps(first_byte: u8, body: Seq<WriteStep>) -> Seq<WriteStep> {
    let measured = run_steps(body, usize::MAX as nat);
    match measured.0 {
        Err(e) => seq![WriteStep::Fail(e)],
        Ok(_) => seq![WriteStep::Bytes(seq![first_byte])] + vbi_steps(measured.1.len()) + body,
    }
}

/// An MQTT packet of one packet type
pub trait Packet {
    /// The type of every packet of this kind
    spec fn spec_packet_type() -> PacketType;

    /// The type of this packet
    fn packet_type(&self) -> (r: PacketType)
        ensures
            r == Self::spec_packet_type(),
    ;
}

/// A packet that can be written
pub trait PacketWrite: Packet + Sized {
    /// The first byte of the fixed header of this packet
    spec fn spec_first_byte(&self) -> u8;

    /// The steps of writing the variable header and payload of this packet
    spec fn body_steps(&self) -> Seq<WriteStep>;

    /// The first byte of the fixed header: the packet type, and the flags of this packet
    fn fixed_header_first_byte(&self) -> (r: u8)
        ensures
            r == self.spec_first_byte(),
    ;

    /// Write the variable header and payload of this packet
    fn put_variable_header_and_payload<W: MqttWriter>(&self, writer: &mut W) -> (r: Result<(), PacketWriteError>)
        ensures
            put_outcome(
                old(writer).written(),
                old(writer).room(),
                final(writer).written(),
                final(writer).room(),
                r,
                self.body_steps(),
            ),
    ;

    /// Write the whole packet: the fixed header (first byte and remaining length), then
    /// the variable header and payload
    fn write<W: MqttWriter>(&self, writer: &mut W) -> (r: Result<(), PacketWriteError>)
        ensures
            put_outcome(
                old(writer).written(),
                old(writer).room(),
                final(writer).written(),
                final(writer).room(),
                r,
                packet_steps(self.spec_first_byte(), self.body_steps()),
            ),
    {
        let ghost w0 = writer.written();
        let ghost m0 = writer.room();
        let ghost body = self.body_steps();
        let mut lw = MqttLenWriter::new();
        let measured = self.put_variable_header_and_payload(&mut lw);
        match measured {
            Ok(()) => {},
            Err(e) => {
                proof {
                    lemma_run_fail(e, m0);
                }
                return Err(e);
            },
        }
        let len = lw.position();
        assert(lw.written() =~= run_steps(body, usize::MAX as nat).1);
        let ghost header = seq![WriteStep::Bytes(seq![self.spec_first_byte()])];
        let ghost vbi = vbi_steps(len as nat);
        assert(packet_steps(self.spec_first_byte(), body) == header + vbi + body);
        let r1 = writer.put_u8(self.fixed_header_first_byte());
        let ghost w1 = writer.written();
        let ghost m1 = writer.room();
        match r1 {
            Ok(()) => {},
            Err(e) => {
                proof {
                    lemma_put_stop(w0, m0, w1, m1, r1, header, vbi + body);
                    assert(header + (vbi + body) =~= header + vbi + body);
                }
                return Err(e);
            },
        }
        if len > VARIABLE_BYTE_INTEGER_MAX_VALUE as usize {
            proof {
                lemma_run_fail(PacketWriteError::VariableByteIntegerTooLarge, m1);
                lemma_put_then(w0, m0, w1, m1, r1, header, w1, m1, Err(PacketWriteError::VariableByteIntegerTooLarge), vbi);
                lemma_put_stop(w0, m0, w1, m1, Err(PacketWriteError::VariableByteIntegerTooLarge), header + vbi, body);
            }
            return Err(PacketWriteError::VariableByteIntegerTooLarge);
        }
        let r2 = writer.put_variable_u32(len as u32);
        let ghost w2 = writer.written();
        let ghost m2 = writer.room();
        proof {
            lemma_put_then(w0, m0, w1, m1, r1, header, w2, m2, r2, vbi);
        }
        match r2 {
            Ok(()) => {},
            Err(e) => {
                proof {
                    lemma_put_stop(w0, m0, w2, m2, r2, header + vbi, body);
                }
                return Err(e);
            },
        }
        let r3 = self.put_variable_header_and_payload(writer);
        proof {
            lemma_put_then(w0, m0, w2, m2, r2, header + vbi, writer.written(), writer.room(), r3, body);
        }
        r3
    }
}

/// A packet that can be read
pub trait PacketRead<'a>: Packet + View + Sized {
    /// Reading the variable header and payload of this kind of packet from the start of the
    /// data, given the first header byte and the remaining length of the fixed header: gives
    /// the packet and the number of bytes read
    spec fn parse_body(s: Seq<u8>, first_header_byte: u8, len: nat) -> Result<(Self::V, nat), PacketReadError>;

    /// Read the variable header and payload. The reader is not necessarily at the start of
    /// its data, and it is not limited to `len` bytes: the caller checks that exactly `len`
    /// bytes were read.
    fn get_variable_header_and_payload(reader: &mut MqttBufReader<'a>, first_header_byte: u8, len: usize) -> (r: Result<Self, PacketReadError>)
        ensures
            final(reader).data() == old(reader).data(),
            match Self::parse_body(old(reader).rest(), first_header_byte, len as nat) {
                Ok((v, n)) => r is Ok && r->Ok_0@ == v && advanced(*old(reader), *final(reader), n),
                Err(e) => r == Err::<Self, PacketReadError>(e),
            },
    ;
}

/// Reading a whole packet of a kind from the start of the data: the first header byte, the
/// remaining length as a variable byte integer, then the variable header and payload; the
/// first header byte must then encode a packet type (otherwise
/// [PacketReadError::InvalidPacketType]), which must be the type of this kind of packet
/// (otherwise [PacketReadError::IncorrectPacketType]), and exactly the remaining length must
/// have been read (otherwise [PacketReadError::IncorrectPacketLength])
pub open spec fn parse_packet<'a, P: PacketRead<'a>>(s: Seq<u8>) -> Result<(P::V, nat), PacketReadError> {
    match parse_u8(s) {
        Err(e) => Err(e),
        Ok((first, n0)) => match read_vbi(s.skip(n0 as int)) {
            Err(e) => Err(e),
            Ok((len, n1)) => match P::parse_body(s.skip((n0 + n1) as int), first, len) {
                Err(e) => Err(e),
                Ok((v, n2)) => match packet_type_from_number(first / 16) {
                    None => Err(PacketReadError::InvalidPacketType),
                    Some(t) => if t != P::spec_packet_type() {
                        Err(PacketReadError::IncorrectPacketType)
                    } else if n2 != len {
                        Err(PacketReadError::IncorrectPacketLength)
                    } else {
                        Ok((v, n0 + n1 + n2))
                    },
                },
            },
        },
    }
}

/// Read a whole packet of a kind
pub fn read_packet<'a, P: PacketRead<'a>>(reader: &mut MqttBufReader<'a>) -> (r: Result<P, PacketReadError>)
    ensures
        final(reader).data() == old(reader).data(),
        match parse_packet::<P>(old(reader).rest()) {
            Ok((v, n)) => r is Ok && r->Ok_0@ == v && advanced(*old(reader), *final(reader), n),
            Err(e) => r == Err::<P, PacketReadError>(e),
        },
{
    let ghost s0 = old(reader).rest();
    let first_header_byte = match reader.get_u8() {
        Ok(b) => b,
        Err(e) => return Err(e),
    };
    let ghost r1 = *reader;
    let len = match reader.get_variable_u32() {
        Ok(len) => len,
        Err(e) => return Err(e),
    };
    let ghost r2 = *reader;
    proof {
        lemma_dec_vbi_bound(r1.rest(), 4);
        let n1 = read_vbi(r1.rest())->Ok_0.1;
        lemma_advanced_trans(*old(reader), r1, r2, 1, n1);
        assert(r1.rest() =~= s0.skip(1));
        assert(r2.rest() =~= s0.skip((1 + n1) as int));
    }
    let start = reader.position();
    let packet = match P::get_variable_header_and_payload(reader, first_header_byte, len as usize) {
        Ok(p) => p,
        Err(e) => return Err(e),
    };
    let ghost n2 = P::parse_body(r2.rest(), first_header_byte, len as nat)->Ok_0.1;
    let packet_type = match PacketType::try_from_u8(first_header_byte) {
        Ok(t) => t,
        Err(e) => return Err(e),
    };
    if packet_type != packet.packet_type() {
        return Err(PacketReadError::IncorrectPacketType);
    }
    let consumed = reader.position() - start;
    if consumed != len as usize {
        return Err(PacketReadError::IncorrectPacketLength);
    }
    proof {
        let n1 = read_vbi(r1.rest())->Ok_0.1;
        lemma_advanced_trans(*old(reader), r2, *reader, 1 + n1, n2);
    }
    Ok(packet)
}

/// The steps of writing properties one after the other
pub open spec fn properties_steps(ps: Seq<PropertyView>) -> Seq<WriteStep>
    decreases ps.len(),
{
    if ps.len() == 0 {
        Seq::empty()
    } else {
        properties_steps(ps.drop_last()) + property_steps(ps.last())
    }
}

/// The steps of writing a property list: the properties are measured, then their length is
/// put as a variable byte integer, then the properties
pub open spec fn property_list_steps(ps: Seq<PropertyView>) -> Seq<WriteStep> {
    let inner = properties_steps(ps);
    let measured = run_steps(inner, usize::MAX as nat);
    match measured.0 {
        Err(e) => seq![WriteStep::Fail(e)],
        Ok(_) => vbi_steps(measured.1.len()) + inner,
    }
}

/// Writing properties one after the other is writing the steps of their views.
pub proof fn lemma_properties_steps(items: Seq<Property>)
    ensures
        items_steps(items) == properties_steps(properties_view(items)),
    decreases items.len(),
{
    if items.len() > 0 {
        lemma_properties_steps(items.drop_last());
        assert(properties_view(items).drop_last() =~= properties_view(items.drop_last()));
    } else {
        assert(properties_view(items) =~= Seq::<PropertyView>::empty());
    }
}

/// Put a property list: the length in bytes of the properties as a variable byte integer,
/// then the properties
pub fn put_properties<W: MqttWriter>(writer: &mut W, properties: &Vec<Property>) -> (r: Result<(), PacketWriteError>)
    ensures
        put_outcome(
            old(writer).written(),
            old(writer).room(),
            final(writer).written(),
            final(writer).room(),
            r,
            property_list_steps(properties_view(properties@)),
        ),
{
    proof {
        lemma_properties_steps(properties@);
    }
    put_variable_u32_delimited_vec(writer, properties)
}

/// The subsets of reason codes that each kind of packet accepts
#[derive(Debug, PartialEq, Eq, Clone, Copy, Structural)]
pub enum ReasonCodeSubset {
    Connect,
    Disconnect,
    Publish,
    Pubrel,
    Subscribe,
    Unsubscribe,
    Auth,
}

/// Whether a reason code is in a subset
pub open spec fn reason_code_in(subset: ReasonCodeSubset, c: ReasonCode) -> bool {
    match subset {
        ReasonCodeSubset::Connect => connect_reason_code_from_general(c) is Some,
        ReasonCodeSubset::Disconnect => disconnect_reason_code_from_general(c) is Some,
        ReasonCodeSubset::Publish => publish_reason_code_from_general(c) is Some,
        ReasonCodeSubset::Pubrel => pubrel_reason_code_from_general(c) is Some,
        ReasonCodeSubset::Subscribe => subscribe_reason_code_from_general(c) is Some,
        ReasonCodeSubset::Unsubscribe => unsubscribe_reason_code_from_general(c) is Some,
        ReasonCodeSubset::Auth => c == ReasonCode::Success || c == ReasonCode::ContinueAuthentication
            || c == ReasonCode::ReAuthenticate,
    }
}

/// Reading a reason code of a subset: one byte, which must be the value of a reason code in
/// the subset (otherwise [PacketReadError::UnknownReasonCode])
pub open spec fn parse_reason_code(s: Seq<u8>, subset: ReasonCodeSubset) -> Result<(ReasonCode, nat), PacketReadError> {
    match parse_u8(s) {
        Err(e) => Err(e),
        Ok((v, n)) => match reason_code_from_value(v) {
            None => Err(PacketReadError::UnknownReasonCode),
            Some(c) => if reason_code_in(subset, c) {
                Ok((c, n))
            } else {
                Err(PacketReadError::UnknownReasonCode)
            },
        },
    }
}

impl ReasonCodeSubset {
    /// Whether a reason code is in this subset
    pub fn contains(&self, c: ReasonCode) -> (r: bool)
        ensures
            r == reason_code_in(*self, c),
    {
        match self {
            ReasonCodeSubset::Connect => crate::data::reason_code::ConnectReasonCode::try_from_reason_code(c).is_ok(),
            ReasonCodeSubset::Disconnect => crate::data::reason_code::DisconnectReasonCode::try_from_reason_code(c).is_ok(),
            ReasonCodeSubset::Publish => crate::data::reason_code::PublishReasonCode::try_from_reason_code(c).is_ok(),
            ReasonCodeSubset::Pubrel => crate::data::reason_code::PubrelReasonCode::try_from_reason_code(c).is_ok(),
            ReasonCodeSubset::Subscribe => crate::data::reason_code::SubscribeReasonCode::try_from_reason_code(c).is_ok(),
            ReasonCodeSubset::Unsubscribe => crate::data::reason_code::UnsubscribeReasonCode::try_from_reason_code(c).is_ok(),
            ReasonCodeSubset::Auth => match c {
                ReasonCode::Success | ReasonCode::ContinueAuthentication | ReasonCode::ReAuthenticate => true,
                _ => false,
            },
        }
    }
}

impl<'a> MqttBufReader<'a> {
    /// Get a reason code: one byte, which must be the value of a reason code (otherwise
    /// [PacketReadError::UnknownReasonCode])
    pub fn get_reason_code(&mut self) -> (r: Result<ReasonCode, PacketReadError>)
        ensures
            final(self).data() == old(self).data(),
            match parse_u8(old(self).rest()) {
                Err(e) => r == Err::<ReasonCode, PacketReadError>(e) && final(self).pos() == old(self).pos(),
                Ok((v, n)) => advanced(*old(self), *final(self), n) && match reason_code_from_value(v) {
                    None => r == Err::<ReasonCode, PacketReadError>(PacketReadError::UnknownReasonCode),
                    Some(c) => r == Ok::<ReasonCode, PacketReadError>(c),
                },
            },
    {
        let value = match self.get_u8() {
            Ok(v) => v,
            Err(e) => return Err(e),
        };
        ReasonCode::try_from_u8(value)
    }

    /// Get a reason code of a subset
    pub fn get_reason_code_in(&mut self, subset: ReasonCodeSubset) -> (r: Result<ReasonCode, PacketReadError>)
        ensures
            final(self).data() == old(self).data(),
            match parse_reason_code(old(self).rest(), subset) {
                Ok((c, n)) => r == Ok::<ReasonCode, PacketReadError>(c) && advanced(*old(self), *final(self), n),
                Err(e) => r == Err::<ReasonCode, PacketReadError>(e),
            },
            match parse_u8(old(self).rest()) {
                Ok((_, n)) => advanced(*old(self), *final(self), n),
                Err(_) => final(self).pos() == old(self).pos(),
            },
    {
        let c = match self.get_reason_code() {
            Ok(c) => c,
            Err(e) => return Err(e),
        };
        if subset.contains(c) {
            Ok(c)
        } else {
            Err(PacketReadError::UnknownReasonCode)
        }
    }
}

/// The steps of writing a reason code and a property list as packets that may leave them
/// out do: with no properties, only a reason code other than success is put, otherwise both
pub open spec fn code_properties_steps(code: ReasonCode, ps: Seq<PropertyView>) -> Seq<WriteStep> {
    if ps.len() == 0 {
        if code != ReasonCode::Success {
            seq![WriteStep::Bytes(seq![reason_code_value(code)])]
        } else {
            Seq::empty()
        }
    } else {
        seq![WriteStep::Bytes(seq![reason_code_value(code)])] + property_list_steps(ps)
    }
}

/// Put a reason code and a property list, leaving out what [code_properties_steps] leaves out
pub fn put_code_and_properties<W: MqttWriter>(writer: &mut W, code: ReasonCode, properties: &Vec<Property>) -> (r: Result<(), PacketWriteError>)
    ensures
        put_outcome(
            old(writer).written(),
            old(writer).room(),
            final(writer).written(),
            final(writer).room(),
            r,
            code_properties_steps(code, properties_view(properties@)),
        ),
{
    let ghost w0 = writer.written();
    let ghost m0 = writer.room();
    let ghost ps = properties_view(properties@);
    if properties.len() == 0 {
        if code != ReasonCode::Success {
            writer.put_u8(code.value())
        } else {
            proof {
                lemma_put_nothing(w0, m0);
            }
            Ok(())
        }
    } else {
        let r1 = writer.put_u8(code.value());
        let ghost w1 = writer.written();
        let ghost m1 = writer.room();
        let ghost first = seq![WriteStep::Bytes(seq![reason_code_value(code)])];
        match r1 {
            Ok(()) => {},
            Err(e) => {
                proof {
                    lemma_put_stop(w0, m0, w1, m1, r1, first, property_list_steps(ps));
                }
                return Err(e);
            },
        }
        let r2 = put_properties(writer, properties);
        proof {
            lemma_put_then(w0, m0, w1, m1, r1, first, writer.written(), writer.room(), r2, property_list_steps(ps));
        }
        r2
    }
}

/// Reading a reason code and a property list as packets that may leave them out do: when
/// `omit_all`, nothing is read and the code is success with no properties; when
/// `omit_properties`, only the code is read; otherwise the code and then the list
pub open spec fn parse_code_properties(
    s: Seq<u8>,
    omit_all: bool,
    omit_properties: bool,
    subset: ReasonCodeSubset,
    context: PropertyContext,
    capacity: nat,
) -> Result<((ReasonCode, Seq<PropertyView>), nat), PacketReadError> {
    if omit_all {
        Ok(((ReasonCode::Success, Seq::empty()), 0))
    } else {
        match parse_reason_code(s, subset) {
            Err(e) => Err(e),
            Ok((c, n1)) => if omit_properties {
                Ok(((c, Seq::empty()), n1))
            } else {
                match parse_property_list(s.skip(n1 as int), context, capacity) {
                    Err(e) => Err(e),
                    Ok((ps, n2)) => Ok(((c, ps), n1 + n2)),
                }
            },
        }
    }
}

impl<'a> MqttBufReader<'a> {
    /// Get a reason code and a property list, as [parse_code_properties] reads them
    pub fn get_code_and_properties(
        &mut self,
        omit_all: bool,
        omit_properties: bool,
        subset: ReasonCodeSubset,
        context: PropertyContext,
        capacity: usize,
    ) -> (r: Result<(ReasonCode, Vec<Property<'a>>), PacketReadError>)
        ensures
            final(self).data() == old(self).data(),
            match parse_code_properties(old(self).rest(), omit_all, omit_properties, subset, context, capacity as nat) {
                Ok(((c, ps), n)) => r is Ok && r->Ok_0.0 == c && properties_view(r->Ok_0.1@) == ps && advanced(*old(self), *final(self), n),
                Err(e) => r == Err::<(ReasonCode, Vec<Property>), PacketReadError>(e),
            },
    {
        if omit_all {
            proof {
                assert(old(self).rest().skip(0) =~= old(self).rest());
                assert(properties_view(Seq::<Property>::empty()) =~= Seq::<PropertyView>::empty());
            }
            return Ok((ReasonCode::Success, Vec::new()));
        }
        let code = match self.get_reason_code_in(subset) {
            Ok(c) => c,
            Err(e) => return Err(e),
        };
        if omit_properties {
            proof {
                assert(properties_view(Seq::<Property>::empty()) =~= Seq::<PropertyView>::empty());
            }
            return Ok((code, Vec::new()));
        }
        let ghost mid = *self;
        let ghost n1 = parse_reason_code(old(self).rest(), subset)->Ok_0.1;
        let properties = match self.get_property_list(context, capacity) {
            Ok(ps) => ps,
            Err(e) => return Err(e),
        };
        proof {
            let n2 = parse_property_list(mid.rest(), context, capacity as nat)->Ok_0.1;
            lemma_advanced_trans(*old(self), mid, *self, n1, n2);
        }
        Ok((code, properties))
    }
}

} // verus!
