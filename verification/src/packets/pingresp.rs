use vstd::prelude::*;

use crate::codec::encoding::WriteStep;
use crate::codec::mqtt_reader::{advanced, MqttBufReader};
use crate::codec::mqtt_writer::{put_outcome, MqttWriter};
use crate::codec::write::lemma_put_nothing;
use crate::data::packet_type::PacketType;
use crate::error::{PacketReadError, PacketWriteError};
use crate::packets::packet::{
    packet_steps, parse_packet, read_packet, Packet, PacketRead, PacketWrite,
};
use crate::codec::encoding::steps_bytes;
use crate::packets::laws::lemma_packet_roundtrip;

verus! {

/// A Pingresp packet, sent by a server in reply to a Pingreq; it has no variable
/// header and no payload
#[derive(Debug, PartialEq, Eq, Clone, Copy)]
pub struct Pingresp {}

impl View for Pingresp {
    type V = ();

    open spec fn view(&self) -> () {
        ()
    }
}

impl Pingresp {
    /// Create a packet
    pub fn new() -> (r: Pingresp)
        ensures
            r == (Pingresp {}),
    {
        Pingresp {}
    }

    /// Read a whole Pingresp packet
    pub fn read<'a>(reader: &mut MqttBufReader<'a>) -> (r: Result<Self, PacketReadError>)
        ensures
            final(reader).data() == old(reader).data(),
            match parse_packet::<Self>(old(reader).rest()) {
                Ok((v, n)) => r is Ok && advanced(*old(reader), *final(reader), n),
                Err(e) => r == Err::<Self, PacketReadError>(e),
            },
    {
        read_packet(reader)
    }
}

impl Default for Pingresp {
    fn default() -> (r: Self)
        ensures
            r == (Pingresp {}),
    {
        Pingresp {}
    }
}

impl Packet for Pingresp {
    open spec fn spec_packet_type() -> PacketType {
        PacketType::Pingresp
    }

    fn packet_type(&self) -> (r: PacketType) {
        PacketType::Pingresp
    }
}

impl PacketWrite for Pingresp {
    open spec fn spec_first_byte(&self) -> u8 {
        0xD0
    }

    /// Nothing
    open spec fn body_steps(&self) -> Seq<WriteStep> {
        Seq::empty()
    }

    fn fixed_header_first_byte(&self) -> (r: u8) {
        0xD0
    }

    fn put_variable_header_and_payload<W: MqttWriter>(&self, writer: &mut W) -> (r: Result<(), PacketWriteError>) {
        proof {
            lemma_put_nothing(writer.written(), writer.room());
        }
        Ok(())
    }
}

impl<'a> PacketRead<'a> for Pingresp {
    /// Nothing is read; the remaining length must be 0 (otherwise
    /// [PacketReadError::IncorrectPacketLength])
    open spec fn parse_body(s: Seq<u8>, first_header_byte: u8, len: nat) -> Result<((), nat), PacketReadError> {
        if len == 0 {
            Ok(((), 0))
        } else {
            Err(PacketReadError::IncorrectPacketLength)
        }
    }

    fn get_variable_header_and_payload(reader: &mut MqttBufReader<'a>, first_header_byte: u8, len: usize) -> (r: Result<Self, PacketReadError>) {
        if len == 0 {
            assert(reader.rest().skip(0) =~= reader.rest());
            Ok(Pingresp {})
        } else {
            Err(PacketReadError::IncorrectPacketLength)
        }
    }
}

/// A Pingresp packet, written, reads back as a Pingresp packet, whatever data follows it.
pub proof fn lemma_pingresp_roundtrip(p: Pingresp, rest: Seq<u8>)
    ensures
        parse_packet::<Pingresp>(steps_bytes(packet_steps(p.spec_first_byte(), p.body_steps())) + rest)
            == Ok::<((), nat), PacketReadError>(((), steps_bytes(packet_steps(p.spec_first_byte(), p.body_steps())).len())),
{
    assert(steps_bytes(Seq::<WriteStep>::empty()) == Seq::<u8>::empty());
    assert(Seq::<u8>::empty() + rest =~= rest);
    crate::codec::encoding::lemma_run_steps_outcome(Seq::<WriteStep>::empty(), usize::MAX as nat);
    crate::codec::encoding::lemma_byte_steps(crate::codec::encoding::enc_vbi(0), 0);
    let header = seq![WriteStep::Bytes(seq![p.spec_first_byte()])];
    let vbi = crate::codec::encoding::vbi_steps(0);
    assert(packet_steps(p.spec_first_byte(), p.body_steps()) =~= header + vbi + Seq::<WriteStep>::empty());
    crate::codec::roundtrip::lemma_steps_append(header, vbi);
    crate::codec::roundtrip::lemma_steps_append(header + vbi, Seq::<WriteStep>::empty());
    crate::codec::roundtrip::lemma_steps_one(seq![p.spec_first_byte()]);
    lemma_packet_roundtrip(p, rest);
}

} // verus!
