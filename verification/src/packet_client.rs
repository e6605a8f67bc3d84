use vstd::prelude::*;

use crate::codec::encoding::run_steps;
use crate::codec::mqtt_reader::MqttBufReader;
use crate::codec::mqtt_writer::{MqttBufWriter, MqttWriter};
use crate::error::{PacketReadError, PacketWriteError};
use crate::packets::packet::{packet_steps, PacketWrite};
use crate::packets::packet_generic::{parse_packet_generic, PacketGeneric};

verus! {

/// A connection, with a buffer that holds each packet sent or received on it: a packet is
/// encoded in the buffer before it is sent, and received into the buffer before it is
/// decoded
pub struct PacketClient<C> {
    pub connection: C,
    pub buf: Vec<u8>,
}

impl<C> PacketClient<C> {
    /// A client for a connection, with a buffer
    pub fn new(connection: C, buf: Vec<u8>) -> (r: Self)
        ensures
            r.connection == connection,
            r.buf@ == buf@,
    {
        PacketClient { connection, buf }
    }

    /// Encode a packet at the start of the buffer, giving the number of bytes to send; the
    /// buffer keeps its length, and an error is that of writing the packet into it
    pub fn encode<P: PacketWrite>(&mut self, packet: &P) -> (r: Result<usize, PacketWriteError>)
        ensures
            final(self).connection == old(self).connection,
            final(self).buf@.len() == old(self).buf@.len(),
            ({
                let run = run_steps(packet_steps(packet.spec_first_byte(), packet.body_steps()), old(self).buf@.len());
                match run.0 {
                    Ok(()) => r == Ok::<usize, PacketWriteError>(run.1.len() as usize)
                        && final(self).buf@.subrange(0, run.1.len() as int) == run.1,
                    Err(e) => r == Err::<usize, PacketWriteError>(e),
                }
            }),
    {
        let mut buf: Vec<u8> = Vec::new();
        std::mem::swap(&mut buf, &mut self.buf);
        let mut writer = MqttBufWriter::new(buf);
        let written = packet.write(&mut writer);
        let len = writer.position();
        self.buf = writer.into_inner();
        match written {
            Ok(()) => Ok(len),
            Err(e) => Err(e),
        }
    }

    /// Decode the packet that the first `len` bytes of the buffer hold, as
    /// [parse_packet_generic] reads it
    pub fn decode<'a, const P: usize, const WP: usize, const S: usize>(&'a self, len: usize) -> (r: Result<PacketGeneric<'a, P, WP, S>, PacketReadError>)
        requires
            len <= self.buf@.len(),
        ensures
            match parse_packet_generic(self.buf@.subrange(0, len as int), P as nat, WP as nat, S as nat) {
                Ok((v, _)) => r is Ok && r->Ok_0@ == v,
                Err(e) => r == Err::<PacketGeneric<'a, P, WP, S>, PacketReadError>(e),
            },
    {
        let data = vstd::slice::slice_subrange(self.buf.as_slice(), 0, len);
        let mut reader = MqttBufReader::new(data);
        PacketGeneric::read(&mut reader)
    }
}

} // verus!
