use vstd::prelude::*;

use crate::codec::mqtt_reader::MqttBufReader;
use crate::error::PacketReadError;
use crate::packets::packet_generic::{parse_packet_generic, PacketGeneric};

verus! {

/// An error of receiving a packet into a [PacketBin]
#[derive(Debug, PartialEq, Eq, Clone, Copy, Structural)]
pub enum Error {
    /// Reading from the stream failed
    ReadExact,
    /// The packet does not fit in a bin
    PacketBinTooLarge,
    /// The packet could not be read
    PacketRead(PacketReadError),
}

/// The bytes of a whole packet, at most `N` of them
#[derive(Debug, Clone)]
pub struct PacketBin<const N: usize> {
    buf: Vec<u8>,
}

impl<const N: usize> PacketBin<N> {
    /// The bytes held
    pub closed spec fn data(&self) -> Seq<u8> {
        self.buf@
    }

    /// A bin holding the bytes of a message, when there are at most `N` of them; otherwise
    /// [Error::PacketBinTooLarge]
    pub fn new(msg_data: &[u8]) -> (r: Result<Self, Error>)
        ensures
            msg_data@.len() <= N ==> r is Ok && r->Ok_0.data() == msg_data@,
            msg_data@.len() > N ==> r == Err::<Self, Error>(Error::PacketBinTooLarge),
    {
        if msg_data.len() > N {
            Err(Error::PacketBinTooLarge)
        } else {
            Ok(PacketBin { buf: vstd::slice::slice_to_vec(msg_data) })
        }
    }

    /// The bytes held
    pub fn msg_data(&self) -> (r: &[u8])
        ensures
            r@ == self.data(),
    {
        self.buf.as_slice()
    }

    /// The packet that the bytes held encode, as [parse_packet_generic] reads it
    pub fn as_packet_generic<'a, const P: usize, const WP: usize, const S: usize>(&'a self) -> (r: Result<PacketGeneric<'a, P, WP, S>, PacketReadError>)
        ensures
            match parse_packet_generic(self.data(), P as nat, WP as nat, S as nat) {
                Ok((v, _)) => r is Ok && r->Ok_0@ == v,
                Err(e) => r == Err::<PacketGeneric<'a, P, WP, S>, PacketReadError>(e),
            },
    {
        let mut reader = MqttBufReader::new(self.buf.as_slice());
        PacketGeneric::read(&mut reader)
    }
}

} // verus!
