use vstd::prelude::*;

use crate::client::{client_event, client_event_outcome, ClientError, ClientReceivedEvent};
use crate::client_state::{no_queue_receive, ClientStateError, ClientStateNoQueue, ClientStateReceiveEvent};
use crate::message_io::PacketBin;
use crate::packets::packet_generic::{parse_packet_generic, PacketGeneric};
use crate::packets::puback::Puback;
use crate::poll_timing::{PollTimers, Settings};

verus! {

/// A client that is polled for packets, rather than waited on: the state of its connection,
/// its timers and their settings. Its owner moves the packets: it hands each packet
/// received, as a [PacketBin], to the client, and sends what the client gives back.
pub struct PollClient<const N: usize, const P: usize> {
    pub client_state: ClientStateNoQueue,
    pub timers: PollTimers,
    pub settings: Settings,
}

/// What the client state does with the packet that some bytes encode: the bytes are
/// decoded (an error is [ClientError::PacketRead], and leaves the state unchanged), and the
/// state receives the packet as [no_queue_receive] states (an error is
/// [ClientError::ClientState]); `received` is what receiving gave
pub open spec fn receives_packet_bytes<'b, 'c, const P: usize>(
    data: Seq<u8>,
    before: ClientStateNoQueue,
    after: ClientStateNoQueue,
    received: Result<ClientStateReceiveEvent<'b, 'c, P>, ClientStateError>,
) -> bool {
    match parse_packet_generic(data, P as nat, 0, 0) {
        Ok((v, _)) => exists|packet: PacketGeneric<'b, P, 0, 0>|
            packet@ == v && #[trigger] no_queue_receive(before, packet, after, received),
        Err(_) => false,
    }
}

/// What [PollClient::handle_packet_bin] gives for the bytes of a packet: an error of
/// decoding them leaves the state unchanged; otherwise the state receives the packet, an
/// error of the state is [ClientError::ClientState], and an event is passed on as
/// [client_event_outcome] states
pub open spec fn packet_bin_outcome<'b, 'c, E, const P: usize>(
    data: Seq<u8>,
    before: ClientStateNoQueue,
    after: ClientStateNoQueue,
    r: Result<(ClientReceivedEvent<'b, P>, Option<Puback<'c, P>>), ClientError<E>>,
) -> bool {
    match parse_packet_generic(data, P as nat, 0, 0) {
        Err(e) => after == before && (r matches Err(ClientError::PacketRead(x)) && x == e),
        Ok(_) => exists|received: Result<ClientStateReceiveEvent<'b, 'c, P>, ClientStateError>|
            #[trigger] receives_packet_bytes(data, before, after, received) && match received {
                Err(e) => r matches Err(ClientError::ClientState(x)) && x == e,
                Ok(event) => client_event_outcome(event, r),
            },
    }
}

/// What [PollClient::handle_connect_response] gives for the bytes of a packet received
/// while the client waits for its connection to be acknowledged: as
/// [packet_bin_outcome], but an event other than an acknowledgement is
/// [ClientStateError::ReceivedPacketOtherThanConnackOrAuthWhenConnecting]
pub open spec fn connect_response_outcome<E, const P: usize>(
    data: Seq<u8>,
    before: ClientStateNoQueue,
    after: ClientStateNoQueue,
    r: Result<(), ClientError<E>>,
) -> bool {
    match parse_packet_generic(data, P as nat, 0, 0) {
        Err(e) => after == before && (r matches Err(ClientError::PacketRead(x)) && x == e),
        Ok(_) => exists|received: Result<ClientStateReceiveEvent<'static, 'static, P>, ClientStateError>|
            #[trigger] receives_packet_bytes(data, before, after, received) && match received {
                Err(e) => r matches Err(ClientError::ClientState(x)) && x == e,
                Ok(event) => if event is Ack {
                    r is Ok
                } else {
                    r matches Err(
                        ClientError::ClientState(ClientStateError::ReceivedPacketOtherThanConnackOrAuthWhenConnecting),
                    )
                },
            },
    }
}

impl<const N: usize, const P: usize> PollClient<N, P> {
    /// A client that is idle, with its timers off
    pub fn new(settings: Settings) -> (r: Self)
        ensures
            r.client_state == ClientStateNoQueue::Idle,
            r.timers == (PollTimers { receive_timeout_start: None, ping_interval_start: None, connection_start: None }),
            r.settings == settings,
    {
        PollClient { client_state: ClientStateNoQueue::Idle, timers: PollTimers::new(), settings }
    }

    /// Receive the packet that a bin holds: decode it, update the client state, and give the
    /// event for the client's handler together with the Puback that the owner must send, if
    /// any. Each packet received is handed over exactly once.
    pub fn handle_packet_bin<'b, 'c, E>(&mut self, packet_bin: &'b PacketBin<N>) -> (r: Result<(ClientReceivedEvent<'b, P>, Option<Puback<'c, P>>), ClientError<E>>)
        ensures
            packet_bin_outcome(packet_bin.data(), old(self).client_state, final(self).client_state, r),
            final(self).timers == old(self).timers,
            final(self).settings == old(self).settings,
    {
        let packet: PacketGeneric<'b, P, 0, 0> = match packet_bin.as_packet_generic() {
            Ok(p) => p,
            Err(e) => return Err(ClientError::PacketRead(e)),
        };
        let ghost decoded = packet;
        let received: Result<ClientStateReceiveEvent<'b, 'c, P>, ClientStateError> = self.client_state.receive(packet);
        proof {
            assert(no_queue_receive(old(self).client_state, decoded, self.client_state, received));
            assert(receives_packet_bytes(packet_bin.data(), old(self).client_state, self.client_state, received));
        }
        match received {
            Err(e) => Err(ClientError::ClientState(e)),
            Ok(event) => client_event(event),
        }
    }

    /// Receive the packet that a bin holds while waiting for the connection to be
    /// acknowledged: an acknowledgement establishes the connection, and pings start,
    /// counted from when the Connect packet was sent; any other event is
    /// [ClientStateError::ReceivedPacketOtherThanConnackOrAuthWhenConnecting], and an error
    /// leaves the timers unchanged
    pub fn handle_connect_response<'b, E>(&mut self, packet_bin: &'b PacketBin<N>) -> (r: Result<(), ClientError<E>>)
        ensures
            connect_response_outcome::<E, P>(packet_bin.data(), old(self).client_state, final(self).client_state, r),
            r is Ok ==> final(self).timers == (PollTimers { ping_interval_start: old(self).timers.connection_start, ..old(self).timers }),
            r is Err ==> final(self).timers == old(self).timers,
            final(self).settings == old(self).settings,
    {
        let packet: PacketGeneric<'b, P, 0, 0> = match packet_bin.as_packet_generic() {
            Ok(p) => p,
            Err(e) => return Err(ClientError::PacketRead(e)),
        };
        let ghost decoded = packet;
        let received: Result<ClientStateReceiveEvent<'b, 'static, P>, ClientStateError> = self.client_state.receive(packet);
        proof {
            assert(no_queue_receive(old(self).client_state, decoded, self.client_state, received));
            assert(receives_packet_bytes(packet_bin.data(), old(self).client_state, self.client_state, received));
        }
        match received {
            Err(e) => Err(ClientError::ClientState(e)),
            Ok(ClientStateReceiveEvent::Ack) => {
                self.timers.connected();
                Ok(())
            },
            Ok(_) => Err(ClientError::ClientState(ClientStateError::ReceivedPacketOtherThanConnackOrAuthWhenConnecting)),
        }
    }
}

} // verus!
