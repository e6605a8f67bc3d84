use vstd::prelude::*;

use vstd::string::StringSliceAdditionalSpecFns;

use crate::client_state::{
    acknowledged_puback, acknowledged_suback, acknowledged_unsuback, connection_keep_alive,
    fails_with, lemma_server_keep_alive, puback_outcome, publish_request_view, receive_publish,
    receive_publish_outcome,
    server_keep_alive, suback_outcome, subscribe_request_view, unsuback_outcome,
    unsubscribe_request_view, ClientStateError, ClientStateReceiveEvent, ConnectionInfo,
    RequestedConnectionInfo,
};
use crate::data::packet_identifier::{next_packet_identifier, PacketIdentifier, PublishPacketIdentifier};
use crate::data::property::{properties_view, Property, PropertyView, PublishProperty};
use crate::data::quality_of_service::QualityOfService;
use crate::data::reason_code::{ConnectReasonCode, ReasonCode};
use crate::packets::connect::Connect;
use crate::packets::disconnect::{Disconnect, DisconnectView};
use crate::packets::packet_generic::PacketGeneric;
use crate::packets::pingreq::Pingreq;
use crate::packets::payload_list::{items_view, PayloadItem};
use crate::packets::publish::Publish;
use crate::packets::subscribe::{Subscribe, SubscriptionRequest, SubscriptionRequestView};
use crate::packets::unsubscribe::Unsubscribe;

verus! {

/// The number of responses that a client with a queue can await at once. It is less than
/// the number of packet identifiers, so that a free identifier can always be found.
pub const Q: usize = 128;

/// A response that a client with a queue awaits
#[derive(Debug, PartialEq, Eq, Clone, Copy, Structural)]
pub enum Pending {
    Puback,
    Suback { maximum_qos: QualityOfService },
    Unsuback,
}

/// The responses awaited by a client with a queue, by packet identifier: an index map of the
/// heapless crate with room for [Q] entries
#[verifier::external_body]
pub struct PendingMap {
    map: heapless::FnvIndexMap<u16, Pending, Q>,
}

/// The entries that a map of awaited responses holds
pub uninterp spec fn pending_entries(m: PendingMap) -> Map<u16, Pending>;

impl PendingMap {
    /// An empty map. Calls `FnvIndexMap::new` of the heapless crate, whose map holds no
    /// entry when created.
    #[verifier::external_body]
    pub fn new() -> (map: PendingMap)
        ensures
            pending_entries(map).dom() =~= Set::<u16>::empty(),
    {
        PendingMap { map: heapless::FnvIndexMap::new() }
    }

    /// The number of entries. Calls `IndexMap::len` of the heapless crate, which counts the
    /// key-value pairs; they are kept in a heapless vector with room for [Q] of them, so
    /// the map is finite and holds at most [Q] entries.
    #[verifier::external_body]
    pub fn len(&self) -> (r: usize)
        ensures
            r == pending_entries(*self).len(),
            r <= Q,
    {
        self.map.len()
    }

    /// Whether an identifier has an entry. Calls `IndexMap::contains_key` of the heapless
    /// crate.
    #[verifier::external_body]
    pub fn contains_key(&self, id: u16) -> (r: bool)
        ensures
            r == pending_entries(*self).dom().contains(id),
    {
        self.map.contains_key(&id)
    }

    /// Insert an entry. Calls `IndexMap::insert` of the heapless crate: a key that has an
    /// entry keeps it with the new value, and the old value is returned; a new key is added
    /// when the map has room, and `None` is returned; otherwise the map is full and is
    /// left unchanged, and the key and value are returned as the error.
    #[verifier::external_body]
    pub fn insert(&mut self, id: u16, value: Pending) -> (r: Result<Option<Pending>, (u16, Pending)>)
        ensures
            r == (if pending_entries(*old(self)).dom().contains(id) {
                Ok::<Option<Pending>, (u16, Pending)>(Some(pending_entries(*old(self))[id]))
            } else if pending_entries(*old(self)).len() < Q {
                Ok::<Option<Pending>, (u16, Pending)>(None)
            } else {
                Err::<Option<Pending>, (u16, Pending)>((id, value))
            }),
            pending_entries(*final(self)) == (if pending_entries(*old(self)).dom().contains(id) || pending_entries(*old(self)).len() < Q {
                pending_entries(*old(self)).insert(id, value)
            } else {
                pending_entries(*old(self))
            }),
    {
        self.map.insert(id, value)
    }

    /// Remove the entry of an identifier, giving its value if it had one. Calls
    /// `IndexMap::remove` of the heapless crate.
    #[verifier::external_body]
    pub fn remove(&mut self, id: u16) -> (r: Option<Pending>)
        ensures
            r == (if pending_entries(*old(self)).dom().contains(id) {
                Some(pending_entries(*old(self))[id])
            } else {
                None
            }),
            pending_entries(*final(self)) == pending_entries(*old(self)).remove(id),
    {
        self.map.remove(&id)
    }
}

/// How many times the next packet identifier must be taken from `start` to reach `id`,
/// among the identifiers 1 to 65535
pub open spec fn identifier_distance(start: u16, id: u16) -> int {
    ((id as int) - (start as int) + 65535) % 65535
}

/// Taking the next identifier goes one further from any start, until the start is reached
/// again.
pub proof fn lemma_identifier_distance_next(start: u16, id: u16)
    requires
        start != 0,
        id != 0,
    ensures
        identifier_distance(start, next_packet_identifier(id)) == (identifier_distance(start, id) + 1) % 65535,
{
}

/// The state of an established connection of a client with a queue
pub struct ConnectionState {
    info: ConnectionInfo,
    pending: PendingMap,
    next_id: PacketIdentifier,
}

impl ConnectionState {
    /// What is known of the connection
    pub closed spec fn info_view(&self) -> ConnectionInfo {
        self.info
    }

    /// The awaited responses, by packet identifier
    pub closed spec fn pending_view(&self) -> Map<u16, Pending> {
        pending_entries(self.pending)
    }

    /// The packet identifier that the next request will have
    pub closed spec fn next_id_view(&self) -> u16 {
        self.next_id.0
    }

    /// The awaited responses are finitely many, and the packet identifier that the next
    /// request will have is never 0 and has no response awaited under it
    pub closed spec fn wf(&self) -> bool {
        &&& pending_entries(self.pending).dom().finite()
        &&& self.next_id.0 != 0
        &&& !pending_entries(self.pending).dom().contains(self.next_id.0)
    }

    /// A well-formed connection state awaits nothing under the next packet identifier.
    pub proof fn lemma_next_id_free(&self)
        requires
            self.wf(),
        ensures
            !self.pending_view().dom().contains(self.next_id_view()),
            self.next_id_view() != 0,
    {
    }

    /// A new connection: no response awaited, and the next packet identifier 1
    fn new(info: ConnectionInfo) -> (r: Self)
        ensures
            r.info_view() == info,
            r.pending_view() == Map::<u16, Pending>::empty(),
            r.next_id_view() == 1,
            r.wf(),
    {
        let pending = PendingMap::new();
        assert(pending_entries(pending) =~= Map::<u16, Pending>::empty());
        ConnectionState { info, pending, next_id: PacketIdentifier::default() }
    }

    /// What is known of the connection
    pub fn info(&self) -> (r: ConnectionInfo)
        ensures
            r == self.info_view(),
    {
        self.info
    }

    /// Count one more pending ping
    fn add_ping(&mut self)
        requires
            old(self).info_view().pending_ping_count < u32::MAX,
        ensures
            final(self).info_view() == (ConnectionInfo {
                pending_ping_count: (old(self).info_view().pending_ping_count + 1) as u32,
                session_present: old(self).info_view().session_present,
                keep_alive: old(self).info_view().keep_alive,
            }),
            final(self).pending_view() == old(self).pending_view(),
            final(self).next_id_view() == old(self).next_id_view(),
            old(self).wf() ==> final(self).wf(),
    {
        self.info.pending_ping_count = self.info.pending_ping_count + 1;
    }

    /// Whether no response is awaited
    pub fn nothing_pending(&self) -> (r: bool)
        ensures
            r == (self.pending_view().len() == 0),
    {
        self.pending.len() == 0
    }

    /// Await a response: when fewer than [Q] responses are awaited, the response is
    /// recorded under the next packet identifier, which is returned, and the next free
    /// identifier after it is taken for the following request; otherwise
    /// [ClientStateError::ClientIsWaitingForResponse], leaving the state unchanged.
    fn add_pending(&mut self, pending: Pending) -> (r: Result<PacketIdentifier, ClientStateError>)
        requires
            old(self).wf(),
        ensures
            final(self).wf(),
            final(self).info_view() == old(self).info_view(),
            old(self).pending_view().len() < Q ==> r == Ok::<PacketIdentifier, ClientStateError>(PacketIdentifier(old(self).next_id_view()))
                && final(self).pending_view() == old(self).pending_view().insert(old(self).next_id_view(), pending)
                && !final(self).pending_view().dom().contains(final(self).next_id_view()),
            old(self).pending_view().len() >= Q ==> r == Err::<PacketIdentifier, ClientStateError>(ClientStateError::ClientIsWaitingForResponse)
                && *final(self) == *old(self),
    {
        if self.pending.len() < Q {
            let id = self.next_id;
            let inserted = self.pending.insert(id.0, pending);
            let ghost start = id.0;
            let ghost mut tried: Set<u16> = Set::empty();
            proof {
                assert(identifier_distance(start, start) == 0);
            }
            let _ = self.pending.len();
            loop
                invariant_except_break
                    identifier_distance(start, self.next_id.0) == tried.len(),
                invariant
                    start != 0,
                    self.next_id.0 != 0,
                    self.info == old(self).info,
                    pending_entries(self.pending) == old(self).pending_view().insert(start, pending),
                    pending_entries(self.pending).dom().finite(),
                    pending_entries(self.pending).len() <= Q,
                    tried.finite(),
                    tried.subset_of(pending_entries(self.pending).dom()),
                    tried.len() <= Q,
                    forall|x: u16| #[trigger] tried.contains(x) ==> 1 <= identifier_distance(start, x) <= tried.len(),
                ensures
                    self.next_id.0 != 0,
                    self.info == old(self).info,
                    pending_entries(self.pending) == old(self).pending_view().insert(start, pending),
                    !pending_entries(self.pending).dom().contains(self.next_id.0),
                decreases Q - tried.len(),
            {
                let ghost before = self.next_id.0;
                self.next_id.increment_wrapping();
                proof {
                    lemma_identifier_distance_next(start, before);
                }
                if !self.pending.contains_key(self.next_id.0) {
                    break;
                }
                proof {
                    assert(!tried.contains(self.next_id.0));
                    tried = tried.insert(self.next_id.0);
                    vstd::set_lib::lemma_len_subset(tried, pending_entries(self.pending).dom());
                }
            }
            Ok(id)
        } else {
            Err(ClientStateError::ClientIsWaitingForResponse)
        }
    }
}

/// The state of an MQTT client that can await many responses at once: it tracks
/// acknowledgements by packet identifier, and produces the packets for basic actions
pub enum ClientStateQueue {
    Idle,
    Connecting(RequestedConnectionInfo),
    Connected(ConnectionState),
    Errored,
    Disconnected,
}

/// A connection state whose parts are those given
pub open spec fn connection_is(cs: ConnectionState, info: ConnectionInfo, pending: Map<u16, Pending>, next_id: u16) -> bool {
    &&& cs.info_view() == info
    &&& cs.pending_view() == pending
    &&& cs.next_id_view() == next_id
}

/// The state after a Connack packet with reason code success was accepted: connected,
/// with no response awaited and the next packet identifier 1
pub open spec fn queue_connected(after: ClientStateQueue, session_present: bool, keep_alive: u16) -> bool {
    after matches ClientStateQueue::Connected(cs) && connection_is(
        cs,
        ConnectionInfo { pending_ping_count: 0, session_present, keep_alive },
        Map::empty(),
        1,
    )
}

/// Receiving a packet while connecting, for a client with a queue: as for a client without
/// one (see [crate::client_state::receive_when_connecting])
pub open spec fn queue_receive_when_connecting<'a, 'b, const P: usize, const W: usize, const S: usize>(
    requested: RequestedConnectionInfo,
    before: ClientStateQueue,
    packet: PacketGeneric<'a, P, W, S>,
    after: ClientStateQueue,
    r: Result<ClientStateReceiveEvent<'a, 'b, P>, ClientStateError>,
) -> bool {
    match packet {
        PacketGeneric::Connack(c) => if c@.reason_code == ReasonCode::Success {
            if c@.session_present && requested.clean_start {
                after == before && fails_with(r, ClientStateError::UnexpectedSessionPresentForCleanStart)
            } else {
                queue_connected(after, c@.session_present, server_keep_alive(c@.properties, requested.keep_alive))
                    && r is Ok && r->Ok_0 is Ack
            }
        } else {
            after == before && (r matches Err(ClientStateError::Connect(x))
                && crate::data::reason_code::connect_reason_code_general(x) == c@.reason_code)
        },
        PacketGeneric::Auth(_) => after == before && fails_with(r, ClientStateError::AuthNotSupported),
        _ => after == before && fails_with(r, ClientStateError::ReceivedPacketOtherThanConnackOrAuthWhenConnecting),
    }
}

/// Receiving an acknowledgement with a packet identifier: the response awaited under that
/// identifier, if any, is no longer awaited, and the rest of the state is unchanged
pub open spec fn acknowledgement_received(cs: ConnectionState, id: u16, cs2: ConnectionState) -> bool {
    connection_is(cs2, cs.info_view(), cs.pending_view().remove(id), cs.next_id_view())
}

/// Whether a response of a kind is awaited under a packet identifier
pub open spec fn awaits(cs: ConnectionState, id: u16, p: Pending) -> bool {
    cs.pending_view().dom().contains(id) && cs.pending_view()[id] == p
}

/// Receiving a packet while connected, for a client with a queue, from connection state
/// `cs` to `cs2`: a Publish packet is passed on (see [receive_publish_outcome]); a Puback,
/// Suback or Unsuback ends the wait for any response awaited under its packet identifier,
/// and answers it when that response is of its kind, otherwise it is an error; a Pingresp
/// answers a pending ping; a Disconnect packet is passed on; any other packet is an error.
/// Other errors leave the state unchanged.
pub open spec fn queue_receive_when_connected<'a, 'b, const P: usize, const W: usize, const S: usize>(
    cs: ConnectionState,
    packet: PacketGeneric<'a, P, W, S>,
    cs2: ConnectionState,
    r: Result<ClientStateReceiveEvent<'a, 'b, P>, ClientStateError>,
) -> bool {
    match packet {
        PacketGeneric::Publish(p) => cs2 == cs && receive_publish_outcome(p, r),
        PacketGeneric::Puback(a) => acknowledgement_received(cs, a@.packet_identifier, cs2) && if awaits(cs, a@.packet_identifier, Pending::Puback) {
            puback_outcome(a@.reason_code, r)
        } else {
            fails_with(r, ClientStateError::UnexpectedPubackPacketIdentifier)
        },
        PacketGeneric::Suback(sb) => acknowledgement_received(cs, sb@.packet_identifier, cs2) && if cs.pending_view().dom().contains(sb@.packet_identifier) {
            match cs.pending_view()[sb@.packet_identifier] {
                Pending::Suback { maximum_qos } => suback_outcome(sb@.first, maximum_qos, r),
                _ => fails_with(r, ClientStateError::UnexpectedSubackPacketIdentifier),
            }
        } else {
            fails_with(r, ClientStateError::UnexpectedSubackPacketIdentifier)
        },
        PacketGeneric::Unsuback(u) => acknowledgement_received(cs, u@.packet_identifier, cs2) && if awaits(cs, u@.packet_identifier, Pending::Unsuback) {
            unsuback_outcome(u@.first, r)
        } else {
            fails_with(r, ClientStateError::UnexpectedUnsubackPacketIdentifier)
        },
        PacketGeneric::Pingresp(_) => if cs.info_view().pending_ping_count > 0 {
            connection_is(
                cs2,
                ConnectionInfo {
                    pending_ping_count: (cs.info_view().pending_ping_count - 1) as u32,
                    session_present: cs.info_view().session_present,
                    keep_alive: cs.info_view().keep_alive,
                },
                cs.pending_view(),
                cs.next_id_view(),
            ) && r is Ok && r->Ok_0 is Ack
        } else {
            cs2 == cs && fails_with(r, ClientStateError::UnexpectedPingresp)
        },
        PacketGeneric::Disconnect(d) => cs2 == cs && (r matches Ok(ClientStateReceiveEvent::Disconnect { disconnect }) && disconnect == d),
        PacketGeneric::Connack(_) => cs2 == cs && fails_with(r, ClientStateError::ReceivedConnackWhenNotConnecting),
        PacketGeneric::Auth(_) => cs2 == cs && fails_with(r, ClientStateError::AuthNotSupported),
        _ => cs2 == cs && fails_with(r, ClientStateError::ServerOnlyMessageReceived),
    }
}

/// Receiving a packet, for a client with a queue: see [queue_receive_when_connecting] and
/// [queue_receive_when_connected]; in any other state receiving is an error that leaves the
/// state unchanged
pub open spec fn queue_receive<'a, 'b, const P: usize, const W: usize, const S: usize>(
    before: ClientStateQueue,
    packet: PacketGeneric<'a, P, W, S>,
    after: ClientStateQueue,
    r: Result<ClientStateReceiveEvent<'a, 'b, P>, ClientStateError>,
) -> bool {
    match before {
        ClientStateQueue::Connecting(requested) => queue_receive_when_connecting(requested, before, packet, after, r),
        ClientStateQueue::Connected(cs) => after matches ClientStateQueue::Connected(cs2) && queue_receive_when_connected(cs, packet, cs2, r),
        _ => after == before && fails_with(r, ClientStateError::ReceiveWhenNotConnectedOrConnecting),
    }
}

impl ClientStateQueue {
    /// The connection state, when connected, is well formed
    pub open spec fn wf(&self) -> bool {
        *self matches ClientStateQueue::Connected(cs) ==> cs.wf()
    }

    /// A new client state, idle
    pub fn new() -> (r: Self)
        ensures
            r is Idle,
            r.wf(),
    {
        ClientStateQueue::Idle
    }

    /// Whether a response to a sent packet is awaited: while connecting, or while connected
    /// and some response is awaited
    pub fn waiting_for_responses(&self) -> (r: bool)
        ensures
            r == match *self {
                ClientStateQueue::Connecting(_) => true,
                ClientStateQueue::Connected(cs) => cs.pending_view().len() > 0,
                _ => false,
            },
    {
        match self {
            ClientStateQueue::Idle => false,
            ClientStateQueue::Connecting(_) => true,
            ClientStateQueue::Connected(cs) => !cs.nothing_pending(),
            ClientStateQueue::Errored => false,
            ClientStateQueue::Disconnected => false,
        }
    }

    /// Update the state after a Connect packet was sent: an idle client starts connecting,
    /// with the clean start and keep alive of the packet; otherwise
    /// [ClientStateError::NotIdle]
    pub fn connect<const P: usize, const W: usize>(&mut self, connect: &Connect<'_, P, W>) -> (r: Result<(), ClientStateError>)
        requires
            old(self).wf(),
        ensures
            final(self).wf(),
            *old(self) is Idle ==> r is Ok && *final(self) == ClientStateQueue::Connecting(
                RequestedConnectionInfo { clean_start: connect@.clean_start, keep_alive: connect@.keep_alive },
            ),
            !(*old(self) is Idle) ==> r == Err::<(), ClientStateError>(ClientStateError::NotIdle) && *final(self) == *old(self),
    {
        match self {
            ClientStateQueue::Idle => {
                *self = ClientStateQueue::Connecting(RequestedConnectionInfo {
                    clean_start: connect.clean_start(),
                    keep_alive: connect.keep_alive(),
                });
                Ok(())
            },
            _ => Err(ClientStateError::NotIdle),
        }
    }

    /// Produce a Disconnect packet (reason code success, no properties): a connected client
    /// becomes disconnected; otherwise [ClientStateError::NotConnected]
    pub fn disconnect<'b>(&mut self) -> (r: Result<Disconnect<'b, 0>, ClientStateError>)
        requires
            old(self).wf(),
        ensures
            final(self).wf(),
            *old(self) is Connected ==> r is Ok && r->Ok_0@ == (DisconnectView { reason_code: ReasonCode::Success, properties: Seq::empty() })
                && *final(self) is Disconnected,
            !(*old(self) is Connected) ==> r is Err && r->Err_0 == ClientStateError::NotConnected && *final(self) == *old(self),
    {
        match self {
            ClientStateQueue::Connected(_) => {
                *self = ClientStateQueue::Disconnected;
                Ok(Disconnect::default())
            },
            _ => Err(ClientStateError::NotConnected),
        }
    }

    /// Move to the errored state, where no further operation is possible; to be called
    /// when a packet produced by this state could not be sent
    pub fn error(&mut self)
        ensures
            *final(self) is Errored,
            final(self).wf(),
    {
        *self = ClientStateQueue::Errored;
    }
}

impl Default for ClientStateQueue {
    fn default() -> (r: Self)
        ensures
            r is Idle,
    {
        ClientStateQueue::Idle
    }
}

/// The state after a request was recorded: connected, with the same information, the
/// response awaited under the identifier that the request was given, and a next packet
/// identifier under which nothing is awaited
pub open spec fn request_recorded(cs: ConnectionState, p: Pending, after: ClientStateQueue) -> bool {
    after matches ClientStateQueue::Connected(cs2) && cs2.info_view() == cs.info_view()
        && cs2.pending_view() == cs.pending_view().insert(cs.next_id_view(), p)
        && !cs2.pending_view().dom().contains(cs2.next_id_view())
}

impl ClientStateQueue {
    /// Produce a Publish packet for a message, with properties: quality of service 0 needs
    /// no response; quality of service 1 needs room to await one more response (otherwise
    /// [ClientStateError::ClientIsWaitingForResponse]), and its Puback is then awaited under
    /// the packet identifier of the packet; quality of service 2 is not supported
    /// ([ClientStateError::Qos2NotSupported]). A client that is not connected gives
    /// [ClientStateError::NotConnected]. Errors leave the state unchanged.
    pub fn publish_with_properties<'b, const P: usize>(
        &mut self,
        topic_name: &'b str,
        payload: &'b [u8],
        qos: QualityOfService,
        retain: bool,
        properties: Vec<PublishProperty<'b>>,
    ) -> (r: Result<Publish<'b, P>, ClientStateError>)
        requires
            old(self).wf(),
        ensures
            final(self).wf(),
            match *old(self) {
                ClientStateQueue::Connected(cs) => match qos {
                    QualityOfService::Qos0 => r is Ok && r->Ok_0@ == publish_request_view(topic_name.spec_bytes(), payload@, PublishPacketIdentifier::Qos0, retain, properties_view(properties@))
                        && r->Ok_0.spec_topic_name() == topic_name && r->Ok_0.spec_payload() == payload
                        && *final(self) == *old(self),
                    QualityOfService::Qos1 => if cs.pending_view().len() < Q {
                        r is Ok && r->Ok_0@ == publish_request_view(topic_name.spec_bytes(), payload@, PublishPacketIdentifier::Qos1(PacketIdentifier(cs.next_id_view())), retain, properties_view(properties@))
                            && r->Ok_0.spec_topic_name() == topic_name && r->Ok_0.spec_payload() == payload
                            && request_recorded(cs, Pending::Puback, *final(self))
                    } else {
                        r is Err && r->Err_0 == ClientStateError::ClientIsWaitingForResponse && *final(self) == *old(self)
                    },
                    QualityOfService::Qos2 => r is Err && r->Err_0 == ClientStateError::Qos2NotSupported && *final(self) == *old(self),
                },
                _ => r is Err && r->Err_0 == ClientStateError::NotConnected && *final(self) == *old(self),
            },
    {
        match self {
            ClientStateQueue::Connected(state) => {
                let id = match qos {
                    QualityOfService::Qos0 => PublishPacketIdentifier::Qos0,
                    QualityOfService::Qos1 => match state.add_pending(Pending::Puback) {
                        Ok(id) => PublishPacketIdentifier::Qos1(id),
                        Err(e) => return Err(e),
                    },
                    QualityOfService::Qos2 => return Err(ClientStateError::Qos2NotSupported),
                };
                Ok(Publish::new(false, retain, topic_name, id, payload, properties))
            },
            _ => Err(ClientStateError::NotConnected),
        }
    }

    /// Produce a Publish packet for a message with no properties, as
    /// [Self::publish_with_properties] does
    pub fn publish<'b>(
        &mut self,
        topic_name: &'b str,
        payload: &'b [u8],
        qos: QualityOfService,
        retain: bool,
    ) -> (r: Result<Publish<'b, 0>, ClientStateError>)
        requires
            old(self).wf(),
        ensures
            final(self).wf(),
            match *old(self) {
                ClientStateQueue::Connected(cs) => match qos {
                    QualityOfService::Qos0 => r is Ok && r->Ok_0@ == publish_request_view(topic_name.spec_bytes(), payload@, PublishPacketIdentifier::Qos0, retain, Seq::empty())
                        && *final(self) == *old(self),
                    QualityOfService::Qos1 => if cs.pending_view().len() < Q {
                        r is Ok && r->Ok_0@ == publish_request_view(topic_name.spec_bytes(), payload@, PublishPacketIdentifier::Qos1(PacketIdentifier(cs.next_id_view())), retain, Seq::empty())
                            && request_recorded(cs, Pending::Puback, *final(self))
                    } else {
                        r is Err && r->Err_0 == ClientStateError::ClientIsWaitingForResponse && *final(self) == *old(self)
                    },
                    QualityOfService::Qos2 => r is Err && r->Err_0 == ClientStateError::Qos2NotSupported && *final(self) == *old(self),
                },
                _ => r is Err && r->Err_0 == ClientStateError::NotConnected && *final(self) == *old(self),
            },
    {
        let properties: Vec<PublishProperty<'b>> = Vec::new();
        assert(properties_view(properties@) =~= Seq::<PropertyView>::empty());
        self.publish_with_properties(topic_name, payload, qos, retain, properties)
    }

    /// Produce a Subscribe packet for one topic filter: quality of service 2 is not
    /// supported ([ClientStateError::Qos2NotSupported]); otherwise, when there is room to
    /// await one more response, its Suback is awaited under the packet identifier of the
    /// packet (otherwise [ClientStateError::ClientIsWaitingForResponse]). A client that is
    /// not connected gives [ClientStateError::NotConnected]. Errors leave the state
    /// unchanged.
    pub fn subscribe<'b>(&mut self, topic_name: &'b str, maximum_qos: QualityOfService) -> (r: Result<Subscribe<'b, 0, 0>, ClientStateError>)
        requires
            old(self).wf(),
        ensures
            final(self).wf(),
            match *old(self) {
                ClientStateQueue::Connected(cs) => if maximum_qos == QualityOfService::Qos2 {
                    r is Err && r->Err_0 == ClientStateError::Qos2NotSupported && *final(self) == *old(self)
                } else if cs.pending_view().len() < Q {
                    r is Ok && r->Ok_0@ == subscribe_request_view(topic_name.spec_bytes(), maximum_qos, cs.next_id_view())
                        && request_recorded(cs, Pending::Suback { maximum_qos }, *final(self))
                } else {
                    r is Err && r->Err_0 == ClientStateError::ClientIsWaitingForResponse && *final(self) == *old(self)
                },
                _ => r is Err && r->Err_0 == ClientStateError::NotConnected && *final(self) == *old(self),
            },
    {
        match self {
            ClientStateQueue::Connected(state) => {
                if maximum_qos == QualityOfService::Qos2 {
                    Err(ClientStateError::Qos2NotSupported)
                } else {
                    let first_request = SubscriptionRequest::new(topic_name, maximum_qos);
                    let id = match state.add_pending(Pending::Suback { maximum_qos }) {
                        Ok(id) => id,
                        Err(e) => return Err(e),
                    };
                    let others: Vec<SubscriptionRequest<'b>> = Vec::new();
                    let properties: Vec<Property<'b>> = Vec::new();
                    assert(items_view(others@) =~= Seq::<SubscriptionRequestView>::empty());
                    assert(properties_view(properties@) =~= Seq::<PropertyView>::empty());
                    Ok(Subscribe::new(id, first_request, others, properties))
                }
            },
            _ => Err(ClientStateError::NotConnected),
        }
    }

    /// Produce an Unsubscribe packet for one topic filter: when there is room to await one
    /// more response, its Unsuback is awaited under the packet identifier of the packet
    /// (otherwise [ClientStateError::ClientIsWaitingForResponse]). A client that is not
    /// connected gives [ClientStateError::NotConnected]. Errors leave the state unchanged.
    pub fn unsubscribe<'b>(&mut self, topic_name: &'b str) -> (r: Result<Unsubscribe<'b, 0, 0>, ClientStateError>)
        requires
            old(self).wf(),
        ensures
            final(self).wf(),
            match *old(self) {
                ClientStateQueue::Connected(cs) => if cs.pending_view().len() < Q {
                    r is Ok && r->Ok_0@ == unsubscribe_request_view(topic_name.spec_bytes(), cs.next_id_view())
                        && request_recorded(cs, Pending::Unsuback, *final(self))
                } else {
                    r is Err && r->Err_0 == ClientStateError::ClientIsWaitingForResponse && *final(self) == *old(self)
                },
                _ => r is Err && r->Err_0 == ClientStateError::NotConnected && *final(self) == *old(self),
            },
    {
        match self {
            ClientStateQueue::Connected(state) => {
                let id = match state.add_pending(Pending::Unsuback) {
                    Ok(id) => id,
                    Err(e) => return Err(e),
                };
                let others: Vec<&'b str> = Vec::new();
                let properties: Vec<Property<'b>> = Vec::new();
                assert(items_view(others@) =~= Seq::<Seq<u8>>::empty());
                assert(properties_view(properties@) =~= Seq::<PropertyView>::empty());
                Ok(Unsubscribe::new(id, topic_name, others, properties))
            },
            _ => Err(ClientStateError::NotConnected),
        }
    }

    /// The number of pings sent and not answered yet when connected, otherwise 0
    pub open spec fn pending_ping_count_spec(&self) -> u32 {
        match *self {
            ClientStateQueue::Connected(cs) => cs.info_view().pending_ping_count,
            _ => 0,
        }
    }

    /// Produce a Pingreq packet: a connected client counts one more pending ping;
    /// otherwise [ClientStateError::NotConnected]
    pub fn send_ping(&mut self) -> (r: Result<Pingreq, ClientStateError>)
        requires
            old(self).wf(),
            old(self).pending_ping_count_spec() < u32::MAX,
        ensures
            final(self).wf(),
            match *old(self) {
                ClientStateQueue::Connected(cs) => r is Ok && (*final(self) matches ClientStateQueue::Connected(cs2) && connection_is(
                    cs2,
                    ConnectionInfo {
                        pending_ping_count: (cs.info_view().pending_ping_count + 1) as u32,
                        session_present: cs.info_view().session_present,
                        keep_alive: cs.info_view().keep_alive,
                    },
                    cs.pending_view(),
                    cs.next_id_view(),
                )),
                _ => r is Err && r->Err_0 == ClientStateError::NotConnected && *final(self) == *old(self),
            },
    {
        match self {
            ClientStateQueue::Connected(state) => {
                state.add_ping();
                Ok(Pingreq::new())
            },
            _ => Err(ClientStateError::NotConnected),
        }
    }

    /// The number of pings sent and not answered yet when connected, otherwise 0
    pub fn pending_ping_count(&self) -> (r: u32)
        ensures
            r == self.pending_ping_count_spec(),
    {
        match self {
            ClientStateQueue::Connected(cs) => cs.info().pending_ping_count,
            _ => 0,
        }
    }
}

impl ConnectionState {
    /// Receive a packet while connected, as [queue_receive_when_connected] states
    #[verifier::rlimit(30)]
    fn receive<'a, 'b, const P: usize, const W: usize, const S: usize>(
        &mut self,
        packet: PacketGeneric<'a, P, W, S>,
    ) -> (r: Result<ClientStateReceiveEvent<'a, 'b, P>, ClientStateError>)
        requires
            old(self).wf(),
        ensures
            final(self).wf(),
            queue_receive_when_connected(*old(self), packet, *final(self), r),
    {
        match packet {
            PacketGeneric::Publish(publish) => receive_publish(publish),
            PacketGeneric::Puback(puback) => {
                let ack_id = puback.packet_identifier().0;
                match self.pending.remove(ack_id) {
                    Some(Pending::Puback) => acknowledged_puback(*puback.reason_code()),
                    _ => Err(ClientStateError::UnexpectedPubackPacketIdentifier),
                }
            },
            PacketGeneric::Suback(suback) => {
                let ack_id = suback.packet_identifier().0;
                match self.pending.remove(ack_id) {
                    Some(Pending::Suback { maximum_qos }) => acknowledged_suback(*suback.first_reason_code(), maximum_qos),
                    _ => Err(ClientStateError::UnexpectedSubackPacketIdentifier),
                }
            },
            PacketGeneric::Unsuback(unsuback) => {
                let ack_id = unsuback.packet_identifier().0;
                match self.pending.remove(ack_id) {
                    Some(Pending::Unsuback) => acknowledged_unsuback(*unsuback.first_reason_code()),
                    _ => Err(ClientStateError::UnexpectedUnsubackPacketIdentifier),
                }
            },
            PacketGeneric::Pingresp(_) => {
                if self.info.pending_ping_count > 0 {
                    self.info.pending_ping_count = self.info.pending_ping_count - 1;
                    Ok(ClientStateReceiveEvent::Ack)
                } else {
                    Err(ClientStateError::UnexpectedPingresp)
                }
            },
            PacketGeneric::Disconnect(disconnect) => Ok(ClientStateReceiveEvent::Disconnect { disconnect }),
            PacketGeneric::Connack(_) => Err(ClientStateError::ReceivedConnackWhenNotConnecting),
            PacketGeneric::Auth(_) => Err(ClientStateError::AuthNotSupported),
            _ => Err(ClientStateError::ServerOnlyMessageReceived),
        }
    }
}

impl ClientStateQueue {
    /// Receive a packet from the server while connecting
    fn receive_connecting<'a, 'b, const P: usize, const W: usize, const S: usize>(
        &mut self,
        requested: RequestedConnectionInfo,
        packet: PacketGeneric<'a, P, W, S>,
    ) -> (r: Result<ClientStateReceiveEvent<'a, 'b, P>, ClientStateError>)
        requires
            *old(self) == ClientStateQueue::Connecting(requested),
        ensures
            final(self).wf(),
            queue_receive_when_connecting(requested, *old(self), packet, *final(self), r),
    {
        match packet {
            PacketGeneric::Connack(connack) => {
                let code = *connack.reason_code();
                proof {
                    crate::data::reason_code::lemma_connect_reason_code_roundtrip(code, ReasonCode::Success);
                    crate::data::reason_code::lemma_connect_reason_code_roundtrip(ConnectReasonCode::Success, ReasonCode::Success);
                }
                if code == ConnectReasonCode::Success {
                    let session_present = connack.session_present();
                    if session_present && requested.clean_start {
                        return Err(ClientStateError::UnexpectedSessionPresentForCleanStart);
                    }
                    let keep_alive = connection_keep_alive(connack.properties(), requested.keep_alive);
                    *self = ClientStateQueue::Connected(ConnectionState::new(
                        ConnectionInfo { pending_ping_count: 0, session_present, keep_alive },
                    ));
                    Ok(ClientStateReceiveEvent::Ack)
                } else {
                    Err(ClientStateError::Connect(code))
                }
            },
            PacketGeneric::Auth(_) => Err(ClientStateError::AuthNotSupported),
            _ => Err(ClientStateError::ReceivedPacketOtherThanConnackOrAuthWhenConnecting),
        }
    }

    /// Receive a packet from the server. This updates the state and gives what the caller
    /// may need to act on; errors stand for a packet that was not expected in this state.
    pub fn receive<'a, 'b, const P: usize, const W: usize, const S: usize>(
        &mut self,
        packet: PacketGeneric<'a, P, W, S>,
    ) -> (r: Result<ClientStateReceiveEvent<'a, 'b, P>, ClientStateError>)
        requires
            old(self).wf(),
        ensures
            final(self).wf(),
            queue_receive(*old(self), packet, *final(self), r),
    {
        let requested = match self {
            ClientStateQueue::Connecting(req) => Some(*req),
            _ => None,
        };
        match requested {
            Some(req) => self.receive_connecting(req, packet),
            None => match self {
                ClientStateQueue::Connected(state) => state.receive(packet),
                _ => Err(ClientStateError::ReceiveWhenNotConnectedOrConnecting),
            },
        }
    }
}

/// The law of acknowledged publishing: a message published with quality of service 1 by a
/// connected client, followed by the Puback that carries the packet identifier of its
/// Publish packet, leaves the client awaiting exactly the responses it awaited before
/// publishing, and the outcome is that of the Puback's reason code.
pub proof fn lemma_puback_answers_publish<'a, 'b, const P: usize, const W: usize, const S: usize>(
    cs: ConnectionState,
    published: ClientStateQueue,
    packet: PacketGeneric<'a, P, W, S>,
    after: ClientStateQueue,
    r: Result<ClientStateReceiveEvent<'a, 'b, P>, ClientStateError>,
)
    requires
        cs.wf(),
        request_recorded(cs, Pending::Puback, published),
        packet matches PacketGeneric::Puback(a) && a@.packet_identifier == cs.next_id_view(),
        queue_receive(published, packet, after, r),
    ensures
        after matches ClientStateQueue::Connected(cs2) && cs2.pending_view() == cs.pending_view()
            && cs2.info_view() == cs.info_view(),
        packet matches PacketGeneric::Puback(a) && puback_outcome(a@.reason_code, r),
{
    cs.lemma_next_id_free();
    let cs1 = published->Connected_0;
    assert(cs1.pending_view().remove(cs.next_id_view()) =~= cs.pending_view());
}

/// The law of acknowledged subscribing: a subscription requested by a connected client,
/// followed by the Suback that carries the packet identifier of its Subscribe packet,
/// leaves the client awaiting exactly the responses it awaited before, and the outcome is
/// that of the Suback's first reason code for the maximum quality of service requested.
pub proof fn lemma_suback_answers_subscribe<'a, 'b, const P: usize, const W: usize, const S: usize>(
    cs: ConnectionState,
    maximum_qos: QualityOfService,
    subscribed: ClientStateQueue,
    packet: PacketGeneric<'a, P, W, S>,
    after: ClientStateQueue,
    r: Result<ClientStateReceiveEvent<'a, 'b, P>, ClientStateError>,
)
    requires
        cs.wf(),
        request_recorded(cs, Pending::Suback { maximum_qos }, subscribed),
        packet matches PacketGeneric::Suback(sb) && sb@.packet_identifier == cs.next_id_view(),
        queue_receive(subscribed, packet, after, r),
    ensures
        after matches ClientStateQueue::Connected(cs2) && cs2.pending_view() == cs.pending_view()
            && cs2.info_view() == cs.info_view(),
        packet matches PacketGeneric::Suback(sb) && suback_outcome(sb@.first, maximum_qos, r),
{
    cs.lemma_next_id_free();
    let cs1 = subscribed->Connected_0;
    assert(cs1.pending_view().remove(cs.next_id_view()) =~= cs.pending_view());
}

/// The law of acknowledged unsubscribing: an unsubscription requested by a connected
/// client, followed by the Unsuback that carries the packet identifier of its Unsubscribe
/// packet, leaves the client awaiting exactly the responses it awaited before, and the
/// outcome is that of the Unsuback's first reason code.
pub proof fn lemma_unsuback_answers_unsubscribe<'a, 'b, const P: usize, const W: usize, const S: usize>(
    cs: ConnectionState,
    unsubscribed: ClientStateQueue,
    packet: PacketGeneric<'a, P, W, S>,
    after: ClientStateQueue,
    r: Result<ClientStateReceiveEvent<'a, 'b, P>, ClientStateError>,
)
    requires
        cs.wf(),
        request_recorded(cs, Pending::Unsuback, unsubscribed),
        packet matches PacketGeneric::Unsuback(u) && u@.packet_identifier == cs.next_id_view(),
        queue_receive(unsubscribed, packet, after, r),
    ensures
        after matches ClientStateQueue::Connected(cs2) && cs2.pending_view() == cs.pending_view()
            && cs2.info_view() == cs.info_view(),
        packet matches PacketGeneric::Unsuback(u) && unsuback_outcome(u@.first, r),
{
    cs.lemma_next_id_free();
    let cs1 = unsubscribed->Connected_0;
    assert(cs1.pending_view().remove(cs.next_id_view()) =~= cs.pending_view());
}

/// The law of pings: a ping sent by a connected client, answered by a Pingresp, leaves the
/// connection as it was, and the Pingresp is acknowledged.
pub proof fn lemma_pingresp_answers_ping<'a, 'b, const P: usize, const W: usize, const S: usize>(
    before: ClientStateQueue,
    pinged: ClientStateQueue,
    ping_result: Result<Pingreq, ClientStateError>,
    packet: PacketGeneric<'a, P, W, S>,
    after: ClientStateQueue,
    r: Result<ClientStateReceiveEvent<'a, 'b, P>, ClientStateError>,
)
    requires
        before is Connected,
        before.pending_ping_count_spec() < u32::MAX,
        ping_result is Ok,
        pinged matches ClientStateQueue::Connected(cs1) && connection_is(
            cs1,
            ConnectionInfo {
                pending_ping_count: (before->Connected_0.info_view().pending_ping_count + 1) as u32,
                session_present: before->Connected_0.info_view().session_present,
                keep_alive: before->Connected_0.info_view().keep_alive,
            },
            before->Connected_0.pending_view(),
            before->Connected_0.next_id_view(),
        ),
        packet is Pingresp,
        queue_receive(pinged, packet, after, r),
    ensures
        after matches ClientStateQueue::Connected(cs2) && connection_is(
            cs2,
            before->Connected_0.info_view(),
            before->Connected_0.pending_view(),
            before->Connected_0.next_id_view(),
        ),
        r is Ok && r->Ok_0 is Ack,
{
}


/// The other half of the law of pings, for a client with a queue: a Pingresp that comes when
/// no ping is pending is [ClientStateError::UnexpectedPingresp], and leaves the connection
/// as it was.
pub proof fn lemma_pingresp_without_ping<'a, 'b, const P: usize, const W: usize, const S: usize>(
    before: ClientStateQueue,
    packet: PacketGeneric<'a, P, W, S>,
    after: ClientStateQueue,
    r: Result<ClientStateReceiveEvent<'a, 'b, P>, ClientStateError>,
)
    requires
        before matches ClientStateQueue::Connected(cs) && cs.info_view().pending_ping_count == 0,
        packet is Pingresp,
        queue_receive(before, packet, after, r),
    ensures
        after == before,
        r == Err::<ClientStateReceiveEvent<'a, 'b, P>, ClientStateError>(ClientStateError::UnexpectedPingresp),
{
}


/// The law of keep alive on connecting, for a client with a queue: a connecting client that
/// receives a successful Connack whose properties hold a Server Keep Alive property (the last
/// such giving `v`) is connected with keep alive `v`, whatever it requested.
pub proof fn lemma_queue_connack_keep_alive<'a, 'b, const P: usize, const W: usize, const S: usize>(
    requested: RequestedConnectionInfo,
    packet: PacketGeneric<'a, P, W, S>,
    i: int,
    after: ClientStateQueue,
    r: Result<ClientStateReceiveEvent<'a, 'b, P>, ClientStateError>,
)
    requires
        packet matches PacketGeneric::Connack(c) && c@.reason_code == ReasonCode::Success
            && !(c@.session_present && requested.clean_start)
            && 0 <= i < c@.properties.len() && c@.properties[i].id == 0x13
            && c@.properties[i].value is TwoByteInteger
            && (forall|j: int| i < j < c@.properties.len() ==> c@.properties[j].id != 0x13),
        queue_receive(ClientStateQueue::Connecting(requested), packet, after, r),
    ensures
        packet matches PacketGeneric::Connack(c) && ((after matches ClientStateQueue::Connected(cs))
            && after->Connected_0.info_view().keep_alive == c@.properties[i].value->TwoByteInteger_0),
{
    let c = packet->Connack_0;
    lemma_server_keep_alive(c@.properties, requested.keep_alive);
    let _ = c@.properties[i];
}

} // verus!
