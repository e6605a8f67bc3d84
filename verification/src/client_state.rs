use vstd::prelude::*;

use crate::data::packet_identifier::{PacketIdentifier, PublishPacketIdentifier};
use crate::data::property::{properties_view, Property, PropertyValue, PropertyView, PublishProperty};
use crate::data::quality_of_service::{qos_value, QualityOfService};
use crate::data::reason_code::{
    connect_reason_code_general, publish_reason_code_general, reason_code_name, reason_code_value,
    subscribe_reason_code_general, unsubscribe_reason_code_general, ConnectReasonCode,
    PublishReasonCode, ReasonCode, SubscribeReasonCode, UnsubscribeReasonCode,
};
use crate::error::{
    packet_read_error_text, packet_write_error_text, parenthesized, PacketReadError,
    PacketWriteError,
};
use crate::packets::acknowledgement::AcknowledgementView;
use crate::packets::connect::Connect;
use crate::packets::disconnect::{Disconnect, DisconnectView};
use crate::packets::packet_generic::PacketGeneric;
use crate::packets::pingreq::Pingreq;
use crate::packets::puback::Puback;
use crate::packets::publish::{Publish, PublishView};
use crate::packets::payload_list::{items_view, ItemPacketView, PayloadItem};
use crate::packets::subscribe::{Subscribe, SubscriptionRequest, SubscriptionRequestView};
use crate::packets::unsubscribe::Unsubscribe;
use crate::data::subscription_options::{RetainHandling, SubscriptionOptions};
use vstd::string::StringSliceAdditionalSpecFns;

verus! {

/// An error of a [ClientState]
#[derive(Debug, PartialEq, Eq, Clone, Copy, Structural)]
pub enum ClientStateError {
    PacketWrite(PacketWriteError),
    PacketRead(PacketReadError),
    NotIdle,
    AuthNotSupported,
    Qos2NotSupported,
    MultipleSubscriptionRequestsNotSupported,
    ReceivedQos2PublishNotSupported,
    ClientIsWaitingForResponse,
    NotConnected,
    ReceiveWhenNotConnectedOrConnecting,
    UnexpectedPuback,
    UnexpectedPubackPacketIdentifier,
    UnexpectedSuback,
    UnexpectedSubackPacketIdentifier,
    UnexpectedUnsuback,
    UnexpectedUnsubackPacketIdentifier,
    UnexpectedPingresp,
    Disconnect,
    ServerOnlyMessageReceived,
    ReceivedPacketOtherThanConnackOrAuthWhenConnecting,
    ReceivedConnackWhenNotConnecting,
    UnexpectedSessionPresentForCleanStart,
    Connect(ConnectReasonCode),
    Subscribe(SubscribeReasonCode),
    Publish(PublishReasonCode),
    Unsubscribe(UnsubscribeReasonCode),
}

/// The text of a [ClientStateError]: the variant's name, followed by the text of an error
/// or the name of a reason code that it holds in brackets
pub open spec fn client_state_error_text(e: ClientStateError) -> Seq<char> {
    match e {
        ClientStateError::PacketWrite(w) => "PacketWrite"@ + "("@ + packet_write_error_text(w) + ")"@,
        ClientStateError::PacketRead(r) => "PacketRead"@ + "("@ + packet_read_error_text(r) + ")"@,
        ClientStateError::NotIdle => "NotIdle"@,
        ClientStateError::AuthNotSupported => "AuthNotSupported"@,
        ClientStateError::Qos2NotSupported => "Qos2NotSupported"@,
        ClientStateError::MultipleSubscriptionRequestsNotSupported => "MultipleSubscriptionRequestsNotSupported"@,
        ClientStateError::ReceivedQos2PublishNotSupported => "ReceivedQos2PublishNotSupported"@,
        ClientStateError::ClientIsWaitingForResponse => "ClientIsWaitingForResponse"@,
        ClientStateError::NotConnected => "NotConnected"@,
        ClientStateError::ReceiveWhenNotConnectedOrConnecting => "ReceiveWhenNotConnectedOrConnecting"@,
        ClientStateError::UnexpectedPuback => "UnexpectedPuback"@,
        ClientStateError::UnexpectedPubackPacketIdentifier => "UnexpectedPubackPacketIdentifier"@,
        ClientStateError::UnexpectedSuback => "UnexpectedSuback"@,
        ClientStateError::UnexpectedSubackPacketIdentifier => "UnexpectedSubackPacketIdentifier"@,
        ClientStateError::UnexpectedUnsuback => "UnexpectedUnsuback"@,
        ClientStateError::UnexpectedUnsubackPacketIdentifier => "UnexpectedUnsubackPacketIdentifier"@,
        ClientStateError::UnexpectedPingresp => "UnexpectedPingresp"@,
        ClientStateError::Disconnect => "Disconnect"@,
        ClientStateError::ServerOnlyMessageReceived => "ServerOnlyMessageReceived"@,
        ClientStateError::ReceivedPacketOtherThanConnackOrAuthWhenConnecting => "ReceivedPacketOtherThanConnackWhenConnecting"@,
        ClientStateError::ReceivedConnackWhenNotConnecting => "ReceivedConnackWhenNotConnecting"@,
        ClientStateError::UnexpectedSessionPresentForCleanStart => "UnexpectedSessionPresentForCleanStart"@,
        ClientStateError::Connect(c) => "Connect"@ + "("@ + reason_code_name(connect_reason_code_general(c)) + ")"@,
        ClientStateError::Subscribe(c) => "Subscribe"@ + "("@ + reason_code_name(subscribe_reason_code_general(c)) + ")"@,
        ClientStateError::Publish(c) => "Publish"@ + "("@ + reason_code_name(publish_reason_code_general(c)) + ")"@,
        ClientStateError::Unsubscribe(c) => "Unsubscribe"@ + "("@ + reason_code_name(unsubscribe_reason_code_general(c)) + ")"@,
    }
}

impl ClientStateError {
    /// The error as text
    pub fn to_string(&self) -> (r: String)
        ensures
            r@ == client_state_error_text(*self),
    {
        match self {
            ClientStateError::PacketWrite(w) => parenthesized("PacketWrite", w.to_string().as_str()),
            ClientStateError::PacketRead(e) => parenthesized("PacketRead", e.to_string().as_str()),
            ClientStateError::NotIdle => "NotIdle".to_owned(),
            ClientStateError::AuthNotSupported => "AuthNotSupported".to_owned(),
            ClientStateError::Qos2NotSupported => "Qos2NotSupported".to_owned(),
            ClientStateError::MultipleSubscriptionRequestsNotSupported => "MultipleSubscriptionRequestsNotSupported".to_owned(),
            ClientStateError::ReceivedQos2PublishNotSupported => "ReceivedQos2PublishNotSupported".to_owned(),
            ClientStateError::ClientIsWaitingForResponse => "ClientIsWaitingForResponse".to_owned(),
            ClientStateError::NotConnected => "NotConnected".to_owned(),
            ClientStateError::ReceiveWhenNotConnectedOrConnecting => "ReceiveWhenNotConnectedOrConnecting".to_owned(),
            ClientStateError::UnexpectedPuback => "UnexpectedPuback".to_owned(),
            ClientStateError::UnexpectedPubackPacketIdentifier => "UnexpectedPubackPacketIdentifier".to_owned(),
            ClientStateError::UnexpectedSuback => "UnexpectedSuback".to_owned(),
            ClientStateError::UnexpectedSubackPacketIdentifier => "UnexpectedSubackPacketIdentifier".to_owned(),
            ClientStateError::UnexpectedUnsuback => "UnexpectedUnsuback".to_owned(),
            ClientStateError::UnexpectedUnsubackPacketIdentifier => "UnexpectedUnsubackPacketIdentifier".to_owned(),
            ClientStateError::UnexpectedPingresp => "UnexpectedPingresp".to_owned(),
            ClientStateError::Disconnect => "Disconnect".to_owned(),
            ClientStateError::ServerOnlyMessageReceived => "ServerOnlyMessageReceived".to_owned(),
            ClientStateError::ReceivedPacketOtherThanConnackOrAuthWhenConnecting => "ReceivedPacketOtherThanConnackWhenConnecting".to_owned(),
            ClientStateError::ReceivedConnackWhenNotConnecting => "ReceivedConnackWhenNotConnecting".to_owned(),
            ClientStateError::UnexpectedSessionPresentForCleanStart => "UnexpectedSessionPresentForCleanStart".to_owned(),
            ClientStateError::Connect(c) => parenthesized("Connect", c.reason_code().name()),
            ClientStateError::Subscribe(c) => parenthesized("Subscribe", c.reason_code().name()),
            ClientStateError::Publish(c) => parenthesized("Publish", c.reason_code().name()),
            ClientStateError::Unsubscribe(c) => parenthesized("Unsubscribe", c.reason_code().name()),
        }
    }
}

impl From<PacketWriteError> for ClientStateError {
    fn from(value: PacketWriteError) -> (r: Self) {
        ClientStateError::PacketWrite(value)
    }
}

impl vstd::std_specs::convert::FromSpecImpl<PacketWriteError> for ClientStateError {
    open spec fn obeys_from_spec() -> bool {
        true
    }

    open spec fn from_spec(v: PacketWriteError) -> Self {
        ClientStateError::PacketWrite(v)
    }
}

impl From<PacketReadError> for ClientStateError {
    fn from(value: PacketReadError) -> (r: Self) {
        ClientStateError::PacketRead(value)
    }
}

impl vstd::std_specs::convert::FromSpecImpl<PacketReadError> for ClientStateError {
    open spec fn obeys_from_spec() -> bool {
        true
    }

    open spec fn from_spec(v: PacketReadError) -> Self {
        ClientStateError::PacketRead(v)
    }
}

/// What receiving a packet gives the user of a [ClientState]
pub enum ClientStateReceiveEvent<'a, 'b, const P: usize> {
    /// An acknowledgement or response to a packet sent earlier (Connack, Puback, Suback,
    /// Unsuback, Pingresp), handled by the state, needing no further action
    Ack,
    /// A published message was received
    Publish { publish: Publish<'a, P> },
    /// A published message was received, and must be acknowledged by sending the Puback
    PublishAndPuback { publish: Publish<'a, P>, puback: Puback<'b, P> },
    /// A subscription was granted at a lower quality of service than the maximum requested
    SubscriptionGrantedBelowMaximumQos { granted_qos: QualityOfService, maximum_qos: QualityOfService },
    /// A published message reached the server, but no subscriber matched it
    PublishedMessageHadNoMatchingSubscribers,
    /// The server processed an unsubscribe request, but no such subscription existed
    NoSubscriptionExisted,
    /// A Disconnect packet was received, with the reason for the disconnection
    Disconnect { disconnect: Disconnect<'a, P> },
}

/// The keep alive of a connection: the value of the last Server Keep Alive property among
/// the properties of the Connack packet, or the keep alive that the client requested
pub open spec fn server_keep_alive(properties: Seq<PropertyView>, requested: u16) -> u16
    decreases properties.len(),
{
    if properties.len() == 0 {
        requested
    } else {
        let p = properties.last();
        match p.value {
            PropertyValue::TwoByteInteger(v) => if p.id == 0x13 {
                v
            } else {
                server_keep_alive(properties.drop_last(), requested)
            },
            _ => server_keep_alive(properties.drop_last(), requested),
        }
    }
}

/// The keep alive of a connection given the properties of its Connack packet
pub fn connection_keep_alive(properties: &Vec<Property>, requested: u16) -> (r: u16)
    ensures
        r == server_keep_alive(properties_view(properties@), requested),
{
    let mut keep_alive = requested;
    let mut i: usize = 0;
    while i < properties.len()
        invariant
            i <= properties@.len(),
            keep_alive == server_keep_alive(properties_view(properties@.take(i as int)), requested),
        decreases properties@.len() - i,
    {
        proof {
            assert(properties_view(properties@.take(i + 1)).drop_last() =~= properties_view(properties@.take(i as int)));
        }
        match &properties[i] {
            Property::ServerKeepAlive(v) => {
                keep_alive = *v;
            },
            _ => {},
        }
        i = i + 1;
    }
    proof {
        assert(properties@.take(properties@.len() as int) =~= properties@);
    }
    keep_alive
}

/// The quality of service that a Suback reason code grants, when it grants a subscription
pub open spec fn granted_qos(code: ReasonCode) -> Option<QualityOfService> {
    match code {
        ReasonCode::Success => Some(QualityOfService::Qos0),
        ReasonCode::GrantedQos1 => Some(QualityOfService::Qos1),
        ReasonCode::GrantedQos2 => Some(QualityOfService::Qos2),
        _ => None,
    }
}

/// The Puback that acknowledges a received Publish packet with a packet identifier
pub open spec fn acknowledges(puback: AcknowledgementView, id: PacketIdentifier) -> bool {
    puback == AcknowledgementView {
        packet_identifier: id.0,
        reason_code: ReasonCode::Success,
        properties: Seq::empty(),
    }
}

/// The result of receiving a Publish packet while connected: a message of quality of
/// service 0 is passed on, one of quality of service 1 is passed on with the Puback that
/// acknowledges it, and one of quality of service 2 is refused
pub open spec fn receive_publish_outcome<'a, 'b, const P: usize>(publish: Publish<'a, P>, r: Result<ClientStateReceiveEvent<'a, 'b, P>, ClientStateError>) -> bool {
    match publish@.packet_identifier {
        PublishPacketIdentifier::Qos0 => r == Ok::<ClientStateReceiveEvent<'a, 'b, P>, ClientStateError>(ClientStateReceiveEvent::Publish { publish }),
        PublishPacketIdentifier::Qos1(id) => r matches Ok(ClientStateReceiveEvent::PublishAndPuback { publish: p, puback }) && p == publish && acknowledges(puback@, id),
        PublishPacketIdentifier::Qos2(_) => r == Err::<ClientStateReceiveEvent<'a, 'b, P>, ClientStateError>(ClientStateError::ReceivedQos2PublishNotSupported),
    }
}

/// The result of an acknowledged Puback with a reason code: an error code is an error,
/// "no matching subscribers" is passed on, and other codes are acknowledgements
pub open spec fn puback_outcome<'a, 'b, const P: usize>(code: ReasonCode, r: Result<ClientStateReceiveEvent<'a, 'b, P>, ClientStateError>) -> bool {
    if reason_code_value(code) >= 128 {
        r matches Err(ClientStateError::Publish(x)) && publish_reason_code_general(x) == code
    } else if code == ReasonCode::NoMatchingSubscribers {
        r is Ok && r->Ok_0 is PublishedMessageHadNoMatchingSubscribers
    } else {
        r is Ok && r->Ok_0 is Ack
    }
}

/// The result of an acknowledged Suback with a first reason code, for a subscription
/// requested with a maximum quality of service: a code that grants no subscription is an
/// error, a lower granted quality of service is passed on, otherwise an acknowledgement
pub open spec fn suback_outcome<'a, 'b, const P: usize>(code: ReasonCode, maximum_qos: QualityOfService, r: Result<ClientStateReceiveEvent<'a, 'b, P>, ClientStateError>) -> bool {
    match granted_qos(code) {
        None => r matches Err(ClientStateError::Subscribe(x)) && subscribe_reason_code_general(x) == code,
        Some(granted) => if granted != maximum_qos {
            r matches Ok(ClientStateReceiveEvent::SubscriptionGrantedBelowMaximumQos { granted_qos: g, maximum_qos: m })
                && g == granted && m == maximum_qos
        } else {
            r is Ok && r->Ok_0 is Ack
        },
    }
}

/// The result of an acknowledged Unsuback with a first reason code: an error code is an
/// error, "no subscription existed" is passed on, and other codes are acknowledgements
pub open spec fn unsuback_outcome<'a, 'b, const P: usize>(code: ReasonCode, r: Result<ClientStateReceiveEvent<'a, 'b, P>, ClientStateError>) -> bool {
    if reason_code_value(code) >= 128 {
        r matches Err(ClientStateError::Unsubscribe(x)) && unsubscribe_reason_code_general(x) == code
    } else if code == ReasonCode::NoSubscriptionExisted {
        r is Ok && r->Ok_0 is NoSubscriptionExisted
    } else {
        r is Ok && r->Ok_0 is Ack
    }
}

/// What the client asked for when connecting
#[derive(Debug, PartialEq, Eq, Clone, Copy, Structural)]
pub struct RequestedConnectionInfo {
    pub clean_start: bool,
    pub keep_alive: u16,
}

/// What is known of an established connection
#[derive(Debug, PartialEq, Eq, Clone, Copy, Structural)]
pub struct ConnectionInfo {
    pub pending_ping_count: u32,
    pub session_present: bool,
    pub keep_alive: u16,
}

/// The response a connected client without a queue is waiting for, if any
#[derive(Debug, PartialEq, Eq, Clone, Copy, Structural)]
pub enum Waiting {
    /// Not waiting for a response
    Nothing,
    ForPuback { id: PacketIdentifier },
    ForSuback { id: PacketIdentifier, qos: QualityOfService },
    ForUnsuback { id: PacketIdentifier },
}

impl Waiting {
    /// Whether a response is awaited
    pub fn is_waiting(&self) -> (r: bool)
        ensures
            r == !(*self is Nothing),
    {
        match self {
            Waiting::Nothing => false,
            Waiting::ForPuback { .. } => true,
            Waiting::ForSuback { .. } => true,
            Waiting::ForUnsuback { .. } => true,
        }
    }
}

/// The state of an established connection of a client without a queue
#[derive(Debug, PartialEq, Eq, Clone, Copy, Structural)]
pub struct ConnectionState {
    pub info: ConnectionInfo,
    pub waiting: Waiting,
}

/// The packet identifier that a client without a queue gives its Publish packets
pub const PUBLISH_PACKET_IDENTIFIER: u16 = 1;

/// The packet identifier that a client without a queue gives its Subscribe packets
pub const SUBSCRIBE_PACKET_IDENTIFIER: u16 = 2;

/// The packet identifier that a client without a queue gives its Unsubscribe packets
pub const UNSUBSCRIBE_PACKET_IDENTIFIER: u16 = 3;

/// The state of a simple MQTT client that waits for at most one response at a time:
/// it tracks acknowledgements, and produces the packets for basic actions
#[derive(Debug, PartialEq, Eq, Clone, Copy, Structural)]
pub enum ClientStateNoQueue {
    Idle,
    Connecting(RequestedConnectionInfo),
    Connected(ConnectionState),
    Errored,
    Disconnected,
}

/// The state after a Connack packet with reason code success was accepted
pub open spec fn connected_state(session_present: bool, keep_alive: u16) -> ClientStateNoQueue {
    ClientStateNoQueue::Connected(
        ConnectionState {
            info: ConnectionInfo { pending_ping_count: 0, session_present, keep_alive },
            waiting: Waiting::Nothing,
        },
    )
}

/// Failing with an error
pub open spec fn fails_with<'a, 'b, const P: usize>(r: Result<ClientStateReceiveEvent<'a, 'b, P>, ClientStateError>, e: ClientStateError) -> bool {
    r is Err && r->Err_0 == e
}

/// Receiving a packet while connecting: a Connack with reason code success establishes the
/// connection, with the keep alive that the server gives or the one requested, unless the
/// server holds a session although a clean start was requested; a Connack with another
/// reason code is that error; an Auth packet is not supported, and any other packet is an
/// error. Errors leave the state unchanged.
pub open spec fn receive_when_connecting<'a, 'b, const P: usize, const W: usize, const S: usize>(
    requested: RequestedConnectionInfo,
    before: ClientStateNoQueue,
    packet: PacketGeneric<'a, P, W, S>,
    after: ClientStateNoQueue,
    r: Result<ClientStateReceiveEvent<'a, 'b, P>, ClientStateError>,
) -> bool {
    match packet {
        PacketGeneric::Connack(c) => if c@.reason_code == ReasonCode::Success {
            if c@.session_present && requested.clean_start {
                after == before && fails_with(r, ClientStateError::UnexpectedSessionPresentForCleanStart)
            } else {
                after == connected_state(c@.session_present, server_keep_alive(c@.properties, requested.keep_alive))
                    && r is Ok && r->Ok_0 is Ack
            }
        } else {
            after == before && (r matches Err(ClientStateError::Connect(x)) && connect_reason_code_general(x) == c@.reason_code)
        },
        PacketGeneric::Auth(_) => after == before && fails_with(r, ClientStateError::AuthNotSupported),
        _ => after == before && fails_with(r, ClientStateError::ReceivedPacketOtherThanConnackOrAuthWhenConnecting),
    }
}

/// Receiving a packet while connected: a Publish packet is passed on (see
/// [receive_publish_outcome]); a Puback, Suback or Unsuback answers the awaited response
/// when its packet identifier is that of the request, which ends the wait, and is
/// otherwise an error; a Pingresp answers a pending ping; a Disconnect packet is passed on;
/// any other packet is an error. Errors leave the state unchanged, except the error codes
/// of an awaited response, which still end the wait.
pub open spec fn receive_when_connected<'a, 'b, const P: usize, const W: usize, const S: usize>(
    cs: ConnectionState,
    before: ClientStateNoQueue,
    packet: PacketGeneric<'a, P, W, S>,
    after: ClientStateNoQueue,
    r: Result<ClientStateReceiveEvent<'a, 'b, P>, ClientStateError>,
) -> bool {
    let done = ClientStateNoQueue::Connected(ConnectionState { info: cs.info, waiting: Waiting::Nothing });
    match packet {
        PacketGeneric::Publish(p) => after == before && receive_publish_outcome(p, r),
        PacketGeneric::Puback(a) => match cs.waiting {
            Waiting::ForPuback { id } => if id.0 == a@.packet_identifier {
                after == done && puback_outcome(a@.reason_code, r)
            } else {
                after == before && fails_with(r, ClientStateError::UnexpectedPubackPacketIdentifier)
            },
            _ => after == before && fails_with(r, ClientStateError::UnexpectedPuback),
        },
        PacketGeneric::Suback(sb) => match cs.waiting {
            Waiting::ForSuback { id, qos } => if id.0 == sb@.packet_identifier {
                after == done && suback_outcome(sb@.first, qos, r)
            } else {
                after == before && fails_with(r, ClientStateError::UnexpectedSubackPacketIdentifier)
            },
            _ => after == before && fails_with(r, ClientStateError::UnexpectedSuback),
        },
        PacketGeneric::Unsuback(u) => match cs.waiting {
            Waiting::ForUnsuback { id } => if id.0 == u@.packet_identifier {
                after == done && unsuback_outcome(u@.first, r)
            } else {
                after == before && fails_with(r, ClientStateError::UnexpectedUnsubackPacketIdentifier)
            },
            _ => after == before && fails_with(r, ClientStateError::UnexpectedUnsuback),
        },
        PacketGeneric::Pingresp(_) => if cs.info.pending_ping_count > 0 {
            after == ClientStateNoQueue::Connected(ConnectionState {
                info: ConnectionInfo {
                    pending_ping_count: (cs.info.pending_ping_count - 1) as u32,
                    session_present: cs.info.session_present,
                    keep_alive: cs.info.keep_alive,
                },
                waiting: cs.waiting,
            }) && r is Ok && r->Ok_0 is Ack
        } else {
            after == before && fails_with(r, ClientStateError::UnexpectedPingresp)
        },
        PacketGeneric::Disconnect(d) => after == before && (r matches Ok(ClientStateReceiveEvent::Disconnect { disconnect }) && disconnect == d),
        PacketGeneric::Connack(_) => after == before && fails_with(r, ClientStateError::ReceivedConnackWhenNotConnecting),
        PacketGeneric::Auth(_) => after == before && fails_with(r, ClientStateError::AuthNotSupported),
        _ => after == before && fails_with(r, ClientStateError::ServerOnlyMessageReceived),
    }
}

/// Receiving a packet: see [receive_when_connecting] and [receive_when_connected]; in any
/// other state receiving is an error that leaves the state unchanged
pub open spec fn no_queue_receive<'a, 'b, const P: usize, const W: usize, const S: usize>(
    before: ClientStateNoQueue,
    packet: PacketGeneric<'a, P, W, S>,
    after: ClientStateNoQueue,
    r: Result<ClientStateReceiveEvent<'a, 'b, P>, ClientStateError>,
) -> bool {
    match before {
        ClientStateNoQueue::Connecting(requested) => receive_when_connecting(requested, before, packet, after, r),
        ClientStateNoQueue::Connected(cs) => receive_when_connected(cs, before, packet, after, r),
        _ => after == before && fails_with(r, ClientStateError::ReceiveWhenNotConnectedOrConnecting),
    }
}

impl ClientStateNoQueue {
    /// A new client state, idle
    pub fn new() -> (r: Self)
        ensures
            r == ClientStateNoQueue::Idle,
    {
        ClientStateNoQueue::Idle
    }

    /// Receive a packet from the server while connecting
    fn receive_connecting<'a, 'b, const P: usize, const W: usize, const S: usize>(
        &mut self,
        requested: RequestedConnectionInfo,
        packet: PacketGeneric<'a, P, W, S>,
    ) -> (r: Result<ClientStateReceiveEvent<'a, 'b, P>, ClientStateError>)
        requires
            *old(self) == ClientStateNoQueue::Connecting(requested),
        ensures
            receive_when_connecting(requested, *old(self), packet, *final(self), r),
    {
        match packet {
            PacketGeneric::Connack(connack) => {
                let code = *connack.reason_code();
                proof {
                    crate::data::reason_code::lemma_connect_reason_code_roundtrip(code, ReasonCode::Success);
                    crate::data::reason_code::lemma_connect_reason_code_roundtrip(ConnectReasonCode::Success, ReasonCode::Success);
                }
                if code == ConnectReasonCode::Success {
                    let session_present = connack.session_present();
                    if session_present && requested.clean_start {
                        return Err(ClientStateError::UnexpectedSessionPresentForCleanStart);
                    }
                    let keep_alive = connection_keep_alive(connack.properties(), requested.keep_alive);
                    *self = ClientStateNoQueue::Connected(ConnectionState {
                        info: ConnectionInfo { pending_ping_count: 0, session_present, keep_alive },
                        waiting: Waiting::Nothing,
                    });
                    Ok(ClientStateReceiveEvent::Ack)
                } else {
                    Err(ClientStateError::Connect(code))
                }
            },
            PacketGeneric::Auth(_) => Err(ClientStateError::AuthNotSupported),
            _ => Err(ClientStateError::ReceivedPacketOtherThanConnackOrAuthWhenConnecting),
        }
    }

    /// Receive a packet from the server while connected
    #[verifier::rlimit(30)]
    fn receive_connected<'a, 'b, const P: usize, const W: usize, const S: usize>(
        &mut self,
        cs: ConnectionState,
        packet: PacketGeneric<'a, P, W, S>,
    ) -> (r: Result<ClientStateReceiveEvent<'a, 'b, P>, ClientStateError>)
        requires
            *old(self) == ClientStateNoQueue::Connected(cs),
        ensures
            receive_when_connected(cs, *old(self), packet, *final(self), r),
    {
        let done = ClientStateNoQueue::Connected(ConnectionState { info: cs.info, waiting: Waiting::Nothing });
        match packet {
            PacketGeneric::Publish(publish) => receive_publish(publish),
            PacketGeneric::Puback(puback) => {
                let ack_id = *puback.packet_identifier();
                match cs.waiting {
                    Waiting::ForPuback { id } => {
                        if id == ack_id {
                            *self = done;
                            acknowledged_puback(*puback.reason_code())
                        } else {
                            Err(ClientStateError::UnexpectedPubackPacketIdentifier)
                        }
                    },
                    _ => Err(ClientStateError::UnexpectedPuback),
                }
            },
            PacketGeneric::Suback(suback) => {
                let ack_id = *suback.packet_identifier();
                match cs.waiting {
                    Waiting::ForSuback { id, qos } => {
                        if id == ack_id {
                            *self = done;
                            acknowledged_suback(*suback.first_reason_code(), qos)
                        } else {
                            Err(ClientStateError::UnexpectedSubackPacketIdentifier)
                        }
                    },
                    _ => Err(ClientStateError::UnexpectedSuback),
                }
            },
            PacketGeneric::Unsuback(unsuback) => {
                let ack_id = *unsuback.packet_identifier();
                match cs.waiting {
                    Waiting::ForUnsuback { id } => {
                        if id == ack_id {
                            *self = done;
                            acknowledged_unsuback(*unsuback.first_reason_code())
                        } else {
                            Err(ClientStateError::UnexpectedUnsubackPacketIdentifier)
                        }
                    },
                    _ => Err(ClientStateError::UnexpectedUnsuback),
                }
            },
            PacketGeneric::Pingresp(_) => {
                if cs.info.pending_ping_count > 0 {
                    *self = ClientStateNoQueue::Connected(ConnectionState {
                        info: ConnectionInfo {
                            pending_ping_count: cs.info.pending_ping_count - 1,
                            session_present: cs.info.session_present,
                            keep_alive: cs.info.keep_alive,
                        },
                        waiting: cs.waiting,
                    });
                    Ok(ClientStateReceiveEvent::Ack)
                } else {
                    Err(ClientStateError::UnexpectedPingresp)
                }
            },
            PacketGeneric::Disconnect(disconnect) => Ok(ClientStateReceiveEvent::Disconnect { disconnect }),
            PacketGeneric::Connack(_) => Err(ClientStateError::ReceivedConnackWhenNotConnecting),
            PacketGeneric::Auth(_) => Err(ClientStateError::AuthNotSupported),
            _ => Err(ClientStateError::ServerOnlyMessageReceived),
        }
    }

    /// Receive a packet from the server. This updates the state and gives what the caller
    /// may need to act on; errors stand for a packet that was not expected in this state.
    pub fn receive<'a, 'b, const P: usize, const W: usize, const S: usize>(
        &mut self,
        packet: PacketGeneric<'a, P, W, S>,
    ) -> (r: Result<ClientStateReceiveEvent<'a, 'b, P>, ClientStateError>)
        ensures
            no_queue_receive(*old(self), packet, *final(self), r),
    {
        match *self {
            ClientStateNoQueue::Connecting(requested) => self.receive_connecting(requested, packet),
            ClientStateNoQueue::Connected(cs) => self.receive_connected(cs, packet),
            _ => Err(ClientStateError::ReceiveWhenNotConnectedOrConnecting),
        }
    }
}

/// Receive a Publish packet while connected, as [receive_publish_outcome] states
pub fn receive_publish<'a, 'b, const P: usize>(publish: Publish<'a, P>) -> (r: Result<ClientStateReceiveEvent<'a, 'b, P>, ClientStateError>)
    ensures
        receive_publish_outcome(publish, r),
{
    let id = *publish.publish_packet_identifier();
    match id {
        PublishPacketIdentifier::Qos0 => Ok(ClientStateReceiveEvent::Publish { publish }),
        PublishPacketIdentifier::Qos1(packet_identifier) => {
            let puback = Puback::new(packet_identifier, PublishReasonCode::Success, Vec::new());
            assert(properties_view(Seq::<Property>::empty()) =~= Seq::<PropertyView>::empty());
            Ok(ClientStateReceiveEvent::PublishAndPuback { publish, puback })
        },
        PublishPacketIdentifier::Qos2(_) => Err(ClientStateError::ReceivedQos2PublishNotSupported),
    }
}

/// The outcome of an awaited Puback with a reason code, as [puback_outcome] states
pub fn acknowledged_puback<'a, 'b, const P: usize>(code: PublishReasonCode) -> (r: Result<ClientStateReceiveEvent<'a, 'b, P>, ClientStateError>)
    ensures
        puback_outcome(publish_reason_code_general(code), r),
{
    proof {
        crate::data::reason_code::lemma_publish_reason_code_roundtrip(code, ReasonCode::NoMatchingSubscribers);
    }
    if code.is_error() {
        Err(ClientStateError::Publish(code))
    } else if code == PublishReasonCode::NoMatchingSubscribers {
        Ok(ClientStateReceiveEvent::PublishedMessageHadNoMatchingSubscribers)
    } else {
        Ok(ClientStateReceiveEvent::Ack)
    }
}

/// The outcome of an awaited Suback with a first reason code, for a subscription requested
/// with a maximum quality of service, as [suback_outcome] states
pub fn acknowledged_suback<'a, 'b, const P: usize>(code: SubscribeReasonCode, maximum_qos: QualityOfService) -> (r: Result<ClientStateReceiveEvent<'a, 'b, P>, ClientStateError>)
    ensures
        suback_outcome(subscribe_reason_code_general(code), maximum_qos, r),
{
    let granted_qos = match code {
        SubscribeReasonCode::Success => QualityOfService::Qos0,
        SubscribeReasonCode::GrantedQos1 => QualityOfService::Qos1,
        SubscribeReasonCode::GrantedQos2 => QualityOfService::Qos2,
        _ => return Err(ClientStateError::Subscribe(code)),
    };
    if granted_qos != maximum_qos {
        Ok(ClientStateReceiveEvent::SubscriptionGrantedBelowMaximumQos { granted_qos, maximum_qos })
    } else {
        Ok(ClientStateReceiveEvent::Ack)
    }
}

/// The outcome of an awaited Unsuback with a first reason code, as [unsuback_outcome] states
pub fn acknowledged_unsuback<'a, 'b, const P: usize>(code: UnsubscribeReasonCode) -> (r: Result<ClientStateReceiveEvent<'a, 'b, P>, ClientStateError>)
    ensures
        unsuback_outcome(unsubscribe_reason_code_general(code), r),
{
    proof {
        crate::data::reason_code::lemma_unsubscribe_reason_code_roundtrip(code, ReasonCode::NoSubscriptionExisted);
    }
    if code.is_error() {
        Err(ClientStateError::Unsubscribe(code))
    } else if code == UnsubscribeReasonCode::NoSubscriptionExisted {
        Ok(ClientStateReceiveEvent::NoSubscriptionExisted)
    } else {
        Ok(ClientStateReceiveEvent::Ack)
    }
}


/// The view of the Subscribe packet that a client without a queue sends to subscribe to a
/// topic filter with a maximum quality of service
pub open spec fn subscribe_request_view(topic_name: Seq<u8>, maximum_qos: QualityOfService, id: u16) -> ItemPacketView<SubscriptionRequestView> {
    ItemPacketView {
        packet_identifier: id,
        first: SubscriptionRequestView {
            topic_name,
            options: SubscriptionOptions {
                maximum_qos,
                no_local: false,
                retain_as_published: false,
                retain_handling: RetainHandling::SendOnSubscribe,
            },
        },
        others: Seq::empty(),
        properties: Seq::empty(),
    }
}

/// The view of the Unsubscribe packet that a client sends to unsubscribe from a topic filter
pub open spec fn unsubscribe_request_view(topic_name: Seq<u8>, id: u16) -> ItemPacketView<Seq<u8>> {
    ItemPacketView { packet_identifier: id, first: topic_name, others: Seq::empty(), properties: Seq::empty() }
}

/// The view of the Publish packet that a client sends to publish a message
pub open spec fn publish_request_view(topic_name: Seq<u8>, payload: Seq<u8>, id: PublishPacketIdentifier, retain: bool, properties: Seq<PropertyView>) -> PublishView {
    PublishView { duplicate: false, retain, topic_name, packet_identifier: id, payload, properties }
}

impl ClientStateNoQueue {
    /// Whether a response to a sent packet is awaited: while connecting, or while
    /// connected and waiting for a response. While this holds, received packets must be
    /// given to [Self::receive]; sending is still possible for a disconnect, a ping, or a
    /// message of quality of service 0.
    pub fn waiting_for_responses(&self) -> (r: bool)
        ensures
            r == match *self {
                ClientStateNoQueue::Connecting(_) => true,
                ClientStateNoQueue::Connected(cs) => !(cs.waiting is Nothing),
                _ => false,
            },
    {
        match self {
            ClientStateNoQueue::Idle => false,
            ClientStateNoQueue::Connecting(_) => true,
            ClientStateNoQueue::Connected(cs) => cs.waiting.is_waiting(),
            ClientStateNoQueue::Errored => false,
            ClientStateNoQueue::Disconnected => false,
        }
    }

    /// Update the state after a Connect packet was sent: an idle client starts connecting,
    /// with the clean start and keep alive of the packet; otherwise
    /// [ClientStateError::NotIdle]
    pub fn connect<const P: usize, const W: usize>(&mut self, connect: &Connect<'_, P, W>) -> (r: Result<(), ClientStateError>)
        ensures
            *old(self) is Idle ==> r is Ok && *final(self) == ClientStateNoQueue::Connecting(
                RequestedConnectionInfo { clean_start: connect@.clean_start, keep_alive: connect@.keep_alive },
            ),
            !(*old(self) is Idle) ==> r == Err::<(), ClientStateError>(ClientStateError::NotIdle) && *final(self) == *old(self),
    {
        match self {
            ClientStateNoQueue::Idle => {
                *self = ClientStateNoQueue::Connecting(RequestedConnectionInfo {
                    clean_start: connect.clean_start(),
                    keep_alive: connect.keep_alive(),
                });
                Ok(())
            },
            _ => Err(ClientStateError::NotIdle),
        }
    }

    /// Produce a Disconnect packet (reason code success, no properties): a connected
    /// client becomes disconnected; otherwise [ClientStateError::NotConnected]
    pub fn disconnect<'b>(&mut self) -> (r: Result<Disconnect<'b, 0>, ClientStateError>)
        ensures
            *old(self) is Connected ==> r is Ok && r->Ok_0@ == (DisconnectView { reason_code: ReasonCode::Success, properties: Seq::empty() })
                && *final(self) == ClientStateNoQueue::Disconnected,
            !(*old(self) is Connected) ==> r is Err && r->Err_0 == ClientStateError::NotConnected && *final(self) == *old(self),
    {
        match self {
            ClientStateNoQueue::Connected(_) => {
                *self = ClientStateNoQueue::Disconnected;
                Ok(Disconnect::default())
            },
            _ => Err(ClientStateError::NotConnected),
        }
    }

    /// Produce a Publish packet for a message, with properties: quality of service 0 needs
    /// no response; quality of service 1 is refused while a response is awaited
    /// ([ClientStateError::ClientIsWaitingForResponse]), otherwise the packet has identifier
    /// [PUBLISH_PACKET_IDENTIFIER] and its Puback is then awaited; quality of service 2 is
    /// not supported ([ClientStateError::Qos2NotSupported]). A client that is not connected
    /// gives [ClientStateError::NotConnected]. Errors leave the state unchanged.
    pub fn publish_with_properties<'b, const P: usize>(
        &mut self,
        topic_name: &'b str,
        payload: &'b [u8],
        qos: QualityOfService,
        retain: bool,
        properties: Vec<PublishProperty<'b>>,
    ) -> (r: Result<Publish<'b, P>, ClientStateError>)
        ensures
            match *old(self) {
                ClientStateNoQueue::Connected(cs) => match qos {
                    QualityOfService::Qos0 => r is Ok && r->Ok_0@ == publish_request_view(topic_name.spec_bytes(), payload@, PublishPacketIdentifier::Qos0, retain, properties_view(properties@))
                        && r->Ok_0.spec_topic_name() == topic_name && r->Ok_0.spec_payload() == payload
                        && *final(self) == *old(self),
                    QualityOfService::Qos1 => if cs.waiting is Nothing {
                        r is Ok && r->Ok_0@ == publish_request_view(topic_name.spec_bytes(), payload@, PublishPacketIdentifier::Qos1(PacketIdentifier(PUBLISH_PACKET_IDENTIFIER)), retain, properties_view(properties@))
                            && r->Ok_0.spec_topic_name() == topic_name && r->Ok_0.spec_payload() == payload
                            && *final(self) == ClientStateNoQueue::Connected(ConnectionState {
                                info: cs.info,
                                waiting: Waiting::ForPuback { id: PacketIdentifier(PUBLISH_PACKET_IDENTIFIER) },
                            })
                    } else {
                        r is Err && r->Err_0 == ClientStateError::ClientIsWaitingForResponse && *final(self) == *old(self)
                    },
                    QualityOfService::Qos2 => r is Err && r->Err_0 == ClientStateError::Qos2NotSupported && *final(self) == *old(self),
                },
                _ => r is Err && r->Err_0 == ClientStateError::NotConnected && *final(self) == *old(self),
            },
    {
        match *self {
            ClientStateNoQueue::Connected(cs) => {
                let id = match qos {
                    QualityOfService::Qos0 => PublishPacketIdentifier::Qos0,
                    QualityOfService::Qos1 => {
                        if cs.waiting.is_waiting() {
                            return Err(ClientStateError::ClientIsWaitingForResponse);
                        }
                        PublishPacketIdentifier::Qos1(PacketIdentifier(PUBLISH_PACKET_IDENTIFIER))
                    },
                    QualityOfService::Qos2 => return Err(ClientStateError::Qos2NotSupported),
                };
                let publish = Publish::new(false, retain, topic_name, id, payload, properties);
                if qos == QualityOfService::Qos1 {
                    *self = ClientStateNoQueue::Connected(ConnectionState {
                        info: cs.info,
                        waiting: Waiting::ForPuback { id: PacketIdentifier(PUBLISH_PACKET_IDENTIFIER) },
                    });
                }
                Ok(publish)
            },
            _ => Err(ClientStateError::NotConnected),
        }
    }

    /// Produce a Publish packet for a message with no properties, as
    /// [Self::publish_with_properties] does
    pub fn publish<'b>(
        &mut self,
        topic_name: &'b str,
        payload: &'b [u8],
        qos: QualityOfService,
        retain: bool,
    ) -> (r: Result<Publish<'b, 0>, ClientStateError>)
        ensures
            match *old(self) {
                ClientStateNoQueue::Connected(cs) => match qos {
                    QualityOfService::Qos0 => r is Ok && r->Ok_0@ == publish_request_view(topic_name.spec_bytes(), payload@, PublishPacketIdentifier::Qos0, retain, Seq::empty())
                        && r->Ok_0.spec_topic_name() == topic_name && r->Ok_0.spec_payload() == payload
                        && *final(self) == *old(self),
                    QualityOfService::Qos1 => if cs.waiting is Nothing {
                        r is Ok && r->Ok_0@ == publish_request_view(topic_name.spec_bytes(), payload@, PublishPacketIdentifier::Qos1(PacketIdentifier(PUBLISH_PACKET_IDENTIFIER)), retain, Seq::empty())
                            && r->Ok_0.spec_topic_name() == topic_name && r->Ok_0.spec_payload() == payload
                            && *final(self) == ClientStateNoQueue::Connected(ConnectionState {
                                info: cs.info,
                                waiting: Waiting::ForPuback { id: PacketIdentifier(PUBLISH_PACKET_IDENTIFIER) },
                            })
                    } else {
                        r is Err && r->Err_0 == ClientStateError::ClientIsWaitingForResponse && *final(self) == *old(self)
                    },
                    QualityOfService::Qos2 => r is Err && r->Err_0 == ClientStateError::Qos2NotSupported && *final(self) == *old(self),
                },
                _ => r is Err && r->Err_0 == ClientStateError::NotConnected && *final(self) == *old(self),
            },
    {
        let properties: Vec<PublishProperty<'b>> = Vec::new();
        assert(properties_view(properties@) =~= Seq::<PropertyView>::empty());
        self.publish_with_properties(topic_name, payload, qos, retain, properties)
    }

    /// Produce a Subscribe packet for one topic filter, with identifier
    /// [SUBSCRIBE_PACKET_IDENTIFIER], without updating the state: call
    /// [Self::subscribe_update] once it is sent. Fails with
    /// [ClientStateError::ClientIsWaitingForResponse] while a response is awaited, with
    /// [ClientStateError::Qos2NotSupported] for quality of service 2, and with
    /// [ClientStateError::NotConnected] when not connected.
    pub fn subscribe_packet<'b>(&mut self, topic_name: &'b str, maximum_qos: QualityOfService) -> (r: Result<Subscribe<'b, 0, 0>, ClientStateError>)
        ensures
            *final(self) == *old(self),
            match *old(self) {
                ClientStateNoQueue::Connected(cs) => if !(cs.waiting is Nothing) {
                    r is Err && r->Err_0 == ClientStateError::ClientIsWaitingForResponse
                } else if maximum_qos == QualityOfService::Qos2 {
                    r is Err && r->Err_0 == ClientStateError::Qos2NotSupported
                } else {
                    r is Ok && r->Ok_0@ == subscribe_request_view(topic_name.spec_bytes(), maximum_qos, SUBSCRIBE_PACKET_IDENTIFIER)
                },
                _ => r is Err && r->Err_0 == ClientStateError::NotConnected,
            },
    {
        match *self {
            ClientStateNoQueue::Connected(cs) => {
                if cs.waiting.is_waiting() {
                    Err(ClientStateError::ClientIsWaitingForResponse)
                } else if maximum_qos == QualityOfService::Qos2 {
                    Err(ClientStateError::Qos2NotSupported)
                } else {
                    let first_request = SubscriptionRequest::new(topic_name, maximum_qos);
                    let others: Vec<SubscriptionRequest<'b>> = Vec::new();
                    let properties: Vec<Property<'b>> = Vec::new();
                    assert(items_view(others@) =~= Seq::<SubscriptionRequestView>::empty());
                    assert(properties_view(properties@) =~= Seq::<PropertyView>::empty());
                    Ok(Subscribe::new(PacketIdentifier(SUBSCRIBE_PACKET_IDENTIFIER), first_request, others, properties))
                }
            },
            _ => Err(ClientStateError::NotConnected),
        }
    }

    /// Update the state after a Subscribe packet was sent: its Suback is then awaited, for
    /// its identifier and the maximum quality of service of its request. Fails with
    /// [ClientStateError::ClientIsWaitingForResponse] while a response is awaited, with
    /// [ClientStateError::MultipleSubscriptionRequestsNotSupported] for more than one
    /// request, with [ClientStateError::Qos2NotSupported] for quality of service 2, and with
    /// [ClientStateError::NotConnected] when not connected; errors leave the state unchanged.
    pub fn subscribe_update<'b, const P: usize, const S: usize>(&mut self, packet: &Subscribe<'b, P, S>) -> (r: Result<(), ClientStateError>)
        ensures
            match *old(self) {
                ClientStateNoQueue::Connected(cs) => if !(cs.waiting is Nothing) {
                    r is Err && r->Err_0 == ClientStateError::ClientIsWaitingForResponse && *final(self) == *old(self)
                } else if packet@.others.len() > 0 {
                    r is Err && r->Err_0 == ClientStateError::MultipleSubscriptionRequestsNotSupported && *final(self) == *old(self)
                } else if packet@.first.options.maximum_qos == QualityOfService::Qos2 {
                    r is Err && r->Err_0 == ClientStateError::Qos2NotSupported && *final(self) == *old(self)
                } else {
                    r is Ok && *final(self) == ClientStateNoQueue::Connected(ConnectionState {
                        info: cs.info,
                        waiting: Waiting::ForSuback {
                            id: PacketIdentifier(packet@.packet_identifier),
                            qos: packet@.first.options.maximum_qos,
                        },
                    })
                },
                _ => r is Err && r->Err_0 == ClientStateError::NotConnected && *final(self) == *old(self),
            },
    {
        match *self {
            ClientStateNoQueue::Connected(cs) => {
                if cs.waiting.is_waiting() {
                    Err(ClientStateError::ClientIsWaitingForResponse)
                } else if packet.request_count() > 1 {
                    Err(ClientStateError::MultipleSubscriptionRequestsNotSupported)
                } else if packet.request_maximum_qos() == QualityOfService::Qos2 {
                    Err(ClientStateError::Qos2NotSupported)
                } else {
                    *self = ClientStateNoQueue::Connected(ConnectionState {
                        info: cs.info,
                        waiting: Waiting::ForSuback {
                            id: *packet.packet_identifier(),
                            qos: packet.request_maximum_qos(),
                        },
                    });
                    Ok(())
                }
            },
            _ => Err(ClientStateError::NotConnected),
        }
    }

    /// Produce a Subscribe packet for one topic filter and update the state, as
    /// [Self::subscribe_packet] and then [Self::subscribe_update] do
    pub fn subscribe<'b>(&mut self, topic_name: &'b str, maximum_qos: QualityOfService) -> (r: Result<Subscribe<'b, 0, 0>, ClientStateError>)
        ensures
            match *old(self) {
                ClientStateNoQueue::Connected(cs) => if !(cs.waiting is Nothing) {
                    r is Err && r->Err_0 == ClientStateError::ClientIsWaitingForResponse && *final(self) == *old(self)
                } else if maximum_qos == QualityOfService::Qos2 {
                    r is Err && r->Err_0 == ClientStateError::Qos2NotSupported && *final(self) == *old(self)
                } else {
                    r is Ok && r->Ok_0@ == subscribe_request_view(topic_name.spec_bytes(), maximum_qos, SUBSCRIBE_PACKET_IDENTIFIER)
                        && *final(self) == ClientStateNoQueue::Connected(ConnectionState {
                            info: cs.info,
                            waiting: Waiting::ForSuback { id: PacketIdentifier(SUBSCRIBE_PACKET_IDENTIFIER), qos: maximum_qos },
                        })
                },
                _ => r is Err && r->Err_0 == ClientStateError::NotConnected && *final(self) == *old(self),
            },
    {
        let packet = match self.subscribe_packet(topic_name, maximum_qos) {
            Ok(p) => p,
            Err(e) => return Err(e),
        };
        match self.subscribe_update(&packet) {
            Ok(()) => Ok(packet),
            Err(e) => Err(e),
        }
    }

    /// Produce an Unsubscribe packet for one topic filter, with identifier
    /// [UNSUBSCRIBE_PACKET_IDENTIFIER], without updating the state: call
    /// [Self::unsubscribe_update] once it is sent. Fails with
    /// [ClientStateError::ClientIsWaitingForResponse] while a response is awaited and with
    /// [ClientStateError::NotConnected] when not connected.
    pub fn unsubscribe_packet<'b>(&mut self, topic_name: &'b str) -> (r: Result<Unsubscribe<'b, 0, 0>, ClientStateError>)
        ensures
            *final(self) == *old(self),
            match *old(self) {
                ClientStateNoQueue::Connected(cs) => if !(cs.waiting is Nothing) {
                    r is Err && r->Err_0 == ClientStateError::ClientIsWaitingForResponse
                } else {
                    r is Ok && r->Ok_0@ == unsubscribe_request_view(topic_name.spec_bytes(), UNSUBSCRIBE_PACKET_IDENTIFIER)
                },
                _ => r is Err && r->Err_0 == ClientStateError::NotConnected,
            },
    {
        match *self {
            ClientStateNoQueue::Connected(cs) => {
                if cs.waiting.is_waiting() {
                    Err(ClientStateError::ClientIsWaitingForResponse)
                } else {
                    let others: Vec<&'b str> = Vec::new();
                    let properties: Vec<Property<'b>> = Vec::new();
                    assert(items_view(others@) =~= Seq::<Seq<u8>>::empty());
                    assert(properties_view(properties@) =~= Seq::<PropertyView>::empty());
                    Ok(Unsubscribe::new(PacketIdentifier(UNSUBSCRIBE_PACKET_IDENTIFIER), topic_name, others, properties))
                }
            },
            _ => Err(ClientStateError::NotConnected),
        }
    }

    /// Update the state after an Unsubscribe packet was sent: its Unsuback is then awaited.
    /// Fails with [ClientStateError::ClientIsWaitingForResponse] while a response is
    /// awaited and with [ClientStateError::NotConnected] when not connected; errors leave
    /// the state unchanged.
    pub fn unsubscribe_update<'b, const P: usize, const S: usize>(&mut self, packet: &Unsubscribe<'b, P, S>) -> (r: Result<(), ClientStateError>)
        ensures
            match *old(self) {
                ClientStateNoQueue::Connected(cs) => if !(cs.waiting is Nothing) {
                    r is Err && r->Err_0 == ClientStateError::ClientIsWaitingForResponse && *final(self) == *old(self)
                } else {
                    r is Ok && *final(self) == ClientStateNoQueue::Connected(ConnectionState {
                        info: cs.info,
                        waiting: Waiting::ForUnsuback { id: PacketIdentifier(packet@.packet_identifier) },
                    })
                },
                _ => r is Err && r->Err_0 == ClientStateError::NotConnected && *final(self) == *old(self),
            },
    {
        match *self {
            ClientStateNoQueue::Connected(cs) => {
                if cs.waiting.is_waiting() {
                    Err(ClientStateError::ClientIsWaitingForResponse)
                } else {
                    *self = ClientStateNoQueue::Connected(ConnectionState {
                        info: cs.info,
                        waiting: Waiting::ForUnsuback { id: *packet.packet_identifier() },
                    });
                    Ok(())
                }
            },
            _ => Err(ClientStateError::NotConnected),
        }
    }

    /// Produce an Unsubscribe packet for one topic filter and update the state, as
    /// [Self::unsubscribe_packet] and then [Self::unsubscribe_update] do
    pub fn unsubscribe<'b>(&mut self, topic_name: &'b str) -> (r: Result<Unsubscribe<'b, 0, 0>, ClientStateError>)
        ensures
            match *old(self) {
                ClientStateNoQueue::Connected(cs) => if !(cs.waiting is Nothing) {
                    r is Err && r->Err_0 == ClientStateError::ClientIsWaitingForResponse && *final(self) == *old(self)
                } else {
                    r is Ok && r->Ok_0@ == unsubscribe_request_view(topic_name.spec_bytes(), UNSUBSCRIBE_PACKET_IDENTIFIER)
                        && *final(self) == ClientStateNoQueue::Connected(ConnectionState {
                            info: cs.info,
                            waiting: Waiting::ForUnsuback { id: PacketIdentifier(UNSUBSCRIBE_PACKET_IDENTIFIER) },
                        })
                },
                _ => r is Err && r->Err_0 == ClientStateError::NotConnected && *final(self) == *old(self),
            },
    {
        let packet = match self.unsubscribe_packet(topic_name) {
            Ok(p) => p,
            Err(e) => return Err(e),
        };
        match self.unsubscribe_update(&packet) {
            Ok(()) => Ok(packet),
            Err(e) => Err(e),
        }
    }

    /// Produce a Pingreq packet: a connected client counts one more pending ping;
    /// otherwise [ClientStateError::NotConnected]
    pub fn send_ping(&mut self) -> (r: Result<Pingreq, ClientStateError>)
        requires
            old(self).pending_ping_count_spec() < u32::MAX,
        ensures
            match *old(self) {
                ClientStateNoQueue::Connected(cs) => r is Ok && *final(self) == ClientStateNoQueue::Connected(ConnectionState {
                    info: ConnectionInfo {
                        pending_ping_count: (cs.info.pending_ping_count + 1) as u32,
                        session_present: cs.info.session_present,
                        keep_alive: cs.info.keep_alive,
                    },
                    waiting: cs.waiting,
                }),
                _ => r is Err && r->Err_0 == ClientStateError::NotConnected && *final(self) == *old(self),
            },
    {
        match *self {
            ClientStateNoQueue::Connected(cs) => {
                *self = ClientStateNoQueue::Connected(ConnectionState {
                    info: ConnectionInfo {
                        pending_ping_count: cs.info.pending_ping_count + 1,
                        session_present: cs.info.session_present,
                        keep_alive: cs.info.keep_alive,
                    },
                    waiting: cs.waiting,
                });
                Ok(Pingreq::new())
            },
            _ => Err(ClientStateError::NotConnected),
        }
    }

    /// The number of pings sent and not answered yet when connected, otherwise 0
    pub open spec fn pending_ping_count_spec(&self) -> u32 {
        match *self {
            ClientStateNoQueue::Connected(cs) => cs.info.pending_ping_count,
            _ => 0,
        }
    }

    /// The number of pings sent and not answered yet when connected, otherwise 0
    pub fn pending_ping_count(&self) -> (r: u32)
        ensures
            r == self.pending_ping_count_spec(),
    {
        match self {
            ClientStateNoQueue::Connected(cs) => cs.info.pending_ping_count,
            _ => 0,
        }
    }

    /// Move to the errored state, where no further operation is possible; to be called
    /// when a packet produced by this state could not be sent
    pub fn error(&mut self)
        ensures
            *final(self) == ClientStateNoQueue::Errored,
    {
        *self = ClientStateNoQueue::Errored;
    }
}

impl Default for ClientStateNoQueue {
    fn default() -> (r: Self)
        ensures
            r == ClientStateNoQueue::Idle,
    {
        ClientStateNoQueue::Idle
    }
}

/// The law of acknowledged publishing, for a client without a queue: a connected client
/// that awaits nothing, having published a message with quality of service 1, returns to
/// awaiting nothing, with the same connection, when the Puback with the packet identifier
/// of its Publish packet arrives, and the outcome is that of the Puback's reason code.
pub proof fn lemma_no_queue_puback_answers_publish<'a, 'b, const P: usize, const W: usize, const S: usize>(
    info: ConnectionInfo,
    packet: PacketGeneric<'a, P, W, S>,
    after: ClientStateNoQueue,
    r: Result<ClientStateReceiveEvent<'a, 'b, P>, ClientStateError>,
)
    requires
        packet matches PacketGeneric::Puback(a) && a@.packet_identifier == PUBLISH_PACKET_IDENTIFIER,
        no_queue_receive(
            ClientStateNoQueue::Connected(ConnectionState {
                info,
                waiting: Waiting::ForPuback { id: PacketIdentifier(PUBLISH_PACKET_IDENTIFIER) },
            }),
            packet,
            after,
            r,
        ),
    ensures
        after == ClientStateNoQueue::Connected(ConnectionState { info, waiting: Waiting::Nothing }),
        packet matches PacketGeneric::Puback(a) && puback_outcome(a@.reason_code, r),
{
}

/// The law of pings, for a client without a queue: a ping sent by a connected client,
/// answered by a Pingresp, leaves the client as it was, and the Pingresp is acknowledged.
pub proof fn lemma_no_queue_pingresp_answers_ping<'a, 'b, const P: usize, const W: usize, const S: usize>(
    cs: ConnectionState,
    packet: PacketGeneric<'a, P, W, S>,
    after: ClientStateNoQueue,
    r: Result<ClientStateReceiveEvent<'a, 'b, P>, ClientStateError>,
)
    requires
        cs.info.pending_ping_count < u32::MAX,
        packet is Pingresp,
        no_queue_receive(
            ClientStateNoQueue::Connected(ConnectionState {
                info: ConnectionInfo {
                    pending_ping_count: (cs.info.pending_ping_count + 1) as u32,
                    session_present: cs.info.session_present,
                    keep_alive: cs.info.keep_alive,
                },
                waiting: cs.waiting,
            }),
            packet,
            after,
            r,
        ),
    ensures
        after == ClientStateNoQueue::Connected(cs),
        r is Ok && r->Ok_0 is Ack,
{
}


/// The law of acknowledged subscribing, for a client without a queue: a connected client
/// that awaits nothing, having asked for a subscription with a maximum quality of service,
/// returns to awaiting nothing, with the same connection, when the Suback with the packet
/// identifier of its Subscribe packet arrives, and the outcome is that of the Suback's first
/// reason code for that maximum quality of service.
pub proof fn lemma_no_queue_suback_answers_subscribe<'a, 'b, const P: usize, const W: usize, const S: usize>(
    info: ConnectionInfo,
    maximum_qos: QualityOfService,
    packet: PacketGeneric<'a, P, W, S>,
    after: ClientStateNoQueue,
    r: Result<ClientStateReceiveEvent<'a, 'b, P>, ClientStateError>,
)
    requires
        packet matches PacketGeneric::Suback(a) && a@.packet_identifier == SUBSCRIBE_PACKET_IDENTIFIER,
        no_queue_receive(
            ClientStateNoQueue::Connected(ConnectionState {
                info,
                waiting: Waiting::ForSuback { id: PacketIdentifier(SUBSCRIBE_PACKET_IDENTIFIER), qos: maximum_qos },
            }),
            packet,
            after,
            r,
        ),
    ensures
        after == ClientStateNoQueue::Connected(ConnectionState { info, waiting: Waiting::Nothing }),
        packet matches PacketGeneric::Suback(a) && suback_outcome(a@.first, maximum_qos, r),
{
}

/// The law of acknowledged unsubscribing, for a client without a queue: a connected client
/// that awaits nothing, having asked to unsubscribe, returns to awaiting nothing, with the
/// same connection, when the Unsuback with the packet identifier of its Unsubscribe packet
/// arrives, and the outcome is that of the Unsuback's first reason code.
pub proof fn lemma_no_queue_unsuback_answers_unsubscribe<'a, 'b, const P: usize, const W: usize, const S: usize>(
    info: ConnectionInfo,
    packet: PacketGeneric<'a, P, W, S>,
    after: ClientStateNoQueue,
    r: Result<ClientStateReceiveEvent<'a, 'b, P>, ClientStateError>,
)
    requires
        packet matches PacketGeneric::Unsuback(a) && a@.packet_identifier == UNSUBSCRIBE_PACKET_IDENTIFIER,
        no_queue_receive(
            ClientStateNoQueue::Connected(ConnectionState {
                info,
                waiting: Waiting::ForUnsuback { id: PacketIdentifier(UNSUBSCRIBE_PACKET_IDENTIFIER) },
            }),
            packet,
            after,
            r,
        ),
    ensures
        after == ClientStateNoQueue::Connected(ConnectionState { info, waiting: Waiting::Nothing }),
        packet matches PacketGeneric::Unsuback(a) && unsuback_outcome(a@.first, r),
{
}


/// The other half of the law of pings, for a client without a queue: a Pingresp that comes
/// when no ping is pending is [ClientStateError::UnexpectedPingresp], and leaves the client
/// as it was.
pub proof fn lemma_no_queue_pingresp_without_ping<'a, 'b, const P: usize, const W: usize, const S: usize>(
    cs: ConnectionState,
    packet: PacketGeneric<'a, P, W, S>,
    after: ClientStateNoQueue,
    r: Result<ClientStateReceiveEvent<'a, 'b, P>, ClientStateError>,
)
    requires
        cs.info.pending_ping_count == 0,
        packet is Pingresp,
        no_queue_receive(ClientStateNoQueue::Connected(cs), packet, after, r),
    ensures
        after == ClientStateNoQueue::Connected(cs),
        r == Err::<ClientStateReceiveEvent<'a, 'b, P>, ClientStateError>(ClientStateError::UnexpectedPingresp),
{
}


/// The law of keep alive: the keep alive of a connection is the value of the last Server
/// Keep Alive property (identifier 0x13) among the Connack's properties, whatever keep alive
/// was requested; when the Connack holds none, it is the keep alive requested.
pub proof fn lemma_server_keep_alive(ps: Seq<PropertyView>, requested: u16)
    ensures
        (forall|i: int| 0 <= i < ps.len() ==> (#[trigger] ps[i]).id != 0x13) ==> server_keep_alive(ps, requested) == requested,
        forall|i: int|
            0 <= i < ps.len() && (#[trigger] ps[i]).id == 0x13 && ps[i].value is TwoByteInteger
                && (forall|j: int| i < j < ps.len() ==> ps[j].id != 0x13)
                ==> server_keep_alive(ps, requested) == ps[i].value->TwoByteInteger_0,
    decreases ps.len(),
{
    if ps.len() > 0 {
        let d = ps.drop_last();
        lemma_server_keep_alive(d, requested);
        assert forall|i: int| 0 <= i < d.len() implies d[i] == ps[i] by {}
        if (forall|i: int| 0 <= i < ps.len() ==> (#[trigger] ps[i]).id != 0x13) {
            assert(ps[ps.len() - 1].id != 0x13);
            assert forall|i: int| 0 <= i < d.len() implies (#[trigger] d[i]).id != 0x13 by {
                assert(ps[i].id != 0x13);
            }
        }
        assert forall|i: int|
            0 <= i < ps.len() && (#[trigger] ps[i]).id == 0x13 && ps[i].value is TwoByteInteger
                && (forall|j: int| i < j < ps.len() ==> ps[j].id != 0x13)
            implies server_keep_alive(ps, requested) == ps[i].value->TwoByteInteger_0 by {
            if i < ps.len() - 1 {
                assert(ps[ps.len() - 1].id != 0x13);
                assert(d[i] == ps[i]);
                assert forall|j: int| i < j < d.len() implies d[j].id != 0x13 by {
                    assert(d[j] == ps[j]);
                }
            }
        }
    }
}

/// The grants of Suback reason codes: a code grants a subscription exactly when its value
/// is at most 2, and it then grants the quality of service whose value is its own (Success,
/// 0, grants quality of service 0; GrantedQos1, 1, grants 1; GrantedQos2, 2, grants 2).
pub proof fn lemma_granted_qos_by_value(c: ReasonCode)
    ensures
        granted_qos(c) is Some <==> reason_code_value(c) <= 2,
        granted_qos(c) matches Some(q) ==> qos_value(q) == reason_code_value(c),
{
}

/// The law of subscription grants, for a client without a queue: the Suback that answers a
/// subscription requested with a maximum quality of service, with a first reason code that
/// grants it, is a plain acknowledgement when the code's value is that of the maximum, and
/// otherwise reports the quality of service granted, whose value is the code's, together
/// with the maximum requested.
pub proof fn lemma_no_queue_suback_grant<'a, 'b, const P: usize, const W: usize, const S: usize>(
    info: ConnectionInfo,
    maximum_qos: QualityOfService,
    packet: PacketGeneric<'a, P, W, S>,
    after: ClientStateNoQueue,
    r: Result<ClientStateReceiveEvent<'a, 'b, P>, ClientStateError>,
)
    requires
        packet matches PacketGeneric::Suback(a) && a@.packet_identifier == SUBSCRIBE_PACKET_IDENTIFIER
            && reason_code_value(a@.first) <= 2,
        no_queue_receive(
            ClientStateNoQueue::Connected(ConnectionState {
                info,
                waiting: Waiting::ForSuback { id: PacketIdentifier(SUBSCRIBE_PACKET_IDENTIFIER), qos: maximum_qos },
            }),
            packet,
            after,
            r,
        ),
    ensures
        after == ClientStateNoQueue::Connected(ConnectionState { info, waiting: Waiting::Nothing }),
        packet matches PacketGeneric::Suback(a) && (reason_code_value(a@.first) == qos_value(maximum_qos)
            ==> r is Ok && r->Ok_0 is Ack),
        packet matches PacketGeneric::Suback(a) && (reason_code_value(a@.first) != qos_value(maximum_qos)
            ==> (r matches Ok(ClientStateReceiveEvent::SubscriptionGrantedBelowMaximumQos { granted_qos: g, maximum_qos: m })
                && qos_value(g) == reason_code_value(a@.first) && m == maximum_qos)),
{
    let a = packet->Suback_0;
    lemma_granted_qos_by_value(a@.first);
    let g = granted_qos(a@.first)->Some_0;
    assert(qos_value(g) == qos_value(maximum_qos) <==> g == maximum_qos);
}

/// The law of keep alive on connecting, for a client without a queue: a connecting client
/// that receives a successful Connack whose properties hold a Server Keep Alive property
/// (the last such giving `v`) is connected with keep alive `v`, whatever it requested.
pub proof fn lemma_no_queue_connack_keep_alive<'a, 'b, const P: usize, const W: usize, const S: usize>(
    requested: RequestedConnectionInfo,
    packet: PacketGeneric<'a, P, W, S>,
    i: int,
    after: ClientStateNoQueue,
    r: Result<ClientStateReceiveEvent<'a, 'b, P>, ClientStateError>,
)
    requires
        packet matches PacketGeneric::Connack(c) && c@.reason_code == ReasonCode::Success
            && !(c@.session_present && requested.clean_start)
            && 0 <= i < c@.properties.len() && c@.properties[i].id == 0x13
            && c@.properties[i].value is TwoByteInteger
            && (forall|j: int| i < j < c@.properties.len() ==> c@.properties[j].id != 0x13),
        no_queue_receive(ClientStateNoQueue::Connecting(requested), packet, after, r),
    ensures
        packet matches PacketGeneric::Connack(c) && ((after matches ClientStateNoQueue::Connected(cs))
            && after->Connected_0.info.keep_alive == c@.properties[i].value->TwoByteInteger_0),
{
    let c = packet->Connack_0;
    lemma_server_keep_alive(c@.properties, requested.keep_alive);
    let _ = c@.properties[i];
}

} // verus!
