use vstd::prelude::*;
use vstd::string::StringSliceAdditionalSpecFns;

use crate::client_state::{
    client_state_error_text, lemma_no_queue_suback_grant, no_queue_receive, ClientStateError,
    ClientStateNoQueue, ClientStateReceiveEvent, ConnectionInfo, ConnectionState, Waiting,
    SUBSCRIBE_PACKET_IDENTIFIER,
};
use crate::data::packet_identifier::publish_identifier_qos;
use crate::data::property::{properties_view, property_view, ConnectProperty, PropertyValue, PropertyView};
use crate::data::quality_of_service::{qos_value, QualityOfService};
use crate::data::packet_identifier::PacketIdentifier;
use crate::data::reason_code::reason_code_value;
use crate::packets::packet_generic::PacketGeneric;
use crate::data::reason_code::{
    disconnect_reason_code_general, reason_code_name, DisconnectReasonCode,
};
use crate::error::{
    packet_read_error_text, packet_write_error_text, parenthesized, PacketReadError,
    PacketWriteError,
};
use crate::packets::connect::{
    optional_binary_view, optional_str_view, optional_will_view, Connect, ConnectView, Will,
};
use crate::packets::packet::KEEP_ALIVE_DEFAULT;
use crate::packets::puback::Puback;
use crate::packets::publish::{ApplicationMessage, Publish};

verus! {

/// An error of a client
#[derive(Debug, PartialEq)]
pub enum ClientError<E> {
    PacketWrite(PacketWriteError),
    PacketRead(PacketReadError),
    ClientState(ClientStateError),
    TimeoutOnResponsePacket,
    /// The server sent nothing for longer than the receive timeout
    ReceiveTimeoutServerUnresponsive,
    Disconnected(DisconnectReasonCode),
    MessageHandler(E),
    /// The client received an empty topic name although it disabled topic aliases. This
    /// indicates a server error; the client should disconnect, and may send a Disconnect
    /// with [DisconnectReasonCode::TopicAliasInvalid], on the assumption that the packet
    /// also had some topic alias specified.
    EmptyTopicNameWithAliasesDisabled,
}

/// The text of a [ClientError]: the variant's name, followed by the text of an error or the
/// name of a reason code that it holds in brackets; the error of a message handler is not
/// shown
pub open spec fn client_error_text<E>(e: ClientError<E>) -> Seq<char> {
    match e {
        ClientError::PacketWrite(w) => "PacketWrite"@ + "("@ + packet_write_error_text(w) + ")"@,
        ClientError::PacketRead(r) => "PacketRead"@ + "("@ + packet_read_error_text(r) + ")"@,
        ClientError::ClientState(c) => "ClientState"@ + "("@ + client_state_error_text(c) + ")"@,
        ClientError::TimeoutOnResponsePacket => "TimeoutOnResponsePacket"@,
        ClientError::ReceiveTimeoutServerUnresponsive => "ReceiveTimeoutServerUnresponsive"@,
        ClientError::Disconnected(d) => "Disconnected"@ + "("@ + reason_code_name(
            disconnect_reason_code_general(d),
        ) + ")"@,
        ClientError::MessageHandler(_) => "MessageHandlerError"@,
        ClientError::EmptyTopicNameWithAliasesDisabled => "EmptyTopicWithAliasesDisabled"@,
    }
}

impl<E> ClientError<E> {
    /// The error as text
    pub fn to_string(&self) -> (r: String)
        ensures
            r@ == client_error_text(*self),
    {
        match self {
            ClientError::PacketWrite(w) => parenthesized("PacketWrite", w.to_string().as_str()),
            ClientError::PacketRead(e) => parenthesized("PacketRead", e.to_string().as_str()),
            ClientError::ClientState(c) => parenthesized("ClientState", c.to_string().as_str()),
            ClientError::TimeoutOnResponsePacket => "TimeoutOnResponsePacket".to_owned(),
            ClientError::ReceiveTimeoutServerUnresponsive => "ReceiveTimeoutServerUnresponsive".to_owned(),
            ClientError::Disconnected(d) => parenthesized("Disconnected", d.reason_code().name()),
            ClientError::MessageHandler(_) => "MessageHandlerError".to_owned(),
            ClientError::EmptyTopicNameWithAliasesDisabled => "EmptyTopicWithAliasesDisabled".to_owned(),
        }
    }
}

impl<E> From<ClientStateError> for ClientError<E> {
    fn from(value: ClientStateError) -> (r: Self) {
        ClientError::ClientState(value)
    }
}

impl<E> vstd::std_specs::convert::FromSpecImpl<ClientStateError> for ClientError<E> {
    open spec fn obeys_from_spec() -> bool {
        true
    }

    open spec fn from_spec(v: ClientStateError) -> Self {
        ClientError::ClientState(v)
    }
}

impl<E> From<PacketWriteError> for ClientError<E> {
    fn from(value: PacketWriteError) -> (r: Self) {
        ClientError::PacketWrite(value)
    }
}

impl<E> vstd::std_specs::convert::FromSpecImpl<PacketWriteError> for ClientError<E> {
    open spec fn obeys_from_spec() -> bool {
        true
    }

    open spec fn from_spec(v: PacketWriteError) -> Self {
        ClientError::PacketWrite(v)
    }
}

impl<E> From<PacketReadError> for ClientError<E> {
    fn from(value: PacketReadError) -> (r: Self) {
        ClientError::PacketRead(value)
    }
}

impl<E> vstd::std_specs::convert::FromSpecImpl<PacketReadError> for ClientError<E> {
    open spec fn obeys_from_spec() -> bool {
        true
    }

    open spec fn from_spec(v: PacketReadError) -> Self {
        ClientError::PacketRead(v)
    }
}

/// An error of the handler of the events of a client
#[derive(Debug, PartialEq, Eq, Clone, Copy, Structural)]
pub enum EventHandlerError {
    /// An application message arrived on a topic that the handler does not expect
    UnexpectedApplicationMessageTopic,
    /// An application message could not be understood
    InvalidApplicationMessage,
    /// The handler had no room for an event
    Overflow,
}

/// The settings of a connection: the keep alive interval, the credentials and the client
/// identifier
pub struct ConnectionSettings<'a> {
    keep_alive: u16,
    username: Option<&'a str>,
    password: Option<&'a [u8]>,
    client_id: &'a str,
}

impl<'a> ConnectionSettings<'a> {
    /// The keep alive interval, in seconds
    pub closed spec fn spec_keep_alive(&self) -> u16 {
        self.keep_alive
    }

    /// The username, if any
    pub closed spec fn spec_username(&self) -> Option<&'a str> {
        self.username
    }

    /// The password, if any
    pub closed spec fn spec_password(&self) -> Option<&'a [u8]> {
        self.password
    }

    /// The client identifier
    pub closed spec fn spec_client_id(&self) -> &'a str {
        self.client_id
    }

    /// Settings without credentials, with the default keep alive
    pub fn unauthenticated(client_id: &'a str) -> (r: ConnectionSettings<'a>)
        ensures
            r.spec_keep_alive() == KEEP_ALIVE_DEFAULT,
            r.spec_username() is None,
            r.spec_password() is None,
            r.spec_client_id() == client_id,
    {
        ConnectionSettings { keep_alive: KEEP_ALIVE_DEFAULT, username: None, password: None, client_id }
    }

    /// The keep alive interval, in seconds
    pub fn keep_alive(&self) -> (r: u16)
        ensures
            r == self.spec_keep_alive(),
    {
        self.keep_alive
    }

    /// The username, if any
    pub fn username(&self) -> (r: &Option<&'a str>)
        ensures
            *r == self.spec_username(),
    {
        &self.username
    }

    /// The password, if any
    pub fn password(&self) -> (r: &Option<&'a [u8]>)
        ensures
            *r == self.spec_password(),
    {
        &self.password
    }

    /// The client identifier
    pub fn client_id(&self) -> (r: &'a str)
        ensures
            r == self.spec_client_id(),
    {
        self.client_id
    }

    /// The Connect packet that a client sends with these settings and a will, if any: a
    /// clean start, and a Topic Alias Maximum property of 0, so that the server does not use
    /// topic aliases, which the client does not support
    pub fn connect_packet_with_will<const W: usize>(&self, will: Option<Will<'a, W>>) -> (r: Connect<'a, 1, W>)
        ensures
            r@ == (ConnectView {
                keep_alive: self.spec_keep_alive(),
                username: optional_str_view(self.spec_username()),
                password: optional_binary_view(self.spec_password()),
                client_id: self.spec_client_id().spec_bytes(),
                clean_start: true,
                will: optional_will_view(will),
                properties: seq![PropertyView { id: 0x22, value: PropertyValue::TwoByteInteger(0) }],
            }),
    {
        let mut properties: Vec<ConnectProperty<'a>> = Vec::new();
        properties.push(ConnectProperty::TopicAliasMaximum(0));
        assert(properties_view(properties@) =~= seq![PropertyView { id: 0x22, value: PropertyValue::TwoByteInteger(0) }]);
        Connect::new(self.keep_alive, self.username, self.password, self.client_id, true, will, properties)
    }

    /// The Connect packet that a client sends with these settings and no will, as
    /// [Self::connect_packet_with_will] gives it
    pub fn connect_packet(&self) -> (r: Connect<'a, 1, 0>)
        ensures
            r@ == (ConnectView {
                keep_alive: self.spec_keep_alive(),
                username: optional_str_view(self.spec_username()),
                password: optional_binary_view(self.spec_password()),
                client_id: self.spec_client_id().spec_bytes(),
                clean_start: true,
                will: None,
                properties: seq![PropertyView { id: 0x22, value: PropertyValue::TwoByteInteger(0) }],
            }),
    {
        self.connect_packet_with_will(None)
    }
}

/// An event that a client gives its handler
#[derive(Debug, PartialEq)]
pub enum ClientReceivedEvent<'a, const P: usize> {
    /// An application message published to a subscribed topic was received
    ApplicationMessage(ApplicationMessage<'a, P>),
    /// An acknowledgement of, or response to, a packet sent earlier (Connack, Puback,
    /// Suback, Unsuback, Pingresp). There is one per ping response, which can be used to
    /// track whether the client is still connected.
    Ack,
    /// A subscription was granted at a lower quality of service than the maximum requested
    SubscriptionGrantedBelowMaximumQos { granted_qos: QualityOfService, maximum_qos: QualityOfService },
    /// A published message reached the server, but had no matching subscribers
    PublishedMessageHadNoMatchingSubscribers,
    /// The server processed an unsubscribe request, but no such subscription existed
    NoSubscriptionExisted,
}

/// Whether an event holds the application message of a Publish packet
pub open spec fn is_message_of<'a, const P: usize>(event: ClientReceivedEvent<'a, P>, publish: Publish<'a, P>) -> bool {
    event matches ClientReceivedEvent::ApplicationMessage(m) && m.topic_name == publish.spec_topic_name()
        && m.payload == publish.spec_payload() && m.qos == publish_identifier_qos(publish@.packet_identifier)
        && m.retain == publish@.retain && properties_view(m.properties@) == publish@.properties
}

impl<'a, const P: usize> ClientReceivedEvent<'a, P> {
    /// The event of a received Publish packet: its application message
    pub fn from_publish(value: Publish<'a, P>) -> (r: Self)
        ensures
            is_message_of(r, value),
    {
        ClientReceivedEvent::ApplicationMessage(ApplicationMessage::from_publish(value))
    }
}

/// What [client_event] gives for an event of the client state: see there
pub open spec fn client_event_outcome<'a, 'b, E, const P: usize>(
    event: ClientStateReceiveEvent<'a, 'b, P>,
    r: Result<(ClientReceivedEvent<'a, P>, Option<Puback<'b, P>>), ClientError<E>>,
) -> bool {
    match event {
        ClientStateReceiveEvent::Ack => r matches Ok((ClientReceivedEvent::Ack, None)),
        ClientStateReceiveEvent::Publish { publish } => if publish.spec_topic_name()@.len() == 0 {
            r matches Err(ClientError::EmptyTopicNameWithAliasesDisabled)
        } else {
            r matches Ok((m, None)) && is_message_of(m, publish)
        },
        ClientStateReceiveEvent::PublishAndPuback { publish, puback } => if publish.spec_topic_name()@.len() == 0 {
            r matches Err(ClientError::EmptyTopicNameWithAliasesDisabled)
        } else {
            r matches Ok((m, Some(p))) && is_message_of(m, publish) && p == puback
        },
        ClientStateReceiveEvent::SubscriptionGrantedBelowMaximumQos { granted_qos, maximum_qos } =>
            r matches Ok((ClientReceivedEvent::SubscriptionGrantedBelowMaximumQos { granted_qos: g, maximum_qos: m }, None))
                && g == granted_qos && m == maximum_qos,
        ClientStateReceiveEvent::PublishedMessageHadNoMatchingSubscribers =>
            r matches Ok((ClientReceivedEvent::PublishedMessageHadNoMatchingSubscribers, None)),
        ClientStateReceiveEvent::NoSubscriptionExisted => r matches Ok((ClientReceivedEvent::NoSubscriptionExisted, None)),
        ClientStateReceiveEvent::Disconnect { disconnect } => r matches Err(ClientError::Disconnected(code))
            && disconnect_reason_code_general(code) == disconnect@.reason_code,
    }
}

/// What a client does with what receiving a packet gave: the event for its handler, and
/// the Puback to send, if any. An acknowledgement and the other responses are events of
/// their own; a published message is an application message event, and its Puback, when
/// there is one, is to be sent; a published message with an empty topic name is
/// [ClientError::EmptyTopicNameWithAliasesDisabled], since the client disables topic
/// aliases; a Disconnect packet ends the connection with
/// [ClientError::Disconnected] and its reason code.
pub fn client_event<'a, 'b, E, const P: usize>(event: ClientStateReceiveEvent<'a, 'b, P>) -> (r: Result<(ClientReceivedEvent<'a, P>, Option<Puback<'b, P>>), ClientError<E>>)
    ensures
        client_event_outcome(event, r),
{
    match event {
        ClientStateReceiveEvent::Ack => Ok((ClientReceivedEvent::Ack, None)),
        ClientStateReceiveEvent::Publish { publish } => {
            if publish.topic_name().is_empty() {
                return Err(ClientError::EmptyTopicNameWithAliasesDisabled);
            }
            Ok((ClientReceivedEvent::from_publish(publish), None))
        },
        ClientStateReceiveEvent::PublishAndPuback { publish, puback } => {
            if publish.topic_name().is_empty() {
                return Err(ClientError::EmptyTopicNameWithAliasesDisabled);
            }
            Ok((ClientReceivedEvent::from_publish(publish), Some(puback)))
        },
        ClientStateReceiveEvent::SubscriptionGrantedBelowMaximumQos { granted_qos, maximum_qos } => Ok(
            (ClientReceivedEvent::SubscriptionGrantedBelowMaximumQos { granted_qos, maximum_qos }, None),
        ),
        ClientStateReceiveEvent::PublishedMessageHadNoMatchingSubscribers => Ok(
            (ClientReceivedEvent::PublishedMessageHadNoMatchingSubscribers, None),
        ),
        ClientStateReceiveEvent::NoSubscriptionExisted => Ok((ClientReceivedEvent::NoSubscriptionExisted, None)),
        ClientStateReceiveEvent::Disconnect { disconnect } => Err(ClientError::Disconnected(*disconnect.reason_code())),
    }
}


/// Whether a client that waits for responses keeps waiting, once `elapsed_millis`
/// milliseconds of waiting have passed: while it still waits and no more than the timeout
/// has passed, `Ok(true)`; once it waits for nothing, `Ok(false)`; while it still waits
/// after the timeout, [ClientError::TimeoutOnResponsePacket]
pub fn wait_for_responses_step<E>(waiting: bool, elapsed_millis: u32, timeout_millis: u32) -> (r: Result<bool, ClientError<E>>)
    ensures
        !waiting ==> r matches Ok(false),
        waiting && elapsed_millis <= timeout_millis ==> r matches Ok(true),
        waiting && elapsed_millis > timeout_millis ==> r matches Err(ClientError::TimeoutOnResponsePacket),
{
    if !waiting {
        Ok(false)
    } else if elapsed_millis <= timeout_millis {
        Ok(true)
    } else {
        Err(ClientError::TimeoutOnResponsePacket)
    }
}


/// The law of grants below the maximum, from Suback to handler: when a client without a
/// queue, having asked for a subscription with a maximum quality of service, receives the
/// Suback whose first reason code grants a different quality of service, the handler's
/// event carries the quality of service granted (whose value is the code's) in
/// `granted_qos` and the maximum requested in `maximum_qos`, and no Puback is sent.
pub proof fn lemma_below_maximum_grant_event<'a, 'b, E, const P: usize, const W: usize, const S: usize>(
    info: ConnectionInfo,
    maximum_qos: QualityOfService,
    packet: PacketGeneric<'a, P, W, S>,
    after: ClientStateNoQueue,
    received: Result<ClientStateReceiveEvent<'a, 'b, P>, ClientStateError>,
    r: Result<(ClientReceivedEvent<'a, P>, Option<Puback<'b, P>>), ClientError<E>>,
)
    requires
        packet matches PacketGeneric::Suback(a) && a@.packet_identifier == SUBSCRIBE_PACKET_IDENTIFIER
            && reason_code_value(a@.first) <= 2 && reason_code_value(a@.first) != qos_value(maximum_qos),
        no_queue_receive(
            ClientStateNoQueue::Connected(ConnectionState {
                info,
                waiting: Waiting::ForSuback { id: PacketIdentifier(SUBSCRIBE_PACKET_IDENTIFIER), qos: maximum_qos },
            }),
            packet,
            after,
            received,
        ),
        received is Ok ==> client_event_outcome(received->Ok_0, r),
    ensures
        packet matches PacketGeneric::Suback(a) && (r matches Ok((ClientReceivedEvent::SubscriptionGrantedBelowMaximumQos { granted_qos: g, maximum_qos: m }, None))
            && qos_value(g) == reason_code_value(a@.first) && m == maximum_qos),
{
    lemma_no_queue_suback_grant(info, maximum_qos, packet, after, received);
}

} // verus!
