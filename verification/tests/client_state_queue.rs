use mountain_mqtt::client_state::{ClientStateError, ClientStateReceiveEvent};
use mountain_mqtt::client_state_queue::{ClientStateQueue, Q};
use mountain_mqtt::data::packet_identifier::{PacketIdentifier, PublishPacketIdentifier};
use mountain_mqtt::data::property::ConnackProperty;
use mountain_mqtt::data::quality_of_service::QualityOfService;
use mountain_mqtt::data::reason_code::{
    ConnectReasonCode, PublishReasonCode, SubscribeReasonCode, UnsubscribeReasonCode,
};
use mountain_mqtt::packets::connack::Connack;
use mountain_mqtt::packets::connect::Connect;
use mountain_mqtt::packets::packet_generic::PacketGeneric;
use mountain_mqtt::packets::pingresp::Pingresp;
use mountain_mqtt::packets::puback::Puback;
use mountain_mqtt::packets::suback::Suback;
use mountain_mqtt::packets::unsuback::Unsuback;

type Packet<'a> = PacketGeneric<'a, 1, 0, 0>;

fn connected_state() -> ClientStateQueue {
    let mut state = ClientStateQueue::new();
    let connect: Connect<'_, 0, 0> = Connect::unauthenticated("client");
    state.connect(&connect).unwrap();
    let connack: Connack<'_, 1> = Connack::new(false, ConnectReasonCode::Success, Vec::new());
    let event = state.receive::<1, 0, 0>(PacketGeneric::Connack(connack)).unwrap();
    assert!(matches!(event, ClientStateReceiveEvent::Ack));
    state
}

fn puback(id: u16, code: PublishReasonCode) -> Packet<'static> {
    PacketGeneric::Puback(Puback::new(PacketIdentifier(id), code, Vec::new()))
}

#[test]
fn queue_client_connects_on_successful_connack() {
    let state = connected_state();
    assert!(matches!(state, ClientStateQueue::Connected(_)));
    assert!(!state.waiting_for_responses());
}

#[test]
fn queue_client_waits_while_connecting() {
    let mut state = ClientStateQueue::new();
    assert!(!state.waiting_for_responses());
    let connect: Connect<'_, 0, 0> = Connect::unauthenticated("client");
    state.connect(&connect).unwrap();
    assert!(state.waiting_for_responses());
    assert_eq!(state.connect(&connect), Err(ClientStateError::NotIdle));
}

#[test]
fn queue_client_uses_server_keep_alive() {
    let mut state = ClientStateQueue::new();
    let connect: Connect<'_, 0, 0> = Connect::unauthenticated("client");
    state.connect(&connect).unwrap();
    let connack: Connack<'_, 1> =
        Connack::new(false, ConnectReasonCode::Success, vec![ConnackProperty::ServerKeepAlive(10)]);
    state.receive::<1, 0, 0>(PacketGeneric::Connack(connack)).unwrap();
    match &state {
        ClientStateQueue::Connected(cs) => {
            assert_eq!(cs.info().keep_alive, 10);
            assert!(!cs.info().session_present);
        }
        _ => panic!("not connected"),
    }
}

#[test]
fn queue_client_refuses_session_present_for_clean_start() {
    let mut state = ClientStateQueue::new();
    let connect: Connect<'_, 0, 0> = Connect::unauthenticated("client");
    state.connect(&connect).unwrap();
    let connack: Connack<'_, 1> = Connack::new(true, ConnectReasonCode::Success, Vec::new());
    let r = state.receive::<1, 0, 0>(PacketGeneric::Connack(connack));
    assert!(matches!(r, Err(ClientStateError::UnexpectedSessionPresentForCleanStart)));
    assert!(matches!(state, ClientStateQueue::Connecting(_)));
}

#[test]
fn queue_client_reports_connect_error_code() {
    let mut state = ClientStateQueue::new();
    let connect: Connect<'_, 0, 0> = Connect::unauthenticated("client");
    state.connect(&connect).unwrap();
    let connack: Connack<'_, 1> = Connack::new(false, ConnectReasonCode::NotAuthorized, Vec::new());
    let r = state.receive::<1, 0, 0>(PacketGeneric::Connack(connack));
    assert!(matches!(r, Err(ClientStateError::Connect(ConnectReasonCode::NotAuthorized))));
}

#[test]
fn queue_client_gives_consecutive_identifiers() {
    let mut state = connected_state();
    let p1 = state.publish("t", b"a", QualityOfService::Qos1, false).unwrap();
    let p2 = state.publish("t", b"b", QualityOfService::Qos1, false).unwrap();
    assert_eq!(
        *p1.publish_packet_identifier(),
        PublishPacketIdentifier::Qos1(PacketIdentifier(1))
    );
    assert_eq!(
        *p2.publish_packet_identifier(),
        PublishPacketIdentifier::Qos1(PacketIdentifier(2))
    );
    let s = state.subscribe("s", QualityOfService::Qos1).unwrap();
    assert_eq!(*s.packet_identifier(), PacketIdentifier(3));
    let u = state.unsubscribe("s").unwrap();
    assert_eq!(*u.packet_identifier(), PacketIdentifier(4));
    assert!(state.waiting_for_responses());
}

#[test]
fn queue_client_publish_qos0_awaits_nothing() {
    let mut state = connected_state();
    let p = state.publish("t", b"a", QualityOfService::Qos0, true).unwrap();
    assert_eq!(*p.publish_packet_identifier(), PublishPacketIdentifier::Qos0);
    assert!(p.retain());
    assert!(!state.waiting_for_responses());
}

#[test]
fn queue_client_acknowledges_pubacks_in_any_order() {
    let mut state = connected_state();
    state.publish("t", b"a", QualityOfService::Qos1, false).unwrap();
    state.publish("t", b"b", QualityOfService::Qos1, false).unwrap();
    let r = state.receive(puback(2, PublishReasonCode::Success)).unwrap();
    assert!(matches!(r, ClientStateReceiveEvent::Ack));
    assert!(state.waiting_for_responses());
    let r = state.receive(puback(1, PublishReasonCode::NoMatchingSubscribers)).unwrap();
    assert!(matches!(r, ClientStateReceiveEvent::PublishedMessageHadNoMatchingSubscribers));
    assert!(!state.waiting_for_responses());
}

#[test]
fn queue_client_rejects_puback_with_unknown_identifier() {
    let mut state = connected_state();
    state.publish("t", b"a", QualityOfService::Qos1, false).unwrap();
    let r = state.receive(puback(7, PublishReasonCode::Success));
    assert!(matches!(r, Err(ClientStateError::UnexpectedPubackPacketIdentifier)));
    assert!(state.waiting_for_responses());
}

#[test]
fn queue_client_reports_puback_error_code() {
    let mut state = connected_state();
    state.publish("t", b"a", QualityOfService::Qos1, false).unwrap();
    let r = state.receive(puback(1, PublishReasonCode::NotAuthorized));
    assert!(matches!(r, Err(ClientStateError::Publish(PublishReasonCode::NotAuthorized))));
    assert!(!state.waiting_for_responses());
}

#[test]
fn queue_client_puback_for_subscription_is_unexpected() {
    let mut state = connected_state();
    state.subscribe("s", QualityOfService::Qos1).unwrap();
    let r = state.receive(puback(1, PublishReasonCode::Success));
    assert!(matches!(r, Err(ClientStateError::UnexpectedPubackPacketIdentifier)));
    assert!(!state.waiting_for_responses());
}

#[test]
fn queue_client_handles_suback() {
    let mut state = connected_state();
    state.subscribe("s", QualityOfService::Qos1).unwrap();
    let suback: Suback<'_, 1, 0> =
        Suback::new(PacketIdentifier(1), SubscribeReasonCode::Success, Vec::new(), Vec::new());
    let r = state.receive::<1, 0, 0>(PacketGeneric::Suback(suback)).unwrap();
    assert!(matches!(
        r,
        ClientStateReceiveEvent::SubscriptionGrantedBelowMaximumQos {
            granted_qos: QualityOfService::Qos0,
            maximum_qos: QualityOfService::Qos1
        }
    ));
    assert!(!state.waiting_for_responses());
}

#[test]
fn queue_client_handles_unsuback() {
    let mut state = connected_state();
    state.unsubscribe("s").unwrap();
    let unsuback: Unsuback<'_, 1, 0> = Unsuback::new(
        PacketIdentifier(1),
        UnsubscribeReasonCode::NoSubscriptionExisted,
        Vec::new(),
        Vec::new(),
    );
    let r = state.receive::<1, 0, 0>(PacketGeneric::Unsuback(unsuback)).unwrap();
    assert!(matches!(r, ClientStateReceiveEvent::NoSubscriptionExisted));
    assert!(!state.waiting_for_responses());
}

#[test]
fn queue_client_refuses_qos2() {
    let mut state = connected_state();
    let r = state.publish("t", b"a", QualityOfService::Qos2, false);
    assert!(matches!(r, Err(ClientStateError::Qos2NotSupported)));
    let r = state.subscribe("s", QualityOfService::Qos2);
    assert!(matches!(r, Err(ClientStateError::Qos2NotSupported)));
    assert!(!state.waiting_for_responses());
}

#[test]
fn queue_client_is_full_after_q_requests() {
    let mut state = connected_state();
    for _ in 0..Q {
        state.publish("t", b"a", QualityOfService::Qos1, false).unwrap();
    }
    let r = state.publish("t", b"a", QualityOfService::Qos1, false);
    assert!(matches!(r, Err(ClientStateError::ClientIsWaitingForResponse)));
    let r = state.subscribe("s", QualityOfService::Qos0);
    assert!(matches!(r, Err(ClientStateError::ClientIsWaitingForResponse)));
    // Quality of service 0 needs no response, so it is still possible
    state.publish("t", b"a", QualityOfService::Qos0, false).unwrap();
    // Freeing one entry makes room for one more request, which takes the next free identifier
    state.receive(puback(5, PublishReasonCode::Success)).unwrap();
    let p = state.publish("t", b"a", QualityOfService::Qos1, false).unwrap();
    assert_eq!(
        *p.publish_packet_identifier(),
        PublishPacketIdentifier::Qos1(PacketIdentifier(129))
    );
}

#[test]
fn queue_client_skips_identifiers_in_use() {
    let mut state = connected_state();
    for _ in 0..3 {
        state.publish("t", b"a", QualityOfService::Qos1, false).unwrap();
    }
    state.receive(puback(2, PublishReasonCode::Success)).unwrap();
    let p = state.publish("t", b"a", QualityOfService::Qos1, false).unwrap();
    assert_eq!(
        *p.publish_packet_identifier(),
        PublishPacketIdentifier::Qos1(PacketIdentifier(4))
    );
}

#[test]
fn queue_client_ping_and_pingresp() {
    let mut state = connected_state();
    state.send_ping().unwrap();
    state.send_ping().unwrap();
    assert_eq!(state.pending_ping_count(), 2);
    let r = state.receive::<1, 0, 0>(PacketGeneric::Pingresp(Pingresp::new())).unwrap();
    assert!(matches!(r, ClientStateReceiveEvent::Ack));
    assert_eq!(state.pending_ping_count(), 1);
    state.receive::<1, 0, 0>(PacketGeneric::Pingresp(Pingresp::new())).unwrap();
    let r = state.receive::<1, 0, 0>(PacketGeneric::Pingresp(Pingresp::new()));
    assert!(matches!(r, Err(ClientStateError::UnexpectedPingresp)));
}

#[test]
fn queue_client_not_connected_errors() {
    let mut state = ClientStateQueue::new();
    assert!(matches!(
        state.publish("t", b"a", QualityOfService::Qos0, false),
        Err(ClientStateError::NotConnected)
    ));
    assert!(matches!(state.send_ping(), Err(ClientStateError::NotConnected)));
    assert!(matches!(state.disconnect(), Err(ClientStateError::NotConnected)));
    let r = state.receive::<1, 0, 0>(PacketGeneric::Pingresp(Pingresp::new()));
    assert!(matches!(r, Err(ClientStateError::ReceiveWhenNotConnectedOrConnecting)));
}

#[test]
fn queue_client_disconnects_and_errors() {
    let mut state = connected_state();
    state.disconnect().unwrap();
    assert!(matches!(state, ClientStateQueue::Disconnected));
    state.error();
    assert!(matches!(state, ClientStateQueue::Errored));
}

#[test]
fn queue_client_rejects_connack_when_connected() {
    let mut state = connected_state();
    let connack: Connack<'_, 1> = Connack::new(false, ConnectReasonCode::Success, Vec::new());
    let r = state.receive::<1, 0, 0>(PacketGeneric::Connack(connack));
    assert!(matches!(r, Err(ClientStateError::ReceivedConnackWhenNotConnecting)));
}

#[test]
fn packet_identifier_default_is_one() {
    assert_eq!(PacketIdentifier::default(), PacketIdentifier(1));
}

#[test]
fn packet_identifier_increment_skips_zero() {
    let mut id = PacketIdentifier(65534);
    id.increment_wrapping();
    assert_eq!(id, PacketIdentifier(65535));
    id.increment_wrapping();
    assert_eq!(id, PacketIdentifier(1));
}
