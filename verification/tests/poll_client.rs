use mountain_mqtt::client::{ClientError, ClientReceivedEvent, ConnectionSettings};
use mountain_mqtt::client_state::{ClientStateError, ClientStateNoQueue};
use mountain_mqtt::data::packet_identifier::PacketIdentifier;
use mountain_mqtt::data::reason_code::{ConnectReasonCode, DisconnectReasonCode};
use mountain_mqtt::message_io::PacketBin;
use mountain_mqtt::poll_client::PollClient;
use mountain_mqtt::poll_timing::{PollTimers, Settings};

const CONNACK_SUCCESS: [u8; 5] = [0x20, 0x03, 0x00, 0x00, 0x00];
const CONNACK_NOT_AUTHORIZED: [u8; 5] = [0x20, 0x03, 0x00, 0x87, 0x00];
// Publish at quality of service 0 to "a/b" with payload "hi"
const PUBLISH_QOS0: [u8; 9] = [0x30, 0x07, 0x00, 0x03, b'a', b'/', b'b', 0x00, b'h'];
// Publish at quality of service 1 to "a/b", packet identifier 7, payload "hi"
const PUBLISH_QOS1: [u8; 12] = [0x32, 0x0a, 0x00, 0x03, b'a', b'/', b'b', 0x00, 0x07, 0x00, b'h', b'i'];
// Publish at quality of service 0 with an empty topic name
const PUBLISH_EMPTY_TOPIC: [u8; 5] = [0x30, 0x03, 0x00, 0x00, 0x00];
const DISCONNECT_SHUTTING_DOWN: [u8; 4] = [0xe0, 0x02, 0x8b, 0x00];
const PINGRESP: [u8; 2] = [0xd0, 0x00];

fn connecting_client() -> PollClient<64, 4> {
    let mut client: PollClient<64, 4> = PollClient::new(Settings::default());
    let settings = ConnectionSettings::unauthenticated("poll");
    assert_eq!(client.client_state.connect(&settings.connect_packet()), Ok(()));
    client.timers.connect_sent(100);
    client
}

fn connected_client() -> PollClient<64, 4> {
    let mut client = connecting_client();
    let bin: PacketBin<64> = PacketBin::new(&CONNACK_SUCCESS).ok().unwrap();
    assert_eq!(client.handle_connect_response::<()>(&bin), Ok(()));
    client
}

#[test]
fn poll_client_new_is_idle() {
    let client: PollClient<64, 4> = PollClient::new(Settings::default());
    assert_eq!(client.client_state, ClientStateNoQueue::Idle);
    assert_eq!(client.timers.ping_interval_start, None);
    assert_eq!(client.timers.receive_timeout_start, None);
}

#[test]
fn poll_client_connack_starts_pings_from_connect() {
    let client = connected_client();
    assert!(matches!(client.client_state, ClientStateNoQueue::Connected(_)));
    assert_eq!(client.timers.ping_interval_start, Some(100));
    assert_eq!(client.timers.connection_start, Some(100));
}

#[test]
fn poll_client_connack_refused() {
    let mut client = connecting_client();
    let bin: PacketBin<64> = PacketBin::new(&CONNACK_NOT_AUTHORIZED).ok().unwrap();
    assert_eq!(
        client.handle_connect_response::<()>(&bin),
        Err(ClientError::ClientState(ClientStateError::Connect(ConnectReasonCode::NotAuthorized)))
    );
    assert_eq!(client.timers.ping_interval_start, None);
}

#[test]
fn poll_client_publish_while_connecting_is_refused() {
    let mut client = connecting_client();
    let bin: PacketBin<64> = PacketBin::new(&PUBLISH_QOS0).ok().unwrap();
    assert_eq!(
        client.handle_connect_response::<()>(&bin),
        Err(ClientError::ClientState(ClientStateError::ReceivedPacketOtherThanConnackOrAuthWhenConnecting))
    );
}

#[test]
fn poll_client_receives_qos0_message() {
    let mut client = connected_client();
    let bin: PacketBin<64> = PacketBin::new(&PUBLISH_QOS0).ok().unwrap();
    match client.handle_packet_bin::<()>(&bin) {
        Ok((ClientReceivedEvent::ApplicationMessage(m), None)) => {
            assert_eq!(m.topic_name, "a/b");
            assert_eq!(m.payload, b"h");
        }
        other => panic!("unexpected {:?}", other),
    }
}

#[test]
fn poll_client_receives_qos1_message_with_puback() {
    let mut client = connected_client();
    let bin: PacketBin<64> = PacketBin::new(&PUBLISH_QOS1).ok().unwrap();
    match client.handle_packet_bin::<()>(&bin) {
        Ok((ClientReceivedEvent::ApplicationMessage(m), Some(puback))) => {
            assert_eq!(m.topic_name, "a/b");
            assert_eq!(m.payload, b"hi");
            assert_eq!(*puback.packet_identifier(), PacketIdentifier(7));
        }
        other => panic!("unexpected {:?}", other),
    }
}

#[test]
fn poll_client_empty_topic_is_an_error() {
    let mut client = connected_client();
    let bin: PacketBin<64> = PacketBin::new(&PUBLISH_EMPTY_TOPIC).ok().unwrap();
    assert!(matches!(
        client.handle_packet_bin::<()>(&bin),
        Err(ClientError::EmptyTopicNameWithAliasesDisabled)
    ));
}

#[test]
fn poll_client_disconnect_ends_connection() {
    let mut client = connected_client();
    let bin: PacketBin<64> = PacketBin::new(&DISCONNECT_SHUTTING_DOWN).ok().unwrap();
    assert!(matches!(
        client.handle_packet_bin::<()>(&bin),
        Err(ClientError::Disconnected(DisconnectReasonCode::ServerShuttingDown))
    ));
}

#[test]
fn poll_client_unexpected_pingresp() {
    let mut client = connected_client();
    let bin: PacketBin<64> = PacketBin::new(&PINGRESP).ok().unwrap();
    assert!(matches!(
        client.handle_packet_bin::<()>(&bin),
        Err(ClientError::ClientState(ClientStateError::UnexpectedPingresp))
    ));
}

#[test]
fn poll_client_undecodable_bytes_leave_state() {
    let mut client = connected_client();
    let before = client.client_state;
    let bin: PacketBin<64> = PacketBin::new(&[0x30, 0x05, 0x00]).ok().unwrap();
    assert!(matches!(
        client.handle_packet_bin::<()>(&bin),
        Err(ClientError::PacketRead(_))
    ));
    assert_eq!(client.client_state, before);
}

#[test]
fn poll_timers_ping_only_when_interval_elapsed() {
    let settings = Settings::default();
    let mut timers = PollTimers::new();
    assert!(!timers.ping_if_needed(100_000, &settings));
    timers.connect_sent(1_000);
    timers.connected();
    assert!(!timers.ping_if_needed(3_000, &settings));
    assert!(timers.ping_if_needed(3_001, &settings));
    timers.ping_sent(3_001);
    assert!(!timers.ping_if_needed(3_002, &settings));
}
