use mountain_mqtt::client::wait_for_responses_step;
use mountain_mqtt::data::property::ConnectProperty;
use mountain_mqtt::packets::connect::{Connect, Will};
use mountain_mqtt::client::{client_event, ClientError, ClientReceivedEvent, ConnectionSettings};
use mountain_mqtt::client_state::{ClientStateError, ClientStateReceiveEvent};
use mountain_mqtt::codec::framing::{check_first_header_byte, frame_remaining_length, length_continues};
use mountain_mqtt::data::fixed_header_first_byte::FixedHeaderFirstByte;
use mountain_mqtt::data::packet_identifier::{PacketIdentifier, PublishPacketIdentifier};
use mountain_mqtt::data::packet_type::PacketType;
use mountain_mqtt::data::quality_of_service::QualityOfService;
use mountain_mqtt::data::reason_code::{DisconnectReasonCode, PublishReasonCode};
use mountain_mqtt::error::{Error, PacketReadError, PacketWriteError};
use mountain_mqtt::message_io::{Error as BinError, PacketBin};
use mountain_mqtt::messages::{bytes_equal, led_event, Action, Event, TOPIC_BUTTON, TOPIC_LED};
use mountain_mqtt::client::EventHandlerError;
use mountain_mqtt::mqtt_manager::ConnectionId;
use mountain_mqtt::packet_client::PacketClient;
use mountain_mqtt::packets::disconnect::Disconnect;
use mountain_mqtt::packets::packet_generic::PacketGeneric;
use mountain_mqtt::packets::pingreq::Pingreq;
use mountain_mqtt::packets::puback::Puback;
use mountain_mqtt::packets::publish::{ApplicationMessage, Publish};

const ENCODED_CONNECT_TOPIC_ALIAS_MAXIMUM_0: [u8; 18] = [
    0x10, 0x10, 0x00, 0x04, 0x4d, 0x51, 0x54, 0x54, 0x05, 0x02, 0x00, 0x3c, 0x03, 0x22, 0x00,
    0x00, 0x00, 0x00,
];

#[test]
fn connection_settings_connect_packet_disables_topic_aliases() {
    let settings = ConnectionSettings::unauthenticated("");
    let packet = settings.connect_packet();
    let mut client = PacketClient::new((), vec![0u8; 64]);
    let len = client.encode(&packet).unwrap();
    assert_eq!(&client.buf[0..len], &ENCODED_CONNECT_TOPIC_ALIAS_MAXIMUM_0[..]);
}

#[test]
fn packet_client_encodes_pingreq() {
    let mut client = PacketClient::new((), vec![0u8; 8]);
    let len = client.encode(&Pingreq::new()).unwrap();
    assert_eq!(&client.buf[0..len], &[0xC0, 0x00]);
    assert_eq!(client.buf.len(), 8);
}

#[test]
fn packet_client_encode_overflows_small_buffer() {
    let mut client = PacketClient::new((), vec![0u8; 1]);
    assert_eq!(client.encode(&Pingreq::new()), Err(PacketWriteError::Overflow));
}

#[test]
fn packet_client_decodes_pingresp() {
    let client = PacketClient::new((), vec![0xD0, 0x00, 0xFF]);
    let packet: PacketGeneric<'_, 1, 0, 0> = client.decode(2).unwrap();
    assert!(matches!(packet, PacketGeneric::Pingresp(_)));
}

#[test]
fn packet_client_decode_rejects_invalid_packet_type() {
    let client = PacketClient::new((), vec![0x00, 0x00]);
    let r: Result<PacketGeneric<'_, 1, 0, 0>, _> = client.decode(2);
    assert!(matches!(r, Err(PacketReadError::InvalidPacketType)));
}

#[test]
fn framing_checks_first_header_byte() {
    assert_eq!(check_first_header_byte(0xC0), Ok(()));
    assert_eq!(check_first_header_byte(0x30), Ok(()));
    assert_eq!(check_first_header_byte(0x3D), Ok(()));
    assert_eq!(check_first_header_byte(0xC1), Err(PacketReadError::InvalidPacketType));
    assert_eq!(check_first_header_byte(0x00), Err(PacketReadError::InvalidPacketType));
}

#[test]
fn framing_reads_length_bytes() {
    assert_eq!(length_continues(&[0x10]), Ok(false));
    assert_eq!(length_continues(&[0x80]), Ok(true));
    assert_eq!(length_continues(&[0x80, 0x80, 0x80]), Ok(true));
    assert_eq!(length_continues(&[0x80, 0x80, 0x01]), Ok(false));
    assert_eq!(
        length_continues(&[0x80, 0x80, 0x80, 0x80]),
        Err(PacketReadError::InvalidVariableByteIntegerEncoding)
    );
}

#[test]
fn framing_decodes_remaining_length() {
    assert_eq!(frame_remaining_length(&[0x10], 2, 18), Ok(16));
    assert_eq!(
        frame_remaining_length(&[0x10], 2, 17),
        Err(PacketReadError::PacketTooLargeForBuffer)
    );
    assert_eq!(frame_remaining_length(&[0x80, 0x01], 3, 1000), Ok(128));
    assert_eq!(frame_remaining_length(&[0x00], 2, 2), Ok(0));
}

#[test]
fn packet_bin_holds_message_data() {
    let bin: PacketBin<4> = PacketBin::new(&[1, 2, 3]).unwrap();
    assert_eq!(bin.msg_data(), &[1, 2, 3]);
    let empty: PacketBin<4> = PacketBin::new(&[]).unwrap();
    assert_eq!(empty.msg_data(), &[] as &[u8]);
    let full: PacketBin<4> = PacketBin::new(&[1, 2, 3, 4]).unwrap();
    assert_eq!(full.msg_data(), &[1, 2, 3, 4]);
}

#[test]
fn packet_bin_too_large() {
    let r: Result<PacketBin<2>, BinError> = PacketBin::new(&[1, 2, 3]);
    assert!(matches!(r, Err(BinError::PacketBinTooLarge)));
}

#[test]
fn fixed_header_first_byte_roundtrip() {
    let types = [
        (PacketType::Connect, 0x10),
        (PacketType::Connack, 0x20),
        (PacketType::Publish, 0x30),
        (PacketType::Puback, 0x40),
        (PacketType::Pubrec, 0x50),
        (PacketType::Pubrel, 0x62),
        (PacketType::Pubcomp, 0x70),
        (PacketType::Subscribe, 0x82),
        (PacketType::Suback, 0x90),
        (PacketType::Unsubscribe, 0xA2),
        (PacketType::Unsuback, 0xB0),
        (PacketType::Pingreq, 0xC0),
        (PacketType::Pingresp, 0xD0),
        (PacketType::Disconnect, 0xE0),
        (PacketType::Auth, 0xF0),
    ];
    for (t, b) in types {
        let f: FixedHeaderFirstByte = t.into();
        assert_eq!(f, FixedHeaderFirstByte::from_packet_type(t));
        assert_eq!(f.to_packet_type(), Ok(t));
        assert_eq!(b, t.to_u8());
    }
    let _ = Error::InvalidFixedHeaderFirstByte;
}

#[test]
fn connection_id_compares_by_number() {
    assert_eq!(ConnectionId::new(3), ConnectionId::new(3));
    assert_ne!(ConnectionId::new(3), ConnectionId::new(4));
}

#[test]
fn client_event_ack() {
    let r: Result<_, ClientError<()>> = client_event::<(), 0>(ClientStateReceiveEvent::Ack);
    assert!(matches!(r, Ok((ClientReceivedEvent::Ack, None))));
}

#[test]
fn client_event_publish_gives_application_message() {
    let publish: Publish<'_, 0> =
        Publish::new(false, true, "a/b", PublishPacketIdentifier::Qos0, b"hi", Vec::new());
    let r = client_event::<(), 0>(ClientStateReceiveEvent::Publish { publish });
    match r {
        Ok((ClientReceivedEvent::ApplicationMessage(m), None)) => {
            assert_eq!(m.topic_name, "a/b");
            assert_eq!(m.payload, b"hi");
            assert_eq!(m.qos, QualityOfService::Qos0);
            assert!(m.retain);
        }
        _ => panic!("expected an application message"),
    }
}

#[test]
fn client_event_publish_qos1_gives_puback_to_send() {
    let publish: Publish<'_, 0> = Publish::new(
        false,
        false,
        "a",
        PublishPacketIdentifier::Qos1(PacketIdentifier(9)),
        b"x",
        Vec::new(),
    );
    let puback: Puback<'_, 0> = Puback::new(PacketIdentifier(9), PublishReasonCode::Success, Vec::new());
    let r = client_event::<(), 0>(ClientStateReceiveEvent::PublishAndPuback { publish, puback });
    match r {
        Ok((ClientReceivedEvent::ApplicationMessage(m), Some(p))) => {
            assert_eq!(m.qos, QualityOfService::Qos1);
            assert_eq!(*p.packet_identifier(), PacketIdentifier(9));
        }
        _ => panic!("expected an application message and a puback"),
    }
}

#[test]
fn client_event_rejects_empty_topic() {
    let publish: Publish<'_, 0> =
        Publish::new(false, false, "", PublishPacketIdentifier::Qos0, b"x", Vec::new());
    let r = client_event::<(), 0>(ClientStateReceiveEvent::Publish { publish });
    assert!(matches!(r, Err(ClientError::EmptyTopicNameWithAliasesDisabled)));
}

#[test]
fn client_event_disconnect_ends_connection() {
    let disconnect: Disconnect<'_, 0> = Disconnect::new(DisconnectReasonCode::ServerShuttingDown, Vec::new());
    let r = client_event::<(), 0>(ClientStateReceiveEvent::Disconnect { disconnect });
    assert!(matches!(r, Err(ClientError::Disconnected(DisconnectReasonCode::ServerShuttingDown))));
}

#[test]
fn client_error_from_errors() {
    let e: ClientError<()> = ClientStateError::NotIdle.into();
    assert_eq!(e, ClientError::ClientState(ClientStateError::NotIdle));
    let e: ClientError<()> = PacketReadError::InsufficientData.into();
    assert_eq!(e, ClientError::PacketRead(PacketReadError::InsufficientData));
    let e: ClientError<()> = PacketWriteError::Overflow.into();
    assert_eq!(e, ClientError::PacketWrite(PacketWriteError::Overflow));
}

#[test]
fn action_publishes_button_state() {
    let (topic, payload, qos, retain) = Action::Button(true).publication();
    assert_eq!(topic, TOPIC_BUTTON);
    assert_eq!(payload, "true");
    assert_eq!(qos, QualityOfService::Qos1);
    assert!(!retain);
    let (_, payload, _, _) = Action::Button(false).publication();
    assert_eq!(payload, "false");
}

fn led_message<'a>(topic: &'a str, payload: &'a [u8]) -> ApplicationMessage<'a, 0> {
    ApplicationMessage {
        topic_name: topic,
        payload,
        qos: QualityOfService::Qos1,
        retain: false,
        properties: Vec::new(),
    }
}

#[test]
fn event_reads_led_state() {
    assert_eq!(Event::from_application_message(&led_message(TOPIC_LED, b"true")), Ok(Event::Led(true)));
    assert_eq!(Event::from_application_message(&led_message(TOPIC_LED, b"false")), Ok(Event::Led(false)));
    assert_eq!(
        Event::from_application_message(&led_message(TOPIC_LED, b" \n true\t ")),
        Ok(Event::Led(true))
    );
}

#[test]
fn event_rejects_invalid_payload() {
    for payload in [&b"1"[..], b"", b"tru", b"truex", b"\"true\"", b"true false"] {
        assert_eq!(
            Event::from_application_message(&led_message(TOPIC_LED, payload)),
            Err(EventHandlerError::InvalidApplicationMessage)
        );
    }
}

#[test]
fn event_rejects_other_topic() {
    assert_eq!(
        Event::from_application_message(&led_message(TOPIC_BUTTON, b"true")),
        Err(EventHandlerError::UnexpectedApplicationMessageTopic)
    );
}

#[test]
fn led_event_from_parsed_payload() {
    assert_eq!(led_event(Some(true)), Ok(Event::Led(true)));
    assert_eq!(led_event(None), Err(EventHandlerError::InvalidApplicationMessage));
}

#[test]
fn bytes_equal_compares_bytes() {
    assert!(bytes_equal(b"abc", b"abc"));
    assert!(!bytes_equal(b"abc", b"abd"));
    assert!(!bytes_equal(b"abc", b"ab"));
    assert!(bytes_equal(b"", b""));
}

#[test]
fn connection_settings_getters() {
    let settings = ConnectionSettings::unauthenticated("device");
    assert_eq!(settings.keep_alive(), 60);
    assert_eq!(*settings.username(), None);
    assert_eq!(*settings.password(), None);
    assert_eq!(settings.client_id(), "device");
}

#[test]
fn connection_settings_connect_packet_with_will() {
    let settings = ConnectionSettings::unauthenticated("device");
    let will: Will<'_, 0> = Will::new(QualityOfService::Qos1, false, "status", b"gone", Vec::new());
    let packet = settings.connect_packet_with_will(Some(will));
    let expected: Connect<'_, 1, 0> = Connect::new(
        60,
        None,
        None,
        "device",
        true,
        Some(Will::new(QualityOfService::Qos1, false, "status", b"gone", Vec::new())),
        vec![ConnectProperty::TopicAliasMaximum(0)],
    );
    assert_eq!(packet, expected);
}

#[test]
fn wait_for_responses_step_decisions() {
    assert!(matches!(wait_for_responses_step::<()>(false, 0, 10), Ok(false)));
    assert!(matches!(wait_for_responses_step::<()>(false, 11, 10), Ok(false)));
    assert!(matches!(wait_for_responses_step::<()>(true, 10, 10), Ok(true)));
    assert!(matches!(
        wait_for_responses_step::<()>(true, 11, 10),
        Err(ClientError::TimeoutOnResponsePacket)
    ));
}

#[test]
fn delay_embedded_holds_its_delay() {
    let mut d = mountain_mqtt::delay::DelayEmbedded::new(5u32);
    assert_eq!(*d.inner(), 5);
    *d.inner_mut() = 6;
    assert_eq!(d.into_inner(), 6);
}
