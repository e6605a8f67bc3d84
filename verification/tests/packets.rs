use core::fmt::Debug;

use mountain_mqtt::codec::mqtt_reader::MqttBufReader;
use mountain_mqtt::codec::mqtt_writer::{MqttBufWriter, MqttLenWriter, MqttWriter};
use mountain_mqtt::codec::write::Write;
use mountain_mqtt::data::property::PropertyContext;
use mountain_mqtt::data::packet_identifier::{PacketIdentifier, PublishPacketIdentifier};
use mountain_mqtt::data::property::{
    ConnackProperty, ConnectProperty, DisconnectProperty, Property, PublishProperty,
    SubscribeProperty, UnsubackProperty, UnsubscribeProperty, WillProperty,
};
use mountain_mqtt::data::quality_of_service::QualityOfService;
use mountain_mqtt::data::reason_code::{
    ConnectReasonCode, DisconnectReasonCode, UnsubscribeReasonCode,
};
use mountain_mqtt::data::string_pair::StringPair;
use mountain_mqtt::data::subscription_options::{RetainHandling, SubscriptionOptions};
use mountain_mqtt::error::PacketReadError;
use mountain_mqtt::packets::connack::Connack;
use mountain_mqtt::packets::connect::{Connect, Will};
use mountain_mqtt::packets::disconnect::Disconnect;
use mountain_mqtt::packets::packet::{read_packet, PacketRead, PacketWrite};
use mountain_mqtt::packets::pingreq::Pingreq;
use mountain_mqtt::packets::publish::Publish;
use mountain_mqtt::packets::subscribe::{Subscribe, SubscriptionRequest};
use mountain_mqtt::packets::unsuback::Unsuback;
use mountain_mqtt::packets::unsubscribe::Unsubscribe;

fn encode_and_check<P: PacketWrite>(packet: &P, encoded: &[u8]) {
    let mut w = MqttBufWriter::new(vec![0u8; encoded.len()]);
    packet.write(&mut w).unwrap();
    assert_eq!(w.contents(), encoded);
}

fn decode_and_check<'a, P: PacketRead<'a> + PartialEq + Debug>(packet: &P, encoded: &'a [u8]) {
    let mut r = MqttBufReader::new(encoded);
    let read: P = read_packet(&mut r).unwrap();
    assert_eq!(&read, packet);
    assert_eq!(r.position(), encoded.len());
    assert_eq!(r.remaining(), 0);
}

fn encode_decode_and_check<'a, P: PacketWrite + PacketRead<'a> + PartialEq + Debug>(
    packet: &P,
    encoded: &'a [u8],
) {
    encode_and_check(packet, encoded);
    decode_and_check(packet, encoded);
}

// Connect

fn example_connect<'a>() -> Connect<'a, 1, 0> {
    let mut packet = Connect::new(60, None, None, "", true, None, Vec::new());
    packet.properties.push(ConnectProperty::ReceiveMaximum(20));
    packet
}

const CONNECT_DATA: [u8; 18] = [
    0x10, 0x10, 0x00, 0x04, 0x4d, 0x51, 0x54, 0x54, 0x05, 0x02, 0x00, 0x3c, 0x03, 0x21, 0x00,
    0x14, 0x00, 0x00,
];

// As CONNECT_DATA, but with a remaining length one too short
const CONNECT_DATA_INCORRECT_PACKET_LENGTH: [u8; 18] = [
    0x10, 0x0F, 0x00, 0x04, 0x4d, 0x51, 0x54, 0x54, 0x05, 0x02, 0x00, 0x3c, 0x03, 0x21, 0x00,
    0x14, 0x00, 0x00,
];

// As CONNECT_DATA, but with the reserved bit 0 of the connect flags set
const CONNECT_DATA_INVALID_CONNECT_FLAGS_BIT0_SET: [u8; 18] = [
    0x10, 0x10, 0x00, 0x04, 0x4d, 0x51, 0x54, 0x54, 0x05, 0x03, 0x00, 0x3c, 0x03, 0x21, 0x00,
    0x14, 0x00, 0x00,
];

fn example_connect_will<'a>() -> Connect<'a, 1, 1> {
    let will = Will::new(
        QualityOfService::Qos2,
        true,
        "wt",
        &[1, 2, 3],
        vec![WillProperty::MessageExpiryInterval(12345)],
    );
    let mut packet = Connect::new(60, None, None, "", true, Some(will), Vec::new());
    packet.properties.push(ConnectProperty::ReceiveMaximum(20));
    packet
}

const CONNECT_DATA_WILL: [u8; 33] = [
    0x10, 0x1F, 0x00, 0x04, 0x4d, 0x51, 0x54, 0x54, 0x05,
    // connect flags: clean start, will, will qos 2, will retain
    0b0011_0110, 0x00, 0x3c, 0x03, 0x21, 0x00, 0x14, 0x00, 0x00,
    // will properties
    0x05, 0x02, 0x00, 0x00, 0x30, 0x39,
    // will topic, will payload
    0x00, 0x02, 0x77, 0x74, 0x00, 0x03, 0x01, 0x02, 0x03,
];

const CONNECT_DATA_WILL_INVALID_QOS: [u8; 33] = [
    0x10, 0x1F, 0x00, 0x04, 0x4d, 0x51, 0x54, 0x54, 0x05,
    // connect flags: will qos bits hold the invalid value 3
    0b0011_1110, 0x00, 0x3c, 0x03, 0x21, 0x00, 0x14, 0x00, 0x00, 0x05, 0x02, 0x00, 0x00, 0x30,
    0x39, 0x00, 0x02, 0x77, 0x74, 0x00, 0x03, 0x01, 0x02, 0x03,
];

fn example_connect_will2<'a>() -> Connect<'a, 1, 1> {
    let will = Will::new(
        QualityOfService::Qos1,
        false,
        "tw",
        &[3, 2, 1],
        vec![WillProperty::MessageExpiryInterval(12345)],
    );
    let mut packet = Connect::new(
        60,
        Some("user1"),
        Some(&[0x42, 0x84]),
        "",
        false,
        Some(will),
        Vec::new(),
    );
    packet.properties.push(ConnectProperty::ReceiveMaximum(20));
    packet
}

const CONNECT_DATA_WILL2: [u8; 44] = [
    0x10, 0x2A, 0x00, 0x04, 0x4d, 0x51, 0x54, 0x54, 0x05,
    // connect flags: will, will qos 1, password, username
    0b1100_1100, 0x00, 0x3c, 0x03, 0x21, 0x00, 0x14, 0x00, 0x00, 0x05, 0x02, 0x00, 0x00, 0x30,
    0x39, 0x00, 0x02, 0x74, 0x77, 0x00, 0x03, 0x03, 0x02, 0x01,
    // user name, password
    0x00, 0x05, 0x75, 0x73, 0x65, 0x72, 0x31, 0x00, 0x02, 0x42, 0x84,
];

const CONNECT_DATA_USERNAME: [u8; 24] = [
    0x10, 0x16, 0x00, 0x04, 0x4d, 0x51, 0x54, 0x54, 0x05, 0x82, 0x00, 0x3c, 0x03, 0x21, 0x00,
    0x14, 0x00, 0x00, 0x00, 0x04, 0x75, 0x73, 0x65, 0x72,
];

const CONNECT_DATA_USERNAME_PASSWORD: [u8; 30] = [
    0x10, 0x1C, 0x00, 0x04, 0x4d, 0x51, 0x54, 0x54, 0x05, 0xC2, 0x00, 0x3c, 0x03, 0x21, 0x00,
    0x14, 0x00, 0x00, 0x00, 0x04, 0x75, 0x73, 0x65, 0x72, 0x00, 0x04, 0x70, 0x61, 0x73, 0x73,
];

const CONNECT_DATA_CLIENTID_USERNAME_PASSWORD: [u8; 36] = [
    0x10, 0x22, 0x00, 0x04, 0x4d, 0x51, 0x54, 0x54, 0x05, 0xC2, 0x00, 0x3c, 0x03, 0x21, 0x00,
    0x14, 0x00, 0x06, 0x63, 0x6c, 0x69, 0x65, 0x6e, 0x74, 0x00, 0x04, 0x75, 0x73, 0x65, 0x72,
    0x00, 0x04, 0x70, 0x61, 0x73, 0x73,
];

const CONNECT_DATA_WILL_QOS_WITHOUT_WILL_FLAG: [u8; 33] = [
    0x10, 0x1F, 0x00, 0x04, 0x4d, 0x51, 0x54, 0x54, 0x05,
    // connect flags: clean start, no will, will qos 2
    0b0001_1010, 0x00, 0x3c, 0x03, 0x21, 0x00, 0x14, 0x00, 0x00, 0x05, 0x02, 0x00, 0x00, 0x30,
    0x39, 0x00, 0x02, 0x77, 0x74, 0x00, 0x03, 0x01, 0x02, 0x03,
];

const CONNECT_DATA_WILL_RETAIN_WITHOUT_WILL_FLAG: [u8; 33] = [
    0x10, 0x1F, 0x00, 0x04, 0x4d, 0x51, 0x54, 0x54, 0x05,
    // connect flags: clean start, no will, will retain
    0b0010_0010, 0x00, 0x3c, 0x03, 0x21, 0x00, 0x14, 0x00, 0x00, 0x05, 0x02, 0x00, 0x00, 0x30,
    0x39, 0x00, 0x02, 0x77, 0x74, 0x00, 0x03, 0x01, 0x02, 0x03,
];

#[test]
fn error_on_decoding_data_with_incorrect_packet_length() {
    let mut r = MqttBufReader::new(&CONNECT_DATA_INCORRECT_PACKET_LENGTH);
    assert_eq!(
        Connect::<16, 16>::read(&mut r),
        Err(PacketReadError::IncorrectPacketLength)
    );
}

#[test]
fn error_on_decoding_data_with_will_qos_not_zero_but_no_will_flag() {
    let mut r = MqttBufReader::new(&CONNECT_DATA_WILL_QOS_WITHOUT_WILL_FLAG);
    assert_eq!(
        Connect::<16, 16>::read(&mut r),
        Err(PacketReadError::WillQosSpecifiedWithoutWill)
    );
}

#[test]
fn error_on_decoding_data_with_will_retain_set_but_no_will_flag() {
    let mut r = MqttBufReader::new(&CONNECT_DATA_WILL_RETAIN_WITHOUT_WILL_FLAG);
    assert_eq!(
        Connect::<16, 16>::read(&mut r),
        Err(PacketReadError::WillRetainSpecifiedWithoutWill)
    );
}

#[test]
fn error_on_decoding_invalid_connect_flags_with_bit0_set() {
    let mut r = MqttBufReader::new(&CONNECT_DATA_INVALID_CONNECT_FLAGS_BIT0_SET);
    assert_eq!(
        Connect::<16, 16>::read(&mut r),
        Err(PacketReadError::InvalidConnectFlags)
    );
}

#[test]
fn error_on_decoding_invalid_connect_flags_with_invalid_will_qos() {
    let mut r = MqttBufReader::new(&CONNECT_DATA_WILL_INVALID_QOS);
    assert_eq!(
        Connect::<16, 16>::read(&mut r),
        Err(PacketReadError::InvalidQosValue)
    );
}

#[test]
fn connect_encode_example() {
    encode_decode_and_check(&example_connect(), &CONNECT_DATA);
}

#[test]
fn connect_encode_example_username() {
    let mut packet: Connect<'_, 1, 0> =
        Connect::new(60, Some("user"), None, "", true, None, Vec::new());
    packet.properties.push(ConnectProperty::ReceiveMaximum(20));
    encode_decode_and_check(&packet, &CONNECT_DATA_USERNAME);
}

#[test]
fn connect_encode_example_username_password() {
    let mut packet: Connect<'_, 1, 0> = Connect::new(
        60,
        Some("user"),
        Some("pass".as_bytes()),
        "",
        true,
        None,
        Vec::new(),
    );
    packet.properties.push(ConnectProperty::ReceiveMaximum(20));
    encode_decode_and_check(&packet, &CONNECT_DATA_USERNAME_PASSWORD);
}

#[test]
fn connect_encode_example_clientid_username_password() {
    let mut packet: Connect<'_, 1, 0> = Connect::new(
        60,
        Some("user"),
        Some("pass".as_bytes()),
        "client",
        true,
        None,
        Vec::new(),
    );
    packet.properties.push(ConnectProperty::ReceiveMaximum(20));
    encode_decode_and_check(&packet, &CONNECT_DATA_CLIENTID_USERNAME_PASSWORD);
}

#[test]
fn encode_example_will() {
    encode_decode_and_check(&example_connect_will(), &CONNECT_DATA_WILL);
}

#[test]
fn encode_example_will2() {
    encode_decode_and_check(&example_connect_will2(), &CONNECT_DATA_WILL2);
}

#[test]
fn connect_unauthenticated_has_defaults() {
    let packet = Connect::unauthenticated("id");
    assert_eq!(packet.keep_alive(), 60);
    assert!(packet.clean_start());
    assert_eq!(packet.connect_flags(), 0x02);
}

#[test]
fn connect_with_unsupported_protocol_version_is_refused() {
    let mut data = CONNECT_DATA;
    data[8] = 0x04;
    let mut r = MqttBufReader::new(&data);
    assert_eq!(
        Connect::<16, 16>::read(&mut r),
        Err(PacketReadError::UnsupportedProtocolVersion)
    );
}

// Connack

const CONNACK_DATA: [u8; 8] = [0x20, 0x06, 0x01, 0x9D, 0x03, 0x21, 0x00, 0x15];

fn example_connack<'a>() -> Connack<'a, 2> {
    Connack::new(
        true,
        ConnectReasonCode::ServerMoved,
        vec![ConnackProperty::ReceiveMaximum(21)],
    )
}

#[test]
fn connack_encode_example() {
    encode_and_check(&example_connack(), &CONNACK_DATA);
}

#[test]
fn connack_decode_example() {
    let mut r = MqttBufReader::new(&CONNACK_DATA);
    assert_eq!(Connack::read(&mut r).unwrap(), example_connack());
}

#[test]
fn connack_with_a_property_not_accepted_in_connack_is_refused() {
    // 0x01 (payload format indicator) is a property of Publish packets
    let data = [0x20, 0x05, 0x00, 0x00, 0x02, 0x01, 0x01];
    let mut r = MqttBufReader::new(&data);
    assert_eq!(
        Connack::<4>::read(&mut r),
        Err(PacketReadError::UnexpectedPropertyIdentifier)
    );
}

// Disconnect

const DISCONNECT_DATA: [u8; 9] = [0xE0, 0x07, 0x00, 0x05, 0x11, 0x00, 0x00, 0x02, 0x00];
const DISCONNECT_DATA_ZERO_LENGTH: [u8; 2] = [0xE0, 0x00];
const DISCONNECT_DATA_ONE_LENGTH: [u8; 3] = [0xE0, 0x01, 0x8E];

fn example_disconnect<'a>() -> Disconnect<'a, 1> {
    Disconnect::new(
        DisconnectReasonCode::Success,
        vec![DisconnectProperty::SessionExpiryInterval(512)],
    )
}

#[test]
fn disconnect_encode_example() {
    encode_and_check(&example_disconnect(), &DISCONNECT_DATA);
}

#[test]
fn disconnect_decode_example() {
    let mut r = MqttBufReader::new(&DISCONNECT_DATA);
    assert_eq!(Disconnect::read(&mut r).unwrap(), example_disconnect());
}

#[test]
fn encode_example_zero_length() {
    let packet: Disconnect<'_, 0> = Disconnect::new(DisconnectReasonCode::Success, Vec::new());
    encode_and_check(&packet, &DISCONNECT_DATA_ZERO_LENGTH);
    encode_and_check(&Disconnect::default(), &DISCONNECT_DATA_ZERO_LENGTH);
}

#[test]
fn decode_example_zero_length() {
    let mut r = MqttBufReader::new(&DISCONNECT_DATA_ZERO_LENGTH);
    let packet: Disconnect<'_, 0> = Disconnect::new(DisconnectReasonCode::Success, Vec::new());
    assert_eq!(Disconnect::read(&mut r).unwrap(), packet);
}

#[test]
fn encode_example_one_length() {
    let packet: Disconnect<'_, 0> =
        Disconnect::new(DisconnectReasonCode::SessionTakenOver, Vec::new());
    encode_and_check(&packet, &DISCONNECT_DATA_ONE_LENGTH);
}

#[test]
fn decode_example_one_length() {
    let mut r = MqttBufReader::new(&DISCONNECT_DATA_ONE_LENGTH);
    let packet: Disconnect<'_, 0> =
        Disconnect::new(DisconnectReasonCode::SessionTakenOver, Vec::new());
    assert_eq!(Disconnect::read(&mut r).unwrap(), packet);
}

// Pingreq

const PINGREQ_ENCODED: [u8; 2] = [0xC0, 0x00];
const PINGREQ_ENCODED_INCORRECT_PACKET_TYPE: [u8; 2] = [0x00, 0x00];
const PINGREQ_ENCODED_NONZERO_LENGTH: [u8; 2] = [0xC0, 0x01];

#[test]
fn encode() {
    encode_and_check(&Pingreq::default(), &PINGREQ_ENCODED);
}

#[test]
fn decode() {
    let mut r = MqttBufReader::new(&PINGREQ_ENCODED);
    assert_eq!(Pingreq::read(&mut r).unwrap(), Pingreq::default());
}

#[test]
fn decode_fails_on_nonzero_length() {
    let mut r = MqttBufReader::new(&PINGREQ_ENCODED_NONZERO_LENGTH);
    assert_eq!(
        Pingreq::read(&mut r),
        Err(PacketReadError::IncorrectPacketLength)
    );
}

#[test]
fn pingreq_decode_fails_on_invalid_packet_type() {
    let mut r = MqttBufReader::new(&PINGREQ_ENCODED_INCORRECT_PACKET_TYPE);
    assert_eq!(Pingreq::read(&mut r), Err(PacketReadError::InvalidPacketType));
}

#[test]
fn pingreq_decode_fails_on_other_packet_type() {
    let data = [0xD0, 0x00];
    let mut r = MqttBufReader::new(&data);
    assert_eq!(
        Pingreq::read(&mut r),
        Err(PacketReadError::IncorrectPacketType)
    );
}

// Publish

const EXAMPLE_PAYLOAD: [u8; 11] = [
    0x48, 0x65, 0x6c, 0x6c, 0x6f, 0x20, 0x77, 0x6f, 0x72, 0x6c, 0x64,
];

const PUBLISH_DATA: [u8; 29] = [
    0x32, 0x1B, 0x00, 0x04, 0x74, 0x65, 0x73, 0x74, 0x5B, 0x88, 0x07, 0x01, 0x01, 0x02, 0x00,
    0x00, 0xB2, 0x6E, 0x48, 0x65, 0x6c, 0x6c, 0x6f, 0x20, 0x77, 0x6f, 0x72, 0x6c, 0x64,
];

// As PUBLISH_DATA, but the remaining length ends before the payload
const PUBLISH_DATA_INCORRECT_PACKET_LENGTH: [u8; 29] = [
    0x32, 0x03, 0x00, 0x04, 0x74, 0x65, 0x73, 0x74, 0x5B, 0x88, 0x07, 0x01, 0x01, 0x02, 0x00,
    0x00, 0xB2, 0x6E, 0x48, 0x65, 0x6c, 0x6c, 0x6f, 0x20, 0x77, 0x6f, 0x72, 0x6c, 0x64,
];

const PUBLISH_DATA_RETAIN: [u8; 29] = [
    0x33, 0x1B, 0x00, 0x04, 0x74, 0x65, 0x73, 0x74, 0x5B, 0x88, 0x07, 0x01, 0x01, 0x02, 0x00,
    0x00, 0xB2, 0x6E, 0x48, 0x65, 0x6c, 0x6c, 0x6f, 0x20, 0x77, 0x6f, 0x72, 0x6c, 0x64,
];

const PUBLISH_DATA_DUPLICATE: [u8; 29] = [
    0x3A, 0x1B, 0x00, 0x04, 0x74, 0x65, 0x73, 0x74, 0x5B, 0x88, 0x07, 0x01, 0x01, 0x02, 0x00,
    0x00, 0xB2, 0x6E, 0x48, 0x65, 0x6c, 0x6c, 0x6f, 0x20, 0x77, 0x6f, 0x72, 0x6c, 0x64,
];

const PUBLISH_DATA_RETAIN_DUPLICATE: [u8; 29] = [
    0x3B, 0x1B, 0x00, 0x04, 0x74, 0x65, 0x73, 0x74, 0x5B, 0x88, 0x07, 0x01, 0x01, 0x02, 0x00,
    0x00, 0xB2, 0x6E, 0x48, 0x65, 0x6c, 0x6c, 0x6f, 0x20, 0x77, 0x6f, 0x72, 0x6c, 0x64,
];

fn example_publish<'a>(duplicate: bool, retain: bool) -> Publish<'a, 2> {
    Publish::new(
        duplicate,
        retain,
        "test",
        PublishPacketIdentifier::Qos1(PacketIdentifier(23432)),
        &EXAMPLE_PAYLOAD,
        vec![
            PublishProperty::PayloadFormatIndicator(0x01),
            PublishProperty::MessageExpiryInterval(45678),
        ],
    )
}

#[test]
fn encode_examples() {
    encode_and_check(&example_publish(false, false), &PUBLISH_DATA);
    encode_and_check(&example_publish(false, true), &PUBLISH_DATA_RETAIN);
    encode_and_check(&example_publish(true, false), &PUBLISH_DATA_DUPLICATE);
    encode_and_check(&example_publish(true, true), &PUBLISH_DATA_RETAIN_DUPLICATE);
}

#[test]
fn publish_decode_example() {
    let mut r = MqttBufReader::new(&PUBLISH_DATA);
    assert_eq!(Publish::read(&mut r).unwrap(), example_publish(false, false));

    let mut r = MqttBufReader::new(&PUBLISH_DATA_RETAIN);
    assert_eq!(Publish::read(&mut r).unwrap(), example_publish(false, true));

    let mut r = MqttBufReader::new(&PUBLISH_DATA_DUPLICATE);
    assert_eq!(Publish::read(&mut r).unwrap(), example_publish(true, false));

    let mut r = MqttBufReader::new(&PUBLISH_DATA_RETAIN_DUPLICATE);
    assert_eq!(Publish::read(&mut r).unwrap(), example_publish(true, true));
}

#[test]
fn decode_errors_on_data_with_invalid_length_that_excludes_payload() {
    let mut r = MqttBufReader::new(&PUBLISH_DATA_INCORRECT_PACKET_LENGTH);
    let packet: Result<Publish<'_, 16>, PacketReadError> = Publish::read(&mut r);
    assert_eq!(packet, Err(PacketReadError::IncorrectPacketLength));
}

#[test]
fn publish_of_quality_of_service_2_is_read_with_its_identifier() {
    let packet: Publish<'_, 0> = Publish::new(
        false,
        false,
        "t",
        PublishPacketIdentifier::Qos2(PacketIdentifier(7)),
        &[9],
        Vec::new(),
    );
    let encoded = [0x34, 0x07, 0x00, 0x01, 0x74, 0x00, 0x07, 0x00, 0x09];
    encode_decode_and_check(&packet, &encoded);
    assert_eq!(packet.qos(), QualityOfService::Qos2);
}

// Subscription options and Subscribe

fn subscription_options_cases() -> Vec<(SubscriptionOptions, u8)> {
    let options = |maximum_qos, no_local, retain_as_published, retain_handling| SubscriptionOptions {
        maximum_qos,
        no_local,
        retain_as_published,
        retain_handling,
    };
    vec![
        (options(QualityOfService::Qos0, false, false, RetainHandling::SendOnSubscribe), 0b0000_0000),
        (options(QualityOfService::Qos1, false, false, RetainHandling::SendOnSubscribe), 0b0000_0001),
        (options(QualityOfService::Qos2, false, false, RetainHandling::SendOnSubscribe), 0b0000_0010),
        (options(QualityOfService::Qos0, true, false, RetainHandling::SendOnSubscribe), 0b0000_0100),
        (options(QualityOfService::Qos0, false, true, RetainHandling::SendOnSubscribe), 0b0000_1000),
        (options(QualityOfService::Qos0, false, false, RetainHandling::SendOnNewSubscribe), 0b0001_0000),
        (options(QualityOfService::Qos0, false, false, RetainHandling::DoNotSend), 0b0010_0000),
    ]
}

#[test]
fn mqtt_writers_can_put_subscription_options() {
    for (o, encoded) in subscription_options_cases().iter() {
        let mut r = MqttBufWriter::new(vec![0xFFu8]);
        let mut rl = MqttLenWriter::new();
        r.put_subscription_options(o).unwrap();
        assert_eq!(1, r.position());
        assert_eq!(0, r.remaining());
        rl.put_subscription_options(o).unwrap();
        assert_eq!(1, rl.position());
        assert_eq!(r.into_inner()[0], *encoded);
    }
}

#[test]
fn mqtt_buf_reader_can_get_subscription_options() {
    for (o, encoded) in subscription_options_cases().iter() {
        let buf = [*encoded];
        let mut r = MqttBufReader::new(&buf);
        let o_read = r.get_subscription_options().unwrap();
        assert_eq!(1, r.position());
        assert_eq!(0, r.remaining());
        assert_eq!(o, &o_read);
    }
}

#[test]
fn mqtt_buf_reader_errors_on_invalid_retain_handing_in_subscription_options() {
    // Bits 4 and 5 both set: retain handling value 3, the only invalid value
    let buf = [0b0011_0000];
    let mut r = MqttBufReader::new(&buf);
    assert_eq!(
        r.get_subscription_options(),
        Err(PacketReadError::InvalidRetainHandlingValue)
    );
}

fn example_subscribe<'a>() -> Subscribe<'a, 1, 2> {
    Subscribe::new(
        PacketIdentifier(5432),
        SubscriptionRequest::new("test/topic", QualityOfService::Qos0),
        vec![SubscriptionRequest::new("hehe/#", QualityOfService::Qos1)],
        vec![SubscribeProperty::SubscriptionIdentifier(2432)],
    )
}

const SUBSCRIBE_DATA: [u8; 30] = [
    0x82, 0x1C, 0x15, 0x38, 0x03, 0x0B, 0x80, 0x13,
    // first request: test/topic, options
    0x00, 0x0A, 0x74, 0x65, 0x73, 0x74, 0x2f, 0x74, 0x6f, 0x70, 0x69, 0x63, 0x00,
    // second request: hehe/#, options
    0x00, 0x06, 0x68, 0x65, 0x68, 0x65, 0x2F, 0x23, 0x01,
];

// One request, missing its options byte
const SUBSCRIBE_DATA_TRUNCATED_REQUEST: [u8; 20] = [
    0x82, 0x12, 0x15, 0x38, 0x03, 0x0B, 0x80, 0x13, 0x00, 0x0A, 0x74, 0x65, 0x73, 0x74, 0x2f,
    0x74, 0x6f, 0x70, 0x69, 0x63,
];

#[test]
fn subscribe_encode_example() {
    encode_and_check(&example_subscribe(), &SUBSCRIBE_DATA);
}

#[test]
fn subscribe_decode_example() {
    let mut r = MqttBufReader::new(&SUBSCRIBE_DATA);
    assert_eq!(Subscribe::read(&mut r).unwrap(), example_subscribe());
}

#[test]
fn subscribe_decode_should_fail_on_truncated_request() {
    let mut r = MqttBufReader::new(&SUBSCRIBE_DATA_TRUNCATED_REQUEST);
    let result: Result<Subscribe<'_, 16, 16>, PacketReadError> = Subscribe::read(&mut r);
    assert_eq!(
        result,
        Err(PacketReadError::SubscribeWithoutValidSubscriptionRequest)
    );
}

#[test]
fn subscribe_with_too_many_requests_is_refused() {
    let mut r = MqttBufReader::new(&SUBSCRIBE_DATA);
    let result: Result<Subscribe<'_, 1, 0>, PacketReadError> = Subscribe::read(&mut r);
    assert_eq!(result, Err(PacketReadError::TooManyRequests));
}

#[test]
fn subscribe_counts_its_requests() {
    let packet = example_subscribe();
    assert_eq!(packet.request_count(), 2);
    assert_eq!(packet.request_maximum_qos(), QualityOfService::Qos0);
}

// Unsubscribe

fn example_unsubscribe<'a>() -> Unsubscribe<'a, 1, 2> {
    let pair = StringPair::new("haha", "hehe89");
    Unsubscribe::new(
        PacketIdentifier(5432),
        "test/topic",
        vec!["hehe/#"],
        vec![UnsubscribeProperty::UserProperty(pair)],
    )
}

const UNSUBSCRIBE_DATA: [u8; 40] = [
    0xA2, 0x26, 0x15, 0x38, 0x0F, 0x26, 0x00, 0x04, 0x68, 0x61, 0x68, 0x61, 0x00, 0x06, 0x68,
    0x65, 0x68, 0x65, 0x38, 0x39, 0x00, 0x0A, 0x74, 0x65, 0x73, 0x74, 0x2F, 0x74, 0x6F, 0x70,
    0x69, 0x63, 0x00, 0x06, 0x68, 0x65, 0x68, 0x65, 0x2F, 0x23,
];

const UNSUBSCRIBE_DATA_TRUNCATED_REQUEST: [u8; 31] = [
    0xA2, 0x1D, 0x15, 0x38, 0x0F, 0x26, 0x00, 0x04, 0x68, 0x61, 0x68, 0x61, 0x00, 0x06, 0x68,
    0x65, 0x68, 0x65, 0x38, 0x39, 0x00, 0x0A, 0x74, 0x65, 0x73, 0x74, 0x2F, 0x74, 0x6F, 0x70,
    0x69,
];

const UNSUBSCRIBE_DATA_NO_REQUEST: [u8; 20] = [
    0xA2, 0x12, 0x15, 0x38, 0x0F, 0x26, 0x00, 0x04, 0x68, 0x61, 0x68, 0x61, 0x00, 0x06, 0x68,
    0x65, 0x68, 0x65, 0x38, 0x39,
];

#[test]
fn unsubscribe_encode_example() {
    encode_and_check(&example_unsubscribe(), &UNSUBSCRIBE_DATA);
}

#[test]
fn unsubscribe_decode_example() {
    let mut r = MqttBufReader::new(&UNSUBSCRIBE_DATA);
    assert_eq!(Unsubscribe::read(&mut r).unwrap(), example_unsubscribe());
}

#[test]
fn unsubscribe_decode_should_fail_on_truncated_request() {
    let mut r = MqttBufReader::new(&UNSUBSCRIBE_DATA_TRUNCATED_REQUEST);
    let result: Result<Unsubscribe<'_, 16, 16>, PacketReadError> = Unsubscribe::read(&mut r);
    assert_eq!(
        result,
        Err(PacketReadError::UnsubscribeWithoutValidSubscriptionRequest)
    );
}

#[test]
fn decode_should_fail_on_no_request() {
    let mut r = MqttBufReader::new(&UNSUBSCRIBE_DATA_NO_REQUEST);
    let result: Result<Unsubscribe<'_, 16, 16>, PacketReadError> = Unsubscribe::read(&mut r);
    assert_eq!(
        result,
        Err(PacketReadError::UnsubscribeWithoutValidSubscriptionRequest)
    );
}

// Unsuback

fn example_unsuback<'a>() -> Unsuback<'a, 1, 3> {
    Unsuback::new(
        PacketIdentifier(52232),
        UnsubscribeReasonCode::UnspecifiedError,
        vec![
            UnsubscribeReasonCode::ImplementationSpecificError,
            UnsubscribeReasonCode::NotAuthorized,
        ],
        vec![UnsubackProperty::ReasonString("reasonString")],
    )
}

const UNSUBACK_DATA: [u8; 23] = [
    0xB0, 0x15, 0xCC, 0x08, 0x0F, 0x1F, 0x00, 0x0C, 0x72, 0x65, 0x61, 0x73, 0x6f, 0x6e, 0x53,
    0x74, 0x72, 0x69, 0x6e, 0x67, 0x80, 0x83, 0x87,
];

const UNSUBACK_DATA_NO_REASON_CODES: [u8; 20] = [
    0xB0, 0x12, 0xCC, 0x08, 0x0F, 0x1F, 0x00, 0x0C, 0x72, 0x65, 0x61, 0x73, 0x6f, 0x6e, 0x53,
    0x74, 0x72, 0x69, 0x6e, 0x67,
];

#[test]
fn unsuback_encode_example() {
    encode_and_check(&example_unsuback(), &UNSUBACK_DATA);
}

#[test]
fn unsuback_decode_example() {
    let mut r = MqttBufReader::new(&UNSUBACK_DATA);
    assert_eq!(Unsuback::read(&mut r).unwrap(), example_unsuback());
}

#[test]
fn decode_should_error_on_no_reason_codes() {
    let mut r = MqttBufReader::new(&UNSUBACK_DATA_NO_REASON_CODES);
    let result: Result<Unsuback<'_, 16, 16>, PacketReadError> = Unsuback::read(&mut r);
    assert_eq!(result, Err(PacketReadError::UnsubackWithoutValidReasonCode));
}

// Properties

#[test]
fn write_a_property() {
    let mut w = MqttBufWriter::new(vec![0xFFu8; 4]);
    let p = Property::PayloadFormatIndicator(42);
    p.write(&mut w).unwrap();
    assert_eq!(w.contents(), &[0x01, 42u8]);
}

#[test]
fn write_and_read_a_packet_property() {
    let p = Property::PayloadFormatIndicator(42);
    let mut w = MqttBufWriter::new(vec![0xFFu8; 4]);
    p.write(&mut w).unwrap();
    assert_eq!(w.contents(), &[0x01, 42u8]);

    let encoded = w.contents().to_vec();
    let mut r = MqttBufReader::new(&encoded);
    let read_p = r.get_property(PropertyContext::Publish).unwrap();
    assert_eq!(read_p, p);
}
