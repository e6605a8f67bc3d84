use core::fmt::Debug;

use mountain_mqtt::codec::mqtt_reader::MqttBufReader;
use mountain_mqtt::codec::mqtt_writer::MqttBufWriter;
use mountain_mqtt::data::packet_identifier::PacketIdentifier;
use mountain_mqtt::data::property::{PubackProperty, PubcompProperty, PubrecProperty, PubrelProperty};
use mountain_mqtt::data::reason_code::{PublishReasonCode, PubrelReasonCode};
use mountain_mqtt::data::string_pair::StringPair;
use mountain_mqtt::packets::packet::{read_packet, PacketRead, PacketWrite};
use mountain_mqtt::packets::puback::Puback;
use mountain_mqtt::packets::pubcomp::Pubcomp;
use mountain_mqtt::packets::pubrec::Pubrec;
use mountain_mqtt::packets::pubrel::Pubrel;

fn encode_and_check<P: PacketWrite>(packet: &P, encoded: &[u8]) {
    let mut w = MqttBufWriter::new(vec![0u8; encoded.len()]);
    packet.write(&mut w).unwrap();
    assert_eq!(w.contents(), encoded);
}

fn decode_and_check<'a, P: PacketRead<'a> + PartialEq + Debug>(packet: &P, encoded: &'a [u8]) {
    let mut r = MqttBufReader::new(encoded);
    let read: P = read_packet(&mut r).unwrap();
    assert_eq!(&read, packet);
    assert_eq!(r.position(), encoded.len());
    assert_eq!(r.remaining(), 0);
}

fn encode_decode_and_check<'a, P: PacketWrite + PacketRead<'a> + PartialEq + Debug>(
    packet: &P,
    encoded: &'a [u8],
) {
    encode_and_check(packet, encoded);
    decode_and_check(packet, encoded);
}

const PUBACK_DATA: [u8; 14] = [
    0x40, 0x0C, 0x8A, 0x5C, 0x00, 0x08, 0x1F, 0x00, 0x05, 0x48, 0x65, 0x6c, 0x6c, 0x6f,
];
const PUBACK_DATA_LENGTH2: [u8; 4] = [0x40, 0x02, 0x8A, 0x5C];
const PUBACK_DATA_LENGTH3: [u8; 5] = [0x40, 0x03, 0x8A, 0x5C, 0x87];

#[test]
fn puback_encode_and_decode_example() {
    let packet: Puback<'_, 1> = Puback::new(
        PacketIdentifier(35420),
        PublishReasonCode::Success,
        vec![PubackProperty::ReasonString("Hello")],
    );
    encode_decode_and_check(&packet, &PUBACK_DATA);
}

#[test]
fn puback_encode_and_decode_example_length2() {
    let packet: Puback<'_, 0> =
        Puback::new(PacketIdentifier(35420), PublishReasonCode::Success, Vec::new());
    encode_decode_and_check(&packet, &PUBACK_DATA_LENGTH2);
}

#[test]
fn puback_encode_and_decode_example_length3() {
    let packet: Puback<'_, 0> = Puback::new(
        PacketIdentifier(35420),
        PublishReasonCode::NotAuthorized,
        Vec::new(),
    );
    encode_decode_and_check(&packet, &PUBACK_DATA_LENGTH3);
}

const PUBREL_DATA: [u8; 14] = [
    0x62, 0x0C, 0x8A, 0x5C, 0x00, 0x08, 0x1F, 0x00, 0x05, 0x48, 0x65, 0x6c, 0x6c, 0x6f,
];
const PUBREL_DATA_LENGTH2: [u8; 4] = [0x62, 0x02, 0x8A, 0x5C];
const PUBREL_DATA_LENGTH3: [u8; 5] = [0x62, 0x03, 0x8A, 0x5C, 0x92];
const PUBREL_DATA_USER_PROPERTY: [u8; 21] = [
    0x62, 0x13, 0x30, 0x39, 0x92, 0x0F, 0x26, 0x00, 0x04, 0x68, 0x61, 0x68, 0x61, 0x00, 0x06,
    0x68, 0x65, 0x68, 0x65, 0x38, 0x39,
];

#[test]
fn pubrel_encode_and_decode_example() {
    let packet: Pubrel<'_, 1> = Pubrel::new(
        PacketIdentifier(35420),
        PubrelReasonCode::Success,
        vec![PubrelProperty::ReasonString("Hello")],
    );
    encode_decode_and_check(&packet, &PUBREL_DATA);
}

#[test]
fn pubrel_encode_and_decode_example_length2() {
    let packet: Pubrel<'_, 0> =
        Pubrel::new(PacketIdentifier(35420), PubrelReasonCode::Success, Vec::new());
    encode_decode_and_check(&packet, &PUBREL_DATA_LENGTH2);
}

#[test]
fn pubrel_encode_and_decode_example_length3() {
    let packet: Pubrel<'_, 0> = Pubrel::new(
        PacketIdentifier(35420),
        PubrelReasonCode::PacketIdentifierNotFound,
        Vec::new(),
    );
    encode_decode_and_check(&packet, &PUBREL_DATA_LENGTH3);
}

#[test]
fn pubrel_encode_and_decode_example_user_property() {
    let pair = StringPair::new("haha", "hehe89");
    let packet: Pubrel<'_, 1> = Pubrel::new(
        PacketIdentifier(12345),
        PubrelReasonCode::PacketIdentifierNotFound,
        vec![PubrelProperty::UserProperty(pair)],
    );
    encode_decode_and_check(&packet, &PUBREL_DATA_USER_PROPERTY);
}

const PUBREC_DATA: [u8; 14] = [
    0x50, 0x0C, 0x8A, 0x5C, 0x00, 0x08, 0x1F, 0x00, 0x05, 0x48, 0x65, 0x6c, 0x6c, 0x6f,
];
const PUBREC_DATA_LENGTH2: [u8; 4] = [0x50, 0x02, 0x8A, 0x5C];
const PUBREC_DATA_LENGTH3: [u8; 5] = [0x50, 0x03, 0x8A, 0x5C, 0x83];
const PUBREC_DATA_USER_PROPERTY: [u8; 20] = [
    0x50, 0x12, 0x8A, 0x5C, 0x90, 0x0E, 0x26, 0x00, 0x05, 0x6e, 0x61, 0x6d, 0x65, 0x31, 0x00,
    0x04, 0x76, 0x61, 0x6c, 0x31,
];

#[test]
fn pubrec_encode_and_decode_example() {
    let packet: Pubrec<'_, 1> = Pubrec::new(
        PacketIdentifier(35420),
        PublishReasonCode::Success,
        vec![PubrecProperty::ReasonString("Hello")],
    );
    encode_decode_and_check(&packet, &PUBREC_DATA);
}

#[test]
fn pubrec_encode_and_decode_example_length2() {
    let packet: Pubrec<'_, 0> =
        Pubrec::new(PacketIdentifier(35420), PublishReasonCode::Success, Vec::new());
    encode_decode_and_check(&packet, &PUBREC_DATA_LENGTH2);
}

#[test]
fn pubrec_encode_and_decode_example_length3() {
    let packet: Pubrec<'_, 0> = Pubrec::new(
        PacketIdentifier(35420),
        PublishReasonCode::ImplementationSpecificError,
        Vec::new(),
    );
    encode_decode_and_check(&packet, &PUBREC_DATA_LENGTH3);
}

#[test]
fn pubrec_encode_and_decode_example_user_property() {
    let pair = StringPair::new("name1", "val1");
    let packet: Pubrec<'_, 1> = Pubrec::new(
        PacketIdentifier(35420),
        PublishReasonCode::TopicNameInvalid,
        vec![PubrecProperty::UserProperty(pair)],
    );
    encode_decode_and_check(&packet, &PUBREC_DATA_USER_PROPERTY);
}

const PUBCOMP_DATA: [u8; 14] = [
    0x70, 0x0C, 0x8A, 0x5C, 0x00, 0x08, 0x1F, 0x00, 0x05, 0x48, 0x65, 0x6c, 0x6c, 0x6f,
];
const PUBCOMP_DATA_LENGTH2: [u8; 4] = [0x70, 0x02, 0x8A, 0x5C];
const PUBCOMP_DATA_USER_PROPERTY: [u8; 21] = [
    0x70, 0x13, 0x30, 0x39, 0x92, 0x0F, 0x26, 0x00, 0x04, 0x68, 0x61, 0x68, 0x61, 0x00, 0x06,
    0x68, 0x65, 0x68, 0x65, 0x38, 0x39,
];
const PUBCOMP_DATA_REASON_STRING: [u8; 14] = [
    0x70, 0x0C, 0x8A, 0x5C, 0x00, 0x08, 0x1F, 0x00, 0x05, 0x57, 0x68, 0x65, 0x65, 0x6c,
];

#[test]
fn pubcomp_encode_and_decode_example() {
    let packet: Pubcomp<'_, 1> = Pubcomp::new(
        PacketIdentifier(35420),
        PubrelReasonCode::Success,
        vec![PubcompProperty::ReasonString("Hello")],
    );
    encode_decode_and_check(&packet, &PUBCOMP_DATA);
}

#[test]
fn pubcomp_encode_and_decode_example_length2() {
    let packet: Pubcomp<'_, 0> =
        Pubcomp::new(PacketIdentifier(35420), PubrelReasonCode::Success, Vec::new());
    encode_decode_and_check(&packet, &PUBCOMP_DATA_LENGTH2);
}

#[test]
fn pubcomp_encode_and_decode_example_user_property() {
    let pair = StringPair::new("haha", "hehe89");
    let packet: Pubcomp<'_, 1> = Pubcomp::new(
        PacketIdentifier(12345),
        PubrelReasonCode::PacketIdentifierNotFound,
        vec![PubcompProperty::UserProperty(pair)],
    );
    encode_decode_and_check(&packet, &PUBCOMP_DATA_USER_PROPERTY);
}

#[test]
fn encode_and_decode_example_reason_string() {
    let packet: Pubcomp<'_, 1> = Pubcomp::new(
        PacketIdentifier(35420),
        PubrelReasonCode::Success,
        vec![PubcompProperty::ReasonString("Wheel")],
    );
    encode_decode_and_check(&packet, &PUBCOMP_DATA_REASON_STRING);
}

#[test]
fn pubcomp_with_error_code_and_no_properties_writes_an_empty_property_list() {
    let packet: Pubcomp<'_, 0> = Pubcomp::new(
        PacketIdentifier(1),
        PubrelReasonCode::PacketIdentifierNotFound,
        Vec::new(),
    );
    encode_decode_and_check(&packet, &[0x70, 0x04, 0x00, 0x01, 0x92, 0x00]);
}

#[test]
fn puback_with_too_many_properties_is_refused() {
    let mut r = MqttBufReader::new(&PUBACK_DATA);
    let read: Result<Puback<'_, 0>, _> = Puback::read(&mut r);
    assert_eq!(
        read,
        Err(mountain_mqtt::error::PacketReadError::TooManyProperties)
    );
}

#[test]
fn puback_with_a_reason_code_outside_its_subset_is_refused() {
    // 0x92 (packet identifier not found) is a Pubrel reason code, not a Publish one
    let data = [0x40, 0x03, 0x8A, 0x5C, 0x92];
    let mut r = MqttBufReader::new(&data);
    let read: Result<Puback<'_, 0>, _> = Puback::read(&mut r);
    assert_eq!(
        read,
        Err(mountain_mqtt::error::PacketReadError::UnknownReasonCode)
    );
}
