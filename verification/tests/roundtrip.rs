use core::fmt::Debug;

use mountain_mqtt::codec::mqtt_reader::MqttBufReader;
use mountain_mqtt::codec::mqtt_writer::{MqttBufWriter, MqttWriter};
use mountain_mqtt::data::packet_identifier::{PacketIdentifier, PublishPacketIdentifier};
use mountain_mqtt::data::property::{Property, PublishProperty, WillProperty};
use mountain_mqtt::data::quality_of_service::QualityOfService;
use mountain_mqtt::data::reason_code::{PublishReasonCode, SubscribeReasonCode};
use mountain_mqtt::data::string_pair::StringPair;
use mountain_mqtt::packets::connect::{Connect, Will};
use mountain_mqtt::packets::packet::{read_packet, PacketRead, PacketWrite};
use mountain_mqtt::packets::pingresp::Pingresp;
use mountain_mqtt::packets::puback::Puback;
use mountain_mqtt::packets::pubcomp::Pubcomp;
use mountain_mqtt::packets::publish::Publish;
use mountain_mqtt::packets::suback::Suback;
use mountain_mqtt::packets::subscribe::{Subscribe, SubscriptionRequest};

/// Write a packet, then read it back from the bytes followed by other data
fn write_then_read<'a, P: PacketWrite + PacketRead<'a> + PartialEq + Debug>(packet: &P, buf: &'a mut Vec<u8>) {
    let mut w = MqttBufWriter::new(vec![0u8; 256]);
    packet.write(&mut w).unwrap();
    let len = w.position();
    buf.extend_from_slice(w.contents());
    buf.extend_from_slice(&[0xAA, 0xBB]);
    let mut r = MqttBufReader::new(buf);
    let read: P = read_packet(&mut r).unwrap();
    assert_eq!(&read, packet);
    assert_eq!(r.position(), len);
}

#[test]
fn roundtrip_law_publish_with_properties() {
    let packet: Publish<'_, 2> = Publish::new(
        true,
        false,
        "sensors/1",
        PublishPacketIdentifier::Qos2(PacketIdentifier(513)),
        b"payload bytes",
        vec![
            PublishProperty::MessageExpiryInterval(60),
            PublishProperty::UserProperty(StringPair::new("k", "v")),
        ],
    );
    let mut buf = Vec::new();
    write_then_read(&packet, &mut buf);
}

#[test]
fn roundtrip_law_publish_empty_payload() {
    let packet: Publish<'_, 0> =
        Publish::new(false, true, "t", PublishPacketIdentifier::Qos0, b"", Vec::new());
    let mut buf = Vec::new();
    write_then_read(&packet, &mut buf);
}

#[test]
fn roundtrip_law_subscribe() {
    let packet: Subscribe<'_, 0, 1> = Subscribe::new(
        PacketIdentifier(7),
        SubscriptionRequest::new("a/#", QualityOfService::Qos1),
        vec![SubscriptionRequest::new("b/+", QualityOfService::Qos0)],
        Vec::new(),
    );
    let mut buf = Vec::new();
    write_then_read(&packet, &mut buf);
}

#[test]
fn roundtrip_law_suback() {
    let packet: Suback<'_, 0, 2> = Suback::new(
        PacketIdentifier(7),
        SubscribeReasonCode::GrantedQos1,
        vec![SubscribeReasonCode::NotAuthorized, SubscribeReasonCode::Success],
        Vec::new(),
    );
    let mut buf = Vec::new();
    write_then_read(&packet, &mut buf);
}

#[test]
fn roundtrip_law_connect_with_will_and_credentials() {
    let will: Will<'_, 1> = Will::new(
        QualityOfService::Qos1,
        true,
        "last/will",
        b"gone",
        vec![WillProperty::WillDelayInterval(5)],
    );
    let packet: Connect<'_, 1, 1> = Connect::new(
        30,
        Some("user"),
        Some(b"secret"),
        "client-1",
        false,
        Some(will),
        vec![Property::SessionExpiryInterval(100)],
    );
    let mut buf = Vec::new();
    write_then_read(&packet, &mut buf);
}

#[test]
fn roundtrip_law_puback_without_properties_uses_short_form() {
    let packet: Puback<'_, 0> = Puback::new(PacketIdentifier(1), PublishReasonCode::Success, Vec::new());
    let mut w = MqttBufWriter::new(vec![0u8; 16]);
    packet.write(&mut w).unwrap();
    assert_eq!(w.contents(), &[0x40, 0x02, 0x00, 0x01]);
    let mut buf = Vec::new();
    write_then_read(&packet, &mut buf);
}

#[test]
fn roundtrip_law_puback_with_error_code() {
    let packet: Puback<'_, 0> =
        Puback::new(PacketIdentifier(300), PublishReasonCode::QuotaExceeded, Vec::new());
    let mut buf = Vec::new();
    write_then_read(&packet, &mut buf);
}

#[test]
fn roundtrip_law_pubcomp() {
    let packet: Pubcomp<'_, 0> = Pubcomp::new(
        PacketIdentifier(2),
        mountain_mqtt::data::reason_code::PubrelReasonCode::PacketIdentifierNotFound,
        Vec::new(),
    );
    let mut buf = Vec::new();
    write_then_read(&packet, &mut buf);
}

#[test]
fn roundtrip_law_pingresp() {
    let mut buf = Vec::new();
    write_then_read(&Pingresp::new(), &mut buf);
}
