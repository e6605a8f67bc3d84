use mountain_mqtt::codec::mqtt_reader::MqttBufReader;
use mountain_mqtt::codec::framing::{check_first_header_byte, frame_remaining_length, length_continues};
use mountain_mqtt::data::packet_identifier::PacketIdentifier;
use mountain_mqtt::data::property::{ConnectProperty, SubscribeProperty};
use mountain_mqtt::data::quality_of_service::QualityOfService;
use mountain_mqtt::error::PacketReadError;
use mountain_mqtt::packet_client::PacketClient;
use mountain_mqtt::packets::connect::Connect;
use mountain_mqtt::packets::packet::PacketWrite;
use mountain_mqtt::packets::packet_generic::PacketGeneric;
use mountain_mqtt::packets::pingreq::Pingreq;
use mountain_mqtt::packets::subscribe::{Subscribe, SubscriptionRequest};

const ENCODED_PINGRESP: [u8; 2] = [0xC0, 0x00];
const INVALID_PACKET_TYPE: [u8; 2] = [0xC1, 0x00];
const INVALID_LENGTH: [u8; 5] = [0xC0, 0x80, 0x80, 0x80, 0x80];
// A first header byte, then a remaining length of 16: a packet of 18 bytes in all
const ENCODED_IMPLIES_PACKET_LENGTH_18: [u8; 2] = [0xC0, 0x10];

const ENCODED_SUBSCRIBE: [u8; 30] = [
    0x82, 0x1C, 0x15, 0x38, 0x03, 0x0B, 0x80, 0x13, 0x00, 0x0A, 0x74, 0x65, 0x73, 0x74, 0x2f,
    0x74, 0x6f, 0x70, 0x69, 0x63, 0x00, 0x00, 0x06, 0x68, 0x65, 0x68, 0x65, 0x2F, 0x23, 0x01,
];

const ENCODED_CONNECT: [u8; 18] = [
    0x10, 0x10, 0x00, 0x04, 0x4d, 0x51, 0x54, 0x54, 0x05, 0x02, 0x00, 0x3c, 0x03, 0x21, 0x00,
    0x14, 0x00, 0x00,
];

// ENCODED_CONNECT with a remaining length one byte too long, and a padding byte so that the
// whole packet can be received before it is decoded
const ENCODED_CONNECT_INCORRECT_PACKET_LENGTH: [u8; 19] = [
    0x10, 0x11, 0x00, 0x04, 0x4d, 0x51, 0x54, 0x54, 0x05, 0x02, 0x00, 0x3c, 0x03, 0x21, 0x00,
    0x14, 0x00, 0x00, 0x00,
];

fn example_subscribe_packet<'a>() -> Subscribe<'a, 16, 16> {
    Subscribe::new(
        PacketIdentifier(5432),
        SubscriptionRequest::new("test/topic", QualityOfService::Qos0),
        vec![SubscriptionRequest::new("hehe/#", QualityOfService::Qos1)],
        vec![SubscribeProperty::SubscriptionIdentifier(2432)],
    )
}

fn example_connect_packet<'a>() -> Connect<'a, 16, 16> {
    let mut packet = Connect::new(60, None, None, "", true, None, Vec::new());
    packet.properties.push(ConnectProperty::ReceiveMaximum(20));
    packet
}

/// Bytes received in order from a stream that holds `data`
struct SliceStream<'a> {
    data: &'a [u8],
    position: usize,
}

impl SliceStream<'_> {
    fn receive(&mut self, buf: &mut [u8]) -> Result<(), PacketReadError> {
        if self.position + buf.len() > self.data.len() {
            return Err(PacketReadError::InsufficientData);
        }
        buf.copy_from_slice(&self.data[self.position..self.position + buf.len()]);
        self.position += buf.len();
        Ok(())
    }
}

/// Receive one packet from a stream into the client's buffer, in the steps that the
/// framing functions decide, giving its length
fn receive_packet(stream: &mut SliceStream<'_>, buf: &mut [u8]) -> Result<usize, PacketReadError> {
    stream.receive(&mut buf[0..1])?;
    check_first_header_byte(buf[0])?;
    let mut position: usize = 1;
    stream.receive(&mut buf[position..position + 1])?;
    position += 1;
    while length_continues(&buf[1..position])? {
        stream.receive(&mut buf[position..position + 1])?;
        position += 1;
    }
    let remaining_length = frame_remaining_length(&buf[1..position], position, buf.len())?;
    stream.receive(&mut buf[position..position + remaining_length])?;
    Ok(position + remaining_length)
}

fn receive_len(data: &[u8], capacity: usize) -> (PacketClient<()>, Result<usize, PacketReadError>) {
    let mut client = PacketClient::new((), vec![0u8; capacity]);
    let mut stream = SliceStream { data, position: 0 };
    let len = receive_packet(&mut stream, &mut client.buf);
    (client, len)
}

fn decode(data: &[u8], expected: PacketGeneric<'_, 16, 16, 16>) {
    let (client, len) = receive_len(data, 1024);
    let packet: PacketGeneric<'_, 16, 16, 16> = client.decode(len.unwrap()).unwrap();
    assert_eq!(packet, expected);
}

fn encode<P: PacketWrite>(packet: P, encoded: &[u8]) {
    let mut client = PacketClient::new((), vec![0u8; 1024]);
    let len = client.encode(&packet).unwrap();
    assert_eq!(&client.buf[0..len], encoded);
}

#[test]
fn error_on_decode_connect_with_incorrect_length() {
    let (client, len) = receive_len(&ENCODED_CONNECT_INCORRECT_PACKET_LENGTH, 1024);
    let packet: Result<PacketGeneric<'_, 16, 16, 16>, PacketReadError> = client.decode(len.unwrap());
    assert_eq!(packet, Err(PacketReadError::IncorrectPacketLength));
}

#[test]
fn decode_pingresp() {
    decode(&ENCODED_PINGRESP, PacketGeneric::Pingreq(Pingreq::new()));
}

#[test]
fn encode_pingresp() {
    encode(Pingreq::new(), &ENCODED_PINGRESP);
}

#[test]
fn decode_subscribe() {
    decode(&ENCODED_SUBSCRIBE, PacketGeneric::Subscribe(example_subscribe_packet()));
}

#[test]
fn encode_subscribe() {
    encode(example_subscribe_packet(), &ENCODED_SUBSCRIBE);
}

#[test]
fn decode_connect() {
    decode(&ENCODED_CONNECT, PacketGeneric::Connect(example_connect_packet()));
}

#[test]
fn encode_connect() {
    encode(example_connect_packet(), &ENCODED_CONNECT);
}

#[test]
fn packet_client_decode_fails_on_invalid_packet_type() {
    let (_, len) = receive_len(&INVALID_PACKET_TYPE, 1024);
    assert_eq!(len, Err(PacketReadError::InvalidPacketType));
}

#[test]
fn decode_fails_on_invalid_length_encoding() {
    let (_, len) = receive_len(&INVALID_LENGTH, 1024);
    assert_eq!(len, Err(PacketReadError::InvalidVariableByteIntegerEncoding));
}

#[test]
fn decode_fails_on_packet_length_bigger_than_buffer() {
    let (_, len) = receive_len(&ENCODED_IMPLIES_PACKET_LENGTH_18, 17);
    assert_eq!(len, Err(PacketReadError::PacketTooLargeForBuffer));
}

#[test]
fn generic_read_rejects_invalid_reserved_bits() {
    let data = [0xC1u8, 0x00];
    let mut r = MqttBufReader::new(&data);
    let packet: Result<PacketGeneric<'_, 16, 16, 16>, PacketReadError> = PacketGeneric::read(&mut r);
    assert_eq!(packet, Err(PacketReadError::InvalidPacketType));
    // Pubrel must have flags 0b0010
    let data = [0x60u8, 0x02, 0x00, 0x01];
    let mut r = MqttBufReader::new(&data);
    let packet: Result<PacketGeneric<'_, 16, 16, 16>, PacketReadError> = PacketGeneric::read(&mut r);
    assert_eq!(packet, Err(PacketReadError::InvalidPacketType));
    // Publish with quality of service bits 3
    let data = [0x36u8, 0x03, 0x00, 0x01, b't'];
    let mut r = MqttBufReader::new(&data);
    let packet: Result<PacketGeneric<'_, 16, 16, 16>, PacketReadError> = PacketGeneric::read(&mut r);
    assert_eq!(packet, Err(PacketReadError::InvalidPacketType));
}

#[test]
fn generic_read_accepts_valid_reserved_bits() {
    let data = [0x62u8, 0x02, 0x00, 0x01];
    let mut r = MqttBufReader::new(&data);
    let packet: Result<PacketGeneric<'_, 16, 16, 16>, PacketReadError> = PacketGeneric::read(&mut r);
    assert!(matches!(packet, Ok(PacketGeneric::Pubrel(_))));
    assert_eq!(r.position(), 4);
    assert_eq!(r.remaining(), 0);
}
