use mountain_mqtt::codec::mqtt_reader::MqttBufReader;
use mountain_mqtt::codec::mqtt_writer::{MqttBufWriter, MqttWriter};
use mountain_mqtt::data::reason_code::{ConnectReasonCode, ReasonCode};
use mountain_mqtt::error::PacketReadError;
use mountain_mqtt::packets::packet::ReasonCodeSubset;

// The Connect subset of reason codes holds both of these codes
const DATA: [(ConnectReasonCode, u8); 2] = [
    (ConnectReasonCode::UnspecifiedError, 128),
    (ConnectReasonCode::MalformedPacket, 129),
];

#[test]
fn all_expected_codes_exist_with_expected_u8_value() {
    for (code, value) in DATA.iter() {
        assert_eq!(code.value(), *value);
    }
}

#[test]
fn can_write_codes() {
    for (code, value) in DATA.iter() {
        let mut r = MqttBufWriter::new(vec![0u8]);
        r.put_reason_code(&code.reason_code()).unwrap();
        assert_eq!(r.position(), 1);
        assert_eq!(r.remaining(), 0);
        assert_eq!(r.into_inner(), vec![*value]);
    }
}

#[test]
fn can_read_codes() {
    for (code, value) in DATA.iter() {
        let buf = [*value];
        let mut r = MqttBufReader::new(&buf);
        let read = r.get_reason_code_in(ReasonCodeSubset::Connect).unwrap();
        let read_code = ConnectReasonCode::try_from_reason_code(read).unwrap();
        assert_eq!(r.position(), 1);
        assert_eq!(r.remaining(), 0);
        assert_eq!(&read_code, code);
    }
}

#[test]
fn can_try_to_get_packet_reason_code_from_reason_code() {
    assert_eq!(
        ConnectReasonCode::try_from_reason_code(ReasonCode::UnspecifiedError),
        Ok(ConnectReasonCode::UnspecifiedError)
    );
    assert_eq!(
        ConnectReasonCode::try_from_reason_code(ReasonCode::MalformedPacket),
        Ok(ConnectReasonCode::MalformedPacket)
    );
    assert_eq!(
        ConnectReasonCode::try_from_reason_code(ReasonCode::AdministrativeAction),
        Err(PacketReadError::UnknownReasonCode)
    );
}

#[test]
fn can_try_to_get_packet_reason_code_from_u8() {
    assert_eq!(
        ConnectReasonCode::try_from_u8(ReasonCode::UnspecifiedError.value()),
        Ok(ConnectReasonCode::UnspecifiedError)
    );
    assert_eq!(
        ConnectReasonCode::try_from_u8(ReasonCode::MalformedPacket.value()),
        Ok(ConnectReasonCode::MalformedPacket)
    );
    assert_eq!(
        ConnectReasonCode::try_from_u8(ReasonCode::AdministrativeAction.value()),
        Err(PacketReadError::UnknownReasonCode)
    );
}

#[test]
fn can_get_reason_code_from_packet_reason_code() {
    assert_eq!(
        ConnectReasonCode::UnspecifiedError.reason_code(),
        ReasonCode::UnspecifiedError
    );
    assert_eq!(
        ConnectReasonCode::MalformedPacket.reason_code(),
        ReasonCode::MalformedPacket
    );
}

#[test]
fn error_codes_are_those_of_value_128_or_more() {
    assert!(!ReasonCode::Success.is_error());
    assert!(!ReasonCode::NoMatchingSubscribers.is_error());
    assert!(!ReasonCode::ReAuthenticate.is_error());
    assert!(ReasonCode::UnspecifiedError.is_error());
    assert!(ReasonCode::WildcardSubscriptionsNotSupported.is_error());
}

#[test]
fn unknown_reason_code_still_consumes_its_byte() {
    let data = [0x03u8, 0x00];
    let mut r = MqttBufReader::new(&data);
    assert_eq!(r.get_reason_code(), Err(PacketReadError::UnknownReasonCode));
    assert_eq!(r.position(), 1);
    assert_eq!(r.get_reason_code(), Ok(ReasonCode::Success));
    assert_eq!(r.position(), 2);
}

#[test]
fn reason_code_outside_subset_consumes_its_byte() {
    let data = [0x04u8];
    let mut r = MqttBufReader::new(&data);
    assert_eq!(
        r.get_reason_code_in(ReasonCodeSubset::Connect),
        Err(PacketReadError::UnknownReasonCode)
    );
    assert_eq!(r.position(), 1);
}
