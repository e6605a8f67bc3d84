use mountain_mqtt::codec::mqtt_reader::MqttBufReader;
use mountain_mqtt::data::reason_code::ReasonCode;
use mountain_mqtt::error::PacketReadError;

type Result<T> = core::result::Result<T, PacketReadError>;

#[test]
fn mqtt_reader_mqtt_buf_reader_can_get_slices() -> Result<()> {
    let buf = [0, 1, 2, 3];
    let mut r = MqttBufReader::new(&buf);

    assert_eq!(4, r.remaining());

    let slice_0 = r.get_slice(1)?;
    let slice_1_2 = r.get_slice(2)?;
    let slice_3 = r.get_slice(1)?;

    assert_eq!(slice_0, &[0u8]);
    assert_eq!(slice_1_2, &[1u8, 2u8]);
    assert_eq!(slice_3, &[3u8]);

    assert_eq!(0, r.remaining());

    Ok(())
}

#[test]
fn mqtt_reader_mqtt_buf_reader_errors_on_overrun() -> Result<()> {
    let buf = [0, 1, 2, 3];
    let mut r = MqttBufReader::new(&buf);

    r.get_slice(1)?;
    r.get_slice(2)?;
    r.get_slice(1)?;

    assert_eq!(0, r.remaining());

    assert_eq!(r.get_slice(1), Err(PacketReadError::InsufficientData));
    assert_eq!(r.get_slice(2), Err(PacketReadError::InsufficientData));

    // Can still get an empty slice
    let slice_empty = r.get_slice(0)?;
    assert_eq!(slice_empty, &[]);

    Ok(())
}

#[test]
fn mqtt_buf_reader_can_get_bool_zero_one() -> Result<()> {
    let buf = [0, 1, 0, 1];
    let mut r = MqttBufReader::new(&buf);

    for value in buf.iter() {
        let expected = *value == 1;
        assert_eq!(expected, r.get_bool_zero_one()?);
    }

    assert_eq!(0, r.remaining());
    assert_eq!(r.get_slice(1), Err(PacketReadError::InsufficientData));

    Ok(())
}

#[test]
fn mqtt_buf_reader_fails_on_bool_zero_one_invalid_values() -> Result<()> {
    for value in 2u8..255 {
        let buf = [0, 1, value];
        let mut r = MqttBufReader::new(&buf);

        assert!(!r.get_bool_zero_one()?);
        assert!(r.get_bool_zero_one()?);
        assert_eq!(
            Err(PacketReadError::InvalidBooleanValue),
            r.get_bool_zero_one()
        );
    }
    Ok(())
}

#[test]
fn mqtt_reader_mqtt_buf_reader_can_get_u8() -> Result<()> {
    let buf = [0, 1, 2, 3, 4, 128, 255];
    let mut r = MqttBufReader::new(&buf);

    for expected in buf.iter() {
        assert_eq!(*expected, r.get_u8()?);
    }

    assert_eq!(0, r.remaining());
    assert_eq!(r.get_slice(1), Err(PacketReadError::InsufficientData));

    Ok(())
}

#[test]
fn mqtt_reader_mqtt_buf_reader_can_get_u16() -> Result<()> {
    let buf = [0, 1, 2, 3, 4, 128, 255];
    let mut r = MqttBufReader::new(&buf);

    assert_eq!(1, r.get_u16()?);
    assert_eq!((2 << 8) + 3, r.get_u16()?);
    assert_eq!((4 << 8) + 128, r.get_u16()?);

    // A single byte left cannot be read as a u16
    assert_eq!(1, r.remaining());
    assert_eq!(r.get_u16(), Err(PacketReadError::InsufficientData));

    Ok(())
}

#[test]
fn mqtt_reader_mqtt_buf_reader_can_get_u32() -> Result<()> {
    let buf = [0, 1, 2, 3, 4, 128, 255, 42, 1, 2, 3];
    let mut r = MqttBufReader::new(&buf);

    assert_eq!((1 << 16) + (2 << 8) + 3, r.get_u32()?);
    assert_eq!((4 << 24) + (128 << 16) + (255 << 8) + 42, r.get_u32()?);

    // Three bytes left cannot be read as a u32
    assert_eq!(3, r.remaining());
    assert_eq!(r.get_u32(), Err(PacketReadError::InsufficientData));

    Ok(())
}

#[test]
fn mqtt_reader_mqtt_buf_reader_can_get_variable_u32() -> Result<()> {
    let test_cases: &[(u32, &[u8])] = &[
        (0, &[0x00]),
        (127, &[0x7F]),
        (128, &[0x80, 0x01]),
        (16_383, &[0xFF, 0x7F]),
        (16_384, &[0x80, 0x80, 0x01]),
        (2_097_151, &[0xFF, 0xFF, 0x7F]),
        (2_097_152, &[0x80, 0x80, 0x80, 0x01]),
        (268_435_455, &[0xFF, 0xFF, 0xFF, 0x7F]),
        (1, &[1]),
        (42, &[42]),
        (130, &[0x82, 0x01]),
        (384, &[0x80, 0x03]),
        (16_382, &[0xFE, 0x7F]),
        (16_385, &[0x81, 0x80, 0x01]),
        (16_386, &[0x82, 0x80, 0x01]),
        (32_768, &[0x80, 0x80, 0x02]),
    ];

    for (expected, data) in test_cases.iter() {
        let mut r = MqttBufReader::new(data);

        assert_eq!(*expected, r.get_variable_u32()?);
        assert_eq!(0, r.remaining());
    }

    Ok(())
}

#[test]
fn mqtt_reader_mqtt_buf_reader_errors_on_invalid_variable_u32() -> Result<()> {
    // Four bytes with the continuation bit set claim a fifth byte, which is invalid
    let buf = [0x80, 0x80, 0x80, 0x80];
    let mut r = MqttBufReader::new(&buf);

    assert_eq!(
        r.get_variable_u32(),
        Err(PacketReadError::InvalidVariableByteIntegerEncoding)
    );

    Ok(())
}

const STRING_CASES: &[(&str, &[u8])] = &[
    ("A\u{2A6D4}", &[0x00, 0x05, 0x41, 0xF0, 0xAA, 0x9B, 0x94]),
    ("\u{FEFF}", &[0x00, 0x03, 0xEF, 0xBB, 0xBF]),
    ("A\u{FEFF}", &[0x00, 0x04, 0x41, 0xEF, 0xBB, 0xBF]),
    ("\u{FEFF}A", &[0x00, 0x04, 0xEF, 0xBB, 0xBF, 0x41]),
    ("A\u{FEFF}A", &[0x00, 0x05, 0x41, 0xEF, 0xBB, 0xBF, 0x41]),
    ("", &[0x00, 0x00]),
    ("A", &[0x00, 0x01, 0x41]),
    ("ABCDE", &[0x00, 0x05, 0x41, 0x42, 0x43, 0x44, 0x45]),
    ("😼", &[0x00, 0x04, 0xF0, 0x9F, 0x98, 0xBC]),
];

#[test]
fn mqtt_reader_mqtt_buf_reader_can_get_str() -> Result<()> {
    for (expected, data) in STRING_CASES.iter() {
        let mut r = MqttBufReader::new(data);

        assert_eq!(*expected, r.get_str()?);
        assert_eq!(0, r.remaining());
    }

    Ok(())
}

#[test]
fn mqtt_reader_mqtt_buf_reader_errors_on_invalid_str() -> Result<()> {
    let test_cases: &[(&[u8], PacketReadError)] = &[
        // Code points between U+D800 and U+DFFF must not be encoded
        (&[0x00, 0x03, 0xED, 0xA0, 0x80], PacketReadError::InvalidUtf8),
        (&[0x00, 0x03, 0xED, 0xA4, 0x80], PacketReadError::InvalidUtf8),
        (&[0x00, 0x03, 0xED, 0xBF, 0xBF], PacketReadError::InvalidUtf8),
        // The null character U+0000 must not be encoded
        (&[0x00, 0x01, 0x00], PacketReadError::NullCharacterInString),
    ];

    for (data, err) in test_cases.iter() {
        let mut r = MqttBufReader::new(data);

        assert_eq!(r.get_str(), Err(*err));
    }

    Ok(())
}

#[test]
fn mqtt_reader_mqtt_buf_reader_errors_on_insufficient_data_for_string() -> Result<()> {
    let buf = [0x00, 0x03, 0x80, 0x80];
    let mut r = MqttBufReader::new(&buf);

    assert_eq!(r.get_str(), Err(PacketReadError::InsufficientData));

    Ok(())
}

#[test]
fn mqtt_reader_mqtt_buf_reader_can_get_binary_data() -> Result<()> {
    let test_cases: &[(&[u8], &[u8])] = &[
        (&[], &[0x00, 0x00]),
        (&[0x41], &[0x00, 0x01, 0x41]),
        (
            &[0x41, 0xF0, 0xAA, 0x9B, 0x94],
            &[0x00, 0x05, 0x41, 0xF0, 0xAA, 0x9B, 0x94],
        ),
        (&[0xEF, 0xBB, 0xBF], &[0x00, 0x03, 0xEF, 0xBB, 0xBF]),
        (
            &[0x41, 0xEF, 0xBB, 0xBF],
            &[0x00, 0x04, 0x41, 0xEF, 0xBB, 0xBF],
        ),
        (
            &[0xEF, 0xBB, 0xBF, 0x41],
            &[0x00, 0x04, 0xEF, 0xBB, 0xBF, 0x41],
        ),
        (
            &[0x41, 0xEF, 0xBB, 0xBF, 0x41],
            &[0x00, 0x05, 0x41, 0xEF, 0xBB, 0xBF, 0x41],
        ),
    ];

    for (expected, data) in test_cases.iter() {
        let mut r = MqttBufReader::new(data);

        assert_eq!(*expected, r.get_binary_data()?);
        assert_eq!(0, r.remaining());
    }

    Ok(())
}

#[test]
fn mqtt_reader_mqtt_buf_reader_errors_on_insufficient_data_for_binary_data() -> Result<()> {
    let buf = [0x00, 0x03, 0x80, 0x80];
    let mut r = MqttBufReader::new(&buf);

    assert_eq!(r.get_binary_data(), Err(PacketReadError::InsufficientData));

    Ok(())
}

#[test]
fn mqtt_buf_reader_can_get_string_pairs() -> Result<()> {
    for (name, encoded_name) in STRING_CASES.iter() {
        for (value, encoded_value) in STRING_CASES.iter() {
            let mut encoded = encoded_name.to_vec();
            encoded.extend_from_slice(encoded_value);

            let mut r = MqttBufReader::new(&encoded);
            let string_pair = r.get_string_pair()?;
            assert_eq!(*name, string_pair.name());
            assert_eq!(*value, string_pair.value());
            assert_eq!(0, r.remaining());
        }
    }
    Ok(())
}

#[test]
fn mqtt_buf_reader_can_get_reason_code() -> Result<()> {
    let codes = [
        ReasonCode::AdministrativeAction,
        ReasonCode::Banned,
        ReasonCode::GrantedQos1,
        ReasonCode::PayloadFormatInvalid,
        ReasonCode::Success,
        ReasonCode::UnspecifiedError,
        ReasonCode::WildcardSubscriptionsNotSupported,
    ];

    for code in codes.iter() {
        let buf = [code.value()];
        let mut r = MqttBufReader::new(&buf);
        let read_code = r.get_reason_code()?;
        assert_eq!(read_code, *code);
        assert_eq!(1, r.position());
        assert_eq!(0, r.remaining());
    }

    Ok(())
}
