use mountain_mqtt::codec::encoding::{DATA_MAX_LEN, VARIABLE_BYTE_INTEGER_MAX_VALUE};
use mountain_mqtt::codec::mqtt_writer::{MqttBufWriter, MqttLenWriter, MqttWriter};
use mountain_mqtt::data::reason_code::ReasonCode;
use mountain_mqtt::data::string_pair::StringPair;
use mountain_mqtt::error::PacketWriteError;

type Result<T> = core::result::Result<T, PacketWriteError>;

fn assert_contents(r: &MqttBufWriter, expected: &[u8]) {
    assert_eq!(r.contents(), expected);
}

#[test]
fn mqtt_writers_can_put_slices() -> Result<()> {
    let mut r = MqttBufWriter::new(vec![0u8; 4]);
    let mut rl = MqttLenWriter::default();

    assert_eq!(4, r.remaining());

    r.put_slice(&[1u8])?;
    rl.put_slice(&[1u8])?;
    assert_eq!(1, r.position());
    assert_eq!(3, r.remaining());
    assert_contents(&r, &[1u8]);
    assert_eq!(1, rl.position());

    r.put_slice(&[2u8, 3])?;
    rl.put_slice(&[2u8, 3])?;
    assert_eq!(3, r.position());
    assert_eq!(1, r.remaining());
    assert_contents(&r, &[1u8, 2, 3]);
    assert_eq!(3, rl.position());

    r.put_slice(&[4u8])?;
    rl.put_slice(&[4u8])?;
    assert_eq!(4, r.position());
    assert_eq!(0, r.remaining());
    assert_contents(&r, &[1u8, 2, 3, 4]);
    assert_eq!(4, rl.position());

    Ok(())
}

#[test]
fn mqtt_buf_writer_errors_on_overflow() -> Result<()> {
    let mut r = MqttBufWriter::new(vec![0u8; 4]);

    assert_eq!(4, r.remaining());

    r.put_slice(&[1u8])?;
    r.put_slice(&[2u8, 3])?;
    r.put_slice(&[4u8])?;

    assert_eq!(0, r.remaining());

    assert_eq!(r.put_slice(&[0u8]), Err(PacketWriteError::Overflow));
    assert_eq!(r.put_slice(&[0u8, 1]), Err(PacketWriteError::Overflow));

    // Can still put an empty slice
    assert_eq!(r.put_slice(&[]), Ok(()));

    Ok(())
}

#[test]
fn mqtt_writers_can_put_bool_zero_one() -> Result<()> {
    let mut r = MqttBufWriter::new(vec![0u8; 7]);
    let mut rl = MqttLenWriter::default();

    let values = [false, true, false, false, true, true, true];
    let encoded = [0, 1, 0, 0, 1, 1, 1];

    let mut expected_position = 0;
    for value in values.iter() {
        r.put_bool_zero_one(*value)?;
        rl.put_bool_zero_one(*value)?;
        expected_position += 1;
        assert_contents(&r, &encoded[0..expected_position]);
        assert_eq!(r.position(), expected_position);
        assert_eq!(rl.position(), expected_position);
        assert_eq!(r.remaining(), 7 - expected_position);
    }

    assert_eq!(0, r.remaining());

    Ok(())
}

#[test]
fn mqtt_writers_can_put_u8() -> Result<()> {
    let mut r = MqttBufWriter::new(vec![0u8; 7]);
    let mut rl = MqttLenWriter::default();

    let values = [0u8, 1, 2, 3, 4, 128, 255];

    let mut expected_position = 0;
    for value in values.iter() {
        r.put_u8(*value)?;
        rl.put_u8(*value)?;
        expected_position += 1;
        assert_contents(&r, &values[0..expected_position]);
        assert_eq!(r.position(), expected_position);
        assert_eq!(rl.position(), expected_position);
        assert_eq!(r.remaining(), 7 - expected_position);
    }

    assert_eq!(0, r.remaining());

    Ok(())
}

#[test]
fn mqtt_writers_can_put_u16() -> Result<()> {
    let mut r = MqttBufWriter::new(vec![0u8; 10]);
    let mut rl = MqttLenWriter::default();

    let values = [0u16, 1, 255, 256, 65535];
    let expected: [u8; 10] = [0, 0, 0, 1, 0, 255, 1, 0, 255, 255];

    let mut expected_position = 0;
    for value in values.iter() {
        r.put_u16(*value)?;
        rl.put_u16(*value)?;
        expected_position += 2;
        assert_contents(&r, &expected[0..expected_position]);
        assert_eq!(r.position(), expected_position);
        assert_eq!(rl.position(), expected_position);
        assert_eq!(r.remaining(), 10 - expected_position);
    }

    assert_eq!(0, r.remaining());

    Ok(())
}

#[test]
fn mqtt_writers_can_put_u32() -> Result<()> {
    let mut r = MqttBufWriter::new(vec![0u8; 36]);
    let mut rl = MqttLenWriter::default();

    let values: [u32; 9] = [0, 1, 255, 256, 65535, 65536, 16777215, 16777216, 4294967295];
    let expected: [u8; 36] = [
        0, 0, 0, 0, // 0
        0, 0, 0, 1, // 1
        0, 0, 0, 255, // 255
        0, 0, 1, 0, // 256
        0, 0, 255, 255, // 65535
        0, 1, 0, 0, // 65536
        0, 255, 255, 255, // 16777215
        1, 0, 0, 0, // 16777216
        255, 255, 255, 255, // 4294967295
    ];

    let mut expected_position = 0;
    for value in values.iter() {
        r.put_u32(*value)?;
        rl.put_u32(*value)?;

        expected_position += 4;
        assert_contents(&r, &expected[0..expected_position]);
        assert_eq!(r.position(), expected_position);
        assert_eq!(rl.position(), expected_position);
        assert_eq!(r.remaining(), 36 - expected_position);
    }

    assert_eq!(0, r.remaining());

    Ok(())
}

#[test]
fn mqtt_writers_can_put_variable_u32_and_give_correct_len() -> Result<()> {
    let test_cases: &[(u32, &[u8])] = &[
        // Examples from the MQTT v5 specification, at the ends of the ranges of values
        // stored in 1, 2, 3 and 4 bytes
        (0, &[0x00]),
        (127, &[0x7F]),
        (128, &[0x80, 0x01]),
        (16_383, &[0xFF, 0x7F]),
        (16_384, &[0x80, 0x80, 0x01]),
        (2_097_151, &[0xFF, 0xFF, 0x7F]),
        (2_097_152, &[0x80, 0x80, 0x80, 0x01]),
        (268_435_455, &[0xFF, 0xFF, 0xFF, 0x7F]),
        // Additional
        (1, &[1]),
        (42, &[42]),
        (130, &[0x82, 0x01]),
        (384, &[0x80, 0x03]),
        (16_382, &[0xFE, 0x7F]),
        (16_385, &[0x81, 0x80, 0x01]),
        (16_386, &[0x82, 0x80, 0x01]),
        (32_768, &[0x80, 0x80, 0x02]),
    ];

    for (value, encoded) in test_cases.iter() {
        let mut r = MqttBufWriter::new(vec![0u8; encoded.len()]);
        let mut rl = MqttLenWriter::default();

        r.put_variable_u32(*value)?;
        rl.put_variable_u32(*value)?;
        assert_eq!(r.position(), encoded.len());
        assert_eq!(rl.position(), encoded.len());
        assert_eq!(0, r.remaining());
        assert_contents(&r, encoded);
    }

    Ok(())
}

#[test]
fn mqtt_writers_error_on_variable_u32_too_large() -> Result<()> {
    let mut r = MqttBufWriter::new(vec![0u8; 4]);
    let mut rl = MqttLenWriter::default();

    assert_eq!(r.put_variable_u32(VARIABLE_BYTE_INTEGER_MAX_VALUE), Ok(()));
    assert_eq!(r.position(), 4);
    assert_eq!(
        r.put_variable_u32(VARIABLE_BYTE_INTEGER_MAX_VALUE + 1),
        Err(PacketWriteError::VariableByteIntegerTooLarge)
    );
    assert_eq!(
        r.put_variable_u32(VARIABLE_BYTE_INTEGER_MAX_VALUE + 2),
        Err(PacketWriteError::VariableByteIntegerTooLarge)
    );

    assert_eq!(rl.put_variable_u32(VARIABLE_BYTE_INTEGER_MAX_VALUE), Ok(()));
    assert_eq!(rl.position(), 4);
    assert_eq!(
        rl.put_variable_u32(VARIABLE_BYTE_INTEGER_MAX_VALUE + 1),
        Err(PacketWriteError::VariableByteIntegerTooLarge)
    );
    assert_eq!(
        rl.put_variable_u32(VARIABLE_BYTE_INTEGER_MAX_VALUE + 2),
        Err(PacketWriteError::VariableByteIntegerTooLarge)
    );

    Ok(())
}

const STRING_CASES: &[(&str, &[u8])] = &[
    // Example from the MQTT v5 specification
    ("A\u{2A6D4}", &[0x00, 0x05, 0x41, 0xF0, 0xAA, 0x9B, 0x94]),
    // The sequence 0xEF 0xBB 0xBF is always U+FEFF ("ZERO WIDTH NO-BREAK SPACE") and
    // must not be skipped or stripped
    ("\u{FEFF}", &[0x00, 0x03, 0xEF, 0xBB, 0xBF]),
    ("A\u{FEFF}", &[0x00, 0x04, 0x41, 0xEF, 0xBB, 0xBF]),
    ("\u{FEFF}A", &[0x00, 0x04, 0xEF, 0xBB, 0xBF, 0x41]),
    ("A\u{FEFF}A", &[0x00, 0x05, 0x41, 0xEF, 0xBB, 0xBF, 0x41]),
    // Additional
    ("", &[0x00, 0x00]),
    ("A", &[0x00, 0x01, 0x41]),
    ("ABCDE", &[0x00, 0x05, 0x41, 0x42, 0x43, 0x44, 0x45]),
    ("😼", &[0x00, 0x04, 0xF0, 0x9F, 0x98, 0xBC]),
];

#[test]
fn mqtt_writers_can_put_str() -> Result<()> {
    for (s, encoded) in STRING_CASES.iter() {
        let mut r = MqttBufWriter::new(vec![0u8; encoded.len()]);
        let mut rl = MqttLenWriter::default();

        r.put_str(s)?;
        rl.put_str(s)?;
        assert_eq!(r.position(), encoded.len());
        assert_eq!(rl.position(), encoded.len());
        assert_eq!(0, r.remaining());
        assert_contents(&r, encoded);
    }

    Ok(())
}

#[test]
fn mqtt_buf_writer_errors_on_invalid_strings() -> Result<()> {
    let test_cases: &[(&str, PacketWriteError)] = &[
        // A UTF-8 encoded string must not hold the null character U+0000
        ("\0", PacketWriteError::NullCharacterInString),
        ("A\0", PacketWriteError::NullCharacterInString),
        ("\0A", PacketWriteError::NullCharacterInString),
        ("A\0A", PacketWriteError::NullCharacterInString),
        ("\0\0", PacketWriteError::NullCharacterInString),
    ];

    for (s, err) in test_cases.iter() {
        let mut r = MqttBufWriter::new(vec![0u8; 10]);
        assert_eq!(r.put_str(s), Err(*err));
    }

    Ok(())
}

#[test]
fn mqtt_buf_writer_errors_on_overflow_for_string() -> Result<()> {
    // A string that just fits in 5 bytes (2 for the length, 3 for "AAA")
    let mut r = MqttBufWriter::new(vec![0u8; 5]);
    r.put_str("AAA")?;
    assert_eq!(r.position(), 5);

    // One byte less fails
    let mut r = MqttBufWriter::new(vec![0u8; 4]);
    assert_eq!(r.put_str("AAA"), Err(PacketWriteError::Overflow));

    let mut r = MqttBufWriter::new(vec![0u8; 6]);
    assert_eq!(r.put_str("AAAAA"), Err(PacketWriteError::Overflow));

    Ok(())
}

#[test]
fn mqtt_writers_error_if_encoded_string_too_large() -> Result<()> {
    // The longest string that can be encoded
    let data = [0x41; DATA_MAX_LEN];
    let s = core::str::from_utf8(&data).unwrap();
    let mut r = MqttBufWriter::new(vec![0u8; DATA_MAX_LEN + 2]);
    let mut rl = MqttLenWriter::default();
    r.put_str(s)?;
    rl.put_str(s)?;
    assert_eq!(r.position(), DATA_MAX_LEN + 2);
    assert_eq!(rl.position(), DATA_MAX_LEN + 2);

    // One byte more fails
    let data = [0x41; DATA_MAX_LEN + 1];
    let s = core::str::from_utf8(&data).unwrap();
    let mut r = MqttBufWriter::new(vec![0u8; DATA_MAX_LEN + 1 + 2]);
    let mut rl = MqttLenWriter::default();
    assert_eq!(r.put_str(s), Err(PacketWriteError::StringTooLarge));
    assert_eq!(rl.put_str(s), Err(PacketWriteError::StringTooLarge));

    Ok(())
}

#[test]
fn mqtt_writers_can_put_binary_data() -> Result<()> {
    let test_cases: &[(&[u8], &[u8])] = &[
        (&[], &[0x00, 0x00]),
        (&[0x41], &[0x00, 0x01, 0x41]),
        (
            &[0x41, 0xF0, 0xAA, 0x9B, 0x94],
            &[0x00, 0x05, 0x41, 0xF0, 0xAA, 0x9B, 0x94],
        ),
        (&[0xEF, 0xBB, 0xBF], &[0x00, 0x03, 0xEF, 0xBB, 0xBF]),
        (
            &[0x41, 0xEF, 0xBB, 0xBF],
            &[0x00, 0x04, 0x41, 0xEF, 0xBB, 0xBF],
        ),
        (
            &[0xEF, 0xBB, 0xBF, 0x41],
            &[0x00, 0x04, 0xEF, 0xBB, 0xBF, 0x41],
        ),
        (
            &[0x41, 0xEF, 0xBB, 0xBF, 0x41],
            &[0x00, 0x05, 0x41, 0xEF, 0xBB, 0xBF, 0x41],
        ),
    ];

    for (data, encoded) in test_cases.iter() {
        // Non-zero filling, since the first case encodes to zeros
        let mut r = MqttBufWriter::new(vec![0xFFu8; encoded.len()]);
        let mut rl = MqttLenWriter::default();

        r.put_binary_data(data)?;
        rl.put_binary_data(data)?;
        assert_eq!(r.position(), encoded.len());
        assert_eq!(rl.position(), encoded.len());
        assert_eq!(0, r.remaining());
        assert_contents(&r, encoded);
    }

    Ok(())
}

#[test]
fn mqtt_buf_writer_errors_on_overflow_for_binary_data() -> Result<()> {
    // Data that just fits in 5 bytes (2 for the length, 3 of data)
    let mut r = MqttBufWriter::new(vec![0u8; 5]);
    r.put_binary_data(&[1, 2, 3])?;
    assert_eq!(r.position(), 5);

    // One byte less fails
    let mut r = MqttBufWriter::new(vec![0u8; 4]);
    assert_eq!(
        r.put_binary_data(&[1, 2, 3]),
        Err(PacketWriteError::Overflow)
    );

    let mut r = MqttBufWriter::new(vec![0u8; 6]);
    assert_eq!(
        r.put_binary_data(&[1, 2, 3, 4, 5]),
        Err(PacketWriteError::Overflow)
    );

    Ok(())
}

#[test]
fn mqtt_writers_error_if_binary_data_too_large() -> Result<()> {
    // The longest data that can be encoded
    let data = [0xFF; DATA_MAX_LEN];
    let mut r = MqttBufWriter::new(vec![0u8; DATA_MAX_LEN + 2]);
    let mut rl = MqttLenWriter::default();
    r.put_binary_data(&data)?;
    rl.put_binary_data(&data)?;
    assert_eq!(r.position(), DATA_MAX_LEN + 2);
    assert_eq!(rl.position(), DATA_MAX_LEN + 2);

    // One byte more fails
    let data = [0xFF; DATA_MAX_LEN + 1];
    let mut r = MqttBufWriter::new(vec![0u8; DATA_MAX_LEN + 1 + 2]);
    let mut rl = MqttLenWriter::default();
    assert_eq!(
        r.put_binary_data(&data),
        Err(PacketWriteError::DataTooLarge)
    );
    assert_eq!(
        rl.put_binary_data(&data),
        Err(PacketWriteError::DataTooLarge)
    );

    Ok(())
}

#[test]
fn mqtt_writers_can_put_string_pairs() -> Result<()> {
    for (name, encoded_name) in STRING_CASES.iter() {
        for (value, encoded_value) in STRING_CASES.iter() {
            let string_pair = StringPair::new(name, value);
            let total_len = encoded_name.len() + encoded_value.len();
            let mut r = MqttBufWriter::new(vec![0u8; total_len]);
            let mut rl = MqttLenWriter::default();

            r.put_string_pair(&string_pair)?;
            rl.put_string_pair(&string_pair)?;

            assert_eq!(r.position(), total_len);
            assert_eq!(rl.position(), total_len);
            assert_eq!(0, r.remaining());

            let mut expected = encoded_name.to_vec();
            expected.extend_from_slice(encoded_value);
            assert_contents(&r, &expected);
        }
    }

    Ok(())
}

#[test]
fn mqtt_writers_can_put_reason_code() -> Result<()> {
    let codes = [
        ReasonCode::AdministrativeAction,
        ReasonCode::Banned,
        ReasonCode::GrantedQos1,
        ReasonCode::PayloadFormatInvalid,
        ReasonCode::Success,
        ReasonCode::UnspecifiedError,
        ReasonCode::WildcardSubscriptionsNotSupported,
    ];

    for code in codes.iter() {
        let mut r = MqttBufWriter::new(vec![0xFFu8]);
        r.put_reason_code(code)?;
        assert_eq!(1, r.position());
        assert_eq!(0, r.remaining());
        assert_eq!(r.into_inner()[0], code.value());
    }

    Ok(())
}

#[test]
fn buf_writer_position_plus_remaining_is_buffer_length() {
    let mut w = MqttBufWriter::new(vec![0u8; 5]);
    assert_eq!(w.position() + w.remaining(), 5);
    assert!(w.put_u16(7).is_ok());
    assert_eq!(w.position() + w.remaining(), 5);
    assert!(w.put_u32(9).is_err());
    assert_eq!(w.position() + w.remaining(), 5);
    assert!(w.put_str("a").is_ok());
    assert_eq!(w.position() + w.remaining(), 5);
    assert!(w.position() <= 5);
}

#[test]
fn len_writer_tracks_buf_writer() {
    let mut w = MqttBufWriter::new(vec![0u8; 64]);
    let mut lw = MqttLenWriter::new();
    assert!(w.put_u8(1).is_ok());
    assert!(lw.put_u8(1).is_ok());
    assert_eq!(lw.position(), w.position());
    assert!(w.put_variable_u32(300).is_ok());
    assert!(lw.put_variable_u32(300).is_ok());
    assert_eq!(lw.position(), w.position());
    assert!(w.put_str("topic").is_ok());
    assert!(lw.put_str("topic").is_ok());
    assert_eq!(lw.position(), w.position());
    assert!(w.put_binary_data(&[1, 2, 3]).is_ok());
    assert!(lw.put_binary_data(&[1, 2, 3]).is_ok());
    assert_eq!(lw.position(), w.position());
}
