use compressible::CompressorError;
use compressible::Record;
use compressible::TCompressible;

#[test]
fn serialized_form_is_the_documented_layout() {
    let record = Record { field1: "A".to_string(), field2: 1 };
    let bytes = record.serialize();
    let expected: Vec<u8> = vec![
        1, 0, 0, 0, 0, 0, 0, 0, // length of the UTF-8 text, little endian
        65, // "A"
        1, 0, 0, 0, 0, 0, 0, 0, // the integer, little endian
    ];
    assert_eq!(bytes, expected);
}

#[test]
fn negative_integers_serialize_in_twos_complement() {
    let record = Record { field1: String::new(), field2: -1 };
    let bytes = record.serialize();
    let expected: Vec<u8> = vec![
        0, 0, 0, 0, 0, 0, 0, 0, // empty text
        0xFF, 0xFF, 0xFF, 0xFF, 0xFF, 0xFF, 0xFF, 0xFF, // -1
    ];
    assert_eq!(bytes, expected);
}

#[test]
fn serialize_deserialize_round_trips_edge_values() {
    let records = vec![
        Record { field1: String::new(), field2: 0 },
        Record { field1: "Hello".to_string(), field2: 42 },
        Record { field1: "snow\u{2603} and acc\u{00E9}nts".to_string(), field2: -42 },
        Record { field1: "\u{10FFFF}".to_string(), field2: i64::MIN },
        Record { field1: "x".repeat(100_000), field2: i64::MAX },
    ];
    for record in records {
        let bytes = record.serialize();
        let back = Record::deserialize(&bytes).unwrap();
        assert_eq!(back, record);
    }
}

#[test]
fn compress_round_trips_edge_values() {
    let records = vec![
        Record { field1: String::new(), field2: 0 },
        Record { field1: "snow\u{2603}".to_string(), field2: i64::MIN },
        Record { field1: "y".repeat(100_000), field2: i64::MAX },
    ];
    for record in records {
        let payload = record.compress().unwrap();
        let back: Record = TCompressible::decompress(&payload).unwrap();
        assert_eq!(back, record);
    }
}

#[test]
fn too_short_input_is_rejected() {
    let result = Record::deserialize(&[]);
    match result {
        Err(CompressorError::DeserializationError(message)) => {
            assert_eq!(message, "record payload is shorter than its fixed fields");
        }
        other => panic!("expected a deserialization failure, got {:?}", other),
    }

    let result = Record::deserialize(&[0; 15]);
    assert!(matches!(result, Err(CompressorError::DeserializationError(_))));
}

#[test]
fn inconsistent_length_prefix_is_rejected() {
    let mut bytes = Record { field1: "AB".to_string(), field2: 5 }.serialize();
    bytes[0] = 99;
    match Record::deserialize(&bytes) {
        Err(CompressorError::DeserializationError(message)) => {
            assert_eq!(message, "length prefix does not match the payload size");
        }
        other => panic!("expected a deserialization failure, got {:?}", other),
    }
}

#[test]
fn invalid_utf8_text_is_rejected() {
    let mut bytes = Record { field1: "AB".to_string(), field2: 5 }.serialize();
    bytes[8] = 0xFF; // 0xFF never occurs in UTF-8
    match Record::deserialize(&bytes) {
        Err(CompressorError::DeserializationError(message)) => {
            assert_eq!(message, "record text is not valid UTF-8");
        }
        other => panic!("expected a deserialization failure, got {:?}", other),
    }
}

#[test]
fn truncated_serialized_record_is_rejected() {
    let bytes = Record { field1: "Hello".to_string(), field2: 42 }.serialize();
    for cut in 0..bytes.len() {
        let result = Record::deserialize(&bytes[..cut]);
        assert!(matches!(result, Err(CompressorError::DeserializationError(_))));
    }
}

#[test]
fn trailing_bytes_are_rejected() {
    let mut bytes = Record { field1: "AB".to_string(), field2: 5 }.serialize();
    bytes.push(0);
    assert!(matches!(
        Record::deserialize(&bytes),
        Err(CompressorError::DeserializationError(_))
    ));
}

#[test]
fn error_messages_are_exposed() {
    let error = Record::deserialize(&[1, 2, 3]).unwrap_err();
    assert_eq!(error.message(), "record payload is shorter than its fixed fields");
}
