use compressible::CompressionAlgorithm;
use compressible::CompressorError;
use compressible::CompressorFactory;
use compressible::Record;
use compressible::SnappyCompressor;
use compressible::TCompressible;
use compressible::TCompressor;

#[test]
fn test_default_compression() {
    let test_struct = Record { field1: "Hello".to_string(), field2: 42 };

    let compressed = test_struct.compress().unwrap();
    let decompressed: Record = TCompressible::decompress(&compressed).unwrap();

    assert_eq!(test_struct, decompressed);
}

#[test]
fn test_custom_compression() {
    let test_struct = Record { field1: "World".to_string(), field2: 24 };

    let compressor = SnappyCompressor;
    let compressed = test_struct.compress_with(&compressor).unwrap();
    let decompressed: Record = TCompressible::decompress_with(&compressed, &compressor).unwrap();

    assert_eq!(test_struct, decompressed);
}

#[test]
fn test_compression_with_algorithm() {
    let test_struct = Record { field1: "Algorithm".to_string(), field2: 100 };

    let compressed = test_struct
        .compress_with_algorithm(CompressionAlgorithm::Snappy)
        .unwrap();
    let decompressed: Record =
        TCompressible::decompress_with_algorithm(&compressed, CompressionAlgorithm::Snappy)
            .unwrap();

    assert_eq!(test_struct, decompressed);
}

#[test]
fn bytes_round_trip_through_every_compressor() {
    let inputs: Vec<Vec<u8>> = vec![
        Vec::new(),
        vec![0],
        b"some bytes worth compressing, some bytes worth compressing".to_vec(),
        vec![0xFF; 100_000],
    ];
    for input in inputs {
        let compressor = SnappyCompressor;
        let payload = compressor.compress(&input).unwrap();
        let recovered = compressor.decompress(&payload).unwrap();
        assert_eq!(recovered, input);
    }
}

#[test]
fn compression_actually_transforms_the_bytes() {
    let input = b"a payload that is not already a snappy frame".to_vec();
    let payload = SnappyCompressor.compress(&input).unwrap();
    assert_ne!(payload, input);
}

#[test]
fn selector_returns_a_usable_compressor_for_every_algorithm() {
    let algorithms = [CompressionAlgorithm::Snappy];
    for algorithm in algorithms {
        let compressor = CompressorFactory::get_compressor(algorithm);
        let input = b"selector exhaustiveness".to_vec();
        let payload = compressor.compress(&input).unwrap();
        let recovered = compressor.decompress(&payload).unwrap();
        assert_eq!(recovered, input);
    }
}

#[test]
fn cross_shape_consistency() {
    let record = Record { field1: "shapes agree".to_string(), field2: -7 };

    let by_default = record.compress().unwrap();
    let by_instance = record.compress_with(&SnappyCompressor).unwrap();
    let by_algorithm = record
        .compress_with_algorithm(CompressionAlgorithm::Snappy)
        .unwrap();
    assert_eq!(by_default, by_instance);
    assert_eq!(by_default, by_algorithm);

    let via_instance: Record =
        TCompressible::decompress_with(&by_default, &SnappyCompressor).unwrap();
    assert_eq!(via_instance, record);
    let via_algorithm: Record =
        TCompressible::decompress_with_algorithm(&by_instance, CompressionAlgorithm::Snappy)
            .unwrap();
    assert_eq!(via_algorithm, record);
    let via_default: Record = TCompressible::decompress(&by_algorithm).unwrap();
    assert_eq!(via_default, record);
}

#[test]
fn truncated_payload_is_detected() {
    let record = Record { field1: "corruption detection".to_string(), field2: 9000 };
    let payload = record.compress().unwrap();

    let truncated = &payload[..payload.len() - 1];
    let result: Result<Record, CompressorError> = TCompressible::decompress(truncated);
    assert!(matches!(result, Err(CompressorError::DecompressionError(_))));
}

#[test]
fn byte_flipped_payload_is_detected() {
    let record = Record { field1: "corruption detection".to_string(), field2: 9000 };
    let mut payload = record.compress().unwrap();

    let middle = payload.len() / 2;
    payload[middle] ^= 0xFF;
    let result: Result<Record, CompressorError> = TCompressible::decompress(&payload);
    assert!(matches!(result, Err(CompressorError::DecompressionError(_))));
}

#[test]
fn truncated_bytes_fail_at_the_compressor_level() {
    let input = b"enough bytes that truncation lands inside a chunk".to_vec();
    let payload = SnappyCompressor.compress(&input).unwrap();
    let result = SnappyCompressor.decompress(&payload[..payload.len() - 2]);
    assert!(matches!(result, Err(CompressorError::DecompressionError(_))));
}

#[test]
fn valid_payload_of_malformed_bytes_is_rejected_as_deserialization() {
    let garbage = b"not a serialized record".to_vec();
    let payload = SnappyCompressor.compress(&garbage).unwrap();
    let result: Result<Record, CompressorError> = TCompressible::decompress(&payload);
    assert!(matches!(result, Err(CompressorError::DeserializationError(_))));
}

#[test]
fn concrete_scenario_hello_42() {
    let value = Record { field1: "Hello".to_string(), field2: 42 };

    let payload = value.compress().unwrap();
    let recovered: Record = TCompressible::decompress(&payload).unwrap();
    assert_eq!(recovered.field1, "Hello");
    assert_eq!(recovered.field2, 42);

    let tagged_payload = value
        .compress_with_algorithm(CompressionAlgorithm::Snappy)
        .unwrap();
    let tagged_recovered: Record =
        TCompressible::decompress_with_algorithm(&tagged_payload, CompressionAlgorithm::Snappy)
            .unwrap();
    assert_eq!(tagged_recovered, value);
}
