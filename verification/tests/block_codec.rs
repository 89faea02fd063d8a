use nimblelz4::block::{compress, decompress};

#[test]
fn block_round_trip_simple() {
    let input = b"Hello people, what's up?".to_vec();
    let compressed = compress(&input);
    let decompressed = decompress(&compressed, input.len()).unwrap();
    assert_eq!(decompressed, input);
}

#[test]
fn block_round_trip_empty() {
    let input: Vec<u8> = Vec::new();
    let compressed = compress(&input);
    let decompressed = decompress(&compressed, 0).unwrap();
    assert_eq!(decompressed, input);
}

#[test]
fn block_round_trip_large_repetitive() {
    let mut input: Vec<u8> = Vec::new();
    for i in 0..100_000usize {
        input.push((i % 251) as u8);
    }
    let compressed = compress(&input);
    let decompressed = decompress(&compressed, input.len()).unwrap();
    assert_eq!(decompressed, input);
}

#[test]
fn block_compression_shrinks_repetitive_input() {
    let input = vec![7u8; 10_000];
    let compressed = compress(&input);
    assert!(compressed.len() < input.len());
}

#[test]
fn block_matches_reference_implementation() {
    let input = b"the output must interoperate with any conformant decoder".to_vec();
    assert_eq!(compress(&input), lz4_flex::block::compress(&input));
}

#[test]
fn block_size_mismatch_is_reported() {
    let input = b"size bookkeeping is the caller's responsibility".to_vec();
    let compressed = compress(&input);
    assert!(decompress(&compressed, input.len() + 1).is_err());
    assert!(decompress(&compressed, input.len() - 1).is_err());
    assert!(decompress(&compressed, 0).is_err());
}

#[test]
fn block_size_mismatch_carries_a_message() {
    let input = b"mismatch".to_vec();
    let compressed = compress(&input);
    let err = decompress(&compressed, input.len() + 1).unwrap_err();
    assert!(!err.text().is_empty());
}

#[test]
fn block_malformed_input_is_reported() {
    // A token promising literals that the input does not contain.
    let garbage = vec![0xF0u8];
    assert!(decompress(&garbage, 255).is_err());
    // Truncated input: the empty block stream cannot decode to 255 bytes.
    assert!(decompress(&[], 255).is_err());
}
