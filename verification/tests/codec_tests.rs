use lzpack::cli::Operation;
use lzpack::codec::{compress_data, decompress_data, round_trip, run_transform, CodecError};

fn patterned(len: usize) -> Vec<u8> {
    let mut data = Vec::with_capacity(len);
    let mut i: usize = 0;
    while i < len {
        data.push((i % 251) as u8);
        i += 1;
    }
    data
}

#[test]
fn round_trip_small() {
    let original = b"Hello, world!".to_vec();
    let compressed = compress_data(&original).unwrap();
    assert_ne!(compressed, original);
    let decompressed = decompress_data(&compressed).unwrap();
    assert_eq!(decompressed, original);
}

#[test]
fn round_trip_one_chunk() {
    let original = patterned(1024 * 1024);
    let compressed = compress_data(&original).unwrap();
    let decompressed = decompress_data(&compressed).unwrap();
    assert_eq!(decompressed, original);
}

#[test]
fn round_trip_larger_than_one_chunk() {
    let original = patterned(3 * 1024 * 1024 + 17);
    let compressed = compress_data(&original).unwrap();
    let decompressed = decompress_data(&compressed).unwrap();
    assert_eq!(decompressed, original);
}

#[test]
fn round_trip_through_run_transform() {
    let original = patterned(4096);
    let compressed = run_transform(Operation::Compress, &original).unwrap();
    let decompressed = run_transform(Operation::Decompress, &compressed).unwrap();
    assert_eq!(decompressed, original);
}

#[test]
fn empty_input_passes_through() {
    let empty: Vec<u8> = Vec::new();
    assert_eq!(run_transform(Operation::Compress, &empty).unwrap(), empty);
    assert_eq!(run_transform(Operation::Decompress, &empty).unwrap(), empty);
}

#[test]
fn round_trip_function_reproduces_input() {
    let empty: Vec<u8> = Vec::new();
    assert_eq!(round_trip(&empty).unwrap(), empty);
    let small = b"Hello, world!".to_vec();
    assert_eq!(round_trip(&small).unwrap(), small);
    let large = patterned(2 * 1024 * 1024 + 5);
    assert_eq!(round_trip(&large).unwrap(), large);
}

#[test]
fn decompress_short_input_fails() {
    let garbage = b"Error!!!".to_vec();
    assert!(matches!(decompress_data(&garbage), Err(CodecError::DecompressFailed(_))));
}

#[test]
fn decompress_garbage_fails() {
    // Invalid LZMA properties byte, a small declared length, and a garbage
    // payload: long enough to pass the header check, impossible to decode.
    let mut garbage = vec![0xFFu8, 0, 0, 0, 0];
    garbage.extend_from_slice(&[11, 0, 0, 0, 0, 0, 0, 0]);
    garbage.extend_from_slice(b"not lzma data");
    assert!(matches!(decompress_data(&garbage), Err(CodecError::DecompressFailed(_))));
}

#[test]
fn error_messages() {
    assert_eq!(CodecError::CompressFailed(2).message(), "Compression failed: 2");
    assert_eq!(CodecError::DecompressFailed(1).message(), "Decompression failed: 1");
    assert_eq!(CodecError::DecompressFailed(6).message(), "Decompression failed: 6");
}
