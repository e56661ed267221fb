//! Inflating zlib streams.

use std::io::Write;

use flate2::write::ZlibEncoder;
use flate2::Compression;
use voip_bridge::compression::inflate_zlib;

fn deflate(payload: &[u8]) -> Vec<u8> {
    let mut encoder = ZlibEncoder::new(Vec::new(), Compression::default());
    encoder.write_all(payload).unwrap();
    encoder.finish().unwrap()
}

#[test]
fn round_trips_a_compressed_payload() {
    let payload = b"history sync blob".repeat(100);
    let inflated = inflate_zlib(&deflate(&payload), None).unwrap();
    assert_eq!(inflated, payload);
}

#[test]
fn round_trips_an_empty_payload() {
    let inflated = inflate_zlib(&deflate(b""), None).unwrap();
    assert_eq!(inflated.len(), 0);
}

#[test]
fn rejects_output_larger_than_the_limit() {
    let compressed = deflate(&vec![0u8; 4096]);
    assert!(inflate_zlib(&compressed, Some(64)).is_err());
    assert!(inflate_zlib(&compressed, Some(4096)).is_ok());
}

#[test]
fn an_output_over_the_limit_is_told_so() {
    let compressed = deflate(&vec![7u8; 4096]);
    assert_eq!(
        inflate_zlib(&compressed, Some(4095)),
        Err("decompressed payload exceeds 4095 bytes".to_owned())
    );
    assert_eq!(inflate_zlib(&compressed, Some(4096)), Ok(vec![7u8; 4096]));
}

#[test]
fn rejects_data_that_is_not_a_zlib_stream() {
    assert!(inflate_zlib(b"not zlib at all", None).is_err());
}

#[test]
fn a_stream_that_breaks_off_is_told_so() {
    let mut cut = deflate(&[7u8; 4096]);
    cut.truncate(cut.len() - 6);
    assert_eq!(
        inflate_zlib(&cut, None),
        Err("zlib stream truncated (no progress)".to_owned())
    );
}

#[test]
fn rejects_a_non_positive_limit() {
    let compressed = deflate(b"payload");
    assert_eq!(
        inflate_zlib(&compressed, Some(0)),
        Err("maxOutputBytes must be a positive finite number".to_owned())
    );
    assert!(inflate_zlib(&compressed, Some(7)).is_ok());
}
