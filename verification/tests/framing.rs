use capture_core::framer::{frame, frame_then_unframe, unframe};
use capture_core::quality::Mime;
use capture_core::raster::DecodeError;

#[test]
fn frame_exact_value() {
    let bytes = vec![1u8, 2, 3];
    let s = frame(&bytes, Mime::Png);
    assert_eq!(s, "data:image/png;base64,AQID");
    let s = frame(&bytes, Mime::Jpeg);
    assert_eq!(s, "data:image/jpeg;base64,AQID");
}

#[test]
fn frame_unframe_roundtrip_png() {
    let bytes: Vec<u8> = (0u8..=255).collect();
    let s = frame(&bytes, Mime::Png);
    let (m, b) = unframe(&s).unwrap();
    assert_eq!(m, Mime::Png);
    assert_eq!(b, bytes);
}

#[test]
fn frame_unframe_roundtrip_jpeg() {
    let bytes = vec![0u8, 255, 17, 42, 9];
    let s = frame(&bytes, Mime::Jpeg);
    let (m, b) = unframe(&s).unwrap();
    assert_eq!(m, Mime::Jpeg);
    assert_eq!(b, bytes);
}

#[test]
fn frame_then_unframe_theorem_runs() {
    let bytes = vec![7u8, 0, 0, 9, 200, 31];
    let r = frame_then_unframe(&bytes, Mime::Png).unwrap();
    assert_eq!(r.0, Mime::Png);
    assert_eq!(r.1, bytes);
    let r = frame_then_unframe(&bytes, Mime::Jpeg).unwrap();
    assert_eq!(r.0, Mime::Jpeg);
    assert_eq!(r.1, bytes);
}

#[test]
fn unframe_with_prefix_known_value() {
    let (m, b) = unframe("data:image/jpeg;base64,aGVsbG8=").unwrap();
    assert_eq!(m, Mime::Jpeg);
    assert_eq!(b, b"hello");
}

#[test]
fn unframe_without_prefix_sniffs_png() {
    // base64 of the eight-byte PNG signature
    let (m, b) = unframe("iVBORw0KGgo=").unwrap();
    assert_eq!(m, Mime::Png);
    assert_eq!(b, [0x89, 0x50, 0x4e, 0x47, 0x0d, 0x0a, 0x1a, 0x0a]);
}

#[test]
fn unframe_without_prefix_sniffs_jpeg() {
    // base64 of the JPEG start-of-image marker
    let (m, b) = unframe("/9j/").unwrap();
    assert_eq!(m, Mime::Jpeg);
    assert_eq!(b, [0xff, 0xd8, 0xff]);
}

#[test]
fn unframe_malformed_base64_after_prefix() {
    let r = unframe("data:image/png;base64,!!!");
    assert_eq!(r.unwrap_err(), DecodeError::MalformedBase64);
}

#[test]
fn unframe_malformed_base64_no_prefix() {
    let r = unframe("@@@");
    assert_eq!(r.unwrap_err(), DecodeError::MalformedBase64);
}

#[test]
fn unframe_noncanonical_padding_rejected() {
    // "AQID" is canonical; stray padding is not
    let r = unframe("AQID=");
    assert_eq!(r.unwrap_err(), DecodeError::MalformedBase64);
}

#[test]
fn unframe_unrecognized_bytes_without_prefix() {
    // decodes to "hello", which carries no image signature
    let r = unframe("aGVsbG8=");
    assert_eq!(r.unwrap_err(), DecodeError::UnsupportedFormat);
}

#[test]
fn unframe_empty_payload() {
    let r = unframe("");
    assert_eq!(r.unwrap_err(), DecodeError::UnsupportedFormat);
}
