use capture_core::encoder::{encode_raster, lossless_roundtrip_high, rgba_to_rgb};
use capture_core::framer::{frame, unframe};
use capture_core::quality::{EncoderChoice, Mime};
use capture_core::raster::{DecodeError, EncodeError, RawFrame};
use capture_core::sinks::{clipboard_image, save_image_bytes};

fn gradient_raster(width: u32, height: u32) -> RawFrame {
    let mut buf = Vec::with_capacity((width * height * 4) as usize);
    for y in 0..height {
        for x in 0..width {
            buf.push((x % 256) as u8);
            buf.push((y % 256) as u8);
            buf.push(((x + y) % 256) as u8);
            buf.push(255);
        }
    }
    RawFrame::new(width, height, buf)
}

#[test]
fn rgba_to_rgb_drops_alpha() {
    let rgba = vec![1u8, 2, 3, 4, 5, 6, 7, 8];
    assert_eq!(rgba_to_rgb(&rgba), [1, 2, 3, 5, 6, 7]);
}

#[test]
fn lossless_roundtrip_one_pixel() {
    let frame = RawFrame::new(1, 1, vec![10, 20, 30, 40]);
    let out = lossless_roundtrip_high(&frame);
    assert_eq!(out.width, 1);
    assert_eq!(out.height, 1);
    assert_eq!(out.buffer, frame.buffer);
}

#[test]
fn lossless_roundtrip_large_synthetic() {
    let frame = gradient_raster(1000, 600);
    let out = lossless_roundtrip_high(&frame);
    assert_eq!(out.width, frame.width);
    assert_eq!(out.height, frame.height);
    assert_eq!(out.buffer, frame.buffer);
}

#[test]
fn png_encoding_changes_bytes() {
    let frame = RawFrame::new(1, 1, vec![10, 20, 30, 40]);
    let bytes = encode_raster(&frame, EncoderChoice::Lossless).unwrap();
    assert_ne!(bytes, frame.buffer);
    // a real PNG stream begins with the PNG signature
    assert_eq!(&bytes[..8], [0x89, 0x50, 0x4e, 0x47, 0x0d, 0x0a, 0x1a, 0x0a]);
}

#[test]
fn jpeg_encoding_produces_jpeg_stream() {
    let frame = gradient_raster(32, 32);
    let bytes = encode_raster(&frame, EncoderChoice::Lossy { quality: 75 }).unwrap();
    assert_eq!(&bytes[..3], [0xff, 0xd8, 0xff]);
}

#[test]
fn lossy_monotonicity_on_photographic_raster() {
    let frame = gradient_raster(256, 256);
    let low = encode_raster(&frame, EncoderChoice::Lossy { quality: 50 }).unwrap();
    let medium = encode_raster(&frame, EncoderChoice::Lossy { quality: 75 }).unwrap();
    let best = encode_raster(&frame, EncoderChoice::Lossy { quality: 100 }).unwrap();
    assert!(low.len() <= medium.len());
    assert!(medium.len() <= best.len());
}

#[test]
fn encode_rejects_length_mismatch() {
    let frame = RawFrame::new(2, 2, vec![0u8; 15]);
    let r = encode_raster(&frame, EncoderChoice::Lossless);
    assert_eq!(r.unwrap_err(), EncodeError::LengthMismatch);
}

#[test]
fn encode_rejects_zero_dimensions() {
    let frame = RawFrame::new(0, 0, Vec::new());
    let r = encode_raster(&frame, EncoderChoice::Lossless);
    assert_eq!(r.unwrap_err(), EncodeError::UnsupportedDimensions);
}

#[test]
fn clipboard_decodes_png_payload_exactly() {
    let frame = RawFrame::new(2, 1, vec![1, 2, 3, 255, 9, 8, 7, 255]);
    let bytes = encode_raster(&frame, EncoderChoice::Lossless).unwrap();
    let payload = frame_payload(bytes, Mime::Png);
    let out = clipboard_image(&payload).unwrap();
    assert_eq!(out.width, 2);
    assert_eq!(out.height, 1);
    assert_eq!(out.buffer, frame.buffer);
}

#[test]
fn clipboard_decodes_jpeg_payload_size() {
    let frame = gradient_raster(48, 16);
    let bytes = encode_raster(&frame, EncoderChoice::Lossy { quality: 75 }).unwrap();
    let payload = frame_payload(bytes, Mime::Jpeg);
    let out = clipboard_image(&payload).unwrap();
    assert_eq!(out.width, 48);
    assert_eq!(out.height, 16);
    assert_eq!(out.buffer.len(), 48 * 16 * 4);
}

#[test]
fn clipboard_rejects_non_image_payload() {
    let r = clipboard_image("data:image/png;base64,aGVsbG8=");
    assert_eq!(r.unwrap_err(), DecodeError::UnsupportedFormat);
}

#[test]
fn save_image_bytes_identical_to_encoded_portion() {
    let frame = gradient_raster(8, 8);
    let encoded = encode_raster(&frame, EncoderChoice::Lossless).unwrap();
    let payload = frame_payload(encoded.clone(), Mime::Png);
    let saved = save_image_bytes(&payload).unwrap();
    assert_eq!(saved, encoded);
}

#[test]
fn save_image_bytes_accepts_missing_prefix() {
    let frame = gradient_raster(4, 4);
    let encoded = encode_raster(&frame, EncoderChoice::Lossless).unwrap();
    let payload = frame_payload(encoded.clone(), Mime::Png);
    let bare = payload.replace("data:image/png;base64,", "");
    let saved = save_image_bytes(&bare).unwrap();
    assert_eq!(saved, encoded);
}

fn frame_payload(bytes: Vec<u8>, mime: Mime) -> String {
    let s = frame(&bytes, mime);
    // sanity: the payload really is the framed form read back by unframe
    let (m, b) = unframe(&s).unwrap();
    assert_eq!(m, mime);
    assert_eq!(b, bytes);
    s
}
