//! Raster encoding and decoding. The codecs themselves come from the
//! image crate and are taken on trust through named results; the
//! dimension and length checks, the RGBA-to-RGB conversion for JPEG, and
//! the lossless round-trip law are verified here.

use vstd::prelude::*;

use crate::quality::{EncoderChoice, EncoderPolicy, QualityTier};
use crate::raster::{DecodeError, EncodeError, RawFrame, MAX_RASTER_BYTES};

verus! {

/// The PNG stream the image crate's PNG encoder writes for an RGBA
/// raster of this size: a function of the raster alone.
pub uninterp spec fn png_bytes_of(width: nat, height: nat, rgba: Seq<u8>) -> Seq<u8>;

/// The JPEG stream the image crate's JPEG encoder writes for an RGB
/// raster of this size at this quality factor: a function of the raster
/// and the factor alone.
pub uninterp spec fn jpeg_bytes_of(width: nat, height: nat, quality: u8, rgb: Seq<u8>) -> Seq<u8>;

#[verifier::external_type_specification]
#[verifier::external_body]
pub struct ExImageError(image::ImageError);

/// Arguments under which the PNG encoder is known to succeed and its
/// output is known to decode back.
pub open spec fn png_input_ok(width: nat, height: nat, rgba: Seq<u8>) -> bool {
    &&& 1 <= width <= 65535
    &&& 1 <= height <= 65535
    &&& rgba.len() == width * height * 4
    &&& width * height * 4 <= MAX_RASTER_BYTES
}

/// Arguments under which the JPEG encoder is known to succeed and its
/// output is known to decode to an image of the same size.
pub open spec fn jpeg_input_ok(width: nat, height: nat, quality: u8, rgb: Seq<u8>) -> bool {
    &&& 1 <= width <= 65535
    &&& 1 <= height <= 65535
    &&& 1 <= quality <= 100
    &&& rgb.len() == width * height * 3
    &&& width * height * 4 <= MAX_RASTER_BYTES
}

/// Relies on the image crate's `PngEncoder::write_image` with RGBA
/// eight-bit color: for a buffer of exactly width x height x 4 bytes and
/// nonzero dimensions it writes the PNG stream and cannot fail (the sink
/// is an in-memory vector).
#[verifier::external_body]
fn png_encode_rgba(width: u32, height: u32, rgba: &Vec<u8>) -> (r: Result<Vec<u8>, image::ImageError>)
    requires
        png_input_ok(width as nat, height as nat, rgba@),
    ensures
        r is Ok,
        r matches Ok(v) ==> v@ == png_bytes_of(width as nat, height as nat, rgba@),
{
    let mut out: Vec<u8> = Vec::new();
    let enc = image::codecs::png::PngEncoder::new(std::io::Cursor::new(&mut out));
    image::ImageEncoder::write_image(enc, rgba, width, height, image::ExtendedColorType::Rgba8)?;
    Ok(out)
}

/// Relies on the image crate's `JpegEncoder::new_with_quality` and
/// `JpegEncoder::encode` with RGB eight-bit color: for a buffer of
/// exactly width x height x 3 bytes, both dimensions in 1..=65535 and a
/// quality factor in 1..=100 it writes the JPEG stream and cannot fail
/// (the sink is an in-memory vector).
#[verifier::external_body]
fn jpeg_encode_rgb(width: u32, height: u32, quality: u8, rgb: &Vec<u8>) -> (r: Result<Vec<u8>, image::ImageError>)
    requires
        jpeg_input_ok(width as nat, height as nat, quality, rgb@),
    ensures
        r is Ok,
        r matches Ok(v) ==> v@ == jpeg_bytes_of(width as nat, height as nat, quality, rgb@),
{
    let mut out: Vec<u8> = Vec::new();
    let mut enc = image::codecs::jpeg::JpegEncoder::new_with_quality(
        std::io::Cursor::new(&mut out),
        quality,
    );
    enc.encode(rgb, width, height, image::ExtendedColorType::Rgb8)?;
    Ok(out)
}

/// Relies on the image crate's `load_from_memory` followed by
/// `DynamicImage::to_rgba8`: the result is an RGBA raster of the decoded
/// size; PNG decoding is lossless, so a stream the PNG encoder wrote
/// comes back as the very raster it encoded; a stream the JPEG encoder
/// wrote decodes to an image of the encoded size. Streams written by
/// either encoder under their known-good arguments stay within the
/// reader's default allocation limit and decode without error.
#[verifier::external_body]
fn decode_image_rgba(bytes: &Vec<u8>) -> (r: Result<(u32, u32, Vec<u8>), image::ImageError>)
    ensures
        r matches Ok(t) ==> t.2@.len() == t.0 * t.1 * 4,
        r matches Ok(t) ==> forall|w: u32, h: u32, p: Seq<u8>|
            png_input_ok(w as nat, h as nat, p) && bytes@ == png_bytes_of(w as nat, h as nat, p)
                ==> t.0 == w && t.1 == h && t.2@ == p,
        r matches Ok(t) ==> forall|w: u32, h: u32, q: u8, p: Seq<u8>|
            jpeg_input_ok(w as nat, h as nat, q, p) && bytes@ == jpeg_bytes_of(
                w as nat,
                h as nat,
                q,
                p,
            ) ==> t.0 == w && t.1 == h,
        r is Err ==> forall|w: u32, h: u32, p: Seq<u8>|
            png_input_ok(w as nat, h as nat, p) ==> bytes@ != png_bytes_of(w as nat, h as nat, p),
        r is Err ==> forall|w: u32, h: u32, q: u8, p: Seq<u8>|
            jpeg_input_ok(w as nat, h as nat, q, p) ==> bytes@ != jpeg_bytes_of(
                w as nat,
                h as nat,
                q,
                p,
            ),
{
    let img = image::load_from_memory(bytes)?;
    let rgba = img.to_rgba8();
    let (w, h) = (rgba.width(), rgba.height());
    Ok((w, h, rgba.into_raw()))
}

/// The RGB bytes left when every pixel's alpha byte is dropped.
pub open spec fn rgb_from_rgba(p: Seq<u8>) -> Seq<u8> {
    Seq::new((p.len() / 4) * 3, |i: int| p[(i / 3) * 4 + (i % 3)])
}

/// Drops the alpha channel: keeps the first three bytes of every
/// four-byte pixel.
pub fn rgba_to_rgb(p: &Vec<u8>) -> (r: Vec<u8>)
    ensures
        r@ == rgb_from_rgba(p@),
{
    proof {
        vstd::arithmetic::div_mod::lemma_fundamental_div_mod(p@.len() as int, 4);
    }
    let n = p.len();
    let px = n / 4;
    let mut out: Vec<u8> = Vec::new();
    let mut k: usize = 0;
    while k < px
        invariant
            n == p@.len(),
            px == p@.len() / 4,
            4 * px <= n,
            k <= px,
            out@.len() == 3 * k,
            forall|j: int| 0 <= j < out@.len() ==> out@[j] == p@[(j / 3) * 4 + (j % 3)],
        decreases px - k,
    {
        proof {
            vstd::arithmetic::div_mod::lemma_div_multiples_vanish_fancy(k as int, 0, 3);
            vstd::arithmetic::div_mod::lemma_div_multiples_vanish_fancy(k as int, 1, 3);
            vstd::arithmetic::div_mod::lemma_div_multiples_vanish_fancy(k as int, 2, 3);
            vstd::arithmetic::div_mod::lemma_mod_multiples_vanish(k as int, 0, 3);
            vstd::arithmetic::div_mod::lemma_mod_multiples_vanish(k as int, 1, 3);
            vstd::arithmetic::div_mod::lemma_mod_multiples_vanish(k as int, 2, 3);
        }
        out.push(p[4 * k]);
        out.push(p[4 * k + 1]);
        out.push(p[4 * k + 2]);
        k += 1;
    }
    proof {
        assert(out@ =~= rgb_from_rgba(p@));
    }
    out
}

/// The exact encoded stream for a raster under an encoder choice.
pub open spec fn encoded_bytes_spec(f: RawFrame, choice: EncoderChoice) -> Seq<u8> {
    match choice {
        EncoderChoice::Lossless => png_bytes_of(f.width as nat, f.height as nat, f.buffer@),
        EncoderChoice::Lossy { quality } => jpeg_bytes_of(
            f.width as nat,
            f.height as nat,
            quality,
            rgb_from_rgba(f.buffer@),
        ),
    }
}

/// Encodes a raw raster under the given encoder choice. Succeeds exactly
/// when the buffer length matches the declared size and the dimensions
/// are within what the codecs accept; the defensive length check is an
/// invariant violation surfaced as an error, never a panic.
pub fn encode_raster(frame: &RawFrame, choice: EncoderChoice) -> (r: Result<Vec<u8>, EncodeError>)
    requires
        choice matches EncoderChoice::Lossy { quality } ==> 1 <= quality <= 100,
    ensures
        r is Ok <==> (frame.wf() && frame.encodable()),
        r matches Ok(v) ==> v@ == encoded_bytes_spec(*frame, choice),
        r matches Err(e) ==> e == (if !frame.wf() {
            EncodeError::LengthMismatch
        } else {
            EncodeError::UnsupportedDimensions
        }),
{
    if !frame.check_wf() {
        return Err(EncodeError::LengthMismatch);
    }
    if !frame.check_encodable() {
        return Err(EncodeError::UnsupportedDimensions);
    }
    match choice {
        EncoderChoice::Lossless => {
            match png_encode_rgba(frame.width, frame.height, &frame.buffer) {
                Ok(v) => Ok(v),
                Err(_) => vstd::pervasive::unreached(),
            }
        },
        EncoderChoice::Lossy { quality } => {
            let rgb = rgba_to_rgb(&frame.buffer);
            proof {
                assert(rgb@.len() == frame.width * frame.height * 3) by {
                    let len = frame.buffer@.len() as int;
                    let wh = (frame.width * frame.height) as int;
                    assert(len == 4 * wh);
                    assert(len / 4 == wh) by {
                        vstd::arithmetic::div_mod::lemma_div_multiples_vanish(wh, 4);
                    }
                }
            }
            match jpeg_encode_rgb(frame.width, frame.height, quality, &rgb) {
                Ok(v) => Ok(v),
                Err(_) => vstd::pervasive::unreached(),
            }
        },
    }
}

/// Decodes an encoded image back to an RGBA raster. The returned raster
/// always satisfies the length invariant; a stream written by the PNG
/// encoder comes back pixel-for-pixel, and one written by the JPEG
/// encoder comes back at its encoded size.
pub fn decode_raster(bytes: &Vec<u8>) -> (r: Result<RawFrame, DecodeError>)
    ensures
        r matches Ok(f) ==> f.wf(),
        forall|w: u32, h: u32, p: Seq<u8>|
            png_input_ok(w as nat, h as nat, p) && bytes@ == png_bytes_of(w as nat, h as nat, p)
                ==> (r matches Ok(f) && f.width == w && f.height == h && f.buffer@ == p),
        forall|w: u32, h: u32, q: u8, p: Seq<u8>|
            jpeg_input_ok(w as nat, h as nat, q, p) && bytes@ == jpeg_bytes_of(
                w as nat,
                h as nat,
                q,
                p,
            ) ==> (r matches Ok(f) && f.width == w && f.height == h),
{
    match decode_image_rgba(bytes) {
        Ok((w, h, buf)) => Ok(RawFrame { width: w, height: h, buffer: buf }),
        Err(_) => Err(DecodeError::UnsupportedFormat),
    }
}

/// Lossless law: a raster encoded at the High tier (lossless PNG) and
/// decoded again is the original, pixel for pixel, for any raster from
/// one pixel up to the supported size bound.
pub fn lossless_roundtrip_high(frame: &RawFrame) -> (out: RawFrame)
    requires
        frame.wf(),
        frame.encodable(),
    ensures
        out.width == frame.width,
        out.height == frame.height,
        out.buffer@ == frame.buffer@,
{
    let policy = EncoderPolicy::of_tier(QualityTier::High);
    let bytes = match encode_raster(frame, policy.choice) {
        Ok(v) => v,
        Err(_) => vstd::pervasive::unreached(),
    };
    match decode_raster(&bytes) {
        Ok(f) => f,
        Err(_) => vstd::pervasive::unreached(),
    }
}

} // verus!
