//! The compute half of the two consumers: turning a framed payload back
//! into the bytes a file gets, or into the raw RGBA raster the clipboard
//! gets. The actual file write and clipboard publish are platform calls
//! left to the shell.

use vstd::prelude::*;

use crate::encoder::{decode_raster, jpeg_bytes_of, jpeg_input_ok, png_bytes_of, png_input_ok};
use crate::framer::{
    b64_chars_of, frame_spec, sniff_mime, strip_prefix_spec, unframe, unframe_fails,
};
use crate::quality::Mime;
use crate::raster::{DecodeError, RawFrame};

verus! {

/// The bytes `save_image` hands to the file: exactly the encoded-bytes
/// portion of the payload, decoded from base64 and never re-encoded, so
/// the file is byte-identical to what was displayed or transmitted.
pub fn save_image_bytes(payload: &str) -> (r: Result<Vec<u8>, DecodeError>)
    ensures
        forall|b: Seq<u8>, m: Mime| payload@ == frame_spec(b, m) ==> (r matches Ok(v) && v@ == b),
        r matches Ok(v) ==> (match strip_prefix_spec(payload@) {
            Some(pm) => pm.1 == b64_chars_of(v@),
            None => payload@ == b64_chars_of(v@) && sniff_mime(v@) is Some,
        }),
        r is Err <==> unframe_fails(payload@),
{
    match unframe(payload) {
        Ok((_, bytes)) => Ok(bytes),
        Err(e) => Err(e),
    }
}

/// The raster `copy_to_clipboard` publishes: the payload un-framed and
/// decoded to raw RGBA pixels plus size. A payload framing a PNG stream
/// the pipeline encoded comes back pixel-for-pixel; one framing a JPEG
/// stream comes back at its encoded size.
pub fn clipboard_image(payload: &str) -> (r: Result<RawFrame, DecodeError>)
    ensures
        r matches Ok(f) ==> f.wf(),
        forall|w: u32, h: u32, p: Seq<u8>|
            png_input_ok(w as nat, h as nat, p) && payload@ == frame_spec(
                png_bytes_of(w as nat, h as nat, p),
                Mime::Png,
            ) ==> (r matches Ok(f) && f.width == w && f.height == h && f.buffer@ == p),
        forall|w: u32, h: u32, q: u8, p: Seq<u8>|
            jpeg_input_ok(w as nat, h as nat, q, p) && payload@ == frame_spec(
                jpeg_bytes_of(w as nat, h as nat, q, p),
                Mime::Jpeg,
            ) ==> (r matches Ok(f) && f.width == w && f.height == h),
        unframe_fails(payload@) ==> r is Err,
{
    let bytes = match unframe(payload) {
        Ok((_, bytes)) => bytes,
        Err(e) => {
            return Err(e);
        },
    };
    decode_raster(&bytes)
}

} // verus!
