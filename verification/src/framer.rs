//! Transport framing of encoded captures: `frame` wraps encoded bytes as
//! a `data:<mime>;base64,<...>` string, `unframe` reads such a payload
//! back, tolerating a missing prefix when the bytes carry a recognized
//! image signature.

use vstd::prelude::*;

use crate::quality::Mime;
use crate::raster::DecodeError;

verus! {

/// The base64 text that the STANDARD engine produces for these bytes:
/// a function of the bytes alone.
pub uninterp spec fn b64_chars_of(b: Seq<u8>) -> Seq<char>;

/// Relies on base64's `Engine::encode` with the STANDARD engine: the
/// canonical padded base64 rendering of the input, a deterministic
/// function of the bytes alone. Encoding never fails.
#[verifier::external_body]
fn b64_encode(bytes: &Vec<u8>) -> (r: String)
    ensures
        r@ == b64_chars_of(bytes@),
{
    base64::Engine::encode(&base64::engine::general_purpose::STANDARD, bytes)
}

/// Relies on base64's `Engine::decode` with the STANDARD engine, whose
/// config demands canonical padding and rejects nonzero trailing bits:
/// it succeeds exactly on the canonical encodings, and on those it
/// inverts `Engine::encode`. The error detail is dropped: every failure
/// means the text is not a canonical encoding.
#[verifier::external_body]
fn b64_decode(s: &str) -> (r: Option<Vec<u8>>)
    ensures
        r matches Some(v) ==> s@ == b64_chars_of(v@),
        r matches Some(v) ==> forall|b: Seq<u8>| s@ == b64_chars_of(b) ==> v@ == b,
        r is None ==> forall|b: Seq<u8>| s@ != b64_chars_of(b),
{
    match base64::Engine::decode(&base64::engine::general_purpose::STANDARD, s) {
        Ok(v) => Some(v),
        Err(_) => None,
    }
}

/// The data-URI prefix declared for each supported mime type.
pub open spec fn prefix_of(m: Mime) -> Seq<char> {
    match m {
        Mime::Png => "data:image/png;base64,"@,
        Mime::Jpeg => "data:image/jpeg;base64,"@,
    }
}

/// The exact payload text for encoded bytes under a mime type.
pub open spec fn frame_spec(b: Seq<u8>, m: Mime) -> Seq<char> {
    prefix_of(m) + b64_chars_of(b)
}

/// Which recognized prefix a payload starts with, and the text after it.
pub open spec fn strip_prefix_spec(s: Seq<char>) -> Option<(Mime, Seq<char>)> {
    let png = prefix_of(Mime::Png);
    let jpeg = prefix_of(Mime::Jpeg);
    if s.len() >= png.len() && s.subrange(0, png.len() as int) == png {
        Some((Mime::Png, s.subrange(png.len() as int, s.len() as int)))
    } else if s.len() >= jpeg.len() && s.subrange(0, jpeg.len() as int) == jpeg {
        Some((Mime::Jpeg, s.subrange(jpeg.len() as int, s.len() as int)))
    } else {
        None
    }
}

/// The image signature, if any, at the head of decoded bytes: the PNG
/// eight-byte signature or the JPEG SOI marker.
pub open spec fn sniff_mime(b: Seq<u8>) -> Option<Mime> {
    if b.len() >= 8 && b[0] == 0x89u8 && b[1] == 0x50u8 && b[2] == 0x4eu8 && b[3] == 0x47u8 && b[4]
        == 0x0du8 && b[5] == 0x0au8 && b[6] == 0x1au8 && b[7] == 0x0au8 {
        Some(Mime::Png)
    } else if b.len() >= 3 && b[0] == 0xffu8 && b[1] == 0xd8u8 && b[2] == 0xffu8 {
        Some(Mime::Jpeg)
    } else {
        None
    }
}

/// What a successful `unframe` returned mime and bytes satisfy: either
/// the payload carried a recognized prefix and its remainder is the
/// base64 text of the bytes, or it carried none and is the base64 text
/// of bytes with a recognized image signature.
pub open spec fn unframe_ok_shape(s: Seq<char>, m: Mime, b: Seq<u8>) -> bool {
    match strip_prefix_spec(s) {
        Some(pm) => pm.0 == m && pm.1 == b64_chars_of(b),
        None => s == b64_chars_of(b) && sniff_mime(b) == Some(m),
    }
}

/// When `unframe` fails: after a recognized prefix the remainder is not
/// base64 text of any bytes; with no prefix, whatever bytes the payload
/// may spell in base64 carry no recognized image signature.
pub open spec fn unframe_fails(s: Seq<char>) -> bool {
    match strip_prefix_spec(s) {
        Some(pm) => forall|b: Seq<u8>| pm.1 != b64_chars_of(b),
        None => forall|b: Seq<u8>| s == b64_chars_of(b) ==> sniff_mime(b) is None,
    }
}

proof fn lemma_concat_parts(a: Seq<char>, b: Seq<char>)
    ensures
        (a + b).len() == a.len() + b.len(),
        (a + b).subrange(0, a.len() as int) == a,
        (a + b).subrange(a.len() as int, (a + b).len() as int) == b,
{
    assert((a + b).subrange(0, a.len() as int) =~= a);
    assert((a + b).subrange(a.len() as int, (a + b).len() as int) =~= b);
}

/// The two recognized prefixes differ, and neither framed form can start
/// with the other's prefix.
proof fn lemma_prefixes_distinct(s: Seq<char>, b: Seq<u8>)
    ensures
        s == frame_spec(b, Mime::Jpeg) ==> !(s.len() >= prefix_of(Mime::Png).len() && s.subrange(
            0,
            prefix_of(Mime::Png).len() as int,
        ) == prefix_of(Mime::Png)),
        s == frame_spec(b, Mime::Png) ==> strip_prefix_spec(s) == Some(
            (Mime::Png, b64_chars_of(b)),
        ),
        s == frame_spec(b, Mime::Jpeg) ==> strip_prefix_spec(s) == Some(
            (Mime::Jpeg, b64_chars_of(b)),
        ),
{
    reveal_strlit("data:image/png;base64,");
    reveal_strlit("data:image/jpeg;base64,");
    let png = prefix_of(Mime::Png);
    let jpeg = prefix_of(Mime::Jpeg);
    lemma_concat_parts(png, b64_chars_of(b));
    lemma_concat_parts(jpeg, b64_chars_of(b));
    if s == frame_spec(b, Mime::Jpeg) {
        assert(s[11] == 'j');
        if s.len() >= png.len() && s.subrange(0, png.len() as int) == png {
            assert(s.subrange(0, png.len() as int)[11] == s[11]);
            assert(png[11] == 'p');
        }
    }
}

/// Whether `s` begins with the characters of `p`.
fn str_starts_with(s: &str, p: &str) -> (r: bool)
    ensures
        r == (s@.len() >= p@.len() && s@.subrange(0, p@.len() as int) == p@),
{
    let n = s.unicode_len();
    let m = p.unicode_len();
    if n < m {
        return false;
    }
    let mut i: usize = 0;
    while i < m
        invariant
            m == p@.len(),
            n == s@.len(),
            m <= n,
            i <= m,
            forall|j: int| 0 <= j < i ==> s@[j] == p@[j],
        decreases m - i,
    {
        if s.get_char(i) != p.get_char(i) {
            proof {
                assert(s@.subrange(0, p@.len() as int)[i as int] == s@[i as int]);
            }
            return false;
        }
        i += 1;
    }
    proof {
        assert(s@.subrange(0, p@.len() as int) =~= p@);
    }
    true
}

/// Wraps encoded bytes into the transport payload
/// `data:<mime>;base64,<base64 of bytes>`. Pure and total.
pub fn frame(bytes: &Vec<u8>, mime: Mime) -> (r: String)
    ensures
        r@ == frame_spec(bytes@, mime),
{
    let mut s = match mime {
        Mime::Png => String::from_str("data:image/png;base64,"),
        Mime::Jpeg => String::from_str("data:image/jpeg;base64,"),
    };
    let b64 = b64_encode(bytes);
    s.append(b64.as_str());
    s
}

/// Inverse of `frame`: reads the mime type and encoded bytes back out of
/// a payload. A payload with a recognized prefix yields that mime and
/// its decoded remainder; one without is decoded whole and its mime read
/// from the image signature of the bytes. Fails with `MalformedBase64`
/// when the base64 portion is not canonical base64 text, and with
/// `UnsupportedFormat` when prefixless bytes carry no recognized
/// signature.
pub fn unframe(s: &str) -> (r: Result<(Mime, Vec<u8>), DecodeError>)
    ensures
        forall|b: Seq<u8>, m: Mime| s@ == frame_spec(b, m) ==> (r matches Ok(p) && p.0 == m
            && p.1@ == b),
        r matches Ok(p) ==> unframe_ok_shape(s@, p.0, p.1@),
        r is Err <==> unframe_fails(s@),
        r matches Err(e) ==> (strip_prefix_spec(s@) is Some ==> e == DecodeError::MalformedBase64),
        r matches Err(e) ==> (strip_prefix_spec(s@) is None ==> (e == DecodeError::MalformedBase64
            <==> (forall|b: Seq<u8>| s@ != b64_chars_of(b)))),
{
    proof {
        assert forall|b: Seq<u8>, m: Mime| s@ == frame_spec(b, m) implies strip_prefix_spec(s@)
            == Some((m, b64_chars_of(b))) by {
            lemma_prefixes_distinct(s@, b);
        }
    }
    let n = s.unicode_len();
    if str_starts_with(s, "data:image/png;base64,") {
        let plen = "data:image/png;base64,".unicode_len();
        let rest = s.substring_char(plen, n);
        proof {
            assert(strip_prefix_spec(s@) == Some((Mime::Png, rest@)));
        }
        match b64_decode(rest) {
            Some(v) => Ok((Mime::Png, v)),
            None => Err(DecodeError::MalformedBase64),
        }
    } else if str_starts_with(s, "data:image/jpeg;base64,") {
        let plen = "data:image/jpeg;base64,".unicode_len();
        let rest = s.substring_char(plen, n);
        proof {
            assert(strip_prefix_spec(s@) == Some((Mime::Jpeg, rest@)));
        }
        match b64_decode(rest) {
            Some(v) => Ok((Mime::Jpeg, v)),
            None => Err(DecodeError::MalformedBase64),
        }
    } else {
        match b64_decode(s) {
            Some(v) => match sniff_bytes(&v) {
                Some(m) => Ok((m, v)),
                None => Err(DecodeError::UnsupportedFormat),
            },
            None => Err(DecodeError::MalformedBase64),
        }
    }
}

/// Whether the bytes open with a recognized image signature.
fn sniff_bytes(b: &Vec<u8>) -> (r: Option<Mime>)
    ensures
        r == sniff_mime(b@),
{
    if b.len() >= 8 && b[0] == 0x89u8 && b[1] == 0x50u8 && b[2] == 0x4eu8 && b[3] == 0x47u8 && b[4]
        == 0x0du8 && b[5] == 0x0au8 && b[6] == 0x1au8 && b[7] == 0x0au8 {
        Some(Mime::Png)
    } else if b.len() >= 3 && b[0] == 0xffu8 && b[1] == 0xd8u8 && b[2] == 0xffu8 {
        Some(Mime::Jpeg)
    } else {
        None
    }
}

/// Round trip: unframing a framed payload yields the mime type and bytes
/// unchanged, for arbitrary byte sequences and both mime types.
pub fn frame_then_unframe(bytes: &Vec<u8>, mime: Mime) -> (r: Result<(Mime, Vec<u8>), DecodeError>)
    ensures
        r matches Ok(p) && p.0 == mime && p.1@ == bytes@,
{
    let s = frame(bytes, mime);
    unframe(s.as_str())
}

} // verus!
