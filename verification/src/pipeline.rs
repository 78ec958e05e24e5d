//! The capture pipeline: encode and frame one grabbed frame per display,
//! in enumeration order, all-or-nothing. The platform grabs themselves
//! are handed in as plain values, one outcome per enumerated display, so
//! the ordering and failure policy are proved for every possible set of
//! grab outcomes.

use vstd::prelude::*;

use crate::encoder::{encode_raster, encoded_bytes_spec};
use crate::framer::{frame, frame_spec};
use crate::quality::{tier_policy, EncoderPolicy, Mime, QualityTier};
use crate::raster::{CaptureError, DisplayDescriptor, EncodeError, PipelineError, RawFrame};

verus! {

/// One display's capture as handed across the pipeline boundary: the
/// display's placement, the encoded image's size, and the framed
/// data-URI payload. The raw encoded bytes are already dropped.
#[derive(Clone, Debug)]
pub struct EncodedCapture {
    pub x: i32,
    pub y: i32,
    pub width: u32,
    pub height: u32,
    pub scale_hundredths: u32,
    pub mime: Mime,
    pub data_uri: String,
}

/// What one display's entry in a successful capture payload holds:
/// placement and scale from the descriptor, size from the grabbed frame,
/// and the framed encoding of that frame under the tier's policy.
pub open spec fn capture_matches(
    d: DisplayDescriptor,
    f: RawFrame,
    tier: QualityTier,
    c: EncodedCapture,
) -> bool {
    let pol = tier_policy(tier);
    &&& c.x == d.x
    &&& c.y == d.y
    &&& c.width == f.width
    &&& c.height == f.height
    &&& c.scale_hundredths == d.scale_hundredths
    &&& c.mime == pol.mime
    &&& c.data_uri@ == frame_spec(encoded_bytes_spec(f, pol.choice), pol.mime)
}

/// Why one display's stage of the pipeline fails, if it does: a failed
/// grab propagates its error; a grabbed frame that breaks the raster
/// invariant or exceeds the codecs' limits fails the encode stage.
pub open spec fn failure_of(g: Result<RawFrame, CaptureError>) -> Option<PipelineError> {
    match g {
        Err(c) => Some(PipelineError::Capture(c)),
        Ok(f) => if !f.wf() {
            Some(PipelineError::Encode(EncodeError::LengthMismatch))
        } else if !f.encodable() {
            Some(PipelineError::Encode(EncodeError::UnsupportedDimensions))
        } else {
            None
        },
    }
}

/// Builds the capture payload for one invocation: for each enumerated
/// display, in enumeration order, the grabbed frame encoded under the
/// tier read once for the whole call and framed as a data URI. If any
/// display's grab or encode fails, the whole call fails with the first
/// such error and no partial payload survives.
pub fn capture_screen(
    descs: &Vec<DisplayDescriptor>,
    grabs: &Vec<Result<RawFrame, CaptureError>>,
    tier: QualityTier,
) -> (r: Result<Vec<EncodedCapture>, PipelineError>)
    requires
        descs@.len() == grabs@.len(),
    ensures
        r is Ok <==> (forall|i: int| 0 <= i < grabs@.len() ==> failure_of(grabs@[i]) is None),
        r matches Ok(caps) ==> caps@.len() == descs@.len(),
        r matches Ok(caps) ==> forall|i: int|
            #![trigger caps@[i]]
            0 <= i < caps@.len() ==> (grabs@[i] matches Ok(f) && capture_matches(
                descs@[i],
                f,
                tier,
                caps@[i],
            )),
        r matches Err(e) ==> exists|i: int|
            0 <= i < grabs@.len() && failure_of(grabs@[i]) == Some(e) && (forall|j: int|
                0 <= j < i ==> failure_of(grabs@[j]) is None),
{
    let pol = EncoderPolicy::of_tier(tier);
    let mut caps: Vec<EncodedCapture> = Vec::new();
    let mut i: usize = 0;
    while i < grabs.len()
        invariant
            descs@.len() == grabs@.len(),
            i <= grabs@.len(),
            caps@.len() == i,
            pol == tier_policy(tier),
            forall|j: int| 0 <= j < i ==> failure_of(grabs@[j]) is None,
            forall|j: int|
                #![trigger caps@[j]]
                0 <= j < i ==> (grabs@[j] matches Ok(f) && capture_matches(
                    descs@[j],
                    f,
                    tier,
                    caps@[j],
                )),
        decreases grabs@.len() - i,
    {
        match &grabs[i] {
            Err(c) => {
                return Err(PipelineError::Capture(*c));
            },
            Ok(f) => {
                match encode_raster(f, pol.choice) {
                    Err(e) => {
                        return Err(PipelineError::Encode(e));
                    },
                    Ok(bytes) => {
                        let data_uri = frame(&bytes, pol.mime);
                        let d = descs[i];
                        caps.push(
                            EncodedCapture {
                                x: d.x,
                                y: d.y,
                                width: f.width,
                                height: f.height,
                                scale_hundredths: d.scale_hundredths,
                                mime: pol.mime,
                                data_uri,
                            },
                        );
                    },
                }
            },
        }
        i += 1;
    }
    Ok(caps)
}

} // verus!
