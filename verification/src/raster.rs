//! Data carried through the pipeline: display descriptors, raw RGBA
//! rasters, and the error taxonomy of the capture-and-encode core.

use vstd::prelude::*;

verus! {

/// Snapshot of one attached monitor: integer origin, pixel size, and the
/// logical-to-physical scale factor in hundredths (150 means 1.5x).
/// Valid only for the lifetime of one enumeration.
#[derive(Clone, Copy, PartialEq, Eq, Structural, Debug)]
pub struct DisplayDescriptor {
    pub x: i32,
    pub y: i32,
    pub width: u32,
    pub height: u32,
    pub scale_hundredths: u32,
}

/// One uncompressed RGBA frame: a contiguous byte buffer plus its size.
#[derive(Clone, PartialEq, Eq, Debug)]
pub struct RawFrame {
    pub width: u32,
    pub height: u32,
    pub buffer: Vec<u8>,
}

/// Largest RGBA buffer the encoders are asked to handle: 256 MiB, well
/// under the image reader's default 512 MiB allocation limit, so that a
/// frame the pipeline encoded can always be decoded back.
pub const MAX_RASTER_BYTES: u64 = 0x1000_0000;

impl RawFrame {
    /// The raster invariant: the buffer holds exactly width x height
    /// four-byte pixels.
    pub open spec fn wf(self) -> bool {
        self.buffer@.len() == self.width * self.height * 4
    }

    /// Sizes both codecs accept: at least one pixel each way, JPEG's
    /// 65535 dimension ceiling, and the allocation bound.
    pub open spec fn encodable(self) -> bool {
        &&& 1 <= self.width <= 65535
        &&& 1 <= self.height <= 65535
        &&& self.width * self.height * 4 <= MAX_RASTER_BYTES
    }

    pub fn new(width: u32, height: u32, buffer: Vec<u8>) -> (r: RawFrame)
        ensures
            r == (RawFrame { width, height, buffer }),
    {
        RawFrame { width, height, buffer }
    }

    /// Runtime check of `wf`, usable by callers that received a buffer
    /// from outside.
    pub fn check_wf(&self) -> (r: bool)
        ensures
            r == self.wf(),
    {
        proof {
            assert((self.width as int) * (self.height as int) * 4 < 0x1_0000_0000_0000_0000_0000)
                by (nonlinear_arith);
        }
        let px = (self.width as u128) * (self.height as u128);
        self.buffer.len() as u128 == px * 4
    }

    /// Runtime check of `encodable`.
    pub fn check_encodable(&self) -> (r: bool)
        ensures
            r == self.encodable(),
    {
        proof {
            assert((self.width as int) * (self.height as int) * 4 < 0x1_0000_0000_0000_0000_0000)
                by (nonlinear_arith);
        }
        let px = (self.width as u128) * (self.height as u128);
        1 <= self.width && self.width <= 65535 && 1 <= self.height && self.height <= 65535
            && px * 4 <= MAX_RASTER_BYTES as u128
    }
}

/// The platform display service could not be queried at all.
#[derive(Clone, Copy, PartialEq, Eq, Structural, Debug)]
pub struct DisplayQueryError;

/// A single display's frame grab failed.
#[derive(Clone, Copy, PartialEq, Eq, Structural, Debug)]
pub enum CaptureError {
    /// The platform denied capture permission.
    PermissionDenied,
    /// The descriptor went stale: the display was removed between
    /// enumeration and grab.
    StaleDisplay,
    /// Any other backend failure.
    Backend,
}

/// A raster could not be encoded.
#[derive(Clone, Copy, PartialEq, Eq, Structural, Debug)]
pub enum EncodeError {
    /// The buffer length does not match width x height x 4.
    LengthMismatch,
    /// The dimensions fall outside what the codecs accept.
    UnsupportedDimensions,
}

/// A payload could not be read back.
#[derive(Clone, Copy, PartialEq, Eq, Structural, Debug)]
pub enum DecodeError {
    /// The base64 portion is not a canonical base64 encoding.
    MalformedBase64,
    /// The prefix is missing or unrecognized and the decoded bytes are
    /// not a supported image format.
    UnsupportedFormat,
}

/// First failure of one capture invocation, all-or-nothing.
#[derive(Clone, Copy, PartialEq, Eq, Structural, Debug)]
pub enum PipelineError {
    Display(DisplayQueryError),
    Capture(CaptureError),
    Encode(EncodeError),
}

} // verus!
