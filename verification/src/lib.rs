//! Verified core of a multi-display screenshot utility: a quality-tier
//! policy, raster encoding, base64/data-URI framing, an all-or-nothing
//! capture pipeline, and the show/hide arbitration state machine.
//!
//! Platform work (display enumeration, frame grabs, clipboard, files)
//! is left to the surrounding shell; this crate holds the logic that
//! decides and transforms, with contracts proved by Verus.

pub mod coordinator;
pub mod encoder;
pub mod framer;
pub mod pipeline;
pub mod quality;
pub mod raster;
pub mod sinks;
