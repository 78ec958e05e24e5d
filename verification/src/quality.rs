//! The three-tier image-quality policy: a total, deterministic mapping
//! from a user-selected tier to an encoder choice and its mime type.

use vstd::prelude::*;

verus! {

/// User-selectable space/fidelity preset for capture encoding.
#[derive(Clone, Copy, PartialEq, Eq, Structural, Debug)]
pub enum QualityTier {
    High,
    Medium,
    Low,
}

/// Declared media type of an encoded capture.
#[derive(Clone, Copy, PartialEq, Eq, Structural, Debug)]
pub enum Mime {
    Png,
    Jpeg,
}

/// Encoder choice picked by the policy: a bit-exact reversible encoding,
/// or a lossy one parameterized by an integer quality factor.
#[derive(Clone, Copy, PartialEq, Eq, Structural, Debug)]
pub enum EncoderChoice {
    Lossless,
    Lossy { quality: u8 },
}

/// What the policy hands to the encoder and the framer for one tier.
#[derive(Clone, Copy, PartialEq, Eq, Structural, Debug)]
pub struct EncoderPolicy {
    pub choice: EncoderChoice,
    pub mime: Mime,
}

/// The single source of truth for the tier table: High is lossless PNG,
/// Medium is JPEG at quality 75, Low is JPEG at quality 50.
pub open spec fn tier_policy(t: QualityTier) -> EncoderPolicy {
    match t {
        QualityTier::High => EncoderPolicy { choice: EncoderChoice::Lossless, mime: Mime::Png },
        QualityTier::Medium => (EncoderPolicy {
            choice: EncoderChoice::Lossy { quality: 75 },
            mime: Mime::Jpeg,
        }),
        QualityTier::Low => (EncoderPolicy {
            choice: EncoderChoice::Lossy { quality: 50 },
            mime: Mime::Jpeg,
        }),
    }
}

/// Every lossy quality factor the policy table emits lies in the
/// encoder's accepted range.
pub open spec fn policy_quality_in_range(p: EncoderPolicy) -> bool {
    p.choice matches EncoderChoice::Lossy { quality } ==> 1 <= quality <= 100
}

impl EncoderPolicy {
    /// Pure mapping from a quality tier to encoder parameters; cannot fail.
    pub fn of_tier(t: QualityTier) -> (p: EncoderPolicy)
        ensures
            p == tier_policy(t),
    {
        match t {
            QualityTier::High => EncoderPolicy { choice: EncoderChoice::Lossless, mime: Mime::Png },
            QualityTier::Medium => EncoderPolicy {
                choice: EncoderChoice::Lossy { quality: 75 },
                mime: Mime::Jpeg,
            },
            QualityTier::Low => EncoderPolicy {
                choice: EncoderChoice::Lossy { quality: 50 },
                mime: Mime::Jpeg,
            },
        }
    }
}

/// The tier table is total and deterministic: every tier maps to exactly
/// the policy given by `tier_policy`, the three rows are as stated, and
/// there is no tier beyond the three.
pub proof fn lemma_policy_total_deterministic()
    ensures
        tier_policy(QualityTier::High) == (EncoderPolicy {
            choice: EncoderChoice::Lossless,
            mime: Mime::Png,
        }),
        tier_policy(QualityTier::Medium) == (EncoderPolicy {
            choice: EncoderChoice::Lossy { quality: 75 },
            mime: Mime::Jpeg,
        }),
        tier_policy(QualityTier::Low) == (EncoderPolicy {
            choice: EncoderChoice::Lossy { quality: 50 },
            mime: Mime::Jpeg,
        }),
        forall|t: QualityTier| #[trigger] policy_quality_in_range(tier_policy(t)),
{
}

/// Which checkmark each tier row of a quality menu gets: exactly the row
/// of the current tier is checked.
pub fn quality_checkmarks(t: QualityTier) -> (r: (bool, bool, bool))
    ensures
        r.0 == (t == QualityTier::High),
        r.1 == (t == QualityTier::Medium),
        r.2 == (t == QualityTier::Low),
{
    (
        matches!(t, QualityTier::High),
        matches!(t, QualityTier::Medium),
        matches!(t, QualityTier::Low),
    )
}

} // verus!
