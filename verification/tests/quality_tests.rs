use capture_core::quality::{quality_checkmarks, EncoderChoice, EncoderPolicy, Mime, QualityTier};

#[test]
fn policy_table_is_exact() {
    let p = EncoderPolicy::of_tier(QualityTier::High);
    assert_eq!(p.choice, EncoderChoice::Lossless);
    assert_eq!(p.mime, Mime::Png);

    let p = EncoderPolicy::of_tier(QualityTier::Medium);
    assert_eq!(p.choice, EncoderChoice::Lossy { quality: 75 });
    assert_eq!(p.mime, Mime::Jpeg);

    let p = EncoderPolicy::of_tier(QualityTier::Low);
    assert_eq!(p.choice, EncoderChoice::Lossy { quality: 50 });
    assert_eq!(p.mime, Mime::Jpeg);
}

#[test]
fn policy_is_deterministic() {
    for t in [QualityTier::High, QualityTier::Medium, QualityTier::Low] {
        assert_eq!(EncoderPolicy::of_tier(t), EncoderPolicy::of_tier(t));
    }
}

#[test]
fn checkmarks_follow_tier() {
    assert_eq!(quality_checkmarks(QualityTier::High), (true, false, false));
    assert_eq!(quality_checkmarks(QualityTier::Medium), (false, true, false));
    assert_eq!(quality_checkmarks(QualityTier::Low), (false, false, true));
}
