use capture_core::coordinator::{VisEvent, VisState, VisibilityCoordinator};
use capture_core::quality::QualityTier;

#[test]
fn starts_hidden_at_high_quality() {
    let c = VisibilityCoordinator::new();
    assert_eq!(c.state, VisState::Hidden);
    assert_eq!(c.current_quality(), QualityTier::High);
}

#[test]
fn toggle_from_hidden_starts_capture() {
    let mut c = VisibilityCoordinator::new();
    let emit = c.toggle();
    assert!(emit);
    assert_eq!(c.state, VisState::Capturing);
}

#[test]
fn duplicate_toggle_while_capturing_is_noop() {
    let mut c = VisibilityCoordinator::new();
    let first = c.toggle();
    let second = c.toggle();
    // exactly one start-capture emission for the burst
    assert!(first);
    assert!(!second);
    assert_eq!(c.state, VisState::Capturing);
    c.capture_complete();
    assert_eq!(c.state, VisState::Visible);
}

#[test]
fn toggle_from_visible_hides_immediately() {
    let mut c = VisibilityCoordinator::new();
    let _ = c.toggle();
    c.capture_complete();
    let emit = c.toggle();
    assert!(!emit);
    assert_eq!(c.state, VisState::Hidden);
}

#[test]
fn capture_complete_outside_capturing_is_noop() {
    let mut c = VisibilityCoordinator::new();
    c.capture_complete();
    assert_eq!(c.state, VisState::Hidden);
    let _ = c.toggle();
    c.capture_complete();
    c.capture_complete();
    assert_eq!(c.state, VisState::Visible);
}

#[test]
fn handle_matches_table() {
    let mut c = VisibilityCoordinator::new();
    assert!(c.handle(VisEvent::Toggle));
    assert!(!c.handle(VisEvent::CaptureComplete));
    assert_eq!(c.state, VisState::Visible);
}

#[test]
fn set_quality_keeps_state() {
    let mut c = VisibilityCoordinator::new();
    let _ = c.toggle();
    c.set_quality(QualityTier::Low);
    assert_eq!(c.current_quality(), QualityTier::Low);
    assert_eq!(c.state, VisState::Capturing);
    c.set_quality(QualityTier::Medium);
    assert_eq!(c.current_quality(), QualityTier::Medium);
}
