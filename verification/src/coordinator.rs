//! Arbitration of show/hide requests against an in-flight capture: a
//! three-state machine driven by toggle requests (hotkey, tray click,
//! menu) and the shell's capture-complete signal, plus the process-wide
//! current quality tier it guards.

use vstd::prelude::*;

use crate::quality::QualityTier;

verus! {

/// Window visibility as the coordinator tracks it.
#[derive(Clone, Copy, PartialEq, Eq, Structural, Debug)]
pub enum VisState {
    Hidden,
    Capturing,
    Visible,
}

/// What can drive a transition: a user toggle request from any trigger,
/// or the shell reporting that a capture payload has been rendered.
#[derive(Clone, Copy, PartialEq, Eq, Structural, Debug)]
pub enum VisEvent {
    Toggle,
    CaptureComplete,
}

/// The transition table: next state, and whether a start-capture signal
/// is emitted to the shell. A toggle in `Hidden` starts a capture and
/// waits; a toggle while still `Capturing` is a no-op rather than a
/// queued repeat; a toggle in `Visible` hides immediately; the shell's
/// capture-complete signal settles `Capturing` into `Visible`.
pub open spec fn step_spec(s: VisState, e: VisEvent) -> (VisState, bool) {
    match (s, e) {
        (VisState::Hidden, VisEvent::Toggle) => (VisState::Capturing, true),
        (VisState::Capturing, VisEvent::Toggle) => (VisState::Capturing, false),
        (VisState::Visible, VisEvent::Toggle) => (VisState::Hidden, false),
        (VisState::Capturing, VisEvent::CaptureComplete) => (VisState::Visible, false),
        (VisState::Hidden, VisEvent::CaptureComplete) => (VisState::Hidden, false),
        (VisState::Visible, VisEvent::CaptureComplete) => (VisState::Visible, false),
    }
}

/// Runs a sequence of events through the machine: the final state and
/// how many start-capture signals were emitted along the way.
pub open spec fn run_steps(s: VisState, evs: Seq<VisEvent>) -> (VisState, nat)
    decreases evs.len(),
{
    if evs.len() == 0 {
        (s, 0)
    } else {
        let first = step_spec(s, evs[0]);
        let rest = run_steps(first.0, evs.drop_first());
        (rest.0, (if first.1 {
            1nat
        } else {
            0nat
        }) + rest.1)
    }
}

proof fn lemma_capturing_absorbs_toggles(evs: Seq<VisEvent>)
    requires
        forall|i: int| 0 <= i < evs.len() ==> evs[i] == VisEvent::Toggle,
    ensures
        run_steps(VisState::Capturing, evs.push(VisEvent::CaptureComplete)) == (
            VisState::Visible,
            0nat,
        ),
    decreases evs.len(),
{
    reveal_with_fuel(run_steps, 3);
    let whole = evs.push(VisEvent::CaptureComplete);
    if evs.len() == 0 {
        assert(whole[0] == VisEvent::CaptureComplete);
        assert(whole.drop_first() =~= Seq::<VisEvent>::empty());
        assert(run_steps(VisState::Visible, whole.drop_first()) == (VisState::Visible, 0nat));
    } else {
        assert(whole[0] == VisEvent::Toggle);
        assert(whole.drop_first() =~= evs.drop_first().push(VisEvent::CaptureComplete));
        lemma_capturing_absorbs_toggles(evs.drop_first());
        assert(run_steps(VisState::Capturing, whole.drop_first()) == (VisState::Visible, 0nat));
    }
}

/// Idempotence of duplicate toggles: any burst of one or more toggle
/// requests arriving from `Hidden` before the capture settles, followed
/// by the capture-complete signal, emits exactly one start-capture
/// signal and ends in exactly one `Visible` transition.
pub proof fn lemma_toggle_burst_idempotent(n: nat)
    requires
        1 <= n,
    ensures
        run_steps(
            VisState::Hidden,
            Seq::new(n, |i: int| VisEvent::Toggle).push(VisEvent::CaptureComplete),
        ) == (VisState::Visible, 1nat),
{
    let toggles = Seq::new(n, |i: int| VisEvent::Toggle);
    let whole = toggles.push(VisEvent::CaptureComplete);
    assert(whole[0] == VisEvent::Toggle);
    assert(whole.drop_first() =~= Seq::new((n - 1) as nat, |i: int| VisEvent::Toggle).push(
        VisEvent::CaptureComplete,
    ));
    lemma_capturing_absorbs_toggles(Seq::new((n - 1) as nat, |i: int| VisEvent::Toggle));
}

/// Owns the visibility flag and the current quality tier; every
/// transition goes through `handle`, so concurrent triggers serialized
/// behind one exclusive lock cannot race or queue duplicate captures.
pub struct VisibilityCoordinator {
    pub state: VisState,
    pub tier: QualityTier,
}

impl VisibilityCoordinator {
    /// Starts hidden, at the lossless tier, matching a fresh process
    /// before any persisted setting is applied.
    pub fn new() -> (c: VisibilityCoordinator)
        ensures
            c.state == VisState::Hidden,
            c.tier == QualityTier::High,
    {
        VisibilityCoordinator { state: VisState::Hidden, tier: QualityTier::High }
    }

    /// Applies one event to the machine; returns whether the shell must
    /// be signalled to start a capture.
    pub fn handle(&mut self, e: VisEvent) -> (emit: bool)
        ensures
            final(self).state == step_spec(old(self).state, e).0,
            emit == step_spec(old(self).state, e).1,
            final(self).tier == old(self).tier,
    {
        match (self.state, e) {
            (VisState::Hidden, VisEvent::Toggle) => {
                self.state = VisState::Capturing;
                true
            },
            (VisState::Capturing, VisEvent::Toggle) => false,
            (VisState::Visible, VisEvent::Toggle) => {
                self.state = VisState::Hidden;
                false
            },
            (VisState::Capturing, VisEvent::CaptureComplete) => {
                self.state = VisState::Visible;
                false
            },
            (_, VisEvent::CaptureComplete) => false,
        }
    }

    /// A toggle request from the hotkey, the tray icon or the menu.
    pub fn toggle(&mut self) -> (emit: bool)
        ensures
            final(self).state == step_spec(old(self).state, VisEvent::Toggle).0,
            emit == step_spec(old(self).state, VisEvent::Toggle).1,
            final(self).tier == old(self).tier,
    {
        self.handle(VisEvent::Toggle)
    }

    /// The shell reports that it rendered a capture payload.
    pub fn capture_complete(&mut self)
        ensures
            final(self).state == step_spec(old(self).state, VisEvent::CaptureComplete).0,
            final(self).tier == old(self).tier,
    {
        let _ = self.handle(VisEvent::CaptureComplete);
    }

    /// Explicit user selection of a quality tier; visibility is
    /// untouched.
    pub fn set_quality(&mut self, t: QualityTier)
        ensures
            final(self).tier == t,
            final(self).state == old(self).state,
    {
        self.tier = t;
    }

    /// The tier a starting capture must read, once per invocation.
    pub fn current_quality(&self) -> (t: QualityTier)
        ensures
            t == self.tier,
    {
        self.tier
    }
}

} // verus!
