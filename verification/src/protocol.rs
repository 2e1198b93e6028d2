//! The acquisition protocol: a two-probe, non-blocking attempt with full
//! backoff. A philosopher probes its left fork, pauses, probes its right
//! fork, and then either holds both and may eat, or puts back whatever it
//! took and retries after a pause. It never holds one fork while waiting
//! on the other, so a circular wait cannot persist. The state machine
//! here records only the decisions; the probes themselves are made
//! against the fork table, or by the embedding program against real
//! locks, and their outcomes are fed in as events.

use vstd::prelude::*;
use rand::Rng;

verus! {

/// Where an acquisition attempt stands.
#[derive(Clone, Copy)]
pub enum Phase {
    /// Nothing probed yet; also the state right after a full backoff.
    Ready,
    /// The left fork has been probed and its outcome recorded.
    LeftProbed,
    /// Both probes succeeded: both forks are in hand, eating may begin.
    Acquired,
    /// At least one probe failed: whatever was taken must go back.
    Retry,
}

/// One acquisition attempt: the phase, plus which of the two forks the
/// philosopher actually holds at this point of the attempt.
#[derive(Clone, Copy)]
pub struct Attempt {
    pub phase: Phase,
    pub holds_left: bool,
    pub holds_right: bool,
}

impl Attempt {
    /// The protocol's soundness invariant: a fresh attempt holds
    /// nothing, and the eating phase is only ever reached with both
    /// forks in hand.
    pub open spec fn wf(self) -> bool {
        &&& self.phase is Ready ==> !self.holds_left && !self.holds_right
        &&& self.phase is Acquired ==> self.holds_left && self.holds_right
    }

    /// Begin an attempt: nothing probed, nothing held.
    pub fn start() -> (a: Attempt)
        ensures
            a.phase is Ready,
            !a.holds_left,
            !a.holds_right,
            a.wf(),
    {
        Attempt { phase: Phase::Ready, holds_left: false, holds_right: false }
    }

    /// Record the outcome of the non-blocking probe of the left fork.
    pub fn probe_left(self, got: bool) -> (a: Attempt)
        requires
            self.phase is Ready,
            self.wf(),
        ensures
            a.phase is LeftProbed,
            a.holds_left == got,
            !a.holds_right,
            a.wf(),
    {
        Attempt { phase: Phase::LeftProbed, holds_left: got, holds_right: false }
    }

    /// Record the outcome of the probe of the right fork and decide:
    /// with both forks in hand the attempt is `Acquired`; anything less
    /// is `Retry` — put back whatever is held and start over later.
    pub fn probe_right(self, got: bool) -> (a: Attempt)
        requires
            self.phase is LeftProbed,
            self.wf(),
        ensures
            a.holds_left == self.holds_left,
            a.holds_right == got,
            a.phase is Acquired <==> (self.holds_left && got),
            !(self.holds_left && got) ==> a.phase is Retry,
            a.wf(),
    {
        if self.holds_left && got {
            Attempt { phase: Phase::Acquired, holds_left: true, holds_right: true }
        } else {
            Attempt { phase: Phase::Retry, holds_left: self.holds_left, holds_right: got }
        }
    }

    /// Finish the full backoff of a failed pairing: both forks have been
    /// put back, and the attempt is ready to start over.
    pub fn release_for_retry(self) -> (a: Attempt)
        requires
            self.phase is Retry,
        ensures
            a.phase is Ready,
            !a.holds_left,
            !a.holds_right,
            a.wf(),
    {
        Attempt { phase: Phase::Ready, holds_left: false, holds_right: false }
    }

    /// Whether the attempt has secured both forks.
    pub fn is_acquired(&self) -> (r: bool)
        ensures
            r == (self.phase is Acquired),
    {
        match self.phase {
            Phase::Acquired => true,
            _ => false,
        }
    }
}

/// No false success: an attempt that has reached the `Acquired` phase
/// verifiably holds both the left and the right fork.
pub proof fn lemma_no_false_success(a: Attempt)
    requires
        a.wf(),
        a.phase is Acquired,
    ensures
        a.holds_left && a.holds_right,
{
}

/// Release on all paths: an attempt that is ready to start over — in
/// particular one that has just backed off from a failed pairing —
/// holds neither fork.
pub proof fn lemma_ready_holds_nothing(a: Attempt)
    requires
        a.wf(),
        a.phase is Ready,
    ensures
        !a.holds_left && !a.holds_right,
{
}

/// The bounded pauses the protocol takes between its steps.
#[derive(Clone, Copy)]
pub enum BackoffKind {
    /// Between the two probes: deliberately wide, so that neighbours
    /// interleave and contention is actually exercised.
    ProbeGap,
    /// After a failed pairing, before starting the attempt over.
    RetryPause,
    /// While thinking, before announcing the new idea.
    ThinkDelay,
    /// While eating, with both forks in hand.
    EatHold,
}

/// Relies on rand's `Rng::gen_range` over `lo..hi`: it returns a value
/// drawn from [lo, hi) and panics only on an empty range, which the
/// `requires` rules out.
#[verifier::external_body]
fn random_in(lo: u64, hi: u64) -> (r: u64)
    requires
        lo < hi,
    ensures
        lo <= r < hi,
{
    rand::thread_rng().gen_range(lo..hi)
}

/// How long to pause, in milliseconds: a fresh bounded random draw for
/// each pause of the given kind. The retry pause is drawn from a
/// one-value range, so it is effectively a fixed short delay.
pub fn backoff_millis(kind: BackoffKind) -> (ms: u64)
    ensures
        kind is ProbeGap ==> 1 <= ms < 1000,
        kind is RetryPause ==> ms == 100,
        kind is ThinkDelay ==> 1 <= ms < 10,
        kind is EatHold ==> 1 <= ms < 10,
{
    match kind {
        BackoffKind::ProbeGap => random_in(1, 1000),
        BackoffKind::RetryPause => random_in(100, 101),
        BackoffKind::ThinkDelay => random_in(1, 10),
        BackoffKind::EatHold => random_in(1, 10),
    }
}

} // verus!
