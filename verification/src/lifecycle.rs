//! The request lifecycle state machine.
//!
//! One consumer drives it: `submit` opens a request, the completion of
//! the one in-flight invocation is delivered once through `resolve`, and
//! `poll` is a non-blocking read that never changes the state.  The
//! tagged `Phase` makes the invalid mix of a result and an error, or of
//! two requests in flight at once, unrepresentable.

use vstd::prelude::*;
use crate::scoring::RequestOutcome;

verus! {

/// Where one classification request stands.
#[derive(Clone, Debug, PartialEq, Eq)]
pub enum Phase {
    /// No request has been issued, or the last resolved one was cleared.
    Idle,
    /// Exactly one invocation is in flight.
    Pending,
    /// The terminal outcome of the last invocation, kept until the next
    /// `submit`.
    Resolved(RequestOutcome),
}

/// The consumer-facing lifecycle of at most one in-flight request.
#[derive(Clone, Debug, PartialEq, Eq)]
pub struct Lifecycle {
    phase: Phase,
}

impl Lifecycle {
    /// The phase the machine is in.
    pub closed spec fn spec_phase(self) -> Phase {
        self.phase
    }

    /// A fresh machine: nothing submitted yet.
    pub fn new() -> (m: Lifecycle)
        ensures
            m.spec_phase() == Phase::Idle,
    {
        Lifecycle { phase: Phase::Idle }
    }

    /// Opens a new request.  Valid from `Idle` or `Resolved`: any prior
    /// outcome is discarded and the machine moves to `Pending`, telling
    /// the caller to start exactly one invocation.  While a request is
    /// already in flight the submission is refused and nothing changes:
    /// a second in-flight request is disallowed.
    pub fn submit(&mut self) -> (started: bool)
        ensures
            started == !(old(self).spec_phase() is Pending),
            started ==> final(self).spec_phase() == Phase::Pending,
            !started ==> *final(self) == *old(self),
    {
        match self.phase {
            Phase::Pending => false,
            _ => {
                self.phase = Phase::Pending;
                true
            },
        }
    }

    /// Delivers the terminal outcome of the in-flight invocation.  Valid
    /// only from `Pending`; the machine becomes `Resolved(outcome)` and
    /// stays so until the next `submit`.  Outside `Pending` the delivery
    /// is refused and nothing changes, so an outcome is observed at most
    /// once per submission.
    pub fn resolve(&mut self, outcome: RequestOutcome) -> (delivered: bool)
        ensures
            delivered == (old(self).spec_phase() is Pending),
            delivered ==> final(self).spec_phase() == Phase::Resolved(outcome),
            !delivered ==> *final(self) == *old(self),
    {
        match self.phase {
            Phase::Pending => {
                self.phase = Phase::Resolved(outcome);
                true
            },
            _ => false,
        }
    }

    /// Non-blocking, idempotent read of the current phase: `Idle` before
    /// any submission, `Pending` while the invocation runs, and the same
    /// `Resolved` outcome on every poll after completion.
    pub fn poll(&self) -> (p: &Phase)
        ensures
            *p == self.spec_phase(),
    {
        &self.phase
    }
}

} // verus!
