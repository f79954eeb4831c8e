use avalanche_classifier::lifecycle::{Lifecycle, Phase};
use avalanche_classifier::scoring::{RequestOutcome, ValidationError};

#[test]
fn poll_before_submit_is_idle() {
    let m = Lifecycle::new();
    assert_eq!(*m.poll(), Phase::Idle);
}

#[test]
fn submit_then_poll_is_pending() {
    let mut m = Lifecycle::new();
    assert!(m.submit());
    assert_eq!(*m.poll(), Phase::Pending);
}

#[test]
fn second_submit_while_pending_is_refused() {
    let mut m = Lifecycle::new();
    assert!(m.submit());
    assert!(!m.submit());
    assert_eq!(*m.poll(), Phase::Pending);
}

#[test]
fn resolution_is_stable_across_polls() {
    let mut m = Lifecycle::new();
    assert!(m.submit());
    let outcome = RequestOutcome::Rejected(ValidationError::Transport);
    assert!(m.resolve(outcome.clone()));
    assert_eq!(*m.poll(), Phase::Resolved(outcome.clone()));
    // repeated polls observe the same terminal outcome
    assert_eq!(*m.poll(), Phase::Resolved(outcome.clone()));
    // a second delivery is refused: the outcome is terminal
    assert!(!m.resolve(RequestOutcome::Rejected(ValidationError::MalformedPayload)));
    assert_eq!(*m.poll(), Phase::Resolved(outcome));
}

#[test]
fn resolve_without_submit_is_refused() {
    let mut m = Lifecycle::new();
    assert!(!m.resolve(RequestOutcome::Rejected(ValidationError::Transport)));
    assert_eq!(*m.poll(), Phase::Idle);
}

#[test]
fn submit_after_resolution_restarts_the_cycle() {
    let mut m = Lifecycle::new();
    assert!(m.submit());
    assert!(m.resolve(RequestOutcome::Rejected(ValidationError::Transport)));
    assert!(m.submit());
    assert_eq!(*m.poll(), Phase::Pending);
}
