use backend_supervisor::readiness::{PollVerdict, ReadinessWait, READY_POLL_INTERVAL_MS};

#[test]
fn wait_budget_is_four_polls_per_second() {
    let w = ReadinessWait::new(60);
    assert_eq!(w.remaining, 240);
    assert_eq!(READY_POLL_INTERVAL_MS, 250);
}

#[test]
fn success_ends_the_wait() {
    let mut w = ReadinessWait::new(1);
    assert_eq!(w.record_poll(false), PollVerdict::KeepWaiting);
    assert_eq!(w.record_poll(true), PollVerdict::Ready);
}

#[test]
fn exhausted_budget_times_out() {
    let mut w = ReadinessWait::new(1);
    assert_eq!(w.record_poll(false), PollVerdict::KeepWaiting);
    assert_eq!(w.record_poll(false), PollVerdict::KeepWaiting);
    assert_eq!(w.record_poll(false), PollVerdict::KeepWaiting);
    assert_eq!(w.record_poll(false), PollVerdict::TimedOut);
    assert!(w.exhausted());
}

#[test]
fn a_late_success_still_counts() {
    let mut w = ReadinessWait::new(1);
    assert_eq!(w.record_poll(false), PollVerdict::KeepWaiting);
    assert_eq!(w.record_poll(false), PollVerdict::KeepWaiting);
    assert_eq!(w.record_poll(false), PollVerdict::KeepWaiting);
    assert_eq!(w.record_poll(true), PollVerdict::Ready);
}
