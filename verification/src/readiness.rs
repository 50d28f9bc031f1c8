//! Readiness waiting: poll the liveness endpoint at a fixed interval until
//! the backend answers with a success status or the total wait is used up.
//!
//! The caller performs each HTTP poll (with its own short per-request
//! timeout, so one hung connection cannot stall the whole wait) and feeds
//! the verdict in; the budget accounting lives here. Deciding what to do on
//! timeout is the supervisor's job, not the waiter's.

use vstd::prelude::*;

verus! {

/// Fixed interval between liveness polls, in milliseconds.
pub const READY_POLL_INTERVAL_MS: u64 = 250;

/// Per-request timeout of each liveness poll, in milliseconds.
pub const READY_REQUEST_TIMEOUT_MS: u64 = 3000;

/// Polls attempted per second of total wait, at one per interval.
pub const POLLS_PER_SECOND: u64 = 4;

/// What the waiter tells the caller after each poll.
#[derive(Clone, Copy, Debug, PartialEq, Eq, Structural)]
pub enum PollVerdict {
    /// The backend answered with a success status: it is healthy.
    Ready,
    /// Not healthy yet; sleep one interval and poll again.
    KeepWaiting,
    /// The whole budget is spent without a healthy answer.
    TimedOut,
}

/// The poll budget of one readiness wait.
pub struct ReadinessWait {
    /// Failed polls still allowed before the wait times out.
    pub remaining: u64,
}

impl ReadinessWait {
    /// A wait of `total_wait_secs` seconds: short for re-validating a
    /// discovered instance, long (e.g. 60) for a cold launch that may
    /// involve first-run unpacking.
    pub fn new(total_wait_secs: u64) -> (w: ReadinessWait)
        requires
            total_wait_secs <= u64::MAX / POLLS_PER_SECOND,
        ensures
            w.remaining == total_wait_secs * POLLS_PER_SECOND,
    {
        ReadinessWait { remaining: total_wait_secs * POLLS_PER_SECOND }
    }

    /// Account one poll. A success answer is final; a failure spends one
    /// attempt and times the wait out once none are left. The verdict is
    /// `Ready` exactly when this poll succeeded, so a wait can only end
    /// ready on an observed healthy answer.
    pub fn record_poll(&mut self, poll_succeeded: bool) -> (v: PollVerdict)
        requires
            old(self).remaining > 0,
        ensures
            poll_succeeded ==> v == PollVerdict::Ready && *(final(self)) == *old(self),
            !poll_succeeded ==> *(final(self)) == (ReadinessWait {
                remaining: (old(self).remaining - 1) as u64,
            }) && v == (if old(self).remaining == 1 {
                PollVerdict::TimedOut
            } else {
                PollVerdict::KeepWaiting
            }),
            v == PollVerdict::Ready ==> poll_succeeded,
    {
        if poll_succeeded {
            PollVerdict::Ready
        } else {
            self.remaining = self.remaining - 1;
            if self.remaining == 0 {
                PollVerdict::TimedOut
            } else {
                PollVerdict::KeepWaiting
            }
        }
    }

    /// Whether any polls may still be made.
    pub fn exhausted(&self) -> (b: bool)
        ensures
            b == (self.remaining == 0),
    {
        self.remaining == 0
    }
}

} // verus!
