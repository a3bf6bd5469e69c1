//! Wall-clock deadline for cooperative search cancellation.
//!
//! A `Deadline` latches: once a poll has seen the budget spent (or
//! `force_expire` was called, the UCI `stop` path), every later poll
//! reports expiry too.  The search core's contracts are stated over this
//! latch: a call entered with an expired deadline does nothing.

use vstd::prelude::*;

verus! {

#[verifier::external_type_specification]
#[verifier::external_body]
pub struct ExInstant(std::time::Instant);

/// Relies on `std::time::Instant::now`: a monotonic clock reading.
#[verifier::external_body]
fn now_instant() -> std::time::Instant {
    std::time::Instant::now()
}

/// Relies on `std::time::Instant::elapsed` and `Duration::as_millis`:
/// wall-clock milliseconds since `start`.  Nothing is promised of the
/// value; callers must hold for every outcome.
#[verifier::external_body]
fn elapsed_millis(start: &std::time::Instant) -> u64 {
    let ms = start.elapsed().as_millis();
    if ms > u64::MAX as u128 {
        u64::MAX
    } else {
        ms as u64
    }
}

pub struct Deadline {
    start: std::time::Instant,
    budget_ms: u64,
    expired: bool,
}

impl Deadline {
    /// Whether some poll has already reported the budget spent.
    pub closed spec fn spec_expired(&self) -> bool {
        self.expired
    }

    pub closed spec fn budget(&self) -> u64 {
        self.budget_ms
    }

    /// Start the clock with `budget_ms` milliseconds to spend.
    pub fn new(budget_ms: u64) -> (r: Deadline)
        ensures
            !r.spec_expired(),
            r.budget() == budget_ms,
    {
        Deadline { start: now_instant(), budget_ms, expired: false }
    }

    /// Poll the clock: reports (and from then on keeps reporting) expiry
    /// once the elapsed wall time reaches the budget.
    pub fn poll(&mut self) -> (r: bool)
        ensures
            r == final(self).spec_expired(),
            final(self).budget() == old(self).budget(),
            old(self).spec_expired() ==> final(self).spec_expired(),
    {
        let elapsed = elapsed_millis(&self.start);
        if elapsed >= self.budget_ms {
            self.expired = true;
        }
        self.expired
    }

    /// Force expiry now (the UCI `stop` command).
    pub fn force_expire(&mut self)
        ensures
            final(self).spec_expired(),
            final(self).budget() == old(self).budget(),
    {
        self.expired = true;
    }

    /// Milliseconds elapsed since the deadline was created (for node-rate
    /// reporting; the value itself is unspecified).
    pub fn elapsed(&self) -> u64 {
        elapsed_millis(&self.start)
    }
}

} // verus!
