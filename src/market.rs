//! The bounded wait for a submitted request's fulfillment: when to poll, when to
//! sleep, and when the deadline has passed. The caller performs the polls and sleeps.
use vstd::prelude::*;

verus! {

/// What the caller does next while waiting for a fulfillment.
#[derive(Debug, PartialEq, Eq, Structural)]
pub enum WaitStep {
    /// Ask the marketplace for the request's status now.
    Poll,
    /// Sleep this many seconds, then ask again for the next step.
    Sleep(u64),
    /// The deadline has passed: the wait fails with an expiry.
    Expired,
    /// The wait was cancelled; the submitted request stands.
    Cancelled,
}

/// The state of one wait for the fulfillment of a submitted request.
/// Times are in seconds; polls fall due every `interval` seconds from `started_at`.
pub struct FulfillmentWait {
    pub request_id: [u8; 32],
    pub started_at: u64,
    pub expires_at: u64,
    pub interval: u64,
    pub polls: u64,
    pub cancelled: bool,
}

/// The time at which poll number `polls` (counting from zero) falls due.
pub open spec fn due_at(w: FulfillmentWait) -> int {
    w.started_at + w.polls * w.interval
}

/// The step to take at time `now`.
pub open spec fn step_at(w: FulfillmentWait, now: u64) -> WaitStep {
    if w.cancelled {
        WaitStep::Cancelled
    } else if now >= w.expires_at {
        WaitStep::Expired
    } else if now >= due_at(w) {
        WaitStep::Poll
    } else if due_at(w) < w.expires_at {
        WaitStep::Sleep((due_at(w) - now) as u64)
    } else {
        WaitStep::Sleep((w.expires_at - now) as u64)
    }
}

/// `ceil(a / b)`.
pub open spec fn ceil_div(a: int, b: int) -> int {
    (a + b - 1) / b
}

impl FulfillmentWait {
    /// Every poll made so far fell due, and was made, before the deadline.
    pub open spec fn wf(&self) -> bool {
        &&& self.interval > 0
        &&& self.polls == 0 || self.started_at + (self.polls - 1) * self.interval < self.expires_at
    }

    /// A wait that starts at `now` and polls every `interval` seconds until `expires_at`.
    pub fn new(request_id: [u8; 32], now: u64, expires_at: u64, interval: u64) -> (r: Self)
        requires
            interval > 0,
        ensures
            r.wf(),
            r.request_id == request_id,
            r.started_at == now,
            r.expires_at == expires_at,
            r.interval == interval,
            r.polls == 0,
            !r.cancelled,
    {
        FulfillmentWait { request_id, started_at: now, expires_at, interval, polls: 0, cancelled: false }
    }

    /// The step to take at time `now`.
    pub fn next_step(&self, now: u64) -> (r: WaitStep)
        requires
            self.wf(),
        ensures
            r == step_at(*self, now),
    {
        if self.cancelled {
            return WaitStep::Cancelled;
        }
        if now >= self.expires_at {
            return WaitStep::Expired;
        }
        proof {
            if self.polls > 0 {
                assert(self.started_at + self.polls * self.interval < self.expires_at + self.interval)
                    by (nonlinear_arith)
                    requires
                        self.started_at + (self.polls - 1) * self.interval < self.expires_at,
                        self.polls > 0,
                ;
            }
        }
        assert(self.polls * self.interval <= 0xffff_ffff_ffff_ffffu64 * 0xffff_ffff_ffff_ffffu64)
            by (nonlinear_arith)
            requires
                self.polls <= 0xffff_ffff_ffff_ffffu64,
                self.interval <= 0xffff_ffff_ffff_ffffu64,
        ;
        let due: u128 = self.started_at as u128 + self.polls as u128 * self.interval as u128;
        if now as u128 >= due {
            WaitStep::Poll
        } else if due < self.expires_at as u128 {
            WaitStep::Sleep((due - now as u128) as u64)
        } else {
            WaitStep::Sleep(self.expires_at - now)
        }
    }

    /// Records a poll made at `now`, when the step at `now` was to poll.
    pub fn record_poll(&mut self, now: u64)
        requires
            old(self).wf(),
            step_at(*old(self), now) == WaitStep::Poll,
        ensures
            final(self).wf(),
            final(self).polls == old(self).polls + 1,
            final(self).request_id == old(self).request_id,
            final(self).started_at == old(self).started_at,
            final(self).expires_at == old(self).expires_at,
            final(self).interval == old(self).interval,
            final(self).cancelled == old(self).cancelled,
    {
        assert(now < self.expires_at);
        assert(self.polls < u64::MAX) by (nonlinear_arith)
            requires
                self.interval > 0,
                self.started_at + self.polls * self.interval <= now,
                now < u64::MAX,
        ;
        self.polls = self.polls + 1;
    }

    /// Cancels the wait. The submitted request is left as it is: nothing is withdrawn.
    pub fn cancel(&mut self)
        ensures
            final(self).cancelled,
            final(self).request_id == old(self).request_id,
            final(self).expires_at == old(self).expires_at,
            final(self).interval == old(self).interval,
            final(self).polls == old(self).polls,
            final(self).started_at == old(self).started_at,
    {
        self.cancelled = true;
    }
}

/// The number of polls of a wait is at most `ceil((D - start) / P)`, for deadline `D`
/// and poll interval `P`; none is made when the wait starts at or after its deadline.
pub proof fn lemma_poll_bound(w: FulfillmentWait)
    requires
        w.wf(),
    ensures
        w.expires_at <= w.started_at ==> w.polls == 0,
        w.expires_at > w.started_at ==> w.polls <= ceil_div(w.expires_at - w.started_at, w.interval as int),
{
    if w.polls > 0 {
        let d = w.expires_at - w.started_at;
        let p = w.interval as int;
        let k = w.polls as int;
        assert((k - 1) * p >= 0) by (nonlinear_arith)
            requires k >= 1, p > 0;
        assert(k <= (d + p - 1) / p) by (nonlinear_arith)
            requires (k - 1) * p < d, p > 0, k >= 1;
    }
}

/// A cancelled wait leaves its request standing: a new wait on the same request,
/// started before the deadline, polls at once and so can still observe the fulfillment.
pub proof fn lemma_wait_after_cancel(w: FulfillmentWait, now: u64, interval: u64)
    requires
        w.cancelled,
        interval > 0,
        now < w.expires_at,
    ensures
        step_at(w, now) == WaitStep::Cancelled,
        ({
            let again = FulfillmentWait {
                request_id: w.request_id,
                started_at: now,
                expires_at: w.expires_at,
                interval,
                polls: 0,
                cancelled: false,
            };
            again.wf() && step_at(again, now) == WaitStep::Poll
        }),
{
}

} // verus!
