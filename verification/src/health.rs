//! The health poller's retry budget: a fixed number of readiness probes
//! against `GET http://localhost:<port>/api/health`, a fixed backoff between
//! them, no jitter. The probe itself is a network request and lives with the
//! surrounding runtime; this module decides, after each probe, whether the
//! server is ready, whether to retry, and when the budget is exhausted.

use vstd::prelude::*;

verus! {

/// Greatest number of readiness probes one health-checking run issues.
pub const HEALTH_CHECK_MAX_ATTEMPTS: u32 = 50;

/// Fixed backoff between readiness probes, in milliseconds.
pub const HEALTH_CHECK_DELAY_MS: u64 = 100;

/// Per-probe request timeout, in seconds.
pub const HEALTH_CHECK_REQUEST_TIMEOUT_S: u64 = 2;

/// The whole polling budget in milliseconds: the attempt ceiling times the
/// backoff between probes.
pub const HEALTH_CHECK_TOTAL_BUDGET_MS: u64 = 5000;

/// What the polling loop must do after one probe.
#[derive(Clone, Copy, Debug, PartialEq, Eq)]
pub enum HealthStep {
    /// The probe got a success status: the server is ready.
    Ready,
    /// Wait this many milliseconds, then probe again.
    Retry(u64),
    /// The attempt budget is exhausted; the value is the total budget in
    /// milliseconds, for the error report.
    Exhausted(u64),
}

/// The retry budget of one health-checking run.
pub struct HealthPoller {
    attempts: u32,
}

impl HealthPoller {
    /// How many probes have been issued so far.
    pub closed spec fn spec_attempts(self) -> u32 {
        self.attempts
    }

    /// Whether another probe may still be issued.
    pub open spec fn spec_budget_left(self) -> bool {
        self.spec_attempts() < HEALTH_CHECK_MAX_ATTEMPTS
    }

    /// A run that has issued no probe yet.
    pub fn new() -> (r: Self)
        ensures
            r.spec_attempts() == 0,
    {
        HealthPoller { attempts: 0 }
    }

    /// How many probes have been issued so far.
    pub fn attempts(&self) -> (r: u32)
        ensures
            r == self.spec_attempts(),
    {
        self.attempts
    }

    /// Records the outcome of one probe. A success status ends the run as
    /// `Ready` at once, whatever the attempt count; a failure (connection
    /// refused, timeout, non-success status — the caller does not
    /// distinguish) asks for a fixed-interval retry until the attempt
    /// ceiling, where the run ends as `Exhausted` carrying the total budget.
    pub fn record_attempt(&mut self, success: bool) -> (r: HealthStep)
        requires
            old(self).spec_budget_left(),
        ensures
            final(self).spec_attempts() == old(self).spec_attempts() + 1,
            success ==> r == HealthStep::Ready,
            !success && old(self).spec_attempts() + 1 < HEALTH_CHECK_MAX_ATTEMPTS ==> r
                == HealthStep::Retry(HEALTH_CHECK_DELAY_MS),
            !success && old(self).spec_attempts() + 1 == HEALTH_CHECK_MAX_ATTEMPTS ==> r
                == HealthStep::Exhausted(HEALTH_CHECK_TOTAL_BUDGET_MS),
    {
        self.attempts = self.attempts + 1;
        if success {
            HealthStep::Ready
        } else if self.attempts < HEALTH_CHECK_MAX_ATTEMPTS {
            HealthStep::Retry(HEALTH_CHECK_DELAY_MS)
        } else {
            HealthStep::Exhausted(HEALTH_CHECK_TOTAL_BUDGET_MS)
        }
    }
}

} // verus!
