use vstd::prelude::*;

verus! {

/// How much longer each consecutive fault makes the wait, in milliseconds.
pub const BACKOFF_STEP_MS: u64 = 5000;
/// The longest wait before a restart, in milliseconds.
pub const BACKOFF_MAX_MS: u64 = 30000;
/// A run this long without a fault clears the count of consecutive faults.
pub const HEALTHY_RUN_MS: u64 = 60000;

/// The wait before restarting an instance that has faulted `faults` times
/// in a row: one step per fault, capped at the maximum.
pub open spec fn backoff_delay(faults: nat) -> nat {
    if faults * (BACKOFF_STEP_MS as nat) >= BACKOFF_MAX_MS as nat {
        BACKOFF_MAX_MS as nat
    } else {
        faults * (BACKOFF_STEP_MS as nat)
    }
}

/// The count of consecutive faults of one instance.
#[derive(Debug, Clone, Copy, PartialEq, Eq, Structural)]
pub struct Backoff {
    faults: u64,
}

impl Backoff {
    pub closed spec fn faults(self) -> nat {
        self.faults as nat
    }

    /// No fault counted yet.
    pub fn new() -> (r: Backoff)
        ensures
            r.faults() == 0,
    {
        Backoff { faults: 0 }
    }

    pub fn consecutive_faults(&self) -> (r: u64)
        ensures
            r == self.faults(),
    {
        self.faults
    }

    /// The wait that the current count of faults calls for.
    pub fn delay_ms(&self) -> (r: u64)
        ensures
            r == backoff_delay(self.faults()),
    {
        if self.faults >= BACKOFF_MAX_MS / BACKOFF_STEP_MS {
            assert(self.faults * BACKOFF_STEP_MS >= BACKOFF_MAX_MS) by (nonlinear_arith)
                requires
                    self.faults >= 6,
            ;
            BACKOFF_MAX_MS
        } else {
            assert(self.faults * BACKOFF_STEP_MS < BACKOFF_MAX_MS) by (nonlinear_arith)
                requires
                    self.faults < 6,
            ;
            self.faults * BACKOFF_STEP_MS
        }
    }

    /// Counts a fault after a run of `ran_for_ms` and returns the wait before
    /// the restart. A run that was long enough counts as healthy: the fault
    /// then starts a new series.
    pub fn on_fault(&mut self, ran_for_ms: u64) -> (r: u64)
        ensures
            ran_for_ms >= HEALTHY_RUN_MS ==> final(self).faults() == 1,
            ran_for_ms < HEALTHY_RUN_MS ==> final(self).faults() == if old(self).faults() < u64::MAX {
                old(self).faults() + 1
            } else {
                old(self).faults()
            },
            r == backoff_delay(final(self).faults()),
    {
        if ran_for_ms >= HEALTHY_RUN_MS {
            self.faults = 1;
        } else if self.faults < u64::MAX {
            self.faults = self.faults + 1;
        }
        self.delay_ms()
    }

    /// A normal return ends any series of faults.
    pub fn on_graceful_exit(&mut self)
        ensures
            final(self).faults() == 0,
    {
        self.faults = 0;
    }
}

/// The wait before a restart never shrinks as consecutive faults pile up,
/// and never exceeds the maximum.
pub proof fn backoff_is_monotonic(k1: nat, k2: nat)
    requires
        k1 <= k2,
    ensures
        backoff_delay(k1) <= backoff_delay(k2),
        backoff_delay(k2) <= BACKOFF_MAX_MS,
{
    assert(k1 * (BACKOFF_STEP_MS as nat) <= k2 * (BACKOFF_STEP_MS as nat)) by (nonlinear_arith)
        requires
            k1 <= k2,
    ;
}

} // verus!
