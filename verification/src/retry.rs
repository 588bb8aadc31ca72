//! Backoff policy for a worker whose queue-store connection keeps failing.
//!
//! A worker retries a failed retrieval with an exponentially growing delay,
//! capped at a maximum delay, and gives up once the number of consecutive
//! failures passes a bound; giving up is a fatal condition for that worker
//! alone, never for the other workers.

use vstd::prelude::*;

verus! {

/// What a worker does after a failed retrieval: wait and retry, or give up.
#[derive(PartialEq, Eq, Structural, Debug, Clone, Copy)]
pub enum RetryAction {
    /// Retry after the given delay.
    Wait { delay_ms: u64 },
    /// Too many consecutive failures: stop this worker.
    GiveUp,
}

/// Exponential-backoff policy: the first retry waits `base_delay_ms`, each
/// further retry doubles the wait up to `max_delay_ms`, and after more than
/// `max_attempts` consecutive failures the worker gives up.
#[derive(Debug, Clone, Copy)]
pub struct RetryPolicy {
    pub base_delay_ms: u64,
    pub max_delay_ms: u64,
    pub max_attempts: u32,
}

impl RetryPolicy {
    /// The delay before retry number `attempt` (counting from zero): the base
    /// delay doubled `attempt` times, capped at the maximum delay.
    pub open spec fn spec_delay_ms(&self, attempt: nat) -> int
        decreases attempt,
    {
        if attempt == 0 {
            if self.base_delay_ms > self.max_delay_ms {
                self.max_delay_ms as int
            } else {
                self.base_delay_ms as int
            }
        } else {
            let prev = self.spec_delay_ms((attempt - 1) as nat);
            if 2 * prev > self.max_delay_ms {
                self.max_delay_ms as int
            } else {
                2 * prev
            }
        }
    }

    /// Computes the capped exponential delay before retry number `attempt`.
    pub fn delay_ms(&self, attempt: u32) -> (d: u64)
        ensures
            d == self.spec_delay_ms(attempt as nat),
    {
        let mut d: u64 = if self.base_delay_ms > self.max_delay_ms {
            self.max_delay_ms
        } else {
            self.base_delay_ms
        };
        let mut i: u32 = 0;
        while i < attempt
            invariant
                i <= attempt,
                d == self.spec_delay_ms(i as nat),
            decreases attempt - i,
        {
            d = if d > self.max_delay_ms / 2 {
                self.max_delay_ms
            } else {
                2 * d
            };
            i = i + 1;
        }
        d
    }

    /// Decides what a worker does after its `failures`-th consecutive failed
    /// retrieval: wait with exponential backoff while the bound allows another
    /// attempt, otherwise give up.
    pub fn on_failure(&self, failures: u32) -> (a: RetryAction)
        requires
            failures >= 1,
        ensures
            failures <= self.max_attempts ==> a == (RetryAction::Wait {
                delay_ms: self.spec_delay_ms((failures - 1) as nat) as u64,
            }),
            failures > self.max_attempts ==> a == RetryAction::GiveUp,
    {
        if failures > self.max_attempts {
            RetryAction::GiveUp
        } else {
            RetryAction::Wait { delay_ms: self.delay_ms(failures - 1) }
        }
    }
}

} // verus!
