//! Policies for controlling retry, concurrency, and timeout behavior.
//!
//! Delays and timeouts are measured in whole milliseconds, so that every
//! policy decision is a plain function of integers. Each submitted task
//! receives its own copy of [`Policies`]; the retry counter of one task can
//! therefore never leak into another.

use vstd::prelude::*;
use vstd::arithmetic::power2::pow2;
use vstd::arithmetic::power2::lemma_pow2_strictly_increases;
use vstd::arithmetic::power2::lemma2_to64_rest;
use vstd::bits::lemma_u64_shl_is_mul;
use vstd::bits::lemma_u64_mul_pow2_le_max_iff_max_shr;

verus! {

/// The configuration bundle handed to every task: how to retry, how many
/// tasks may run at once, and the ceiling for a single attempt's timeout.
#[derive(Clone, Copy, Debug, PartialEq, Eq, Structural)]
pub struct Policies {
    pub retry_policy: RetryPolicy,
    pub concurrency_policy: ConcurrencyPolicy,
    pub timeout_policy: TimeoutPolicy,
}

impl Default for Policies {
    /// The default bundle: exponential backoff with five retries, ten
    /// concurrent requests, and a thirty-second timeout ceiling.
    fn default() -> (d: Self)
        ensures
            d.retry_policy == (RetryPolicy::ExponentialBackoff {
                current_retries: 0u32,
                max_retries: 5u32,
                initial_delay_ms: 1000u64,
                max_delay_ms: 10000u64,
            }),
            d.concurrency_policy == (ConcurrencyPolicy { max_concurrent_requests: 10usize }),
            d.timeout_policy == (TimeoutPolicy { timeout_ms: 30000u64 }),
    {
        Policies {
            retry_policy: RetryPolicy::exponential_backoff(5, 1000, 10000),
            concurrency_policy: ConcurrencyPolicy { max_concurrent_requests: 10 },
            timeout_policy: TimeoutPolicy { timeout_ms: 30000 },
        }
    }
}

/// A policy for configuring how requests should retry when they fail.
///
/// Every variant carries the number of retries attempted so far and the
/// maximum number that will be attempted.
#[derive(Clone, Copy, Debug, PartialEq, Eq, Structural)]
pub enum RetryPolicy {
    /// Retry the request immediately.
    Immediate { current_retries: u32, max_retries: u32 },
    /// Retry the request after a constant delay.
    ConstantDelay { current_retries: u32, max_retries: u32, delay_ms: u64 },
    /// Retry the request after an exponentially increasing delay, capped at
    /// a maximum delay.
    ExponentialBackoff {
        current_retries: u32,
        max_retries: u32,
        initial_delay_ms: u64,
        max_delay_ms: u64,
    },
}

/// What the retry policy decided for one failed attempt: retry after the
/// given delay, or give up.
#[derive(Clone, Copy, Debug, PartialEq, Eq, Structural)]
pub enum RetryStep {
    /// Retry after suspending for `delay_ms` milliseconds.
    Retry { delay_ms: u64 },
    /// The maximum number of retries has been reached; do not retry.
    Exhausted,
}

/// The delay before retry number `current` under exponential backoff:
/// `initial * 2^current`, capped at `cap`.
pub open spec fn backoff_delay(current: nat, initial: nat, cap: nat) -> nat {
    if initial * pow2(current) <= cap {
        initial * pow2(current)
    } else {
        cap
    }
}

impl RetryPolicy {
    /// The number of retries attempted so far.
    pub open spec fn current_retries_spec(&self) -> u32 {
        match *self {
            RetryPolicy::Immediate { current_retries, .. } => current_retries,
            RetryPolicy::ConstantDelay { current_retries, .. } => current_retries,
            RetryPolicy::ExponentialBackoff { current_retries, .. } => current_retries,
        }
    }

    /// The maximum number of retries that will be attempted.
    pub open spec fn max_retries_spec(&self) -> u32 {
        match *self {
            RetryPolicy::Immediate { max_retries, .. } => max_retries,
            RetryPolicy::ConstantDelay { max_retries, .. } => max_retries,
            RetryPolicy::ExponentialBackoff { max_retries, .. } => max_retries,
        }
    }

    /// Whether one more failed attempt will be retried.
    pub open spec fn will_retry(&self) -> bool {
        self.current_retries_spec() < self.max_retries_spec()
    }

    /// The delay, in milliseconds, before the next retry, evaluated with the
    /// counter value before it is incremented.
    pub open spec fn next_delay_spec(&self) -> nat {
        match *self {
            RetryPolicy::Immediate { .. } => 0,
            RetryPolicy::ConstantDelay { delay_ms, .. } => delay_ms as nat,
            RetryPolicy::ExponentialBackoff {
                current_retries,
                initial_delay_ms,
                max_delay_ms,
                ..
            } => backoff_delay(current_retries as nat, initial_delay_ms as nat, max_delay_ms as nat),
        }
    }

    /// The same policy with the retry counter advanced by one.
    pub open spec fn stepped(&self) -> Self {
        match *self {
            RetryPolicy::Immediate { current_retries, max_retries } => RetryPolicy::Immediate {
                current_retries: (current_retries + 1) as u32,
                max_retries,
            },
            RetryPolicy::ConstantDelay { current_retries, max_retries, delay_ms } => {
                RetryPolicy::ConstantDelay {
                    current_retries: (current_retries + 1) as u32,
                    max_retries,
                    delay_ms,
                }
            },
            RetryPolicy::ExponentialBackoff {
                current_retries,
                max_retries,
                initial_delay_ms,
                max_delay_ms,
            } => RetryPolicy::ExponentialBackoff {
                current_retries: (current_retries + 1) as u32,
                max_retries,
                initial_delay_ms,
                max_delay_ms,
            },
        }
    }

    /// The maximum number of retries this policy will attempt.
    pub fn max_retries(&self) -> (m: u32)
        ensures
            m == self.max_retries_spec(),
    {
        match *self {
            RetryPolicy::Immediate { max_retries, .. } => max_retries,
            RetryPolicy::ConstantDelay { max_retries, .. } => max_retries,
            RetryPolicy::ExponentialBackoff { max_retries, .. } => max_retries,
        }
    }

    /// Records one failed attempt. While retries remain, advances the
    /// counter and asks for a retry after the policy's delay, computed with
    /// the counter value before the increment; once the counter has reached
    /// the maximum, reports exhaustion and leaves the policy unchanged.
    ///
    /// Callers must invoke this exactly once per failed attempt and stop
    /// retrying the moment it returns [`RetryStep::Exhausted`].
    pub fn failed_request(&mut self) -> (step: RetryStep)
        ensures
            old(self).will_retry() ==> {
                &&& step == (RetryStep::Retry { delay_ms: old(self).next_delay_spec() as u64 })
                &&& *final(self) == old(self).stepped()
            },
            !old(self).will_retry() ==> step == RetryStep::Exhausted && *final(self) == *old(self),
            old(self).next_delay_spec() <= u64::MAX,
    {
        match self {
            RetryPolicy::Immediate { current_retries, max_retries } => {
                if *current_retries < *max_retries {
                    *current_retries = *current_retries + 1;
                    RetryStep::Retry { delay_ms: 0 }
                } else {
                    RetryStep::Exhausted
                }
            },
            RetryPolicy::ConstantDelay { current_retries, max_retries, delay_ms } => {
                if *current_retries < *max_retries {
                    let delay: u64 = *delay_ms;
                    *current_retries = *current_retries + 1;
                    RetryStep::Retry { delay_ms: delay }
                } else {
                    RetryStep::Exhausted
                }
            },
            RetryPolicy::ExponentialBackoff {
                current_retries,
                max_retries,
                initial_delay_ms,
                max_delay_ms,
            } => {
                if *current_retries < *max_retries {
                    let delay: u64 = exponential_backoff(
                        *current_retries,
                        *initial_delay_ms,
                        *max_delay_ms,
                    );
                    *current_retries = *current_retries + 1;
                    RetryStep::Retry { delay_ms: delay }
                } else {
                    RetryStep::Exhausted
                }
            },
        }
    }

    /// A policy that retries immediately, up to `max_retries` times.
    pub fn immediate(max_retries: u32) -> (p: Self)
        ensures
            p == (RetryPolicy::Immediate { current_retries: 0u32, max_retries }),
    {
        RetryPolicy::Immediate { current_retries: 0, max_retries }
    }

    /// A policy that retries after a constant delay of `delay_ms`
    /// milliseconds, up to `max_retries` times.
    pub fn constant_delay(max_retries: u32, delay_ms: u64) -> (p: Self)
        ensures
            p == (RetryPolicy::ConstantDelay { current_retries: 0u32, max_retries, delay_ms }),
    {
        RetryPolicy::ConstantDelay { current_retries: 0, max_retries, delay_ms }
    }

    /// A policy that retries after an exponentially increasing delay
    /// starting at `initial_delay_ms` and capped at `max_delay_ms`
    /// milliseconds, up to `max_retries` times.
    pub fn exponential_backoff(max_retries: u32, initial_delay_ms: u64, max_delay_ms: u64) -> (p:
        Self)
        ensures
            p == (RetryPolicy::ExponentialBackoff {
                current_retries: 0u32,
                max_retries,
                initial_delay_ms,
                max_delay_ms,
            }),
    {
        RetryPolicy::ExponentialBackoff {
            current_retries: 0,
            max_retries,
            initial_delay_ms,
            max_delay_ms,
        }
    }
}

impl Default for RetryPolicy {
    /// The default retry policy: exponential backoff with five retries, a
    /// one-second initial delay, and a ten-second cap.
    fn default() -> (d: Self)
        ensures
            d == (RetryPolicy::ExponentialBackoff {
                current_retries: 0u32,
                max_retries: 5u32,
                initial_delay_ms: 1000u64,
                max_delay_ms: 10000u64,
            }),
    {
        Self::exponential_backoff(5, 1000, 10000)
    }
}

/// Computes `min(initial_delay_ms * 2^current_retries, max_delay_ms)`
/// without overflowing.
fn exponential_backoff(current_retries: u32, initial_delay_ms: u64, max_delay_ms: u64) -> (d: u64)
    ensures
        d == backoff_delay(current_retries as nat, initial_delay_ms as nat, max_delay_ms as nat),
{
    if initial_delay_ms == 0 {
        0
    } else if current_retries >= 64 {
        proof {
            lemma2_to64_rest();
            if current_retries > 64 {
                lemma_pow2_strictly_increases(64, current_retries as nat);
            }
            let p = pow2(current_retries as nat);
            assert(initial_delay_ms as nat * p >= p) by (nonlinear_arith)
                requires
                    initial_delay_ms >= 1,
                    p >= 0,
            ;
        }
        max_delay_ms
    } else {
        let shift: u64 = current_retries as u64;
        let threshold: u64 = u64::MAX >> shift;
        proof {
            lemma_u64_mul_pow2_le_max_iff_max_shr(initial_delay_ms, shift, u64::MAX);
        }
        if initial_delay_ms <= threshold {
            proof {
                lemma_u64_shl_is_mul(initial_delay_ms, shift);
            }
            let product: u64 = initial_delay_ms << shift;
            if product <= max_delay_ms {
                product
            } else {
                max_delay_ms
            }
        } else {
            max_delay_ms
        }
    }
}

/// The state a retry policy reaches after `n` failed attempts, each routed
/// through [`RetryPolicy::failed_request`].
pub open spec fn after_failures(p: RetryPolicy, n: nat) -> RetryPolicy
    decreases n,
{
    if n == 0 {
        p
    } else {
        let q = after_failures(p, (n - 1) as nat);
        if q.will_retry() {
            q.stepped()
        } else {
            q
        }
    }
}

/// The number of attempts an executable performs before surfacing
/// exhaustion, when every attempt fails: one initial attempt, plus one per
/// retry the policy grants.
pub open spec fn attempts_until_exhaustion(p: RetryPolicy) -> nat
    decreases p.max_retries_spec() - p.current_retries_spec(),
{
    if !p.will_retry() {
        1
    } else {
        1 + attempts_until_exhaustion(p.stepped())
    }
}

/// Retry exhaustion: an executable whose attempts all fail performs exactly
/// `max_retries - current_retries + 1` attempts before reporting the
/// exhaustion error. In particular, a fresh policy with `max_retries = m`
/// admits `m + 1` attempts in total.
pub proof fn lemma_retry_exhaustion(p: RetryPolicy)
    requires
        p.current_retries_spec() <= p.max_retries_spec(),
    ensures
        attempts_until_exhaustion(p) == p.max_retries_spec() - p.current_retries_spec() + 1,
    decreases p.max_retries_spec() - p.current_retries_spec(),
{
    if p.will_retry() {
        lemma_retry_exhaustion(p.stepped());
    }
}

/// Per-request isolation: the retry state a task reaches is a function of
/// the policy it was issued and of its own failure count alone. Two tasks
/// issued copies of the same policy evolve independently: after `i` failures
/// of the first and `j` of the second, each counter depends only on its own
/// count, and the configured maxima and delays of both are untouched.
pub proof fn lemma_per_request_isolation(p: RetryPolicy, i: nat, j: nat)
    requires
        p.current_retries_spec() <= p.max_retries_spec(),
    ensures
        after_failures(p, i).max_retries_spec() == p.max_retries_spec(),
        after_failures(p, i).current_retries_spec() == if p.current_retries_spec() + i
            <= p.max_retries_spec() {
            p.current_retries_spec() + i
        } else {
            p.max_retries_spec() as int
        },
        i == j ==> after_failures(p, i) == after_failures(p, j),
    decreases i,
{
    if i > 0 {
        lemma_per_request_isolation(p, (i - 1) as nat, j);
    }
}

/// A policy for configuring how many requests can be executed concurrently.
#[derive(Clone, Copy, Debug, PartialEq, Eq, Structural)]
pub struct ConcurrencyPolicy {
    pub max_concurrent_requests: usize,
}

impl ConcurrencyPolicy {
    /// A policy admitting at most `n` concurrently executing requests.
    pub fn new(n: usize) -> (p: Self)
        ensures
            p.max_concurrent_requests == n,
    {
        ConcurrencyPolicy { max_concurrent_requests: n }
    }
}

impl Default for ConcurrencyPolicy {
    /// The default concurrency policy: at most ten concurrent requests.
    fn default() -> (d: Self)
        ensures
            d == (ConcurrencyPolicy { max_concurrent_requests: 10usize }),
    {
        ConcurrencyPolicy { max_concurrent_requests: 10 }
    }
}

/// A static ceiling, in milliseconds, on the timeout of a single attempt.
#[derive(Clone, Copy, Debug, PartialEq, Eq, Structural)]
pub struct TimeoutPolicy {
    pub timeout_ms: u64,
}

impl TimeoutPolicy {
    /// A policy with the given ceiling in milliseconds.
    pub fn new(timeout_ms: u64) -> (p: Self)
        ensures
            p.timeout_ms == timeout_ms,
    {
        TimeoutPolicy { timeout_ms }
    }

    /// The timeout to apply to one attempt: a request-specific estimate,
    /// clamped so that it never exceeds the static ceiling.
    pub fn effective_timeout_ms(&self, estimate_ms: u64) -> (t: u64)
        ensures
            t == if estimate_ms <= self.timeout_ms {
                estimate_ms
            } else {
                self.timeout_ms
            },
    {
        if estimate_ms <= self.timeout_ms {
            estimate_ms
        } else {
            self.timeout_ms
        }
    }
}

impl Default for TimeoutPolicy {
    /// The default timeout ceiling: thirty seconds.
    fn default() -> (d: Self)
        ensures
            d == (TimeoutPolicy { timeout_ms: 30000u64 }),
    {
        TimeoutPolicy { timeout_ms: 30000 }
    }
}

} // verus!
