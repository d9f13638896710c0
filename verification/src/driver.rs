//! The decision core of an executable's retry loop.
//!
//! An executable builds a remote call, bounds it with its effective
//! timeout, and awaits it; how that attempt ended is reported here as an
//! [`AttemptOutcome`]. This module decides what happens next: finish with
//! the payload, sleep and retry, or surface a terminal error. Every failed
//! attempt — a timeout exactly like a remote error — is routed through
//! [`RetryPolicy::failed_request`] once, so it consumes one retry. A timely
//! response that lacks its required payload is a permanent error and is
//! never retried.

use vstd::prelude::*;

use crate::errors::FailureKind;
use crate::errors::OrchError;
use crate::policies::RetryPolicy;
use crate::policies::RetryStep;

verus! {

/// How one bounded attempt of a remote call ended.
#[derive(Debug)]
pub enum AttemptOutcome<T> {
    /// A response arrived in time; it carried the required payload, or not.
    Delivered(Option<T>),
    /// The attempt exceeded its effective timeout.
    TimedOut,
    /// The remote service reported an error.
    RemoteError,
}

/// What the executable must do after one attempt.
#[derive(Debug)]
pub enum DriverStep<T> {
    /// Return this payload as the successful result.
    Finish(T),
    /// Suspend for `delay_ms` milliseconds, then attempt again.
    Backoff { delay_ms: u64 },
    /// Stop and surface this terminal error.
    Fail(OrchError),
}

/// Decides the next step of the retry loop from one attempt's outcome.
///
/// A delivered payload finishes the loop and a delivered-but-empty response
/// fails permanently, both without touching the retry policy. A timeout or
/// remote error consumes one retry: while the policy grants one, the step
/// is a backoff with the policy's delay; once it is exhausted, the step is
/// the exhaustion error wrapping the last transient cause.
pub fn drive_attempt<T>(retry_policy: &mut RetryPolicy, outcome: AttemptOutcome<T>) -> (step:
    DriverStep<T>)
    ensures
        outcome matches AttemptOutcome::Delivered(Some(t)) ==> step == DriverStep::Finish(t)
            && *final(retry_policy) == *old(retry_policy),
        outcome matches AttemptOutcome::Delivered(None) ==> step == DriverStep::<T>::Fail(
            OrchError::MissingContent,
        ) && *final(retry_policy) == *old(retry_policy),
        outcome is TimedOut && old(retry_policy).will_retry() ==> step == (DriverStep::<
            T,
        >::Backoff { delay_ms: old(retry_policy).next_delay_spec() as u64 }) && *final(retry_policy)
            == old(retry_policy).stepped(),
        outcome is TimedOut && !old(retry_policy).will_retry() ==> step == DriverStep::<T>::Fail(
            OrchError::RetriesExhausted(FailureKind::TimedOut),
        ) && *final(retry_policy) == *old(retry_policy),
        outcome is RemoteError && old(retry_policy).will_retry() ==> step == (DriverStep::<
            T,
        >::Backoff { delay_ms: old(retry_policy).next_delay_spec() as u64 }) && *final(retry_policy)
            == old(retry_policy).stepped(),
        outcome is RemoteError && !old(retry_policy).will_retry() ==> step == DriverStep::<
            T,
        >::Fail(OrchError::RetriesExhausted(FailureKind::Remote)) && *final(retry_policy) == *old(
            retry_policy,
        ),
{
    match outcome {
        AttemptOutcome::Delivered(Some(payload)) => DriverStep::Finish(payload),
        AttemptOutcome::Delivered(None) => DriverStep::Fail(OrchError::MissingContent),
        AttemptOutcome::TimedOut => {
            match retry_policy.failed_request() {
                RetryStep::Retry { delay_ms } => DriverStep::Backoff { delay_ms },
                RetryStep::Exhausted => DriverStep::Fail(
                    OrchError::RetriesExhausted(FailureKind::TimedOut),
                ),
            }
        },
        AttemptOutcome::RemoteError => {
            match retry_policy.failed_request() {
                RetryStep::Retry { delay_ms } => DriverStep::Backoff { delay_ms },
                RetryStep::Exhausted => DriverStep::Fail(
                    OrchError::RetriesExhausted(FailureKind::Remote),
                ),
            }
        },
    }
}

} // verus!
