//! Error taxonomy of the orchestrator.
//!
//! Transient conditions (a timed-out or failed remote attempt) are not errors
//! by themselves: they are routed through the retry policy and only surface
//! as [`OrchError::RetriesExhausted`] once the policy gives up. A response
//! that arrived in time but lacks a required field is a permanent error and
//! is never retried. Unknown or already-consumed identifiers and retrieval
//! under the wrong response kind are usage errors of the orchestration
//! protocol itself.

use vstd::prelude::*;

verus! {

/// The transient cause recorded when retries run out.
#[derive(Clone, Copy, Debug, PartialEq, Eq, Structural)]
pub enum FailureKind {
    /// A single attempt exceeded its effective timeout.
    TimedOut,
    /// The remote service reported an error for the attempt.
    Remote,
}

/// Every terminal failure the orchestrator or an executable can report.
#[derive(Clone, Copy, Debug, PartialEq, Eq, Structural)]
pub enum OrchError {
    /// The identifier is unknown, or its entry was already consumed.
    NotFound,
    /// The producing task terminated without delivering an outcome.
    ChannelClosed,
    /// The entry was retrieved under a response kind other than the one it
    /// was submitted with.
    TypeMismatch,
    /// The retry policy was exhausted; carries the last transient cause.
    RetriesExhausted(FailureKind),
    /// A timely response lacked a required field; never retried.
    MissingContent,
    /// No fresh identifier could be minted for a submission.
    IdCollision,
}

impl OrchError {
    /// A human-readable description of the error.
    pub fn message(&self) -> (m: &'static str)
        ensures
            m@ == match *self {
                OrchError::NotFound => "no response receiver found"@,
                OrchError::ChannelClosed => "no response found"@,
                OrchError::TypeMismatch => "response kind does not match the request"@,
                OrchError::RetriesExhausted(_) => "reached max retry"@,
                OrchError::MissingContent => "response is missing required content"@,
                OrchError::IdCollision => "could not allocate a fresh request id"@,
            },
    {
        match *self {
            OrchError::NotFound => "no response receiver found",
            OrchError::ChannelClosed => "no response found",
            OrchError::TypeMismatch => "response kind does not match the request",
            OrchError::RetriesExhausted(_) => "reached max retry",
            OrchError::MissingContent => "response is missing required content",
            OrchError::IdCollision => "could not allocate a fresh request id",
        }
    }
}

} // verus!
