//! Trivial request and response kinds, useful for exercising the
//! orchestration protocol without any remote work.

use vstd::prelude::*;

use crate::OrchRequest;
use crate::errors::OrchError;
use crate::keys::Keys;
use crate::policies::Policies;

verus! {

/// A request whose work always succeeds immediately.
#[derive(Debug)]
pub struct RequestA;

/// The (empty) response of [`RequestA`].
#[derive(Debug)]
pub struct ResponseA;

/// A second request kind whose work always succeeds immediately.
#[derive(Debug)]
pub struct RequestB;

/// The (empty) response of [`RequestB`].
#[derive(Debug)]
pub struct ResponseB;

impl OrchRequest for RequestA {
    type Res = ResponseA;

    /// Succeeds immediately for every input, with no retries or delays.
    fn send(&self, _policies: Policies, _keys: &Keys, _id: u64) -> (r: Result<
        Self::Res,
        OrchError,
    >)
        ensures
            r == Ok::<ResponseA, OrchError>(ResponseA),
    {
        Ok(ResponseA)
    }
}

impl OrchRequest for RequestB {
    type Res = ResponseB;

    /// Succeeds immediately for every input, with no retries or delays.
    fn send(&self, _policies: Policies, _keys: &Keys, _id: u64) -> (r: Result<
        Self::Res,
        OrchError,
    >)
        ensures
            r == Ok::<ResponseB, OrchError>(ResponseB),
    {
        Ok(ResponseB)
    }
}

} // verus!
