//! Requests using embeddings models.
//!
//! The embedding vector itself is floating-point data that the orchestrator
//! never interprets; inside the core it is carried opaquely as the bit
//! patterns of its coordinates (see [`crate::erased::ErasedValue`]). The
//! caller that talks to the remote service owns the numeric view.

use vstd::prelude::*;

use crate::errors::OrchError;

verus! {

/// The number of coordinates in an embedding vector.
pub const EMBEDDING_SIZE: usize = 1536;

/// A request for the embedding of the given input text.
#[derive(Clone, Debug)]
pub struct EmbeddingRequest(pub String);

/// Validates the shape of a delivered embedding, given as one bit pattern
/// per coordinate: a timely response whose vector does not have exactly
/// [`EMBEDDING_SIZE`] coordinates is malformed, a permanent error that is
/// never retried.
pub fn validate_embedding(bits: Vec<u32>) -> (r: Result<Vec<u32>, OrchError>)
    ensures
        bits@.len() == EMBEDDING_SIZE ==> r == Ok::<Vec<u32>, OrchError>(bits),
        bits@.len() != EMBEDDING_SIZE ==> r == Err::<Vec<u32>, OrchError>(
            OrchError::MissingContent,
        ),
{
    if bits.len() == EMBEDDING_SIZE {
        Ok(bits)
    } else {
        Err(OrchError::MissingContent)
    }
}

} // verus!
