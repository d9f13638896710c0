//! The type-erased response protocol.
//!
//! The orchestrator serves many request kinds at once, so results are
//! stored behind one container with an explicit kind tag. Retrieval is
//! parameterized by the caller's expected kind and checks it against the
//! tag recorded at submission; a mismatch fails loudly instead of handing
//! back a misinterpreted value.

use vstd::prelude::*;

use crate::ResponseType;
use crate::chat::siso::ChatSisoResponse;
use crate::io::ResponseA;
use crate::io::ResponseB;

verus! {

/// Tag for responses of single-input/single-output chat requests.
pub const KIND_CHAT_SISO: u64 = 1;

/// Tag for embedding responses.
pub const KIND_EMBEDDING: u64 = 2;

/// Tag for [`ResponseA`].
pub const KIND_A: u64 = 3;

/// Tag for [`ResponseB`].
pub const KIND_B: u64 = 4;

/// A response of any kind, stored uniformly and discriminated by its tag.
///
/// An embedding is carried as the bit patterns of its coordinates; the
/// orchestrator never interprets them, it only stores and returns them.
#[derive(Debug)]
pub enum ErasedValue {
    ChatSiso(ChatSisoResponse),
    Embedding(Vec<u32>),
    A(ResponseA),
    B(ResponseB),
}

impl ErasedValue {
    /// The kind tag this value is stored under.
    pub open spec fn kind_spec(&self) -> u64 {
        match *self {
            ErasedValue::ChatSiso(_) => KIND_CHAT_SISO,
            ErasedValue::Embedding(_) => KIND_EMBEDDING,
            ErasedValue::A(_) => KIND_A,
            ErasedValue::B(_) => KIND_B,
        }
    }

    /// The kind tag as a runtime value.
    pub fn kind(&self) -> (k: u64)
        ensures
            k == self.kind_spec(),
    {
        match *self {
            ErasedValue::ChatSiso(_) => KIND_CHAT_SISO,
            ErasedValue::Embedding(_) => KIND_EMBEDDING,
            ErasedValue::A(_) => KIND_A,
            ErasedValue::B(_) => KIND_B,
        }
    }
}

impl ResponseType for ChatSisoResponse {
    open spec fn kind_spec() -> u64 {
        KIND_CHAT_SISO
    }

    fn kind_tag() -> u64 {
        KIND_CHAT_SISO
    }

    fn erase(self) -> ErasedValue {
        ErasedValue::ChatSiso(self)
    }
}

impl ResponseType for ResponseA {
    open spec fn kind_spec() -> u64 {
        KIND_A
    }

    fn kind_tag() -> u64 {
        KIND_A
    }

    fn erase(self) -> ErasedValue {
        ErasedValue::A(self)
    }
}

impl ResponseType for ResponseB {
    open spec fn kind_spec() -> u64 {
        KIND_B
    }

    fn kind_tag() -> u64 {
        KIND_B
    }

    fn erase(self) -> ErasedValue {
        ErasedValue::B(self)
    }
}

} // verus!
