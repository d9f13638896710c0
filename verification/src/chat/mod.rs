//! Requests and responses using chat models.

use vstd::prelude::*;

pub mod siso;

verus! {

/// The model identifier used when none is configured.
pub open spec fn default_chat_model() -> Seq<char> {
    "gpt-3.5-turbo"@
}

/// Parameters common to all chat models, as far as the orchestrator's own
/// logic reads them: the model identifier, the stop sequences, and the
/// output budget that drives the timeout estimate. Sampling parameters that
/// the remote service consumes opaquely are supplied by the caller that
/// builds the wire request.
#[derive(Clone, Debug)]
pub struct ChatModelParams {
    pub model: String,
    pub stop: Vec<String>,
    pub max_tokens: u64,
}

impl Default for ChatModelParams {
    /// The default parameters: the default model, no stop sequences, and an
    /// output budget of 256 tokens.
    fn default() -> (d: Self)
        ensures
            d.model@ == default_chat_model(),
            d.stop@ =~= Seq::<String>::empty(),
            d.max_tokens == 256,
    {
        ChatModelParams { model: "gpt-3.5-turbo".to_owned(), stop: Vec::new(), max_tokens: 256 }
    }
}

} // verus!
