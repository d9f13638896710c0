//! Credentials for the remote service.
//!
//! The orchestrator passes these through to every task unmodified; it never
//! inspects or validates them.

use vstd::prelude::*;

verus! {

/// An API key and an optional organization identifier.
#[derive(Clone, Debug)]
pub struct Keys {
    pub openai_api_key: String,
    pub openai_org_id: Option<String>,
}

impl Keys {
    /// Bundles the given API key and optional organization identifier.
    pub fn new(openai_api_key: String, openai_org_id: Option<String>) -> (k: Self)
        ensures
            k.openai_api_key == openai_api_key,
            k.openai_org_id == openai_org_id,
    {
        Keys { openai_api_key, openai_org_id }
    }
}

} // verus!
