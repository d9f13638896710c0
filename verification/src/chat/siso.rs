//! Single-input/single-output chat requests: one system prompt and one user
//! prompt in, one generated completion out.

use vstd::prelude::*;
use vstd::string::StrSliceExecFns;

use crate::chat::ChatModelParams;

verus! {

/// A chat request carrying a system prompt, a user prompt, and the model
/// parameters to send them with.
#[derive(Clone, Debug)]
pub struct ChatSisoRequest {
    pub system_prompt: String,
    pub user_prompt: String,
    pub model_params: ChatModelParams,
}

impl ChatSisoRequest {
    /// Bundles the two prompts with the given model parameters.
    pub fn new(system_prompt: String, user_prompt: String, model_params: ChatModelParams) -> (r:
        Self)
        ensures
            r.system_prompt == system_prompt,
            r.user_prompt == user_prompt,
            r.model_params == model_params,
    {
        ChatSisoRequest { system_prompt, user_prompt, model_params }
    }

    /// The request-specific timeout estimate for one attempt, in
    /// milliseconds: scaled to the output budget plus a quarter of the
    /// prompt length in characters. The caller clamps it with
    /// [`crate::policies::TimeoutPolicy::effective_timeout_ms`] so it never
    /// exceeds the static ceiling.
    pub fn estimate_timeout_ms(&self) -> (t: u64)
        ensures
            t == chat_timeout_estimate_ms(
                self.model_params.max_tokens as nat,
                self.system_prompt@.len() + self.user_prompt@.len(),
            ),
    {
        let sys_len: usize = self.system_prompt.as_str().unicode_len();
        let usr_len: usize = self.user_prompt.as_str().unicode_len();
        let prompt_chars: u128 = sys_len as u128 + usr_len as u128;
        let scaled: u128 = 10000u128 * (self.model_params.max_tokens as u128 + prompt_chars / 4)
            / 512;
        if scaled <= u64::MAX as u128 {
            scaled as u64
        } else {
            u64::MAX
        }
    }
}

/// The timeout estimate, in milliseconds, for a chat attempt with the given
/// output budget and prompt length: ten seconds per 512 expected tokens,
/// counting one token per four prompt characters.
pub open spec fn chat_timeout_estimate_ms(max_tokens: nat, prompt_chars: nat) -> nat {
    let scaled = 10000 * (max_tokens + prompt_chars / 4) / 512;
    if scaled <= u64::MAX {
        scaled
    } else {
        u64::MAX as nat
    }
}

/// The generated completion of a chat request.
#[derive(Clone, Debug)]
pub struct ChatSisoResponse(String);

impl View for ChatSisoResponse {
    type V = Seq<char>;

    closed spec fn view(&self) -> Seq<char> {
        self.0@
    }
}

impl ChatSisoResponse {
    /// The completion text as a specification-level value.
    pub closed spec fn content_spec(&self) -> String {
        self.0
    }

    /// Wraps a generated completion.
    pub fn new(content: String) -> (r: Self)
        ensures
            r@ == content@,
            r.content_spec() == content,
    {
        ChatSisoResponse(content)
    }

    /// The completion text.
    pub fn text(&self) -> (t: &String)
        ensures
            t@ == self@,
            *t == self.content_spec(),
    {
        &self.0
    }
}

impl From<ChatSisoResponse> for String {
    /// Unwraps the completion text.
    fn from(response: ChatSisoResponse) -> (s: String) {
        response.0
    }
}

impl vstd::std_specs::convert::FromSpecImpl<ChatSisoResponse> for String {
    open spec fn obeys_from_spec() -> bool {
        true
    }

    open spec fn from_spec(response: ChatSisoResponse) -> String {
        response.content_spec()
    }
}

/// How the configured stop sequences are to be presented to the remote
/// service: not at all, as one string, or as an array of strings.
#[derive(Clone, Debug)]
pub enum StopSelection {
    /// No stop sequence is configured.
    Unspecified,
    /// Exactly one stop sequence is configured.
    Single(String),
    /// Two or more stop sequences are configured.
    Multiple(Vec<String>),
}

/// Chooses the presentation of the configured stop sequences: none for an
/// empty list, the lone string for a single entry, and the whole list
/// otherwise.
pub fn select_stop(stop: Vec<String>) -> (s: StopSelection)
    ensures
        stop@.len() == 0 ==> s is Unspecified,
        stop@.len() == 1 ==> s == StopSelection::Single(stop@[0]),
        stop@.len() > 1 ==> s == StopSelection::Multiple(stop),
{
    if stop.len() == 0 {
        StopSelection::Unspecified
    } else if stop.len() == 1 {
        let mut stop = stop;
        let only = stop.remove(0);
        StopSelection::Single(only)
    } else {
        StopSelection::Multiple(stop)
    }
}

} // verus!
