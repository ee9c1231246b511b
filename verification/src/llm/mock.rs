//! A deterministic, dependency-free [`LlmProvider`] for tests and examples.

use vstd::prelude::*;
use vstd::string::*;

use super::provider::{LlmError, LlmProvider};
use crate::text;

verus! {

/// Name reported in [`LlmError::Provider`] errors.
pub const MOCK_NAME: &'static str = "mock";

/// An [`LlmProvider`] that fabricates completions locally, without any network or model.
///
/// By default the mock echoes the prompt back verbatim, which lets tests assert on
/// exactly what the model was shown. A canned reply can be set with
/// [`with_reply`](MockLlmProvider::with_reply), and the mock can be put into a failure
/// mode with [`failing`](MockLlmProvider::failing) to exercise error handling.
#[derive(Debug)]
pub struct MockLlmProvider {
    reply: Option<String>,
    failure: Option<String>,
}

impl MockLlmProvider {
    /// The fixed reply to every prompt, if one is set.
    pub closed spec fn canned_reply(&self) -> Option<Seq<char>> {
        match self.reply {
            Some(reply) => Some(reply@),
            None => None,
        }
    }

    /// The message that every call is configured to fail with.
    pub closed spec fn failure_message(&self) -> Option<Seq<char>> {
        match self.failure {
            Some(message) => Some(message@),
            None => None,
        }
    }

    /// Whether `outcome` is what a call with `prompt` returns.
    pub open spec fn completes_with(
        &self,
        prompt: Seq<char>,
        outcome: Result<Seq<char>, LlmError>,
    ) -> bool {
        if let Some(failure) = self.failure_message() {
            outcome matches Err(LlmError::Provider { provider, message }) && provider@ == MOCK_NAME@
                && message@ == failure
        } else if text::blank(prompt) {
            outcome matches Err(LlmError::EmptyPrompt)
        } else if let Some(reply) = self.canned_reply() {
            outcome == Ok::<_, LlmError>(reply)
        } else {
            outcome == Ok::<_, LlmError>(prompt)
        }
    }

    /// Create a mock that echoes each prompt back as its completion.
    pub fn new() -> (r: Self)
        ensures
            r.canned_reply() is None,
            r.failure_message() is None,
    {
        MockLlmProvider { reply: None, failure: None }
    }

    /// Create a mock that answers every prompt with the fixed `reply`.
    pub fn with_reply(reply: &str) -> (r: Self)
        ensures
            r.canned_reply() == Some(reply@),
            r.failure_message() is None,
    {
        MockLlmProvider { reply: Some(reply.to_string()), failure: None }
    }

    /// Create a mock whose [`generate`](LlmProvider::generate) always fails with an
    /// [`LlmError::Provider`] carrying `message`.
    pub fn failing(message: &str) -> (r: Self)
        ensures
            r.canned_reply() is None,
            r.failure_message() == Some(message@),
    {
        MockLlmProvider { reply: None, failure: Some(message.to_string()) }
    }
}

impl Default for MockLlmProvider {
    fn default() -> (r: Self)
        ensures
            r.canned_reply() is None,
            r.failure_message() is None,
    {
        MockLlmProvider { reply: None, failure: None }
    }
}

impl Clone for MockLlmProvider {
    fn clone(&self) -> (r: Self)
        ensures
            r == *self,
    {
        let reply = match &self.reply {
            Some(reply) => Some(reply.clone()),
            None => None,
        };
        let failure = match &self.failure {
            Some(message) => Some(message.clone()),
            None => None,
        };
        MockLlmProvider { reply, failure }
    }
}

impl LlmProvider for MockLlmProvider {
    open spec fn may_return(&self, prompt: Seq<char>, outcome: Result<Seq<char>, LlmError>) -> bool {
        self.completes_with(prompt, outcome)
    }

    fn generate(&self, prompt: &str) -> (r: Result<String, LlmError>)
        ensures
            match r {
                Ok(completion) => {
                    &&& self.failure_message() is None
                    &&& !text::blank(prompt@)
                    &&& completion@ == (match self.canned_reply() {
                        Some(reply) => reply,
                        None => prompt@,
                    })
                },
                Err(LlmError::EmptyPrompt) => self.failure_message() is None && text::blank(
                    prompt@,
                ),
                Err(LlmError::Provider { provider, message }) => provider@ == "mock"@
                    && self.failure_message() == Some(message@),
            },
    {
        if let Some(message) = &self.failure {
            return Err(
                LlmError::Provider { provider: MOCK_NAME.to_string(), message: message.clone() },
            );
        }
        if text::is_blank(prompt) {
            return Err(LlmError::EmptyPrompt);
        }
        match &self.reply {
            Some(reply) => Ok(reply.clone()),
            None => Ok(prompt.to_string()),
        }
    }
}

} // verus!
