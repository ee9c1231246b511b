//! The [`LlmProvider`] trait and its errors.

use vstd::prelude::*;
use vstd::string::*;

use crate::text;

verus! {

/// The set of errors an [`LlmProvider`] can produce.
#[derive(Debug)]
pub enum LlmError {
    /// The backend rejected the request or failed to generate a completion.
    Provider {
        /// Name of the provider that failed.
        provider: String,
        /// Human-readable description of the failure.
        message: String,
    },
    /// The prompt was empty or contained only white space, which providers cannot
    /// complete.
    EmptyPrompt,
}

impl LlmError {
    /// The human-readable text of this error.
    pub open spec fn message_text(&self) -> Seq<char> {
        match self {
            LlmError::Provider { provider, message } => "llm provider `"@ + provider@ + "` failed: "@
                + message@,
            LlmError::EmptyPrompt => "prompt must not be empty"@,
        }
    }

    /// A human-readable description of what went wrong.
    pub fn message(&self) -> (r: String)
        ensures
            r@ == self.message_text(),
    {
        let mut out = String::new();
        match self {
            LlmError::Provider { provider, message } => {
                out.append("llm provider `");
                out.append(provider.as_str());
                out.append("` failed: ");
                out.append(message.as_str());
            },
            LlmError::EmptyPrompt => out.append("prompt must not be empty"),
        }
        out
    }
}

/// What a completion call returned, with the completion as a sequence of characters.
pub open spec fn completion_view(r: Result<String, LlmError>) -> Result<Seq<char>, LlmError> {
    match r {
        Ok(completion) => Ok(completion@),
        Err(error) => Err(error),
    }
}

/// A language model that completes a prompt with generated text.
///
/// Implementations are cheap to share, so a single provider can be used concurrently,
/// and the trait is object-safe, so providers can be stored behind a box and chosen at
/// runtime.
pub trait LlmProvider: Send + Sync {
    /// Whether `outcome` is something this provider may return for `prompt`. A provider
    /// that does not say may return anything.
    open spec fn may_return(&self, prompt: Seq<char>, outcome: Result<Seq<char>, LlmError>) -> bool {
        true
    }

    /// Generate a completion for `prompt`, the full text shown to the model. A prompt
    /// that is empty or holds white space only is an error.
    fn generate(&self, prompt: &str) -> (r: Result<String, LlmError>)
        ensures
            self.may_return(prompt@, completion_view(r)),
            text::blank(prompt@) ==> r is Err,
    ;
}

} // verus!
