//! Errors that an embedding provider can surface.

use vstd::prelude::*;
use vstd::string::*;

use crate::text;

verus! {

/// Errors returned by an embedding provider.
///
/// The variants are provider-neutral: a concrete backend maps its own failure modes
/// onto these, so callers can react without knowing which provider is in use.
#[derive(Debug)]
#[non_exhaustive]
pub enum EmbeddingError {
    /// The caller supplied no inputs to embed.
    EmptyInput,
    /// An individual input was empty and the provider cannot embed it.
    EmptyInputItem {
        /// Position of the offending input within the batch.
        index: usize,
    },
    /// The provider is misconfigured (missing key, invalid model).
    Configuration(String),
    /// Authenticating with the provider failed.
    Authentication(String),
    /// The request to the provider failed to complete (network, timeout).
    Request(String),
    /// The provider responded, but the payload could not be understood.
    InvalidResponse(String),
    /// The provider rejected the request because a rate limit was exceeded.
    RateLimited(String),
}

impl EmbeddingError {
    /// The human-readable text of this error.
    pub open spec fn message_text(&self) -> Seq<char> {
        match self {
            EmbeddingError::EmptyInput => "no inputs were provided to embed"@,
            EmbeddingError::EmptyInputItem { index } => "input at index "@ + text::decimal(
                *index as nat,
            ) + " is empty"@,
            EmbeddingError::Configuration(detail) => "embedding provider configuration error: "@
                + detail@,
            EmbeddingError::Authentication(detail) => "embedding provider authentication failed: "@
                + detail@,
            EmbeddingError::Request(detail) => "embedding provider request failed: "@ + detail@,
            EmbeddingError::InvalidResponse(detail) =>
            "embedding provider returned an invalid response: "@ + detail@,
            EmbeddingError::RateLimited(detail) => "embedding provider rate limit exceeded: "@
                + detail@,
        }
    }

    /// A human-readable description of what went wrong.
    pub fn message(&self) -> (r: String)
        ensures
            r@ == self.message_text(),
    {
        let mut out = String::new();
        match self {
            EmbeddingError::EmptyInput => out.append("no inputs were provided to embed"),
            EmbeddingError::EmptyInputItem { index } => {
                out.append("input at index ");
                text::push_decimal(&mut out, *index as u128);
                out.append(" is empty");
            },
            EmbeddingError::Configuration(detail) => {
                out.append("embedding provider configuration error: ");
                out.append(detail.as_str());
            },
            EmbeddingError::Authentication(detail) => {
                out.append("embedding provider authentication failed: ");
                out.append(detail.as_str());
            },
            EmbeddingError::Request(detail) => {
                out.append("embedding provider request failed: ");
                out.append(detail.as_str());
            },
            EmbeddingError::InvalidResponse(detail) => {
                out.append("embedding provider returned an invalid response: ");
                out.append(detail.as_str());
            },
            EmbeddingError::RateLimited(detail) => {
                out.append("embedding provider rate limit exceeded: ");
                out.append(detail.as_str());
            },
        }
        out
    }
}

} // verus!
