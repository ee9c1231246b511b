//! Failures of retrieval, the step that turns a query into the most relevant chunks.

use vstd::prelude::*;
use vstd::string::*;

use crate::embedding::EmbeddingError;
use crate::text;

verus! {

/// How many chunks to retrieve when a request does not say.
pub const DEFAULT_TOP_K: usize = 5;

/// The set of errors retrieval can produce.
#[derive(Debug)]
pub enum RetrievalError {
    /// The query was empty or contained only white space.
    EmptyQuery,
    /// The query was longer than retrieval accepts.
    QueryTooLong {
        /// Number of characters of the query.
        length: usize,
        /// Number of characters that retrieval accepts.
        max: usize,
    },
    /// Embedding the query or the chunks failed.
    Embedding(EmbeddingError),
    /// The embedding provider did not return one vector per input.
    EmbeddingCountMismatch {
        /// Number of inputs.
        expected: usize,
        /// Number of vectors.
        actual: usize,
    },
    /// The vector store failed.
    VectorStore(String),
}

impl RetrievalError {
    /// The human-readable text of this error.
    pub open spec fn message_text(&self) -> Seq<char> {
        match self {
            RetrievalError::EmptyQuery => "query must not be empty"@,
            RetrievalError::QueryTooLong { length, max } => "query is too long: "@ + text::decimal(
                *length as nat,
            ) + " characters, at most "@ + text::decimal(*max as nat) + " are accepted"@,
            RetrievalError::Embedding(error) => "failed to embed: "@ + error.message_text(),
            RetrievalError::EmbeddingCountMismatch { expected, actual } => "expected "@
                + text::decimal(*expected as nat) + " embedding(s), got "@ + text::decimal(
                *actual as nat,
            ),
            RetrievalError::VectorStore(detail) => "vector store failed: "@ + detail@,
        }
    }

    /// A human-readable description of what went wrong.
    pub fn message(&self) -> (r: String)
        ensures
            r@ == self.message_text(),
    {
        let mut out = String::new();
        match self {
            RetrievalError::EmptyQuery => out.append("query must not be empty"),
            RetrievalError::QueryTooLong { length, max } => {
                out.append("query is too long: ");
                text::push_decimal(&mut out, *length as u128);
                out.append(" characters, at most ");
                text::push_decimal(&mut out, *max as u128);
                out.append(" are accepted");
            },
            RetrievalError::Embedding(error) => {
                out.append("failed to embed: ");
                out.append(error.message().as_str());
            },
            RetrievalError::EmbeddingCountMismatch { expected, actual } => {
                out.append("expected ");
                text::push_decimal(&mut out, *expected as u128);
                out.append(" embedding(s), got ");
                text::push_decimal(&mut out, *actual as u128);
            },
            RetrievalError::VectorStore(detail) => {
                out.append("vector store failed: ");
                out.append(detail.as_str());
            },
        }
        out
    }
}

/// Check that a query can be retrieved for: it must not be blank, and it must have at most
/// `max` characters.
pub fn check_query(query: &str, max: usize) -> (r: Result<(), RetrievalError>)
    ensures
        match r {
            Ok(()) => !text::blank(query@) && query@.len() <= max,
            Err(RetrievalError::EmptyQuery) => text::blank(query@),
            Err(RetrievalError::QueryTooLong { length, max: limit }) => {
                &&& !text::blank(query@)
                &&& query@.len() > max
                &&& length == query@.len()
                &&& limit == max
            },
            Err(_) => false,
        },
{
    if text::is_blank(query) {
        return Err(RetrievalError::EmptyQuery);
    }
    let length: usize = query.unicode_len();
    if length > max {
        return Err(RetrievalError::QueryTooLong { length, max });
    }
    Ok(())
}

} // verus!
