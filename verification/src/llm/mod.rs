//! Generating text with a language model.
//!
//! The service depends only on the [`LlmProvider`] trait, so the concrete backend (a
//! hosted interface, a local model, or the in-process [`MockLlmProvider`]) can be
//! swapped without touching callers.

pub mod mock;
pub mod provider;

pub use mock::MockLlmProvider;
pub use provider::{LlmError, LlmProvider};
