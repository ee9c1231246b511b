//! Provider-agnostic embedding abstraction.
//!
//! Embeddings turn text into dense vectors that the retrieval layer can compare for
//! similarity. The service talks to embedding backends exclusively through the
//! [`EmbeddingProvider`] trait.

pub mod error;
pub mod mock;
pub mod provider;

pub use error::EmbeddingError;
pub use mock::MockEmbeddingProvider;
pub use provider::EmbeddingProvider;
