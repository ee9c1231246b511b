//! Core library of a retrieval augmented generation (RAG) service.
//!
//! The library is organised around small, provider-agnostic abstractions, so that the
//! service never depends on a single vendor: the [`EmbeddingProvider`] and [`LlmProvider`]
//! traits stand for backends, and [`AnswerGenerator`] turns what a retriever found into
//! an answer that is grounded in it.

pub mod chunking;
pub mod document;
pub mod embedding;
pub mod generation;
pub mod laws;
pub mod llm;
pub mod retrieval;
pub mod score;
pub mod service;
pub mod text;
pub mod vector;

pub use chunking::{ChunkingError, FixedSizeChunker, Span};
pub use document::{Chunk, ChunkMetadata, Metadata};
pub use embedding::{EmbeddingError, EmbeddingProvider, MockEmbeddingProvider};
pub use generation::{
    build_prompt, AnswerGenerator, AnswerRequest, AnswerResponse, AnswerStep, GenerationError,
    GenerationStep, RetrievalStep, SourceRef, DEFAULT_MIN_SCORE, NO_CONTEXT_ANSWER,
};
pub use llm::{LlmError, LlmProvider, MockLlmProvider};
pub use retrieval::{RetrievalError, DEFAULT_TOP_K};
pub use score::Score;
pub use service::{FileReport, IngestReport, Reply};
pub use vector::SearchResult;
