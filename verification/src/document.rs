//! Chunks of documents.

use std::collections::BTreeMap;

use vstd::prelude::*;

verus! {

/// Free-form facts about a document or a chunk, by name.
pub type Metadata = BTreeMap<String, String>;

/// Where a chunk comes from.
#[derive(Debug, Clone, PartialEq, Eq)]
pub struct ChunkMetadata {
    /// Identifier of the document the chunk came from.
    pub source: String,
    /// Zero-based position of the chunk within its document.
    pub chunk_index: usize,
    /// Number of chunks the document was split into.
    pub total_chunks: usize,
    /// Position of the chunk's first character within its document.
    pub start_char: usize,
    /// Position after the chunk's last character within its document.
    pub end_char: usize,
    /// Further facts that the chunk carries along.
    pub extra: Metadata,
}

/// A piece of a document.
#[derive(Debug, Clone, PartialEq, Eq)]
pub struct Chunk {
    /// The chunk's identifier.
    pub id: String,
    /// The chunk's text.
    pub content: String,
    /// Where the chunk comes from.
    pub metadata: ChunkMetadata,
}

} // verus!
