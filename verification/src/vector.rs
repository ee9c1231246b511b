//! Results of a similarity search.

use vstd::prelude::*;

use crate::document::Chunk;
use crate::score::Score;

verus! {

/// A chunk that a search found, and how similar to the query it is.
#[derive(Debug, Clone, PartialEq)]
pub struct SearchResult {
    /// The chunk that was found.
    pub chunk: Chunk,
    /// Similarity of the chunk to the query.
    pub score: Score,
}

} // verus!
