//! Splitting documents into chunks of bounded size.

use vstd::prelude::*;
use vstd::string::*;

use crate::document::{Chunk, ChunkMetadata, Metadata};
use crate::text;

verus! {

/// Why a chunker cannot be made.
#[derive(Debug, Clone, Copy, PartialEq, Eq)]
pub enum ChunkingError {
    /// Consecutive chunks would share all their characters, so chunking would not end.
    OverlapTooLarge {
        /// Maximum number of characters per chunk.
        chunk_size: usize,
        /// Number of characters shared between consecutive chunks.
        overlap: usize,
    },
}

impl ChunkingError {
    /// The human-readable text of this error.
    pub open spec fn message_text(&self) -> Seq<char> {
        match self {
            ChunkingError::OverlapTooLarge { chunk_size, overlap } => "overlap of "@
                + text::decimal(*overlap as nat)
                + " character(s) must be smaller than the chunk size of "@ + text::decimal(
                *chunk_size as nat,
            ),
        }
    }

    /// A human-readable description of what went wrong.
    pub fn message(&self) -> (r: String)
        ensures
            r@ == self.message_text(),
    {
        let mut out = String::new();
        match self {
            ChunkingError::OverlapTooLarge { chunk_size, overlap } => {
                out.append("overlap of ");
                text::push_decimal(&mut out, *overlap as u128);
                out.append(" character(s) must be smaller than the chunk size of ");
                text::push_decimal(&mut out, *chunk_size as u128);
            },
        }
        out
    }
}

/// The characters of a document from `start` up to `end`.
#[derive(Debug, Clone, Copy, PartialEq, Eq)]
pub struct Span {
    /// Position of the first character.
    pub start: usize,
    /// Position after the last character.
    pub end: usize,
}

/// Splits text into chunks of a bounded number of characters, of which consecutive ones
/// overlap.
#[derive(Debug)]
pub struct FixedSizeChunker {
    chunk_size: usize,
    overlap: usize,
    word_aware: bool,
}

/// Whether a chunk of `text` may end at `end` without cutting a word.
pub open spec fn word_ends(text: Seq<char>, end: int) -> bool {
    text::is_white_space(text[end - 1])
}

/// Whether `end` is the last position above `low` and up to `high` at which a chunk may
/// end without cutting a word.
pub open spec fn last_word_end(text: Seq<char>, low: int, high: int, end: int) -> bool {
    &&& low < end <= high
    &&& word_ends(text, end)
    &&& forall|i: int| end < i <= high ==> !#[trigger] word_ends(text, i)
}

impl FixedSizeChunker {
    /// Without progress from chunk to chunk, chunking would not end.
    #[verifier::type_invariant]
    spec fn well_formed(self) -> bool {
        self.overlap < self.chunk_size
    }

    /// Maximum number of characters per chunk.
    pub closed spec fn max_len(&self) -> nat {
        self.chunk_size as nat
    }

    /// Number of characters shared between consecutive chunks.
    pub closed spec fn shared_len(&self) -> nat {
        self.overlap as nat
    }

    /// Whether cuts prefer word boundaries.
    pub closed spec fn prefers_words(&self) -> bool {
        self.word_aware
    }

    /// Where the chunk of `text` that begins at `start` ends: at the end of the text if
    /// that is near enough, else after the last white space that leaves more than the
    /// overlap if words are preferred and there is such white space, else at the maximum
    /// size.
    pub open spec fn end_of_chunk(&self, text: Seq<char>, start: int) -> int {
        let low = start + self.shared_len();
        let high = start + self.max_len();
        if high >= text.len() {
            text.len() as int
        } else if self.prefers_words() && exists|end: int| last_word_end(text, low, high, end) {
            choose|end: int| last_word_end(text, low, high, end)
        } else {
            high
        }
    }

    /// The spans of the chunks of `text` from the chunk that begins at `start` on.
    pub open spec fn spans_from(&self, text: Seq<char>, start: int) -> Seq<Span>
        decreases text.len() - start,
        when 0 <= start < text.len() && self.shared_len() < self.max_len()
    {
        let end = self.end_of_chunk(text, start);
        let first = seq![Span { start: start as usize, end: end as usize }];
        if end >= text.len() {
            first
        } else {
            first + self.spans_from(text, end - self.shared_len())
        }
    }

    /// The spans of the chunks of `text`.
    pub open spec fn all_spans(&self, text: Seq<char>) -> Seq<Span> {
        if text.len() == 0 {
            Seq::empty()
        } else {
            self.spans_from(text, 0)
        }
    }

    /// Create a chunker for chunks of at most `chunk_size` characters, of which
    /// consecutive ones share `overlap` characters. Cuts prefer word boundaries.
    pub fn new(chunk_size: usize, overlap: usize) -> (r: Result<Self, ChunkingError>)
        ensures
            match r {
                Ok(chunker) => {
                    &&& overlap < chunk_size
                    &&& chunker.max_len() == chunk_size
                    &&& chunker.shared_len() == overlap
                    &&& chunker.prefers_words()
                },
                Err(error) => overlap >= chunk_size && error == (ChunkingError::OverlapTooLarge {
                    chunk_size,
                    overlap,
                }),
            },
    {
        if overlap >= chunk_size {
            return Err(ChunkingError::OverlapTooLarge { chunk_size, overlap });
        }
        Ok(FixedSizeChunker { chunk_size, overlap, word_aware: true })
    }

    /// Choose whether cuts prefer word boundaries (builder style).
    pub fn word_aware(self, word_aware: bool) -> (r: Self)
        ensures
            r.max_len() == self.max_len(),
            r.shared_len() == self.shared_len(),
            r.prefers_words() == word_aware,
    {
        proof {
            use_type_invariant(&self);
        }
        FixedSizeChunker { chunk_size: self.chunk_size, overlap: self.overlap, word_aware }
    }

    /// Where the chunk of `text` that begins at `start` ends.
    fn cut(&self, text: &[char], start: usize) -> (r: usize)
        requires
            start < text@.len(),
        ensures
            r == self.end_of_chunk(text@, start as int),
            start + self.shared_len() < r || r == text@.len(),
            start < r <= text@.len(),
            r - start <= self.max_len(),
    {
        proof {
            use_type_invariant(self);
        }
        if self.chunk_size >= text.len() - start {
            return text.len();
        }
        let high: usize = start + self.chunk_size;
        if self.word_aware {
            let mut end: usize = high;
            while end - start > self.overlap
                invariant
                    self.overlap < self.chunk_size,
                    self.overlap == self.shared_len(),
                    self.chunk_size == self.max_len(),
                    self.word_aware == self.prefers_words(),
                    self.word_aware,
                    start + self.overlap <= end <= high == start + self.chunk_size < text@.len(),
                    forall|i: int| end < i <= high ==> !#[trigger] word_ends(text@, i),
                decreases end,
            {
                if text::char_is_white_space(text[end - 1]) {
                    proof {
                        let low = start + self.shared_len();
                        assert(last_word_end(text@, low, high as int, end as int));
                        let chosen = choose|e: int| last_word_end(text@, low, high as int, e);
                        assert(chosen == end);
                    }
                    return end;
                }
                assert(!word_ends(text@, end as int));
                end = end - 1;
            }
        }
        high
    }

    /// The spans of the chunks of `text`, in order.
    pub fn spans(&self, text: &[char]) -> (r: Vec<Span>)
        ensures
            r@ == self.all_spans(text@),
    {
        proof {
            use_type_invariant(self);
        }
        let mut spans: Vec<Span> = Vec::new();
        if text.len() == 0 {
            return spans;
        }
        let mut start: usize = 0;
        loop
            invariant
                self.overlap < self.chunk_size,
                self.overlap == self.shared_len(),
                self.chunk_size == self.max_len(),
                start < text@.len(),
                self.all_spans(text@) == spans@ + self.spans_from(text@, start as int),
            decreases text@.len() - start,
        {
            let ghost before = spans@;
            let end = self.cut(text, start);
            spans.push(Span { start, end });
            if end >= text.len() {
                assert(spans@ =~= self.all_spans(text@));
                return spans;
            }
            start = end - self.overlap;
            proof {
                assert(self.all_spans(text@) =~= spans@ + self.spans_from(text@, start as int));
            }
        }
    }

    /// Whether `chunk` is chunk number `index` of the document `source` with the text
    /// `text`.
    pub open spec fn is_chunk(
        &self,
        source: Seq<char>,
        text: Seq<char>,
        index: int,
        chunk: Chunk,
    ) -> bool {
        let spans = self.all_spans(text);
        &&& chunk.id@ == source + "#"@ + text::decimal(index as nat)
        &&& chunk.content@ == text.subrange(spans[index].start as int, spans[index].end as int)
        &&& chunk.metadata.source@ == source
        &&& chunk.metadata.chunk_index == index
        &&& chunk.metadata.total_chunks == spans.len()
        &&& chunk.metadata.start_char == spans[index].start
        &&& chunk.metadata.end_char == spans[index].end
        &&& chunk.metadata.extra@ == Map::<String, String>::empty()
    }

    /// Split the text of the document `source` into chunks. A chunk is identified by its
    /// document and its position.
    pub fn chunk(&self, source: &str, text: &str) -> (r: Vec<Chunk>)
        ensures
            r@.len() == self.all_spans(text@).len(),
            forall|i: int|
                0 <= i < r@.len() ==> self.is_chunk(source@, text@, i, #[trigger] r@[i]),
            forall|i: int|
                #![trigger r@[i]]
                0 <= i < r@.len() ==> {
                    &&& r@[i].id@ == source@ + "#"@ + text::decimal(i as nat)
                    &&& r@[i].content@ == text@.subrange(
                        r@[i].metadata.start_char as int,
                        r@[i].metadata.end_char as int,
                    )
                    &&& r@[i].metadata.source@ == source@
                    &&& r@[i].metadata.chunk_index == i
                    &&& r@[i].metadata.total_chunks == r@.len()
                    &&& r@[i].metadata.start_char == self.all_spans(text@)[i].start
                    &&& r@[i].metadata.end_char == self.all_spans(text@)[i].end
                    &&& r@[i].metadata.extra@ == Map::<String, String>::empty()
                },
    {
        let mut characters: Vec<char> = Vec::new();
        for c in it: text.chars()
            invariant
                it.seq() == text@,
                characters@ == text@.take(it.index() as int),
        {
            characters.push(c);
            assert(text@.take(it.index() + 1) =~= characters@);
        }
        assert(characters@ =~= text@);
        let length: usize = characters.len();
        let spans = self.spans(characters.as_slice());
        proof {
            use_type_invariant(self);
            assert(length == text@.len());
            if text@.len() > 0 {
                lemma_spans_from(self, text@, 0);
            }
        }
        let mut chunks: Vec<Chunk> = Vec::new();
        for index in 0..spans.len()
            invariant
                spans@ == self.all_spans(text@),
                chunks@.len() == index,
                forall|i: int| #![trigger spans@[i]] 0 <= i < spans@.len() ==> spans@[i].start
                    <= spans@[i].end <= text@.len(),
                forall|i: int|
                    0 <= i < index ==> self.is_chunk(source@, text@, i, #[trigger] chunks@[i]),
        {
            let span = spans[index];
            let mut id = source.to_string();
            id.append("#");
            text::push_decimal(&mut id, index as u128);
            let content = text.substring_char(span.start, span.end).to_string();
            let metadata = ChunkMetadata {
                source: source.to_string(),
                chunk_index: index,
                total_chunks: spans.len(),
                start_char: span.start,
                end_char: span.end,
                extra: Metadata::new(),
            };
            chunks.push(Chunk { id, content, metadata });
        }
        chunks
    }
}

/// Facts about a sequence of spans that chunk `text` from `start` on.
pub open spec fn spans_chunk(
    spans: Seq<Span>,
    text: Seq<char>,
    start: int,
    max_len: nat,
    shared_len: nat,
) -> bool {
    &&& spans.len() > 0
    &&& spans.first().start == start
    &&& spans.last().end == text.len()
    &&& forall|i: int|
        #![trigger spans[i]]
        0 <= i < spans.len() ==> spans[i].start < spans[i].end <= text.len() && spans[i].end
            - spans[i].start <= max_len
    &&& forall|i: int, j: int|
        #![trigger spans[i], spans[j]]
        0 <= i && j == i + 1 && j < spans.len() ==> spans[j].start == spans[i].end - shared_len
            && spans[i].start < spans[j].start && spans[i].end < spans[j].end
}

/// The end of a chunk lies within the bounds that the chunker sets.
proof fn lemma_end_is_in_bounds(chunker: &FixedSizeChunker, text: Seq<char>, start: int)
    requires
        chunker.shared_len() < chunker.max_len(),
        0 <= start < text.len(),
    ensures
        start < chunker.end_of_chunk(text, start) <= text.len(),
        chunker.end_of_chunk(text, start) - start <= chunker.max_len(),
        chunker.end_of_chunk(text, start) < text.len() ==> chunker.end_of_chunk(text, start)
            > start + chunker.shared_len(),
{
}

/// The spans from a position on chunk the rest of the text.
proof fn lemma_spans_from(chunker: &FixedSizeChunker, text: Seq<char>, start: int)
    requires
        chunker.shared_len() < chunker.max_len(),
        0 <= start < text.len() <= usize::MAX,
    ensures
        spans_chunk(
            chunker.spans_from(text, start),
            text,
            start,
            chunker.max_len(),
            chunker.shared_len(),
        ),
    decreases text.len() - start,
{
    let end = chunker.end_of_chunk(text, start);
    lemma_end_is_in_bounds(chunker, text, start);
    let spans = chunker.spans_from(text, start);
    if end < text.len() {
        let next = end - chunker.shared_len();
        lemma_spans_from(chunker, text, next);
        lemma_end_is_in_bounds(chunker, text, next);
        let rest = chunker.spans_from(text, next);
        assert(spans.last() == rest.last());
        assert forall|i: int| #![trigger spans[i]] 0 <= i < spans.len() implies spans[i].start
            < spans[i].end <= text.len() && spans[i].end - spans[i].start
            <= chunker.max_len() by {
            if i > 0 {
                assert(spans[i] == rest[i - 1]);
            }
        }
        assert forall|i: int, j: int|
            #![trigger spans[i], spans[j]]
            0 <= i && j == i + 1 && j < spans.len() implies spans[j].start == spans[i].end
            - chunker.shared_len() && spans[i].start < spans[j].start && spans[i].end
            < spans[j].end by {
            assert(spans[j] == rest[j - 1]);
            if i > 0 {
                assert(spans[i] == rest[i - 1]);
            }
        }
    }
}

/// The chunks of a text that is not empty cover it from its first to its last character,
/// in order. None is empty and none is longer than the maximum; consecutive ones share
/// exactly the overlap, and each goes on beyond the one before it.
pub proof fn law_chunks_cover_the_text(chunker: &FixedSizeChunker, text: Seq<char>)
    requires
        chunker.shared_len() < chunker.max_len(),
        0 < text.len() <= usize::MAX,
    ensures
        spans_chunk(
            chunker.all_spans(text),
            text,
            0,
            chunker.max_len(),
            chunker.shared_len(),
        ),
        chunker.all_spans(text).len() > 0,
        chunker.all_spans(text).first().start == 0,
        chunker.all_spans(text).last().end == text.len(),
        forall|i: int|
            #![trigger chunker.all_spans(text)[i]]
            0 <= i < chunker.all_spans(text).len() ==> chunker.all_spans(text)[i].start
                < chunker.all_spans(text)[i].end && chunker.all_spans(text)[i].end
                - chunker.all_spans(text)[i].start <= chunker.max_len(),
        forall|i: int, j: int|
            #![trigger chunker.all_spans(text)[i], chunker.all_spans(text)[j]]
            0 <= i && j == i + 1 && j < chunker.all_spans(text).len() ==> chunker.all_spans(
                text,
            )[j].start + chunker.shared_len() == chunker.all_spans(text)[i].end
                && chunker.all_spans(text)[i].start < chunker.all_spans(text)[j].start
                && chunker.all_spans(text)[i].end < chunker.all_spans(text)[j].end,
{
    lemma_spans_from(chunker, text, 0);
}

/// A chunk is named after its document and its position, holds exactly the characters of
/// its span, and records where they stand.
pub proof fn law_chunk_holds_its_span(
    chunker: &FixedSizeChunker,
    source: Seq<char>,
    text: Seq<char>,
    index: int,
    chunk: Chunk,
)
    requires
        chunker.is_chunk(source, text, index, chunk),
        0 <= index < chunker.all_spans(text).len(),
    ensures
        chunk.id@ == source + "#"@ + text::decimal(index as nat),
        chunk.content@ == text.subrange(
            chunker.all_spans(text)[index].start as int,
            chunker.all_spans(text)[index].end as int,
        ),
        chunk.metadata.source@ == source,
        chunk.metadata.chunk_index == index,
        chunk.metadata.total_chunks == chunker.all_spans(text).len(),
        chunk.metadata.start_char == chunker.all_spans(text)[index].start,
        chunk.metadata.end_char == chunker.all_spans(text)[index].end,
{
}

/// An empty text has no chunks.
pub proof fn law_empty_text_has_no_chunks(chunker: &FixedSizeChunker)
    ensures
        chunker.all_spans(Seq::empty()).len() == 0,
{
}

/// If a word ends somewhere in reach, there is a last such place.
proof fn lemma_some_word_end_is_last(text: Seq<char>, low: int, high: int, end: int)
    requires
        low < end <= high,
        word_ends(text, end),
    ensures
        exists|last: int| last_word_end(text, low, high, last),
    decreases high - end,
{
    if exists|later: int| end < later <= high && #[trigger] word_ends(text, later) {
        let later = choose|later: int| end < later <= high && #[trigger] word_ends(text, later);
        lemma_some_word_end_is_last(text, low, high, later);
    } else {
        assert(last_word_end(text, low, high, end));
    }
}

/// A chunk that is followed by another begins where the chunker left off and ends where
/// the chunker cuts.
proof fn lemma_span_is_cut(chunker: &FixedSizeChunker, text: Seq<char>, start: int, i: int)
    requires
        chunker.shared_len() < chunker.max_len(),
        0 <= start < text.len() <= usize::MAX,
        0 <= i < chunker.spans_from(text, start).len() - 1,
    ensures
        ({
            let span = chunker.spans_from(text, start)[i];
            &&& 0 <= span.start < text.len()
            &&& span.end == chunker.end_of_chunk(text, span.start as int)
            &&& span.end < text.len()
        }),
    decreases text.len() - start,
{
    lemma_end_is_in_bounds(chunker, text, start);
    let end = chunker.end_of_chunk(text, start);
    if end < text.len() && i > 0 {
        let next = end - chunker.shared_len();
        lemma_span_is_cut(chunker, text, next, i - 1);
        assert(chunker.spans_from(text, start)[i] == chunker.spans_from(text, next)[i - 1]);
    }
}

/// A text is only cut where it must be: every chunk but the last begins too far from the
/// end of the text to reach it.
pub proof fn law_text_is_cut_only_where_it_must_be(
    chunker: &FixedSizeChunker,
    text: Seq<char>,
    i: int,
)
    requires
        chunker.shared_len() < chunker.max_len(),
        text.len() <= usize::MAX,
        0 <= i < chunker.all_spans(text).len() - 1,
    ensures
        chunker.all_spans(text)[i].start + chunker.max_len() < text.len(),
        chunker.all_spans(text)[i].end < text.len(),
{
    lemma_span_is_cut(chunker, text, 0, i);
    lemma_end_is_in_bounds(chunker, text, chunker.all_spans(text)[i].start as int);
}

/// When words are not preferred, every chunk but the last has exactly the maximum number
/// of characters.
pub proof fn law_exact_cuts(chunker: &FixedSizeChunker, text: Seq<char>, i: int)
    requires
        chunker.shared_len() < chunker.max_len(),
        !chunker.prefers_words(),
        text.len() <= usize::MAX,
        0 <= i < chunker.all_spans(text).len() - 1,
    ensures
        chunker.all_spans(text)[i].end - chunker.all_spans(text)[i].start == chunker.max_len(),
{
    lemma_span_is_cut(chunker, text, 0, i);
}

/// When words are preferred, every chunk but the last ends after the last white space in
/// reach, that is within the maximum number of characters and beyond the overlap. Without
/// white space in reach it has exactly the maximum number of characters.
pub proof fn law_word_cuts(chunker: &FixedSizeChunker, text: Seq<char>, i: int)
    requires
        chunker.shared_len() < chunker.max_len(),
        chunker.prefers_words(),
        text.len() <= usize::MAX,
        0 <= i < chunker.all_spans(text).len() - 1,
    ensures
        forall|end: int|
            #![trigger text[end - 1]]
            chunker.all_spans(text)[i].start + chunker.shared_len() < end
                <= chunker.all_spans(text)[i].start + chunker.max_len() && text::is_white_space(
                text[end - 1],
            ) ==> text::is_white_space(text[chunker.all_spans(text)[i].end - 1])
                && chunker.all_spans(text)[i].end >= end,
        (forall|end: int|
            #![trigger text[end - 1]]
            chunker.all_spans(text)[i].start + chunker.shared_len() < end
                <= chunker.all_spans(text)[i].start + chunker.max_len() ==> !text::is_white_space(
                text[end - 1],
            )) ==> chunker.all_spans(text)[i].end - chunker.all_spans(text)[i].start
            == chunker.max_len(),
        chunker.all_spans(text)[i].end - chunker.all_spans(text)[i].start > chunker.shared_len(),
{
    lemma_span_is_cut(chunker, text, 0, i);
    let span = chunker.all_spans(text)[i];
    let low = span.start + chunker.shared_len();
    let high = span.start + chunker.max_len();
    lemma_end_is_in_bounds(chunker, text, span.start as int);
    assert forall|end: int|
        #![trigger text[end - 1]]
        low < end <= high && text::is_white_space(text[end - 1]) implies text::is_white_space(
        text[span.end - 1],
    ) && span.end >= end by {
        assert(word_ends(text, end));
        lemma_some_word_end_is_last(text, low, high, end);
        assert(last_word_end(text, low, high, span.end as int));
    }
    if forall|end: int|
        #![trigger text[end - 1]]
        low < end <= high ==> !text::is_white_space(text[end - 1]) {
        if exists|end: int| last_word_end(text, low, high, end) {
            let end = choose|end: int| last_word_end(text, low, high, end);
            assert(text::is_white_space(text[end - 1]));
        }
    }
}

/// A text that fits into one chunk becomes exactly one chunk, which is the whole text.
pub proof fn law_short_text_is_one_chunk(chunker: &FixedSizeChunker, text: Seq<char>)
    requires
        chunker.shared_len() < chunker.max_len(),
        0 < text.len() <= chunker.max_len(),
        text.len() <= usize::MAX,
    ensures
        chunker.all_spans(text) == seq![Span { start: 0, end: text.len() as usize }],
{
}

} // verus!
