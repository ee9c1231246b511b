//! Splitting documents into chunks.

use rag_service::retrieval::check_query;
use rag_service::{ChunkingError, FixedSizeChunker, RetrievalError, Span};

fn spans(chunker: &FixedSizeChunker, text: &str) -> Vec<(usize, usize)> {
    let characters: Vec<char> = text.chars().collect();
    chunker.spans(&characters).into_iter().map(|Span { start, end }| (start, end)).collect()
}

fn exact(chunk_size: usize, overlap: usize) -> FixedSizeChunker {
    FixedSizeChunker::new(chunk_size, overlap).unwrap().word_aware(false)
}

#[test]
fn exact_cuts_share_the_overlap() {
    assert_eq!(spans(&exact(4, 1), "abcdefgh"), [(0, 4), (3, 7), (6, 8)]);
    assert_eq!(spans(&exact(3, 0), "abcdef"), [(0, 3), (3, 6)]);
    assert_eq!(spans(&exact(3, 0), ""), []);
}

#[test]
fn word_aware_cuts_follow_white_space() {
    let chunker = FixedSizeChunker::new(8, 2).unwrap();
    // "one two " is cut after its last space; "xxxxxxxxxx" holds none.
    assert_eq!(spans(&chunker, "one two three"), [(0, 8), (6, 13)]);
    assert_eq!(spans(&chunker, "one twos three"), [(0, 4), (2, 9), (7, 14)]);
    assert_eq!(spans(&chunker, "xxxxxxxxxx"), [(0, 8), (6, 10)]);
}

#[test]
fn chunks_cover_every_character_of_a_text() {
    let text = "the quick brown fox jumps over the lazy dog and runs away";
    for chunk_size in 1..20 {
        for overlap in 0..chunk_size {
            for word_aware in [true, false] {
                let chunker =
                    FixedSizeChunker::new(chunk_size, overlap).unwrap().word_aware(word_aware);
                let spans = spans(&chunker, text);
                assert_eq!(spans[0].0, 0);
                assert_eq!(spans[spans.len() - 1].1, text.len());
                for (i, &(start, end)) in spans.iter().enumerate() {
                    assert!(start < end && end - start <= chunk_size);
                    if i > 0 {
                        assert_eq!(start + overlap, spans[i - 1].1);
                        assert!(end > spans[i - 1].1);
                    }
                }
            }
        }
    }
}

#[test]
fn short_text_becomes_one_chunk() {
    let chunker = FixedSizeChunker::new(64, 8).unwrap();
    let chunks = chunker.chunk("a.txt", "retrieval augmented generation");
    assert_eq!(chunks.len(), 1);
    assert_eq!(chunks[0].id, "a.txt#0");
    assert_eq!(chunks[0].content, "retrieval augmented generation");
    assert_eq!(chunks[0].metadata.source, "a.txt");
    assert_eq!(chunks[0].metadata.total_chunks, 1);
    assert!(chunks[0].metadata.extra.is_empty());
    assert_eq!((chunks[0].metadata.start_char, chunks[0].metadata.end_char), (0, 30));
    assert!(chunker.chunk("empty.txt", "").is_empty());
}

#[test]
fn chunks_count_characters_and_not_bytes() {
    let chunks = exact(2, 1).chunk("d", "a\u{e9}\u{1f980}z");
    let contents: Vec<&str> = chunks.iter().map(|chunk| chunk.content.as_str()).collect();
    assert_eq!(contents, ["a\u{e9}", "\u{e9}\u{1f980}", "\u{1f980}z"]);
    assert_eq!(chunks[2].id, "d#2");
    assert_eq!(chunks[2].metadata.chunk_index, 2);
}

#[test]
fn overlap_must_be_smaller_than_the_chunk_size() {
    for (chunk_size, overlap) in [(0, 0), (3, 3), (3, 4)] {
        let error = FixedSizeChunker::new(chunk_size, overlap).unwrap_err();
        assert_eq!(error, ChunkingError::OverlapTooLarge { chunk_size, overlap });
    }
    assert_eq!(
        FixedSizeChunker::new(3, 4).unwrap_err().message(),
        "overlap of 4 character(s) must be smaller than the chunk size of 3"
    );
}

#[test]
fn queries_must_not_be_blank_or_too_long() {
    assert!(check_query("hi", 2).is_ok());
    assert!(matches!(check_query("   ", 2), Err(RetrievalError::EmptyQuery)));
    assert!(matches!(
        check_query("\u{e9}t\u{e9}", 2),
        Err(RetrievalError::QueryTooLong { length: 3, max: 2 })
    ));
}
