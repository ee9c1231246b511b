//! HTTP replies and console output.

use rag_service::generation::AnswerResponse;
use rag_service::service::{
    answer_reply, generation_status, indexed_line, retrieval_reply, retrieval_status, serving_line,
    written_line,
};
use rag_service::{
    Chunk, ChunkMetadata, EmbeddingError, FileReport, GenerationError, IngestReport, LlmError,
    Metadata, RetrievalError, Score, SearchResult,
};

#[test]
fn validation_failures_are_bad_requests_and_backend_failures_are_not() {
    assert_eq!(retrieval_status(&RetrievalError::EmptyQuery), 400);
    assert_eq!(retrieval_status(&RetrievalError::QueryTooLong { length: 9, max: 8 }), 400);
    assert_eq!(retrieval_status(&RetrievalError::Embedding(EmbeddingError::EmptyInput)), 502);
    let mismatch = RetrievalError::EmbeddingCountMismatch { expected: 2, actual: 1 };
    assert_eq!(retrieval_status(&mismatch), 502);
    assert_eq!(retrieval_status(&RetrievalError::VectorStore("full".to_string())), 500);
    assert_eq!(generation_status(&GenerationError::Llm(LlmError::EmptyPrompt)), 502);
    assert_eq!(generation_status(&GenerationError::Retrieval(RetrievalError::EmptyQuery)), 400);
    assert_eq!(
        generation_status(&GenerationError::from(RetrievalError::VectorStore(String::new()))),
        500
    );
}

#[test]
fn retrieval_replies_carry_hits_or_the_error_text() {
    let reply = retrieval_reply(Ok(Vec::new()));
    assert_eq!(reply.status, 200);
    assert!(reply.body.unwrap().is_empty());

    let reply = retrieval_reply(Err(RetrievalError::EmptyQuery));
    assert_eq!(reply.status, 400);
    assert!(reply.body.unwrap_err().contains("empty"));
}

#[test]
fn answer_replies_carry_the_response_or_the_error_text() {
    let response = AnswerResponse { answer: "yes".to_string(), sources: Vec::new() };
    let reply = answer_reply(Ok(response.clone()));
    assert_eq!(reply.status, 200);
    assert_eq!(reply.body.unwrap(), response);

    let reply = answer_reply(Err(GenerationError::Llm(LlmError::EmptyPrompt)));
    assert_eq!(reply.status, 502);
    assert_eq!(
        reply.body.unwrap_err(),
        "failed to generate an answer: prompt must not be empty"
    );

    let reply = answer_reply(Err(GenerationError::Retrieval(RetrievalError::EmptyQuery)));
    assert_eq!(reply.status, 400);
    assert!(reply.body.unwrap_err().contains("empty"));
}

#[test]
fn retrieval_errors_describe_themselves() {
    assert_eq!(RetrievalError::EmptyQuery.message(), "query must not be empty");
    assert_eq!(
        RetrievalError::QueryTooLong { length: 120, max: 100 }.message(),
        "query is too long: 120 characters, at most 100 are accepted"
    );
    assert_eq!(
        RetrievalError::Embedding(EmbeddingError::EmptyInput).message(),
        "failed to embed: no inputs were provided to embed"
    );
    assert_eq!(
        RetrievalError::EmbeddingCountMismatch { expected: 2, actual: 1 }.message(),
        "expected 2 embedding(s), got 1"
    );
    assert_eq!(
        RetrievalError::VectorStore("full".to_string()).message(),
        "vector store failed: full"
    );
}

#[test]
fn report_lists_totals_and_files() {
    let mut report = IngestReport {
        files_ingested: 2,
        files_skipped: 1,
        chunks_created: 13,
        files: vec![
            FileReport { path: "docs/a.txt".to_string(), chunks: 10 },
            FileReport { path: "docs/b.txt".to_string(), chunks: 3 },
        ],
    };
    assert_eq!(
        report.to_text(),
        "Ingested 2 file(s), skipped 1, created 13 chunk(s).\n  \
         docs/a.txt -> 10 chunk(s)\n  docs/b.txt -> 3 chunk(s)\n"
    );
    report.files = Vec::new();
    assert_eq!(report.to_text(), "Ingested 2 file(s), skipped 1, created 13 chunk(s).\n");
}

#[test]
fn console_lines_have_exact_values() {
    assert_eq!(written_line(7, "chunks.jsonl"), "Wrote 7 chunk(s) to chunks.jsonl");
    assert_eq!(indexed_line(12), "Indexed 12 chunk(s) for retrieval.");
    assert_eq!(
        serving_line("/retrieve", "127.0.0.1:8080"),
        "Serving POST /retrieve on http://127.0.0.1:8080"
    );
}

#[test]
fn retrieval_replies_keep_extra_metadata() {
    let mut extra = Metadata::new();
    extra.insert("language".to_string(), "en".to_string());
    let metadata = ChunkMetadata {
        source: "doc".to_string(),
        chunk_index: 0,
        total_chunks: 1,
        start_char: 0,
        end_char: 4,
        extra,
    };
    let chunk = Chunk { id: "doc#0".to_string(), content: "text".to_string(), metadata };
    let hit = SearchResult { chunk, score: Score::from_bits(0) };
    let reply = retrieval_reply(Ok(vec![hit.clone()]));
    assert_eq!(reply.body.unwrap(), vec![hit]);
}
