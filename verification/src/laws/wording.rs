//! What the library says: the texts of errors, HTTP statuses and reports.

use vstd::prelude::*;

use crate::chunking::ChunkingError;
use crate::embedding::EmbeddingError;
use crate::generation::GenerationError;
use crate::llm::LlmError;
use crate::retrieval::RetrievalError;
use crate::service;
use crate::service::{FileReport, IngestReport};
use crate::text;

verus! {

/// The text of every embedding error says what failed, followed by the complete detail.
pub proof fn law_texts_of_embedding_errors(detail: String, index: usize)
    ensures
        EmbeddingError::EmptyInput.message_text() == "no inputs were provided to embed"@,
        (EmbeddingError::EmptyInputItem { index }).message_text() == "input at index "@
            + text::decimal(index as nat) + " is empty"@,
        EmbeddingError::Configuration(detail).message_text()
            == "embedding provider configuration error: "@ + detail@,
        EmbeddingError::Authentication(detail).message_text()
            == "embedding provider authentication failed: "@ + detail@,
        EmbeddingError::Request(detail).message_text() == "embedding provider request failed: "@
            + detail@,
        EmbeddingError::InvalidResponse(detail).message_text()
            == "embedding provider returned an invalid response: "@ + detail@,
        EmbeddingError::RateLimited(detail).message_text()
            == "embedding provider rate limit exceeded: "@ + detail@,
{
}

/// The text of a model error names the provider and gives its complete message.
pub proof fn law_texts_of_model_errors(provider: String, message: String)
    ensures
        (LlmError::Provider { provider, message }).message_text() == "llm provider `"@ + provider@
            + "` failed: "@ + message@,
        LlmError::EmptyPrompt.message_text() == "prompt must not be empty"@,
{
}

/// The text of a retrieval error gives the numbers and the complete detail.
pub proof fn law_texts_of_retrieval_errors(
    a: usize,
    b: usize,
    error: EmbeddingError,
    detail: String,
)
    ensures
        RetrievalError::EmptyQuery.message_text() == "query must not be empty"@,
        (RetrievalError::QueryTooLong { length: a, max: b }).message_text()
            == "query is too long: "@ + text::decimal(a as nat) + " characters, at most "@
            + text::decimal(b as nat) + " are accepted"@,
        RetrievalError::Embedding(error).message_text() == "failed to embed: "@
            + error.message_text(),
        (RetrievalError::EmbeddingCountMismatch { expected: a, actual: b }).message_text()
            == "expected "@ + text::decimal(a as nat) + " embedding(s), got "@ + text::decimal(
            b as nat,
        ),
        RetrievalError::VectorStore(detail).message_text() == "vector store failed: "@ + detail@,
{
}

/// The text of a generation error is that of the retrieval error, or says that the answer
/// failed, followed by the text of the model error.
pub proof fn law_texts_of_generation_errors(retrieval: RetrievalError, failure: LlmError)
    ensures
        GenerationError::Retrieval(retrieval).message_text() == retrieval.message_text(),
        GenerationError::Llm(failure).message_text() == "failed to generate an answer: "@
            + failure.message_text(),
{
}

/// The text of a chunking error gives the overlap and the chunk size.
pub proof fn law_texts_of_chunking_errors(chunk_size: usize, overlap: usize)
    ensures
        (ChunkingError::OverlapTooLarge { chunk_size, overlap }).message_text() == "overlap of "@
            + text::decimal(overlap as nat)
            + " character(s) must be smaller than the chunk size of "@ + text::decimal(
            chunk_size as nat,
        ),
{
}

/// A blank or overlong query is a bad request, a failure of the vector store an internal
/// error, and a failure of the embedding provider or of the model that of a gateway,
/// whatever the details.
pub proof fn law_statuses(
    a: usize,
    b: usize,
    error: EmbeddingError,
    detail: String,
    failure: LlmError,
)
    ensures
        service::OK == 200,
        service::status_of_retrieval_error(RetrievalError::EmptyQuery) == 400,
        service::status_of_retrieval_error(RetrievalError::QueryTooLong { length: a, max: b })
            == 400,
        service::status_of_retrieval_error(RetrievalError::Embedding(error)) == 502,
        service::status_of_retrieval_error(
            RetrievalError::EmbeddingCountMismatch { expected: a, actual: b },
        ) == 502,
        service::status_of_retrieval_error(RetrievalError::VectorStore(detail)) == 500,
        service::status_of_generation_error(GenerationError::Llm(failure)) == 502,
{
}

/// A report begins with the three totals. Every file adds a line with its complete path
/// and its number of chunks, after the lines of the files before it.
pub proof fn law_report_grows_file_by_file(
    report: IngestReport,
    files: Seq<FileReport>,
    file: FileReport,
)
    ensures
        report.summary_line() == "Ingested "@ + text::decimal(report.files_ingested as nat)
            + " file(s), skipped "@ + text::decimal(report.files_skipped as nat) + ", created "@
            + text::decimal(report.chunks_created as nat) + " chunk(s).\n"@,
        service::file_lines(Seq::empty()).len() == 0,
        service::file_lines(files.push(file)) == service::file_lines(files) + ("  "@ + file.path@
            + " -> "@ + text::decimal(file.chunks as nat) + " chunk(s)\n"@),
{
    assert(files.push(file).drop_last() =~= files);
}

} // verus!
