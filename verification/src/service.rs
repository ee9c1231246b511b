//! What the service says to its clients: HTTP replies and console output.

use vstd::prelude::*;
use vstd::string::*;

use crate::generation::{AnswerResponse, GenerationError};
use crate::retrieval::RetrievalError;
use crate::text;
use crate::vector::SearchResult;

verus! {

/// HTTP status of a successful reply.
pub const OK: u16 = 200;

/// HTTP status of a reply to an invalid request.
pub const BAD_REQUEST: u16 = 400;

/// HTTP status of a reply to a request that the service itself failed on.
pub const INTERNAL_SERVER_ERROR: u16 = 500;

/// HTTP status of a reply to a request that a backend failed on.
pub const BAD_GATEWAY: u16 = 502;

/// Whether the client is to blame for a retrieval error.
pub open spec fn is_validation_failure(error: RetrievalError) -> bool {
    error is EmptyQuery || error is QueryTooLong
}

/// The HTTP status of a retrieval error.
pub open spec fn status_of_retrieval_error(error: RetrievalError) -> u16 {
    if is_validation_failure(error) {
        BAD_REQUEST
    } else if error is VectorStore {
        INTERNAL_SERVER_ERROR
    } else {
        BAD_GATEWAY
    }
}

/// The HTTP status of a generation error.
pub open spec fn status_of_generation_error(error: GenerationError) -> u16 {
    match error {
        GenerationError::Retrieval(error) => status_of_retrieval_error(error),
        GenerationError::Llm(_) => BAD_GATEWAY,
    }
}

/// Map a [`RetrievalError`] onto the HTTP status both endpoints use for it: validation
/// failures are the client's fault, backend failures are not.
pub fn retrieval_status(error: &RetrievalError) -> (r: u16)
    ensures
        r == status_of_retrieval_error(*error),
{
    match error {
        RetrievalError::EmptyQuery | RetrievalError::QueryTooLong { .. } => BAD_REQUEST,
        RetrievalError::Embedding(_) | RetrievalError::EmbeddingCountMismatch { .. } => BAD_GATEWAY,
        RetrievalError::VectorStore(_) => INTERNAL_SERVER_ERROR,
    }
}

/// Map a [`GenerationError`] onto the HTTP status of the answer endpoint.
pub fn generation_status(error: &GenerationError) -> (r: u16)
    ensures
        r == status_of_generation_error(*error),
{
    match error {
        GenerationError::Retrieval(error) => retrieval_status(error),
        GenerationError::Llm(_) => BAD_GATEWAY,
    }
}

/// An HTTP reply: its status, and either a value or the text of an error to serialise as
/// its body.
#[derive(Debug)]
pub struct Reply<T> {
    /// The HTTP status.
    pub status: u16,
    /// The value, or the text of the error.
    pub body: Result<T, String>,
}

/// The reply of the retrieval endpoint.
pub fn retrieval_reply(result: Result<Vec<SearchResult>, RetrievalError>) -> (r: Reply<
    Vec<SearchResult>,
>)
    ensures
        match result {
            Ok(hits) => r.status == OK && r.body == Ok::<_, String>(hits),
            Err(error) => r.status == status_of_retrieval_error(error) && r.body is Err
                && r.body->Err_0@ == error.message_text(),
        },
{
    match result {
        Ok(hits) => Reply { status: OK, body: Ok(hits) },
        Err(error) => Reply { status: retrieval_status(&error), body: Err(error.message()) },
    }
}

/// The reply of the answer endpoint.
pub fn answer_reply(result: Result<AnswerResponse, GenerationError>) -> (r: Reply<AnswerResponse>)
    ensures
        match result {
            Ok(response) => r.status == OK && r.body == Ok::<_, String>(response),
            Err(error) => r.status == status_of_generation_error(error) && r.body is Err
                && r.body->Err_0@ == error.message_text(),
        },
{
    match result {
        Ok(response) => Reply { status: OK, body: Ok(response) },
        Err(error) => Reply { status: generation_status(&error), body: Err(error.message()) },
    }
}

/// How one file was ingested.
#[derive(Debug, Clone, PartialEq, Eq)]
pub struct FileReport {
    /// The file's path, as it is shown.
    pub path: String,
    /// Number of chunks the file was split into.
    pub chunks: usize,
}

/// How an ingestion went.
#[derive(Debug, Clone, PartialEq, Eq)]
pub struct IngestReport {
    /// Number of files that were ingested.
    pub files_ingested: usize,
    /// Number of files that were skipped.
    pub files_skipped: usize,
    /// Number of chunks that were created.
    pub chunks_created: usize,
    /// The ingested files.
    pub files: Vec<FileReport>,
}

/// The line of a report on one file.
pub open spec fn file_line(file: FileReport) -> Seq<char> {
    "  "@ + file.path@ + " -> "@ + text::decimal(file.chunks as nat) + " chunk(s)\n"@
}

/// The lines of a report on files, in order.
pub open spec fn file_lines(files: Seq<FileReport>) -> Seq<char>
    decreases files.len(),
{
    if files.len() == 0 {
        Seq::empty()
    } else {
        file_lines(files.drop_last()) + file_line(files.last())
    }
}

impl IngestReport {
    /// The first line of the report.
    pub open spec fn summary_line(&self) -> Seq<char> {
        "Ingested "@ + text::decimal(self.files_ingested as nat) + " file(s), skipped "@
            + text::decimal(self.files_skipped as nat) + ", created "@ + text::decimal(
            self.chunks_created as nat,
        ) + " chunk(s).\n"@
    }

    /// The text of the report: a summary line and one line per file.
    pub fn to_text(&self) -> (r: String)
        ensures
            r@ == self.summary_line() + file_lines(self.files@),
    {
        let mut out = String::new();
        out.append("Ingested ");
        text::push_decimal(&mut out, self.files_ingested as u128);
        out.append(" file(s), skipped ");
        text::push_decimal(&mut out, self.files_skipped as u128);
        out.append(", created ");
        text::push_decimal(&mut out, self.chunks_created as u128);
        out.append(" chunk(s).\n");
        proof {
            assert(out@ =~= self.summary_line());
        }
        for index in 0..self.files.len()
            invariant
                out@ == self.summary_line() + file_lines(self.files@.take(index as int)),
        {
            let ghost before = out@;
            let file = &self.files[index];
            out.append("  ");
            out.append(file.path.as_str());
            out.append(" -> ");
            text::push_decimal(&mut out, file.chunks as u128);
            out.append(" chunk(s)\n");
            proof {
                let taken = self.files@.take(index + 1);
                assert(taken.drop_last() =~= self.files@.take(index as int));
                assert(out@ =~= before + file_line(self.files@[index as int]));
                assert(out@ =~= self.summary_line() + file_lines(taken));
            }
        }
        proof {
            assert(self.files@.take(self.files@.len() as int) =~= self.files@);
        }
        out
    }
}

/// The line that says how many chunks were written to the file at `path`.
pub fn written_line(chunks: usize, path: &str) -> (r: String)
    ensures
        r@ == "Wrote "@ + text::decimal(chunks as nat) + " chunk(s) to "@ + path@,
{
    let mut out = String::new();
    out.append("Wrote ");
    text::push_decimal(&mut out, chunks as u128);
    out.append(" chunk(s) to ");
    out.append(path);
    out
}

/// The line that says how many chunks were indexed.
pub fn indexed_line(chunks: usize) -> (r: String)
    ensures
        r@ == "Indexed "@ + text::decimal(chunks as nat) + " chunk(s) for retrieval."@,
{
    let mut out = String::new();
    out.append("Indexed ");
    text::push_decimal(&mut out, chunks as u128);
    out.append(" chunk(s) for retrieval.");
    out
}

/// The line that says where the endpoint at `route` is served.
pub fn serving_line(route: &str, addr: &str) -> (r: String)
    ensures
        r@ == "Serving POST "@ + route@ + " on http://"@ + addr@,
{
    let mut out = String::new();
    out.append("Serving POST ");
    out.append(route);
    out.append(" on http://");
    out.append(addr);
    out
}

} // verus!
