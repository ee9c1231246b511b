//! Answer generation: retrieve relevant chunks, prompt a language model with them, and
//! return a grounded answer with its sources.
//!
//! Between retrieval and the model sits a confidence threshold: hits scoring below a minimum
//! similarity are dropped before the prompt is built, so unrelated chunks never reach
//! the model. If no hit clears the threshold, the model is not called at all and the response
//! says so ([`NO_CONTEXT_ANSWER`]) with an empty source list.
//!
//! Retrieval and the model are awaited by the caller. An answer therefore proceeds in
//! steps: [`AnswerGenerator::answer`] says what to retrieve, [`RetrievalStep::resume`]
//! takes the hits and says what to prompt the model with, and [`GenerationStep::resume`]
//! takes the completion and gives the response. [`AnswerGenerator::respond`] does the
//! last two with the generator's own model.

use vstd::prelude::*;
use vstd::string::*;

use crate::laws::answering;
use crate::llm::{LlmError, LlmProvider};
use crate::retrieval::{RetrievalError, DEFAULT_TOP_K};
use crate::score;
use crate::score::Score;
use crate::text;
use crate::vector::SearchResult;

verus! {

/// Bit pattern of the minimum similarity a retrieved chunk must score to be included in
/// the prompt, when neither the [`AnswerGenerator`] nor the [`AnswerRequest`] overrides
/// it: the number zero, which drops only chunks that are anti-correlated with the query.
pub const DEFAULT_MIN_SCORE: u32 = 0;

/// The answer returned, without calling the language model, when no retrieved chunk
/// clears the minimum-score threshold.
pub const NO_CONTEXT_ANSWER: &'static str =
    "No sufficiently relevant context was found to answer this query.";

/// The text that opens every prompt, up to the first context passage.
pub const INSTRUCTION: &'static str =
    "Answer the question using only the numbered context passages below. If the passages do not contain the answer, say so instead of guessing.\n\nContext:\n";

/// A request for an answer: a user query, how many chunks to retrieve, and optionally a
/// minimum similarity for a chunk to be used as context.
#[derive(Debug, Clone, PartialEq)]
pub struct AnswerRequest {
    /// The user's question.
    pub query: String,
    /// Maximum number of chunks to retrieve as candidate context.
    pub top_k: usize,
    /// Minimum similarity score a retrieved chunk must reach to be included in the
    /// prompt. When absent, the generator's configured threshold applies.
    pub min_score: Option<Score>,
}

/// How many chunks a request retrieves when it does not say.
pub fn default_top_k() -> (r: usize)
    ensures
        r == DEFAULT_TOP_K,
{
    DEFAULT_TOP_K
}

impl AnswerRequest {
    /// Build a request for `query` retrieving up to `top_k` context chunks, deferring to
    /// the generator's minimum-score threshold.
    pub fn new(query: &str, top_k: usize) -> (r: Self)
        ensures
            r.query@ == query@,
            r.top_k == top_k,
            r.min_score is None,
    {
        AnswerRequest { query: query.to_string(), top_k, min_score: None }
    }

    /// Build a request from the fields of a request body, of which all but the query may
    /// be omitted.
    pub fn from_fields(query: String, top_k: Option<usize>, min_score: Option<Score>) -> (r: Self)
        ensures
            r.query == query,
            r.top_k == (match top_k {
                Some(top_k) => top_k,
                None => DEFAULT_TOP_K,
            }),
            r.min_score == min_score,
    {
        let top_k: usize = match top_k {
            Some(top_k) => top_k,
            None => default_top_k(),
        };
        AnswerRequest { query, top_k, min_score }
    }

    /// Override the minimum similarity score for this request (builder style).
    pub fn with_min_score(self, min_score: Score) -> (r: Self)
        ensures
            r.query == self.query,
            r.top_k == self.top_k,
            r.min_score == Some(min_score),
    {
        AnswerRequest { query: self.query, top_k: self.top_k, min_score: Some(min_score) }
    }
}

/// A reference to a chunk the answer was grounded in: which chunk, from where, and how
/// relevant retrieval judged it.
#[derive(Debug, Clone, PartialEq)]
pub struct SourceRef {
    /// The chunk's identifier.
    pub id: String,
    /// Identifier of the document the chunk came from.
    pub source: String,
    /// Zero-based position of the chunk within its document.
    pub chunk_index: usize,
    /// Similarity of the chunk to the query, as scored by retrieval.
    pub score: Score,
}

/// The reference to a retrieved chunk.
pub open spec fn source_ref(hit: SearchResult) -> SourceRef {
    SourceRef {
        id: hit.chunk.id,
        source: hit.chunk.metadata.source,
        chunk_index: hit.chunk.metadata.chunk_index,
        score: hit.score,
    }
}

/// The references to retrieved chunks, in the same order.
pub open spec fn source_refs(hits: Seq<SearchResult>) -> Seq<SourceRef> {
    hits.map_values(|hit: SearchResult| source_ref(hit))
}

impl<'a> From<&'a SearchResult> for SourceRef {
    fn from(hit: &'a SearchResult) -> (r: Self) {
        SourceRef {
            id: hit.chunk.id.clone(),
            source: hit.chunk.metadata.source.clone(),
            chunk_index: hit.chunk.metadata.chunk_index,
            score: hit.score,
        }
    }
}

impl<'a> vstd::std_specs::convert::FromSpecImpl<&'a SearchResult> for SourceRef {
    open spec fn obeys_from_spec() -> bool {
        true
    }

    open spec fn from_spec(hit: &'a SearchResult) -> SourceRef {
        source_ref(*hit)
    }
}

/// A response: the generated answer and the chunks it was grounded in.
#[derive(Debug, Clone, PartialEq)]
pub struct AnswerResponse {
    /// The language model's answer, or [`NO_CONTEXT_ANSWER`] when no retrieved chunk
    /// cleared the minimum-score threshold.
    pub answer: String,
    /// References to the chunks the prompt was built from, most relevant first.
    pub sources: Vec<SourceRef>,
}

/// One numbered and attributed context passage of a prompt; `index` counts from zero.
pub open spec fn passage(index: nat, hit: SearchResult) -> Seq<char> {
    "["@ + text::decimal(index + 1) + "] "@ + hit.chunk.id@ + " (score "@ + score::fixed_text(
        hit.score@,
    ) + ")\n"@ + hit.chunk.content@ + "\n\n"@
}

/// All context passages of a prompt, in order.
pub open spec fn passages(context: Seq<SearchResult>) -> Seq<char>
    decreases context.len(),
{
    if context.len() == 0 {
        Seq::empty()
    } else {
        passages(context.drop_last()) + passage((context.len() - 1) as nat, context.last())
    }
}

/// The text that closes a prompt.
pub open spec fn question(query: Seq<char>) -> Seq<char> {
    "Question: "@ + query + "\nAnswer:"@
}

/// The prompt that asks `query` over the passages `context`.
pub open spec fn prompt_text(query: Seq<char>, context: Seq<SearchResult>) -> Seq<char> {
    INSTRUCTION@ + passages(context) + question(query)
}

/// Assemble the prompt sent to the language model: the retrieved `context` passages,
/// numbered and attributed, followed by the user's `query`.
pub fn build_prompt(query: &str, context: &[SearchResult]) -> (r: String)
    ensures
        r@ == prompt_text(query@, context@),
{
    let mut prompt = String::new();
    prompt.append(INSTRUCTION);
    for index in 0..context.len()
        invariant
            prompt@ == INSTRUCTION@ + passages(context@.take(index as int)),
    {
        let ghost before = prompt@;
        let hit = &context[index];
        prompt.append("[");
        text::push_decimal(&mut prompt, index as u128 + 1);
        prompt.append("] ");
        prompt.append(hit.chunk.id.as_str());
        prompt.append(" (score ");
        prompt.append(hit.score.to_fixed_text().as_str());
        prompt.append(")\n");
        prompt.append(hit.chunk.content.as_str());
        prompt.append("\n\n");
        proof {
            let taken = context@.take(index + 1);
            assert(taken.drop_last() =~= context@.take(index as int));
            assert(prompt@ =~= before + passage(index as nat, context@[index as int]));
            assert(prompt@ =~= INSTRUCTION@ + passages(taken));
        }
    }
    prompt.append("Question: ");
    prompt.append(query);
    prompt.append("\nAnswer:");
    proof {
        assert(context@.take(context@.len() as int) =~= context@);
        assert(prompt@ =~= prompt_text(query@, context@));
    }
    prompt
}

/// Whether a hit clears the confidence threshold.
pub open spec fn clears(hit: SearchResult, min_score: Score) -> bool {
    score::score_at_least(hit.score@, min_score@)
}

/// The hits that clear the confidence threshold, in the order in which they were retrieved.
pub open spec fn confident(hits: Seq<SearchResult>, min_score: Score) -> Seq<SearchResult> {
    hits.filter(|hit: SearchResult| clears(hit, min_score))
}

/// Drop the hits that score below `min_score`.
pub fn select_context(hits: Vec<SearchResult>, min_score: Score) -> (r: Vec<SearchResult>)
    ensures
        r@ == confident(hits@, min_score),
        forall|hit: SearchResult| #[trigger]
            r@.contains(hit) <==> {
                &&& hits@.contains(hit)
                &&& !score::not_a_number(hit.score@)
                &&& !score::not_a_number(min_score@)
                &&& score::signed_units(hit.score@) >= score::signed_units(min_score@)
            },
{
    let mut context: Vec<SearchResult> = Vec::new();
    let ghost all = hits@;
    proof {
        reveal(Seq::filter);
    }
    for hit in it: hits
        invariant
            it.seq() == all,
            context@ == confident(all.take(it.index() as int), min_score),
    {
        proof {
            let i = it.index() as int;
            assert(all.take(i + 1) =~= all.take(i).push(all[i]));
            all.take(i).lemma_filter_push(
                all[i],
                |hit: SearchResult| clears(hit, min_score),
            );
        }
        if hit.score.at_least(min_score) {
            context.push(hit);
        }
    }
    proof {
        assert(all.take(all.len() as int) =~= all);
        answering::law_hit_is_kept_when_it_reaches_the_threshold(all, min_score);
    }
    context
}

/// References to the chunks of `context`, in the same order.
pub fn collect_sources(context: &[SearchResult]) -> (r: Vec<SourceRef>)
    ensures
        r@ == source_refs(context@),
{
    let mut sources: Vec<SourceRef> = Vec::new();
    for index in 0..context.len()
        invariant
            sources@ == source_refs(context@.take(index as int)),
    {
        sources.push(SourceRef::from(&context[index]));
        proof {
            assert(sources@ =~= source_refs(context@.take(index + 1)));
        }
    }
    proof {
        assert(context@.take(context@.len() as int) =~= context@);
    }
    sources
}

/// The set of errors answer generation can produce.
///
/// Retrieval errors pass through unchanged, so an HTTP layer can map validation failures
/// exactly as it does for the retrieval endpoint; model failures get their own variant.
#[derive(Debug)]
pub enum GenerationError {
    /// Retrieving context for the query failed (invalid query or backend failure).
    Retrieval(RetrievalError),
    /// The language model failed to generate an answer.
    Llm(LlmError),
}

impl GenerationError {
    /// The human-readable text of this error.
    pub open spec fn message_text(&self) -> Seq<char> {
        match self {
            GenerationError::Retrieval(error) => error.message_text(),
            GenerationError::Llm(error) => "failed to generate an answer: "@ + error.message_text(),
        }
    }

    /// A human-readable description of what went wrong.
    pub fn message(&self) -> (r: String)
        ensures
            r@ == self.message_text(),
    {
        match self {
            GenerationError::Retrieval(error) => error.message(),
            GenerationError::Llm(error) => {
                let mut out = String::new();
                out.append("failed to generate an answer: ");
                out.append(error.message().as_str());
                out
            },
        }
    }
}

impl From<RetrievalError> for GenerationError {
    fn from(error: RetrievalError) -> (r: Self) {
        GenerationError::Retrieval(error)
    }
}

impl vstd::std_specs::convert::FromSpecImpl<RetrievalError> for GenerationError {
    open spec fn obeys_from_spec() -> bool {
        true
    }

    open spec fn from_spec(error: RetrievalError) -> GenerationError {
        GenerationError::Retrieval(error)
    }
}

impl From<LlmError> for GenerationError {
    fn from(error: LlmError) -> (r: Self) {
        GenerationError::Llm(error)
    }
}

impl vstd::std_specs::convert::FromSpecImpl<LlmError> for GenerationError {
    open spec fn obeys_from_spec() -> bool {
        true
    }

    open spec fn from_spec(error: LlmError) -> GenerationError {
        GenerationError::Llm(error)
    }
}

/// The first step of an answer: what the retriever is asked for, and the threshold that its
/// hits must clear.
#[derive(Debug, Clone, PartialEq)]
pub struct RetrievalStep {
    /// The query to retrieve chunks for.
    pub query: String,
    /// Maximum number of chunks to retrieve.
    pub top_k: usize,
    /// Minimum similarity score a retrieved chunk must reach to be used as context.
    pub min_score: Score,
}

/// The second step of an answer: what the model is asked, and the chunks that the prompt
/// was built from.
#[derive(Debug, Clone, PartialEq)]
pub struct GenerationStep {
    /// The prompt to complete.
    pub prompt: String,
    /// References to the chunks the prompt was built from.
    pub sources: Vec<SourceRef>,
}

/// What follows retrieval.
#[derive(Debug)]
pub enum AnswerStep {
    /// The model is to complete a prompt.
    Generate(GenerationStep),
    /// The answer is settled without the model.
    Finished(Result<AnswerResponse, GenerationError>),
}

/// The hits of a retrieval, as a sequence.
pub open spec fn hits_view(retrieved: Result<Vec<SearchResult>, RetrievalError>) -> Result<
    Seq<SearchResult>,
    RetrievalError,
> {
    match retrieved {
        Ok(hits) => Ok(hits@),
        Err(error) => Err(error),
    }
}

/// Whether `response` is the refusal to answer without trusted context.
pub open spec fn is_refusal(response: AnswerResponse) -> bool {
    response.answer@ == NO_CONTEXT_ANSWER@ && response.sources@.len() == 0
}

/// Whether `next` is the step that follows a retrieval for `query` which returned
/// `retrieved`.
pub open spec fn follows_retrieval(
    query: Seq<char>,
    min_score: Score,
    retrieved: Result<Seq<SearchResult>, RetrievalError>,
    next: AnswerStep,
) -> bool {
    match retrieved {
        Err(error) => next == AnswerStep::Finished(Err(GenerationError::Retrieval(error))),
        Ok(hits) => {
            let context = confident(hits, min_score);
            if context.len() == 0 {
                next matches AnswerStep::Finished(Ok(response)) && is_refusal(response)
            } else {
                &&& next matches AnswerStep::Generate(step)
                &&& step.prompt@ == prompt_text(query, context)
                &&& step.sources@ == source_refs(context)
            }
        },
    }
}

/// Whether `r` is the result of an answer over `sources` for which the model returned
/// `completion`.
pub open spec fn follows_completion(
    sources: Seq<SourceRef>,
    completion: Result<Seq<char>, LlmError>,
    r: Result<AnswerResponse, GenerationError>,
) -> bool {
    match completion {
        Ok(answer) => r matches Ok(response) && response.answer@ == answer && response.sources@
            == sources,
        Err(error) => r == Err::<AnswerResponse, _>(GenerationError::Llm(error)),
    }
}

impl RetrievalStep {
    /// Continue with what the retriever returned: keep the hits that clear the threshold and
    /// build the prompt from them, or settle the answer when retrieval failed or no hit
    /// clears the threshold.
    pub fn resume(self, retrieved: Result<Vec<SearchResult>, RetrievalError>) -> (r: AnswerStep)
        ensures
            follows_retrieval(self.query@, self.min_score, hits_view(retrieved), r),
            match retrieved {
                Ok(hits) => follows_retrieval(self.query@, self.min_score, Ok(hits@), r),
                Err(error) => r == AnswerStep::Finished(Err(GenerationError::Retrieval(error))),
            },
    {
        let hits = match retrieved {
            Ok(hits) => hits,
            Err(error) => {
                return AnswerStep::Finished(Err(GenerationError::from(error)));
            },
        };
        let context = select_context(hits, self.min_score);
        if context.is_empty() {
            return AnswerStep::Finished(
                Ok(AnswerResponse { answer: NO_CONTEXT_ANSWER.to_string(), sources: Vec::new() }),
            );
        }
        let prompt = build_prompt(self.query.as_str(), context.as_slice());
        let sources = collect_sources(context.as_slice());
        AnswerStep::Generate(GenerationStep { prompt, sources })
    }
}

impl GenerationStep {
    /// Finish with what the model returned.
    pub fn resume(self, completion: Result<String, LlmError>) -> (r: Result<
        AnswerResponse,
        GenerationError,
    >)
        ensures
            follows_completion(
                self.sources@,
                crate::llm::provider::completion_view(completion),
                r,
            ),
            match completion {
                Ok(answer) => r == Ok::<_, GenerationError>(
                    (AnswerResponse { answer, sources: self.sources }),
                ),
                Err(error) => r == Err::<AnswerResponse, _>(GenerationError::Llm(error)),
            },
    {
        match completion {
            Ok(answer) => Ok(AnswerResponse { answer, sources: self.sources }),
            Err(error) => Err(GenerationError::from(error)),
        }
    }
}

/// Generates grounded answers: retrieve, filter by confidence, prompt, and attribute.
///
/// A generator owns a retriever and a language model. Both are generic, so the concrete
/// backends are chosen by the caller; because every method takes a shared reference, a
/// generator can be queried concurrently.
pub struct AnswerGenerator<R, L> {
    retriever: R,
    llm: L,
    min_score: Score,
}

impl<R, L> AnswerGenerator<R, L> {
    /// The retriever of this generator.
    pub closed spec fn backend(&self) -> R {
        self.retriever
    }

    /// The language model of this generator.
    pub closed spec fn model(&self) -> L {
        self.llm
    }

    /// The confidence threshold of this generator.
    pub closed spec fn threshold(&self) -> Score {
        self.min_score
    }

    /// Create a generator over `retriever` and `llm`, using [`DEFAULT_MIN_SCORE`] as the
    /// confidence threshold.
    pub fn new(retriever: R, llm: L) -> (r: Self)
        ensures
            r.backend() == retriever,
            r.model() == llm,
            r.threshold()@ == DEFAULT_MIN_SCORE,
    {
        AnswerGenerator { retriever, llm, min_score: Score::from_bits(DEFAULT_MIN_SCORE) }
    }

    /// Override the minimum similarity a chunk must score to be used as context (builder
    /// style). Requests can still override this per call.
    pub fn with_min_score(self, min_score: Score) -> (r: Self)
        ensures
            r.backend() == self.backend(),
            r.model() == self.model(),
            r.threshold() == min_score,
    {
        AnswerGenerator { retriever: self.retriever, llm: self.llm, min_score }
    }

    /// The minimum similarity score this generator requires of context chunks.
    pub fn min_score(&self) -> (r: Score)
        ensures
            r == self.threshold(),
    {
        self.min_score
    }

    /// Borrow the underlying retriever.
    pub fn retriever(&self) -> (r: &R)
        ensures
            *r == self.backend(),
    {
        &self.retriever
    }

    /// Borrow the language-model provider.
    pub fn llm(&self) -> (r: &L)
        ensures
            *r == self.model(),
    {
        &self.llm
    }

    /// Begin to answer `query` from the indexed corpus: retrieve up to `top_k` chunks and
    /// keep those scoring at least `min_score`.
    pub fn answer(&self, query: &str, top_k: usize, min_score: Score) -> (r: RetrievalStep)
        ensures
            r.query@ == query@,
            r.top_k == top_k,
            r.min_score == min_score,
    {
        RetrievalStep { query: query.to_string(), top_k, min_score }
    }

    /// Begin to handle a request, falling back to the generator's configured
    /// [`min_score`](Self::min_score) when the request does not set one.
    pub fn handle(&self, request: &AnswerRequest) -> (r: RetrievalStep)
        ensures
            r.query@ == request.query@,
            r.top_k == request.top_k,
            r.min_score == (match request.min_score {
                Some(min_score) => min_score,
                None => self.threshold(),
            }),
    {
        let min_score = match request.min_score {
            Some(min_score) => min_score,
            None => self.min_score,
        };
        self.answer(request.query.as_str(), request.top_k, min_score)
    }

    /// Continue `step` with what the retriever returned, asking the generator's own model
    /// where there is a prompt to complete.
    pub fn respond(
        &self,
        step: RetrievalStep,
        retrieved: Result<Vec<SearchResult>, RetrievalError>,
    ) -> (r: Result<AnswerResponse, GenerationError>) where L: LlmProvider
        ensures
            match hits_view(retrieved) {
                Err(error) => r == Err::<AnswerResponse, _>(GenerationError::Retrieval(error)),
                Ok(hits) => {
                    let context = confident(hits, step.min_score);
                    if context.len() == 0 {
                        r matches Ok(response) && is_refusal(response)
                    } else {
                        exists|completion: Result<Seq<char>, LlmError>|
                            self.model().may_return(
                                prompt_text(step.query@, context),
                                completion,
                            ) && follows_completion(source_refs(context), completion, r)
                    }
                },
            },
            match (retrieved, r) {
                (Ok(hits), Ok(response)) => {
                    let context = confident(hits@, step.min_score);
                    &&& response.sources@.len() == context.len()
                    &&& forall|i: int|
                        #![trigger response.sources@[i]]
                        0 <= i < context.len() ==> {
                            &&& response.sources@[i].id == context[i].chunk.id
                            &&& response.sources@[i].source == context[i].chunk.metadata.source
                            &&& response.sources@[i].chunk_index
                                == context[i].chunk.metadata.chunk_index
                            &&& response.sources@[i].score == context[i].score
                        }
                },
                (Err(error), r) => r == Err::<AnswerResponse, _>(GenerationError::Retrieval(error)),
                (Ok(_), Err(error)) => error is Llm,
            },
    {
        match step.resume(retrieved) {
            AnswerStep::Finished(result) => result,
            AnswerStep::Generate(step) => {
                let completion = self.llm.generate(step.prompt.as_str());
                let ghost outcome = crate::llm::provider::completion_view(completion);
                let ghost prompt = step.prompt@;
                let ghost sources = step.sources@;
                let r = step.resume(completion);
                assert(self.model().may_return(prompt, outcome) && follows_completion(
                    sources,
                    outcome,
                    r,
                ));
                r
            },
        }
    }
}

} // verus!
