//! What an answer is made of: the context, the prompt, the sources and the response.

use vstd::prelude::*;
use vstd::std_specs::convert::FromSpec;

use crate::generation;
use crate::generation::{AnswerResponse, AnswerStep, GenerationError, SourceRef};
use crate::llm::provider;
use crate::llm::{LlmError, LlmProvider, MockLlmProvider};
use crate::retrieval;
use crate::retrieval::RetrievalError;
use crate::score;
use crate::score::Score;
use crate::text;
use crate::vector::SearchResult;

verus! {

// The context.

/// A hit is in the context exactly when it was retrieved, its score and the threshold are
/// both numbers, and the value of the score is not below the value of the threshold,
/// whatever the threshold is.
pub proof fn law_hit_is_kept_when_it_reaches_the_threshold(
    hits: Seq<SearchResult>,
    min_score: Score,
)
    ensures
        forall|hit: SearchResult|
            #![trigger generation::confident(hits, min_score).contains(hit)]
            #![trigger hits.contains(hit)]
            generation::confident(hits, min_score).contains(hit) <==> {
                &&& hits.contains(hit)
                &&& !score::not_a_number(hit.score@)
                &&& !score::not_a_number(min_score@)
                &&& score::signed_units(hit.score@) >= score::signed_units(min_score@)
            },
{
    let pred = |hit: SearchResult| generation::clears(hit, min_score);
    let context = generation::confident(hits, min_score);
    assert forall|hit: SearchResult|
        #![trigger context.contains(hit)]
        #![trigger hits.contains(hit)]
        context.contains(hit) <==> {
            &&& hits.contains(hit)
            &&& !score::not_a_number(hit.score@)
            &&& !score::not_a_number(min_score@)
            &&& score::signed_units(hit.score@) >= score::signed_units(min_score@)
        } by {
        if context.contains(hit) {
            let i = choose|i: int| 0 <= i < context.len() && context[i] == hit;
            hits.lemma_filter_pred(pred, i);
            hits.lemma_filter_contains_rev(pred, hit);
        }
        if hits.contains(hit) && generation::clears(hit, min_score) {
            let i = choose|i: int| 0 <= i < hits.len() && hits[i] == hit;
            hits.lemma_filter_contains(pred, i);
        }
    }
}

/// Without hits there is no context. One more hit is added at the end of the context if
/// its score reaches the threshold, and changes nothing if not: the context keeps the
/// order of the hits, and each of them as often as it was retrieved.
pub proof fn law_context_grows_hit_by_hit(
    hits: Seq<SearchResult>,
    hit: SearchResult,
    min_score: Score,
)
    ensures
        generation::confident(Seq::empty(), min_score).len() == 0,
        generation::confident(hits.push(hit), min_score) == if !score::not_a_number(hit.score@)
            && !score::not_a_number(min_score@) && score::signed_units(hit.score@)
            >= score::signed_units(min_score@) {
            generation::confident(hits, min_score).push(hit)
        } else {
            generation::confident(hits, min_score)
        },
{
    let pred = |hit: SearchResult| generation::clears(hit, min_score);
    Seq::<SearchResult>::empty().lemma_filter_len(pred);
    hits.lemma_filter_push(hit, pred);
}

/// Without an override, the threshold is the number zero and five chunks are retrieved.
pub proof fn law_defaults()
    ensures
        !score::not_a_number(generation::DEFAULT_MIN_SCORE),
        score::signed_units(generation::DEFAULT_MIN_SCORE) == 0,
        retrieval::DEFAULT_TOP_K == 5,
{
}

// The prompt.

/// Without context, a prompt is the instruction followed by the question.
pub proof fn law_prompt_without_context(query: Seq<char>)
    ensures
        generation::prompt_text(query, Seq::empty())
            == "Answer the question using only the numbered context passages below. If the passages do not contain the answer, say so instead of guessing.\n\nContext:\n"@
            + ("Question: "@ + query + "\nAnswer:"@),
{
    assert(generation::INSTRUCTION@ + Seq::<char>::empty() =~= generation::INSTRUCTION@);
}

/// One more hit in the context adds its passage before the question and changes nothing
/// else: the number of the passage, the identifier of the chunk and its score on a line,
/// then the complete content of the chunk and an empty line.
pub proof fn law_prompt_grows_passage_by_passage(
    query: Seq<char>,
    context: Seq<SearchResult>,
    hit: SearchResult,
)
    ensures
        exists|head: Seq<char>|
            {
                &&& generation::prompt_text(query, context) == #[trigger] (head + ("Question: "@
                    + query + "\nAnswer:"@))
                &&& generation::prompt_text(query, context.push(hit)) == head + ("["@
                    + text::decimal(context.len() + 1) + "] "@ + hit.chunk.id@ + " (score "@
                    + score::fixed_text(hit.score@) + ")\n"@) + hit.chunk.content@ + "\n\n"@ + (
                "Question: "@ + query + "\nAnswer:"@)
            },
{
    let head = generation::INSTRUCTION@ + generation::passages(context);
    let tail = "Question: "@ + query + "\nAnswer:"@;
    assert(context.push(hit).drop_last() =~= context);
    assert(generation::prompt_text(query, context) == head + tail);
    assert(generation::prompt_text(query, context.push(hit)) =~= head + ("["@ + text::decimal(
        context.len() + 1,
    ) + "] "@ + hit.chunk.id@ + " (score "@ + score::fixed_text(hit.score@) + ")\n"@)
        + hit.chunk.content@ + "\n\n"@ + tail);
}

/// What stands before a passage ends a line.
proof fn lemma_passages_end_lines(context: Seq<SearchResult>)
    ensures
        (generation::INSTRUCTION@ + generation::passages(context)).len() > 0,
        (generation::INSTRUCTION@ + generation::passages(context)).last() == '\n',
{
    reveal_strlit("\n\n");
    reveal_strlit(
        "Answer the question using only the numbered context passages below. If the passages do not contain the answer, say so instead of guessing.\n\nContext:\n",
    );
    if context.len() > 0 {
        let last = generation::passage((context.len() - 1) as nat, context.last());
        assert(last.last() == '\n');
        assert(generation::passages(context).last() == last.last());
    }
}

/// The content of every chunk stands among the passages, after its line.
proof fn lemma_content_occurs(context: Seq<SearchResult>, i: int)
    requires
        0 <= i < context.len(),
    ensures
        exists|before: Seq<char>, after: Seq<char>|
            {
                &&& before.len() > 0
                &&& before.last() == '\n'
                &&& generation::INSTRUCTION@ + generation::passages(context) == #[trigger] (before
                    + ("["@ + text::decimal((i + 1) as nat) + "] "@ + context[i].chunk.id@
                    + " (score "@ + score::fixed_text(context[i].score@) + ")\n"@)
                    + context[i].chunk.content@ + "\n\n"@ + after)
            },
    decreases context.len(),
{
    let rest = context.drop_last();
    let hit = context[i];
    let line = "["@ + text::decimal((i + 1) as nat) + "] "@ + hit.chunk.id@ + " (score "@
        + score::fixed_text(hit.score@) + ")\n"@;
    let head = generation::INSTRUCTION@ + generation::passages(rest);
    let whole = generation::INSTRUCTION@ + generation::passages(context);
    let last = generation::passage((context.len() - 1) as nat, context.last());
    if i == context.len() - 1 {
        lemma_passages_end_lines(rest);
        assert(whole =~= head + line + hit.chunk.content@ + "\n\n"@ + Seq::<char>::empty());
    } else {
        lemma_content_occurs(rest, i);
        assert(rest[i] == hit);
        let (before, after) = choose|before: Seq<char>, after: Seq<char>|
            {
                &&& before.len() > 0
                &&& before.last() == '\n'
                &&& head == #[trigger] (before + line + hit.chunk.content@ + "\n\n"@ + after)
            };
        assert(whole =~= head + last);
        assert(whole =~= before + line + hit.chunk.content@ + "\n\n"@ + (after + last));
    }
}

/// The content of every chunk of the context stands in the prompt, complete and whatever
/// its length, right after a line that holds its number, its identifier and its score.
pub proof fn law_prompt_holds_complete_contents(
    query: Seq<char>,
    context: Seq<SearchResult>,
    i: int,
)
    requires
        0 <= i < context.len(),
    ensures
        exists|before: Seq<char>, after: Seq<char>|
            {
                &&& before.len() > 0
                &&& before.last() == '\n'
                &&& generation::prompt_text(query, context) == #[trigger] (before + ("["@
                    + text::decimal((i + 1) as nat) + "] "@ + context[i].chunk.id@ + " (score "@
                    + score::fixed_text(context[i].score@) + ")\n"@) + context[i].chunk.content@
                    + "\n\n"@ + after)
            },
{
    lemma_content_occurs(context, i);
    let hit = context[i];
    let line = "["@ + text::decimal((i + 1) as nat) + "] "@ + hit.chunk.id@ + " (score "@
        + score::fixed_text(hit.score@) + ")\n"@;
    let (before, after) = choose|before: Seq<char>, after: Seq<char>|
        {
            &&& before.len() > 0
            &&& before.last() == '\n'
            &&& generation::INSTRUCTION@ + generation::passages(context) == #[trigger] (before
                + line + hit.chunk.content@ + "\n\n"@ + after)
        };
    assert(generation::prompt_text(query, context) =~= before + line + hit.chunk.content@
        + "\n\n"@ + (after + generation::question(query)));
}

// Sources and responses.

/// There is one source for each chunk, in the same order, with the identifier, the
/// document, the position and the score of the chunk.
pub proof fn law_sources_mirror_the_context(context: Seq<SearchResult>)
    ensures
        generation::source_refs(context).len() == context.len(),
        forall|i: int|
            #![trigger generation::source_refs(context)[i]]
            0 <= i < context.len() ==> {
                &&& generation::source_refs(context)[i].id == context[i].chunk.id
                &&& generation::source_refs(context)[i].source == context[i].chunk.metadata.source
                &&& generation::source_refs(context)[i].chunk_index
                    == context[i].chunk.metadata.chunk_index
                &&& generation::source_refs(context)[i].score == context[i].score
            },
{
}

/// Converting a hit gives a source with the identifier, the document, the position and
/// the score of its chunk.
pub proof fn law_source_of_a_hit(hit: SearchResult)
    ensures
        <SourceRef as FromSpec<&SearchResult>>::obeys_from_spec(),
        SourceRef::from_spec(&hit).id == hit.chunk.id,
        SourceRef::from_spec(&hit).source == hit.chunk.metadata.source,
        SourceRef::from_spec(&hit).chunk_index == hit.chunk.metadata.chunk_index,
        SourceRef::from_spec(&hit).score == hit.score,
{
}

/// Errors are wrapped, never changed.
pub proof fn law_errors_are_wrapped(retrieval: RetrievalError, failure: LlmError)
    ensures
        <GenerationError as FromSpec<RetrievalError>>::obeys_from_spec(),
        <GenerationError as FromSpec<LlmError>>::obeys_from_spec(),
        GenerationError::from_spec(retrieval) == GenerationError::Retrieval(retrieval),
        GenerationError::from_spec(failure) == GenerationError::Llm(failure),
{
}

/// Whatever model is asked and whatever text it completes the prompt with, the response
/// carries that text unchanged and has exactly one source per chunk of the context. A
/// failure of the model comes back unchanged.
pub proof fn law_every_answer_keeps_its_sources(
    context: Seq<SearchResult>,
    completion: Result<Seq<char>, LlmError>,
    r: Result<AnswerResponse, GenerationError>,
)
    requires
        generation::follows_completion(generation::source_refs(context), completion, r),
    ensures
        completion matches Ok(answer) ==> {
            &&& r matches Ok(response)
            &&& response.answer@ == answer
            &&& response.sources@.len() == context.len()
            &&& forall|i: int|
                #![trigger response.sources@[i]]
                0 <= i < context.len() ==> {
                    &&& response.sources@[i].id == context[i].chunk.id
                    &&& response.sources@[i].source == context[i].chunk.metadata.source
                    &&& response.sources@[i].chunk_index == context[i].chunk.metadata.chunk_index
                    &&& response.sources@[i].score == context[i].score
                }
        },
        completion matches Err(failure) ==> r == Err::<AnswerResponse, _>(
            GenerationError::Llm(failure),
        ),
{
    law_sources_mirror_the_context(context);
}

/// What a step is finished with is determined by its sources and the completion: any
/// sources come back as they are, with the text of the completion.
pub proof fn law_completion_adds_only_the_answer(
    sources: Seq<SourceRef>,
    answer: Seq<char>,
    failure: LlmError,
    r: Result<AnswerResponse, GenerationError>,
)
    ensures
        generation::follows_completion(sources, Ok(answer), r) <==> (r matches Ok(response)
            && response.answer@ == answer && response.sources@ == sources),
        generation::follows_completion(sources, Err(failure), r) <==> r == Err::<
            AnswerResponse,
            _,
        >(GenerationError::Llm(failure)),
{
}

/// A failed retrieval settles the answer with the error of the retriever, unchanged.
pub proof fn law_failed_retrieval_settles_the_answer(
    query: Seq<char>,
    min_score: Score,
    error: RetrievalError,
    next: AnswerStep,
)
    requires
        generation::follows_retrieval(query, min_score, Err(error), next),
    ensures
        next == AnswerStep::Finished(Err(GenerationError::Retrieval(error))),
{
}

/// If no retrieved hit reaches the threshold, the answer is the fixed refusal and has no
/// sources. Otherwise the model is asked, with a prompt over the hits that reach the
/// threshold, and the sources are these hits.
pub proof fn law_retrieved_hits_decide_the_next_step(
    query: Seq<char>,
    min_score: Score,
    hits: Seq<SearchResult>,
    next: AnswerStep,
)
    requires
        generation::follows_retrieval(query, min_score, Ok(hits), next),
    ensures
        (exists|hit: SearchResult|
            {
                &&& #[trigger] hits.contains(hit)
                &&& !score::not_a_number(hit.score@)
                &&& !score::not_a_number(min_score@)
                &&& score::signed_units(hit.score@) >= score::signed_units(min_score@)
            }) ==> {
            &&& next matches AnswerStep::Generate(step)
            &&& step.prompt@ == generation::prompt_text(
                query,
                generation::confident(hits, min_score),
            )
            &&& step.sources@.len() == generation::confident(hits, min_score).len()
            &&& forall|i: int|
                #![trigger step.sources@[i]]
                0 <= i < step.sources@.len() ==> {
                    &&& step.sources@[i].id == generation::confident(hits, min_score)[i].chunk.id
                    &&& step.sources@[i].source == generation::confident(
                        hits,
                        min_score,
                    )[i].chunk.metadata.source
                    &&& step.sources@[i].chunk_index == generation::confident(
                        hits,
                        min_score,
                    )[i].chunk.metadata.chunk_index
                    &&& step.sources@[i].score == generation::confident(hits, min_score)[i].score
                }
        },
        !(exists|hit: SearchResult|
            {
                &&& #[trigger] hits.contains(hit)
                &&& !score::not_a_number(hit.score@)
                &&& !score::not_a_number(min_score@)
                &&& score::signed_units(hit.score@) >= score::signed_units(min_score@)
            }) ==> {
            &&& next matches AnswerStep::Finished(Ok(response))
            &&& response.answer@
                == "No sufficiently relevant context was found to answer this query."@
            &&& response.sources@.len() == 0
        },
{
    let context = generation::confident(hits, min_score);
    law_hit_is_kept_when_it_reaches_the_threshold(hits, min_score);
    law_sources_mirror_the_context(context);
    if context.len() > 0 {
        assert(context.contains(context[0]));
    }
}

/// The refusal is a fixed text without sources, and nothing else is a refusal.
pub proof fn law_refusal(response: AnswerResponse)
    ensures
        generation::is_refusal(response) <==> response.answer@
            == "No sufficiently relevant context was found to answer this query."@
            && response.sources@.len() == 0,
{
}

/// Looking at a retrieval or a completion as a sequence loses nothing.
pub proof fn law_views_of_results(
    hits: Vec<SearchResult>,
    retrieval: RetrievalError,
    completion: String,
    failure: LlmError,
)
    ensures
        generation::hits_view(Ok(hits)) == Ok::<_, RetrievalError>(hits@),
        generation::hits_view(Err(retrieval)) == Err::<Seq<SearchResult>, _>(retrieval),
        provider::completion_view(Ok(completion)) == Ok::<_, LlmError>(completion@),
        provider::completion_view(Err(failure)) == Err::<Seq<char>, _>(failure),
{
}

/// The mock model: a configured failure comes first, then the complaint about a blank
/// prompt, then the canned reply, and otherwise the prompt itself.
pub proof fn law_mock_model(
    model: &MockLlmProvider,
    prompt: Seq<char>,
    completion: Result<Seq<char>, LlmError>,
)
    requires
        model.may_return(prompt, completion),
    ensures
        model.failure_message() matches Some(failure) ==> {
            &&& completion matches Err(LlmError::Provider { provider, message })
            &&& provider@ == "mock"@
            &&& message@ == failure
        },
        model.failure_message() is None && text::blank(prompt) ==> completion == Err::<
            Seq<char>,
            _,
        >(LlmError::EmptyPrompt),
        model.failure_message() is None && !text::blank(prompt) ==> completion == Ok::<
            _,
            LlmError,
        >(
            match model.canned_reply() {
                Some(reply) => reply,
                None => prompt,
            },
        ),
{
}

} // verus!
