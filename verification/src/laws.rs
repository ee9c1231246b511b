//! Laws that relate the functions of the library to each other.

pub mod answering;
pub mod rendering;
pub mod vectors;
pub mod wording;

use vstd::arithmetic::div_mod::*;
use vstd::arithmetic::mul::*;
use vstd::arithmetic::power2::*;
use vstd::prelude::*;
use vstd::std_specs::cmp::PartialEqSpec;

use crate::embedding::mock;
use crate::embedding::mock::MockEmbeddingProvider;
use crate::embedding::provider;
use crate::embedding::{EmbeddingError, EmbeddingProvider};
use crate::generation;
use crate::generation::{AnswerResponse, AnswerStep, GenerationError};
use crate::llm::{LlmError, LlmProvider, MockLlmProvider};
use crate::retrieval::RetrievalError;
use crate::score;
use crate::score::Score;
use crate::service;
use crate::text;
use crate::vector::SearchResult;

verus! {

// Scores.

/// On scores that are numbers, the order is total: every score is at least itself, and
/// of two scores one is at least the other.
pub proof fn law_score_order_is_total(a: u32, b: u32)
    requires
        !score::not_a_number(a),
        !score::not_a_number(b),
    ensures
        score::score_at_least(a, a),
        score::score_at_least(a, b) || score::score_at_least(b, a),
{
}

/// The order of scores is transitive.
pub proof fn law_score_order_is_transitive(a: u32, b: u32, c: u32)
    requires
        score::score_at_least(a, b),
        score::score_at_least(b, c),
    ensures
        score::score_at_least(a, c),
{
}

/// Two scores are at least each other only if they are the same number: bit patterns
/// other than those of the two zeros then agree.
pub proof fn law_score_order_is_antisymmetric(a: u32, b: u32)
    requires
        score::score_at_least(a, b),
        score::score_at_least(b, a),
    ensures
        a == b || (score::magnitude(a) == 0 && score::magnitude(b) == 0),
{
    let (x, y) = (score::magnitude(a), score::magnitude(b));
    if x < y {
        score::lemma_units_increase(x, y);
    }
    if y < x {
        score::lemma_units_increase(y, x);
    }
    if 0 < x {
        score::lemma_units_increase(0, x);
    }
}

/// Scores are equal exactly when both are numbers and they are the same number.
pub proof fn law_score_equality_is_numeric(a: Score, b: Score)
    ensures
        Score::obeys_eq_spec(),
        a.eq_spec(&b) <==> {
            &&& !score::not_a_number(a@)
            &&& !score::not_a_number(b@)
            &&& score::signed_units(a@) == score::signed_units(b@)
        },
{
}

/// The decimal text of a finite score is that of the nearest multiple of a thousandth: it
/// is off by at most half a thousandth.
pub proof fn law_score_text_is_the_nearest(magnitude: nat)
    requires
        magnitude < score::INFINITY_BITS,
    ensures
        2 * (score::thousandths(magnitude) * pow2(149)) <= 2 * (score::units(magnitude) * 1000)
            + pow2(149),
        2 * (score::units(magnitude) * 1000) <= 2 * (score::thousandths(magnitude) * pow2(149))
            + pow2(149),
{
    let n = score::units(magnitude) * 1000;
    let d = pow2(149);
    let below = n / d;
    lemma_pow2_pos(149);
    lemma_fundamental_div_mod(n as int, d as int);
    lemma_mul_is_commutative(d as int, below as int);
    lemma_mul_is_distributive_add_other_way(d as int, below as int, 1);
}

// Embedding.

/// Every vector element lies in the range from minus one up to one, in units of two to
/// the power of minus 23.
pub proof fn law_components_are_in_range(state: u64)
    ensures
        -0x80_0000 <= mock::component(state) < 0x80_0000,
{
}

/// A batch succeeds exactly when no failure is configured, the batch is not empty and
/// none of its inputs is.
pub proof fn law_batch_success(provider: &MockEmbeddingProvider, inputs: Seq<Seq<char>>)
    ensures
        provider.batch_outcome(inputs) is Ok <==> {
            &&& provider.configured_failure() is None
            &&& inputs.len() > 0
            &&& forall|i: int| 0 <= i < inputs.len() ==> #[trigger] inputs[i].len() > 0
        },
{
    if exists|i: int| 0 <= i < inputs.len() && #[trigger] inputs[i].len() == 0 {
        let i = choose|i: int| 0 <= i < inputs.len() && #[trigger] inputs[i].len() == 0;
        lemma_some_input_is_first_empty(inputs, i);
    }
}

/// A batch with an empty input has a first empty input.
proof fn lemma_some_input_is_first_empty(inputs: Seq<Seq<char>>, i: int)
    requires
        0 <= i < inputs.len(),
        inputs[i].len() == 0,
    ensures
        exists|index: int| mock::first_empty(inputs, index),
    decreases i,
{
    if exists|j: int| 0 <= j < i && #[trigger] inputs[j].len() == 0 {
        let j = choose|j: int| 0 <= j < i && #[trigger] inputs[j].len() == 0;
        lemma_some_input_is_first_empty(inputs, j);
    } else {
        assert(mock::first_empty(inputs, i));
    }
}

/// A successful batch holds one vector per input, in the order of the inputs, and every
/// vector has as many elements as the provider reports.
pub proof fn law_one_vector_per_input(provider: &MockEmbeddingProvider, inputs: Seq<Seq<char>>)
    requires
        provider.batch_outcome(inputs) is Ok,
    ensures
        provider.batch_outcome(inputs)->Ok_0.len() == inputs.len(),
        forall|i: int|
            #![trigger provider.batch_outcome(inputs)->Ok_0[i]]
            0 <= i < inputs.len() ==> {
                &&& provider.batch_outcome(inputs)->Ok_0[i].len() == provider.vector_len()
                &&& provider.batch_outcome(inputs)->Ok_0[i] == mock::text_vector(
                    inputs[i],
                    provider.vector_len(),
                )
            },
{
}

/// Embedding a batch gives each input the vector that it has alone.
pub proof fn law_batching_does_not_change_vectors(
    provider: &MockEmbeddingProvider,
    inputs: Seq<Seq<char>>,
    i: int,
)
    requires
        provider.batch_outcome(inputs) is Ok,
        0 <= i < inputs.len(),
    ensures
        provider.batch_outcome(seq![inputs[i]]) == Ok::<_, EmbeddingError>(
            seq![provider.batch_outcome(inputs)->Ok_0[i]],
        ),
{
    law_batch_success(provider, inputs);
    law_batch_success(provider, seq![inputs[i]]);
    assert(provider.batch_outcome(seq![inputs[i]])->Ok_0 =~= seq![
        provider.batch_outcome(inputs)->Ok_0[i],
    ]);
}

/// Embedding is deterministic: two providers of the same dimensionality give the same
/// text the same vector, wherever it stands in whichever batch.
pub proof fn law_embedding_is_deterministic(
    first: &MockEmbeddingProvider,
    second: &MockEmbeddingProvider,
    a: Seq<Seq<char>>,
    b: Seq<Seq<char>>,
    i: int,
    j: int,
)
    requires
        first.vector_len() == second.vector_len(),
        first.batch_outcome(a) is Ok,
        second.batch_outcome(b) is Ok,
        0 <= i < a.len(),
        0 <= j < b.len(),
        a[i] == b[j],
    ensures
        first.batch_outcome(a)->Ok_0[i] == second.batch_outcome(b)->Ok_0[j],
{
}

/// A vector of fewer dimensions is the beginning of the vector of more dimensions.
pub proof fn law_dimensions_extend_vectors(seed: u64, fewer: nat, more: nat)
    requires
        fewer <= more,
    ensures
        mock::seeded_vector(seed, more).take(fewer as int) == mock::seeded_vector(seed, fewer),
{
    assert(mock::seeded_vector(seed, more).take(fewer as int) =~= mock::seeded_vector(seed, fewer));
}

/// A configured failure comes back from every call, whatever the inputs.
pub proof fn law_configured_failures_always_surface(
    provider: &MockEmbeddingProvider,
    inputs: Seq<Seq<char>>,
)
    requires
        provider.configured_failure() is Some,
    ensures
        provider.batch_outcome(inputs) == Err::<Seq<Seq<i32>>, _>(
            provider.configured_failure()->0,
        ),
{
}

/// Embedding a single text with a provider that is not configured to fail gives the
/// text's vector, unless the text is empty: then the error names the only input.
pub proof fn law_single_input(
    provider: &MockEmbeddingProvider,
    input: Seq<char>,
    batch: Result<Seq<Seq<i32>>, EmbeddingError>,
    r: Result<Seq<i32>, EmbeddingError>,
)
    requires
        provider.configured_failure() is None,
        provider.may_return(seq![input], batch),
        provider::sole_of(batch, r),
    ensures
        input.len() > 0 ==> r == Ok::<_, EmbeddingError>(
            mock::text_vector(input, provider.vector_len()),
        ),
        input.len() == 0 ==> r == Err::<Seq<i32>, _>(EmbeddingError::EmptyInputItem { index: 0 }),
{
    law_batch_success(provider, seq![input]);
    if input.len() == 0 {
        assert(seq![input][0].len() == 0);
        lemma_some_input_is_first_empty(seq![input], 0);
    }
}

/// Whatever provider is used, the single-input call gives exactly the vector of a batch
/// of one vector, and never complains about such a batch.
pub proof fn law_single_input_of_a_sound_provider<C>(
    vectors: Seq<Seq<C>>,
    r: Result<Seq<C>, EmbeddingError>,
)
    requires
        vectors.len() == 1,
        provider::sole_of(Ok(vectors), r),
    ensures
        r == Ok::<_, EmbeddingError>(vectors[0]),
{
}

// The mock language model.

/// A mock without a canned reply and without a configured failure echoes every prompt
/// that is not blank.
pub proof fn law_mock_model_echoes(
    model: &MockLlmProvider,
    prompt: Seq<char>,
    completion: Result<Seq<char>, LlmError>,
)
    requires
        model.canned_reply() is None,
        model.failure_message() is None,
        !text::blank(prompt),
        model.may_return(prompt, completion),
    ensures
        completion == Ok::<_, LlmError>(prompt),
{
}

/// A mock with a canned reply and without a configured failure gives that reply to every
/// prompt that is not blank.
pub proof fn law_mock_model_replies(
    model: &MockLlmProvider,
    prompt: Seq<char>,
    completion: Result<Seq<char>, LlmError>,
)
    requires
        model.canned_reply() is Some,
        model.failure_message() is None,
        !text::blank(prompt),
        model.may_return(prompt, completion),
    ensures
        completion == Ok::<_, LlmError>(model.canned_reply()->0),
{
}

/// A mock that is configured to fail fails on every prompt, blank ones among them, with
/// a provider error that carries the configured message.
pub proof fn law_mock_model_fails(
    model: &MockLlmProvider,
    prompt: Seq<char>,
    completion: Result<Seq<char>, LlmError>,
)
    requires
        model.failure_message() is Some,
        model.may_return(prompt, completion),
    ensures
        completion matches Err(LlmError::Provider { provider, message }) && provider@ == "mock"@
            && message@ == model.failure_message()->0,
{
}

// The confidence threshold.

/// The context is exactly the retrieved hits that reach the threshold: every hit in it
/// was retrieved and reaches the threshold, and every retrieved hit that reaches the
/// threshold is in it.
pub proof fn law_context_is_the_confident_hits(hits: Seq<SearchResult>, min_score: Score)
    ensures
        forall|i: int|
            #![trigger generation::confident(hits, min_score)[i]]
            0 <= i < generation::confident(hits, min_score).len() ==> {
                &&& generation::clears(generation::confident(hits, min_score)[i], min_score)
                &&& hits.contains(generation::confident(hits, min_score)[i])
            },
        forall|i: int|
            #![trigger hits[i]]
            0 <= i < hits.len() && generation::clears(hits[i], min_score)
                ==> generation::confident(hits, min_score).contains(hits[i]),
        generation::confident(hits, min_score).len() <= hits.len(),
{
    let pred = |hit: SearchResult| generation::clears(hit, min_score);
    let context = generation::confident(hits, min_score);
    hits.lemma_filter_len(pred);
    assert forall|i: int| #![trigger context[i]] 0 <= i < context.len() implies {
        &&& generation::clears(context[i], min_score)
        &&& hits.contains(context[i])
    } by {
        hits.lemma_filter_pred(pred, i);
        assert(context.contains(context[i]));
        hits.lemma_filter_contains_rev(pred, context[i]);
    }
    assert forall|i: int|
        #![trigger hits[i]]
        0 <= i < hits.len() && generation::clears(hits[i], min_score) implies context.contains(
        hits[i],
    ) by {
        hits.lemma_filter_contains(pred, i);
    }
}

/// Whether hits are ordered from the most to the least relevant.
pub open spec fn most_relevant_first(hits: Seq<SearchResult>) -> bool {
    forall|i: int, j: int|
        0 <= i < j < hits.len() ==> score::score_at_least(
            #[trigger] hits[i].score@,
            #[trigger] hits[j].score@,
        )
}

/// Filtering keeps the order of retrieval: the sources of an answer are ordered from the
/// most to the least relevant if the retrieved hits are.
pub proof fn law_sources_stay_most_relevant_first(hits: Seq<SearchResult>, min_score: Score)
    requires
        most_relevant_first(hits),
    ensures
        most_relevant_first(generation::confident(hits, min_score)),
        forall|i: int, j: int|
            0 <= i < j < generation::source_refs(generation::confident(hits, min_score)).len()
                ==> score::score_at_least(
                (#[trigger] generation::source_refs(
                    generation::confident(hits, min_score),
                )[i]).score@,
                (#[trigger] generation::source_refs(
                    generation::confident(hits, min_score),
                )[j]).score@,
            ),
    decreases hits.len(),
{
    reveal(Seq::filter);
    let context = generation::confident(hits, min_score);
    if hits.len() > 0 {
        let rest = hits.drop_last();
        let kept = generation::confident(rest, min_score);
        assert(most_relevant_first(rest)) by {
            assert forall|i: int, j: int| 0 <= i < j < rest.len() implies score::score_at_least(
                #[trigger] rest[i].score@,
                #[trigger] rest[j].score@,
            ) by {
                assert(rest[i] == hits[i] && rest[j] == hits[j]);
            }
        }
        law_sources_stay_most_relevant_first(rest, min_score);
        law_context_is_the_confident_hits(rest, min_score);
        assert forall|i: int, j: int| 0 <= i < j < context.len() implies score::score_at_least(
            #[trigger] context[i].score@,
            #[trigger] context[j].score@,
        ) by {
            if j < kept.len() {
                assert(context[i] == kept[i] && context[j] == kept[j]);
            } else {
                assert(context[i] == kept[i] && context[j] == hits.last());
                assert(rest.contains(kept[i]));
                let k = choose|k: int| 0 <= k < rest.len() && rest[k] == kept[i];
                assert(hits[k] == kept[i]);
                assert(score::score_at_least(hits[k].score@, hits[hits.len() - 1].score@));
            }
        }
    }
    let sources = generation::source_refs(context);
    assert forall|i: int, j: int| 0 <= i < j < sources.len() implies score::score_at_least(
        (#[trigger] sources[i]).score@,
        (#[trigger] sources[j]).score@,
    ) by {
        assert(sources[i].score == context[i].score && sources[j].score == context[j].score);
        assert(score::score_at_least(context[i].score@, context[j].score@));
    }
}

/// A hit that does not reach the threshold changes nothing: with it or without it, at
/// whatever position, the context is the same, and with it the prompt and the sources.
pub proof fn law_low_confidence_hits_change_nothing(
    before: Seq<SearchResult>,
    hit: SearchResult,
    after: Seq<SearchResult>,
    min_score: Score,
)
    requires
        !generation::clears(hit, min_score),
    ensures
        generation::confident(before.push(hit) + after, min_score) == generation::confident(
            before + after,
            min_score,
        ),
{
    let pred = |hit: SearchResult| generation::clears(hit, min_score);
    Seq::filter_distributes_over_add(before.push(hit), after, pred);
    Seq::filter_distributes_over_add(before, after, pred);
    before.lemma_filter_push(hit, pred);
}

/// A stricter threshold selects from what a laxer one selects: filtering by both is
/// filtering by the stricter.
pub proof fn law_stricter_threshold(hits: Seq<SearchResult>, lax: Score, strict: Score)
    requires
        score::score_at_least(strict@, lax@),
    ensures
        generation::confident(generation::confident(hits, lax), strict) == generation::confident(
            hits,
            strict,
        ),
        generation::confident(hits, strict).len() <= generation::confident(hits, lax).len(),
    decreases hits.len(),
{
    reveal(Seq::filter);
    let pred = |hit: SearchResult| generation::clears(hit, strict);
    if hits.len() > 0 {
        let rest = hits.drop_last();
        law_stricter_threshold(rest, lax, strict);
        generation::confident(rest, lax).lemma_filter_push(hits.last(), pred);
    }
}

/// The default threshold drops, of the hits whose score is a number, exactly those with a
/// negative score.
pub proof fn law_default_threshold_drops_negative_scores(hit: SearchResult, min_score: Score)
    requires
        min_score@ == generation::DEFAULT_MIN_SCORE,
        !score::not_a_number(hit.score@),
    ensures
        generation::clears(hit, min_score) <==> score::signed_units(hit.score@) >= 0,
{
}

/// A threshold above every score leaves no context.
pub proof fn law_unreachable_threshold(hits: Seq<SearchResult>, min_score: Score)
    requires
        forall|i: int|
            0 <= i < hits.len() ==> !score::score_at_least(
                #[trigger] hits[i].score@,
                min_score@,
            ),
    ensures
        generation::confident(hits, min_score).len() == 0,
{
    let context = generation::confident(hits, min_score);
    law_context_is_the_confident_hits(hits, min_score);
    if context.len() > 0 {
        assert(hits.contains(context[0]));
        let i = choose|i: int| 0 <= i < hits.len() && hits[i] == context[0];
        assert(!score::score_at_least(hits[i].score@, min_score@));
    }
}

// Answers.

/// The model is asked exactly when some retrieved hit reaches the threshold. Otherwise
/// the answer is the refusal, with no sources.
pub proof fn law_model_is_asked_only_with_context(
    query: Seq<char>,
    min_score: Score,
    hits: Seq<SearchResult>,
    next: AnswerStep,
)
    requires
        generation::follows_retrieval(query, min_score, Ok(hits), next),
    ensures
        next is Generate <==> exists|i: int|
            0 <= i < hits.len() && generation::clears(#[trigger] hits[i], min_score),
        !(next is Generate) ==> (next matches AnswerStep::Finished(Ok(response))
            && generation::is_refusal(response)),
{
    let context = generation::confident(hits, min_score);
    law_context_is_the_confident_hits(hits, min_score);
    if exists|i: int| 0 <= i < hits.len() && generation::clears(#[trigger] hits[i], min_score) {
        let i = choose|i: int|
            0 <= i < hits.len() && generation::clears(#[trigger] hits[i], min_score);
        assert(context.contains(hits[i]));
    }
    if context.len() > 0 {
        assert(hits.contains(context[0]));
        let i = choose|i: int| 0 <= i < hits.len() && hits[i] == context[0];
        assert(generation::clears(hits[i], min_score));
    }
}

/// Without hits, the answer is the refusal.
pub proof fn law_no_hits_no_answer(query: Seq<char>, min_score: Score, next: AnswerStep)
    requires
        generation::follows_retrieval(query, min_score, Ok(Seq::empty()), next),
    ensures
        next matches AnswerStep::Finished(Ok(response)) && generation::is_refusal(response),
{
    law_context_is_the_confident_hits(Seq::empty(), min_score);
}

/// Every prompt opens with the grounding instruction and closes with the question.
pub proof fn law_prompt_frame(query: Seq<char>, context: Seq<SearchResult>)
    ensures
        generation::INSTRUCTION@.is_prefix_of(generation::prompt_text(query, context)),
        generation::question(query).is_suffix_of(generation::prompt_text(query, context)),
{
    let prompt = generation::prompt_text(query, context);
    let opening = generation::INSTRUCTION@;
    let closing = generation::question(query);
    assert(prompt.subrange(0, opening.len() as int) =~= opening);
    assert(prompt.subrange(prompt.len() - closing.len(), prompt.len() as int) =~= closing);
}

/// Whether `part` stands somewhere in `whole`.
pub open spec fn occurs_in(part: Seq<char>, whole: Seq<char>) -> bool {
    exists|before: Seq<char>, after: Seq<char>| whole == #[trigger] (before + part + after)
}

/// Every passage occurs among the passages.
proof fn lemma_passage_occurs(context: Seq<SearchResult>, i: int)
    requires
        0 <= i < context.len(),
    ensures
        occurs_in(generation::passage(i as nat, context[i]), generation::passages(context)),
    decreases context.len(),
{
    let part = generation::passage(i as nat, context[i]);
    let rest = generation::passages(context.drop_last());
    let last = generation::passage((context.len() - 1) as nat, context.last());
    if i == context.len() - 1 {
        assert(generation::passages(context) =~= rest + part + Seq::<char>::empty());
    } else {
        lemma_passage_occurs(context.drop_last(), i);
        let (before, after) = choose|before: Seq<char>, after: Seq<char>|
            rest == #[trigger] (before + part + after);
        assert(generation::passages(context) =~= before + part + (after + last));
    }
}

/// Every chunk of the context reaches the prompt, numbered by its position and
/// attributed.
pub proof fn law_prompt_holds_every_passage(
    query: Seq<char>,
    context: Seq<SearchResult>,
    i: int,
)
    requires
        0 <= i < context.len(),
    ensures
        occurs_in(
            generation::passage(i as nat, context[i]),
            generation::prompt_text(query, context),
        ),
{
    lemma_passage_occurs(context, i);
    let part = generation::passage(i as nat, context[i]);
    let (before, after) = choose|before: Seq<char>, after: Seq<char>|
        generation::passages(context) == #[trigger] (before + part + after);
    assert(generation::prompt_text(query, context) =~= (generation::INSTRUCTION@ + before) + part + (
    after + generation::question(query)));
}

/// No prompt is blank, so no provider can refuse one for being empty.
pub proof fn law_prompt_is_never_blank(query: Seq<char>, context: Seq<SearchResult>)
    ensures
        !text::blank(generation::prompt_text(query, context)),
{
    let prompt = generation::prompt_text(query, context);
    let closing = generation::question(query);
    let start = prompt.len() - closing.len();
    reveal_strlit("Question: ");
    assert(prompt[start] == closing[0]);
    assert(closing[0] == 'Q');
    assert(!text::is_white_space(prompt[start]));
}

/// The sources of an answer name the chunks that its prompt was built from: there is one
/// source for each passage, in order, with the chunk's identifier, document, position and
/// score.
pub proof fn law_sources_name_the_passages(
    query: Seq<char>,
    min_score: Score,
    hits: Seq<SearchResult>,
    next: AnswerStep,
    i: int,
)
    requires
        generation::follows_retrieval(query, min_score, Ok(hits), next),
        next is Generate,
        0 <= i < next->Generate_0.sources@.len(),
    ensures
        next->Generate_0.sources@.len() == generation::confident(hits, min_score).len(),
        next->Generate_0.sources@[i].id == generation::confident(hits, min_score)[i].chunk.id,
        next->Generate_0.sources@[i].source == generation::confident(
            hits,
            min_score,
        )[i].chunk.metadata.source,
        next->Generate_0.sources@[i].chunk_index == generation::confident(
            hits,
            min_score,
        )[i].chunk.metadata.chunk_index,
        next->Generate_0.sources@[i].score == generation::confident(hits, min_score)[i].score,
        generation::clears(generation::confident(hits, min_score)[i], min_score),
        occurs_in(
            generation::passage(i as nat, generation::confident(hits, min_score)[i]),
            next->Generate_0.prompt@,
        ),
{
    law_context_is_the_confident_hits(hits, min_score);
    law_prompt_holds_every_passage(query, generation::confident(hits, min_score), i);
}

/// With the echoing mock model, the answer is the prompt itself: it holds the context and
/// the question, and the sources are those of the context.
pub proof fn law_echoed_answer_is_the_prompt(
    model: &MockLlmProvider,
    query: Seq<char>,
    context: Seq<SearchResult>,
    completion: Result<Seq<char>, LlmError>,
    r: Result<AnswerResponse, GenerationError>,
)
    requires
        model.canned_reply() is None,
        model.failure_message() is None,
        model.may_return(generation::prompt_text(query, context), completion),
        generation::follows_completion(generation::source_refs(context), completion, r),
    ensures
        r matches Ok(response) && response.answer@ == generation::prompt_text(query, context)
            && response.sources@ == generation::source_refs(context),
{
    law_prompt_is_never_blank(query, context);
}

// The service.

/// Validation failures are the client's fault and get status 400; every other retrieval
/// error is a backend failure and gets a status from 500 up to 599.
pub proof fn law_retrieval_error_statuses(error: RetrievalError)
    ensures
        service::status_of_retrieval_error(error) == 400 <==> service::is_validation_failure(error),
        !service::is_validation_failure(error) ==> 500 <= service::status_of_retrieval_error(error)
            <= 599,
{
}

/// The answer endpoint reports a retrieval error exactly as the retrieval endpoint does,
/// and a model failure as a backend failure.
pub proof fn law_answer_errors_match_retrieval_errors(error: RetrievalError, failure: LlmError)
    ensures
        service::status_of_generation_error(GenerationError::Retrieval(error))
            == service::status_of_retrieval_error(error),
        GenerationError::Retrieval(error).message_text() == error.message_text(),
        500 <= service::status_of_generation_error(GenerationError::Llm(failure)) <= 599,
{
}

} // verus!
