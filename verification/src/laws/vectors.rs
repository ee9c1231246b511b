//! What an embedding vector is derived from, and what a batch of them is.

use std::collections::hash_map::DefaultHasher;

use vstd::prelude::*;
use vstd::std_specs::hash::*;

use crate::embedding::mock;
use crate::embedding::mock::MockEmbeddingProvider;
use crate::embedding::provider;
use crate::embedding::{EmbeddingError, EmbeddingProvider};
use crate::laws;
use crate::text;

verus! {

/// The seed of a text's vector is what a hasher finishes with that has seen the writes of
/// the whole text and nothing else, whatever the length of the text.
pub proof fn law_whole_text_is_hashed(text: Seq<char>, dimensions: nat)
    ensures
        mock::text_hash(text) == DefaultHasher::spec_finish(mock::hash_writes(text)),
        mock::text_vector(text, dimensions) == mock::seeded_vector(
            DefaultHasher::spec_finish(mock::hash_writes(text)),
            dimensions,
        ),
{
}

/// Texts with different hashes have different seeds, and their generators never meet: the
/// states from which their vectors are taken differ at every step.
pub proof fn law_different_hashes_never_meet(a: Seq<char>, b: Seq<char>, steps: nat)
    requires
        DefaultHasher::spec_finish(mock::hash_writes(a)) != DefaultHasher::spec_finish(
            mock::hash_writes(b),
        ),
    ensures
        mock::state_after(mock::text_hash(a), steps) != mock::state_after(
            mock::text_hash(b),
            steps,
        ),
    decreases steps,
{
    if steps > 0 {
        law_different_hashes_never_meet(a, b, (steps - 1) as nat);
        law_generator_step(
            mock::state_after(mock::text_hash(a), (steps - 1) as nat),
            mock::state_after(mock::text_hash(b), (steps - 1) as nat),
        );
    }
}

/// A generator step distributes over exclusive or, leads from different states to
/// different states, and so leaves only the state zero where it is zero.
pub proof fn law_generator_step(a: u64, b: u64)
    ensures
        mock::next_state(a ^ b) == mock::next_state(a) ^ mock::next_state(b),
        a != b ==> mock::next_state(a) != mock::next_state(b),
        mock::next_state(a) == 0 <==> a == 0,
{
    assert(mock::next_state(a ^ b) == mock::next_state(a) ^ mock::next_state(b)) by (bit_vector);
    assert(mock::next_state(a) == 0 ==> a == 0) by (bit_vector);
    assert(mock::next_state(0) == 0) by (bit_vector);
    let c = a ^ b;
    let (x, y) = (mock::next_state(a), mock::next_state(b));
    assert(mock::next_state(c) == 0 ==> c == 0) by (bit_vector);
    assert(a ^ b == 0 ==> a == b) by (bit_vector);
    assert(x == y ==> x ^ y == 0) by (bit_vector);
}

/// The states of a generator that is advanced once are those of the generator, from the
/// second on.
proof fn lemma_states_shift(seed: u64, steps: nat)
    ensures
        mock::state_after(seed, steps + 1) == mock::state_after(mock::next_state(seed), steps),
    decreases steps,
{
    reveal_with_fuel(mock::state_after, 2);
    if steps > 0 {
        lemma_states_shift(seed, (steps - 1) as nat);
    }
}

/// A vector of no dimensions is empty. The first element of any other is taken from the
/// upper 24 bits of the product, modulo two to the power of 64, of the state that follows
/// the seed and the output multiplier, and the remaining elements are the vector of that
/// state. The state follows the seed by three shifts and exclusive ors.
pub proof fn law_vector_element_by_element(
    seed: u64,
    first: u64,
    second: u64,
    state: u64,
    dimensions: nat,
)
    requires
        first == seed ^ (seed >> 12),
        second == first ^ (first << 25),
        state == second ^ (second >> 27),
    ensures
        mock::seeded_vector(seed, 0).len() == 0,
        mock::seeded_vector(seed, dimensions + 1).len() == dimensions + 1,
        mock::seeded_vector(seed, dimensions + 1)[0] == (state.wrapping_mul(
            0x2545_F491_4F6C_DD1D,
        ) >> 40) - 0x80_0000,
        mock::seeded_vector(seed, dimensions + 1).skip(1) == mock::seeded_vector(state, dimensions),
{
    let bits = state.wrapping_mul(0x2545_F491_4F6C_DD1D);
    assert(bits >> 40 == bits / 0x100_0000_0000) by (bit_vector);
    assert(bits >> 40 < 0x100_0000) by (bit_vector);
    assert(mock::state_after(seed, 1) == mock::next_state(mock::state_after(seed, 0)));
    let whole = mock::seeded_vector(seed, dimensions + 1);
    let rest = mock::seeded_vector(state, dimensions);
    assert forall|i: int| 0 <= i < dimensions implies #[trigger] whole.skip(1)[i] == rest[i] by {
        lemma_states_shift(seed, (i + 1) as nat);
        assert(whole.skip(1)[i] == whole[i + 1]);
    }
    assert(whole.skip(1) =~= rest);
}

/// What a batch call of the mock returns. A configured failure comes first. Otherwise a
/// batch without inputs is an error, a batch with an empty input is an error that names
/// the first of them, and any other batch gives one vector per input, in order, seeded by
/// the hash of the whole input.
pub proof fn law_mock_batch(
    provider: &MockEmbeddingProvider,
    inputs: Seq<Seq<char>>,
    outcome: Result<Seq<Seq<i32>>, EmbeddingError>,
)
    requires
        inputs.len() <= usize::MAX,
        provider.may_return(inputs, outcome),
    ensures
        provider.configured_failure() matches Some(failure) ==> outcome == Err::<Seq<Seq<i32>>, _>(
            failure,
        ),
        provider.configured_failure() is None && inputs.len() == 0 ==> outcome == Err::<
            Seq<Seq<i32>>,
            _,
        >(EmbeddingError::EmptyInput),
        provider.configured_failure() is None && (exists|i: int|
            0 <= i < inputs.len() && #[trigger] inputs[i].len() == 0) ==> {
            &&& outcome matches Err(EmbeddingError::EmptyInputItem { index })
            &&& 0 <= index < inputs.len()
            &&& inputs[index as int].len() == 0
            &&& forall|i: int| 0 <= i < index ==> #[trigger] inputs[i].len() > 0
        },
        provider.configured_failure() is None && inputs.len() > 0 && (forall|i: int|
            0 <= i < inputs.len() ==> #[trigger] inputs[i].len() > 0) ==> {
            &&& outcome matches Ok(vectors)
            &&& vectors.len() == inputs.len()
            &&& forall|i: int|
                0 <= i < inputs.len() ==> #[trigger] vectors[i] == mock::seeded_vector(
                    DefaultHasher::spec_finish(mock::hash_writes(inputs[i])),
                    provider.vector_len(),
                )
        },
{
    laws::law_batch_success(provider, inputs);
    if exists|i: int| 0 <= i < inputs.len() && #[trigger] inputs[i].len() == 0 {
        let i = choose|i: int| 0 <= i < inputs.len() && #[trigger] inputs[i].len() == 0;
        laws::lemma_some_input_is_first_empty(inputs, i);
        let index = choose|index: int| mock::first_empty(inputs, index);
        assert(mock::first_empty(inputs, index));
    }
}

/// The mock always returns one vector per input.
pub proof fn law_mock_keeps_count(provider: &MockEmbeddingProvider)
    ensures
        provider.keeps_count(),
{
}

/// The single-input call gives the only vector of a batch of one, passes errors on, and
/// complains about any other number of vectors, naming it.
pub proof fn law_sole_vector<C>(
    batch: Result<Seq<Seq<C>>, EmbeddingError>,
    r: Result<Seq<C>, EmbeddingError>,
)
    requires
        provider::sole_of(batch, r),
    ensures
        batch matches Err(error) ==> r == Err::<Seq<C>, _>(error),
        batch matches Ok(vectors) ==> (vectors.len() == 1 ==> r == Ok::<_, EmbeddingError>(
            vectors[0],
        )),
        batch matches Ok(vectors) ==> (vectors.len() != 1 ==> {
            &&& r matches Err(EmbeddingError::InvalidResponse(detail))
            &&& detail@ == "expected exactly 1 embedding, got "@ + text::decimal(vectors.len())
        }),
{
}

/// Looking at a batch as texts, or at vectors as sequences, loses nothing.
pub proof fn law_views_of_batches<C>(
    inputs: Seq<String>,
    vectors: Vec<Vec<C>>,
    vector: Vec<C>,
    error: EmbeddingError,
)
    ensures
        provider::texts(inputs).len() == inputs.len(),
        forall|i: int|
            0 <= i < inputs.len() ==> #[trigger] provider::texts(inputs)[i] == inputs[i]@,
        provider::batch_view(Ok(vectors)) matches Ok(seen) && seen.len() == vectors@.len() && (
        forall|i: int| 0 <= i < seen.len() ==> #[trigger] seen[i] == vectors@[i]@),
        provider::batch_view::<C>(Err(error)) == Err::<Seq<Seq<C>>, _>(error),
        provider::vector_view(Ok(vector)) == Ok::<_, EmbeddingError>(vector@),
        provider::vector_view::<C>(Err(error)) == Err::<Seq<C>, _>(error),
{
}

} // verus!
