//! An in-memory [`EmbeddingProvider`] for tests and local development.

use std::collections::hash_map::DefaultHasher;
use std::hash::{Hash, Hasher};

use vstd::prelude::*;
use vstd::std_specs::hash::*;
use vstd::string::*;

use super::error::EmbeddingError;
use super::provider;
use super::provider::EmbeddingProvider;

verus! {

/// The multiplier that scrambles a generator state into an output.
pub const OUTPUT_MULTIPLIER: u64 = 0x2545_F491_4F6C_DD1D;

/// What [`Hash::hash`] of a text writes into a hasher.
pub uninterp spec fn hash_writes(text: Seq<char>) -> Seq<Seq<u8>>;

/// Feeds `text` into `hasher` with the standard library's [`Hash::hash`] on `str`.
///
/// The contract claims that what this adds to the writes seen by the hasher depends on
/// the characters of the text alone; it does not say what those writes are.
#[verifier::external_body]
fn write_text(text: &str, hasher: &mut DefaultHasher)
    ensures
        final(hasher)@ == old(hasher)@ + hash_writes(text@),
{
    text.hash(hasher)
}

/// The hash that seeds the vector of `text`: that of a hasher which has seen only the
/// text.
pub open spec fn text_hash(text: Seq<char>) -> u64 {
    DefaultHasher::spec_finish(hash_writes(text))
}

/// The hash that seeds the vector of `text`.
fn hash_text(text: &str) -> (r: u64)
    ensures
        r == text_hash(text@),
        r == DefaultHasher::spec_finish(hash_writes(text@)),
{
    let mut hasher = DefaultHasher::new();
    write_text(text, &mut hasher);
    assert(hasher@ =~= hash_writes(text@));
    hasher.finish()
}

/// The generator state that follows `state`.
pub open spec fn next_state(state: u64) -> u64 {
    let a = state ^ (state >> 12);
    let b = a ^ (a << 25);
    b ^ (b >> 27)
}

/// The generator state `steps` steps after `seed`.
pub open spec fn state_after(seed: u64, steps: nat) -> u64
    decreases steps,
{
    if steps == 0 {
        seed
    } else {
        next_state(state_after(seed, (steps - 1) as nat))
    }
}

/// The vector element that a generator state yields, in units of two to the power of
/// minus 23: the upper 24 bits of the scrambled state, moved to the range from minus one
/// to one.
pub open spec fn component(state: u64) -> int {
    (state * OUTPUT_MULTIPLIER) % 0x1_0000_0000_0000_0000 / 0x100_0000_0000 - 0x80_0000
}

/// The vector of `dimensions` elements that the generator yields from `seed`.
pub open spec fn seeded_vector(seed: u64, dimensions: nat) -> Seq<i32> {
    Seq::new(dimensions, |i: int| component(state_after(seed, (i + 1) as nat)) as i32)
}

/// The vector of `dimensions` elements that is derived from `text`.
pub open spec fn text_vector(text: Seq<char>, dimensions: nat) -> Seq<i32> {
    seeded_vector(text_hash(text), dimensions)
}

/// Advance the generator by one step.
fn advance(state: u64) -> (r: u64)
    ensures
        r == next_state(state),
{
    let a: u64 = state ^ (state >> 12);
    let b: u64 = a ^ (a << 25);
    b ^ (b >> 27)
}

/// The vector element that a generator state yields.
fn scale(state: u64) -> (r: i32)
    ensures
        r == component(state),
        -0x80_0000 <= r < 0x80_0000,
{
    let bits: u64 = state.wrapping_mul(OUTPUT_MULTIPLIER);
    assert(bits >> 40 == bits / 0x100_0000_0000) by (bit_vector);
    assert(bits >> 40 < 0x100_0000) by (bit_vector);
    (bits >> 40) as i32 - 0x80_0000
}

/// The vector of `dimensions` elements that the generator yields from `seed`, each
/// element in units of two to the power of minus 23 and in the range from minus one up to
/// one.
pub fn vector_from_seed(seed: u64, dimensions: usize) -> (r: Vec<i32>)
    ensures
        r@ == seeded_vector(seed, dimensions as nat),
        forall|i: int| 0 <= i < r@.len() ==> -0x80_0000 <= #[trigger] r@[i] < 0x80_0000,
{
    let mut state: u64 = seed;
    let mut vector: Vec<i32> = Vec::new();
    for i in 0..dimensions
        invariant
            state == state_after(seed, i as nat),
            vector@ == seeded_vector(seed, dimensions as nat).take(i as int),
            forall|j: int|
                0 <= j < vector@.len() ==> -0x80_0000 <= #[trigger] vector@[j] < 0x80_0000,
    {
        state = advance(state);
        vector.push(scale(state));
        proof {
            let all = seeded_vector(seed, dimensions as nat);
            assert(all.take(i + 1) =~= all.take(i as int).push(all[i as int]));
        }
    }
    vector
}

/// How a [`MockEmbeddingProvider`] fails when configured to do so.
#[derive(Debug)]
enum MockFailure {
    Request(String),
    RateLimited(String),
}

/// A deterministic, dependency-free embedding provider for use in tests.
///
/// Each vector is derived from a hash of the input text, so the same input always yields
/// the same embedding and different inputs almost always differ. A vector is given by
/// whole numbers, its elements in units of two to the power of minus 23 before it is
/// scaled to unit length.
///
/// The provider can also be told to fail, which lets tests exercise the error-handling
/// paths of code that depends on [`EmbeddingProvider`].
#[derive(Debug)]
pub struct MockEmbeddingProvider {
    dimensions: usize,
    name: String,
    failure: Option<MockFailure>,
}

/// Whether `inputs[index]` is the first empty text of the batch.
pub open spec fn first_empty(inputs: Seq<Seq<char>>, index: int) -> bool {
    &&& 0 <= index < inputs.len()
    &&& inputs[index].len() == 0
    &&& forall|i: int| 0 <= i < index ==> #[trigger] inputs[i].len() > 0
}

impl MockEmbeddingProvider {
    /// A zero-length embedding is never useful.
    #[verifier::type_invariant]
    spec fn well_formed(self) -> bool {
        self.dimensions > 0
    }

    /// The error that every embedding call is configured to fail with.
    pub closed spec fn configured_failure(&self) -> Option<EmbeddingError> {
        match self.failure {
            None => None,
            Some(MockFailure::Request(message)) => Some(EmbeddingError::Request(message)),
            Some(MockFailure::RateLimited(message)) => Some(EmbeddingError::RateLimited(message)),
        }
    }

    /// What a batch call returns.
    pub open spec fn batch_outcome(&self, inputs: Seq<Seq<char>>) -> Result<
        Seq<Seq<i32>>,
        EmbeddingError,
    > {
        if let Some(error) = self.configured_failure() {
            Err(error)
        } else if inputs.len() == 0 {
            Err(EmbeddingError::EmptyInput)
        } else if exists|index: int| first_empty(inputs, index) {
            let index = choose|index: int| first_empty(inputs, index);
            Err(EmbeddingError::EmptyInputItem { index: index as usize })
        } else {
            Ok(inputs.map_values(|text: Seq<char>| text_vector(text, self.vector_len())))
        }
    }

    /// Create a provider that produces vectors of `dimensions` elements.
    pub fn new(dimensions: usize) -> (r: Self)
        requires
            dimensions > 0,
        ensures
            r.vector_len() == dimensions,
            r.label() == "mock"@,
            r.configured_failure() is None,
    {
        MockEmbeddingProvider { dimensions, name: "mock".to_string(), failure: None }
    }

    /// Override the provider name reported by [`EmbeddingProvider::name`].
    pub fn with_name(self, name: &str) -> (r: Self)
        ensures
            r.vector_len() == self.vector_len(),
            r.label() == name@,
            r.configured_failure() == self.configured_failure(),
    {
        proof {
            use_type_invariant(&self);
        }
        MockEmbeddingProvider {
            dimensions: self.dimensions,
            name: name.to_string(),
            failure: self.failure,
        }
    }

    /// Configure the provider to fail every embedding call with an
    /// [`EmbeddingError::Request`] carrying `message`.
    pub fn with_request_failure(self, message: &str) -> (r: Self)
        ensures
            r.vector_len() == self.vector_len(),
            r.label() == self.label(),
            r.configured_failure() matches Some(EmbeddingError::Request(detail)) && detail@
                == message@,
    {
        proof {
            use_type_invariant(&self);
        }
        MockEmbeddingProvider {
            dimensions: self.dimensions,
            name: self.name,
            failure: Some(MockFailure::Request(message.to_string())),
        }
    }

    /// Configure the provider to fail every embedding call with an
    /// [`EmbeddingError::RateLimited`] carrying `message`.
    pub fn with_rate_limit(self, message: &str) -> (r: Self)
        ensures
            r.vector_len() == self.vector_len(),
            r.label() == self.label(),
            r.configured_failure() matches Some(EmbeddingError::RateLimited(detail)) && detail@
                == message@,
    {
        proof {
            use_type_invariant(&self);
        }
        MockEmbeddingProvider {
            dimensions: self.dimensions,
            name: self.name,
            failure: Some(MockFailure::RateLimited(message.to_string())),
        }
    }

    /// The deterministic vector for a single input.
    pub fn embed_text(&self, text: &str) -> (r: Vec<i32>)
        ensures
            r@ == text_vector(text@, self.vector_len()),
            r@ == seeded_vector(
                DefaultHasher::spec_finish(hash_writes(text@)),
                self.vector_len(),
            ),
    {
        vector_from_seed(hash_text(text), self.dimensions)
    }
}

impl Clone for MockFailure {
    fn clone(&self) -> (r: Self)
        ensures
            r == *self,
    {
        match self {
            MockFailure::Request(message) => MockFailure::Request(message.clone()),
            MockFailure::RateLimited(message) => MockFailure::RateLimited(message.clone()),
        }
    }
}

impl Clone for MockEmbeddingProvider {
    fn clone(&self) -> (r: Self)
        ensures
            r == *self,
    {
        proof {
            use_type_invariant(self);
        }
        let failure = match &self.failure {
            Some(failure) => Some(failure.clone()),
            None => None,
        };
        MockEmbeddingProvider { dimensions: self.dimensions, name: self.name.clone(), failure }
    }
}

impl EmbeddingProvider for MockEmbeddingProvider {
    type Component = i32;

    open spec fn may_return(
        &self,
        inputs: Seq<Seq<char>>,
        outcome: Result<Seq<Seq<i32>>, EmbeddingError>,
    ) -> bool {
        outcome == self.batch_outcome(inputs)
    }

    open spec fn keeps_count(&self) -> bool {
        true
    }

    closed spec fn vector_len(&self) -> nat {
        self.dimensions as nat
    }

    closed spec fn label(&self) -> Seq<char> {
        self.name@
    }

    fn embed(&self, inputs: &[String]) -> (r: Result<Vec<Vec<i32>>, EmbeddingError>)
        ensures
            self.configured_failure() matches Some(error) ==> r == Err::<Vec<Vec<i32>>, _>(error),
            self.configured_failure() is None && inputs@.len() == 0 ==> r == Err::<
                Vec<Vec<i32>>,
                _,
            >(EmbeddingError::EmptyInput),
            self.configured_failure() is None && inputs@.len() > 0 ==> match r {
                Ok(vectors) => {
                    &&& vectors@.len() == inputs@.len()
                    &&& forall|i: int|
                        #![trigger vectors@[i]]
                        0 <= i < inputs@.len() ==> inputs@[i]@.len() > 0 && vectors@[i]@
                            == seeded_vector(
                            DefaultHasher::spec_finish(hash_writes(inputs@[i]@)),
                            self.vector_len(),
                        )
                },
                Err(EmbeddingError::EmptyInputItem { index }) => {
                    &&& index < inputs@.len()
                    &&& inputs@[index as int]@.len() == 0
                    &&& forall|i: int| 0 <= i < index ==> (#[trigger] inputs@[i])@.len() > 0
                },
                Err(_) => false,
            },
    {
        let ghost batch = provider::texts(inputs@);
        if let Some(failure) = &self.failure {
            return Err(
                match failure {
                    MockFailure::Request(message) => EmbeddingError::Request(message.clone()),
                    MockFailure::RateLimited(message) => EmbeddingError::RateLimited(
                        message.clone(),
                    ),
                },
            );
        }
        if inputs.is_empty() {
            return Err(EmbeddingError::EmptyInput);
        }
        let mut vectors: Vec<Vec<i32>> = Vec::with_capacity(inputs.len());
        for index in 0..inputs.len()
            invariant
                batch == provider::texts(inputs@),
                self.configured_failure() is None,
                inputs@.len() > 0,
                vectors@.len() == index,
                forall|i: int| 0 <= i < index ==> #[trigger] batch[i].len() > 0,
                forall|i: int| 0 <= i < index ==> (#[trigger] inputs@[i])@.len() > 0,
                forall|i: int|
                    #![trigger vectors@[i]]
                    0 <= i < index ==> vectors@[i]@ == seeded_vector(
                        DefaultHasher::spec_finish(hash_writes(inputs@[i]@)),
                        self.vector_len(),
                    ),
                forall|i: int|
                    0 <= i < index ==> (#[trigger] vectors@[i])@ == text_vector(
                        batch[i],
                        self.vector_len(),
                    ),
        {
            assert(batch[index as int] == inputs@[index as int]@);
            if inputs[index].as_str().is_empty() {
                proof {
                    assert(first_empty(batch, index as int));
                    let chosen = choose|i: int| first_empty(batch, i);
                    assert(chosen == index);
                }
                return Err(EmbeddingError::EmptyInputItem { index });
            }
            vectors.push(self.embed_text(inputs[index].as_str()));
        }
        proof {
            assert(vectors@.map_values(|vector: Vec<i32>| vector@) =~= batch.map_values(
                |text: Seq<char>| text_vector(text, self.vector_len()),
            ));
        }
        Ok(vectors)
    }

    fn dimensions(&self) -> (r: usize)
        ensures
            r > 0,
    {
        proof {
            use_type_invariant(self);
        }
        self.dimensions
    }

    fn name(&self) -> (r: &str) {
        self.name.as_str()
    }
}

} // verus!
