//! The [`EmbeddingProvider`] trait.

use vstd::prelude::*;
use vstd::string::*;

use super::error::EmbeddingError;
use crate::text;

verus! {

/// The texts of a batch of inputs.
pub open spec fn texts(inputs: Seq<String>) -> Seq<Seq<char>> {
    inputs.map_values(|input: String| input@)
}

/// What a batch call returned, with each vector as a sequence.
pub open spec fn batch_view<C>(r: Result<Vec<Vec<C>>, EmbeddingError>) -> Result<
    Seq<Seq<C>>,
    EmbeddingError,
> {
    match r {
        Ok(vectors) => Ok(vectors@.map_values(|vector: Vec<C>| vector@)),
        Err(error) => Err(error),
    }
}

/// What a single-input call returned, with the vector as a sequence.
pub open spec fn vector_view<C>(r: Result<Vec<C>, EmbeddingError>) -> Result<
    Seq<C>,
    EmbeddingError,
> {
    match r {
        Ok(vector) => Ok(vector@),
        Err(error) => Err(error),
    }
}

/// Whether `r` is the only vector of the batch outcome `batch`, its error, or the
/// complaint that it does not hold exactly one vector.
pub open spec fn sole_of<C>(
    batch: Result<Seq<Seq<C>>, EmbeddingError>,
    r: Result<Seq<C>, EmbeddingError>,
) -> bool {
    match batch {
        Err(error) => r == Err::<Seq<C>, _>(error),
        Ok(vectors) => if vectors.len() == 1 {
            r == Ok::<_, EmbeddingError>(vectors[0])
        } else {
            &&& r matches Err(EmbeddingError::InvalidResponse(detail))
            &&& detail@ == "expected exactly 1 embedding, got "@ + text::decimal(vectors.len())
        },
    }
}

/// The only vector of a batch of one.
pub fn sole_vector<C>(batch: Result<Vec<Vec<C>>, EmbeddingError>) -> (r: Result<
    Vec<C>,
    EmbeddingError,
>)
    ensures
        sole_of(batch_view(batch), vector_view(r)),
{
    let mut vectors = match batch {
        Ok(vectors) => vectors,
        Err(error) => {
            return Err(error);
        },
    };
    if vectors.len() == 1 {
        if let Some(vector) = vectors.pop() {
            return Ok(vector);
        }
    }
    let mut detail = String::new();
    detail.append("expected exactly 1 embedding, got ");
    text::push_decimal(&mut detail, vectors.len() as u128);
    Err(EmbeddingError::InvalidResponse(detail))
}

/// A backend capable of turning text into embedding vectors.
///
/// Implementors isolate all provider-specific concerns (transport, authentication,
/// request and response shapes) behind this interface, so the rest of the service stays
/// vendor-neutral. Providers are cheap to share, so a single instance can be reused
/// across concurrent requests.
///
/// [`embed`](EmbeddingProvider::embed) takes a batch of inputs, because most providers
/// charge per request; [`embed_one`](EmbeddingProvider::embed_one) serves the
/// single-input case.
pub trait EmbeddingProvider: Send + Sync {
    /// The type of one element of an embedding vector.
    type Component;

    /// Whether `outcome` is something this provider may return for the batch `inputs`.
    /// A provider that does not say may return anything.
    open spec fn may_return(
        &self,
        inputs: Seq<Seq<char>>,
        outcome: Result<Seq<Seq<Self::Component>>, EmbeddingError>,
    ) -> bool {
        true
    }

    /// The dimensionality of the vectors this provider produces, some fixed number unless
    /// the provider says which.
    closed spec fn vector_len(&self) -> nat {
        arbitrary()
    }

    /// The identifier of the provider, some fixed text unless the provider says which.
    closed spec fn label(&self) -> Seq<char> {
        arbitrary()
    }

    /// Whether this provider can be relied on to return one vector per input. A provider
    /// that does not say cannot.
    open spec fn keeps_count(&self) -> bool {
        false
    }

    /// Embed a batch of inputs: one vector per input, in the order of the inputs, each
    /// with as many elements as the provider reports. An empty batch is an error.
    ///
    /// That there is one vector per input is promised only of a provider that
    /// [`keeps_count`](EmbeddingProvider::keeps_count); callers check it of any other.
    fn embed(&self, inputs: &[String]) -> (r: Result<Vec<Vec<Self::Component>>, EmbeddingError>)
        ensures
            self.may_return(texts(inputs@), batch_view(r)),
            inputs@.len() == 0 ==> r is Err,
            self.keeps_count() ==> (r matches Ok(vectors) ==> vectors@.len() == inputs@.len()),
            r matches Ok(vectors) ==> forall|i: int|
                0 <= i < vectors@.len() ==> (#[trigger] vectors@[i])@.len() == self.vector_len(),
    ;

    /// The dimensionality of the vectors this provider produces.
    fn dimensions(&self) -> (r: usize)
        ensures
            r == self.vector_len(),
    ;

    /// A short, stable identifier for the provider, useful for logging and metrics.
    fn name(&self) -> (r: &str)
        ensures
            r@ == self.label(),
    ;

    /// Embed a single input: forwards to [`embed`](EmbeddingProvider::embed) and unwraps
    /// the sole vector. Errors pass through, and a batch that does not hold exactly one
    /// vector is an [`EmbeddingError::InvalidResponse`].
    fn embed_one(&self, input: &str) -> (r: Result<Vec<Self::Component>, EmbeddingError>)
        ensures
            exists|batch: Result<Seq<Seq<Self::Component>>, EmbeddingError>|
                {
                    &&& self.may_return(seq![input@], batch)
                    &&& sole_of(batch, vector_view(r))
                    &&& self.keeps_count() ==> (batch matches Ok(vectors) ==> vectors.len() == 1)
                },
            r matches Ok(vector) ==> vector@.len() == self.vector_len(),
    {
        let mut inputs: Vec<String> = Vec::new();
        inputs.push(input.to_string());
        let batch = self.embed(inputs.as_slice());
        proof {
            assert(texts(inputs@) =~= seq![input@]);
        }
        let ghost outcome = batch_view(batch);
        let r = sole_vector(batch);
        assert(self.may_return(seq![input@], outcome) && sole_of(outcome, vector_view(r)));
        r
    }
}

} // verus!
