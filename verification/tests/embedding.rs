//! The embedding provider abstraction, through the public interface and through dynamic
//! dispatch.

use std::collections::hash_map::DefaultHasher;
use std::hash::{Hash, Hasher};

use rag_service::embedding::mock::vector_from_seed;
use rag_service::embedding::provider::sole_vector;
use rag_service::embedding::{EmbeddingError, EmbeddingProvider, MockEmbeddingProvider};

/// The vector of the given elements, scaled to unit length.
fn unit_vector(components: &[i32]) -> Vec<f32> {
    let mut vector: Vec<f32> = components.iter().map(|&n| n as f32 / 8_388_608.0).collect();
    let norm = vector.iter().map(|v| v * v).sum::<f32>().sqrt();
    if norm > 0.0 {
        for v in &mut vector {
            *v /= norm;
        }
    }
    vector
}

/// The vector of `text` in floating-point arithmetic throughout.
fn float_vector(text: &str, dimensions: usize) -> Vec<f32> {
    let mut hasher = DefaultHasher::new();
    text.hash(&mut hasher);
    let mut state = hasher.finish();
    let mut vector = Vec::with_capacity(dimensions);
    for _ in 0..dimensions {
        state ^= state >> 12;
        state ^= state << 25;
        state ^= state >> 27;
        let bits = state.wrapping_mul(0x2545_F491_4F6C_DD1D);
        let unit = (bits >> 40) as f32 / (1u64 << 24) as f32;
        vector.push(unit * 2.0 - 1.0);
    }
    let norm = vector.iter().map(|v| v * v).sum::<f32>().sqrt();
    if norm > 0.0 {
        for v in &mut vector {
            *v /= norm;
        }
    }
    vector
}

#[test]
fn embeds_a_batch_preserving_order_and_dimension() {
    let provider = MockEmbeddingProvider::new(12);
    let inputs = vec![
        "the quick brown fox".to_string(),
        "jumps over the lazy dog".to_string(),
        "retrieval augmented generation".to_string(),
    ];

    let vectors = provider.embed(&inputs).expect("embedding should succeed");

    assert_eq!(vectors.len(), inputs.len());
    for (vector, input) in vectors.iter().zip(&inputs) {
        assert_eq!(vector.len(), provider.dimensions());
        assert_eq!(*vector, provider.embed_one(input).unwrap());
        let vector = unit_vector(vector);
        let norm = vector.iter().map(|v| v * v).sum::<f32>().sqrt();
        assert!((norm - 1.0).abs() < 1e-5, "expected unit norm, got {norm}");
    }
}

#[test]
fn embeddings_are_deterministic() {
    let provider = MockEmbeddingProvider::new(8);
    let first = provider.embed_one("hello").unwrap();
    let second = provider.embed_one("hello").unwrap();
    assert_eq!(first, second);
}

#[test]
fn distinct_inputs_produce_distinct_vectors() {
    let provider = MockEmbeddingProvider::new(8);
    let a = provider.embed_one("alpha").unwrap();
    let b = provider.embed_one("beta").unwrap();
    assert_ne!(a, b);
}

#[test]
fn empty_batch_is_rejected() {
    let provider = MockEmbeddingProvider::new(8);
    let err = provider.embed(&[]).unwrap_err();
    assert!(matches!(err, EmbeddingError::EmptyInput));
}

#[test]
fn empty_item_is_rejected_with_index() {
    let provider = MockEmbeddingProvider::new(8);
    let inputs = vec!["ok".to_string(), String::new()];
    let err = provider.embed(&inputs).unwrap_err();
    assert!(matches!(err, EmbeddingError::EmptyInputItem { index: 1 }));
}

#[test]
fn configured_failures_surface_as_errors() {
    let provider = MockEmbeddingProvider::new(8).with_request_failure("boom");
    let err = provider.embed_one("x").unwrap_err();
    assert!(matches!(err, EmbeddingError::Request(msg) if msg == "boom"));

    let provider = MockEmbeddingProvider::new(8).with_rate_limit("slow down");
    let err = provider.embed_one("x").unwrap_err();
    assert!(matches!(err, EmbeddingError::RateLimited(msg) if msg == "slow down"));
}

#[test]
fn usable_through_dynamic_dispatch() {
    let provider: Box<dyn EmbeddingProvider<Component = i32>> =
        Box::new(MockEmbeddingProvider::new(4).with_name("test-model"));
    assert_eq!(provider.name(), "test-model");

    let vectors = provider.embed(&["text".to_string()]).unwrap();
    assert_eq!(vectors.len(), 1);
    assert_eq!(vectors[0].len(), 4);
}

#[test]
fn default_name_is_mock_and_builders_keep_the_rest() {
    let provider = MockEmbeddingProvider::new(3);
    assert_eq!(provider.name(), "mock");
    let renamed = provider.with_rate_limit("busy").with_name("other");
    assert_eq!(renamed.name(), "other");
    assert_eq!(renamed.dimensions(), 3);
    assert!(matches!(
        renamed.embed_one("x"),
        Err(EmbeddingError::RateLimited(msg)) if msg == "busy"
    ));
}

#[test]
fn later_failure_replaces_the_earlier_one() {
    let provider = MockEmbeddingProvider::new(3)
        .with_rate_limit("first")
        .with_request_failure("second");
    assert!(matches!(
        provider.embed_one("x"),
        Err(EmbeddingError::Request(msg)) if msg == "second"
    ));
}

#[test]
fn configured_failure_comes_before_the_inspection_of_inputs() {
    let provider = MockEmbeddingProvider::new(3).with_request_failure("boom");
    assert!(matches!(
        provider.embed(&[]),
        Err(EmbeddingError::Request(msg)) if msg == "boom"
    ));
    assert!(matches!(
        provider.embed(&[String::new()]),
        Err(EmbeddingError::Request(msg)) if msg == "boom"
    ));
}

#[test]
fn first_of_several_empty_items_is_named() {
    let provider = MockEmbeddingProvider::new(8);
    let inputs = vec!["a".to_string(), "b".to_string(), String::new(), String::new()];
    assert!(matches!(
        provider.embed(&inputs),
        Err(EmbeddingError::EmptyInputItem { index: 2 })
    ));
    assert!(matches!(
        provider.embed_one(""),
        Err(EmbeddingError::EmptyInputItem { index: 0 })
    ));
    // White space is text like any other.
    assert!(provider.embed_one(" ").is_ok());
}

#[test]
fn clone_embeds_like_the_provider_it_was_made_from() {
    let provider = MockEmbeddingProvider::new(5).with_name("twin");
    let twin = provider.clone();
    assert_eq!(twin.name(), "twin");
    assert_eq!(twin.embed_one("x").unwrap(), provider.embed_one("x").unwrap());
    let failing = provider.with_request_failure("boom").clone();
    assert!(matches!(failing.embed_one("x"), Err(EmbeddingError::Request(_))));
}

#[test]
fn vector_is_seeded_by_the_hash_of_the_text() {
    let provider = MockEmbeddingProvider::new(16);
    for text in ["hello world", "goodbye", "r\u{e9}sum\u{e9} \u{1f980}"] {
        let mut hasher = DefaultHasher::new();
        text.hash(&mut hasher);
        let expected = vector_from_seed(hasher.finish(), 16);
        assert_eq!(provider.embed_text(text), expected);
        let unhashed = vector_from_seed(DefaultHasher::new().finish(), 16);
        assert_ne!(provider.embed_text(text), unhashed);
    }
}

#[test]
fn seeded_vectors_have_exact_values() {
    // The generator never leaves the state zero.
    assert_eq!(vector_from_seed(0, 3), vec![-8_388_608, -8_388_608, -8_388_608]);
    // 1 -> 1 ^ 1 << 25 -> 0x2000001; times the multiplier the upper 24 bits are 0x47e4ce.
    assert_eq!(vector_from_seed(1, 1), vec![0x47_e4ce - 0x80_0000]);
    assert_eq!(vector_from_seed(1, 0), Vec::<i32>::new());
}

#[test]
fn fewer_dimensions_give_the_beginning_of_the_vector() {
    let long = vector_from_seed(42, 9);
    assert_eq!(vector_from_seed(42, 4), long[..4].to_vec());
}

#[test]
fn scaled_vectors_agree_with_floating_point_arithmetic() {
    for dimensions in [1, 2, 8, 33] {
        let provider = MockEmbeddingProvider::new(dimensions);
        for text in ["hello", "retrieval augmented generation", "x"] {
            let scaled = unit_vector(&provider.embed_text(text));
            assert_eq!(scaled, float_vector(text, dimensions));
        }
    }
}

#[test]
fn single_input_needs_exactly_one_vector() {
    assert_eq!(sole_vector(Ok(vec![vec![1, 2]])).unwrap(), vec![1, 2]);
    match sole_vector(Ok(Vec::<Vec<i32>>::new())) {
        Err(EmbeddingError::InvalidResponse(detail)) => {
            assert_eq!(detail, "expected exactly 1 embedding, got 0");
        }
        other => panic!("expected an invalid response, got {other:?}"),
    }
    match sole_vector(Ok(vec![vec![0]; 12])) {
        Err(EmbeddingError::InvalidResponse(detail)) => {
            assert_eq!(detail, "expected exactly 1 embedding, got 12");
        }
        other => panic!("expected an invalid response, got {other:?}"),
    }
    let failed: Result<Vec<Vec<i32>>, EmbeddingError> = Err(EmbeddingError::EmptyInput);
    assert!(matches!(sole_vector(failed), Err(EmbeddingError::EmptyInput)));
}

#[test]
fn embedding_errors_describe_themselves() {
    let detail = || "why".to_string();
    assert_eq!(EmbeddingError::EmptyInput.message(), "no inputs were provided to embed");
    assert_eq!(
        EmbeddingError::EmptyInputItem { index: 10 }.message(),
        "input at index 10 is empty"
    );
    assert_eq!(
        EmbeddingError::Configuration(detail()).message(),
        "embedding provider configuration error: why"
    );
    assert_eq!(
        EmbeddingError::Authentication(detail()).message(),
        "embedding provider authentication failed: why"
    );
    assert_eq!(
        EmbeddingError::Request(detail()).message(),
        "embedding provider request failed: why"
    );
    assert_eq!(
        EmbeddingError::InvalidResponse(detail()).message(),
        "embedding provider returned an invalid response: why"
    );
    assert_eq!(
        EmbeddingError::RateLimited(detail()).message(),
        "embedding provider rate limit exceeded: why"
    );
}

#[test]
fn batch_of_two_gives_two_vectors() {
    let provider = MockEmbeddingProvider::new(8);
    let vectors = provider
        .embed(&["hello world".to_string(), "goodbye".to_string()])
        .unwrap();
    assert_eq!(vectors.len(), 2);
    assert_eq!(vectors[0].len(), 8);
}

/// A provider that answers every batch with the same number of vectors.
struct Fixed(usize);

impl EmbeddingProvider for Fixed {
    type Component = i32;

    fn embed(&self, _inputs: &[String]) -> Result<Vec<Vec<i32>>, EmbeddingError> {
        Ok(vec![vec![7]; self.0])
    }

    fn dimensions(&self) -> usize {
        1
    }

    fn name(&self) -> &str {
        "fixed"
    }
}

#[test]
fn single_input_call_of_any_provider_wants_one_vector() {
    assert_eq!(Fixed(1).embed_one("x").unwrap(), vec![7]);
    match Fixed(2).embed_one("x") {
        Err(EmbeddingError::InvalidResponse(detail)) => {
            assert_eq!(detail, "expected exactly 1 embedding, got 2");
        }
        other => panic!("expected an invalid response, got {other:?}"),
    }
}
