//! Answer generation the way an endpoint would run it: index a corpus, then answer
//! questions grounded in the retrieved chunks.

use rag_service::generation::{default_top_k, select_context, INSTRUCTION};
use rag_service::{
    build_prompt, AnswerGenerator, AnswerRequest, AnswerResponse, AnswerStep, Chunk,
    ChunkMetadata, EmbeddingProvider, GenerationError, LlmError, LlmProvider, Metadata,
    MockEmbeddingProvider, MockLlmProvider, RetrievalError, Score, SearchResult, SourceRef,
    DEFAULT_MIN_SCORE, DEFAULT_TOP_K, NO_CONTEXT_ANSWER,
};
use serde_json::{Number, Value};

fn score(value: f32) -> Score {
    Score::from_bits(value.to_bits())
}

fn value(score: Score) -> f32 {
    f32::from_bits(score.to_bits())
}

fn chunk(id: &str, content: &str) -> Chunk {
    Chunk {
        id: id.to_string(),
        content: content.to_string(),
        metadata: ChunkMetadata {
            source: "corpus".to_string(),
            chunk_index: 0,
            total_chunks: 1,
            start_char: 0,
            end_char: content.chars().count(),
            extra: Metadata::new(),
        },
    }
}

fn hit(id: &str, content: &str, similarity: f32) -> SearchResult {
    SearchResult { chunk: chunk(id, content), score: score(similarity) }
}

/// A corpus that is searched by cosine similarity.
struct Corpus {
    provider: MockEmbeddingProvider,
    chunks: Vec<Chunk>,
}

impl Corpus {
    fn vector(&self, text: &str) -> Vec<f32> {
        let components = self.provider.embed_one(text).unwrap();
        let vector: Vec<f32> = components.iter().map(|&n| n as f32 / 8_388_608.0).collect();
        let norm = vector.iter().map(|v| v * v).sum::<f32>().sqrt();
        vector.iter().map(|v| v / norm).collect()
    }

    fn retrieve(&self, query: &str, top_k: usize) -> Result<Vec<SearchResult>, RetrievalError> {
        if query.trim().is_empty() {
            return Err(RetrievalError::EmptyQuery);
        }
        let wanted = self.vector(query);
        let mut hits: Vec<SearchResult> = self
            .chunks
            .iter()
            .map(|chunk| {
                let vector = self.vector(&chunk.content);
                let similarity: f32 = wanted.iter().zip(&vector).map(|(a, b)| a * b).sum();
                SearchResult { chunk: chunk.clone(), score: score(similarity) }
            })
            .collect();
        hits.sort_by(|a, b| value(b.score).total_cmp(&value(a.score)));
        hits.truncate(top_k);
        Ok(hits)
    }
}

type Generator = AnswerGenerator<Corpus, MockLlmProvider>;

fn generator_over(llm: MockLlmProvider, chunks: Vec<Chunk>) -> Generator {
    AnswerGenerator::new(Corpus { provider: MockEmbeddingProvider::new(8), chunks }, llm)
}

fn generator(llm: MockLlmProvider) -> Generator {
    generator_over(
        llm,
        vec![
            chunk("c0", "retrieval augmented generation"),
            chunk("c1", "fixed size character chunking"),
            chunk("c2", "cosine similarity vector search"),
        ],
    )
}

fn answer(
    generator: &Generator,
    query: &str,
    top_k: usize,
    min_score: f32,
) -> Result<AnswerResponse, GenerationError> {
    let step = generator.answer(query, top_k, score(min_score));
    let retrieved = generator.retriever().retrieve(&step.query, step.top_k);
    generator.respond(step, retrieved)
}

fn handle(generator: &Generator, request: &AnswerRequest) -> Result<AnswerResponse, GenerationError> {
    let step = generator.handle(request);
    let retrieved = generator.retriever().retrieve(&step.query, step.top_k);
    generator.respond(step, retrieved)
}

/// The request that a body stands for.
fn request_from_json(body: &str) -> AnswerRequest {
    let body: Value = serde_json::from_str(body).unwrap();
    AnswerRequest::from_fields(
        body.get("query").unwrap().as_str().unwrap().to_string(),
        body.get("top_k").map(|top_k| top_k.as_u64().unwrap() as usize),
        body.get("min_score").map(|min_score| score(min_score.as_f64().unwrap() as f32)),
    )
}

fn response_to_json(response: &AnswerResponse) -> String {
    let sources = response.sources.iter().map(|source| {
        let mut object = serde_json::Map::new();
        object.insert("id".to_string(), Value::from(source.id.clone()));
        object.insert("source".to_string(), Value::from(source.source.clone()));
        object.insert("chunk_index".to_string(), Value::from(source.chunk_index));
        let number = Number::from_f64(value(source.score) as f64).unwrap();
        object.insert("score".to_string(), Value::Number(number));
        Value::Object(object)
    });
    let mut object = serde_json::Map::new();
    object.insert("answer".to_string(), Value::from(response.answer.clone()));
    object.insert("sources".to_string(), Value::Array(sources.collect()));
    Value::Object(object).to_string()
}

fn response_from_json(body: &str) -> AnswerResponse {
    let body: Value = serde_json::from_str(body).unwrap();
    let sources = body["sources"].as_array().unwrap().iter().map(|source| SourceRef {
        id: source["id"].as_str().unwrap().to_string(),
        source: source["source"].as_str().unwrap().to_string(),
        chunk_index: source["chunk_index"].as_u64().unwrap() as usize,
        score: score(source["score"].as_f64().unwrap() as f32),
    });
    AnswerResponse {
        answer: body["answer"].as_str().unwrap().to_string(),
        sources: sources.collect(),
    }
}

#[test]
fn prompt_numbers_context_and_ends_with_the_question() {
    let context = [hit("a#0", "alpha content", 0.9), hit("b#0", "beta content", 0.8)];
    let prompt = build_prompt("what is alpha?", &context);

    assert!(prompt.contains("[1] a#0 (score 0.900)\nalpha content"));
    assert!(prompt.contains("[2] b#0 (score 0.800)\nbeta content"));
    assert!(prompt.ends_with("Question: what is alpha?\nAnswer:"));
    // The grounding instruction precedes the context.
    assert!(prompt.starts_with("Answer the question using only"));
}

#[test]
fn answers_with_sources_for_the_context_used() {
    let generator = generator_over(
        MockLlmProvider::new(),
        vec![
            chunk("c0", "retrieval augmented generation"),
            chunk("c1", "cosine similarity vector search"),
        ],
    );

    let response = answer(&generator, "retrieval augmented generation", 2, 0.0).unwrap();

    assert!(response.answer.contains("retrieval augmented generation"));
    assert_eq!(response.sources.len(), 2);
    assert_eq!(response.sources[0].id, "c0");
    assert_eq!(response.sources[0].source, "corpus");
    assert!((value(response.sources[0].score) - 1.0).abs() < 1e-6);
    // Sources stay ordered most relevant first, mirroring retrieval.
    assert!(value(response.sources[0].score) >= value(response.sources[1].score));
}

#[test]
fn low_confidence_chunks_are_kept_out_of_prompt_and_sources() {
    let generator = generator_over(
        MockLlmProvider::new(),
        vec![
            chunk("c0", "retrieval augmented generation"),
            chunk("c1", "cosine similarity vector search"),
        ],
    );

    let response = answer(&generator, "retrieval augmented generation", 2, 0.99).unwrap();

    assert_eq!(response.sources.len(), 1);
    assert_eq!(response.sources[0].id, "c0");
    assert!(!response.answer.contains("cosine similarity vector search"));
}

#[test]
fn no_relevant_context_skips_the_model_entirely() {
    let generator = generator_over(
        MockLlmProvider::failing("should not be reached"),
        vec![chunk("c0", "retrieval augmented generation")],
    );

    let response = answer(&generator, "unrelated question", 5, 1.1).unwrap();

    assert_eq!(response.answer, NO_CONTEXT_ANSWER);
    assert!(response.sources.is_empty());
}

#[test]
fn empty_index_answers_no_context_without_calling_the_model() {
    let generator = generator_over(MockLlmProvider::failing("should not be reached"), vec![]);

    let response = answer(&generator, "anything", 5, 0.0).unwrap();

    assert_eq!(response.answer, NO_CONTEXT_ANSWER);
    assert!(response.sources.is_empty());
}

#[test]
fn invalid_queries_fail_validation_before_any_generation() {
    let generator = generator_over(
        MockLlmProvider::failing("should not be reached"),
        vec![chunk("c0", "content")],
    );

    assert!(matches!(
        answer(&generator, "   ", 5, 0.0),
        Err(GenerationError::Retrieval(RetrievalError::EmptyQuery))
    ));
}

#[test]
fn model_failures_surface_as_llm_errors() {
    let generator = generator_over(
        MockLlmProvider::failing("rate limited"),
        vec![chunk("c0", "retrieval augmented generation")],
    );

    match answer(&generator, "retrieval augmented generation", 1, 0.0) {
        Err(GenerationError::Llm(LlmError::Provider { message, .. })) => {
            assert_eq!(message, "rate limited");
        }
        other => panic!("expected an Llm error, got {other:?}"),
    }
}

#[test]
fn handle_applies_request_overrides_and_generator_defaults() {
    let generator = generator_over(
        MockLlmProvider::with_reply("grounded answer"),
        vec![
            chunk("c0", "retrieval augmented generation"),
            chunk("c1", "cosine similarity vector search"),
        ],
    )
    // A threshold of the generator that no chunk can reach...
    .with_min_score(score(1.1));

    // ...applies when the request does not override it...
    let request = AnswerRequest::new("retrieval augmented generation", 2);
    let response = handle(&generator, &request).unwrap();
    assert_eq!(response.answer, NO_CONTEXT_ANSWER);

    // ...and is overridden when it does.
    let request = request.with_min_score(score(0.99));
    let response = handle(&generator, &request).unwrap();
    assert_eq!(response.answer, "grounded answer");
    assert_eq!(response.sources.len(), 1);
    assert_eq!(response.sources[0].id, "c0");
}

#[test]
fn response_serializes_answer_and_sources() {
    let generator = generator_over(
        MockLlmProvider::with_reply("an answer"),
        vec![chunk("c0", "hello world")],
    );

    let response = handle(&generator, &AnswerRequest::new("hello world", 1)).unwrap();

    let json = response_to_json(&response);
    assert!(json.contains("\"answer\":\"an answer\""));
    assert!(json.contains("\"sources\""));
    assert!(json.contains("\"id\":\"c0\""));
    assert!(json.contains("\"score\""));
}

#[test]
fn request_defaults_apply_when_fields_are_omitted() {
    let request = request_from_json(r#"{"query": "hi"}"#);
    assert_eq!(request.query, "hi");
    assert_eq!(request.top_k, DEFAULT_TOP_K);
    assert_eq!(request.min_score, None);

    let request = request_from_json(r#"{"query": "hi", "min_score": 0.5}"#);
    assert_eq!(request.min_score, Some(score(0.5)));
}

#[test]
fn answers_grounded_in_retrieved_context_with_sources() {
    let generator = generator(MockLlmProvider::new());

    let response = answer(&generator, "cosine similarity vector search", 2, 0.0)
        .expect("generation succeeds");

    assert!(response.answer.contains("cosine similarity vector search"));
    assert!(response.answer.contains("Question: cosine similarity vector search"));

    // Sources reference the chunks the prompt was built from, most relevant first.
    assert_eq!(response.sources.len(), 2);
    assert_eq!(response.sources[0].id, "c2");
    assert_eq!(response.sources[0].source, "corpus");
    assert!((value(response.sources[0].score) - 1.0).abs() < 1e-6);
    assert!(value(response.sources[1].score) <= value(response.sources[0].score));
}

#[test]
fn low_confidence_chunks_are_excluded_from_context() {
    let generator = generator(MockLlmProvider::new());

    let response = answer(&generator, "retrieval augmented generation", 3, 0.99).unwrap();

    assert_eq!(response.sources.len(), 1);
    assert_eq!(response.sources[0].id, "c0");
    assert!(!response.answer.contains("fixed size character chunking"));
    assert!(!response.answer.contains("cosine similarity vector search"));
}

#[test]
fn refuses_to_answer_when_no_chunk_is_confident_enough() {
    let generator = generator(MockLlmProvider::failing("should not be reached"));

    let response = answer(&generator, "anything at all", 3, 1.1).unwrap();

    assert_eq!(response.answer, NO_CONTEXT_ANSWER);
    assert!(response.sources.is_empty());
}

#[test]
fn handle_returns_the_endpoint_response_shape() {
    let generator = generator(MockLlmProvider::with_reply("a grounded answer"));

    // A request that omits everything but the query falls back to the defaults.
    let request = request_from_json(r#"{"query": "retrieval augmented generation"}"#);
    let response = handle(&generator, &request).unwrap();

    assert_eq!(response.answer, "a grounded answer");
    assert!(!response.sources.is_empty());

    // Round-trips through JSON.
    let json = response_to_json(&response);
    let decoded = response_from_json(&json);
    assert_eq!(decoded, response);
}

#[test]
fn invalid_queries_and_model_failures_surface_as_errors() {
    let generator = generator(MockLlmProvider::failing("model offline"));

    // Validation failures come through as retrieval errors, before any generation.
    assert!(matches!(
        answer(&generator, "   ", 5, 0.0),
        Err(GenerationError::Retrieval(RetrievalError::EmptyQuery))
    ));

    // With relevant context retrieved, the model failure itself surfaces.
    assert!(matches!(
        answer(&generator, "retrieval augmented generation", 1, 0.0),
        Err(GenerationError::Llm(_))
    ));
}

#[test]
fn prompt_has_exact_text() {
    assert_eq!(
        build_prompt("why?", &[hit("d#3", "because", 0.0625)]),
        "Answer the question using only the numbered context passages below. \
         If the passages do not contain the answer, say so instead of guessing.\n\n\
         Context:\n[1] d#3 (score 0.062)\nbecause\n\nQuestion: why?\nAnswer:"
    );
    assert_eq!(build_prompt("", &[]), format!("{INSTRUCTION}Question: \nAnswer:"));
}

#[test]
fn eleventh_passage_is_numbered_eleven() {
    let context: Vec<SearchResult> = (0..11).map(|n| hit("x", "y", n as f32)).collect();
    let prompt = build_prompt("q", &context);
    assert!(prompt.contains("[10] x (score 9.000)\ny\n\n[11] x (score 10.000)\ny\n\nQuestion"));
}

#[test]
fn context_keeps_the_hits_that_reach_the_threshold_in_order() {
    let hits = vec![
        hit("a", "", 0.9),
        hit("b", "", 0.49),
        hit("c", "", 0.5),
        hit("d", "", f32::NAN),
        hit("e", "", 0.7),
    ];
    let ids = |hits: Vec<SearchResult>| -> Vec<String> {
        hits.into_iter().map(|hit| hit.chunk.id).collect()
    };
    assert_eq!(ids(select_context(hits.clone(), score(0.5))), ["a", "c", "e"]);
    // A stricter threshold selects from what a laxer one selects.
    let lax = select_context(hits.clone(), score(0.1));
    assert_eq!(ids(select_context(lax, score(0.7))), ids(select_context(hits.clone(), score(0.7))));
    assert!(select_context(hits, score(f32::NAN)).is_empty());
}

#[test]
fn low_confidence_hit_changes_nothing() {
    let with = vec![hit("a", "x", 0.9), hit("low", "secret", 0.1), hit("b", "y", 0.8)];
    let without = vec![hit("a", "x", 0.9), hit("b", "y", 0.8)];
    let generator = generator_over(MockLlmProvider::new(), vec![]);
    let respond = |hits| {
        generator.respond(generator.answer("q", 3, score(0.5)), Ok(hits)).unwrap()
    };
    assert_eq!(respond(with), respond(without));
}

#[test]
fn steps_say_what_to_retrieve_and_what_to_ask() {
    let generator = generator_over(MockLlmProvider::new(), vec![]);
    assert_eq!(generator.min_score(), Score::from_bits(DEFAULT_MIN_SCORE));
    assert_eq!(value(generator.min_score()), 0.0);
    assert_eq!(generator.llm().generate("echo").unwrap(), "echo");

    let step = generator.handle(&AnswerRequest::new("q", 7));
    assert_eq!((step.query.as_str(), step.top_k), ("q", 7));
    assert_eq!(value(step.min_score), 0.0);

    let mut found = hit("doc#4", "text", 0.75);
    found.chunk.metadata.chunk_index = 4;
    match step.clone().resume(Ok(vec![found.clone(), hit("neg", "no", -0.25)])) {
        AnswerStep::Generate(next) => {
            assert_eq!(next.prompt, build_prompt("q", &[found.clone()]));
            assert_eq!(next.sources, vec![SourceRef::from(&found)]);
            assert_eq!(next.sources[0].chunk_index, 4);
            let failed = next.clone().resume(Err(LlmError::EmptyPrompt));
            assert!(matches!(failed, Err(GenerationError::Llm(LlmError::EmptyPrompt))));
            let response = next.resume(Ok("done".to_string())).unwrap();
            assert_eq!(response.answer, "done");
            assert_eq!(response.sources[0].id, "doc#4");
        }
        other => panic!("expected a prompt, got {other:?}"),
    }
    assert!(matches!(
        step.clone().resume(Ok(vec![hit("neg", "no", -0.25)])),
        AnswerStep::Finished(Ok(response)) if response.answer == NO_CONTEXT_ANSWER
    ));
    assert!(matches!(
        step.resume(Err(RetrievalError::VectorStore("full".to_string()))),
        AnswerStep::Finished(Err(GenerationError::Retrieval(RetrievalError::VectorStore(_))))
    ));
}

#[test]
fn default_number_of_chunks_is_five() {
    assert_eq!(default_top_k(), 5);
    let request = AnswerRequest::from_fields("q".to_string(), Some(2), None);
    assert_eq!(request, AnswerRequest::new("q", 2));
}

#[test]
fn generation_errors_describe_themselves() {
    let error = GenerationError::from(RetrievalError::EmptyQuery);
    assert_eq!(error.message(), RetrievalError::EmptyQuery.message());
    let error = GenerationError::from(LlmError::Provider {
        provider: "mock".to_string(),
        message: "down".to_string(),
    });
    assert_eq!(error.message(), "failed to generate an answer: llm provider `mock` failed: down");
}

#[test]
fn echoed_answer_is_the_prompt() {
    let generator = generator_over(MockLlmProvider::new(), vec![]);
    let kept = hit("a#0", "alpha", 0.5);
    let step = generator.answer("  ", 2, score(0.5));
    let response = generator.respond(step, Ok(vec![kept.clone(), hit("b#0", "beta", 0.25)]));
    assert_eq!(response.unwrap().answer, build_prompt("  ", &[kept]));
}

#[test]
fn matching_chunk_grounds_the_answer() {
    let generator = generator_over(
        MockLlmProvider::new(),
        vec![chunk("c0", "chunking splits documents")],
    );
    let response = answer(&generator, "chunking splits documents", 1, 0.5).unwrap();
    assert!(!response.answer.is_empty());
    assert_eq!(response.sources[0].id, "c0");
}

#[test]
fn values_that_hold_scores_compare_them_as_numbers() {
    let request = |min_score: f32| AnswerRequest::new("q", 1).with_min_score(score(min_score));
    assert_eq!(request(0.0), request(-0.0));
    assert_ne!(request(f32::NAN), request(f32::NAN));
    assert_ne!(request(0.5), request(0.25));
    assert_eq!(hit("a", "x", 0.0), hit("a", "x", -0.0));
    assert_ne!(hit("a", "x", f32::NAN), hit("a", "x", f32::NAN));
    let source = |similarity: f32| SourceRef::from(&hit("a", "x", similarity));
    assert_eq!(source(-0.0), source(0.0));
    assert_ne!(source(f32::NAN), source(f32::NAN));
}

#[test]
fn extra_metadata_stays_with_the_context() {
    let mut found = hit("a", "x", 0.5);
    found.chunk.metadata.extra.insert("author".to_string(), "someone".to_string());
    let context = select_context(vec![found.clone()], score(0.0));
    assert_eq!(context, vec![found]);
    assert_eq!(context[0].chunk.metadata.extra["author"], "someone");
}
