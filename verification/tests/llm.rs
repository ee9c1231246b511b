//! The mock language model.

use rag_service::{LlmError, LlmProvider, MockLlmProvider};

#[test]
fn echoes_the_prompt_by_default() {
    let provider = MockLlmProvider::new();
    let answer = provider.generate("What is RAG?").unwrap();
    assert_eq!(answer, "What is RAG?");
}

#[test]
fn canned_reply_answers_every_prompt() {
    let provider = MockLlmProvider::with_reply("42");
    assert_eq!(provider.generate("first").unwrap(), "42");
    assert_eq!(provider.generate("second").unwrap(), "42");
}

#[test]
fn empty_or_whitespace_prompt_is_rejected() {
    let provider = MockLlmProvider::new();
    assert!(matches!(provider.generate(""), Err(LlmError::EmptyPrompt)));
    assert!(matches!(provider.generate("  \t\n"), Err(LlmError::EmptyPrompt)));
}

#[test]
fn failing_provider_surfaces_a_provider_error() {
    let provider = MockLlmProvider::failing("rate limited");

    match provider.generate("hi") {
        Err(LlmError::Provider { provider, message }) => {
            assert_eq!(provider, "mock");
            assert_eq!(message, "rate limited");
        }
        other => panic!("expected Provider error, got {other:?}"),
    }
}

#[test]
fn usable_as_a_trait_object() {
    let provider: Box<dyn LlmProvider> = Box::new(MockLlmProvider::with_reply("boxed"));
    assert_eq!(provider.generate("prompt").unwrap(), "boxed");
}

#[test]
fn canned_reply_does_not_excuse_a_blank_prompt() {
    let provider = MockLlmProvider::with_reply("42");
    assert!(matches!(provider.generate(" \u{3000}"), Err(LlmError::EmptyPrompt)));
}

#[test]
fn failing_provider_fails_on_a_blank_prompt_too() {
    let provider = MockLlmProvider::failing("down");
    assert!(matches!(
        provider.generate(""),
        Err(LlmError::Provider { message, .. }) if message == "down"
    ));
}

#[test]
fn default_and_clone_behave_like_their_models() {
    assert_eq!(MockLlmProvider::default().generate("same").unwrap(), "same");
    let replying = MockLlmProvider::with_reply("yes");
    assert_eq!(replying.clone().generate("same").unwrap(), "yes");
    assert!(MockLlmProvider::failing("no").clone().generate("same").is_err());
}

#[test]
fn model_errors_describe_themselves() {
    assert_eq!(LlmError::EmptyPrompt.message(), "prompt must not be empty");
    let error = LlmError::Provider {
        provider: "mock".to_string(),
        message: "rate limited".to_string(),
    };
    assert_eq!(error.message(), "llm provider `mock` failed: rate limited");
}

#[test]
fn canned_reply_answers_a_question() {
    let provider = MockLlmProvider::with_reply("Chunking splits documents.");
    let answer = provider.generate("How does chunking work?").unwrap();
    assert_eq!(answer, "Chunking splits documents.");
}
