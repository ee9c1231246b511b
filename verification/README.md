# rag-service

A retrieval augmented generation service whose logic is verified with Verus.

`src/` is the verified library:

- `text` renders decimal numbers and recognises blank text.
- `score` holds similarity scores as single-precision bit patterns, with their exact
  order and their decimal text.
- `document`, `vector` and `retrieval` hold the data that retrieval deals in: chunks,
  hits, query validation and failures.
- `chunking` splits documents into overlapping chunks of bounded size.
- `embedding` holds the `EmbeddingProvider` trait and a deterministic mock provider.
- `llm` holds the `LlmProvider` trait and a deterministic mock model.
- `generation` turns hits into a grounded answer: filter by confidence, build the
  prompt, attribute the sources.
- `service` decides HTTP statuses and console output.
- `laws` states and proves what holds across these modules.

`app/` is the command-line program around it: argument handling, files, HTTP, JSON and
floating-point arithmetic.

## Embedding providers

The service is provider-agnostic: it depends on the `EmbeddingProvider` trait rather than
any single vendor. A provider turns a batch of texts into embedding vectors and reports a
clear `EmbeddingError` on failure.

```rust
use rag_service::embedding::{EmbeddingProvider, MockEmbeddingProvider};

let provider = MockEmbeddingProvider::new(8);
let vectors = provider.embed(&["hello world".to_string(), "goodbye".to_string()])?;
assert_eq!(vectors.len(), 2);
```

`MockEmbeddingProvider` is deterministic and needs no network; it can also be configured
to fail, so error-handling paths can be exercised. Its vectors are whole numbers; the
program scales them to unit length.

## What is trusted

One function of the standard library is trusted: `Hash::hash` on `str` is taken to feed a
hasher a sequence of writes that depends on the text alone (`embedding::mock`).
