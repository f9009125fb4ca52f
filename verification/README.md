# adaptive-llm-gateway

A provider-agnostic LLM gateway whose decision logic is verified with Verus.
For each prompt the gateway canonicalises the request into a versioned
SHA-256 cache key, answers from the exact cache, then from the semantic cache
when the request permits safe approximate reuse, and otherwise walks a
cost-ranked cascade of providers: the cheapest compatible provider drafts,
an optional judge approves or rejects the draft, and retryable failures and
rejections escalate to the next provider. Every answer carries its route,
attempts, token counts and spend.

## Layout

- `src/` — the verified library.
  - `types.rs` — requests, completions, costs, route traces, errors.
  - `cache_key.rs` — canonical JSON of a request and its cache key.
  - `routing.rs` — which providers serve a model and the order they are tried.
  - `gateway.rs` — configuration, builder, and the decision machine
    (`start`, `on_exact`, `on_similar`, `on_quotes`, `on_draft`,
    `on_verdict`, `on_price`, `on_stored`).
  - `judge.rs` — the LLM judge: its prompt and how its reply is read.
  - `provider.rs` — provider answers and failures, OpenAI-compatible
    endpoint settings and reply handling.
  - `cache.rs` — cache entries, semantic match selection, durable-tier keys.
  - `ieee.rs` — ordering and comparison of IEEE-754 values by bit pattern.
  - `text.rs` — string helpers (line endings, hex, decimal, trimming).
  - `theme.rs` — terminal styling of the walkthrough.
- `app/` — the asynchronous shell: provider, cache and verifier traits, the
  loop that performs the machine's actions, HTTP transport, Redis and
  pgvector tiers, the Axum server and the `gateway` command line.
- `tests/` — tests of the library, including end-to-end runs of the machine
  against in-memory fakes.

Numbers that are IEEE-754 values to callers (prices, similarities,
temperature, embeddings) cross into the library as bit patterns; the library
orders and moves them, and the application does the arithmetic.
