//! Verified core of an LLM gateway: request canonicalisation, cost-ranked
//! routing, the cache-then-cascade decision machine and its bookkeeping.
use vstd::prelude::*;

pub mod ieee;
pub mod text;
pub mod types;
pub mod cache_key;
pub mod provider;
pub mod routing;
pub mod cache;
pub mod judge;
pub mod gateway;
pub mod theme;

pub use cache::{CacheEntry, SemanticMatch, TieredCache};
pub use cache_key::cache_key;
pub use gateway::{Action, Gateway, GatewayBuilder, GatewayConfig, Run, Stage};
pub use judge::{LlmJudgeVerifier, Verification};
pub use provider::{OpenAiCompatibleProvider, ProviderCompletion, ProviderError};
pub use routing::ProviderQuote;
pub use theme::Theme;
pub use types::{
    CachePolicy, Completion, CompletionRequest, CostSummary, GatewayError, ProviderAttempt,
    RouteCandidate, RouteTrace, SemanticReuse, Usage,
};

verus! {
} // verus!
