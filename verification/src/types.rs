//! The request, completion and error types that cross the gateway.
//!
//! Numbers that callers supply or read as IEEE-754 values (temperature,
//! embeddings, prices, similarities) are held here as their bit patterns:
//! the library orders and moves them but never computes with them.
use vstd::prelude::*;
use vstd::string::*;

verus! {

/// Whether a request permits reusing an answer to a *similar* request.
#[derive(Clone, Copy, Debug, PartialEq, Eq, Structural)]
pub enum SemanticReuse {
    /// Only exact request matches are reused.
    Disabled,
    /// Near matches may be reused: the caller declares the task read-only and
    /// safe to answer approximately.
    SafeReadOnly,
}

/// Reuse contract of a request: answers are only shared between requests with
/// the same compatibility key, and near matches only when permitted.
#[derive(Clone, Debug)]
pub struct CachePolicy {
    pub compatibility_key: String,
    pub semantic_reuse: SemanticReuse,
}

impl CachePolicy {
    /// Exact reuse only, with an empty compatibility key.
    pub fn exact_only() -> (p: CachePolicy)
        ensures
            p.compatibility_key@ == Seq::<char>::empty(),
            p.semantic_reuse == SemanticReuse::Disabled,
    {
        CachePolicy { compatibility_key: String::new(), semantic_reuse: SemanticReuse::Disabled }
    }
}

/// One prompt for the gateway, with everything that determines its answer.
#[derive(Clone, Debug)]
pub struct CompletionRequest {
    pub prompt: String,
    /// System instructions, if any.
    pub system: Option<String>,
    pub model: Option<String>,
    pub max_tokens: Option<u32>,
    /// Sampling temperature as the bit pattern of a binary32 value.
    pub temperature_bits: Option<u32>,
    /// Precomputed embedding (binary32 bit patterns) used for semantic reuse.
    pub embedding: Option<Vec<u32>>,
    /// Tenant or caller scope; answers are never shared across scopes.
    pub cache_scope: String,
    pub cache_policy: CachePolicy,
}

impl CompletionRequest {
    /// A request for `prompt` with every setting left to the gateway.
    pub fn new(prompt: String) -> (r: CompletionRequest)
        ensures
            r.prompt == prompt,
            r.system is None,
            r.model is None,
            r.max_tokens is None,
            r.temperature_bits is None,
            r.embedding is None,
            r.cache_scope@ == Seq::<char>::empty(),
            r.cache_policy.compatibility_key@ == Seq::<char>::empty(),
            r.cache_policy.semantic_reuse == SemanticReuse::Disabled,
    {
        CompletionRequest {
            prompt,
            system: None,
            model: None,
            max_tokens: None,
            temperature_bits: None,
            embedding: None,
            cache_scope: String::new(),
            cache_policy: CachePolicy::exact_only(),
        }
    }

    /// Asks for a specific model.
    pub fn model(self, model: &str) -> (r: CompletionRequest)
        ensures
            r.model matches Some(m) && m@ == model@,
            r.prompt == self.prompt,
            r.system == self.system,
            r.max_tokens == self.max_tokens,
            r.temperature_bits == self.temperature_bits,
            r.embedding == self.embedding,
            r.cache_scope == self.cache_scope,
            r.cache_policy == self.cache_policy,
    {
        CompletionRequest { model: Some(String::from_str(model)), ..self }
    }

    /// Supplies a precomputed embedding (binary32 bit patterns).
    pub fn embedding(self, embedding: Vec<u32>) -> (r: CompletionRequest)
        ensures
            r.embedding == Some(embedding),
            r.prompt == self.prompt,
            r.system == self.system,
            r.model == self.model,
            r.max_tokens == self.max_tokens,
            r.temperature_bits == self.temperature_bits,
            r.cache_scope == self.cache_scope,
            r.cache_policy == self.cache_policy,
    {
        CompletionRequest { embedding: Some(embedding), ..self }
    }

    /// Sets the reuse contract.
    pub fn cache_policy(self, policy: CachePolicy) -> (r: CompletionRequest)
        ensures
            r.cache_policy == policy,
            r.prompt == self.prompt,
            r.system == self.system,
            r.model == self.model,
            r.max_tokens == self.max_tokens,
            r.temperature_bits == self.temperature_bits,
            r.embedding == self.embedding,
            r.cache_scope == self.cache_scope,
    {
        CompletionRequest { cache_policy: policy, ..self }
    }
}

/// Token counts reported for one completion.
#[derive(Clone, Copy, Debug, PartialEq, Eq, Structural)]
pub struct Usage {
    pub prompt_tokens: u32,
    pub completion_tokens: u32,
}

/// Dollar amounts of one request, each the bit pattern of a binary64 value.
#[derive(Clone, Copy, Debug, PartialEq, Eq, Structural)]
pub struct CostSummary {
    pub input_usd_bits: u64,
    pub output_usd_bits: u64,
    pub verification_usd_bits: u64,
    pub total_usd_bits: u64,
    pub avoided_usd_bits: u64,
}

impl CostSummary {
    /// Every amount zero (the all-zero pattern is +0.0).
    pub open spec fn zero_spec() -> CostSummary {
        CostSummary {
            input_usd_bits: 0,
            output_usd_bits: 0,
            verification_usd_bits: 0,
            total_usd_bits: 0,
            avoided_usd_bits: 0,
        }
    }

    /// Every amount zero.
    pub fn zero() -> (c: CostSummary)
        ensures
            c == CostSummary::zero_spec(),
    {
        CostSummary {
            input_usd_bits: 0,
            output_usd_bits: 0,
            verification_usd_bits: 0,
            total_usd_bits: 0,
            avoided_usd_bits: 0,
        }
    }
}

/// One provider the router considered, with its quoted prices per thousand
/// tokens (binary64 bit patterns).
#[derive(Clone, Debug)]
pub struct RouteCandidate {
    pub provider: String,
    pub model: String,
    pub input_cost_per_1k_usd_bits: u64,
    pub output_cost_per_1k_usd_bits: u64,
}

/// One step of the cascade: who was asked and what came of it.
#[derive(Clone, Debug)]
pub struct ProviderAttempt {
    pub provider: String,
    pub outcome: String,
}

/// How a completion was produced.
#[derive(Clone, Debug)]
pub struct RouteTrace {
    /// `miss`, `exact` or `semantic`.
    pub cache: String,
    /// Similarity of a semantic hit (binary32 bit pattern).
    pub semantic_similarity_bits: Option<u32>,
    pub candidates: Vec<RouteCandidate>,
    pub attempts: Vec<ProviderAttempt>,
}

/// An answer, with its provenance and cost.
#[derive(Clone, Debug)]
pub struct Completion {
    /// A random (version 4) UUID as a 128-bit number.
    pub id: u128,
    pub text: String,
    pub model: String,
    pub provider: String,
    pub usage: Usage,
    pub cached: bool,
    pub cache_kind: Option<String>,
    pub cost: CostSummary,
    pub route: RouteTrace,
}

/// Why the gateway could not answer.
#[derive(Clone, Debug)]
pub enum GatewayError {
    NoProvider(String),
    ProvidersFailed(String),
    Cache(String),
    Configuration(String),
}

/// The message a [`GatewayError`] displays.
pub open spec fn gateway_error_text(e: GatewayError) -> Seq<char> {
    match e {
        GatewayError::NoProvider(m) => "no provider is configured for model `"@ + m@ + "`"@,
        GatewayError::ProvidersFailed(m) => "all providers failed: "@ + m@,
        GatewayError::Cache(m) => "cache failure: "@ + m@,
        GatewayError::Configuration(m) => "invalid configuration: "@ + m@,
    }
}

impl GatewayError {
    /// The human-readable message of this error.
    pub fn to_string(&self) -> (s: String)
        ensures
            s@ == gateway_error_text(*self),
    {
        match self {
            GatewayError::NoProvider(m) => {
                let mut s = String::from_str("no provider is configured for model `");
                s.append(m.as_str());
                s.append("`");
                s
            },
            GatewayError::ProvidersFailed(m) => {
                let mut s = String::from_str("all providers failed: ");
                s.append(m.as_str());
                s
            },
            GatewayError::Cache(m) => {
                let mut s = String::from_str("cache failure: ");
                s.append(m.as_str());
                s
            },
            GatewayError::Configuration(m) => {
                let mut s = String::from_str("invalid configuration: ");
                s.append(m.as_str());
                s
            },
        }
    }
}

} // verus!
