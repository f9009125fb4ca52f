//! The gateway: its configuration, its builder, and the decision machine that
//! answers one request from the exact cache, the semantic cache, or a
//! cost-ranked cascade of providers with optional verification.
//!
//! The machine never waits on anything itself. Each handler takes the run so
//! far and the outcome of the last piece of outside work, and returns the
//! next run and the next [`Action`]; the embedding application performs that
//! action (a cache read or write, a provider or verifier call, pricing) and
//! hands its outcome to the matching handler, until the action is
//! [`Action::Finish`].
use vstd::prelude::*;
use vstd::string::*;

use crate::cache::{copy_bits, copy_policy, CacheEntry, SemanticMatch};
use crate::cache_key::{cache_key, cache_key_text};
use crate::judge::Verification;
use crate::provider::{ProviderCompletion, ProviderError};
use crate::routing::{is_cascade, rank, ProviderQuote};
use crate::text::{join, join_with, views};
use crate::types::{
    Completion, CompletionRequest, CostSummary, GatewayError, ProviderAttempt, RouteCandidate,
    RouteTrace, SemanticReuse, Usage,
};

verus! {

/// Behavioural settings of a gateway.
#[derive(Clone, Copy, Debug)]
pub struct GatewayConfig {
    /// Reuse a stored answer whose embedding has at least this cosine
    /// similarity (binary32 bit pattern).
    pub semantic_cache_threshold_bits: u32,
    /// Consult the semantic cache at all (still only for requests that
    /// permit it and carry an embedding).
    pub semantic_cache_enabled: bool,
}

impl Default for GatewayConfig {
    /// Semantic reuse on, at similarity 0.96.
    fn default() -> (c: GatewayConfig)
        ensures
            c.semantic_cache_threshold_bits == 0x3F75_C28F,
            c.semantic_cache_enabled,
    {
        GatewayConfig { semantic_cache_threshold_bits: 0x3F75_C28F, semantic_cache_enabled: true }
    }
}

/// Collects the parts of a gateway: providers in registration order, an
/// optional cache and an optional draft checker.
pub struct GatewayBuilder<P, C, V> {
    config: GatewayConfig,
    providers: Vec<P>,
    cache: Option<C>,
    checker: Option<V>,
}

impl<P, C, V> GatewayBuilder<P, C, V> {
    /// The settings the gateway will have.
    pub closed spec fn spec_config(&self) -> GatewayConfig {
        self.config
    }

    /// The providers registered so far, in order.
    pub closed spec fn spec_providers(&self) -> Seq<P> {
        self.providers@
    }

    /// The cache, if one is set.
    pub closed spec fn spec_cache(&self) -> Option<C> {
        self.cache
    }

    /// The draft checker, if one is set.
    pub closed spec fn spec_checker(&self) -> Option<V> {
        self.checker
    }

    /// Registers one more provider.
    pub fn provider(self, provider: P) -> (b: GatewayBuilder<P, C, V>)
        ensures
            b.spec_providers() == self.spec_providers().push(provider),
            b.spec_config() == self.spec_config(),
            b.spec_cache() == self.spec_cache(),
            b.spec_checker() == self.spec_checker(),
    {
        let mut b = self;
        b.providers.push(provider);
        b
    }

    /// Sets the cache.
    pub fn cache(self, cache: C) -> (b: GatewayBuilder<P, C, V>)
        ensures
            b.spec_cache() == Some(cache),
            b.spec_providers() == self.spec_providers(),
            b.spec_config() == self.spec_config(),
            b.spec_checker() == self.spec_checker(),
    {
        GatewayBuilder { cache: Some(cache), ..self }
    }

    /// Sets the checker of drafts; a rejected draft makes the gateway continue
    /// with the next provider of the cascade.
    pub fn with_verifier(self, checker: V) -> (b: GatewayBuilder<P, C, V>)
        ensures
            b.spec_checker() == Some(checker),
            b.spec_providers() == self.spec_providers(),
            b.spec_config() == self.spec_config(),
            b.spec_cache() == self.spec_cache(),
    {
        GatewayBuilder { checker: Some(checker), ..self }
    }

    /// The gateway, once at least one provider is registered.
    pub fn build(self) -> (r: Result<Gateway<P, C, V>, GatewayError>)
        ensures
            self.spec_providers().len() == 0 ==> (r matches Err(GatewayError::Configuration(m)) && m@
                == "configure at least one provider"@),
            self.spec_providers().len() > 0 ==> (r matches Ok(g) && g.spec_config() == self.spec_config()
                && g.spec_providers() == self.spec_providers() && g.spec_cache() == self.spec_cache() && g.spec_checker()
                == self.spec_checker()),
    {
        if self.providers.len() == 0 {
            return Err(
                GatewayError::Configuration(String::from_str("configure at least one provider")),
            );
        }
        Ok(
            Gateway {
                config: self.config,
                providers: self.providers,
                cache: self.cache,
                checker: self.checker,
            },
        )
    }
}

/// Routes each request to the cheapest compatible provider and falls back
/// along the cascade on retryable failures and rejected drafts.
pub struct Gateway<P, C, V> {
    config: GatewayConfig,
    providers: Vec<P>,
    cache: Option<C>,
    checker: Option<V>,
}

impl<P, C, V> Gateway<P, C, V> {
    /// A gateway always has at least one provider.
    #[verifier::type_invariant]
    spec fn has_providers(self) -> bool {
        self.providers@.len() > 0
    }

    /// The gateway's settings.
    pub closed spec fn spec_config(&self) -> GatewayConfig {
        self.config
    }

    /// The providers, in registration order.
    pub closed spec fn spec_providers(&self) -> Seq<P> {
        self.providers@
    }

    /// The cache, if there is one.
    pub closed spec fn spec_cache(&self) -> Option<C> {
        self.cache
    }

    /// The draft checker, if there is one.
    pub closed spec fn spec_checker(&self) -> Option<V> {
        self.checker
    }

    /// The gateway's settings.
    pub fn config(&self) -> (c: &GatewayConfig)
        ensures
            *c == self.spec_config(),
    {
        &self.config
    }

    /// The providers, in registration order; never empty.
    pub fn providers(&self) -> (p: &Vec<P>)
        ensures
            p@ == self.spec_providers(),
            p@.len() > 0,
    {
        proof {
            use_type_invariant(self);
        }
        &self.providers
    }

    /// The cache, if there is one.
    pub fn cache_tier(&self) -> (c: &Option<C>)
        ensures
            *c == self.spec_cache(),
    {
        &self.cache
    }

    /// The draft checker, if there is one.
    pub fn checker(&self) -> (v: &Option<V>)
        ensures
            *v == self.spec_checker(),
    {
        &self.checker
    }
}

/// Where a run stands: which outcome it waits for.
#[derive(Clone, Copy, Debug, PartialEq, Eq, Structural)]
pub enum Stage {
    ExactLookup,
    SimilarLookup,
    Quoting,
    Drafting,
    Verifying,
    Pricing,
    Storing,
    Finished,
}

/// The state of one request's run through the gateway.
pub struct Run {
    pub stage: Stage,
    /// The request's exact-cache key.
    pub key: String,
    /// The model the request is routed for.
    pub model: String,
    /// The cascade: indices of the providers to try, in order.
    pub order: Vec<usize>,
    /// The cascade as reported in the route trace.
    pub candidates: Vec<RouteCandidate>,
    /// Position in the cascade of the provider being tried.
    pub position: usize,
    /// The draft of the provider being tried.
    pub draft: Option<ProviderCompletion>,
    pub attempts: Vec<ProviderAttempt>,
    /// Retryable failures so far, as `<provider>: <message>`.
    pub errors: Vec<String>,
    /// The total spend of each verification so far (binary64 bit patterns),
    /// in order.
    pub verification_costs: Vec<u64>,
    /// The entry being written to the cache.
    pub pending: Option<CacheEntry>,
}

/// The next piece of outside work of a run.
pub enum Action {
    /// Read the exact cache at this key.
    LookupExact(String),
    /// Ask the cache for the most similar entry to this embedding, at least
    /// as similar as the threshold (binary32 bit patterns).
    LookupSimilar(Vec<u32>, u32),
    /// Quote every provider, in registration order, for this model.
    Quote(String),
    /// Ask the provider with this index for a draft of the request.
    CallProvider(usize),
    /// Ask the checker about this draft text.
    Verify(String),
    /// Price the selected draft (provider index, its token usage, and the
    /// verification spends to add) and draw a random id for the answer.
    Price(usize, Usage, Vec<u64>),
    /// Write the run's pending entry to the cache at this key.
    Store(String),
    /// The run is over with this answer.
    Finish(Result<Completion, GatewayError>),
}

/// The model a request is routed for: the requested one, else `default`.
pub open spec fn routing_model(r: CompletionRequest) -> Seq<char> {
    match r.model {
        Some(m) => m@,
        None => "default"@,
    }
}

/// The semantic cache is consulted only when enabled, when the request
/// permits safe approximate reuse, and when it carries an embedding.
pub open spec fn semantic_allowed(cfg: GatewayConfig, r: CompletionRequest) -> bool {
    &&& cfg.semantic_cache_enabled
    &&& r.cache_policy.semantic_reuse == SemanticReuse::SafeReadOnly
    &&& r.embedding is Some
}

/// `out` is the stored answer `orig` replayed from the cache of this kind:
/// same answer, marked cached, costing nothing and reporting the stored
/// total as avoided.
pub open spec fn replayed(orig: Completion, out: Completion, kind: Seq<char>, similarity: Option<u32>) -> bool {
    &&& out.id == orig.id
    &&& out.text == orig.text
    &&& out.model == orig.model
    &&& out.provider == orig.provider
    &&& out.usage == orig.usage
    &&& out.cached
    &&& out.cache_kind matches Some(k) && k@ == kind
    &&& out.cost == CostSummary { avoided_usd_bits: orig.cost.total_usd_bits, ..CostSummary::zero_spec() }
    &&& out.route.cache@ == kind
    &&& out.route.semantic_similarity_bits == similarity
    &&& out.route.candidates@.len() == 0
    &&& out.route.attempts@.len() == 0
}

/// A replayed answer reports as avoided exactly the stored answer's total
/// spend (input, output and verification together), spends nothing itself,
/// and keeps the stored answer's text, model, provider, usage and id.
pub proof fn replay_avoids_stored_total(orig: Completion, out: Completion, kind: Seq<char>, similarity: Option<u32>)
    requires
        replayed(orig, out, kind, similarity),
    ensures
        out.cost.avoided_usd_bits == orig.cost.total_usd_bits,
        out.cost.total_usd_bits == 0,
        out.cost.input_usd_bits == 0,
        out.cost.output_usd_bits == 0,
        out.cost.verification_usd_bits == 0,
        out.cached,
        out.id == orig.id,
        out.text == orig.text,
        out.model == orig.model,
        out.provider == orig.provider,
        out.usage == orig.usage,
        out.cache_kind matches Some(k) && k@ == kind,
{
}

/// `a` records that `provider` ended with `outcome`.
pub open spec fn attempt_is(a: ProviderAttempt, provider: Seq<char>, outcome: Seq<char>) -> bool {
    a.provider@ == provider && a.outcome@ == outcome
}

/// The name of the provider being tried.
pub open spec fn current_name(run: Run) -> Seq<char> {
    run.candidates@[run.position as int].provider@
}

/// `out` moves on from `run` along the cascade after a retryable failure or
/// a rejected draft: to the next provider, or, when none is left, to the end
/// with every retryable failure reported.
pub open spec fn moves_on(run: Run, out: (Run, Action)) -> bool {
    &&& out.0.order == run.order
    &&& out.0.candidates == run.candidates
    &&& out.0.errors == run.errors
    &&& out.0.attempts == run.attempts
    &&& out.0.verification_costs == run.verification_costs
    &&& if run.position + 1 < run.order@.len() {
        &&& out.0.stage == Stage::Drafting
        &&& out.0.position == run.position + 1
        &&& out.1 == Action::CallProvider(run.order@[run.position + 1])
    } else {
        &&& out.0.stage == Stage::Finished
        &&& out.1 matches Action::Finish(Err(GatewayError::ProvidersFailed(m)))
        &&& m@ == join(views(run.errors@), "; "@)
    }
}

/// `out` asks for the selected draft of `run` to be priced.
pub open spec fn asks_price(run: Run, out: (Run, Action)) -> bool {
    &&& out.0.stage == Stage::Pricing
    &&& out.0.order == run.order
    &&& out.0.candidates == run.candidates
    &&& out.0.position == run.position
    &&& out.0.errors == run.errors
    &&& out.0.verification_costs == run.verification_costs
    &&& out.0.draft == run.draft
    &&& out.0.attempts@.len() == run.attempts@.len() + 1
    &&& out.0.attempts@.take(run.attempts@.len() as int) == run.attempts@
    &&& attempt_is(out.0.attempts@.last(), current_name(run), "selected"@)
    &&& out.1 matches Action::Price(i, u, costs) && i == run.order@[run.position as int] && u
        == run.draft->0.usage && costs@ == run.verification_costs@
}

/// `run` is inside the cascade with index `order[position]` being tried.
pub open spec fn in_cascade(provider_count: int, run: Run) -> bool {
    &&& run.order@.len() == run.candidates@.len()
    &&& run.position < run.order@.len()
    &&& forall|i: int| 0 <= i < run.order@.len() ==> #[trigger] run.order@[i] < provider_count
}

/// What each stage needs of a run: inside the cascade while a provider is
/// being tried, with its draft once there is one, with the entry to write
/// while storing.
pub open spec fn run_ok(provider_count: int, run: Run) -> bool {
    match run.stage {
        Stage::Drafting => in_cascade(provider_count, run),
        Stage::Verifying => in_cascade(provider_count, run) && run.draft is Some,
        Stage::Pricing => in_cascade(provider_count, run) && run.draft is Some,
        Stage::Storing => run.pending is Some,
        _ => true,
    }
}

/// A fresh, empty run at a stage.
fn empty_run(stage: Stage, key: String, model: String) -> (run: Run)
    ensures
        run.stage == stage,
        run.key == key,
        run.model == model,
        run.order@.len() == 0,
        run.candidates@.len() == 0,
        run.position == 0,
        run.draft is None,
        run.attempts@.len() == 0,
        run.errors@.len() == 0,
        run.verification_costs@.len() == 0,
        run.pending is None,
{
    Run {
        stage,
        key,
        model,
        order: Vec::new(),
        candidates: Vec::new(),
        position: 0,
        draft: None,
        attempts: Vec::new(),
        errors: Vec::new(),
        verification_costs: Vec::new(),
        pending: None,
    }
}

/// The model a request is routed for (see [`routing_model`]).
pub fn route_model(request: &CompletionRequest) -> (m: String)
    ensures
        m@ == routing_model(*request),
{
    match &request.model {
        Some(m) => m.clone(),
        None => String::from_str("default"),
    }
}

/// A stored answer replayed from the cache of kind `kind`.
fn replay(orig: Completion, kind: &str, similarity: Option<u32>) -> (out: Completion)
    ensures
        replayed(orig, out, kind@, similarity),
{
    let avoided = orig.cost.total_usd_bits;
    Completion {
        cached: true,
        cache_kind: Some(String::from_str(kind)),
        cost: CostSummary {
            input_usd_bits: 0,
            output_usd_bits: 0,
            verification_usd_bits: 0,
            total_usd_bits: 0,
            avoided_usd_bits: avoided,
        },
        route: RouteTrace {
            cache: String::from_str(kind),
            semantic_similarity_bits: similarity,
            candidates: Vec::new(),
            attempts: Vec::new(),
        },
        ..orig
    }
}

/// A copy of a list of binary64 bit patterns.
fn copy_costs(v: &Vec<u64>) -> (c: Vec<u64>)
    ensures
        c@ == v@,
{
    let mut c: Vec<u64> = Vec::new();
    let mut i: usize = 0;
    while i < v.len()
        invariant
            i <= v@.len(),
            c@ == v@.take(i as int),
        decreases v.len() - i,
    {
        c.push(v[i]);
        i = i + 1;
    }
    assert(v@.take(v@.len() as int) == v@);
    c
}

/// `left: right`.
fn labelled(left: &str, right: &str) -> (s: String)
    ensures
        s@ == left@ + ": "@ + right@,
{
    let mut s = String::from_str(left);
    s.append(": ");
    s.append(right);
    s
}

/// An attempt record.
fn attempt(provider: String, outcome: String) -> (a: ProviderAttempt)
    ensures
        a.provider == provider,
        a.outcome == outcome,
{
    ProviderAttempt { provider, outcome }
}

impl<P, C, V> Gateway<P, C, V> {
    /// A builder with these settings and no parts yet.
    pub fn builder(config: GatewayConfig) -> (b: GatewayBuilder<P, C, V>)
        ensures
            b.spec_config() == config,
            b.spec_providers().len() == 0,
            b.spec_cache() is None,
            b.spec_checker() is None,
    {
        GatewayBuilder { config, providers: Vec::new(), cache: None, checker: None }
    }

    /// Starts a run for `request`: read the exact cache when there is one,
    /// otherwise go straight to quoting providers for the routing model.
    pub fn start(&self, request: &CompletionRequest) -> (out: (Run, Action))
        ensures
            run_ok(self.spec_providers().len() as int, out.0),
            out.0.key@ == cache_key_text(*request),
            out.0.model@ == routing_model(*request),
            out.0.order@.len() == 0,
            out.0.candidates@.len() == 0,
            out.0.position == 0,
            out.0.draft is None,
            out.0.attempts@.len() == 0,
            out.0.errors@.len() == 0,
            out.0.verification_costs@.len() == 0,
            out.0.pending is None,
            self.spec_cache() is Some ==> out.0.stage == Stage::ExactLookup && (out.1 matches Action::LookupExact(k)
                && k@ == cache_key_text(*request)),
            self.spec_cache() is None ==> out.0.stage == Stage::Quoting && (out.1 matches Action::Quote(m)
                && m@ == routing_model(*request)),
    {
        let key = cache_key(request);
        let model = route_model(request);
        if self.cache.is_some() {
            let k = key.clone();
            (empty_run(Stage::ExactLookup, key, model), Action::LookupExact(k))
        } else {
            let m = model.clone();
            (empty_run(Stage::Quoting, key, model), Action::Quote(m))
        }
    }

    /// After an exact lookup: a failed read ends the run with a cache error,
    /// a hit ends it with the replayed answer, and a miss moves to the
    /// semantic cache when permitted, else to quoting providers.
    pub fn on_exact(&self, request: &CompletionRequest, run: Run, looked: Result<Option<CacheEntry>, String>) -> (out: (Run, Action))
        requires
            run.stage == Stage::ExactLookup,
            run.model@ == routing_model(*request),
        ensures
            run_ok(self.spec_providers().len() as int, out.0),
            out.0.key == run.key,
            out.0.model == run.model,
            out.0.order == run.order,
            out.0.attempts == run.attempts,
            out.0.errors == run.errors,
            out.0.verification_costs == run.verification_costs,
            out.0.pending == run.pending,
            looked matches Err(e) ==> out.0.stage == Stage::Finished && out.1 == Action::Finish(
                Err(GatewayError::Cache(e)),
            ),
            looked matches Ok(Some(entry)) ==> out.0.stage == Stage::Finished && (out.1 matches Action::Finish(Ok(c))
                && replayed(entry.completion, c, "exact"@, None)),
            looked is Ok && looked->Ok_0 is None && semantic_allowed(self.spec_config(), *request) ==> out.0.stage
                == Stage::SimilarLookup && (out.1 matches Action::LookupSimilar(e, t) && e@
                == request.embedding->0@ && t == self.spec_config().semantic_cache_threshold_bits),
            looked is Ok && looked->Ok_0 is None && !semantic_allowed(self.spec_config(), *request) ==> out.0.stage
                == Stage::Quoting && (out.1 matches Action::Quote(m) && m@ == routing_model(*request)),
    {
        let mut run = run;
        match looked {
            Err(e) => {
                run.stage = Stage::Finished;
                (run, Action::Finish(Err(GatewayError::Cache(e))))
            },
            Ok(Some(entry)) => {
                run.stage = Stage::Finished;
                let c = replay(entry.completion, "exact", None);
                (run, Action::Finish(Ok(c)))
            },
            Ok(None) => {
                let permitted = self.config.semantic_cache_enabled
                    && request.cache_policy.semantic_reuse == SemanticReuse::SafeReadOnly;
                match &request.embedding {
                    Some(embedding) => {
                        if permitted {
                            run.stage = Stage::SimilarLookup;
                            let e = copy_bits(embedding);
                            return (
                                run,
                                Action::LookupSimilar(e, self.config.semantic_cache_threshold_bits),
                            );
                        }
                    },
                    None => {},
                }
                run.stage = Stage::Quoting;
                let m = run.model.clone();
                (run, Action::Quote(m))
            },
        }
    }

    /// After a semantic lookup: a failed read ends the run with a cache
    /// error, a hit ends it with the replayed answer and its similarity, and a
    /// miss moves to quoting providers.
    pub fn on_similar(&self, request: &CompletionRequest, run: Run, looked: Result<Option<SemanticMatch>, String>) -> (out: (Run, Action))
        requires
            run.stage == Stage::SimilarLookup,
            run.model@ == routing_model(*request),
        ensures
            run_ok(self.spec_providers().len() as int, out.0),
            out.0.key == run.key,
            out.0.model == run.model,
            out.0.order == run.order,
            out.0.attempts == run.attempts,
            out.0.errors == run.errors,
            out.0.verification_costs == run.verification_costs,
            out.0.pending == run.pending,
            looked matches Err(e) ==> out.0.stage == Stage::Finished && out.1 == Action::Finish(
                Err(GatewayError::Cache(e)),
            ),
            looked matches Ok(Some(hit)) ==> out.0.stage == Stage::Finished && (out.1 matches Action::Finish(Ok(c))
                && replayed(hit.entry.completion, c, "semantic"@, Some(hit.similarity_bits))),
            looked matches Ok(None) ==> out.0.stage == Stage::Quoting && (out.1 matches Action::Quote(m)
                && m@ == routing_model(*request)),
    {
        let mut run = run;
        match looked {
            Err(e) => {
                run.stage = Stage::Finished;
                (run, Action::Finish(Err(GatewayError::Cache(e))))
            },
            Ok(Some(hit)) => {
                run.stage = Stage::Finished;
                let c = replay(hit.entry.completion, "semantic", Some(hit.similarity_bits));
                (run, Action::Finish(Ok(c)))
            },
            Ok(None) => {
                run.stage = Stage::Quoting;
                let m = run.model.clone();
                (run, Action::Quote(m))
            },
        }
    }

    /// With every provider's quote for the routing model: rank the cascade;
    /// with no provider serving the model the run ends, otherwise the
    /// cheapest serving provider is asked first.
    pub fn on_quotes(&self, run: Run, quotes: Vec<ProviderQuote>) -> (out: (Run, Action))
        requires
            run.stage == Stage::Quoting,
            quotes@.len() == self.spec_providers().len(),
            run.attempts@.len() == 0,
            run.errors@.len() == 0,
            run.verification_costs@.len() == 0,
        ensures
            run_ok(self.spec_providers().len() as int, out.0),
            out.0.key == run.key,
            out.0.model == run.model,
            out.0.pending == run.pending,
            out.0.attempts == run.attempts,
            out.0.errors == run.errors,
            out.0.verification_costs == run.verification_costs,
            is_cascade(quotes@, run.model@, out.0.order@),
            out.0.candidates@.len() == out.0.order@.len(),
            forall|i: int| 0 <= i < out.0.order@.len() ==> {
                let q = #[trigger] quotes@[out.0.order@[i] as int];
                let c = out.0.candidates@[i];
                &&& c.provider@ == q.name@
                &&& c.model@ == run.model@
                &&& c.input_cost_per_1k_usd_bits == q.input_cost_bits
                &&& c.output_cost_per_1k_usd_bits == q.output_cost_bits
            },
            out.0.order@.len() == 0 ==> out.0.stage == Stage::Finished && (out.1 matches Action::Finish(Err(GatewayError::NoProvider(m)))
                && m@ == run.model@),
            out.0.order@.len() > 0 ==> out.0.stage == Stage::Drafting && out.0.position == 0
                && out.1 == Action::CallProvider(out.0.order@[0]) && in_cascade(
                self.spec_providers().len() as int,
                out.0,
            ),
    {
        let mut run = run;
        let order = rank(&quotes, run.model.as_str());
        let mut candidates: Vec<RouteCandidate> = Vec::new();
        let mut i: usize = 0;
        while i < order.len()
            invariant
                is_cascade(quotes@, run.model@, order@),
                i <= order@.len(),
                candidates@.len() == i,
                forall|j: int| 0 <= j < i ==> {
                    let q = #[trigger] quotes@[order@[j] as int];
                    let c = candidates@[j];
                    &&& c.provider@ == q.name@
                    &&& c.model@ == run.model@
                    &&& c.input_cost_per_1k_usd_bits == q.input_cost_bits
                    &&& c.output_cost_per_1k_usd_bits == q.output_cost_bits
                },
            decreases order.len() - i,
        {
            let q = &quotes[order[i]];
            candidates.push(
                RouteCandidate {
                    provider: q.name.clone(),
                    model: run.model.clone(),
                    input_cost_per_1k_usd_bits: q.input_cost_bits,
                    output_cost_per_1k_usd_bits: q.output_cost_bits,
                },
            );
            i = i + 1;
        }
        if order.len() == 0 {
            run.stage = Stage::Finished;
            run.order = order;
            run.candidates = candidates;
            let m = run.model.clone();
            return (run, Action::Finish(Err(GatewayError::NoProvider(m))));
        }
        let first = order[0];
        run.stage = Stage::Drafting;
        run.order = order;
        run.candidates = candidates;
        run.position = 0;
        (run, Action::CallProvider(first))
    }

    /// Selects the current draft: records it and asks for its price.
    fn select(run: Run) -> (out: (Run, Action))
        requires
            run.position < run.order@.len(),
            run.order@.len() == run.candidates@.len(),
            run.draft is Some,
        ensures
            asks_price(run, out),
            out.0.key == run.key,
            out.0.model == run.model,
            out.0.pending == run.pending,
    {
        let ghost start = run;
        let mut run = run;
        let name = run.candidates[run.position].provider.clone();
        run.attempts.push(attempt(name, String::from_str("selected")));
        let usage = match &run.draft {
            Some(d) => d.usage,
            None => Usage { prompt_tokens: 0, completion_tokens: 0 },
        };
        let index = run.order[run.position];
        let costs = copy_costs(&run.verification_costs);
        run.stage = Stage::Pricing;
        proof {
            assert(run.attempts@.take(run.attempts@.len() - 1) =~= start.attempts@);
        }
        (run, Action::Price(index, usage, costs))
    }

    /// Moves to the next provider of the cascade, or ends with every
    /// retryable failure when none is left.
    fn move_on(run: Run) -> (out: (Run, Action))
        requires
            run.position < run.order@.len(),
        ensures
            moves_on(run, out),
            out.0.key == run.key,
            out.0.model == run.model,
            out.0.pending == run.pending,
            out.0.draft is None,
    {
        let mut run = run;
        run.draft = None;
        if run.position < run.order.len() - 1 {
            run.position = run.position + 1;
            run.stage = Stage::Drafting;
            let next = run.order[run.position];
            (run, Action::CallProvider(next))
        } else {
            run.stage = Stage::Finished;
            let m = join_with(&run.errors, "; ");
            (run, Action::Finish(Err(GatewayError::ProvidersFailed(m))))
        }
    }

    /// After a provider's reply. A draft goes to the checker when there is
    /// one, else it is selected. A retryable failure is recorded and the
    /// cascade moves on; any other failure ends the run naming the provider.
    pub fn on_draft(&self, run: Run, reply: Result<ProviderCompletion, ProviderError>) -> (out: (Run, Action))
        requires
            run.stage == Stage::Drafting,
            in_cascade(self.spec_providers().len() as int, run),
        ensures
            run_ok(self.spec_providers().len() as int, out.0),
            out.0.key == run.key,
            out.0.model == run.model,
            out.0.pending == run.pending,
            reply matches Ok(d) ==> self.spec_checker() is Some ==> {
                &&& out.0.stage == Stage::Verifying
                &&& out.0.draft == Some(d)
                &&& out.0.order == run.order
                &&& out.0.candidates == run.candidates
                &&& out.0.position == run.position
                &&& out.0.attempts == run.attempts
                &&& out.0.errors == run.errors
                &&& out.0.verification_costs == run.verification_costs
                &&& out.1 matches Action::Verify(t) && t@ == d.text@
            },
            reply matches Ok(d) ==> self.spec_checker() is None ==> asks_price(
                Run { draft: Some(d), ..run },
                out,
            ),
            reply matches Err(e) ==> e.retryable ==> {
                &&& out.0.errors@.len() == run.errors@.len() + 1
                &&& out.0.errors@.take(run.errors@.len() as int) == run.errors@
                &&& out.0.errors@.last()@ == current_name(run) + ": "@ + e.message@
                &&& out.0.attempts@.len() == run.attempts@.len() + 1
                &&& out.0.attempts@.take(run.attempts@.len() as int) == run.attempts@
                &&& attempt_is(
                    out.0.attempts@.last(),
                    current_name(run),
                    "retryable failure: "@ + e.message@,
                )
                &&& moves_on(Run { errors: out.0.errors, attempts: out.0.attempts, ..run }, out)
            },
            reply matches Err(e) ==> !e.retryable ==> out.0.stage == Stage::Finished && (out.1 matches Action::Finish(Err(GatewayError::ProvidersFailed(m)))
                && m@ == current_name(run) + ": "@ + e.message@),
    {
        let ghost start = run;
        let mut run = run;
        match reply {
            Ok(d) => {
                if self.checker.is_some() {
                    let t = d.text.clone();
                    run.draft = Some(d);
                    run.stage = Stage::Verifying;
                    (run, Action::Verify(t))
                } else {
                    run.draft = Some(d);
                    Self::select(run)
                }
            },
            Err(e) => {
                let name = run.candidates[run.position].provider.clone();
                if e.retryable {
                    run.errors.push(labelled(name.as_str(), e.message.as_str()));
                    let mut outcome = String::from_str("retryable failure: ");
                    outcome.append(e.message.as_str());
                    run.attempts.push(attempt(name, outcome));
                    proof {
                        assert(run.errors@.take(run.errors@.len() - 1) =~= start.errors@);
                        assert(run.attempts@.take(run.attempts@.len() - 1) =~= start.attempts@);
                    }
                    Self::move_on(run)
                } else {
                    run.stage = Stage::Finished;
                    let m = labelled(name.as_str(), e.message.as_str());
                    (run, Action::Finish(Err(GatewayError::ProvidersFailed(m))))
                }
            },
        }
    }

    /// After the checker has judged the draft: the judgement's spend joins
    /// the run's verification spend and its reason joins the attempts; an
    /// approved draft is selected, a rejected one escalates to the next
    /// provider.
    pub fn on_verdict(&self, run: Run, verdict: Verification) -> (out: (Run, Action))
        requires
            run.stage == Stage::Verifying,
            in_cascade(self.spec_providers().len() as int, run),
            run.draft is Some,
        ensures
            run_ok(self.spec_providers().len() as int, out.0),
            out.0.key == run.key,
            out.0.model == run.model,
            out.0.pending == run.pending,
            out.0.verification_costs@ == run.verification_costs@.push(verdict.cost.total_usd_bits),
            out.0.attempts@.len() == run.attempts@.len() + 2,
            out.0.attempts@.take(run.attempts@.len() as int) == run.attempts@,
            attempt_is(
                out.0.attempts@[run.attempts@.len() as int],
                verdict.provider@,
                "verification: "@ + verdict.reason@,
            ),
            verdict.approved ==> out.0.order == run.order && out.0.candidates == run.candidates
                && out.0.position == run.position && out.0.draft == run.draft && out.0.errors
                == run.errors,
            verdict.approved ==> out.0.stage == Stage::Pricing && attempt_is(
                out.0.attempts@.last(),
                current_name(run),
                "selected"@,
            ) && (out.1 matches Action::Price(i, u, costs) && i == run.order@[run.position as int]
                && u == run.draft->0.usage && costs@ == out.0.verification_costs@),
            !verdict.approved ==> attempt_is(
                out.0.attempts@.last(),
                current_name(run),
                "draft rejected; escalating"@,
            ) && moves_on(
                Run {
                    attempts: out.0.attempts,
                    verification_costs: out.0.verification_costs,
                    ..run
                },
                out,
            ),
    {
        let ghost start = run;
        let mut run = run;
        run.verification_costs.push(verdict.cost.total_usd_bits);
        let mut outcome = String::from_str("verification: ");
        outcome.append(verdict.reason.as_str());
        run.attempts.push(attempt(verdict.provider, outcome));
        let ghost noted = run;
        if !verdict.approved {
            let name = run.candidates[run.position].provider.clone();
            run.attempts.push(attempt(name, String::from_str("draft rejected; escalating")));
            proof {
                assert(run.attempts@.take(start.attempts@.len() as int) =~= start.attempts@);
            }
            Self::move_on(run)
        } else {
            let out = Self::select(run);
            proof {
                assert(out.0.attempts@.take(start.attempts@.len() as int) =~= start.attempts@);
                assert(out.0.attempts@[start.attempts@.len() as int] == noted.attempts@.last());
            }
            out
        }
    }

    /// With the price of the selected draft and a fresh completion id (the
    /// application draws a random UUID): the answer is assembled and, with a
    /// cache, written to it before being returned.
    pub fn on_price(&self, request: &CompletionRequest, run: Run, cost: CostSummary, id: u128) -> (out: (Run, Action))
        requires
            run.stage == Stage::Pricing,
            in_cascade(self.spec_providers().len() as int, run),
            run.draft is Some,
        ensures
            run_ok(self.spec_providers().len() as int, out.0),
            out.0.key == run.key,
            ({
                let c = if self.spec_cache() is Some {
                    out.0.pending->0.completion
                } else {
                    out.1->Finish_0->Ok_0
                };
                let d = run.draft->0;
                &&& (self.spec_cache() is Some ==> out.0.pending is Some)
                &&& (self.spec_cache() is None ==> out.1 matches Action::Finish(Ok(_)))
                &&& c.id == id
                &&& c.text == d.text
                &&& c.model == d.model
                &&& c.provider@ == current_name(run)
                &&& c.usage == d.usage
                &&& !c.cached
                &&& c.cache_kind is None
                &&& c.cost == cost
                &&& c.route.cache@ == "miss"@
                &&& c.route.semantic_similarity_bits is None
                &&& c.route.candidates == run.candidates
                &&& c.route.attempts == run.attempts
            }),
            self.spec_cache() is Some ==> out.0.stage == Stage::Storing && (out.1 matches Action::Store(k)
                && k@ == run.key@) && out.0.pending->0.embedding.is_some()
                == request.embedding.is_some() && (request.embedding matches Some(e)
                ==> out.0.pending->0.embedding->0@ == e@)
                && out.0.pending->0.policy.compatibility_key@ == request.cache_policy.compatibility_key@
                && out.0.pending->0.policy.semantic_reuse == request.cache_policy.semantic_reuse,
            self.spec_cache() is None ==> out.0.stage == Stage::Finished,
    {
        let mut run = run;
        let name = run.candidates[run.position].provider.clone();
        let d = run.draft.take().unwrap();
        let mut candidates = Vec::new();
        let mut attempts = Vec::new();
        std::mem::swap(&mut candidates, &mut run.candidates);
        std::mem::swap(&mut attempts, &mut run.attempts);
        let completion = Completion {
            id,
            text: d.text,
            model: d.model,
            provider: name,
            usage: d.usage,
            cached: false,
            cache_kind: None,
            cost,
            route: RouteTrace {
                cache: String::from_str("miss"),
                semantic_similarity_bits: None,
                candidates,
                attempts,
            },
        };
        if self.cache.is_some() {
            let embedding = match &request.embedding {
                Some(e) => Some(copy_bits(e)),
                None => None,
            };
            let entry = CacheEntry {
                completion,
                embedding,
                policy: copy_policy(&request.cache_policy),
            };
            run.pending = Some(entry);
            run.stage = Stage::Storing;
            let k = run.key.clone();
            (run, Action::Store(k))
        } else {
            run.stage = Stage::Finished;
            (run, Action::Finish(Ok(completion)))
        }
    }

    /// After the cache write: a failed write ends the run with a cache error,
    /// otherwise the stored answer is returned.
    pub fn on_stored(&self, run: Run, written: Result<(), String>) -> (out: (Run, Action))
        requires
            run.stage == Stage::Storing,
            run.pending is Some,
        ensures
            run_ok(self.spec_providers().len() as int, out.0),
            out.0.stage == Stage::Finished,
            written matches Err(e) ==> out.1 == Action::Finish(Err(GatewayError::Cache(e))),
            written is Ok ==> out.1 == Action::Finish(Ok(run.pending->0.completion)),
    {
        let mut run = run;
        run.stage = Stage::Finished;
        match written {
            Err(e) => (run, Action::Finish(Err(GatewayError::Cache(e)))),
            Ok(()) => {
                let entry = run.pending.take().unwrap();
                (run, Action::Finish(Ok(entry.completion)))
            },
        }
    }
}

} // verus!
