use adaptive_llm_gateway::{
    Action, CacheEntry, CachePolicy, Completion, CompletionRequest, CostSummary, Gateway,
    GatewayConfig, GatewayError, ProviderCompletion, ProviderError, ProviderQuote, SemanticMatch,
    SemanticReuse, Stage, Usage, Verification,
};
use std::cell::{Cell, RefCell};
use std::collections::HashMap;
use std::rc::Rc;

struct Fake {
    calls: Cell<usize>,
    name: String,
    cost: f64,
    fail: Option<bool>,
}

impl Fake {
    fn new(name: &str, cost: f64) -> Rc<Fake> {
        Rc::new(Fake { calls: Cell::new(0), name: name.into(), cost, fail: None })
    }
    fn failing(name: &str, cost: f64, retryable: bool) -> Rc<Fake> {
        Rc::new(Fake { calls: Cell::new(0), name: name.into(), cost, fail: Some(retryable) })
    }
    fn quote(&self) -> ProviderQuote {
        ProviderQuote {
            name: self.name.clone(),
            models: vec!["default".into()],
            input_cost_bits: self.cost.to_bits(),
            output_cost_bits: f64::INFINITY.to_bits(),
        }
    }
    fn complete(&self) -> Result<ProviderCompletion, ProviderError> {
        self.calls.set(self.calls.get() + 1);
        if let Some(retryable) = self.fail {
            return Err(ProviderError { message: "down".into(), retryable });
        }
        Ok(ProviderCompletion {
            text: self.name.clone(),
            model: "default".into(),
            usage: Usage { prompt_tokens: 1, completion_tokens: 1 },
        })
    }
}

struct RejectCheap;

impl RejectCheap {
    fn verify(&self, answer: &str) -> Verification {
        Verification {
            approved: answer == "frontier",
            provider: "judge".into(),
            reason: if answer == "frontier" { "APPROVE" } else { "REJECT" }.into(),
            cost: CostSummary {
                verification_usd_bits: 0.01f64.to_bits(),
                total_usd_bits: 0.01f64.to_bits(),
                ..CostSummary::zero()
            },
        }
    }
}

type Store = RefCell<HashMap<String, CacheEntry>>;
type TestGateway = Gateway<Rc<Fake>, Rc<Store>, RejectCheap>;

fn cosine(a: &[u32], b: &[u32]) -> f32 {
    if a.len() != b.len() || a.is_empty() {
        return -1.0;
    }
    let (mut d, mut x, mut y) = (0.0f32, 0.0f32, 0.0f32);
    for (p, q) in a.iter().zip(b) {
        let (p, q) = (f32::from_bits(*p), f32::from_bits(*q));
        d += p * q;
        x += p * p;
        y += q * q;
    }
    if x == 0.0 || y == 0.0 { -1.0 } else { d / (x.sqrt() * y.sqrt()) }
}

/// Runs one request through the gateway's decision machine, performing each
/// action synchronously against the fakes.
fn drive(gateway: &TestGateway, request: &CompletionRequest) -> Result<Completion, GatewayError> {
    let (mut run, mut action) = gateway.start(request);
    loop {
        let next = match action {
            Action::LookupExact(key) => {
                let store = gateway.cache_tier().as_ref().unwrap();
                let hit = store.borrow().get(&key).cloned();
                gateway.on_exact(request, run, Ok(hit))
            }
            Action::LookupSimilar(embedding, threshold) => {
                let store = gateway.cache_tier().as_ref().unwrap();
                let entries: Vec<CacheEntry> = store.borrow().values().cloned().collect();
                let scored: Vec<(CacheEntry, f32)> = entries
                    .into_iter()
                    .filter_map(|e| {
                        let s = e.embedding.as_ref().map(|h| cosine(&embedding, h));
                        s.map(|s| (e, s))
                    })
                    .collect();
                let scores: Vec<u32> = scored.iter().map(|(_, s)| s.to_bits()).collect();
                let best = adaptive_llm_gateway::cache::best_match(&scores, threshold);
                let hit = best.map(|i| SemanticMatch {
                    entry: scored[i].0.clone(),
                    similarity_bits: scored[i].1.to_bits(),
                });
                gateway.on_similar(request, run, Ok(hit))
            }
            Action::Quote(_) => {
                let quotes = gateway.providers().iter().map(|p| p.quote()).collect();
                gateway.on_quotes(run, quotes)
            }
            Action::CallProvider(i) => {
                let reply = gateway.providers()[i].complete();
                gateway.on_draft(run, reply)
            }
            Action::Verify(text) => {
                let verdict = gateway.checker().as_ref().unwrap().verify(&text);
                gateway.on_verdict(run, verdict)
            }
            Action::Price(i, usage, costs) => {
                let provider = &gateway.providers()[i];
                let input = usage.prompt_tokens as f64 / 1_000.0 * provider.cost;
                let output = usage.completion_tokens as f64 / 1_000.0 * 0.0;
                let verification: f64 = costs.iter().fold(0.0, |s, c| s + f64::from_bits(*c));
                let cost = CostSummary {
                    input_usd_bits: input.to_bits(),
                    output_usd_bits: output.to_bits(),
                    verification_usd_bits: verification.to_bits(),
                    total_usd_bits: (input + output + verification).to_bits(),
                    avoided_usd_bits: 0,
                };
                gateway.on_price(request, run, cost, uuid::Uuid::new_v4().as_u128())
            }
            Action::Store(key) => {
                let store = gateway.cache_tier().as_ref().unwrap();
                store.borrow_mut().insert(key, run.pending.clone().unwrap());
                gateway.on_stored(run, Ok(()))
            }
            Action::Finish(result) => {
                assert_eq!(run.stage, Stage::Finished);
                return result;
            }
        };
        run = next.0;
        action = next.1;
    }
}

fn new_store() -> Rc<Store> {
    Rc::new(RefCell::new(HashMap::new()))
}

#[test]
fn caches_a_repeat_request() {
    let provider = Fake::new("cheap", 0.1);
    let gateway: TestGateway = Gateway::builder(GatewayConfig::default())
        .cache(new_store())
        .provider(provider.clone())
        .build()
        .unwrap();
    drive(&gateway, &CompletionRequest::new("hello".into())).unwrap();
    let second = drive(&gateway, &CompletionRequest::new("hello".into())).unwrap();
    assert!(second.cached);
    assert_eq!(provider.calls.get(), 1);
}

#[test]
fn selects_the_lower_cost_provider() {
    let expensive = Fake::new("expensive", 2.0);
    let cheap = Fake::new("cheap", 0.1);
    let gateway: TestGateway = Gateway::builder(GatewayConfig::default())
        .provider(expensive.clone())
        .provider(cheap.clone())
        .build()
        .unwrap();
    assert_eq!(
        drive(&gateway, &CompletionRequest::new("hello".into())).unwrap().provider,
        "cheap"
    );
    assert_eq!(expensive.calls.get(), 0);
}

#[test]
fn rejected_cheap_draft_escalates_and_keeps_verification_cost() {
    let cheap = Fake::new("cheap", 0.1);
    let frontier = Fake::new("frontier", 2.0);
    let gateway: TestGateway = Gateway::builder(GatewayConfig::default())
        .provider(cheap)
        .provider(frontier)
        .with_verifier(RejectCheap)
        .build()
        .unwrap();
    let response = drive(&gateway, &CompletionRequest::new("hello".into())).unwrap();
    assert_eq!(response.provider, "frontier");
    assert_eq!(f64::from_bits(response.cost.verification_usd_bits), 0.02);
    assert!(response
        .route
        .attempts
        .iter()
        .any(|attempt| attempt.outcome == "draft rejected; escalating"));
}

#[test]
fn exact_replay_reports_avoided_cost_and_zero_spend() {
    let provider = Fake::new("cheap", 0.5);
    let gateway: TestGateway = Gateway::builder(GatewayConfig::default())
        .cache(new_store())
        .provider(provider.clone())
        .build()
        .unwrap();
    let first = drive(&gateway, &CompletionRequest::new("hello".into())).unwrap();
    assert!(!first.cached);
    assert_eq!(first.route.cache, "miss");
    assert_eq!(f64::from_bits(first.cost.input_usd_bits), 0.0005);
    let replay = drive(&gateway, &CompletionRequest::new("hello".into())).unwrap();
    assert!(replay.cached);
    assert_eq!(replay.cache_kind.as_deref(), Some("exact"));
    assert_eq!(replay.route.cache, "exact");
    assert_eq!(replay.id, first.id);
    assert_eq!(replay.text, first.text);
    assert_eq!(replay.cost.total_usd_bits, 0);
    assert_eq!(replay.cost.avoided_usd_bits, first.cost.total_usd_bits);
    assert!(replay.route.attempts.is_empty());
    assert_eq!(provider.calls.get(), 1);
}

#[test]
fn line_endings_do_not_change_the_cached_answer() {
    let provider = Fake::new("cheap", 0.1);
    let gateway: TestGateway = Gateway::builder(GatewayConfig::default())
        .cache(new_store())
        .provider(provider.clone())
        .build()
        .unwrap();
    drive(&gateway, &CompletionRequest::new("a\r\nb".into())).unwrap();
    let second = drive(&gateway, &CompletionRequest::new("a\nb".into())).unwrap();
    assert!(second.cached);
    assert_eq!(provider.calls.get(), 1);
}

#[test]
fn different_models_do_not_share_answers() {
    let provider = Fake::new("cheap", 0.1);
    let gateway: TestGateway = Gateway::builder(GatewayConfig::default())
        .cache(new_store())
        .provider(provider.clone())
        .build()
        .unwrap();
    drive(&gateway, &CompletionRequest::new("hello".into()).model("a")).unwrap();
    let other = drive(&gateway, &CompletionRequest::new("hello".into()).model("b")).unwrap();
    assert!(!other.cached);
    assert_eq!(provider.calls.get(), 2);
}

#[test]
fn semantic_hit_needs_permission_and_embedding() {
    let provider = Fake::new("cheap", 0.1);
    let gateway: TestGateway = Gateway::builder(GatewayConfig::default())
        .cache(new_store())
        .provider(provider.clone())
        .build()
        .unwrap();
    let policy = CachePolicy {
        compatibility_key: "demo:read-only:v1".into(),
        semantic_reuse: SemanticReuse::SafeReadOnly,
    };
    let embedding: Vec<u32> = [0.12f32, -0.38, 0.91].iter().map(|v| v.to_bits()).collect();
    drive(
        &gateway,
        &CompletionRequest::new("first".into())
            .embedding(embedding.clone())
            .cache_policy(policy.clone()),
    )
    .unwrap();
    let near = drive(
        &gateway,
        &CompletionRequest::new("first, concisely".into())
            .embedding(embedding.clone())
            .cache_policy(policy.clone()),
    )
    .unwrap();
    assert!(near.cached);
    assert_eq!(near.cache_kind.as_deref(), Some("semantic"));
    assert!(near.route.semantic_similarity_bits.is_some());
    assert_eq!(provider.calls.get(), 1);
    // Without permission the same embedding is not reused.
    let refused = drive(
        &gateway,
        &CompletionRequest::new("first, briefly".into()).embedding(embedding),
    )
    .unwrap();
    assert!(!refused.cached);
    assert_eq!(provider.calls.get(), 2);
}

#[test]
fn retryable_failure_falls_back_and_is_recorded() {
    let local = Fake::failing("local-qwen", 0.0, true);
    let frontier = Fake::new("frontier-fallback", 0.5);
    let gateway: TestGateway = Gateway::builder(GatewayConfig::default())
        .provider(local.clone())
        .provider(frontier.clone())
        .build()
        .unwrap();
    let answer = drive(&gateway, &CompletionRequest::new("hi".into())).unwrap();
    assert_eq!(answer.provider, "frontier-fallback");
    assert_eq!(answer.route.candidates.len(), 2);
    assert_eq!(answer.route.candidates[0].provider, "local-qwen");
    assert_eq!(answer.route.attempts.len(), 2);
    assert_eq!(answer.route.attempts[0].outcome, "retryable failure: down");
    assert_eq!(answer.route.attempts[1].outcome, "selected");
    assert_eq!(local.calls.get(), 1);
}

#[test]
fn exhausted_cascade_reports_every_failure() {
    let a = Fake::failing("a", 0.0, true);
    let b = Fake::failing("b", 1.0, true);
    let gateway: TestGateway =
        Gateway::builder(GatewayConfig::default()).provider(a).provider(b).build().unwrap();
    match drive(&gateway, &CompletionRequest::new("hi".into())) {
        Err(GatewayError::ProvidersFailed(m)) => assert_eq!(m, "a: down; b: down"),
        _ => panic!("expected ProvidersFailed"),
    }
}

#[test]
fn permanent_failure_stops_the_cascade() {
    let a = Fake::failing("a", 0.0, false);
    let b = Fake::new("b", 1.0);
    let gateway: TestGateway =
        Gateway::builder(GatewayConfig::default()).provider(a).provider(b.clone()).build().unwrap();
    match drive(&gateway, &CompletionRequest::new("hi".into())) {
        Err(e) => {
            assert!(matches!(e, GatewayError::ProvidersFailed(_)));
            assert_eq!(e.to_string(), "all providers failed: a: down");
        }
        _ => panic!("expected an error"),
    }
    assert_eq!(b.calls.get(), 0);
}

#[test]
fn unserved_model_has_no_provider() {
    let p = Rc::new(Fake { calls: Cell::new(0), name: "p".into(), cost: 0.0, fail: None });
    let gateway: TestGateway =
        Gateway::builder(GatewayConfig::default()).provider(p).build().unwrap();
    let (run, action) = gateway.start(&CompletionRequest::new("x".into()).model("gpt"));
    assert!(matches!(action, Action::Quote(ref m) if m == "gpt"));
    let quote = ProviderQuote {
        name: "p".into(),
        models: vec!["llama".into()],
        input_cost_bits: 0,
        output_cost_bits: 0,
    };
    let (run, action) = gateway.on_quotes(run, vec![quote]);
    assert_eq!(run.stage, Stage::Finished);
    match action {
        Action::Finish(Err(e)) => {
            assert_eq!(e.to_string(), "no provider is configured for model `gpt`")
        }
        _ => panic!("expected NoProvider"),
    }
}

#[test]
fn cache_failure_is_reported() {
    let p = Fake::new("p", 0.0);
    let gateway: TestGateway =
        Gateway::builder(GatewayConfig::default()).cache(new_store()).provider(p).build().unwrap();
    let request = CompletionRequest::new("x".into());
    let (run, _) = gateway.start(&request);
    let (_, action) = gateway.on_exact(&request, run, Err("connection refused".into()));
    match action {
        Action::Finish(Err(e)) => assert_eq!(e.to_string(), "cache failure: connection refused"),
        _ => panic!("expected a cache error"),
    }
}

#[test]
fn build_needs_a_provider() {
    let built: Result<TestGateway, GatewayError> =
        Gateway::builder(GatewayConfig::default()).build();
    match built {
        Err(e) => assert_eq!(e.to_string(), "invalid configuration: configure at least one provider"),
        Ok(_) => panic!("expected a configuration error"),
    }
}

#[test]
fn default_config_threshold_is_point_nine_six() {
    let c = GatewayConfig::default();
    assert_eq!(f32::from_bits(c.semantic_cache_threshold_bits), 0.96);
    assert!(c.semantic_cache_enabled);
}

#[test]
fn completion_ids_are_version_four_uuids() {
    let gateway: TestGateway =
        Gateway::builder(GatewayConfig::default()).provider(Fake::new("p", 0.0)).build().unwrap();
    let a = drive(&gateway, &CompletionRequest::new("x".into())).unwrap();
    let b = drive(&gateway, &CompletionRequest::new("x".into())).unwrap();
    assert_eq!((a.id >> 76) & 0xF, 4);
    assert_eq!((a.id >> 62) & 0x3, 2);
    assert_ne!(a.id, b.id);
}

#[test]
fn failed_cache_write_is_reported() {
    let p = Fake::new("p", 0.0);
    let gateway: TestGateway =
        Gateway::builder(GatewayConfig::default()).cache(new_store()).provider(p.clone()).build().unwrap();
    let request = CompletionRequest::new("x".into());
    let (run, _) = gateway.start(&request);
    let (run, action) = gateway.on_exact(&request, run, Ok(None));
    assert!(matches!(action, Action::Quote(_)));
    let (run, action) = gateway.on_quotes(run, vec![p.quote()]);
    assert!(matches!(action, Action::CallProvider(0)));
    let (run, action) = gateway.on_draft(run, p.complete());
    let (run, action) = match action {
        Action::Price(0, usage, costs) => {
            assert_eq!(usage.prompt_tokens, 1);
            assert!(costs.is_empty());
            gateway.on_price(&request, run, CostSummary::zero(), 42)
        }
        _ => panic!("expected pricing"),
    };
    assert!(matches!(action, Action::Store(ref k) if *k == run.key));
    assert_eq!(run.pending.as_ref().unwrap().completion.id, 42);
    assert_eq!(run.stage, Stage::Storing);
    let (run, action) = gateway.on_stored(run, Err("disk full".into()));
    assert_eq!(run.stage, Stage::Finished);
    match action {
        Action::Finish(Err(e)) => assert_eq!(e.to_string(), "cache failure: disk full"),
        _ => panic!("expected a cache error"),
    }
}

#[test]
fn disabled_semantic_cache_is_not_consulted() {
    let p = Fake::new("p", 0.0);
    let config = GatewayConfig { semantic_cache_enabled: false, ..GatewayConfig::default() };
    let gateway: TestGateway =
        Gateway::builder(config).cache(new_store()).provider(p).build().unwrap();
    let request = CompletionRequest::new("x".into())
        .embedding(vec![1.0f32.to_bits()])
        .cache_policy(CachePolicy {
            compatibility_key: String::new(),
            semantic_reuse: SemanticReuse::SafeReadOnly,
        });
    let (run, _) = gateway.start(&request);
    let (_, action) = gateway.on_exact(&request, run, Ok(None));
    assert!(matches!(action, Action::Quote(ref m) if m == "default"));
    let enabled: TestGateway = Gateway::builder(GatewayConfig::default())
        .cache(new_store())
        .provider(Fake::new("p", 0.0))
        .build()
        .unwrap();
    let (run, _) = enabled.start(&request);
    let (_, action) = enabled.on_exact(&request, run, Ok(None));
    match action {
        Action::LookupSimilar(e, t) => {
            assert_eq!(e, vec![1.0f32.to_bits()]);
            assert_eq!(t, 0.96f32.to_bits());
        }
        _ => panic!("expected a semantic lookup"),
    }
}

#[test]
fn built_gateway_exposes_its_parts() {
    let p = Fake::new("p", 0.0);
    let gateway: TestGateway = Gateway::builder(GatewayConfig::default())
        .provider(p)
        .with_verifier(RejectCheap)
        .build()
        .unwrap();
    assert_eq!(gateway.providers().len(), 1);
    assert!(gateway.cache_tier().is_none());
    assert!(gateway.checker().is_some());
    assert!(gateway.config().semantic_cache_enabled);
}
