use adaptive_llm_gateway::cache::{
    best_match, Tier, TierWrite, check_pgvector_ttl, check_redis_ttl, redis_key, vector_literal,
};
use adaptive_llm_gateway::cache_key::{canonical_request_json, key_from_digest};
use adaptive_llm_gateway::ieee::{at_least32, order_key32, order_key64};
use adaptive_llm_gateway::judge::{judge_unavailable, judge_verdict};
use adaptive_llm_gateway::provider::{
    first_choice_text, http_failure, invalid_response, reply_completion, transport_failure,
};
use adaptive_llm_gateway::routing::{rank, serves_model};
use adaptive_llm_gateway::theme::tokens_line;
use adaptive_llm_gateway::text::{
    is_approval, join_with, normalize_newlines, push_decimal, push_hex, trim_end,
};
use adaptive_llm_gateway::{
    cache_key, CachePolicy, CompletionRequest, LlmJudgeVerifier, OpenAiCompatibleProvider,
    ProviderError, ProviderQuote, SemanticReuse, Theme, TieredCache, Usage,
};
use sha2::{Digest, Sha256};

#[test]
fn normalizes_windows_line_endings() {
    assert_eq!(normalize_newlines("a\r\nb"), "a\nb");
    assert_eq!(normalize_newlines("a\r\r\nb\r"), "a\r\nb\r");
    assert_eq!(normalize_newlines("plain\ntext"), "plain\ntext");
}

#[test]
fn renders_decimal_and_hex() {
    let mut s = String::new();
    push_decimal(&mut s, 0);
    s.push(' ');
    push_decimal(&mut s, 4096);
    s.push(' ');
    push_decimal(&mut s, u32::MAX);
    assert_eq!(s, "0 4096 4294967295");
    let mut h = String::new();
    push_hex(&mut h, &[10, 20, 30, 0, 255]);
    assert_eq!(h, "0a141e00ff");
}

#[test]
fn trims_trailing_slashes() {
    assert_eq!(trim_end("http://127.0.0.1:8000/v1//", '/'), "http://127.0.0.1:8000/v1");
    assert_eq!(trim_end("///", '/'), "");
}

#[test]
fn recognises_approval() {
    assert!(is_approval("APPROVE - correct"));
    assert!(is_approval("  \n approve, it answers"));
    assert!(is_approval("\u{3000}Approved"));
    assert!(!is_approval("REJECT: wrong"));
    assert!(!is_approval("APPROV"));
    assert!(!is_approval("I APPROVE"));
}

#[test]
fn joins_with_separator() {
    let parts = vec!["a: x".to_string(), "b: y".to_string()];
    assert_eq!(join_with(&parts, "; "), "a: x; b: y");
    assert_eq!(join_with(&Vec::new(), "; "), "");
}

#[test]
fn order_keys_follow_total_order() {
    let values = [f64::NEG_INFINITY, -2.5, -0.0, 0.0, 0.1, 2.0, f64::INFINITY, f64::NAN];
    for w in values.windows(2) {
        assert!(order_key64(w[0].to_bits()) < order_key64(w[1].to_bits()));
        assert_eq!(
            w[0].total_cmp(&w[1]),
            order_key64(w[0].to_bits()).cmp(&order_key64(w[1].to_bits()))
        );
    }
    assert!(order_key32((-1.0f32).to_bits()) < order_key32(1.0f32.to_bits()));
}

#[test]
fn binary32_at_least_matches_ieee() {
    let cases = [
        (0.97f32, 0.96f32),
        (0.96, 0.96),
        (0.5, 0.96),
        (-0.0, 0.0),
        (f32::NAN, 0.0),
        (1.0, f32::NAN),
        (-1.0, -2.0),
    ];
    for (a, b) in cases {
        assert_eq!(at_least32(a.to_bits(), b.to_bits()), a >= b, "{a} >= {b}");
    }
}

#[test]
fn best_match_takes_the_last_highest_passing_score() {
    let scores: Vec<u32> = [0.5f32, 0.99, 0.97, 0.99, 0.2].iter().map(|v| v.to_bits()).collect();
    assert_eq!(best_match(&scores, 0.96f32.to_bits()), Some(3));
    assert_eq!(best_match(&scores, 0.995f32.to_bits()), None);
    let with_nan: Vec<u32> = [f32::NAN, 0.97].iter().map(|v| v.to_bits()).collect();
    assert_eq!(best_match(&with_nan, 0.96f32.to_bits()), Some(1));
}

#[test]
fn durable_tier_keys_and_ttls() {
    assert_eq!(redis_key("app", "v2:abc"), "app:response-cache:v1:v2:abc");
    assert!(check_redis_ttl(60).is_ok());
    assert_eq!(check_redis_ttl(0).unwrap_err(), "Redis cache TTL must be greater than zero");
    assert!(check_pgvector_ttl(1).is_ok());
    assert_eq!(check_pgvector_ttl(-5).unwrap_err(), "pgvector cache TTL must be greater than zero");
    let parts = vec!["0.12".to_string(), "-0.38".to_string(), "0.91".to_string()];
    assert_eq!(vector_literal(&parts), "[0.12,-0.38,0.91]");
    let tiers = TieredCache::new(1u8, 2u8);
    assert_eq!((tiers.exact, tiers.semantic), (1, 2));
    assert_eq!(tiers.lookup_tier(false), Tier::Exact);
    assert_eq!(tiers.lookup_tier(true), Tier::Semantic);
    assert!(matches!(tiers.first_write(), TierWrite::Write(Tier::Exact)));
    assert!(matches!(tiers.after_write(Tier::Exact, Ok(())), TierWrite::Write(Tier::Semantic)));
    assert!(matches!(tiers.after_write(Tier::Semantic, Ok(())), TierWrite::Finish(Ok(()))));
    match tiers.after_write(Tier::Exact, Err("down".into())) {
        TierWrite::Finish(Err(e)) => assert_eq!(e, "down"),
        _ => panic!("a failed exact write ends the write"),
    }
}

fn quote(name: &str, models: &[&str], cost: f64) -> ProviderQuote {
    ProviderQuote {
        name: name.into(),
        models: models.iter().map(|m| m.to_string()).collect(),
        input_cost_bits: cost.to_bits(),
        output_cost_bits: 0,
    }
}

#[test]
fn ranks_serving_providers_cheapest_first_and_stably() {
    let quotes = vec![
        quote("frontier", &["default"], 2.0),
        quote("other-model", &["llama"], 0.0),
        quote("local", &["qwen"], 0.0),
        quote("mid-a", &["default"], 0.5),
        quote("unpriced", &["qwen"], f64::INFINITY),
        quote("mid-b", &["qwen", "default"], 0.5),
    ];
    assert_eq!(rank(&quotes, "qwen"), vec![2, 3, 5, 0, 4]);
    assert_eq!(rank(&quotes, "mistral"), vec![3, 5, 0]);
    assert!(serves_model(&quotes[1].models, "llama"));
    assert!(!serves_model(&quotes[1].models, "qwen"));
}

#[test]
fn canonical_json_and_key() {
    let request = CompletionRequest::new("Hi \"there\"\r\n".into()).model("m");
    let json = canonical_request_json(&request);
    let expected = "{\"cache_schema\":\"request:v2\",\"prompt\":\"Hi \\\"there\\\"\\n\",\"system\":null,\"model\":\"m\",\"max_tokens\":null,\"temperature_bits\":null,\"cache_scope\":\"\",\"policy\":{\"compatibility_key\":\"\",\"semantic_reuse\":\"Disabled\"}}";
    assert_eq!(json, expected);
    let digest = Sha256::digest(expected.as_bytes());
    let hex: String = digest.iter().map(|b| format!("{b:02x}")).collect();
    assert_eq!(cache_key(&request), format!("v2:{hex}"));
    assert_eq!(key_from_digest(&digest), format!("v2:{hex}"));
    assert_eq!(key_from_digest(&[0xab, 0x01]), "v2:ab01");
    let key = cache_key(&request);
    assert_eq!(key.len(), 67);
    assert!(key.starts_with("v2:"));
}

#[test]
fn key_covers_the_whole_request_contract() {
    let base = || CompletionRequest::new("Summarize".into());
    let k = cache_key(&base());
    let mut with_tokens = base();
    with_tokens.max_tokens = Some(64);
    let mut with_temp = base();
    with_temp.temperature_bits = Some(0.2f32.to_bits());
    let mut with_scope = base();
    with_scope.cache_scope = "tenant-a".into();
    let mut with_system = base();
    with_system.system = Some("Be terse.".into());
    let with_policy = base().cache_policy(CachePolicy {
        compatibility_key: "k".into(),
        semantic_reuse: SemanticReuse::SafeReadOnly,
    });
    for other in [with_tokens, with_temp, with_scope, with_system, with_policy] {
        assert_ne!(cache_key(&other), k);
    }
    let with_default_model = base().model("default");
    assert_ne!(cache_key(&with_default_model), k);
    let mut positive_zero = base();
    positive_zero.temperature_bits = Some(0.0f32.to_bits());
    let mut negative_zero = base();
    negative_zero.temperature_bits = Some((-0.0f32).to_bits());
    assert_ne!(cache_key(&positive_zero), cache_key(&negative_zero));
    let mut empty_system = base();
    empty_system.system = Some(String::new());
    assert_ne!(cache_key(&empty_system), k);
    let mut scope_quote = base();
    scope_quote.cache_scope = "a\",\"b".into();
    let mut scope_plain = base();
    scope_plain.cache_scope = "a".into();
    assert_ne!(canonical_request_json(&scope_quote), canonical_request_json(&scope_plain));
    let with_embedding = base().embedding(vec![1, 2, 3]);
    assert_eq!(cache_key(&with_embedding), k);
    let mut json_tokens = base();
    json_tokens.max_tokens = Some(64);
    assert!(canonical_request_json(&json_tokens).contains("\"max_tokens\":64,"));
}

#[test]
fn openai_compatible_settings() {
    let p = OpenAiCompatibleProvider::new("local", "http://127.0.0.1:8000/v1/", vec!["qwen".into()])
        .api_key("local-key")
        .input_cost_per_1k(0.5f64.to_bits())
        .output_cost_per_1k(3.0f64.to_bits());
    assert_eq!(p.base_url, "http://127.0.0.1:8000/v1");
    assert_eq!(p.chat_url(), "http://127.0.0.1:8000/v1/chat/completions");
    assert_eq!(p.api_key.as_deref(), Some("local-key"));
    assert_eq!(f64::from_bits(p.input_cost_per_1k_bits), 0.5);
    assert_eq!(f64::from_bits(p.output_cost_per_1k_bits), 3.0);
    assert_eq!(p.chat_model(&CompletionRequest::new("x".into())), "qwen");
    assert_eq!(p.chat_model(&CompletionRequest::new("x".into()).model("other")), "other");
    let bare = OpenAiCompatibleProvider::new("n", "u", Vec::new());
    assert_eq!(bare.chat_model(&CompletionRequest::new("x".into())), "default");
    assert_eq!(bare.input_cost_per_1k_bits, 0);
}

#[test]
fn classifies_provider_failures() {
    let e = http_failure(429, "429 Too Many Requests", "slow down");
    assert_eq!(e.message, "HTTP 429 Too Many Requests: slow down");
    assert!(e.retryable);
    assert!(http_failure(503, "503 Service Unavailable", "").retryable);
    assert!(!http_failure(404, "404 Not Found", "").retryable);
    assert!(!http_failure(600, "600", "").retryable);
    assert!(transport_failure("timed out".into(), true, false).retryable);
    assert!(!transport_failure("bad tls".into(), false, false).retryable);
    let invalid = invalid_response("missing field `model`");
    assert_eq!(invalid.message, "invalid provider response: missing field `model`");
    assert!(!invalid.retryable);
    assert_eq!(first_choice_text(vec![Some("hi".into()), None]).unwrap(), "hi");
    let none = first_choice_text(vec![None, Some("later".into())]).unwrap_err();
    assert_eq!(none.message, "provider response had no text choice");
    assert!(!none.retryable);
    assert!(first_choice_text(Vec::new()).is_err());
    let c = reply_completion("t".into(), "m".into(), None);
    assert_eq!(c.usage, Usage { prompt_tokens: 0, completion_tokens: 0 });
    let e = ProviderError { message: "boom".into(), retryable: true };
    assert_eq!(e.to_string(), "boom");
}

#[test]
fn judge_prompt_and_verdicts() {
    let judge = LlmJudgeVerifier::new(7u8);
    let request = CompletionRequest::new("2+2?".into());
    let j = judge.judge_request(&request, "4");
    assert_eq!(
        j.prompt,
        "Evaluate whether the candidate answer correctly and completely answers the user request. Reply with exactly APPROVE or REJECT, then a short reason.\n\nUSER REQUEST:\n2+2?\n\nCANDIDATE ANSWER:\n4"
    );
    assert_eq!(j.model.as_deref(), Some("default"));
    let judge = judge.model("frontier");
    assert_eq!(judge.judge_request(&request, "4").model.as_deref(), Some("frontier"));
    let v = judge_verdict("judge".into(), " approve".into(), 1, 2, 3);
    assert!(v.approved);
    assert_eq!(v.cost.verification_usd_bits, 3);
    assert_eq!(v.cost.total_usd_bits, 3);
    assert_eq!(v.cost.input_usd_bits, 1);
    assert!(!judge_verdict("judge".into(), "REJECT".into(), 0, 0, 0).approved);
    let u = judge_unavailable("judge".into(), "HTTP 500: oops");
    assert!(!u.approved);
    assert_eq!(u.reason, "verifier unavailable: HTTP 500: oops");
    assert_eq!(u.cost.total_usd_bits, 0);
}

#[test]
fn theme_paints_only_in_colour() {
    let plain = Theme { color: false };
    let colour = Theme { color: true };
    assert_eq!(plain.brand("GATEWAY"), "GATEWAY");
    assert_eq!(colour.brand("GATEWAY"), "\x1b[1;36mGATEWAY\x1b[0m");
    assert_eq!(colour.muted("x"), "\x1b[2mx\x1b[0m");
    assert_eq!(colour.good("ok"), "\x1b[1;32mok\x1b[0m");
    assert_eq!(colour.warn("!"), "\x1b[1;33m!\x1b[0m");
    assert_eq!(colour.paint("4", "u"), "\x1b[4mu\x1b[0m");
    assert_eq!(
        plain.heading("FIRST REQUEST"),
        "── FIRST REQUEST ─────────────────────────────────────"
    );
    assert_eq!(plain.attempt_line("frontier-fallback", "selected"), "  Attempt   ✓ frontier-fallback → selected");
    assert_eq!(
        colour.attempt_line("local-qwen", "retryable failure: x"),
        "  Attempt   \x1b[1;33m↳\x1b[0m local-qwen → retryable failure: x"
    );
    assert_eq!(
        tokens_line(Usage { prompt_tokens: 6, completion_tokens: 18 }),
        "  Tokens    6 input · 18 output"
    );
}

#[test]
fn json_strings_use_serde_escapes() {
    let mut request = CompletionRequest::new("tab\tquote\"back\\ctl\u{1}\u{7f}é".into());
    request.cache_scope = "a/b".into();
    let json = canonical_request_json(&request);
    assert!(json.contains("\"prompt\":\"tab\\tquote\\\"back\\\\ctl\\u0001\u{7f}é\""), "{json}");
    assert!(json.contains("\"cache_scope\":\"a/b\""));
    assert_eq!(
        serde_json::to_string("tab\tquote\"back\\ctl\u{1}\u{7f}é").unwrap(),
        "\"tab\\tquote\\\"back\\\\ctl\\u0001\u{7f}é\""
    );
}
