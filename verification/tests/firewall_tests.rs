use bastion::decision::FirewallDecision;
use bastion::firewall::engine::ProxyEngine;
use bastion::firewall::event::{utc_hour_at, ApiEvent, ProxyDecision};
use bastion::firewall::openapi::{OpenApiDocument, OpenApiSpec};
use bastion::firewall::rules::ApiPolicyRule;

fn event(method: &str, url: &str, provider: &str) -> ApiEvent {
    ApiEvent {
        id: "e1".into(),
        method: method.into(),
        url: url.into(),
        headers: vec![],
        body: String::new(),
        provider: provider.into(),
        agent_id: "agent-1".into(),
        timestamp: 0,
    }
}

fn block_reason(d: &ProxyDecision) -> (String, Option<String>) {
    match d {
        ProxyDecision::Block { reason, rule_id } => (reason.clone(), rule_id.clone()),
        other => panic!("expected a block, got {other:?}"),
    }
}

#[test]
fn event_path_and_method() {
    let e = event("post", "https://api.openai.com/v1/chat?x=1", "openai");
    assert_eq!(e.path(), Some("/v1/chat".to_string()));
    assert_eq!(e.method_upper(), "POST");
    assert_eq!(event("get", "not a url", "x").path(), None);
}

#[test]
fn decision_predicates() {
    assert!(ProxyDecision::Pass.is_allowed());
    assert!(ProxyDecision::LogOnly.is_allowed());
    let b = ProxyDecision::Block { reason: "r".into(), rule_id: None };
    assert!(b.is_blocked() && !b.is_allowed() && !b.is_pending());
    let p = ProxyDecision::PendingHITL { approval_id: "a".into(), reason: "r".into() };
    assert!(p.is_blocked() && p.is_pending());
    let from: ProxyDecision = FirewallDecision::Block { reason: "no".into(), policy_id: Some("p1".into()) }.into();
    assert_eq!(block_reason(&from), ("no".to_string(), Some("p1".to_string())));
}

#[test]
fn rule_names() {
    assert_eq!(ApiPolicyRule::CostCap { max_usd_cents_per_month: 1 }.rule_name(), "cost_cap");
    assert_eq!(
        ApiPolicyRule::TimeOfDayRestriction { min_hour_utc: 0, max_hour_utc: 23 }.rule_name(),
        "time_of_day_restriction"
    );
}

#[test]
fn allowlist_blocks_unlisted_endpoints() {
    let rule = ApiPolicyRule::EndpointAllowlist { paths: vec!["/v1/chat".into()], methods: vec!["POST".into()] };
    assert!(!rule.matches(&event("post", "https://api.openai.com/v1/chat", "openai")));
    assert!(rule.matches(&event("GET", "https://api.openai.com/v1/chat", "openai")));
    let mut engine = ProxyEngine::new(vec![rule]);
    let d = engine.evaluate(&event("DELETE", "https://api.openai.com/v1/files", "openai"));
    assert_eq!(
        block_reason(&d),
        ("Endpoint not in allowlist: DELETE /v1/files".to_string(), Some("endpoint_allowlist".to_string()))
    );
}

#[test]
fn blocklist_content_and_headers() {
    let mut e = event("POST", "https://api.github.com/admin/keys", "github");
    e.body = "token ghp_abc".into();
    e.headers = vec![("X-Debug".into(), "1".into()), ("Accept".into(), "*".into()), ("x-debug".into(), "2".into())];
    let bl = ApiPolicyRule::EndpointBlocklist { patterns: vec!["/admin".into()] };
    assert!(bl.matches(&e));
    let ci = ApiPolicyRule::ContentInspection { detect_pii: false, detect_secrets: true, detect_prompt_injection: false };
    assert!(ci.matches(&e));
    let ci_off = ApiPolicyRule::ContentInspection { detect_pii: true, detect_secrets: false, detect_prompt_injection: true };
    assert!(!ci_off.matches(&e));
    let hf = ApiPolicyRule::HeaderFilter { allow_headers: vec![], block_headers: vec!["X-DEBUG".into()] };
    assert!(hf.matches_any_blocked_header(&e));
    assert!(!bl.matches_any_blocked_header(&e));

    let mut engine = ProxyEngine::new(vec![hf]);
    let d = engine.evaluate(&e);
    assert_eq!(block_reason(&d).0, "Blocked headers present: X-Debug, x-debug");

    let mut engine = ProxyEngine::new(vec![ci, bl]);
    let d = engine.evaluate(&e);
    assert_eq!(
        block_reason(&d),
        ("Request body contains sensitive data (secret/PII detected)".to_string(), Some("content_inspection".to_string()))
    );
}

#[test]
fn time_of_day_restriction_uses_the_hour() {
    let rule = ApiPolicyRule::TimeOfDayRestriction { min_hour_utc: 9, max_hour_utc: 17 };
    let e = event("GET", "https://api.stripe.com/v1", "stripe");
    assert!(rule.matches_at(&e, 8));
    assert!(!rule.matches_at(&e, 9));
    assert!(rule.matches_at(&e, 18));
    let mut engine = ProxyEngine::new(vec![rule]);
    let d = engine.evaluate_with_cost_at(&e, 0, 0, 3);
    assert_eq!(block_reason(&d).0, "Outside permitted hours: 3 UTC not in 9-17 UTC");
    assert_eq!(utc_hour_at(3600 * 27), 3);
}

#[test]
fn rate_limit_counts_requests_per_minute() {
    let rule = ApiPolicyRule::RateLimitPerProvider { provider: "openai".into(), max_requests_per_minute: 2 };
    let mut engine = ProxyEngine::new(vec![rule]);
    let e = event("GET", "https://api.openai.com/v1/models", "openai");
    assert!(engine.evaluate_with_cost_at(&e, 0, 1_000, 12).is_allowed());
    assert!(engine.evaluate_with_cost_at(&e, 0, 2_000, 12).is_allowed());
    let d = engine.evaluate_with_cost_at(&e, 0, 3_000, 12);
    assert_eq!(
        block_reason(&d),
        ("Rate limit exceeded for openai: 3 requests/min > 2 allowed".to_string(), Some("rate_limit_per_provider".to_string()))
    );
    // A minute later the old requests have left the window.
    assert!(engine.evaluate_with_cost_at(&e, 0, 62_500, 12).is_allowed());
    // Other providers are not counted.
    assert!(engine.evaluate_with_cost_at(&event("GET", "https://x", "stripe"), 0, 62_600, 12).is_allowed());
}

#[test]
fn budgets_and_cost_cap_accumulate() {
    let rules = vec![
        ApiPolicyRule::ProviderBudget { provider: "openai".into(), max_usd_cents_per_window: 100, window_minutes: 1 },
        ApiPolicyRule::CostCap { max_usd_cents_per_month: 1_000 },
    ];
    let mut engine = ProxyEngine::new(rules);
    let e = event("POST", "https://api.openai.com/v1/chat", "openai");
    assert!(engine.evaluate_with_cost_at(&e, 60, 0, 0).is_allowed());
    let d = engine.evaluate_with_cost_at(&e, 60, 1_000, 0);
    assert_eq!(block_reason(&d).0, "Provider budget exceeded for openai: 120¢ > 100¢ per 1min");
    // After the window the budget starts again.
    assert!(engine.evaluate_with_cost_at(&e, 60, 61_000, 0).is_allowed());
    // Without a cost, budgets do not apply.
    assert!(engine.evaluate(&e).is_allowed());
    let mut cap = ProxyEngine::new(vec![ApiPolicyRule::CostCap { max_usd_cents_per_month: 100 }]);
    assert!(cap.evaluate_with_cost(&e, 100).is_allowed());
    assert_eq!(block_reason(&cap.evaluate_with_cost(&e, 1)).0, "Monthly cost cap exceeded: 101¢ > 100¢");
}

#[test]
fn providers_are_detected_by_host() {
    assert_eq!(ProxyEngine::detect_provider("https://api.openai.com/v1"), Some("openai"));
    assert_eq!(ProxyEngine::detect_provider("https://hooks.slack.com/x"), Some("slack"));
    assert_eq!(ProxyEngine::detect_provider("https://s3.amazonaws.com"), Some("aws"));
    assert_eq!(ProxyEngine::detect_provider("https://example.com"), None);
}

#[test]
fn openapi_document_becomes_an_allowlist() {
    let doc = OpenApiDocument {
        title: None,
        version: Some("1.2.0".into()),
        paths: Some(vec![
            (
                "/pets".into(),
                Some(vec![
                    ("get".into(), Some(vec![Some("pets".into()), None])),
                    ("post".into(), None),
                    ("parameters".into(), None),
                ]),
            ),
            ("/pets/{id}".into(), Some(vec![("get".into(), Some(vec![]))])),
            ("/broken".into(), None),
        ]),
    };
    let spec = OpenApiSpec::from_document(&doc);
    assert_eq!(spec.title(), "Unknown");
    assert_eq!(spec.version(), "1.2.0");
    assert_eq!(
        spec.endpoint_allowlist(),
        vec![
            ("/pets".to_string(), "GET".to_string()),
            ("/pets".to_string(), "POST".to_string()),
            ("/pets/{id}".to_string(), "GET".to_string())
        ]
    );
    match spec.to_allowlist_rule() {
        ApiPolicyRule::EndpointAllowlist { paths, methods } => {
            assert_eq!(paths, vec!["/pets".to_string(), "/pets/{id}".to_string()]);
            assert_eq!(methods, vec!["GET".to_string(), "POST".to_string()]);
        }
        _ => panic!("expected an allowlist"),
    }
}

#[test]
fn rate_limit_passes_at_most_its_maximum_in_any_minute() {
    let limit = ApiPolicyRule::RateLimitPerProvider { provider: "openai".into(), max_requests_per_minute: 3 };
    let budget = ApiPolicyRule::ProviderBudget { provider: "openai".into(), max_usd_cents_per_window: 1_000, window_minutes: 60 };
    let mut engine = ProxyEngine::new(vec![limit, budget]);
    let openai = event("GET", "https://api.openai.com/v1/models", "openai");
    let stripe = event("GET", "https://api.stripe.com/v1/charges", "stripe");
    let mut passed = 0;
    for k in 0..10u64 {
        let t = 1_000 + k * 5_000;
        if engine.evaluate_with_cost_at(&openai, 1, t, 12).is_allowed() {
            passed += 1;
        }
        assert!(engine.evaluate_with_cost_at(&stripe, 1, t + 1, 12).is_allowed());
    }
    assert_eq!(passed, 3);
}

#[test]
fn openapi_json_is_parsed_into_an_allowlist() {
    let json = r#"{"info":{"title":"Pets","version":"2.0"},"paths":{"/pets":{"get":{"tags":["pets",7]},"delete":{},"summary":"x"},"/n":3}}"#;
    let spec = OpenApiSpec::from_json(json).unwrap();
    assert_eq!(spec.title(), "Pets");
    assert_eq!(spec.version(), "2.0");
    assert_eq!(
        spec.endpoint_allowlist(),
        vec![("/pets".to_string(), "DELETE".to_string()), ("/pets".to_string(), "GET".to_string())]
    );
    let get = spec.endpoints.iter().find(|e| e.1 == "GET").unwrap();
    assert_eq!(get.2, vec!["pets".to_string()]);
    let bare = OpenApiSpec::from_json("{}").unwrap();
    assert_eq!((bare.title(), bare.version()), ("Unknown", "0.0.0"));
    assert!(bare.endpoints.is_empty());
    let err = OpenApiSpec::from_json("{not json").unwrap_err();
    assert!(err.starts_with("Invalid JSON: "), "{err}");
    assert!(err.len() > "Invalid JSON: ".len());
}

#[test]
fn free_calls_pass_budgets_and_caps() {
    let rules = vec![
        ApiPolicyRule::ProviderBudget { provider: "openai".into(), max_usd_cents_per_window: 0, window_minutes: 1 },
        ApiPolicyRule::CostCap { max_usd_cents_per_month: 0 },
    ];
    let mut engine = ProxyEngine::new(rules);
    let e = event("POST", "https://api.openai.com/v1/chat", "openai");
    for k in 0..5u64 {
        assert!(engine.evaluate_with_cost_at(&e, 0, k * 1_000, 12).is_allowed());
    }
    assert!(engine.state.provider_spend.is_empty() && engine.state.monthly_spend.is_none());
    assert!(engine.evaluate(&e).is_allowed());
    assert!(engine.evaluate_with_cost_at(&e, 1, 10_000, 12).is_blocked());
}

#[test]
fn stateless_block_spends_nothing() {
    let rules = vec![
        ApiPolicyRule::EndpointBlocklist { patterns: vec!["/admin".into()] },
        ApiPolicyRule::RateLimitPerProvider { provider: "openai".into(), max_requests_per_minute: 1 },
    ];
    let mut engine = ProxyEngine::new(rules);
    let admin = event("GET", "https://api.openai.com/admin", "openai");
    let d = engine.evaluate_with_cost_at(&admin, 5, 0, 12);
    assert_eq!(block_reason(&d).1.as_deref(), Some("endpoint_blocklist"));
    assert!(engine.state.request_times.is_empty());
    let ok = event("GET", "https://api.openai.com/v1/models", "openai");
    assert!(engine.evaluate_with_cost_at(&ok, 0, 1, 12).is_allowed());
}

#[test]
fn listed_endpoints_pass_the_allowlist() {
    let spec = OpenApiSpec::from_json(r#"{"paths":{"/a":{"get":{},"post":{}},"/b":{"get":{}}}}"#).unwrap();
    let mut engine = ProxyEngine::new(vec![spec.to_allowlist_rule()]);
    for (path, method) in spec.endpoint_allowlist() {
        let e = event(&method.to_lowercase(), &format!("https://api.example.com{path}"), "x");
        assert!(engine.evaluate_with_cost_at(&e, 0, 0, 12).is_allowed(), "{method} {path}");
    }
    assert!(engine.evaluate_with_cost_at(&event("GET", "https://api.example.com/c", "x"), 0, 0, 12).is_blocked());
}
