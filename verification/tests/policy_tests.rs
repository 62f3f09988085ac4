use std::collections::HashMap;

use bastion::policy::exception::TrustException;
use bastion::policy::lifecycle::PolicyLifecycle;
use bastion::policy::report::TrustReport;
use bastion::policy::rules::PolicyRule;
use bastion::policy::scanner::{BackgroundScanner, ScanSnapshot};
use bastion::policy::trust_policy::{
    BackgroundConfig, GenerateRules, GeofenceBounds, HitlConfig, MatchCriteria, MutateRules, OperatingHoursRange,
    PolicyMetadata, PolicyMode, PolicySpec, ScanFindingKind, TrustPolicy, ValidateRules,
};
use bastion::risk::{TrustSignalProvider, RiskScore, WebacyClient};
use bastion::transaction::Address;

fn scanner() -> BackgroundScanner {
    BackgroundScanner::new(3600).with_ttls(100, 1000)
}

fn all_on() -> BackgroundConfig {
    BackgroundConfig::default()
}

#[test]
fn empty_snapshot_reports_no_violations() {
    let result = scanner().scan(&ScanSnapshot::default(), &all_on());
    assert_eq!(result.expired_approvals, 0);
    assert_eq!(result.expired_delegations, 0);
    assert_eq!(result.policy_drifts, 0);
    assert_eq!(result.unsettled_transactions, 0);
    assert!(result.findings.is_empty());
}

#[test]
fn expired_approvals_respect_ttl_boundary() {
    let snapshot = ScanSnapshot {
        now: 10_000,
        pending_approvals: vec![("fresh".into(), 9_950), ("stale".into(), 9_800)],
        ..Default::default()
    };
    let result = scanner().scan(&snapshot, &all_on());
    assert_eq!(result.expired_approvals, 1);
    assert_eq!(result.findings[0].id, "stale");
    assert_eq!(result.findings[0].kind, ScanFindingKind::ExpiredApproval);
}

#[test]
fn disabled_detectors_report_nothing() {
    let snapshot = ScanSnapshot {
        now: 10_000,
        pending_approvals: vec![("stale".into(), 0)],
        delegation_expiries: vec![("did:bastion:a".into(), 5)],
        drifted_policies: vec!["policy-a".into()],
        open_plans: vec![("plan-1".into(), 0)],
    };
    let config = BackgroundConfig {
        detect_expired_approvals: false,
        detect_expired_delegations: false,
        detect_policy_drift: false,
        detect_unsettled_transactions: false,
        ..Default::default()
    };
    let result = scanner().scan(&snapshot, &config);
    assert_eq!(result.expired_approvals, 0);
    assert_eq!(result.expired_delegations, 0);
    assert_eq!(result.policy_drifts, 0);
    assert_eq!(result.unsettled_transactions, 0);
    assert!(result.findings.is_empty());
}

#[test]
fn counts_each_detector_independently() {
    let snapshot = ScanSnapshot {
        now: 10_000,
        pending_approvals: vec![("stale".into(), 0)],
        delegation_expiries: vec![("did:bastion:expired".into(), 9_000), ("did:bastion:active".into(), 20_000)],
        drifted_policies: vec!["policy-a".into(), "policy-b".into()],
        open_plans: vec![("plan-old".into(), 5_000), ("plan-new".into(), 9_950)],
    };
    let result = scanner().scan(&snapshot, &all_on());
    assert_eq!(result.expired_approvals, 1);
    assert_eq!(result.expired_delegations, 1);
    assert_eq!(result.policy_drifts, 2);
    assert_eq!(result.unsettled_transactions, 1);
    assert_eq!(result.findings.len(), 5);
}

#[test]
fn scan_details_name_the_limits() {
    let snapshot = ScanSnapshot {
        now: 10_000,
        pending_approvals: vec![("stale".into(), 9_900)],
        delegation_expiries: vec![("did:bastion:edge".into(), 10_000)],
        drifted_policies: vec![],
        open_plans: vec![("plan-edge".into(), 9_000)],
    };
    let result = scanner().scan(&snapshot, &all_on());
    assert_eq!(result.timestamp, 10_000);
    assert_eq!(result.findings.len(), 3);
    assert_eq!(result.findings[0].detail, "approval held for more than 100s");
    assert_eq!(result.findings[1].kind, ScanFindingKind::ExpiredDelegation);
    assert_eq!(result.findings[1].detail, "delegation expiry has passed");
    assert_eq!(result.findings[2].detail, "plan idle for more than 1000s without settling");
}

#[test]
fn scanner_defaults() {
    let s = BackgroundScanner::new(60);
    assert_eq!(s.scan_interval_secs, 60);
    assert_eq!(s.approval_ttl_secs, 3600);
    assert_eq!(s.unsettled_ttl_secs, 86_400);
    let c = BackgroundConfig::default();
    assert_eq!(c.scan_interval, 3600);
    assert!(c.detect_policy_drift);
}

fn empty_validate() -> ValidateRules {
    ValidateRules {
        max_per_transaction: None,
        max_per_24h: None,
        allowlist: vec![],
        blocklist: vec![],
        max_transactions_per_hour: None,
        allowed_chains: vec![],
        allowed_tx_types: vec![],
        min_reputation_score: None,
        geofence: None,
        max_speed_mps_bits: None,
        max_joules_24h: None,
        operating_hours: None,
        min_stake_sol: None,
    }
}

fn policy(name: &str, matching: MatchCriteria, validate: ValidateRules, mutate: MutateRules) -> TrustPolicy {
    TrustPolicy {
        api_version: "bastion.io/v1".into(),
        kind: "TrustPolicy".into(),
        metadata: PolicyMetadata { name: name.into(), agent: None, labels: HashMap::new() },
        spec: PolicySpec {
            matching,
            validate,
            mutate,
            generate: GenerateRules { attestation: None, approval_request: None, audit_event: None, settlement_record: None },
            background: BackgroundConfig::default(),
            exceptions: vec![],
        },
        status: None,
    }
}

fn no_match() -> MatchCriteria {
    MatchCriteria { intent: None, chains: vec![], currency: None }
}

fn no_mutate() -> MutateRules {
    MutateRules { inject_human_approval: None, inject_budget_check: None, inject_simulation: None }
}

#[test]
fn all_rule_types_preserved_in_mapping() {
    let validate = ValidateRules {
        max_per_transaction: Some(5000),
        max_per_24h: Some(50000),
        allowlist: vec!["0x1111".into(), "0x2222".into()],
        blocklist: vec!["0xdead".into()],
        max_transactions_per_hour: Some(30),
        allowed_chains: vec![],
        allowed_tx_types: vec!["swap".into(), "transfer".into(), "stake".into()],
        min_reputation_score: Some(70),
        geofence: Some(GeofenceBounds {
            lat_min_bits: (-6.2f64).to_bits(),
            lon_min_bits: 106.8f64.to_bits(),
            lat_max_bits: (-6.1f64).to_bits(),
            lon_max_bits: 107.0f64.to_bits(),
        }),
        max_speed_mps_bits: Some(2.5f64.to_bits()),
        max_joules_24h: Some(1_000_000),
        operating_hours: Some(OperatingHoursRange { min_hour: 6, max_hour: 22 }),
        min_stake_sol: Some(10),
    };
    let matching = MatchCriteria {
        intent: Some("transfer".into()),
        chains: vec!["ethereum".into(), "solana".into()],
        currency: Some("USDC".into()),
    };
    let mutate = MutateRules {
        inject_human_approval: Some(HitlConfig { trigger_above: 1000, timeout_seconds: 3600 }),
        inject_budget_check: Some(true),
        inject_simulation: Some(true),
    };
    let rules = policy("full-coverage", matching, validate, mutate).to_policy_rules();
    assert_eq!(rules.len(), 11, "All 11 rule types must map");
    let names: Vec<_> = rules.iter().map(|r| r.rule_name()).collect();
    for n in [
        "amount_limit", "destination", "frequency", "hitl", "reputation", "tx_type_allowlist",
        "stake_weighted", "geofence", "speed_limit", "energy_budget", "operating_hours",
    ] {
        assert!(names.contains(&n));
    }
}

#[test]
fn empty_policy_produces_no_rules() {
    let rules = policy("empty", no_match(), empty_validate(), no_mutate()).to_policy_rules();
    assert_eq!(rules.len(), 0, "Empty policy must produce zero rules");
}

#[test]
fn match_criteria_works() {
    let matching = MatchCriteria { intent: Some("swap".into()), chains: vec!["solana".into()], currency: None };
    let mut validate = empty_validate();
    validate.max_per_transaction = Some(100);
    let p = policy("swap-only", matching, validate, no_mutate());
    assert!(p.matches("swap", "solana"), "Must match swap on solana");
    assert!(!p.matches("transfer", "solana"), "Must not match transfer");
    assert!(!p.matches("swap", "ethereum"), "Must not match ethereum chain");
}

#[test]
fn amount_limit_mapping() {
    let matching = MatchCriteria { intent: None, chains: vec![], currency: Some("USDC".into()) };
    let mut validate = empty_validate();
    validate.max_per_transaction = Some(5000);
    validate.max_per_24h = Some(50000);
    let rules = policy("amount-cap", matching, validate, no_mutate()).to_policy_rules();
    assert_eq!(rules.len(), 1);
    match &rules[0] {
        PolicyRule::AmountLimit { max_per_transaction, max_per_24h, currency } => {
            assert_eq!(*max_per_transaction, 5000);
            assert_eq!(*max_per_24h, Some(50000));
            assert_eq!(currency, "USDC");
        }
        _ => panic!("Expected AmountLimit rule"),
    }
}

#[test]
fn amount_limit_defaults_to_sol_and_stake_base() {
    let mut validate = empty_validate();
    validate.min_stake_sol = Some(7);
    validate.max_per_transaction = Some(250);
    let rules = policy("stake", no_match(), validate, no_mutate()).to_policy_rules();
    assert_eq!(rules.len(), 2);
    match &rules[0] {
        PolicyRule::AmountLimit { currency, .. } => assert_eq!(currency, "SOL"),
        _ => panic!("Expected AmountLimit rule"),
    }
    match &rules[1] {
        PolicyRule::StakeWeighted { base_limit, min_stake, stake_multiplier_bits, depth_decay_factor_bits } => {
            assert_eq!(*base_limit, 250);
            assert_eq!(*min_stake, 7);
            assert_eq!(f64::from_bits(*stake_multiplier_bits), 1.0);
            assert_eq!(f64::from_bits(*depth_decay_factor_bits), 0.5);
        }
        _ => panic!("Expected StakeWeighted rule"),
    }
}

#[test]
fn geofence_bounds_preserved() {
    let mut validate = empty_validate();
    validate.geofence = Some(GeofenceBounds {
        lat_min_bits: (-6.2f64).to_bits(),
        lon_min_bits: 106.8f64.to_bits(),
        lat_max_bits: (-6.1f64).to_bits(),
        lon_max_bits: 107.0f64.to_bits(),
    });
    let rules = policy("geo-bounds", no_match(), validate, no_mutate()).to_policy_rules();
    match &rules[0] {
        PolicyRule::Geofence { lat_min_bits, lon_min_bits, lat_max_bits, lon_max_bits } => {
            assert!((f64::from_bits(*lat_min_bits) - (-6.2)).abs() < 0.001);
            assert!((f64::from_bits(*lon_min_bits) - 106.8).abs() < 0.001);
            assert!((f64::from_bits(*lat_max_bits) - (-6.1)).abs() < 0.001);
            assert!((f64::from_bits(*lon_max_bits) - 107.0).abs() < 0.001);
        }
        _ => panic!("Expected Geofence rule"),
    }
}

#[test]
fn hitl_mutation_mapping() {
    let mutate = MutateRules {
        inject_human_approval: Some(HitlConfig { trigger_above: 1000, timeout_seconds: 3600 }),
        inject_budget_check: None,
        inject_simulation: None,
    };
    let rules = policy("hitl-gate", no_match(), empty_validate(), mutate).to_policy_rules();
    assert_eq!(rules.len(), 1);
    match &rules[0] {
        PolicyRule::HITL { trigger_above, timeout_seconds } => {
            assert_eq!(*trigger_above, 1000);
            assert_eq!(*timeout_seconds, 3600);
        }
        _ => panic!("Expected HITL rule"),
    }
}

#[test]
fn destination_rule_keeps_address_lists() {
    let mut validate = empty_validate();
    validate.blocklist = vec!["0xdead".into()];
    let rules = policy("dest", no_match(), validate, no_mutate()).to_policy_rules();
    match &rules[0] {
        PolicyRule::Destination { allowlist, blocklist } => {
            assert!(allowlist.is_empty());
            assert_eq!(blocklist.len(), 1);
            assert_eq!(blocklist[0].as_str(), "0xdead");
        }
        _ => panic!("Expected Destination rule"),
    }
}

#[test]
fn lifecycle_moves_between_audit_and_enforce() {
    let p = policy("life", no_match(), empty_validate(), no_mutate());
    let mut l = PolicyLifecycle::new(p);
    assert_eq!(*l.mode(), PolicyMode::Audit);
    l.enforce();
    assert_eq!(*l.mode(), PolicyMode::Enforce);
    let st = l.status();
    assert_eq!(st.mode, PolicyMode::Enforce);
    assert_eq!(st.evaluations, 0);
    assert!(st.last_scan.is_none());
    l.audit();
    assert_eq!(*l.mode(), PolicyMode::Audit);
}

#[test]
fn report_starts_compliant() {
    let mut r = TrustReport::new("treasury-guard", PolicyMode::Enforce);
    assert!(r.compliant);
    assert_eq!(r.policy_name, "treasury-guard");
    r.mark_non_compliant();
    assert!(!r.compliant);
    assert_eq!(r.mode, PolicyMode::Enforce);
}

#[test]
fn exception_expiry_is_strict() {
    let e = TrustException::new("treasury-guard", "audit window", 1_000, "ops");
    assert_eq!(e.id.len(), 36);
    assert!(!e.expired_at(1_000));
    assert!(e.expired_at(1_001));
    let future = TrustException::new("p", "r", u64::MAX, "a");
    assert!(!future.is_expired());
    let past = TrustException::new("p", "r", 0, "a");
    assert!(past.is_expired());
}

#[test]
fn risk_scores_fall_in_one_band() {
    assert_eq!(RiskScore::new(250).value(), 100);
    assert!(RiskScore::new(25).is_low_risk());
    assert!(RiskScore::new(26).is_medium_risk());
    assert!(RiskScore::new(60).is_medium_risk());
    assert!(RiskScore::new(61).is_high_risk());
    for v in 0..=255u8 {
        let s = RiskScore::new(v);
        let bands = [s.is_low_risk(), s.is_medium_risk(), s.is_high_risk()];
        assert_eq!(bands.iter().filter(|b| **b).count(), 1);
    }
}

#[test]
fn webacy_client_reports_trusted() {
    let c = WebacyClient::new("key").with_base_url("http://localhost:1");
    assert_eq!(c.base_url, "http://localhost:1");
    assert_eq!(c.api_key, "key");
    assert_eq!(c.provider_name(), "Webacy");
    assert_eq!(c.address_risk(&Address::new("0xabc")).ok().map(|s| s.value()), Some(0));
    assert_eq!(WebacyClient::new("k").base_url, "https://api.webacy.com");
}
