use std::collections::HashMap;

use bastion::adapter::{SimulationOutcome, TrustAdapter, TrustAdapterError};
use bastion::audit::AuditRecord;
use bastion::decision::FirewallDecision;
use bastion::digest::{hex_encode, sha256_hex};
use sha2::Digest;
use bastion::num::{parse_hex_u128, parse_u64};
use bastion::plan::{Action, ActionType, Intent};
use bastion::policy::trust_policy::{
    BackgroundConfig, GenerateRules, MatchCriteria, MutateRules, PolicyMetadata, PolicyMode, PolicySpec, TrustPolicy,
    ValidateRules,
};
use bastion::sidecar::evm::{
    eth_call_fields, evm_chain_env_vars, evm_rpc_env_var, evm_simulation_result, tx_value, BalanceReadings, EvmCallOutcome, EvmSimulator,
    EvmTxParams,
};
use bastion::sidecar::policies::{
    parse_mode, test_policy, CreateExceptionRequest, ExceptionRegistry, PolicyRegistry, RegistryError, TestPolicyRequest,
};
use bastion::policy::lifecycle::PolicyLifecycle;
use bastion::sidecar::scan::{approval_ttl_secs, drifted_policy_names, plan_is_unsettled, policy_has_drifted, scan_interval_secs, unsettled_ttl_secs, LivePolicy};
use bastion::sidecar::simulation::compute_simulation_hash;
use bastion::sidecar::solana::{project_solana_outcome, SolanaAdapter};
use bastion::sidecar::workflows::{default_require_approval, parse_signal, plan_execution, unknown_signal_message, ExecuteIntentRequest};
use bastion::transaction::{Address, AgentId, Chain};
use bastion::workflow::engine::Signal;
use bastion::workflow::state::WorkflowStatus;

#[test]
fn test_evm_rpc_env_var_mapping() {
    assert_eq!(evm_rpc_env_var("ethereum"), "ETH_RPC_URL");
    assert_eq!(evm_rpc_env_var("base"), "BASE_RPC_URL");
    assert_eq!(evm_rpc_env_var("celo"), "CELO_RPC_URL");
    assert_eq!(evm_rpc_env_var("sepolia"), "ETH_SEPOLIA_RPC_URL");
    assert_eq!(evm_rpc_env_var("polygon"), "POLYGON_RPC_URL");
}

#[test]
fn evm_chain_table_agrees_with_mapping() {
    for (chain, var) in evm_chain_env_vars() {
        assert_eq!(evm_rpc_env_var(chain), var);
    }
}

#[test]
fn test_evm_simulator_creation() {
    let sim = EvmSimulator::from_rpc_url("http://localhost:8545");
    assert_eq!(sim.rpc_url, "http://localhost:8545");
    assert_eq!(sim.chain_label(), "evm");
}

#[test]
fn test_evm_simulator_for_chain_labels() {
    let sim = EvmSimulator::for_chain("ethereum", "http://localhost:8545");
    assert_eq!(sim.chain_label(), "ethereum");
    assert_eq!(sim.rpc_url, "http://localhost:8545");
    let celo = EvmSimulator::new(None);
    assert_eq!(celo.rpc_url, "https://forno.celo.org");
    assert_eq!(celo.chain_label(), "celo");
}

fn tx(value: Option<&str>) -> EvmTxParams {
    EvmTxParams {
        from: "0x1234".into(),
        to: "0x5678".into(),
        value: value.map(|v| v.to_string()),
        data: Some("0x".into()),
        gas: None,
        gas_price: None,
        max_fee_per_gas: None,
        max_priority_fee_per_gas: None,
        nonce: None,
    }
}

#[test]
fn evm_value_parsing() {
    assert_eq!(tx_value(&tx(Some("0xDE0B6B3A7640000"))), 1_000_000_000_000_000_000);
    assert_eq!(tx_value(&tx(None)), 0);
    assert_eq!(tx_value(&tx(Some("0x0x10"))), 16);
    assert_eq!(tx_value(&tx(Some("0xzz"))), 0);
    assert_eq!(parse_hex_u128("+ff"), Some(255));
    assert_eq!(parse_hex_u128(""), None);
    assert_eq!(parse_hex_u128("1_0"), None);
    assert_eq!(parse_u64("18446744073709551615"), Some(u64::MAX));
    assert_eq!(parse_u64("18446744073709551616"), None);
    assert_eq!(parse_u64("+42"), Some(42));
    assert_eq!(parse_u64("-1"), None);
    assert_eq!(parse_u64(" 1"), None);
}

#[test]
fn evm_simulation_reports_call_and_balance_changes() {
    let call = EvmCallOutcome { result: Some("0xabcd".into()), error: Some((-32000, "execution \"reverted\"".into())) };
    let b = BalanceReadings { pre_from: 1_000, pre_to: 50, post_from: 880, post_to: 150 };
    let r = evm_simulation_result(&tx(Some("0x64")), &call, b);
    assert_eq!(r.logs, vec![
        "eth_call succeeded, return data: 0xabcd".to_string(),
        "eth_call error: execution \"reverted\" (code -32000)".to_string(),
    ]);
    let rd = r.return_data.as_ref().unwrap();
    assert_eq!((rd.data.as_str(), rd.encoding.as_str(), rd.program_id.as_str()), ("0xabcd", "hex", "0x5678"));
    assert_eq!(r.error.as_deref(), Some("{\"code\":-32000,\"message\":\"execution \\\"reverted\\\"\"}"));
    assert_eq!(r.balance_changes, vec![("0x1234".to_string(), -220), ("0x5678".to_string(), 200)]);
    assert_eq!(r.simulation_hash, Some(compute_simulation_hash(&r.logs, &r.error)));

    let empty = EvmCallOutcome { result: Some("0x".into()), error: None };
    let r = evm_simulation_result(&tx(None), &empty, BalanceReadings { pre_from: 5, pre_to: 5, post_from: 5, post_to: 5 });
    assert_eq!(r.logs, vec!["eth_call returned 0x (empty)".to_string()]);
    assert!(r.return_data.is_none());
    assert!(r.balance_changes.is_empty());
}

#[test]
fn simulation_hash_covers_logs_and_error() {
    let logs = vec!["a".to_string(), "b".to_string()];
    let h = compute_simulation_hash(&logs, &None);
    assert_eq!(&h[..], sha2::Sha256::digest(b"a\0b\0").as_slice());
    let with_err = compute_simulation_hash(&logs, &Some("{}".to_string()));
    assert_eq!(&with_err[..], sha2::Sha256::digest(b"a\0b\0{}").as_slice());
    assert_ne!(h, with_err);
}

#[test]
fn digests_are_sha256_in_hex() {
    assert_eq!(hex_encode(&[0x00, 0xab, 0x0f]), "00ab0f");
    assert_eq!(
        sha256_hex(b"abc"),
        "0xba7816bf8f01cfea414140de5dae2223b00361a396177a9cb410ff61f20015ad"
    );
    let h = AuditRecord::recompute_wyriwe_hash("{\"amount\":1}");
    assert_eq!(h.len(), 66);
    assert!(h.starts_with("0x"));
    assert_eq!(h, AuditRecord::recompute_wyriwe_hash("{\"amount\":1}"));
    assert_ne!(h, AuditRecord::recompute_wyriwe_hash("{\"amount\":2}"));
}

#[test]
fn test_authenticate_valid_and_invalid_pubkey() {
    let adapter = SolanaAdapter::disabled();
    let valid = Address::new("11111111111111111111111111111111");
    let identity = adapter.authenticate(&valid).unwrap();
    assert_eq!(identity.chain, Chain::Solana);
    assert_eq!(identity.address.as_str(), "11111111111111111111111111111111");
    let invalid = Address::new("not-a-base58-pubkey");
    assert!(adapter.authenticate(&invalid).is_err());
    match adapter.authenticate(&Address::new("2")) {
        Err(TrustAdapterError::AuthenticationFailed(m)) => assert_eq!(m, "Solana pubkey must be 32 bytes, got 1"),
        other => panic!("unexpected {other:?}"),
    }
}

#[test]
fn test_verify_transfer_projection_offline() {
    let adapter = SolanaAdapter::disabled();
    let outcome = adapter.verify(&Address::new("abc"), &Address::new("def"), 1_000_000_000).unwrap();
    assert!(outcome.success);
    let change = outcome.balance_changes.iter().find(|(k, _)| k == "abc").map(|(_, v)| *v).unwrap_or(0);
    assert_eq!(change, -(1_000_000_000_i64));
    assert_eq!(outcome.logs[1], "projected transfer of 1000000000 lamports");
    let huge = adapter.verify_transfer(&"abc".to_string(), &"def".to_string(), u64::MAX);
    assert!(!huge.success);
    assert!(huge.balance_changes.is_empty());
}

#[test]
fn test_execute_disabled_by_default() {
    let adapter = SolanaAdapter::disabled();
    let (from, to) = (Address::new("abc"), Address::new("def"));
    match adapter.execute(&from, &to, 1) {
        Err(TrustAdapterError::ExecutionFailed(m)) => assert!(m.contains("BASTION_SOLANA_EXECUTE")),
        other => panic!("unexpected {other:?}"),
    }
    let enabled = SolanaAdapter::new("http://localhost:8899".into(), true);
    assert_eq!(enabled.execute(&from, &to, 255).unwrap().tx_hash, "solana:simulated:ff");
}

#[test]
fn test_chain_metadata() {
    let adapter = SolanaAdapter::disabled();
    assert_eq!(adapter.chain_name(), "solana");
    assert_eq!(adapter.chain(), Chain::Solana);
    assert_eq!(adapter.rpc_url(), "");
}

#[test]
fn solana_outcome_projection() {
    let out = SolanaAdapter::simulation_outcome(12, Some((-3, "bad".into())));
    assert!(!out.success);
    assert_eq!(out.logs, vec!["simulateTransaction error -3: bad".to_string()]);
    let ok = SolanaAdapter::simulation_outcome(12, None);
    assert_eq!(ok.logs, vec!["simulateTransaction OK (len=12)".to_string()]);
    let r = project_solana_outcome(&out, "dest");
    assert_eq!(r.error.as_deref(), Some("{\"message\":\"Solana simulation did not succeed\"}"));
    assert_eq!(r.return_data.as_ref().unwrap().program_id, "dest");
    let fine = SimulationOutcome { balance_changes: vec![("a".into(), 1)], logs: vec![], success: true };
    assert!(project_solana_outcome(&fine, "d").error.is_none());
}

fn trust_policy(name: &str, blocklist: Vec<String>, cap: Option<u64>) -> TrustPolicy {
    TrustPolicy {
        api_version: "bastion.io/v1".into(),
        kind: "TrustPolicy".into(),
        metadata: PolicyMetadata { name: name.into(), agent: None, labels: HashMap::new() },
        spec: PolicySpec {
            matching: MatchCriteria { intent: Some("transfer".into()), chains: vec![], currency: None },
            validate: ValidateRules {
                max_per_transaction: cap,
                max_per_24h: None,
                allowlist: vec![],
                blocklist,
                max_transactions_per_hour: None,
                allowed_chains: vec![],
                allowed_tx_types: vec![],
                min_reputation_score: None,
                geofence: None,
                max_speed_mps_bits: None,
                max_joules_24h: None,
                operating_hours: None,
                min_stake_sol: None,
            },
            mutate: MutateRules { inject_human_approval: None, inject_budget_check: None, inject_simulation: None },
            generate: GenerateRules { attestation: None, approval_request: None, audit_event: None, settlement_record: None },
            background: BackgroundConfig::default(),
            exceptions: vec![],
        },
        status: None,
    }
}

#[test]
fn drift_compares_blocklists_and_caps() {
    let live = LivePolicy { blocked_addresses: vec!["0xdead".into()], max_sol_per_tx: Some(100) };
    assert!(!policy_has_drifted(&trust_policy("a", vec!["0xdead".into()], Some(100)), &live));
    assert!(policy_has_drifted(&trust_policy("b", vec!["0xbeef".into()], None), &live));
    assert!(policy_has_drifted(&trust_policy("c", vec![], Some(50)), &live));
    let no_cap = LivePolicy { blocked_addresses: vec![], max_sol_per_tx: None };
    assert!(policy_has_drifted(&trust_policy("d", vec![], Some(50)), &no_cap));
    assert!(!policy_has_drifted(&trust_policy("e", vec![], None), &no_cap));
}

#[test]
fn scan_settings_read_from_configuration() {
    assert_eq!(scan_interval_secs(None), 3600);
    assert_eq!(scan_interval_secs(Some("60")), 60);
    assert_eq!(approval_ttl_secs(Some("x")), 3600);
    assert_eq!(unsettled_ttl_secs(None), 86_400);
    assert!(plan_is_unsettled(&WorkflowStatus::Paused, false));
    assert!(plan_is_unsettled(&WorkflowStatus::Failed("x".into()), false));
    assert!(!plan_is_unsettled(&WorkflowStatus::Failed("x".into()), true));
    assert!(!plan_is_unsettled(&WorkflowStatus::Completed, false));
}

#[test]
fn policy_registry_round_trips() {
    let mut reg = PolicyRegistry::new();
    reg.create(trust_policy("ops", vec![], None));
    reg.create(trust_policy("treasury", vec![], None));
    assert_eq!(reg.find("treasury"), Some(1));
    assert_eq!(reg.set_mode("treasury", "enforce"), Ok(()));
    assert_eq!(reg.policies[1].current_mode, PolicyMode::Enforce);
    assert_eq!(reg.set_mode("treasury", "loud"), Err(RegistryError::InvalidMode));
    assert_eq!(reg.set_mode("missing", "loud"), Err(RegistryError::NotFound));
    assert_eq!(reg.update("treasury", trust_policy("treasury", vec!["0x1".into()], None)), Ok(()));
    assert_eq!(reg.policies[1].current_mode, PolicyMode::Audit);
    assert_eq!(reg.delete("ops"), Ok(()));
    assert_eq!(reg.find("ops"), None);
    assert_eq!(reg.delete("ops"), Err(RegistryError::NotFound));
    assert_eq!(parse_mode("audit"), Some(PolicyMode::Audit));
    assert_eq!(parse_mode("Audit"), None);
}

#[test]
fn dry_run_reports_match_and_rule_count() {
    let p = trust_policy("t", vec!["0x1".into()], Some(10));
    let hit = test_policy(&p, &TestPolicyRequest { intent: "transfer".into(), chain: "base".into(), amount: None });
    assert!(hit.matches);
    assert_eq!(hit.rules_evaluated, 2);
    assert_eq!(hit.decision, "would_audit");
    let miss = test_policy(&p, &TestPolicyRequest { intent: "swap".into(), chain: "base".into(), amount: Some(1) });
    assert_eq!(miss.decision, "no_match");
}

#[test]
fn signals_and_execution_requests() {
    assert_eq!(parse_signal("approve"), Some(Signal::Approve));
    assert_eq!(parse_signal("cancel"), Some(Signal::Cancel));
    assert_eq!(parse_signal("pause"), None);
    assert_eq!(unknown_signal_message("pause"), "unknown signal: pause");
    assert!(default_require_approval());
    let intent = Intent {
        description: "d".into(),
        agent_id: AgentId::new("agent"),
        source_chain: Chain::Base,
        actions: vec![],
        constraints: vec![],
    };
    match plan_execution(ExecuteIntentRequest { intent, require_approval: true }, 5) {
        Err(m) => assert_eq!(m, "intent has no actions"),
        Ok(_) => panic!("expected a refusal"),
    }
    let action = Action {
        action_type: ActionType::Stake,
        chain: Chain::Base,
        protocol: "p".into(),
        token: None,
        amount: None,
        destination: None,
        metadata: "{}".into(),
    };
    let intent = Intent {
        description: "d".into(),
        agent_id: AgentId::new("agent"),
        source_chain: Chain::Base,
        actions: vec![action],
        constraints: vec![],
    };
    let (plan, wf) = plan_execution(ExecuteIntentRequest { intent, require_approval: false }, 77).unwrap();
    assert_eq!(plan.created_at, 77);
    assert_eq!(plan.legs.len(), 1);
    assert_eq!(wf.steps.len(), 2);
}

#[test]
fn only_enforced_drifted_policies_are_named() {
    let live = LivePolicy { blocked_addresses: vec!["0xdead".into()], max_sol_per_tx: Some(100) };
    let mut a = PolicyLifecycle::new(trust_policy("a", vec!["0xbeef".into()], None));
    a.enforce();
    let b = PolicyLifecycle::new(trust_policy("b", vec!["0xbeef".into()], None));
    let mut c = PolicyLifecycle::new(trust_policy("c", vec!["0xdead".into()], Some(100)));
    c.enforce();
    let mut d = PolicyLifecycle::new(trust_policy("d", vec![], Some(10)));
    d.enforce();
    let names = drifted_policy_names(&vec![a, b, c, d], &live);
    assert_eq!(names, vec!["a".to_string(), "d".to_string()]);
}

#[test]
fn exceptions_are_granted_listed_and_revoked() {
    let mut registry = ExceptionRegistry::new();
    assert!(registry.exceptions.is_empty());
    let req = CreateExceptionRequest {
        policy_name: "treasury-guard".into(),
        reason: "quarterly audit window".into(),
        expires_in_hours: 4,
        approved_by: "test-suite".into(),
    };
    let pos = registry.grant(&req, 1_000);
    assert_eq!(pos, 0);
    let e = &registry.exceptions[0];
    assert_eq!(e.policy_name, "treasury-guard");
    assert_eq!(e.expires_at, 1_000 + 4 * 3600);
    assert_eq!(e.id.len(), 36);
    let id = e.id.clone();
    assert_eq!(registry.find(&id), Some(0));
    assert_eq!(registry.revoke(&id), Ok(()));
    assert!(registry.exceptions.is_empty());
    assert_eq!(registry.revoke(&id), Err(RegistryError::NotFound));
    let forever = CreateExceptionRequest { expires_in_hours: u64::MAX, ..req };
    registry.grant(&forever, 5);
    assert_eq!(registry.exceptions[0].expires_at, u64::MAX);
}

#[test]
fn observation_digest_hashes_the_decision_debug_text() {
    let block = FirewallDecision::Block { reason: "over \"limit\"\n".into(), policy_id: Some("p1".into()) };
    assert_eq!(block.debug_text(), format!("{:?}", block));
    let unnamed = FirewallDecision::Block { reason: "r".into(), policy_id: None };
    assert_eq!(unnamed.debug_text(), "Block { reason: \"r\", policy_id: None }");
    assert_eq!(FirewallDecision::Pass.debug_text(), "Pass");
    let pending = FirewallDecision::PendingHITL { approval_id: "a1".into(), reason: "big".into() };
    assert_eq!(pending.debug_text(), "PendingHITL { approval_id: \"a1\", reason: \"big\" }");
    let h = AuditRecord::recompute_observation_digest(&FirewallDecision::Pass, "0xabc");
    assert_eq!(h, sha256_hex(b"Pass:0xabc"));
    let hp = AuditRecord::recompute_observation_digest(&pending, "0xabc");
    assert_eq!(hp, sha256_hex(format!("{:?}:0xabc", pending).as_bytes()));
}

#[test]
fn audit_record_commits_to_input_and_decision() {
    let raw = "{\"amount\":5}";
    let r = AuditRecord::from_transaction(
        10,
        AgentId::new("agent-1"),
        Chain::Base,
        Address::new("0xa"),
        Address::new("0xb"),
        5,
        "USDC".into(),
        HashMap::new(),
        raw,
        FirewallDecision::Pass,
        "0xpay".into(),
    );
    assert_eq!(r.wyriwe_hash, AuditRecord::recompute_wyriwe_hash(raw));
    assert_eq!(r.observation_digest, sha256_hex(b"Pass:0xpay"));
    assert_eq!(r.observation_digest, AuditRecord::recompute_observation_digest(&r.decision, &r.payload_hash));
    assert_eq!((r.timestamp, r.amount, r.chain), (10, 5, Chain::Base));
    assert_eq!(r.agent_id.as_str(), "agent-1");
    assert_eq!(r.from.as_str(), "0xa");
    assert_eq!(r.currency, "USDC");
}

fn is_digest_text(h: &str) -> bool {
    h.len() == 66 && h.starts_with("0x") && h[2..].chars().all(|c| c.is_ascii_digit() || ('a'..='f').contains(&c))
}

#[test]
fn audit_digests_are_0x_and_64_lowercase_hex_digits() {
    assert!(is_digest_text(&AuditRecord::recompute_wyriwe_hash("{\"amount\":5}")));
    assert!(is_digest_text(&AuditRecord::recompute_wyriwe_hash("")));
    let d = FirewallDecision::Block { reason: "ü".into(), policy_id: None };
    assert!(is_digest_text(&AuditRecord::recompute_observation_digest(&d, "0xpay")));
}

#[test]
fn eth_call_fields_default_when_absent() {
    let bare = tx(None);
    let (value, data, gas, price) = eth_call_fields(&bare);
    assert_eq!((value.as_str(), gas.as_str(), price.as_str()), ("0x0", "0x4C4B40", "0x0"));
    assert_eq!(data, bare.data.clone().unwrap_or_else(|| "0x".to_string()));
    let mut full = tx(Some("0x10"));
    full.data = Some("0xabcd".into());
    full.gas = Some("0x5208".into());
    full.gas_price = Some("0x1".into());
    assert_eq!(
        eth_call_fields(&full),
        ("0x10".to_string(), "0xabcd".to_string(), "0x5208".to_string(), "0x1".to_string())
    );
}
