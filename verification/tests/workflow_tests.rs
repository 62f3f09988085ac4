use std::collections::HashMap;

use bastion::atomicity::AtomicityManager;
use bastion::workflow::activities::{
    ActivityContext, ApproveActivity, CompensateActivity, FetchSecretActivity, HttpCallActivity, SettleActivity,
    SimulateActivity, SimulateEvmActivity, SleepActivity,
};
use bastion::ids::short_id;
use bastion::plan::{Action, ActionType, CompensatingAction, ExecutionPlan, Intent, Leg, LegStatus, PlanStatus};
use bastion::transaction::{Address, AgentId, Chain};
use bastion::workflow::definition::{
    FailurePolicy, RetryPolicy, WorkflowDefinition, WorkflowStep, YamlWorkflow, YamlWorkflowMetadata, YamlWorkflowSpec,
};
use bastion::workflow::engine::{
    apply_signal, cancel, next_decision, record_outcome, start_state, After, LoopDecision, Signal, StepOutcome,
};
use bastion::workflow::error::WorkflowError;
use bastion::workflow::event::{events, WorkflowEvent};
use bastion::workflow::keys::{composite_key, id_after_separator, joined_key};
use bastion::workflow::plan_adapter::{
    sync_compensation_from_workflow, sync_plan_from_workflow, CompensationWorkflow, PlanAdapterOptions, PlanWorkflow,
};
use bastion::sidecar::workflows::{begin_plan_compensation, reconcile_tracked_plan, TrackedPlan};
use bastion::workflow::state::{StepState, StepStatus, WorkflowState, WorkflowStatus};


fn new_uuid() -> u128 {
    uuid::Uuid::new_v4().as_u128()
}

fn action(chain: Chain, at: ActionType) -> Action {
    Action {
        action_type: at,
        chain,
        protocol: "test".to_string(),
        token: Some("USDC".to_string()),
        amount: Some(1000),
        destination: Some(Address::new("0xabc")),
        metadata: "{}".to_string(),
    }
}

fn intent3() -> Intent {
    Intent {
        description: "swap bridge stake".to_string(),
        agent_id: AgentId::new("agent-001"),
        source_chain: Chain::Ethereum,
        actions: vec![
            action(Chain::Ethereum, ActionType::Swap),
            action(Chain::Base, ActionType::Bridge),
            action(Chain::Base, ActionType::Stake),
        ],
        constraints: Vec::new(),
    }
}

fn plan3() -> ExecutionPlan {
    let mut p = ExecutionPlan::new(intent3());
    let mut prev: Option<u128> = None;
    for a in p.intent.actions.clone() {
        let id = new_uuid();
        let depends: Vec<u128> = prev.iter().copied().collect();
        p.legs.push(Leg {
            id,
            action: a,
            depends_on: depends,
            status: if prev.is_none() { LegStatus::Ready } else { LegStatus::Pending },
            compensating_action: Some(CompensatingAction {
                description: "reverse".into(),
                chain: Chain::Ethereum,
                action_type: ActionType::Swap,
                parameters: "{}".into(),
            }),
            result: None,
            error: None,
        });
        prev = Some(id);
    }
    p
}

fn options(require_approval: bool) -> PlanAdapterOptions {
    PlanAdapterOptions { require_approval, ..Default::default() }
}

#[test]
fn activity_selected_per_chain() {
    let intent = Intent {
        actions: vec![
            action(Chain::Ethereum, ActionType::Swap),
            action(Chain::Base, ActionType::Bridge),
            action(Chain::Solana, ActionType::Transfer),
        ],
        ..intent3()
    };
    let mut plan = ExecutionPlan::new(intent);
    for a in plan.intent.actions.clone() {
        plan.legs.push(Leg {
            id: new_uuid(),
            action: a,
            depends_on: vec![],
            status: LegStatus::Ready,
            compensating_action: None,
            result: None,
            error: None,
        });
    }
    let wf = PlanWorkflow::from_plan_with_options(&plan, &options(false));
    let acts: Vec<&str> = wf.steps.iter().map(|s| s.activity.as_str()).collect();
    assert_eq!(acts, vec!["simulate_evm", "settle", "simulate_evm", "settle", "simulate", "settle"]);
}

#[test]
fn approval_steps_generated_only_when_requested() {
    let plan = plan3();
    let on = PlanWorkflow::from_plan_with_options(&plan, &options(true));
    let off = PlanWorkflow::from_plan_with_options(&plan, &options(false));
    assert_eq!(on.steps.len(), 9);
    assert_eq!(off.steps.len(), 6);
    let approvals_on: Vec<&str> = on.steps.iter().filter(|s| s.requires_approval).map(|s| s.activity.as_str()).collect();
    assert_eq!(approvals_on, vec!["approve", "approve", "approve"]);
    assert!(off.steps.iter().all(|s| !s.requires_approval));
}

#[test]
fn compensation_workflow_reverses_completed_legs() {
    let mut plan = plan3();
    plan.legs[0].status = LegStatus::Completed;
    plan.legs[1].status = LegStatus::Completed;
    plan.legs[2].status = LegStatus::Failed;
    let mut manager = AtomicityManager::new();
    assert!(manager.should_compensate(&plan));
    let to_comp = manager.begin_compensation(&mut plan);
    assert_eq!(to_comp, vec![plan.legs[1].id, plan.legs[0].id]);
    let comp = CompensationWorkflow::from_plan(&plan);
    assert_eq!(comp.steps.len(), 2);
    assert!(comp.steps[0].activity == "compensate");
    assert!(comp.steps[0].id.contains(&short_id(plan.legs[1].id)));
    assert!(comp.steps[1].id.contains(&short_id(plan.legs[0].id)));
}

#[test]
fn sync_marks_failed_leg_and_completes_prior_legs() {
    let mut plan = plan3();
    let adapter = PlanWorkflow::from_plan_with_options(&plan, &options(false));
    let mut state = WorkflowState::new("t", Some("agent".into()));
    let steps0 = adapter.steps_for_leg(plan.legs[0].id).unwrap().to_vec();
    let steps1 = adapter.steps_for_leg(plan.legs[1].id).unwrap().to_vec();
    let mut simulate = StepState::new(&steps0[0], "{}".into());
    simulate.status = StepStatus::Completed;
    let mut settle0 = StepState::new(&steps0[1], "{}".into());
    settle0.status = StepStatus::Completed;
    let mut settle1 = StepState::new(steps1.last().unwrap(), "{}".into());
    settle1.status = StepStatus::Failed("reverted on Base".into());
    state.step_states = vec![simulate, settle0, settle1];
    let updated = sync_plan_from_workflow(&mut plan, &adapter, &state);
    assert!(updated >= 2);
    assert_eq!(plan.legs[0].status, LegStatus::Completed);
    assert_eq!(plan.legs[1].status, LegStatus::Failed);
    assert_eq!(plan.legs[1].error.as_deref(), Some("reverted on Base"));
    assert_eq!(plan.status, PlanStatus::Failed);
}

#[test]
fn plan_step_ids_and_inputs_are_framed() {
    let mut plan = ExecutionPlan::new(intent3());
    plan.id = 0x11111111_2222_3333_4444_555555555555;
    plan.legs.push(Leg {
        id: 0xaaaaaaaa_bbbb_cccc_dddd_eeeeeeeeeeee,
        action: action(Chain::Ethereum, ActionType::Swap),
        depends_on: vec![],
        status: LegStatus::Ready,
        compensating_action: None,
        result: None,
        error: None,
    });
    let wf = PlanWorkflow::from_plan(&plan);
    assert_eq!(wf.name(), "execution-plan-11111111");
    assert_eq!(wf.steps[0].id, "0-aaaaaaaa-simulate");
    assert_eq!(wf.steps[1].id, "0-aaaaaaaa-approve");
    assert_eq!(wf.steps[2].id, "0-aaaaaaaa-settle");
    assert_eq!(wf.steps[1].timeout_ms, 3_600_000);
    assert_eq!(wf.steps[0].retry.max_attempts, 3);
    assert_eq!(wf.steps[1].retry.max_attempts, 1);
    assert_eq!(
        wf.steps[1].input,
        "{\"leg_id\":\"aaaaaaaa-bbbb-cccc-dddd-eeeeeeeeeeee\",\"plan_id\":\"11111111-2222-3333-4444-555555555555\",\"position\":0}"
    );
    assert_eq!(
        wf.steps[0].input,
        "{\"action\":{\"action_type\":\"Swap\",\"amount\":1000,\"chain\":\"Ethereum\",\"destination\":\"0xabc\",\"metadata\":{},\"protocol\":\"test\",\"token\":\"USDC\"},\"leg_id\":\"aaaaaaaa-bbbb-cccc-dddd-eeeeeeeeeeee\",\"plan_id\":\"11111111-2222-3333-4444-555555555555\",\"position\":0}"
    );
    let by_leg = wf.steps_for_leg(0xaaaaaaaa_bbbb_cccc_dddd_eeeeeeeeeeee).unwrap();
    assert_eq!(by_leg.len(), 3);
    assert!(wf.steps_for_leg(7).is_none());
    assert_eq!(wf.step_to_leg().len(), 3);
}

#[test]
fn compensation_inputs_escape_text() {
    let mut plan = plan3();
    plan.legs[0].status = LegStatus::Compensating;
    plan.legs[0].compensating_action = Some(CompensatingAction {
        description: "undo \"swap\"\n".into(),
        chain: Chain::Base,
        action_type: ActionType::Custom("x\\y".into()),
        parameters: "[1]".into(),
    });
    let comp = CompensationWorkflow::from_plan(&plan);
    assert_eq!(comp.steps.len(), 1);
    assert!(comp.steps[0].input.starts_with("{\"action_type\":{\"Custom\":\"x\\\\y\"},\"chain\":\"Base\",\"description\":\"undo \\\"swap\\\"\\n\""));
    assert!(comp.steps[0].input.contains("\"parameters\":[1]"));
    assert_eq!(comp.name(), format!("compensate-{}", short_id(plan.id)));
}

#[test]
fn sync_compensation_marks_legs() {
    let mut plan = plan3();
    plan.legs[0].status = LegStatus::Completed;
    plan.legs[1].status = LegStatus::Completed;
    plan.legs[2].status = LegStatus::Failed;
    let mut manager = AtomicityManager::new();
    manager.begin_compensation(&mut plan);
    let comp = CompensationWorkflow::from_plan(&plan);
    let mut state = WorkflowState::new("c", None);
    let mut s0 = StepState::new(&comp.steps[0].id, "{}".into());
    s0.status = StepStatus::Completed;
    let mut s1 = StepState::new(&comp.steps[1].id, "{}".into());
    s1.status = StepStatus::Failed("boom".into());
    state.step_states = vec![s0, s1];
    sync_compensation_from_workflow(&mut plan, &mut manager, comp.step_to_leg(), &state);
    assert_eq!(plan.legs[1].status, LegStatus::Compensated);
    assert_eq!(plan.legs[0].status, LegStatus::Completed);
    let st = manager.compensation_status();
    assert_eq!(st.total_compensated, 1);
    assert_eq!(st.total_failed, 1);
    assert_eq!(st.total_in_progress, 0);
}

#[test]
fn can_retry_boundary() {
    let rp = RetryPolicy { max_attempts: 3, ..Default::default() };
    assert!(rp.can_retry(0));
    assert!(rp.can_retry(1));
    assert!(rp.can_retry(2));
    assert!(!rp.can_retry(3));
}

fn step(id: &str, activity: &str, approval: bool, max_attempts: u32, on_failure: FailurePolicy) -> WorkflowStep {
    WorkflowStep {
        id: id.into(),
        activity: activity.into(),
        input: "null".into(),
        retry: RetryPolicy { max_attempts, ..Default::default() },
        timeout_ms: 50,
        requires_approval: approval,
        on_failure,
    }
}

#[test]
fn yaml_to_definition() {
    let wf = YamlWorkflow {
        api_version: "bastion.io/v1".into(),
        kind: "Workflow".into(),
        metadata: YamlWorkflowMetadata { name: "test-wf".into(), labels: HashMap::new() },
        spec: YamlWorkflowSpec { steps: vec![step("step1", "simulate", false, 1, FailurePolicy::Halt)] },
    };
    let def = wf.to_definition();
    assert_eq!(def.name(), "test-wf");
    assert_eq!(def.steps().len(), 1);
    let unnamed = YamlWorkflow {
        api_version: "bastion.io/v1".into(),
        kind: "Workflow".into(),
        metadata: YamlWorkflowMetadata { name: String::new(), labels: HashMap::new() },
        spec: YamlWorkflowSpec { steps: vec![] },
    };
    assert_eq!(unnamed.to_definition().name(), "unnamed-yaml-workflow");
}

#[test]
fn start_refuses_empty_workflow() {
    match start_state("empty", &vec![], None) {
        Err(WorkflowError::Validation(m)) => assert_eq!(m, "workflow has no steps"),
        _ => panic!("expected a validation error"),
    }
}

#[test]
fn run_loop_pauses_resumes_retries_and_completes() {
    let steps = vec![
        step("a", "simulate", false, 2, FailurePolicy::Halt),
        step("b", "approve", true, 1, FailurePolicy::Halt),
    ];
    let (mut st, ev) = start_state("wf", &steps, Some("agent".into())).unwrap();
    assert!(matches!(ev, WorkflowEvent::WorkflowStarted { .. }));
    assert_eq!(st.step_states.len(), 2);

    // Step a runs, fails once, is retried, then succeeds.
    match next_decision(&mut st, &steps, 10) {
        LoopDecision::Run { index, attempt, .. } => {
            assert_eq!(index, 0);
            assert_eq!(attempt, 0);
        }
        other => panic!("unexpected {other:?}"),
    }
    let d = record_outcome(&mut st, &steps, 0, StepOutcome::Errored("boom".into()), 11, 1000);
    assert_eq!(d.after, After::Retry { backoff_ms: 1000 });
    assert_eq!(st.step_states[0].attempt, 1);
    let d = record_outcome(&mut st, &steps, 0, StepOutcome::Succeeded("{\"ok\":true}".into()), 12, 0);
    assert_eq!(d.after, After::Continue);
    assert_eq!(st.current_step, 1);
    assert_eq!(st.step_states[0].status, StepStatus::Completed);

    // Step b needs approval: the run pauses until a human approves.
    assert!(matches!(next_decision(&mut st, &steps, 13), LoopDecision::Pause(_)));
    assert_eq!(st.status, WorkflowStatus::Paused);
    assert!(matches!(next_decision(&mut st, &steps, 14), LoopDecision::Wait));
    assert!(apply_signal(&mut st, Signal::Approve).is_ok());
    assert_eq!(st.status, WorkflowStatus::Running);
    assert!(apply_signal(&mut st, Signal::Approve).is_err());
    assert!(matches!(next_decision(&mut st, &steps, 15), LoopDecision::Run { index: 1, .. }));
    record_outcome(&mut st, &steps, 1, StepOutcome::Succeeded("null".into()), 16, 0);
    assert!(matches!(next_decision(&mut st, &steps, 17), LoopDecision::Finish(_)));
    assert_eq!(st.status, WorkflowStatus::Completed);
    assert!(matches!(next_decision(&mut st, &steps, 18), LoopDecision::Stop));
}

#[test]
fn exhausted_timeouts_fail_the_run() {
    let steps = vec![step("a", "simulate", false, 1, FailurePolicy::Halt)];
    let (mut st, _) = start_state("wf", &steps, None).unwrap();
    let d = record_outcome(&mut st, &steps, 0, StepOutcome::TimedOut, 5, 0);
    assert_eq!(d.after, After::Retry { backoff_ms: 0 });
    let d = record_outcome(&mut st, &steps, 0, StepOutcome::TimedOut, 6, 0);
    assert_eq!(d.after, After::Stop);
    assert_eq!(st.status, WorkflowStatus::Failed("timed out at step a".into()));
    assert_eq!(st.step_states[0].status, StepStatus::Failed("timeout".into()));
    match &d.events[0] {
        WorkflowEvent::StepFailed { error, .. } => assert_eq!(error, "timed out after 50ms"),
        other => panic!("unexpected {other:?}"),
    }
}

#[test]
fn failing_step_with_continue_policy_is_skipped() {
    let steps = vec![step("a", "simulate", false, 0, FailurePolicy::Continue), step("b", "settle", false, 0, FailurePolicy::Halt)];
    let (mut st, _) = start_state("wf", &steps, None).unwrap();
    let d = record_outcome(&mut st, &steps, 0, StepOutcome::Errored("nope".into()), 1, 0);
    assert_eq!(d.after, After::Continue);
    assert_eq!(st.step_states[0].status, StepStatus::Skipped);
    assert_eq!(st.current_step, 1);
    let d = record_outcome(&mut st, &steps, 1, StepOutcome::UnknownActivity, 2, 0);
    assert_eq!(d.after, After::Stop);
    assert_eq!(st.status, WorkflowStatus::Failed("unknown activity: settle".into()));
}

#[test]
fn cancel_signal_and_cancel_mark_the_run() {
    let steps = vec![step("a", "simulate", false, 1, FailurePolicy::Halt)];
    let (mut st, _) = start_state("wf", &steps, None).unwrap();
    assert!(matches!(apply_signal(&mut st, Signal::Cancel), Ok(WorkflowEvent::WorkflowCancelled { .. })));
    assert_eq!(st.status, WorkflowStatus::Cancelled);
    let (mut st2, _) = start_state("wf", &steps, None).unwrap();
    cancel(&mut st2);
    assert_eq!(st2.status, WorkflowStatus::Cancelled);
}

#[test]
fn replaying_events_rebuilds_the_state() {
    let steps = vec![step("a", "simulate", false, 1, FailurePolicy::Halt)];
    let (st0, ev0) = start_state("wf", &steps, None).unwrap();
    let id = st0.id.clone();
    let history = vec![
        ev0,
        WorkflowEvent::StepStarted { id: id.clone(), step: "a".into(), attempt: 0, timestamp: 3 },
        WorkflowEvent::StepCompleted { id: id.clone(), step: "a".into(), output: "1".into(), timestamp: 4 },
        WorkflowEvent::WorkflowCompleted { id: id.clone(), timestamp: 5 },
    ];
    let mut fresh = WorkflowState::new("other", None);
    fresh.step_states = vec![StepState::new("a", "null".into())];
    events(&history, &mut fresh).unwrap();
    assert_eq!(fresh.id, id);
    assert_eq!(fresh.definition, "wf");
    assert_eq!(fresh.status, WorkflowStatus::Completed);
    assert_eq!(fresh.current_step, 1);
    assert_eq!(fresh.step_states[0].status, StepStatus::Completed);
    assert_eq!(fresh.step_states[0].output.as_deref(), Some("1"));
}

#[test]
fn store_keys_join_parts_with_a_zero_byte() {
    assert_eq!(composite_key("wf", 258), vec![b'w', b'f', 0, 0, 0, 0, 0, 0, 0, 1, 2]);
    assert_eq!(joined_key("Running", "id-1"), b"Running\0id-1".to_vec());
    assert_eq!(id_after_separator(b"Running\0id-1"), Some("id-1".to_string()));
    assert_eq!(id_after_separator(b"Running\0"), None);
    assert_eq!(id_after_separator(b"no-separator"), None);
    assert_eq!(id_after_separator(&[b'x', 0, 0xff]), None);
}

#[test]
fn syncing_twice_changes_nothing_the_second_time() {
    let mut plan = plan3();
    let adapter = PlanWorkflow::from_plan_with_options(&plan, &options(false));
    let mut state = WorkflowState::new("t", None);
    let steps0 = adapter.steps_for_leg(plan.legs[0].id).unwrap().to_vec();
    let mut settle0 = StepState::new(steps0.last().unwrap(), "{}".into());
    settle0.status = StepStatus::Completed;
    state.step_states = vec![settle0];
    assert_eq!(sync_plan_from_workflow(&mut plan, &adapter, &state), 1);
    assert_eq!(sync_plan_from_workflow(&mut plan, &adapter, &state), 0);
    assert_eq!(plan.legs[0].status, LegStatus::Completed);
}

#[test]
fn failed_plan_compensates_completed_legs_newest_first() {
    let plan = plan3();
    let adapter = PlanWorkflow::from_plan_with_options(&plan, &options(true));
    let ids: Vec<u128> = plan.legs.iter().map(|l| l.id).collect();
    let mut state = WorkflowState::new("t", None);
    let s0 = adapter.steps_for_leg(ids[0]).unwrap().to_vec();
    let s1 = adapter.steps_for_leg(ids[1]).unwrap().to_vec();
    let s2 = adapter.steps_for_leg(ids[2]).unwrap().to_vec();
    let mut a = StepState::new(s0.last().unwrap(), "{}".into());
    a.status = StepStatus::Completed;
    let mut b = StepState::new(s1.last().unwrap(), "{}".into());
    b.status = StepStatus::Completed;
    let mut c = StepState::new(s2.last().unwrap(), "{}".into());
    c.status = StepStatus::Failed("no liquidity".into());
    state.step_states = vec![a, b, c];
    let mut entry = TrackedPlan {
        plan,
        workflow_id: "wf-1".into(),
        adapter,
        manager: AtomicityManager::new(),
        compensation_workflow_id: None,
        comp_step_to_leg: vec![],
    };
    let (legs, comp) = begin_plan_compensation(&mut entry, &state).unwrap();
    assert_eq!(legs, vec![ids[1], ids[0]]);
    assert_eq!(entry.plan.status, PlanStatus::Compensating);
    assert_eq!(comp.steps.len(), 2);
    assert_eq!(entry.comp_step_to_leg.len(), 2);
    assert_eq!(entry.comp_step_to_leg[0].1, ids[1]);

    let mut calm = WorkflowState::new("t", None);
    let mut ok = StepState::new(s0.last().unwrap(), "{}".into());
    ok.status = StepStatus::Completed;
    calm.step_states = vec![ok];
    let plan = plan3();
    let adapter = PlanWorkflow::from_plan_with_options(&plan, &options(true));
    let mut quiet = TrackedPlan {
        plan,
        workflow_id: "wf-2".into(),
        adapter,
        manager: AtomicityManager::new(),
        compensation_workflow_id: None,
        comp_step_to_leg: vec![],
    };
    assert!(begin_plan_compensation(&mut quiet, &calm).is_none());
    reconcile_tracked_plan(&mut quiet, None, None);
    assert_eq!(quiet.workflow_id, "wf-2");
}

fn ctx() -> ActivityContext {
    ActivityContext { workflow_id: "wf".into(), step_id: "s".into(), attempt: 1, agent_id: None }
}

#[test]
fn activities_report_their_input() {
    let input = "{\"leg_id\":\"leg-7\",\"ms\":5}";
    assert_eq!(ApproveActivity.name(), "approve");
    assert_eq!(
        ApproveActivity.execute(input, &ctx()).unwrap(),
        "{\"input\":{\"leg_id\":\"leg-7\",\"ms\":5},\"note\":\"approve activity - resolved by human override signal in production\",\"status\":\"approved\"}"
    );
    assert_eq!(
        SimulateActivity.execute("{}", &ctx()).unwrap(),
        "{\"input\":{},\"note\":\"simulate activity - connect to sidecar POST /simulate in production\",\"status\":\"simulated\"}"
    );
    assert!(SimulateEvmActivity.execute("{}", &ctx()).unwrap().ends_with("\"status\":\"simulated_evm\"}"));
    assert_eq!(
        HttpCallActivity.execute("1", &ctx()).unwrap(),
        "{\"input\":1,\"note\":\"http_call activity - routes through Web2 firewall proxy in production\",\"status\":\"ok\",\"status_code\":200}"
    );
}

#[test]
fn activities_read_members_of_their_input() {
    let comp = CompensateActivity.execute("{\"leg_id\":\"leg-7\"}", &ctx()).unwrap();
    assert!(comp.contains("\"leg_id\":\"leg-7\""));
    assert!(comp.ends_with("\"status\":\"compensated\"}"));
    let unknown = CompensateActivity.execute("{\"leg_id\":3}", &ctx()).unwrap();
    assert!(unknown.contains("\"leg_id\":\"unknown\""));
    assert_eq!(
        FetchSecretActivity.execute("{\"key\":\"api\"}", &ctx()).unwrap(),
        "{\"key\":\"api\",\"note\":\"fetch_secret stub - Vault integration planned for Phase 3\"}"
    );
    assert!(FetchSecretActivity.execute("[]", &ctx()).unwrap().starts_with("{\"key\":\"unknown\""));
    assert_eq!(SleepActivity.duration_ms("{\"ms\":5}"), 5);
    assert_eq!(SleepActivity.duration_ms("{}"), 1000);
    assert_eq!(SleepActivity.execute("{\"ms\":5}", &ctx()).unwrap(), "{\"slept_ms\":5}");
}

#[test]
fn settle_names_a_fresh_audit_entry() {
    let id: u128 = 0x11111111_2222_3333_4444_555555555555;
    assert_eq!(
        SettleActivity::report("{}", id),
        "{\"audit_id\":\"audit_11111111-2222-3333-4444-555555555555\",\"input\":{},\"status\":\"settled\"}"
    );
    let a = SettleActivity.execute("{}", &ctx()).unwrap();
    let b = SettleActivity.execute("{}", &ctx()).unwrap();
    assert!(a.starts_with("{\"audit_id\":\"audit_"));
    assert_ne!(a, b);
    assert_eq!(SettleActivity.name(), "settle");
}
