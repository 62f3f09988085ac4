use bastion::atomicity::AtomicityManager;
use bastion::decomposer::IntentDecomposer;
use bastion::ids::{short_id, uuid_string};
use bastion::plan::{Action, ActionType, CompensatingAction, ExecutionPlan, Intent, Leg, LegStatus, PlanStatus};
use bastion::transaction::{Address, AgentId, Chain};


fn new_uuid() -> u128 {
    uuid::Uuid::new_v4().as_u128()
}

fn make_action(chain: Chain, action_type: ActionType) -> Action {
    Action {
        action_type,
        chain,
        protocol: "uniswap".to_string(),
        token: Some("USDC".to_string()),
        amount: Some(1_000_000),
        destination: Some(Address::new("0xabc")),
        metadata: "{}".to_string(),
    }
}

fn make_leg(id: u128, depends_on: Vec<u128>, status: LegStatus) -> Leg {
    Leg {
        id,
        action: make_action(Chain::Ethereum, ActionType::Swap),
        depends_on,
        status,
        compensating_action: Some(CompensatingAction {
            description: "reverse swap".to_string(),
            chain: Chain::Ethereum,
            action_type: ActionType::Swap,
            parameters: "{}".to_string(),
        }),
        result: None,
        error: None,
    }
}

fn make_intent() -> Intent {
    Intent {
        description: "swap USDC for ETH on Ethereum".to_string(),
        agent_id: AgentId::new("agent-001"),
        source_chain: Chain::Ethereum,
        actions: vec![make_action(Chain::Ethereum, ActionType::Swap)],
        constraints: Vec::new(),
    }
}

fn plan_with(legs: Vec<Leg>, status: PlanStatus) -> ExecutionPlan {
    ExecutionPlan { id: new_uuid(), intent: make_intent(), legs, status, created_at: 0 }
}

#[test]
fn test_new_plan_starts_as_draft() {
    let plan = ExecutionPlan::new(make_intent());
    assert_eq!(plan.status, PlanStatus::Draft);
    assert!(plan.legs.is_empty());
}

#[test]
fn test_ready_legs_returns_legs_with_met_dependencies() {
    let id_a = new_uuid();
    let id_b = new_uuid();
    let plan = plan_with(
        vec![make_leg(id_a, vec![], LegStatus::Completed), make_leg(id_b, vec![id_a], LegStatus::Pending)],
        PlanStatus::Executing,
    );
    let ready = plan.ready_legs();
    assert_eq!(ready.len(), 1);
    assert_eq!(ready[0].id, id_b);
}

#[test]
fn test_is_complete_all_done() {
    let plan = plan_with(
        vec![make_leg(new_uuid(), vec![], LegStatus::Completed), make_leg(new_uuid(), vec![], LegStatus::Skipped)],
        PlanStatus::Completed,
    );
    assert!(plan.is_complete());
}

#[test]
fn test_is_complete_with_pending_leg() {
    let plan = plan_with(
        vec![make_leg(new_uuid(), vec![], LegStatus::Completed), make_leg(new_uuid(), vec![], LegStatus::Pending)],
        PlanStatus::Executing,
    );
    assert!(!plan.is_complete());
}

#[test]
fn test_has_failed_detects_failure() {
    let plan = plan_with(
        vec![make_leg(new_uuid(), vec![], LegStatus::Completed), make_leg(new_uuid(), vec![], LegStatus::Failed)],
        PlanStatus::Failed,
    );
    assert!(plan.has_failed());
}

#[test]
fn test_legs_needing_compensation_filters_correctly() {
    let id_done = new_uuid();
    let id_failed = new_uuid();
    let id_no_comp = new_uuid();
    let mut leg_no_comp = make_leg(id_no_comp, vec![], LegStatus::Completed);
    leg_no_comp.compensating_action = None;
    let plan = plan_with(
        vec![make_leg(id_done, vec![], LegStatus::Completed), make_leg(id_failed, vec![], LegStatus::Failed), leg_no_comp],
        PlanStatus::Failed,
    );
    let need_comp = plan.legs_needing_compensation();
    assert_eq!(need_comp.len(), 1);
    assert_eq!(need_comp[0].id, id_done);
}

#[test]
fn empty_plan_is_never_complete() {
    let plan = plan_with(vec![], PlanStatus::Draft);
    assert!(!plan.is_complete());
    assert!(plan.legs_needing_compensation().is_empty());
}

fn atom_leg(id: u128, status: LegStatus, has_comp: bool) -> Leg {
    let mut leg = make_leg(id, vec![], status);
    if !has_comp {
        leg.compensating_action = None;
    }
    leg
}

#[test]
fn test_should_compensate_when_failed_with_completed_legs() {
    let plan = plan_with(
        vec![atom_leg(new_uuid(), LegStatus::Completed, true), atom_leg(new_uuid(), LegStatus::Failed, false)],
        PlanStatus::Executing,
    );
    let mgr = AtomicityManager::new();
    assert!(mgr.should_compensate(&plan));
}

#[test]
fn test_begin_compensation_marks_legs_in_reverse_order() {
    let id_first = new_uuid();
    let id_second = new_uuid();
    let mut plan = plan_with(
        vec![
            atom_leg(id_first, LegStatus::Completed, true),
            atom_leg(id_second, LegStatus::Completed, true),
            atom_leg(new_uuid(), LegStatus::Failed, false),
        ],
        PlanStatus::Executing,
    );
    let mut mgr = AtomicityManager::new();
    let to_comp = mgr.begin_compensation(&mut plan);
    assert_eq!(to_comp.len(), 2);
    assert_eq!(to_comp[0], id_second);
    assert_eq!(to_comp[1], id_first);
    assert_eq!(plan.status, PlanStatus::Compensating);
    for leg in &plan.legs[..2] {
        assert_eq!(leg.status, LegStatus::Compensating);
    }
}

#[test]
fn test_compensation_status_tracks_counts() {
    let id_a = new_uuid();
    let id_b = new_uuid();
    let mut plan = plan_with(
        vec![
            atom_leg(id_a, LegStatus::Completed, true),
            atom_leg(id_b, LegStatus::Completed, true),
            atom_leg(new_uuid(), LegStatus::Failed, false),
        ],
        PlanStatus::Executing,
    );
    let mut mgr = AtomicityManager::new();
    mgr.begin_compensation(&mut plan);
    let status = mgr.compensation_status();
    assert_eq!(status.total_compensated, 0);
    assert_eq!(status.total_in_progress, 2);
    assert_eq!(status.total_failed, 0);

    mgr.mark_compensated(&mut plan, id_a);
    let status = mgr.compensation_status();
    assert_eq!(status.total_compensated, 1);
    assert_eq!(status.total_in_progress, 1);

    mgr.mark_compensation_failed(&mut plan, id_b);
    let status = mgr.compensation_status();
    assert_eq!(status.total_compensated, 1);
    assert_eq!(status.total_in_progress, 0);
    assert_eq!(status.total_failed, 1);
}

#[test]
fn compensation_leaves_plan_failed_once_nothing_in_flight() {
    let id_a = new_uuid();
    let mut plan = plan_with(
        vec![atom_leg(id_a, LegStatus::Completed, true), atom_leg(new_uuid(), LegStatus::Failed, false)],
        PlanStatus::Executing,
    );
    let mut mgr = AtomicityManager::new();
    mgr.begin_compensation(&mut plan);
    mgr.mark_compensated(&mut plan, id_a);
    assert_eq!(plan.status, PlanStatus::Failed);
    assert_eq!(plan.legs[0].status, LegStatus::Compensated);
}

#[test]
fn healthy_plan_needs_no_compensation() {
    let plan = plan_with(vec![atom_leg(new_uuid(), LegStatus::Completed, true)], PlanStatus::Executing);
    assert!(!AtomicityManager::new().should_compensate(&plan));
}

fn decomposer_action(chain: Chain, at: ActionType) -> Action {
    Action {
        action_type: at,
        chain,
        protocol: "test".to_string(),
        token: Some("USDC".to_string()),
        amount: Some(100),
        destination: Some(Address::new("0xdead")),
        metadata: "{}".to_string(),
    }
}

#[test]
fn test_decompose_creates_sequential_legs() {
    let intent = Intent {
        description: "swap then bridge then stake".to_string(),
        agent_id: AgentId::new("agent-1"),
        source_chain: Chain::Ethereum,
        actions: vec![
            decomposer_action(Chain::Ethereum, ActionType::Swap),
            decomposer_action(Chain::Base, ActionType::Bridge),
            decomposer_action(Chain::Base, ActionType::Stake),
        ],
        constraints: Vec::new(),
    };
    let plan = IntentDecomposer::new().decompose(intent);
    assert_eq!(plan.legs.len(), 3);
    assert!(plan.legs[0].depends_on.is_empty());
    assert_eq!(plan.legs[0].status, LegStatus::Ready);
    assert_eq!(plan.legs[1].depends_on, vec![plan.legs[0].id]);
    assert_eq!(plan.legs[1].status, LegStatus::Pending);
    assert_eq!(plan.legs[2].depends_on, vec![plan.legs[1].id]);
    assert_eq!(plan.legs[2].status, LegStatus::Pending);
}

#[test]
fn test_decompose_generates_compensating_actions() {
    let intent = Intent {
        description: "swap and transfer".to_string(),
        agent_id: AgentId::new("agent-2"),
        source_chain: Chain::Solana,
        actions: vec![
            decomposer_action(Chain::Solana, ActionType::Swap),
            decomposer_action(Chain::Solana, ActionType::Transfer),
        ],
        constraints: Vec::new(),
    };
    let plan = IntentDecomposer::new().decompose(intent);
    assert!(plan.legs[0].compensating_action.is_some());
    assert!(plan.legs[1].compensating_action.is_some());
    assert_eq!(plan.legs[0].compensating_action.as_ref().unwrap().action_type, ActionType::Swap);
}

#[test]
fn test_decompose_skips_compensation_for_contract_actions() {
    let intent = Intent {
        description: "deploy and call".to_string(),
        agent_id: AgentId::new("agent-3"),
        source_chain: Chain::Base,
        actions: vec![
            decomposer_action(Chain::Base, ActionType::DeployContract),
            decomposer_action(Chain::Base, ActionType::CallContract),
        ],
        constraints: Vec::new(),
    };
    let plan = IntentDecomposer::new().decompose(intent);
    assert!(plan.legs[0].compensating_action.is_none());
    assert!(plan.legs[1].compensating_action.is_none());
}

#[test]
fn uuid_text_is_hyphenated_lowercase_hex() {
    let id: u128 = 0x0123_4567_89ab_cdef_0123_4567_89ab_cdef;
    assert_eq!(uuid_string(id), "01234567-89ab-cdef-0123-456789abcdef");
    assert_eq!(short_id(id), "01234567");
}

#[test]
fn fresh_uuids_differ() {
    assert_ne!(new_uuid(), new_uuid());
}
