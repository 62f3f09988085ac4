//! The workflow API's request bodies and the decisions made on them
//! before the engine is called.

use vstd::prelude::*;
use crate::decomposer::{sequential_legs, IntentDecomposer};
use crate::json::push_str;
use crate::plan::{intent_same, ExecutionPlan, Intent, LegStatus, PlanStatus};
use crate::text::{str_eq, string_of};
use crate::workflow::engine::Signal;
use crate::workflow::plan_adapter::{default_retry, plan_workflow_of, PlanAdapterOptions, PlanWorkflow};
use crate::workflow::definition::RetryPolicy;
use crate::atomicity::{compensation_order, set_first_status_all, AtomicityManager};
use crate::plan::{needing_compensation, plan_failed};
use crate::workflow::plan_adapter::{
    book_of, compensation_outcomes, compensation_workflow_of, record_compensations, sync_compensation_from_workflow,
    sync_plan_from_workflow, synced_leg, synced_legs, synced_plan_status, CompensationBook, CompensationWorkflow,
};
use crate::workflow::state::WorkflowState;

verus! {

/// The body of a request to start a YAML workflow.
#[derive(Debug)]
pub struct StartWorkflowRequest {
    pub yaml: String,
    pub agent_id: Option<String>,
}

/// The body of a signal: `approve` or `cancel`.
#[derive(Debug)]
pub struct SignalRequest {
    pub signal: String,
}

/// The query of a listing: runs of one agent, or all.
#[derive(Debug)]
pub struct ListQuery {
    pub agent_id: Option<String>,
}

/// The body of a request to start a named workflow.
#[derive(Debug)]
pub struct StartDefinitionRequest {
    pub definition: String,
    pub agent_id: Option<String>,
}

/// The body of a request to start a YAML workflow (routes API).
#[derive(Debug)]
pub struct StartYamlRequest {
    pub yaml: String,
    pub agent_id: Option<String>,
}

/// An error answer.
#[derive(Debug)]
pub struct ErrorResponse {
    pub error: String,
}

/// The signal a request names.
pub open spec fn signal_named(s: Seq<char>) -> Option<Signal> {
    if s == "approve"@ {
        Some(Signal::Approve)
    } else if s == "cancel"@ {
        Some(Signal::Cancel)
    } else {
        None
    }
}

/// The signal a request names: `approve` or `cancel`.
pub fn parse_signal(s: &str) -> (r: Option<Signal>)
    ensures
        r == signal_named(s@),
{
    if str_eq(s, "approve") {
        Some(Signal::Approve)
    } else if str_eq(s, "cancel") {
        Some(Signal::Cancel)
    } else {
        None
    }
}

/// The error answered for a signal that is neither: `unknown signal: `
/// and the text sent.
pub fn unknown_signal_message(s: &str) -> (m: String)
    ensures
        m@ == "unknown signal: "@ + s@,
{
    let mut v: Vec<char> = Vec::new();
    push_str(&mut v, "unknown signal: ");
    assert(v@ =~= "unknown signal: "@);
    push_str(&mut v, s);
    string_of(&v)
}

/// An intent submitted for execution, and whether each leg waits for a
/// human before it settles.
#[derive(Debug)]
pub struct ExecuteIntentRequest {
    pub intent: Intent,
    pub require_approval: bool,
}

/// Legs wait for approval unless the request says otherwise.
pub fn default_require_approval() -> (r: bool)
    ensures
        r,
{
    true
}

/// The options a request's preference gives.
pub open spec fn execution_options(require_approval: bool) -> PlanAdapterOptions {
    PlanAdapterOptions {
        require_approval,
        retry: RetryPolicy { max_attempts: 3, ..default_retry() },
        timeout_ms: 60_000,
        approval_timeout_ms: 3_600_000,
    }
}

/// Plans an intent for execution at Unix time `now`: an intent without
/// actions is refused; otherwise it is decomposed into sequential legs, the
/// plan is stamped and marked validated, and its workflow is generated
/// with approvals as requested.
pub fn plan_execution(req: ExecuteIntentRequest, now: u64) -> (r: Result<(ExecutionPlan, PlanWorkflow), String>)
    ensures
        r is Err <==> req.intent.actions@.len() == 0,
        r matches Err(m) ==> m@ == "intent has no actions"@,
        r matches Ok((plan, wf)) ==> {
            &&& intent_same(plan.intent, req.intent)
            &&& sequential_legs(plan.legs@, req.intent.actions@)
            &&& plan.status == PlanStatus::Validated
            &&& plan.created_at == now
            &&& plan_workflow_of(wf, plan, execution_options(req.require_approval))
        },
{
    if req.intent.actions.len() == 0 {
        return Err("intent has no actions".to_owned());
    }
    let ghost actions = req.intent.actions@;
    let decomposer = IntentDecomposer::new();
    let mut plan = decomposer.decompose(req.intent);
    plan.created_at = now;
    plan.status = PlanStatus::Validated;
    let defaults = PlanAdapterOptions::default();
    let options = PlanAdapterOptions { require_approval: req.require_approval, ..defaults };
    let wf = PlanWorkflow::from_plan_with_options(&plan, &options);
    Ok((plan, wf))
}

/// A plan the sidecar follows: the plan, its workflow and adapter, the
/// compensation bookkeeping, and the compensation workflow once started
/// (with the leg each of its steps undoes).
#[derive(Debug)]
pub struct TrackedPlan {
    pub plan: ExecutionPlan,
    pub workflow_id: String,
    pub adapter: PlanWorkflow,
    pub manager: AtomicityManager,
    pub compensation_workflow_id: Option<String>,
    pub comp_step_to_leg: Vec<(String, u128)>,
}

/// The bookkeeping of a followed plan once the outcome of its workflow run
/// (when known) is written onto its legs and status.
pub open spec fn reconciled_book(entry: TrackedPlan, workflow: Option<WorkflowState>) -> CompensationBook {
    let b = book_of(entry.plan, entry.manager);
    match workflow {
        Some(wf) => {
            let legs = synced_legs(entry.plan.legs@, entry.adapter.steps_by_leg@, wf.step_states@);
            CompensationBook { legs, status: synced_plan_status(entry.plan.status, legs), ..b }
        },
        None => b,
    }
}

/// Brings a followed plan up to date with its runs: the outcome of its
/// workflow (when its state could be read) is written onto its legs, then
/// that of its compensation workflow (likewise) onto the legs and the
/// compensation bookkeeping.
pub fn reconcile_tracked_plan(entry: &mut TrackedPlan, workflow: Option<&WorkflowState>, compensation: Option<&WorkflowState>)
    ensures
        final(entry).workflow_id == old(entry).workflow_id,
        final(entry).adapter == old(entry).adapter,
        final(entry).compensation_workflow_id == old(entry).compensation_workflow_id,
        final(entry).comp_step_to_leg == old(entry).comp_step_to_leg,
        final(entry).plan.id == old(entry).plan.id,
        final(entry).plan.intent == old(entry).plan.intent,
        final(entry).plan.created_at == old(entry).plan.created_at,
        ({
            let mid = reconciled_book(*old(entry), match workflow { Some(w) => Some(*w), None => None });
            book_of(final(entry).plan, final(entry).manager) == match compensation {
                Some(c) => record_compensations(mid, compensation_outcomes(c.step_states@, old(entry).comp_step_to_leg@)),
                None => mid,
            }
        }),
{
    let ghost mid = reconciled_book(*entry, match workflow { Some(w) => Some(*w), None => None });
    match workflow {
        Some(wf) => {
            sync_plan_from_workflow(&mut entry.plan, &entry.adapter, wf);
            assert(entry.plan.legs@ =~= mid.legs);
        },
        None => {},
    }
    assert(book_of(entry.plan, entry.manager) == mid);
    match compensation {
        Some(comp) => {
            sync_compensation_from_workflow(&mut entry.plan, &mut entry.manager, &entry.comp_step_to_leg, comp);
        },
        None => {},
    }
}

/// Starts compensating a followed plan after reconciling the outcome of its
/// workflow: a plan with no failed leg to make up for is refused (`None`);
/// otherwise its completed legs are marked for compensation, newest first,
/// and the compensation workflow for them is returned with those legs.
pub fn begin_plan_compensation(entry: &mut TrackedPlan, workflow: &WorkflowState) -> (r: Option<(Vec<u128>, CompensationWorkflow)>)
    ensures
        final(entry).workflow_id == old(entry).workflow_id,
        final(entry).adapter == old(entry).adapter,
        final(entry).compensation_workflow_id == old(entry).compensation_workflow_id,
        final(entry).plan.id == old(entry).plan.id,
        final(entry).plan.intent == old(entry).plan.intent,
        final(entry).plan.created_at == old(entry).plan.created_at,
        ({
            let synced = Seq::new(old(entry).plan.legs@.len(), |i: int|
                synced_leg(old(entry).plan.legs@[i], old(entry).adapter.steps_by_leg@, workflow.step_states@));
            &&& r is None <==> !(plan_failed(synced) && needing_compensation(synced).len() > 0)
            &&& r is None ==> final(entry).plan.legs@ == synced
                && final(entry).plan.status == synced_plan_status(old(entry).plan.status, synced)
                && final(entry).manager == old(entry).manager
                && final(entry).comp_step_to_leg == old(entry).comp_step_to_leg
            &&& r matches Some((legs, wf)) ==> legs@ == compensation_order(synced)
                && final(entry).plan.legs@ == set_first_status_all(synced, legs@, LegStatus::Compensating)
                && compensation_workflow_of(wf, final(entry).plan, execution_options(true))
                && final(entry).plan.status == PlanStatus::Compensating
                && final(entry).manager.in_progress@ == old(entry).manager.in_progress@ + legs@
                && final(entry).manager.compensated@ == old(entry).manager.compensated@
                && final(entry).manager.failed@ == old(entry).manager.failed@
                && final(entry).comp_step_to_leg@ == wf.step_to_leg@
        }),
{
    let ghost synced = Seq::new(entry.plan.legs@.len(), |i: int|
        synced_leg(entry.plan.legs@[i], entry.adapter.steps_by_leg@, workflow.step_states@));
    sync_plan_from_workflow(&mut entry.plan, &entry.adapter, workflow);
    assert(entry.plan.legs@ =~= synced);
    let checker = AtomicityManager::new();
    if !checker.should_compensate(&entry.plan) {
        return None;
    }
    let legs = entry.manager.begin_compensation(&mut entry.plan);
    let wf = CompensationWorkflow::from_plan(&entry.plan);
    entry.comp_step_to_leg = crate::workflow::plan_adapter::clone_step_map(wf.step_to_leg());
    Some((legs, wf))
}

} // verus!
