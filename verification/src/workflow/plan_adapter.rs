//! From execution plans to workflows and back.
//!
//! Every leg of an execution plan becomes a `simulate -> [approve] ->
//! settle` group of workflow steps; the legs awaiting compensation become a
//! workflow of their own, newest first; and the outcomes of a run are
//! written back onto the plan.

use vstd::prelude::*;
use crate::ids::{short_id, uuid_string, uuid_text};
use crate::json::{json_opt_number, json_opt_string, json_quote, push_decimal, push_json_string, push_opt_number, push_opt_string, push_str};
use crate::plan::{Action, ActionType, ExecutionPlan, Leg, LegStatus, PlanStatus};
use crate::text::{decimal, string_of};
use crate::transaction::Chain;
use crate::workflow::definition::{FailurePolicy, RetryPolicy, WorkflowDefinition, WorkflowStep};
use crate::workflow::event::{find_step, first_step, has_step, lemma_step_pos, step_pos};
use crate::workflow::state::{StepState, StepStatus, WorkflowState};
use crate::plan::{plan_complete, plan_failed};
use crate::atomicity::{set_first_status, without_id, AtomicityManager};

verus! {

/// How a plan becomes a workflow.
#[derive(Debug, Clone, Copy)]
pub struct PlanAdapterOptions {
    /// Whether a human-approval step precedes the settlement of each leg.
    pub require_approval: bool,
    /// The retry policy of simulation and settlement steps.
    pub retry: RetryPolicy,
    /// The timeout of simulation and settlement steps, in milliseconds.
    pub timeout_ms: u64,
    /// The timeout of approval steps, in milliseconds.
    pub approval_timeout_ms: u64,
}

/// The default retry policy of a step.
pub open spec fn default_retry() -> RetryPolicy {
    RetryPolicy {
        max_attempts: 1,
        initial_backoff_ms: 1000,
        max_backoff_ms: 30000,
        backoff_multiplier_bits: 0x4000_0000_0000_0000,
        timeout_ms: 30000,
    }
}

impl Default for PlanAdapterOptions {
    fn default() -> (o: Self)
        ensures
            o.require_approval,
            o.retry == (RetryPolicy { max_attempts: 3, ..default_retry() }),
            o.timeout_ms == 60_000,
            o.approval_timeout_ms == 3_600_000,
    {
        let base = RetryPolicy::default();
        PlanAdapterOptions {
            require_approval: true,
            retry: RetryPolicy { max_attempts: 3, ..base },
            timeout_ms: 60_000,
            approval_timeout_ms: 3_600_000,
        }
    }
}

/// The name under which `serde` writes a chain.
pub open spec fn chain_variant(c: Chain) -> Seq<char> {
    match c {
        Chain::Ethereum => "Ethereum"@,
        Chain::Base => "Base"@,
        Chain::Solana => "Solana"@,
        Chain::Polygon => "Polygon"@,
        Chain::Arbitrum => "Arbitrum"@,
        Chain::Celo => "Celo"@,
        Chain::ZkSync => "ZkSync"@,
        Chain::Robinhood => "Robinhood"@,
    }
}

fn chain_variant_str(c: Chain) -> (s: &'static str)
    ensures
        s@ == chain_variant(c),
{
    match c {
        Chain::Ethereum => "Ethereum",
        Chain::Base => "Base",
        Chain::Solana => "Solana",
        Chain::Polygon => "Polygon",
        Chain::Arbitrum => "Arbitrum",
        Chain::Celo => "Celo",
        Chain::ZkSync => "ZkSync",
        Chain::Robinhood => "Robinhood",
    }
}

/// The name under which `serde` writes a unit variant of `ActionType`.
pub open spec fn action_type_variant(t: ActionType) -> Seq<char> {
    match t {
        ActionType::Swap => "Swap"@,
        ActionType::Transfer => "Transfer"@,
        ActionType::Bridge => "Bridge"@,
        ActionType::Stake => "Stake"@,
        ActionType::Unstake => "Unstake"@,
        ActionType::Lend => "Lend"@,
        ActionType::Borrow => "Borrow"@,
        ActionType::DeployContract => "DeployContract"@,
        ActionType::CallContract => "CallContract"@,
        ActionType::Custom(_) => "Custom"@,
    }
}

fn action_type_variant_str(t: &ActionType) -> (s: &'static str)
    ensures
        s@ == action_type_variant(*t),
{
    match t {
        ActionType::Swap => "Swap",
        ActionType::Transfer => "Transfer",
        ActionType::Bridge => "Bridge",
        ActionType::Stake => "Stake",
        ActionType::Unstake => "Unstake",
        ActionType::Lend => "Lend",
        ActionType::Borrow => "Borrow",
        ActionType::DeployContract => "DeployContract",
        ActionType::CallContract => "CallContract",
        ActionType::Custom(_) => "Custom",
    }
}

/// The JSON of an action type: the variant's name, or `{"Custom":"..."}`.
pub open spec fn action_type_json(t: ActionType) -> Seq<char> {
    match t {
        ActionType::Custom(s) => "{\"Custom\":"@ + json_quote(s@) + "}"@,
        _ => json_quote(action_type_variant(t)),
    }
}

/// The JSON of an action, keys in order; `metadata` is embedded as the
/// JSON text it holds.
pub open spec fn action_json(a: Action) -> Seq<char> {
    "{\"action_type\":"@ + action_type_json(a.action_type)
        + ",\"amount\":"@ + json_opt_number(a.amount)
        + ",\"chain\":"@ + json_quote(chain_variant(a.chain))
        + ",\"destination\":"@ + json_opt_string(match a.destination { Some(d) => Some(d.0@), None => None })
        + ",\"metadata\":"@ + a.metadata@
        + ",\"protocol\":"@ + json_quote(a.protocol@)
        + ",\"token\":"@ + json_opt_string(match a.token { Some(t) => Some(t@), None => None })
        + "}"@
}

fn push_action_type_json(out: &mut Vec<char>, t: &ActionType)
    ensures
        final(out)@ == old(out)@ + action_type_json(*t),
{
    let ghost start = out@;
    match t {
        ActionType::Custom(s) => {
            push_str(out, "{\"Custom\":");
            push_json_string(out, s.as_str());
            push_str(out, "}");
            assert(out@ =~= start + action_type_json(*t));
        },
        _ => {
            push_json_string(out, action_type_variant_str(t));
        },
    }
}

fn push_action_json(out: &mut Vec<char>, a: &Action)
    ensures
        final(out)@ == old(out)@ + action_json(*a),
{
    let mut v: Vec<char> = Vec::new();
    push_str(&mut v, "{\"action_type\":");
    assert(v@ =~= "{\"action_type\":"@);
    push_action_type_json(&mut v, &a.action_type);
    push_str(&mut v, ",\"amount\":");
    push_opt_number(&mut v, a.amount);
    push_str(&mut v, ",\"chain\":");
    push_json_string(&mut v, chain_variant_str(a.chain));
    push_str(&mut v, ",\"destination\":");
    match &a.destination {
        Some(d) => push_opt_string(&mut v, Some(d.0.as_str())),
        None => push_opt_string(&mut v, None),
    }
    push_str(&mut v, ",\"metadata\":");
    push_str(&mut v, a.metadata.as_str());
    push_str(&mut v, ",\"protocol\":");
    push_json_string(&mut v, a.protocol.as_str());
    push_str(&mut v, ",\"token\":");
    match &a.token {
        Some(t) => push_opt_string(&mut v, Some(t.as_str())),
        None => push_opt_string(&mut v, None),
    }
    push_str(&mut v, "}");
    assert(v@ == action_json(*a));
    let ghost start = out@;
    push_chars(out, &v);
}

/// Appends the characters of `v`.
fn push_chars(out: &mut Vec<char>, v: &Vec<char>)
    ensures
        final(out)@ == old(out)@ + v@,
{
    let ghost start = out@;
    let mut i: usize = 0;
    while i < v.len()
        invariant
            i <= v@.len(),
            out@ == start + v@.subrange(0, i as int),
        decreases v.len() - i,
    {
        out.push(v[i]);
        i = i + 1;
        assert(out@ =~= start + v@.subrange(0, i as int));
    }
    assert(v@.subrange(0, v@.len() as int) =~= v@);
}

/// The input of a leg's steps: the plan and leg ids, the leg's position
/// and, for simulation and settlement, the leg's action.
pub open spec fn leg_input(plan_id: u128, leg: Leg, idx: int, with_action: bool) -> Seq<char> {
    let head = if with_action { "{\"action\":"@ + action_json(leg.action) + ","@ } else { "{"@ };
    head + "\"leg_id\":"@ + json_quote(uuid_text(leg.id))
        + ",\"plan_id\":"@ + json_quote(uuid_text(plan_id))
        + ",\"position\":"@ + decimal(idx as nat)
        + "}"@
}

fn leg_input_text(plan_id: u128, leg: &Leg, idx: usize, with_action: bool) -> (s: String)
    ensures
        s@ == leg_input(plan_id, *leg, idx as int, with_action),
{
    let mut v: Vec<char> = Vec::new();
    if with_action {
        push_str(&mut v, "{\"action\":");
        assert(v@ =~= "{\"action\":"@);
        push_action_json(&mut v, &leg.action);
        push_str(&mut v, ",");
    } else {
        push_str(&mut v, "{");
        assert(v@ =~= "{"@);
    }
    push_str(&mut v, "\"leg_id\":");
    let lid = uuid_string(leg.id);
    push_json_string(&mut v, lid.as_str());
    push_str(&mut v, ",\"plan_id\":");
    let pid = uuid_string(plan_id);
    push_json_string(&mut v, pid.as_str());
    push_str(&mut v, ",\"position\":");
    push_decimal(&mut v, idx as u64);
    push_str(&mut v, "}");
    string_of(&v)
}

/// The id of a step of leg `idx`: its position, the first eight hex digits
/// of the leg's id and the step's kind, joined by hyphens.
pub open spec fn leg_step_id(idx: int, leg_id: u128, kind: Seq<char>) -> Seq<char> {
    decimal(idx as nat) + "-"@ + uuid_text(leg_id).subrange(0, 8) + "-"@ + kind
}

fn leg_step_id_text(idx: usize, leg_id: u128, kind: &str) -> (s: String)
    ensures
        s@ == leg_step_id(idx as int, leg_id, kind@),
{
    let mut v: Vec<char> = Vec::new();
    push_decimal(&mut v, idx as u64);
    assert(v@ =~= decimal(idx as nat));
    push_str(&mut v, "-");
    let short = short_id(leg_id);
    push_str(&mut v, short.as_str());
    push_str(&mut v, "-");
    push_str(&mut v, kind);
    string_of(&v)
}

/// The simulation activity for a chain: Solana legs go through the Solana
/// simulator, every EVM chain through the EVM one.
pub open spec fn simulate_activity(c: Chain) -> Seq<char> {
    match c {
        Chain::Solana => "simulate"@,
        _ => "simulate_evm"@,
    }
}

fn simulate_activity_str(c: Chain) -> (s: &'static str)
    ensures
        s@ == simulate_activity(c),
{
    match c {
        Chain::Solana => "simulate",
        _ => "simulate_evm",
    }
}

/// `s` is the step with these values, halting the run when it fails.
pub open spec fn step_is(
    s: WorkflowStep,
    id: Seq<char>,
    activity: Seq<char>,
    input: Seq<char>,
    retry: RetryPolicy,
    timeout_ms: u64,
    approval: bool,
) -> bool {
    &&& s.id@ == id
    &&& s.activity@ == activity
    &&& s.input@ == input
    &&& s.retry == retry
    &&& s.timeout_ms == timeout_ms
    &&& s.requires_approval == approval
    &&& s.on_failure == FailurePolicy::Halt
}

fn make_step(id: String, activity: &str, input: String, retry: RetryPolicy, timeout_ms: u64, approval: bool) -> (s: WorkflowStep)
    ensures
        step_is(s, id@, activity@, input@, retry, timeout_ms, approval),
        s.id == id,
{
    WorkflowStep {
        id,
        activity: activity.to_owned(),
        input,
        retry,
        timeout_ms,
        requires_approval: approval,
        on_failure: FailurePolicy::Halt,
    }
}

/// The number of steps of a leg's group.
pub open spec fn group_size(o: PlanAdapterOptions) -> int {
    if o.require_approval { 3 } else { 2 }
}

/// Where the group of leg `idx` starts.
pub open spec fn group_start(o: PlanAdapterOptions, idx: int) -> int {
    if o.require_approval { 3 * idx } else { 2 * idx }
}

/// The steps of leg `idx` of `plan` stand at their place in `steps`, the
/// leg's entry in `by_leg` lists their ids in order, and `to_leg` maps
/// each of them to the leg.
pub open spec fn leg_group(
    steps: Seq<WorkflowStep>,
    by_leg: Seq<(u128, Vec<String>)>,
    to_leg: Seq<(String, u128)>,
    plan: ExecutionPlan,
    o: PlanAdapterOptions,
    idx: int,
) -> bool {
    let leg = plan.legs@[idx];
    let b = group_start(o, idx);
    let last = b + group_size(o) - 1;
    &&& step_is(steps[b], leg_step_id(idx, leg.id, "simulate"@), simulate_activity(leg.action.chain),
        leg_input(plan.id, leg, idx, true), o.retry, o.timeout_ms, false)
    &&& o.require_approval ==> step_is(steps[b + 1], leg_step_id(idx, leg.id, "approve"@), "approve"@,
        leg_input(plan.id, leg, idx, false), default_retry(), o.approval_timeout_ms, true)
    &&& step_is(steps[last], leg_step_id(idx, leg.id, "settle"@), "settle"@,
        leg_input(plan.id, leg, idx, true), o.retry, o.timeout_ms, false)
    &&& by_leg[idx].0 == leg.id
    &&& by_leg[idx].1@ == (if o.require_approval {
        seq![steps[b].id, steps[b + 1].id, steps[b + 2].id]
    } else {
        seq![steps[b].id, steps[b + 1].id]
    })
    &&& to_leg[b] == (steps[b].id, leg.id)
    &&& o.require_approval ==> to_leg[b + 1] == (steps[b + 1].id, leg.id)
    &&& to_leg[last] == (steps[last].id, leg.id)
}

/// A workflow generated from an execution plan. Every step is mapped to
/// the leg it belongs to, and every leg to its steps in order.
#[derive(Debug)]
pub struct PlanWorkflow {
    pub name: String,
    pub steps: Vec<WorkflowStep>,
    pub steps_by_leg: Vec<(u128, Vec<String>)>,
    pub step_to_leg: Vec<(String, u128)>,
}

/// `w` is the workflow of `plan` under options `o`.
pub open spec fn plan_workflow_of(w: PlanWorkflow, plan: ExecutionPlan, o: PlanAdapterOptions) -> bool {
    let n = plan.legs@.len() as int;
    &&& w.name@ == "execution-plan-"@ + uuid_text(plan.id).subrange(0, 8)
    &&& w.steps@.len() == group_start(o, n)
    &&& w.steps_by_leg@.len() == n
    &&& w.step_to_leg@.len() == w.steps@.len()
    &&& forall|idx: int| 0 <= idx < n ==> #[trigger] leg_group(w.steps@, w.steps_by_leg@, w.step_to_leg@, plan, o, idx)
}

/// `new` begins with `old`.
pub open spec fn extends<T>(new: Seq<T>, old: Seq<T>) -> bool {
    old.len() <= new.len() && forall|k: int| 0 <= k < old.len() ==> new[k] == old[k]
}

proof fn lemma_leg_group_extends(
    steps: Seq<WorkflowStep>,
    by_leg: Seq<(u128, Vec<String>)>,
    to_leg: Seq<(String, u128)>,
    steps2: Seq<WorkflowStep>,
    by_leg2: Seq<(u128, Vec<String>)>,
    to_leg2: Seq<(String, u128)>,
    plan: ExecutionPlan,
    o: PlanAdapterOptions,
    j: int,
)
    requires
        0 <= j,
        j < by_leg.len(),
        group_start(o, j) + group_size(o) <= steps.len(),
        group_start(o, j) + group_size(o) <= to_leg.len(),
        leg_group(steps, by_leg, to_leg, plan, o, j),
        extends(steps2, steps),
        extends(by_leg2, by_leg),
        extends(to_leg2, to_leg),
    ensures
        leg_group(steps2, by_leg2, to_leg2, plan, o, j),
{
    let b = group_start(o, j);
    assert(steps2[b] == steps[b]);
    assert(steps2[b + 1] == steps[b + 1]);
    assert(to_leg2[b] == to_leg[b]);
    assert(to_leg2[b + 1] == to_leg[b + 1]);
    if o.require_approval {
        assert(steps2[b + 2] == steps[b + 2]);
        assert(to_leg2[b + 2] == to_leg[b + 2]);
    }
    assert(by_leg2[j] == by_leg[j]);
}

fn push_leg_group(
    steps: &mut Vec<WorkflowStep>,
    by_leg: &mut Vec<(u128, Vec<String>)>,
    to_leg: &mut Vec<(String, u128)>,
    plan: &ExecutionPlan,
    o: PlanAdapterOptions,
    idx: usize,
)
    requires
        idx < plan.legs@.len(),
        old(steps)@.len() == group_start(o, idx as int),
        old(by_leg)@.len() == idx,
        old(to_leg)@.len() == old(steps)@.len(),
    ensures
        final(steps)@.len() == group_start(o, idx + 1),
        final(by_leg)@.len() == idx + 1,
        final(to_leg)@.len() == final(steps)@.len(),
        extends(final(steps)@, old(steps)@),
        extends(final(by_leg)@, old(by_leg)@),
        extends(final(to_leg)@, old(to_leg)@),
        leg_group(final(steps)@, final(by_leg)@, final(to_leg)@, *plan, o, idx as int),
{
    let leg = &plan.legs[idx];
    let mut ids: Vec<String> = Vec::new();

    let sim_id = leg_step_id_text(idx, leg.id, "simulate");
    let sim_input = leg_input_text(plan.id, leg, idx, true);
    ids.push(sim_id.clone());
    to_leg.push((sim_id.clone(), leg.id));
    steps.push(make_step(sim_id, simulate_activity_str(leg.action.chain), sim_input, o.retry, o.timeout_ms, false));

    if o.require_approval {
        let approve_id = leg_step_id_text(idx, leg.id, "approve");
        let approve_input = leg_input_text(plan.id, leg, idx, false);
        ids.push(approve_id.clone());
        to_leg.push((approve_id.clone(), leg.id));
        let retry = RetryPolicy::default();
        steps.push(make_step(approve_id, "approve", approve_input, retry, o.approval_timeout_ms, true));
    }

    let settle_id = leg_step_id_text(idx, leg.id, "settle");
    let settle_input = leg_input_text(plan.id, leg, idx, true);
    ids.push(settle_id.clone());
    to_leg.push((settle_id.clone(), leg.id));
    steps.push(make_step(settle_id, "settle", settle_input, o.retry, o.timeout_ms, false));

    by_leg.push((leg.id, ids));
    assert(by_leg@[idx as int].1@ =~= (if o.require_approval {
        seq![steps@[group_start(o, idx as int)].id, steps@[group_start(o, idx as int) + 1].id, steps@[group_start(o, idx as int) + 2].id]
    } else {
        seq![steps@[group_start(o, idx as int)].id, steps@[group_start(o, idx as int) + 1].id]
    }));
}

impl PlanWorkflow {
    /// The workflow of `plan` under the default options.
    pub fn from_plan(plan: &ExecutionPlan) -> (w: Self)
        ensures
            plan_workflow_of(w, *plan, PlanAdapterOptions {
                require_approval: true,
                retry: RetryPolicy { max_attempts: 3, ..default_retry() },
                timeout_ms: 60_000,
                approval_timeout_ms: 3_600_000,
            }),
    {
        let o = PlanAdapterOptions::default();
        Self::from_plan_with_options(plan, &o)
    }

    /// The workflow of `plan`: for each leg in order a simulation step (on
    /// the chain's simulator), an approval step when `options` ask for one,
    /// and a settlement step, each halting the run when it fails.
    pub fn from_plan_with_options(plan: &ExecutionPlan, options: &PlanAdapterOptions) -> (w: Self)
        ensures
            plan_workflow_of(w, *plan, *options),
    {
        let o = *options;
        let mut steps: Vec<WorkflowStep> = Vec::new();
        let mut by_leg: Vec<(u128, Vec<String>)> = Vec::new();
        let mut to_leg: Vec<(String, u128)> = Vec::new();
        let n = plan.legs.len();
        let mut idx: usize = 0;
        while idx < n
            invariant
                n == plan.legs@.len(),
                o == *options,
                idx <= n,
                steps@.len() == group_start(o, idx as int),
                by_leg@.len() == idx,
                to_leg@.len() == steps@.len(),
                forall|j: int| 0 <= j < idx ==> #[trigger] leg_group(steps@, by_leg@, to_leg@, *plan, o, j),
            decreases n - idx,
        {
            let ghost old_steps = steps@;
            let ghost old_by = by_leg@;
            let ghost old_to = to_leg@;
            push_leg_group(&mut steps, &mut by_leg, &mut to_leg, plan, o, idx);
            proof {
                assert forall|j: int| 0 <= j < idx + 1 implies #[trigger] leg_group(steps@, by_leg@, to_leg@, *plan, o, j) by {
                    if j < idx {
                        lemma_leg_group_extends(old_steps, old_by, old_to, steps@, by_leg@, to_leg@, *plan, o, j);
                    }
                }
            }
            idx = idx + 1;
        }
        let mut name: Vec<char> = Vec::new();
        push_str(&mut name, "execution-plan-");
        assert(name@ =~= "execution-plan-"@);
        let short = short_id(plan.id);
        push_str(&mut name, short.as_str());
        PlanWorkflow { name: string_of(&name), steps, steps_by_leg: by_leg, step_to_leg: to_leg }
    }
}

/// `j` is the last entry of `entries` for leg `id`.
pub open spec fn last_entry(entries: Seq<(u128, Vec<String>)>, id: u128, j: int) -> bool {
    &&& 0 <= j < entries.len()
    &&& entries[j].0 == id
    &&& forall|k: int| j < k < entries.len() ==> entries[k].0 != id
}

/// Some entry of `entries` is for leg `id`.
pub open spec fn has_entry(entries: Seq<(u128, Vec<String>)>, id: u128) -> bool {
    exists|j: int| 0 <= j < entries.len() && entries[j].0 == id
}

/// The step ids recorded for leg `id`: those of its last entry (a later
/// entry for the same leg replaces an earlier one).
pub open spec fn leg_steps(entries: Seq<(u128, Vec<String>)>, id: u128) -> Option<Seq<String>> {
    if has_entry(entries, id) {
        Some(entries[choose|j: int| last_entry(entries, id, j)].1@)
    } else {
        None
    }
}

proof fn lemma_last_entry(entries: Seq<(u128, Vec<String>)>, id: u128, j: int)
    requires
        last_entry(entries, id, j),
    ensures
        has_entry(entries, id),
        leg_steps(entries, id) == Some(entries[j].1@),
{
    assert(has_entry(entries, id));
    let c = choose|c: int| last_entry(entries, id, c);
    assert(c == j) by {
        if c < j {
            assert(entries[j].0 == id);
        } else if c > j {
            assert(entries[c].0 == id);
        }
    }
}

fn find_entry(entries: &Vec<(u128, Vec<String>)>, id: u128) -> (r: Option<usize>)
    ensures
        r matches Some(j) ==> last_entry(entries@, id, j as int),
        r is None ==> !has_entry(entries@, id),
{
    let mut k: usize = entries.len();
    while k > 0
        invariant
            k <= entries@.len(),
            forall|q: int| k <= q < entries@.len() ==> entries@[q].0 != id,
        decreases k,
    {
        if entries[k - 1].0 == id {
            return Some(k - 1);
        }
        k = k - 1;
    }
    None
}

impl PlanWorkflow {
    /// The step ids of a leg, in execution order (`simulate`, `approve`
    /// when there is one, `settle`).
    pub fn steps_for_leg(&self, leg_id: u128) -> (r: Option<&Vec<String>>)
        ensures
            match r {
                Some(v) => leg_steps(self.steps_by_leg@, leg_id) == Some(v@),
                None => leg_steps(self.steps_by_leg@, leg_id) is None,
            },
    {
        match find_entry(&self.steps_by_leg, leg_id) {
            Some(j) => {
                proof { lemma_last_entry(self.steps_by_leg@, leg_id, j as int); }
                Some(&self.steps_by_leg[j].1)
            },
            None => None,
        }
    }

    /// Which leg each step belongs to.
    pub fn step_to_leg(&self) -> (r: &Vec<(String, u128)>)
        ensures
            r == &self.step_to_leg,
    {
        &self.step_to_leg
    }
}

impl WorkflowDefinition for PlanWorkflow {
    fn name(&self) -> (n: &str)
        ensures
            n@ == self.name@,
    {
        self.name.as_str()
    }

    fn steps(&self) -> (s: Vec<WorkflowStep>)
        ensures
            s@ == self.steps@,
    {
        crate::workflow::definition::clone_steps(&self.steps)
    }
}

/// A leg that the atomicity manager has marked for compensation and that
/// carries a compensating action.
pub open spec fn awaiting_compensation(leg: Leg) -> bool {
    leg.status == LegStatus::Compensating && leg.compensating_action.is_some()
}

/// The legs of `legs[k..]` awaiting compensation, newest first.
pub open spec fn newest_first(legs: Seq<Leg>, k: int) -> Seq<Leg>
    decreases legs.len() - k,
{
    if k < 0 || k >= legs.len() {
        Seq::empty()
    } else if awaiting_compensation(legs[k]) {
        newest_first(legs, k + 1).push(legs[k])
    } else {
        newest_first(legs, k + 1)
    }
}

/// The input of a compensation step: the plan and leg ids and the leg's
/// compensating action.
pub open spec fn compensation_input(plan_id: u128, leg: Leg) -> Seq<char> {
    let c = leg.compensating_action.unwrap();
    "{\"action_type\":"@ + action_type_json(c.action_type)
        + ",\"chain\":"@ + json_quote(chain_variant(c.chain))
        + ",\"description\":"@ + json_quote(c.description@)
        + ",\"leg_id\":"@ + json_quote(uuid_text(leg.id))
        + ",\"parameters\":"@ + c.parameters@
        + ",\"plan_id\":"@ + json_quote(uuid_text(plan_id))
        + "}"@
}

fn compensation_input_text(plan_id: u128, leg: &Leg) -> (s: String)
    requires
        leg.compensating_action.is_some(),
    ensures
        s@ == compensation_input(plan_id, *leg),
{
    let c = leg.compensating_action.as_ref().unwrap();
    let mut v: Vec<char> = Vec::new();
    push_str(&mut v, "{\"action_type\":");
    assert(v@ =~= "{\"action_type\":"@);
    push_action_type_json(&mut v, &c.action_type);
    push_str(&mut v, ",\"chain\":");
    push_json_string(&mut v, chain_variant_str(c.chain));
    push_str(&mut v, ",\"description\":");
    push_json_string(&mut v, c.description.as_str());
    push_str(&mut v, ",\"leg_id\":");
    let lid = uuid_string(leg.id);
    push_json_string(&mut v, lid.as_str());
    push_str(&mut v, ",\"parameters\":");
    push_str(&mut v, c.parameters.as_str());
    push_str(&mut v, ",\"plan_id\":");
    let pid = uuid_string(plan_id);
    push_json_string(&mut v, pid.as_str());
    push_str(&mut v, "}");
    string_of(&v)
}

/// The id of compensation step `idx` for leg `leg_id`.
pub open spec fn compensation_step_id(idx: int, leg_id: u128) -> Seq<char> {
    "comp-"@ + decimal(idx as nat) + "-"@ + uuid_text(leg_id).subrange(0, 8)
}

fn compensation_step_id_text(idx: usize, leg_id: u128) -> (s: String)
    ensures
        s@ == compensation_step_id(idx as int, leg_id),
{
    let mut v: Vec<char> = Vec::new();
    push_str(&mut v, "comp-");
    assert(v@ =~= "comp-"@);
    push_decimal(&mut v, idx as u64);
    push_str(&mut v, "-");
    let short = short_id(leg_id);
    push_str(&mut v, short.as_str());
    string_of(&v)
}

/// A workflow that runs the compensating actions of a partly executed plan.
#[derive(Debug)]
pub struct CompensationWorkflow {
    pub name: String,
    pub steps: Vec<WorkflowStep>,
    pub step_to_leg: Vec<(String, u128)>,
}

/// `w` is the compensation workflow of `plan` under options `o`: one
/// `compensate` step per leg awaiting compensation, newest leg first.
pub open spec fn compensation_workflow_of(w: CompensationWorkflow, plan: ExecutionPlan, o: PlanAdapterOptions) -> bool {
    let legs = newest_first(plan.legs@, 0);
    &&& w.name@ == "compensate-"@ + uuid_text(plan.id).subrange(0, 8)
    &&& w.steps@.len() == legs.len()
    &&& w.step_to_leg@.len() == legs.len()
    &&& forall|idx: int| 0 <= idx < legs.len() ==> {
        &&& step_is(#[trigger] w.steps@[idx], compensation_step_id(idx, legs[idx].id), "compensate"@,
            compensation_input(plan.id, legs[idx]), o.retry, o.timeout_ms, false)
        &&& w.step_to_leg@[idx] == (w.steps@[idx].id, legs[idx].id)
    }
}

impl CompensationWorkflow {
    /// The compensation workflow of `plan` under the default options.
    pub fn from_plan(plan: &ExecutionPlan) -> (w: Self)
        ensures
            compensation_workflow_of(w, *plan, PlanAdapterOptions {
                require_approval: true,
                retry: RetryPolicy { max_attempts: 3, ..default_retry() },
                timeout_ms: 60_000,
                approval_timeout_ms: 3_600_000,
            }),
    {
        let o = PlanAdapterOptions::default();
        Self::from_plan_with_options(plan, &o)
    }

    /// The compensation workflow of `plan`: one step per leg awaiting
    /// compensation, the most recent leg first, each running the leg's
    /// compensating action and halting the run when it fails.
    pub fn from_plan_with_options(plan: &ExecutionPlan, options: &PlanAdapterOptions) -> (w: Self)
        ensures
            compensation_workflow_of(w, *plan, *options),
    {
        let o = *options;
        let ghost legs = plan.legs@;
        let mut steps: Vec<WorkflowStep> = Vec::new();
        let mut to_leg: Vec<(String, u128)> = Vec::new();
        let mut k: usize = plan.legs.len();
        while k > 0
            invariant
                legs == plan.legs@,
                o == *options,
                k <= legs.len(),
                steps@.len() == newest_first(legs, k as int).len(),
                to_leg@.len() == steps@.len(),
                forall|idx: int| 0 <= idx < steps@.len() ==> {
                    &&& step_is(#[trigger] steps@[idx], compensation_step_id(idx, newest_first(legs, k as int)[idx].id), "compensate"@,
                        compensation_input(plan.id, newest_first(legs, k as int)[idx]), o.retry, o.timeout_ms, false)
                    &&& to_leg@[idx] == (steps@[idx].id, newest_first(legs, k as int)[idx].id)
                },
            decreases k,
        {
            let ghost before = newest_first(legs, k as int);
            let leg = &plan.legs[k - 1];
            let waiting = leg.status == LegStatus::Compensating && leg.compensating_action.is_some();
            if waiting {
                let idx = steps.len();
                let id = compensation_step_id_text(idx, leg.id);
                let input = compensation_input_text(plan.id, leg);
                to_leg.push((id.clone(), leg.id));
                steps.push(make_step(id, "compensate", input, o.retry, o.timeout_ms, false));
                assert(newest_first(legs, k - 1) == before.push(legs[k - 1]));
            } else {
                assert(newest_first(legs, k - 1) == before);
            }
            k = k - 1;
        }
        let mut name: Vec<char> = Vec::new();
        push_str(&mut name, "compensate-");
        assert(name@ =~= "compensate-"@);
        let short = short_id(plan.id);
        push_str(&mut name, short.as_str());
        CompensationWorkflow { name: string_of(&name), steps, step_to_leg: to_leg }
    }

    /// Which leg each compensation step undoes.
    pub fn step_to_leg(&self) -> (r: &Vec<(String, u128)>)
        ensures
            r == &self.step_to_leg,
    {
        &self.step_to_leg
    }
}

impl WorkflowDefinition for CompensationWorkflow {
    fn name(&self) -> (n: &str)
        ensures
            n@ == self.name@,
    {
        self.name.as_str()
    }

    fn steps(&self) -> (s: Vec<WorkflowStep>)
        ensures
            s@ == self.steps@,
    {
        crate::workflow::definition::clone_steps(&self.steps)
    }
}

/// The state of the first step with id `id`, if there is one.
pub open spec fn state_for(ss: Seq<StepState>, id: Seq<char>) -> Option<StepState> {
    if has_step(ss, id) {
        Some(ss[step_pos(ss, id)])
    } else {
        None
    }
}

/// The error of the first of `ids` (in order) whose step failed.
pub open spec fn first_failure(ss: Seq<StepState>, ids: Seq<String>) -> Option<String>
    decreases ids.len(),
{
    if ids.len() == 0 {
        None
    } else {
        match state_for(ss, ids[0]@) {
            Some(st) => match st.status {
                StepStatus::Failed(e) => Some(e),
                _ => first_failure(ss, ids.drop_first()),
            },
            None => first_failure(ss, ids.drop_first()),
        }
    }
}

/// Some of `ids` names a step of the run.
pub open spec fn any_found(ss: Seq<StepState>, ids: Seq<String>) -> bool {
    exists|k: int| 0 <= k < ids.len() && has_step(ss, #[trigger] ids[k]@)
}

/// Compensation bookkeeping has begun on a leg, which a run's outcome no
/// longer touches.
pub open spec fn compensation_begun(s: LegStatus) -> bool {
    s == LegStatus::Compensating || s == LegStatus::Compensated || s == LegStatus::Skipped
}

/// What a run's step states `ss` make of `leg`: a leg whose steps include a
/// failed one fails with the first such error; otherwise a completed settle
/// step (the last of its steps) completes it with that step's output.
pub open spec fn synced_leg(leg: Leg, by_leg: Seq<(u128, Vec<String>)>, ss: Seq<StepState>) -> Leg {
    if compensation_begun(leg.status) {
        leg
    } else {
        match leg_steps(by_leg, leg.id) {
            None => leg,
            Some(ids) => if !any_found(ss, ids) {
                leg
            } else {
                match first_failure(ss, ids) {
                    Some(e) => Leg { status: LegStatus::Failed, error: Some(e), ..leg },
                    None => match state_for(ss, ids.last()@) {
                        Some(st) => if st.status is Completed && leg.status != LegStatus::Completed {
                            Leg { status: LegStatus::Completed, result: st.output, ..leg }
                        } else {
                            leg
                        },
                        None => leg,
                    },
                }
            },
        }
    }
}

/// Whether syncing `leg` counts as a change: it newly fails, or newly
/// completes.
pub open spec fn sync_changes(leg: Leg, by_leg: Seq<(u128, Vec<String>)>, ss: Seq<StepState>) -> bool {
    &&& !compensation_begun(leg.status)
    &&& leg_steps(by_leg, leg.id) matches Some(ids)
    &&& any_found(ss, ids)
    &&& match first_failure(ss, ids) {
        Some(_) => leg.status != LegStatus::Failed,
        None => state_for(ss, ids.last()@) matches Some(st) && st.status is Completed && leg.status != LegStatus::Completed,
    }
}

/// How many of `legs` change when synced.
pub open spec fn sync_count(legs: Seq<Leg>, by_leg: Seq<(u128, Vec<String>)>, ss: Seq<StepState>) -> nat
    decreases legs.len(),
{
    if legs.len() == 0 {
        0
    } else {
        sync_count(legs.drop_last(), by_leg, ss) + (if sync_changes(legs.last(), by_leg, ss) { 1nat } else { 0nat })
    }
}

/// The status of a plan after syncing: a plan still on its way fails when
/// a leg failed, completes when every leg is done, and is executing
/// otherwise; a plan in any other status keeps it.
pub open spec fn synced_plan_status(old: PlanStatus, legs: Seq<Leg>) -> PlanStatus {
    if old == PlanStatus::Draft || old == PlanStatus::Validated || old == PlanStatus::Executing {
        if plan_failed(legs) {
            PlanStatus::Failed
        } else if plan_complete(legs) {
            PlanStatus::Completed
        } else {
            PlanStatus::Executing
        }
    } else {
        old
    }
}

fn find_failure(ss: &Vec<StepState>, ids: &Vec<String>) -> (r: Option<String>)
    ensures
        r == first_failure(ss@, ids@),
{
    let mut i: usize = 0;
    assert(ids@.subrange(0, ids@.len() as int) =~= ids@);
    while i < ids.len()
        invariant
            i <= ids@.len(),
            first_failure(ss@, ids@) == first_failure(ss@, ids@.subrange(i as int, ids@.len() as int)),
        decreases ids.len() - i,
    {
        let ghost rest = ids@.subrange(i as int, ids@.len() as int);
        assert(rest.drop_first() =~= ids@.subrange(i + 1, ids@.len() as int));
        assert(rest[0] == ids@[i as int]);
        match find_step(ss, &ids[i]) {
            Some(j) => {
                proof { lemma_step_pos(ss@, ids@[i as int]@, j as int); }
                match &ss[j].status {
                    StepStatus::Failed(e) => {
                        return Some(e.clone());
                    },
                    _ => {},
                }
            },
            None => {},
        }
        i = i + 1;
    }
    assert(ids@.subrange(ids@.len() as int, ids@.len() as int) =~= Seq::<String>::empty());
    None
}

fn find_any(ss: &Vec<StepState>, ids: &Vec<String>) -> (r: bool)
    ensures
        r == any_found(ss@, ids@),
{
    let mut i: usize = 0;
    while i < ids.len()
        invariant
            i <= ids@.len(),
            forall|k: int| 0 <= k < i ==> !has_step(ss@, #[trigger] ids@[k]@),
        decreases ids.len() - i,
    {
        if find_step(ss, &ids[i]).is_some() {
            return true;
        }
        i = i + 1;
    }
    false
}

fn sync_leg(leg: &mut Leg, adapter: &PlanWorkflow, state: &WorkflowState) -> (changed: bool)
    ensures
        *final(leg) == synced_leg(*old(leg), adapter.steps_by_leg@, state.step_states@),
        changed == sync_changes(*old(leg), adapter.steps_by_leg@, state.step_states@),
{
    let ghost ss = state.step_states@;
    let st = leg.status;
    if st == LegStatus::Compensating || st == LegStatus::Compensated || st == LegStatus::Skipped {
        return false;
    }
    let ids = match adapter.steps_for_leg(leg.id) {
        Some(ids) => ids,
        None => {
            return false;
        },
    };
    if !find_any(&state.step_states, ids) {
        return false;
    }
    match find_failure(&state.step_states, ids) {
        Some(err) => {
            let changed = st != LegStatus::Failed;
            leg.status = LegStatus::Failed;
            leg.error = Some(err);
            changed
        },
        None => {
            assert(ids@.len() > 0);
            let last = ids.len() - 1;
            match find_step(&state.step_states, &ids[last]) {
                Some(j) => {
                    proof { lemma_step_pos(ss, ids@[last as int]@, j as int); }
                    let done = match state.step_states[j].status {
                        StepStatus::Completed => true,
                        _ => false,
                    };
                    if done && st != LegStatus::Completed {
                        leg.status = LegStatus::Completed;
                        leg.result = match &state.step_states[j].output {
                            Some(o) => Some(o.clone()),
                            None => None,
                        };
                        true
                    } else {
                        false
                    }
                },
                None => false,
            }
        },
    }
}

/// Writes the outcome of a run of `adapter`'s workflow back onto `plan`:
/// each leg not yet under compensation fails when one of its steps failed
/// (keeping the first error) and completes when its settle step completed
/// (keeping that step's output); a plan still on its way then fails,
/// completes or keeps executing. Returns how many legs changed status.
pub fn sync_plan_from_workflow(plan: &mut ExecutionPlan, adapter: &PlanWorkflow, state: &WorkflowState) -> (updated: usize)
    ensures
        final(plan).id == old(plan).id,
        final(plan).intent == old(plan).intent,
        final(plan).created_at == old(plan).created_at,
        final(plan).legs@.len() == old(plan).legs@.len(),
        forall|i: int| 0 <= i < old(plan).legs@.len() ==> #[trigger] final(plan).legs@[i]
            == synced_leg(old(plan).legs@[i], adapter.steps_by_leg@, state.step_states@),
        final(plan).status == synced_plan_status(old(plan).status, final(plan).legs@),
        updated == sync_count(old(plan).legs@, adapter.steps_by_leg@, state.step_states@),
{
    let ghost legs0 = plan.legs@;
    let ghost by_leg = adapter.steps_by_leg@;
    let ghost ss = state.step_states@;
    let mut updated: usize = 0;
    let n = plan.legs.len();
    let mut i: usize = 0;
    while i < n
        invariant
            n == legs0.len(),
            plan.legs@.len() == n,
            i <= n,
            plan.id == old(plan).id,
            plan.intent == old(plan).intent,
            plan.created_at == old(plan).created_at,
            plan.status == old(plan).status,
            legs0 == old(plan).legs@,
            by_leg == adapter.steps_by_leg@,
            ss == state.step_states@,
            forall|j: int| 0 <= j < i ==> #[trigger] plan.legs@[j] == synced_leg(legs0[j], by_leg, ss),
            forall|j: int| i <= j < n ==> #[trigger] plan.legs@[j] == legs0[j],
            updated == sync_count(legs0.take(i as int), by_leg, ss),
            updated <= i,
        decreases n - i,
    {
        let changed = sync_leg(&mut plan.legs[i], adapter, state);
        assert(legs0.take(i + 1).drop_last() =~= legs0.take(i as int));
        assert(legs0.take(i + 1).last() == legs0[i as int]);
        if changed {
            updated = updated + 1;
        }
        i = i + 1;
    }
    assert(legs0.take(n as int) =~= legs0);
    let st = plan.status;
    if st == PlanStatus::Draft || st == PlanStatus::Validated || st == PlanStatus::Executing {
        plan.status = if plan.has_failed() {
            PlanStatus::Failed
        } else if plan.is_complete() {
            PlanStatus::Completed
        } else {
            PlanStatus::Executing
        };
    }
    updated
}

/// `j` is the last entry of `to_leg` for step `id`.
pub open spec fn last_step_entry(to_leg: Seq<(String, u128)>, id: Seq<char>, j: int) -> bool {
    &&& 0 <= j < to_leg.len()
    &&& to_leg[j].0@ == id
    &&& forall|k: int| j < k < to_leg.len() ==> to_leg[k].0@ != id
}

/// The leg that step `id` belongs to: that of the step's last entry (a
/// later entry for the same step replaces an earlier one).
pub open spec fn leg_of_step(to_leg: Seq<(String, u128)>, id: Seq<char>) -> Option<u128> {
    if exists|j: int| 0 <= j < to_leg.len() && to_leg[j].0@ == id {
        Some(to_leg[choose|j: int| last_step_entry(to_leg, id, j)].1)
    } else {
        None
    }
}

fn find_leg_of_step(to_leg: &Vec<(String, u128)>, id: &String) -> (r: Option<u128>)
    ensures
        r == leg_of_step(to_leg@, id@),
{
    let mut k: usize = to_leg.len();
    while k > 0
        invariant
            k <= to_leg@.len(),
            forall|q: int| k <= q < to_leg@.len() ==> to_leg@[q].0@ != id@,
        decreases k,
    {
        if to_leg[k - 1].0 == *id {
            let j = k - 1;
            proof {
                assert(last_step_entry(to_leg@, id@, j as int));
                let c = choose|c: int| last_step_entry(to_leg@, id@, c);
                assert(c == j) by {
                    if c < j {
                        assert(to_leg@[j as int].0@ == id@);
                    } else if c > j {
                        assert(to_leg@[c].0@ == id@);
                    }
                }
            }
            return Some(to_leg[j].1);
        }
        k = k - 1;
    }
    None
}

/// The compensation outcomes recorded in a run's step states, in order:
/// each completed or failed step that undoes a leg, with whether it
/// succeeded.
pub open spec fn compensation_outcomes(ss: Seq<StepState>, to_leg: Seq<(String, u128)>) -> Seq<(u128, bool)>
    decreases ss.len(),
{
    if ss.len() == 0 {
        Seq::empty()
    } else {
        let rest = compensation_outcomes(ss.drop_last(), to_leg);
        match leg_of_step(to_leg, ss.last().step_id@) {
            Some(leg) => match ss.last().status {
                StepStatus::Completed => rest.push((leg, true)),
                StepStatus::Failed(_) => rest.push((leg, false)),
                _ => rest,
            },
            None => rest,
        }
    }
}

/// The compensation bookkeeping of a plan and its manager.
pub struct CompensationBook {
    pub compensated: Seq<u128>,
    pub in_progress: Seq<u128>,
    pub failed: Seq<u128>,
    pub legs: Seq<Leg>,
    pub status: PlanStatus,
}

/// The bookkeeping after one compensation outcome: a success marks the leg
/// compensated, a failure marks it as needing manual reversal.
pub open spec fn record_compensation(b: CompensationBook, leg: u128, ok: bool) -> CompensationBook {
    let in_progress = without_id(b.in_progress, leg);
    if ok {
        CompensationBook {
            compensated: b.compensated.push(leg),
            in_progress,
            failed: b.failed,
            legs: set_first_status(b.legs, leg, LegStatus::Compensated),
            status: if in_progress.len() == 0 { PlanStatus::Failed } else { b.status },
        }
    } else {
        CompensationBook {
            compensated: b.compensated,
            in_progress,
            failed: b.failed.push(leg),
            legs: set_first_status(b.legs, leg, LegStatus::Completed),
            status: b.status,
        }
    }
}

/// The bookkeeping after a sequence of outcomes, oldest first.
pub open spec fn record_compensations(b: CompensationBook, outcomes: Seq<(u128, bool)>) -> CompensationBook
    decreases outcomes.len(),
{
    if outcomes.len() == 0 {
        b
    } else {
        let (leg, ok) = outcomes.last();
        record_compensation(record_compensations(b, outcomes.drop_last()), leg, ok)
    }
}

/// The bookkeeping of a plan and its manager.
pub open spec fn book_of(plan: ExecutionPlan, manager: AtomicityManager) -> CompensationBook {
    CompensationBook {
        compensated: manager.compensated@,
        in_progress: manager.in_progress@,
        failed: manager.failed@,
        legs: plan.legs@,
        status: plan.status,
    }
}

/// Reconciles a compensation run onto the plan and its manager: every
/// completed step marks its leg compensated, every failed one marks the
/// leg's reversal as failed, in the order of the run's steps.
pub fn sync_compensation_from_workflow(
    plan: &mut ExecutionPlan,
    manager: &mut AtomicityManager,
    step_to_leg: &Vec<(String, u128)>,
    state: &WorkflowState,
)
    ensures
        book_of(*final(plan), *final(manager)) == record_compensations(
            book_of(*old(plan), *old(manager)),
            compensation_outcomes(state.step_states@, step_to_leg@),
        ),
        final(plan).id == old(plan).id,
        final(plan).intent == old(plan).intent,
        final(plan).created_at == old(plan).created_at,
{
    let ghost b0 = book_of(*plan, *manager);
    let ghost ss = state.step_states@;
    let mut i: usize = 0;
    while i < state.step_states.len()
        invariant
            i <= ss.len(),
            ss == state.step_states@,
            b0 == book_of(*old(plan), *old(manager)),
            book_of(*plan, *manager) == record_compensations(b0, compensation_outcomes(ss.take(i as int), step_to_leg@)),
            plan.id == old(plan).id,
            plan.intent == old(plan).intent,
            plan.created_at == old(plan).created_at,
        decreases ss.len() - i,
    {
        let ghost before = compensation_outcomes(ss.take(i as int), step_to_leg@);
        assert(ss.take(i + 1).drop_last() =~= ss.take(i as int));
        assert(ss.take(i + 1).last() == ss[i as int]);
        let step = &state.step_states[i];
        match find_leg_of_step(step_to_leg, &step.step_id) {
            Some(leg_id) => {
                match &step.status {
                    StepStatus::Completed => {
                        let ghost b1 = book_of(*plan, *manager);
                        manager.mark_compensated(plan, leg_id);
                        assert(compensation_outcomes(ss.take(i + 1), step_to_leg@) == before.push((leg_id, true)));
                        assert(before.push((leg_id, true)).drop_last() =~= before);
                        assert(book_of(*plan, *manager) == record_compensation(b1, leg_id, true));
                    },
                    StepStatus::Failed(_) => {
                        let ghost b1 = book_of(*plan, *manager);
                        manager.mark_compensation_failed(plan, leg_id);
                        assert(compensation_outcomes(ss.take(i + 1), step_to_leg@) == before.push((leg_id, false)));
                        assert(before.push((leg_id, false)).drop_last() =~= before);
                        assert(book_of(*plan, *manager) == record_compensation(b1, leg_id, false));
                    },
                    _ => {
                        assert(compensation_outcomes(ss.take(i + 1), step_to_leg@) == before);
                    },
                }
            },
            None => {
                assert(compensation_outcomes(ss.take(i + 1), step_to_leg@) == before);
            },
        }
        i = i + 1;
    }
    assert(ss.take(ss.len() as int) =~= ss);
}

/// A copy of a step-to-leg map.
pub fn clone_step_map(v: &Vec<(String, u128)>) -> (r: Vec<(String, u128)>)
    ensures
        r@ == v@,
{
    let mut r: Vec<(String, u128)> = Vec::new();
    let mut i: usize = 0;
    while i < v.len()
        invariant
            i <= v@.len(),
            r@ == v@.take(i as int),
        decreases v.len() - i,
    {
        r.push((v[i].0.clone(), v[i].1));
        i = i + 1;
        assert(r@ =~= v@.take(i as int));
    }
    assert(v@.take(v@.len() as int) =~= v@);
    r
}

/// Writing a run's outcome back onto a leg is idempotent: a leg already
/// synced from a run's state stays as it is when synced again from the same
/// state, and that second sync counts as no change.
pub proof fn lemma_sync_leg_idempotent(leg: Leg, by_leg: Seq<(u128, Vec<String>)>, ss: Seq<StepState>)
    ensures
        synced_leg(synced_leg(leg, by_leg, ss), by_leg, ss) == synced_leg(leg, by_leg, ss),
        !sync_changes(synced_leg(leg, by_leg, ss), by_leg, ss),
{
}

/// The legs of `legs`, each synced from `ss`.
pub open spec fn synced_legs(legs: Seq<Leg>, by_leg: Seq<(u128, Vec<String>)>, ss: Seq<StepState>) -> Seq<Leg> {
    Seq::new(legs.len(), |i: int| synced_leg(legs[i], by_leg, ss))
}

/// Syncing a plan a second time from the same run state changes no leg:
/// the count of changed legs is zero.
pub proof fn lemma_sync_twice_counts_nothing(legs: Seq<Leg>, by_leg: Seq<(u128, Vec<String>)>, ss: Seq<StepState>)
    ensures
        sync_count(synced_legs(legs, by_leg, ss), by_leg, ss) == 0,
        synced_legs(synced_legs(legs, by_leg, ss), by_leg, ss) == synced_legs(legs, by_leg, ss),
    decreases legs.len(),
{
    let once = synced_legs(legs, by_leg, ss);
    if legs.len() > 0 {
        lemma_sync_twice_counts_nothing(legs.drop_last(), by_leg, ss);
        assert(once.drop_last() =~= synced_legs(legs.drop_last(), by_leg, ss));
        lemma_sync_leg_idempotent(legs.last(), by_leg, ss);
    }
    assert forall|i: int| 0 <= i < legs.len() implies #[trigger] synced_legs(once, by_leg, ss)[i] == once[i] by {
        lemma_sync_leg_idempotent(legs[i], by_leg, ss);
    }
    assert(synced_legs(once, by_leg, ss) =~= once);
}


/// The run step named `id` (its first state) failed.
pub open spec fn step_failed(ss: Seq<StepState>, id: Seq<char>) -> bool {
    exists|j: int| #[trigger] first_step(ss, id, j) && ss[j].status is Failed
}

proof fn lemma_first_step_exists(ss: Seq<StepState>, id: Seq<char>)
    ensures
        has_step(ss, id) ==> first_step(ss, id, step_pos(ss, id)),
    decreases ss.len(),
{
    if has_step(ss, id) {
        let init = ss.drop_last();
        lemma_first_step_exists(init, id);
        assert(forall|i: int| 0 <= i < init.len() ==> init[i] == ss[i]);
        if has_step(init, id) {
            let f = step_pos(init, id);
            assert(first_step(ss, id, f));
            lemma_step_pos(ss, id, f);
        } else {
            let j = choose|j: int| 0 <= j < ss.len() && ss[j].step_id@ == id;
            assert(j == ss.len() - 1) by {
                if j < ss.len() - 1 {
                    assert(ss[j] == init[j]);
                }
            }
            assert(first_step(ss, id, j));
            lemma_step_pos(ss, id, j);
        }
    }
}

proof fn lemma_first_failure_finds(ss: Seq<StepState>, ids: Seq<String>, k: int)
    requires
        0 <= k < ids.len(),
        step_failed(ss, ids[k]@),
    ensures
        first_failure(ss, ids) is Some,
        exists|k0: int, j0: int| 0 <= k0 <= k && #[trigger] first_step(ss, ids[k0]@, j0)
            && ss[j0].status == StepStatus::Failed(first_failure(ss, ids).unwrap())
            && forall|q: int| 0 <= q < k0 ==> !step_failed(ss, #[trigger] ids[q]@),
    decreases ids.len(),
{
    if step_failed(ss, ids[0]@) {
        let j0 = choose|j: int| #[trigger] first_step(ss, ids[0]@, j) && ss[j].status is Failed;
        lemma_step_pos(ss, ids[0]@, j0);
        assert(first_step(ss, ids[0]@, j0));
    } else {
        assert(k > 0);
        let rest = ids.drop_first();
        assert(rest[k - 1] == ids[k]);
        lemma_first_failure_finds(ss, rest, k - 1);
        assert(first_failure(ss, ids) == first_failure(ss, rest)) by {
            lemma_first_step_exists(ss, ids[0]@);
            if has_step(ss, ids[0]@) {
                assert(first_step(ss, ids[0]@, step_pos(ss, ids[0]@)));
            }
        }
        let (k1, j1) = choose|k1: int, j1: int| 0 <= k1 <= k - 1 && #[trigger] first_step(ss, rest[k1]@, j1)
            && ss[j1].status == StepStatus::Failed(first_failure(ss, rest).unwrap())
            && forall|q: int| 0 <= q < k1 ==> !step_failed(ss, #[trigger] rest[q]@);
        assert(rest[k1] == ids[k1 + 1]);
        assert forall|q: int| 0 <= q < k1 + 1 implies !step_failed(ss, #[trigger] ids[q]@) by {
            if q > 0 {
                assert(rest[q - 1] == ids[q]);
            }
        }
        assert(first_step(ss, ids[k1 + 1]@, j1));
    }
}


/// Any failed step fails its leg: when a leg not yet under compensation
/// lists a step (at any position of its group, not only its settle step)
/// whose run state failed, the synced leg is `Failed`, and its error is the
/// error of the first listed step (in the group's order) whose run state
/// failed; the leg is otherwise unchanged.
pub proof fn lemma_any_failed_step_fails_leg(
    leg: Leg,
    by_leg: Seq<(u128, Vec<String>)>,
    ss: Seq<StepState>,
    ids: Seq<String>,
    k: int,
)
    requires
        !compensation_begun(leg.status),
        leg_steps(by_leg, leg.id) == Some(ids),
        0 <= k < ids.len(),
        step_failed(ss, ids[k]@),
    ensures
        synced_leg(leg, by_leg, ss).status == LegStatus::Failed,
        exists|k0: int, j0: int| 0 <= k0 <= k && #[trigger] first_step(ss, ids[k0]@, j0)
            && synced_leg(leg, by_leg, ss).error is Some
            && ss[j0].status == StepStatus::Failed(synced_leg(leg, by_leg, ss).error.unwrap())
            && forall|q: int| 0 <= q < k0 ==> !step_failed(ss, #[trigger] ids[q]@),
        synced_leg(leg, by_leg, ss).id == leg.id,
        synced_leg(leg, by_leg, ss).action == leg.action,
        synced_leg(leg, by_leg, ss).result == leg.result,
{
    lemma_first_failure_finds(ss, ids, k);
    let j = choose|j: int| #[trigger] first_step(ss, ids[k]@, j) && ss[j].status is Failed;
    assert(has_step(ss, ids[k]@));
    assert(any_found(ss, ids));
}


proof fn lemma_no_failure_found(ss: Seq<StepState>, ids: Seq<String>)
    requires
        forall|q: int| 0 <= q < ids.len() ==> !step_failed(ss, #[trigger] ids[q]@),
    ensures
        first_failure(ss, ids) is None,
    decreases ids.len(),
{
    if ids.len() > 0 {
        let rest = ids.drop_first();
        assert forall|q: int| 0 <= q < rest.len() implies !step_failed(ss, #[trigger] rest[q]@) by {
            assert(rest[q] == ids[q + 1]);
        }
        lemma_no_failure_found(ss, rest);
        assert(!step_failed(ss, ids[0]@));
        lemma_first_step_exists(ss, ids[0]@);
        if has_step(ss, ids[0]@) {
            assert(first_step(ss, ids[0]@, step_pos(ss, ids[0]@)));
        }
    }
}

/// A leg settles when its last step (its settle step) completes and none
/// of its steps failed: a leg not yet under compensation then becomes
/// `Completed` and takes that step's output (a leg already completed stays
/// as it is). While no step failed and the settle step has not completed,
/// the leg is left as it was.
pub proof fn lemma_settled_leg_completes(
    leg: Leg,
    by_leg: Seq<(u128, Vec<String>)>,
    ss: Seq<StepState>,
    ids: Seq<String>,
)
    requires
        !compensation_begun(leg.status),
        leg_steps(by_leg, leg.id) == Some(ids),
        ids.len() > 0,
        forall|q: int| 0 <= q < ids.len() ==> !step_failed(ss, #[trigger] ids[q]@),
    ensures
        forall|j: int| #[trigger] first_step(ss, ids.last()@, j) && ss[j].status is Completed ==> {
            &&& synced_leg(leg, by_leg, ss).status == LegStatus::Completed
            &&& (leg.status != LegStatus::Completed ==> synced_leg(leg, by_leg, ss).result == ss[j].output)
        },
        (forall|j: int| #[trigger] first_step(ss, ids.last()@, j) ==> !(ss[j].status is Completed))
            ==> synced_leg(leg, by_leg, ss) == leg,
{
    lemma_no_failure_found(ss, ids);
    lemma_first_step_exists(ss, ids.last()@);
    assert forall|j: int| #[trigger] first_step(ss, ids.last()@, j) && ss[j].status is Completed implies {
        &&& synced_leg(leg, by_leg, ss).status == LegStatus::Completed
        &&& (leg.status != LegStatus::Completed ==> synced_leg(leg, by_leg, ss).result == ss[j].output)
    } by {
        lemma_step_pos(ss, ids.last()@, j);
        assert(has_step(ss, ids[ids.len() - 1]@));
        assert(any_found(ss, ids));
    }
    if has_step(ss, ids.last()@) {
        assert(first_step(ss, ids.last()@, step_pos(ss, ids.last()@)));
    }
}

} // verus!
