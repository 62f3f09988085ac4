//! Execution plans for cross-chain settlement: intents, legs and their
//! lifecycle queries.

use vstd::prelude::*;
use crate::transaction::{Address, AgentId, Chain};

verus! {

/// The kind of on-chain action to execute.
#[derive(Debug)]
pub enum ActionType {
    Swap,
    Transfer,
    Bridge,
    Stake,
    Unstake,
    Lend,
    Borrow,
    DeployContract,
    CallContract,
    Custom(String),
}

impl Clone for ActionType {
    fn clone(&self) -> (res: Self)
        ensures
            res == *self,
    {
        match self {
            ActionType::Swap => ActionType::Swap,
            ActionType::Transfer => ActionType::Transfer,
            ActionType::Bridge => ActionType::Bridge,
            ActionType::Stake => ActionType::Stake,
            ActionType::Unstake => ActionType::Unstake,
            ActionType::Lend => ActionType::Lend,
            ActionType::Borrow => ActionType::Borrow,
            ActionType::DeployContract => ActionType::DeployContract,
            ActionType::CallContract => ActionType::CallContract,
            ActionType::Custom(s) => ActionType::Custom(s.clone()),
        }
    }
}

/// Two action types are equal when they are the same variant and, for
/// `Custom`, carry the same text.
pub open spec fn action_type_eq(a: ActionType, b: ActionType) -> bool {
    match (a, b) {
        (ActionType::Custom(x), ActionType::Custom(y)) => x@ == y@,
        (ActionType::Swap, ActionType::Swap) => true,
        (ActionType::Transfer, ActionType::Transfer) => true,
        (ActionType::Bridge, ActionType::Bridge) => true,
        (ActionType::Stake, ActionType::Stake) => true,
        (ActionType::Unstake, ActionType::Unstake) => true,
        (ActionType::Lend, ActionType::Lend) => true,
        (ActionType::Borrow, ActionType::Borrow) => true,
        (ActionType::DeployContract, ActionType::DeployContract) => true,
        (ActionType::CallContract, ActionType::CallContract) => true,
        _ => false,
    }
}

impl PartialEq for ActionType {
    fn eq(&self, other: &Self) -> (r: bool) {
        match (self, other) {
            (ActionType::Custom(x), ActionType::Custom(y)) => *x == *y,
            (ActionType::Swap, ActionType::Swap) => true,
            (ActionType::Transfer, ActionType::Transfer) => true,
            (ActionType::Bridge, ActionType::Bridge) => true,
            (ActionType::Stake, ActionType::Stake) => true,
            (ActionType::Unstake, ActionType::Unstake) => true,
            (ActionType::Lend, ActionType::Lend) => true,
            (ActionType::Borrow, ActionType::Borrow) => true,
            (ActionType::DeployContract, ActionType::DeployContract) => true,
            (ActionType::CallContract, ActionType::CallContract) => true,
            _ => false,
        }
    }
}

impl vstd::std_specs::cmp::PartialEqSpecImpl for ActionType {
    open spec fn obeys_eq_spec() -> bool {
        true
    }

    open spec fn eq_spec(&self, other: &Self) -> bool {
        action_type_eq(*self, *other)
    }
}

impl Eq for ActionType {}

/// A single on-chain action with all parameters needed for execution.
/// `metadata` holds the action's free-form metadata as JSON text.
#[derive(Debug)]
pub struct Action {
    pub action_type: ActionType,
    pub chain: Chain,
    pub protocol: String,
    pub token: Option<String>,
    pub amount: Option<u64>,
    pub destination: Option<Address>,
    pub metadata: String,
}

impl Clone for Action {
    fn clone(&self) -> (res: Self)
        ensures
            res == *self,
    {
        Action {
            action_type: self.action_type.clone(),
            chain: self.chain,
            protocol: self.protocol.clone(),
            token: self.token.clone(),
            amount: self.amount,
            destination: self.destination.clone(),
            metadata: self.metadata.clone(),
        }
    }
}

/// The kind of constraint that applies to plan execution.
#[derive(Debug)]
pub enum ConstraintType {
    MaxSlippageBps(u16),
    MaxGasCost(u64),
    Deadline(u64),
    MinAmount(u64),
    MaxAmount(u64),
    RequiredConfirmations(u8),
    WhitelistedProtocols(Vec<String>),
    BlacklistedProtocols(Vec<String>),
}

/// Two constraint kinds carry the same values.
pub open spec fn constraint_type_same(a: ConstraintType, b: ConstraintType) -> bool {
    match (a, b) {
        (ConstraintType::WhitelistedProtocols(x), ConstraintType::WhitelistedProtocols(y)) => x@ == y@,
        (ConstraintType::BlacklistedProtocols(x), ConstraintType::BlacklistedProtocols(y)) => x@ == y@,
        (ConstraintType::WhitelistedProtocols(_), _) => false,
        (ConstraintType::BlacklistedProtocols(_), _) => false,
        (_, ConstraintType::WhitelistedProtocols(_)) => false,
        (_, ConstraintType::BlacklistedProtocols(_)) => false,
        _ => a == b,
    }
}

impl Clone for ConstraintType {
    fn clone(&self) -> (res: Self)
        ensures
            constraint_type_same(res, *self),
    {
        match self {
            ConstraintType::MaxSlippageBps(v) => ConstraintType::MaxSlippageBps(*v),
            ConstraintType::MaxGasCost(v) => ConstraintType::MaxGasCost(*v),
            ConstraintType::Deadline(v) => ConstraintType::Deadline(*v),
            ConstraintType::MinAmount(v) => ConstraintType::MinAmount(*v),
            ConstraintType::MaxAmount(v) => ConstraintType::MaxAmount(*v),
            ConstraintType::RequiredConfirmations(v) => ConstraintType::RequiredConfirmations(*v),
            ConstraintType::WhitelistedProtocols(v) => ConstraintType::WhitelistedProtocols(crate::text::clone_strings(v)),
            ConstraintType::BlacklistedProtocols(v) => ConstraintType::BlacklistedProtocols(crate::text::clone_strings(v)),
        }
    }
}

/// A constraint that limits or bounds how an action may execute.
#[derive(Debug)]
pub struct Constraint {
    pub constraint_type: ConstraintType,
    /// When true the constraint is a hard requirement and must not be violated.
    pub hard: bool,
    pub description: String,
}

/// Two constraints carry the same values.
pub open spec fn constraint_same(a: Constraint, b: Constraint) -> bool {
    constraint_type_same(a.constraint_type, b.constraint_type) && a.hard == b.hard && a.description == b.description
}

impl Clone for Constraint {
    fn clone(&self) -> (res: Self)
        ensures
            constraint_same(res, *self),
    {
        Constraint {
            constraint_type: self.constraint_type.clone(),
            hard: self.hard,
            description: self.description.clone(),
        }
    }
}

/// High-level intent from an agent describing a desired outcome.
#[derive(Debug)]
pub struct Intent {
    pub description: String,
    pub agent_id: AgentId,
    pub source_chain: Chain,
    pub actions: Vec<Action>,
    pub constraints: Vec<Constraint>,
}

/// Two intents carry the same values.
pub open spec fn intent_same(a: Intent, b: Intent) -> bool {
    &&& a.description == b.description
    &&& a.agent_id == b.agent_id
    &&& a.source_chain == b.source_chain
    &&& a.actions@ == b.actions@
    &&& a.constraints@.len() == b.constraints@.len()
    &&& forall|i: int| 0 <= i < a.constraints@.len() ==> constraint_same(#[trigger] a.constraints@[i], b.constraints@[i])
}

fn clone_actions(v: &Vec<Action>) -> (res: Vec<Action>)
    ensures
        res@ == v@,
{
    let mut res: Vec<Action> = Vec::new();
    let mut i: usize = 0;
    while i < v.len()
        invariant
            i <= v.len(),
            res@ == v@.subrange(0, i as int),
        decreases v.len() - i,
    {
        res.push(v[i].clone());
        i = i + 1;
        assert(res@ =~= v@.subrange(0, i as int));
    }
    assert(res@ =~= v@);
    res
}

fn clone_constraints(v: &Vec<Constraint>) -> (res: Vec<Constraint>)
    ensures
        res@.len() == v@.len(),
        forall|i: int| 0 <= i < v@.len() ==> constraint_same(#[trigger] res@[i], v@[i]),
{
    let mut res: Vec<Constraint> = Vec::new();
    let mut i: usize = 0;
    while i < v.len()
        invariant
            i <= v.len(),
            res@.len() == i,
            forall|j: int| 0 <= j < i ==> constraint_same(#[trigger] res@[j], v@[j]),
        decreases v.len() - i,
    {
        res.push(v[i].clone());
        i = i + 1;
    }
    res
}

impl Clone for Intent {
    fn clone(&self) -> (res: Self)
        ensures
            intent_same(res, *self),
    {
        let actions = clone_actions(&self.actions);
        let constraints = clone_constraints(&self.constraints);
        Intent {
            description: self.description.clone(),
            agent_id: self.agent_id.clone(),
            source_chain: self.source_chain,
            actions,
            constraints,
        }
    }
}

/// Status of an individual execution leg.
#[derive(Debug, Clone, Copy, PartialEq, Eq, Structural)]
pub enum LegStatus {
    /// Waiting for upstream legs to complete.
    Pending,
    /// Running pre-flight validation.
    Validating,
    /// Running dry-run simulation.
    Simulating,
    /// All prerequisites satisfied, ready to submit.
    Ready,
    /// Transaction submitted and awaiting confirmation.
    Executing,
    /// Transaction confirmed successfully.
    Completed,
    /// Transaction failed irrecoverably.
    Failed,
    /// Running the compensating action to undo this leg.
    Compensating,
    /// Compensating action completed.
    Compensated,
    /// Leg was skipped (for example an optional branch not taken).
    Skipped,
}

/// Status of the entire execution plan.
#[derive(Debug, Clone, Copy, PartialEq, Eq, Structural)]
pub enum PlanStatus {
    Draft,
    Validated,
    Executing,
    Completed,
    Failed,
    PartiallyCompleted,
    Compensating,
    Cancelled,
}

/// An action that reverses or undoes a completed leg on failure.
/// `parameters` holds JSON text.
#[derive(Debug)]
pub struct CompensatingAction {
    pub description: String,
    pub chain: Chain,
    pub action_type: ActionType,
    pub parameters: String,
}

impl Clone for CompensatingAction {
    fn clone(&self) -> (res: Self)
        ensures
            res == *self,
    {
        CompensatingAction {
            description: self.description.clone(),
            chain: self.chain,
            action_type: self.action_type.clone(),
            parameters: self.parameters.clone(),
        }
    }
}

/// A single leg in an execution plan representing one discrete step.
/// Identifiers are UUIDs held as their 128-bit value; `result` holds JSON text.
#[derive(Debug)]
pub struct Leg {
    pub id: u128,
    pub action: Action,
    /// IDs of legs that must complete before this one can start.
    pub depends_on: Vec<u128>,
    pub status: LegStatus,
    /// Optional compensating action to undo this leg on failure.
    pub compensating_action: Option<CompensatingAction>,
    pub result: Option<String>,
    pub error: Option<String>,
}

/// Two legs carry the same values.
pub open spec fn leg_same(a: Leg, b: Leg) -> bool {
    &&& a.id == b.id
    &&& a.action == b.action
    &&& a.depends_on@ == b.depends_on@
    &&& a.status == b.status
    &&& a.compensating_action == b.compensating_action
    &&& a.result == b.result
    &&& a.error == b.error
}

fn clone_ids(v: &Vec<u128>) -> (res: Vec<u128>)
    ensures
        res@ == v@,
{
    let mut res: Vec<u128> = Vec::new();
    let mut i: usize = 0;
    while i < v.len()
        invariant
            i <= v.len(),
            res@ == v@.subrange(0, i as int),
        decreases v.len() - i,
    {
        res.push(v[i]);
        i = i + 1;
        assert(res@ =~= v@.subrange(0, i as int));
    }
    assert(res@ =~= v@);
    res
}

impl Clone for Leg {
    fn clone(&self) -> (res: Self)
        ensures
            leg_same(res, *self),
    {
        let depends_on = clone_ids(&self.depends_on);
        Leg {
            id: self.id,
            action: self.action.clone(),
            depends_on,
            status: self.status,
            compensating_action: self.compensating_action.clone(),
            result: self.result.clone(),
            error: self.error.clone(),
        }
    }
}

/// A complete execution plan with ordered legs and lifecycle tracking.
#[derive(Debug)]
pub struct ExecutionPlan {
    pub id: u128,
    pub intent: Intent,
    pub legs: Vec<Leg>,
    pub status: PlanStatus,
    /// Unix timestamp in seconds when the plan was created.
    pub created_at: u64,
}

/// Two lists of legs carry the same values.
pub open spec fn legs_same(a: Seq<Leg>, b: Seq<Leg>) -> bool {
    a.len() == b.len() && forall|i: int| 0 <= i < a.len() ==> leg_same(#[trigger] a[i], b[i])
}

/// Two plans carry the same values.
pub open spec fn plan_same(a: ExecutionPlan, b: ExecutionPlan) -> bool {
    &&& a.id == b.id
    &&& intent_same(a.intent, b.intent)
    &&& legs_same(a.legs@, b.legs@)
    &&& a.status == b.status
    &&& a.created_at == b.created_at
}

fn clone_legs(v: &Vec<Leg>) -> (res: Vec<Leg>)
    ensures
        legs_same(res@, v@),
{
    let mut res: Vec<Leg> = Vec::new();
    let mut i: usize = 0;
    while i < v.len()
        invariant
            i <= v.len(),
            res@.len() == i,
            forall|j: int| 0 <= j < i ==> leg_same(#[trigger] res@[j], v@[j]),
        decreases v.len() - i,
    {
        res.push(v[i].clone());
        i = i + 1;
    }
    res
}

impl Clone for ExecutionPlan {
    fn clone(&self) -> (res: Self)
        ensures
            plan_same(res, *self),
    {
        let legs = clone_legs(&self.legs);
        ExecutionPlan {
            id: self.id,
            intent: self.intent.clone(),
            legs,
            status: self.status,
            created_at: self.created_at,
        }
    }
}

/// Some leg with identifier `id` has completed.
pub open spec fn completed_with_id(legs: Seq<Leg>, id: u128) -> bool {
    exists|j: int| 0 <= j < legs.len() && legs[j].id == id && legs[j].status == LegStatus::Completed
}

/// Every dependency of `leg` names a completed leg of `legs`.
pub open spec fn dependencies_met(legs: Seq<Leg>, leg: Leg) -> bool {
    forall|k: int| 0 <= k < leg.depends_on@.len() ==> completed_with_id(legs, #[trigger] leg.depends_on@[k])
}

/// A leg is ready when it is `Ready`, or `Pending` with every dependency completed.
pub open spec fn leg_is_ready(legs: Seq<Leg>, leg: Leg) -> bool {
    leg.status == LegStatus::Ready || (leg.status == LegStatus::Pending && dependencies_met(legs, leg))
}

/// Every leg is `Completed` or `Skipped`, and there is at least one.
pub open spec fn plan_complete(legs: Seq<Leg>) -> bool {
    legs.len() > 0 && forall|i: int|
        0 <= i < legs.len() ==> (#[trigger] legs[i]).status == LegStatus::Completed
            || legs[i].status == LegStatus::Skipped
}

/// Some leg has `Failed`.
pub open spec fn plan_failed(legs: Seq<Leg>) -> bool {
    exists|i: int| 0 <= i < legs.len() && (#[trigger] legs[i]).status == LegStatus::Failed
}

/// A completed leg that carries a compensating action.
pub open spec fn compensable(leg: Leg) -> bool {
    leg.status == LegStatus::Completed && leg.compensating_action.is_some()
}

/// The legs that must be reversed: the compensable ones, once some leg failed.
pub open spec fn needing_compensation(legs: Seq<Leg>) -> Seq<Leg> {
    if plan_failed(legs) {
        legs.filter(|l: Leg| compensable(l))
    } else {
        Seq::empty()
    }
}

pub open spec fn deref_legs(s: Seq<&Leg>) -> Seq<Leg> {
    s.map_values(|r: &Leg| *r)
}

impl ExecutionPlan {
    /// Creates a new draft plan from the given intent with no legs and a
    /// fresh random identifier.
    pub fn new(intent: Intent) -> (plan: Self)
        ensures
            plan.intent == intent,
            plan.legs@.len() == 0,
            plan.status == PlanStatus::Draft,
            plan.created_at == 0,
    {
        ExecutionPlan { id: crate::ids::new_uuid(), intent, legs: Vec::new(), status: PlanStatus::Draft, created_at: 0 }
    }

    /// Whether every dependency of `leg` names a completed leg of this plan.
    fn deps_met(&self, leg: &Leg) -> (r: bool)
        ensures
            r == dependencies_met(self.legs@, *leg),
    {
        let mut k: usize = 0;
        while k < leg.depends_on.len()
            invariant
                k <= leg.depends_on@.len(),
                forall|q: int| 0 <= q < k ==> completed_with_id(self.legs@, #[trigger] leg.depends_on@[q]),
            decreases leg.depends_on.len() - k,
        {
            let dep = leg.depends_on[k];
            let mut found = false;
            let mut j: usize = 0;
            while j < self.legs.len()
                invariant
                    j <= self.legs@.len(),
                    found ==> completed_with_id(self.legs@, dep),
                    !found ==> forall|q: int| 0 <= q < j ==> !(self.legs@[q].id == dep && self.legs@[q].status == LegStatus::Completed),
                decreases self.legs.len() - j,
            {
                if self.legs[j].id == dep && self.legs[j].status == LegStatus::Completed {
                    found = true;
                }
                j = j + 1;
            }
            if !found {
                assert(!completed_with_id(self.legs@, leg.depends_on@[k as int]));
                return false;
            }
            k = k + 1;
        }
        true
    }

    /// Returns legs that are either Ready or whose dependencies are all Completed.
    pub fn ready_legs(&self) -> (res: Vec<&Leg>)
        ensures
            deref_legs(res@) == ready_of(self.legs@),
    {
        let ghost pred = |l: Leg| leg_is_ready(self.legs@, l);
        let mut res: Vec<&Leg> = Vec::new();
        let mut i: usize = 0;
        while i < self.legs.len()
            invariant
                i <= self.legs@.len(),
                pred == (|l: Leg| leg_is_ready(self.legs@, l)),
                deref_legs(res@) == self.legs@.take(i as int).filter(pred),
            decreases self.legs.len() - i,
        {
            reveal(Seq::filter);
            let leg = &self.legs[i];
            let ready = leg.status == LegStatus::Ready || (leg.status == LegStatus::Pending && self.deps_met(leg));
            assert(self.legs@.take(i + 1).drop_last() =~= self.legs@.take(i as int));
            if ready {
                res.push(leg);
                assert(deref_legs(res@) =~= deref_legs(res@).drop_last().push(*leg));
                assert(deref_legs(res@).drop_last() =~= self.legs@.take(i as int).filter(pred));
            } else {
            }
            i = i + 1;
        }
        assert(self.legs@.take(self.legs@.len() as int) =~= self.legs@);
        res
    }

    /// True when every leg is either Completed or Skipped (and there is one).
    pub fn is_complete(&self) -> (r: bool)
        ensures
            r == plan_complete(self.legs@),
    {
        if self.legs.len() == 0 {
            return false;
        }
        let mut i: usize = 0;
        while i < self.legs.len()
            invariant
                i <= self.legs@.len(),
                forall|q: int| 0 <= q < i ==> (#[trigger] self.legs@[q]).status == LegStatus::Completed
                    || self.legs@[q].status == LegStatus::Skipped,
            decreases self.legs.len() - i,
        {
            let st = self.legs[i].status;
            if !(st == LegStatus::Completed || st == LegStatus::Skipped) {
                return false;
            }
            i = i + 1;
        }
        true
    }

    /// True when any leg has entered the Failed state.
    pub fn has_failed(&self) -> (r: bool)
        ensures
            r == plan_failed(self.legs@),
    {
        let mut i: usize = 0;
        while i < self.legs.len()
            invariant
                i <= self.legs@.len(),
                forall|q: int| 0 <= q < i ==> (#[trigger] self.legs@[q]).status != LegStatus::Failed,
            decreases self.legs.len() - i,
        {
            if self.legs[i].status == LegStatus::Failed {
                return true;
            }
            i = i + 1;
        }
        false
    }

    /// Returns legs that completed successfully but carry a compensating action
    /// and therefore need to be reversed after a downstream failure.
    pub fn legs_needing_compensation(&self) -> (res: Vec<&Leg>)
        ensures
            deref_legs(res@) == needing_compensation(self.legs@),
    {
        if !self.has_failed() {
            let res: Vec<&Leg> = Vec::new();
            assert(deref_legs(res@) =~= Seq::<Leg>::empty());
            return res;
        }
        let ghost pred = |l: Leg| compensable(l);
        let mut res: Vec<&Leg> = Vec::new();
        let mut i: usize = 0;
        while i < self.legs.len()
            invariant
                i <= self.legs@.len(),
                pred == (|l: Leg| compensable(l)),
                deref_legs(res@) == self.legs@.take(i as int).filter(pred),
            decreases self.legs.len() - i,
        {
            reveal(Seq::filter);
            let leg = &self.legs[i];
            assert(self.legs@.take(i + 1).drop_last() =~= self.legs@.take(i as int));
            if leg.status == LegStatus::Completed && leg.compensating_action.is_some() {
                res.push(leg);
                assert(deref_legs(res@) =~= deref_legs(res@).drop_last().push(*leg));
            }
            i = i + 1;
        }
        assert(self.legs@.take(self.legs@.len() as int) =~= self.legs@);
        res
    }
}


/// The legs of `legs` that can run now, in order.
pub open spec fn ready_of(legs: Seq<Leg>) -> Seq<Leg> {
    legs.filter(|l: Leg| leg_is_ready(legs, l))
}

/// Which legs can run now: every `Ready` leg is among them, whatever its
/// dependencies; so is every `Pending` leg whose dependencies all name
/// completed legs; no leg in any other status is.
pub proof fn lemma_ready_legs_membership(legs: Seq<Leg>, i: int)
    requires
        0 <= i < legs.len(),
    ensures
        legs[i].status == LegStatus::Ready ==> ready_of(legs).contains(legs[i]),
        (legs[i].status == LegStatus::Pending && forall|k: int| 0 <= k < legs[i].depends_on@.len() ==>
            exists|j: int| 0 <= j < legs.len() && legs[j].id == #[trigger] legs[i].depends_on@[k] && legs[j].status == LegStatus::Completed)
            ==> ready_of(legs).contains(legs[i]),
        forall|l: Leg| #[trigger] ready_of(legs).contains(l) ==> l.status == LegStatus::Ready || l.status == LegStatus::Pending,
{
    broadcast use vstd::seq_lib::group_filter_ensures;
    let pred = |l: Leg| leg_is_ready(legs, l);
    assert(ready_of(legs) == legs.filter(pred));
    if pred(legs[i]) {
        assert(legs.filter(pred).contains(legs[i]));
    }
}

} // verus!
