//! Decomposes high-level intents into executable plans with dependency
//! ordering and compensating actions.

use vstd::prelude::*;
use crate::plan::{intent_same, Action, ActionType, CompensatingAction, ExecutionPlan, Intent, Leg, LegStatus, PlanStatus};

verus! {

/// Turns an Intent into an ExecutionPlan with sequential legs and
/// auto-generated compensating actions.
#[derive(Debug)]
pub struct IntentDecomposer;

/// The reversing action type and description for an action type, when the
/// action can be reversed.
pub open spec fn reversal(at: ActionType) -> Option<(ActionType, Seq<char>)> {
    match at {
        ActionType::Swap => Some((ActionType::Swap, "Reverse swap to original token"@)),
        ActionType::Transfer => Some((ActionType::Transfer, "Return transferred funds"@)),
        ActionType::Bridge => Some((ActionType::Bridge, "Bridge assets back to source chain"@)),
        ActionType::Stake => Some((ActionType::Unstake, "Unstake to reverse position"@)),
        ActionType::Lend => Some((ActionType::Lend, "Withdraw lent assets"@)),
        ActionType::Borrow => Some((ActionType::Borrow, "Repay borrowed assets"@)),
        _ => None,
    }
}

/// `c` is the compensating action generated for `a`: none for irreversible
/// kinds, otherwise the reversal on the same chain with empty parameters.
pub open spec fn compensation_for(a: Action, c: Option<CompensatingAction>) -> bool {
    match reversal(a.action_type) {
        None => c.is_none(),
        Some((at, desc)) => c.is_some() && c.unwrap().action_type == at && c.unwrap().description@ == desc
            && c.unwrap().chain == a.chain && c.unwrap().parameters@ == "{}"@,
    }
}

/// Leg `i` is action `i`, depends on leg `i - 1` (none for the first), is
/// `Ready` when first and `Pending` otherwise, and carries the generated
/// compensation.
pub open spec fn leg_from_action(legs: Seq<Leg>, actions: Seq<Action>, i: int) -> bool {
    &&& legs[i].action == actions[i]
    &&& legs[i].depends_on@ == (if i == 0 { Seq::<u128>::empty() } else { seq![legs[i - 1].id] })
    &&& legs[i].status == (if i == 0 { LegStatus::Ready } else { LegStatus::Pending })
    &&& compensation_for(actions[i], legs[i].compensating_action)
    &&& legs[i].result.is_none()
    &&& legs[i].error.is_none()
}

/// The legs are the actions, chained in order.
pub open spec fn sequential_legs(legs: Seq<Leg>, actions: Seq<Action>) -> bool {
    &&& legs.len() == actions.len()
    &&& forall|i: int| 0 <= i < legs.len() ==> #[trigger] leg_from_action(legs, actions, i)
}

proof fn lemma_sequential_push(legs: Seq<Leg>, actions: Seq<Action>, leg: Leg, action: Action)
    requires
        sequential_legs(legs, actions),
        leg.action == action,
        leg.depends_on@ == (if legs.len() == 0 { Seq::<u128>::empty() } else { seq![legs.last().id] }),
        leg.status == (if legs.len() == 0 { LegStatus::Ready } else { LegStatus::Pending }),
        compensation_for(action, leg.compensating_action),
        leg.result.is_none(),
        leg.error.is_none(),
    ensures
        sequential_legs(legs.push(leg), actions.push(action)),
{
    let l2 = legs.push(leg);
    let a2 = actions.push(action);
    assert forall|q: int| 0 <= q < l2.len() implies #[trigger] leg_from_action(l2, a2, q) by {
        if q < legs.len() {
            assert(leg_from_action(legs, actions, q));
            if q > 0 {
                assert(l2[q - 1] == legs[q - 1]);
            }
        }
    }
}

impl IntentDecomposer {
    pub fn new() -> (d: Self) {
        IntentDecomposer
    }

    /// Decomposes an intent into an execution plan where each action becomes
    /// a leg and legs are chained sequentially. The first leg starts Ready;
    /// subsequent legs start Pending and depend on the preceding leg.
    pub fn decompose(&self, intent: Intent) -> (plan: ExecutionPlan)
        ensures
            intent_same(plan.intent, intent),
            sequential_legs(plan.legs@, intent.actions@),
            plan.status == PlanStatus::Draft,
            plan.created_at == 0,
    {
        let mut plan = ExecutionPlan::new(intent.clone());
        let mut previous: Option<u128> = None;
        let mut i: usize = 0;
        while i < intent.actions.len()
            invariant
                i <= intent.actions@.len(),
                intent_same(plan.intent, intent),
                plan.status == PlanStatus::Draft,
                plan.created_at == 0,
                sequential_legs(plan.legs@, intent.actions@.take(i as int)),
                previous == (if i == 0 { None::<u128> } else { Some(plan.legs@.last().id) }),
            decreases intent.actions.len() - i,
        {
            let action = &intent.actions[i];
            let leg_id = crate::ids::new_uuid();
            let mut depends_on: Vec<u128> = Vec::new();
            if let Some(prev) = previous {
                depends_on.push(prev);
            }
            proof {
                if i == 0 {
                    assert(depends_on@ =~= Seq::<u128>::empty());
                } else {
                    assert(depends_on@ =~= seq![plan.legs@.last().id]);
                }
            }
            let compensating = self.build_compensating_action(action);
            let status = if depends_on.len() == 0 { LegStatus::Ready } else { LegStatus::Pending };
            let leg = Leg {
                id: leg_id,
                action: action.clone(),
                depends_on,
                status,
                compensating_action: compensating,
                result: None,
                error: None,
            };
            proof {
                lemma_sequential_push(plan.legs@, intent.actions@.take(i as int), leg, intent.actions@[i as int]);
                assert(intent.actions@.take(i as int).push(intent.actions@[i as int]) =~= intent.actions@.take(i + 1));
            }
            plan.legs.push(leg);
            previous = Some(leg_id);
            i = i + 1;
        }
        assert(intent.actions@.take(intent.actions@.len() as int) =~= intent.actions@);
        plan
    }

    /// Builds the compensating action for a given action type, when the
    /// action can be reversed.
    fn build_compensating_action(&self, action: &Action) -> (c: Option<CompensatingAction>)
        ensures
            compensation_for(*action, c),
    {
        let (description, reverse_type) = match &action.action_type {
            ActionType::Swap => ("Reverse swap to original token".to_owned(), ActionType::Swap),
            ActionType::Transfer => ("Return transferred funds".to_owned(), ActionType::Transfer),
            ActionType::Bridge => ("Bridge assets back to source chain".to_owned(), ActionType::Bridge),
            ActionType::Stake => ("Unstake to reverse position".to_owned(), ActionType::Unstake),
            ActionType::Lend => ("Withdraw lent assets".to_owned(), ActionType::Lend),
            ActionType::Borrow => ("Repay borrowed assets".to_owned(), ActionType::Borrow),
            ActionType::Unstake => return None,
            ActionType::DeployContract => return None,
            ActionType::CallContract => return None,
            ActionType::Custom(_) => return None,
        };
        Some(CompensatingAction { description, chain: action.chain, action_type: reverse_type, parameters: "{}".to_owned() })
    }
}


/// The compensations a decomposition attaches reverse their actions: a
/// stake is undone by an unstake (never by staking again); a swap,
/// transfer, bridge, loan or borrow is undone by the same kind of action;
/// an unstake, a contract deployment or call, or a custom action gets no
/// compensation. Each compensation runs on its action's chain.
pub proof fn lemma_compensations_reverse(legs: Seq<Leg>, actions: Seq<Action>, i: int)
    requires
        sequential_legs(legs, actions),
        0 <= i < legs.len(),
    ensures
        actions[i].action_type == ActionType::Stake ==> (legs[i].compensating_action matches Some(c)
            && c.action_type == ActionType::Unstake),
        legs[i].compensating_action matches Some(c) ==> c.action_type != ActionType::Stake && c.chain == actions[i].chain,
        (actions[i].action_type == ActionType::Swap || actions[i].action_type == ActionType::Transfer
            || actions[i].action_type == ActionType::Bridge || actions[i].action_type == ActionType::Lend
            || actions[i].action_type == ActionType::Borrow) ==> (legs[i].compensating_action matches Some(c)
            && c.action_type == actions[i].action_type),
        (actions[i].action_type == ActionType::Unstake || actions[i].action_type == ActionType::DeployContract
            || actions[i].action_type == ActionType::CallContract || actions[i].action_type is Custom)
            ==> legs[i].compensating_action is None,
{
    assert(leg_from_action(legs, actions, i));
}

} // verus!
