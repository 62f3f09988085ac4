//! Manages compensating actions to keep cross-chain plans atomic when they
//! fail partway.

use vstd::prelude::*;
use crate::plan::{compensable, needing_compensation, plan_failed, ExecutionPlan, Leg, LegStatus, PlanStatus};

verus! {

/// Tracks and orchestrates compensating actions when an execution plan
/// encounters a failure after some legs have already completed.
#[derive(Debug)]
pub struct AtomicityManager {
    /// Legs whose compensating action finished successfully.
    pub compensated: Vec<u128>,
    /// Legs whose compensating action is currently in flight.
    pub in_progress: Vec<u128>,
    /// Legs whose compensating action itself failed (needs manual intervention).
    pub failed: Vec<u128>,
}

/// Summary of compensation progress for reporting and observability.
#[derive(Debug, Clone, Copy, PartialEq, Eq, Structural)]
pub struct CompensationStatus {
    pub total_compensated: usize,
    pub total_in_progress: usize,
    pub total_failed: usize,
}

/// `j` is the first leg carrying identifier `id`.
pub open spec fn first_with_id(legs: Seq<Leg>, id: u128, j: int) -> bool {
    0 <= j < legs.len() && legs[j].id == id && forall|k: int| 0 <= k < j ==> legs[k].id != id
}

/// `leg` with its status replaced.
pub open spec fn with_status(leg: Leg, s: LegStatus) -> Leg {
    Leg { status: s, ..leg }
}

/// `legs` where the first leg carrying `id` (if any) has status `s`.
pub open spec fn set_first_status(legs: Seq<Leg>, id: u128, s: LegStatus) -> Seq<Leg> {
    Seq::new(legs.len(), |j: int| if first_with_id(legs, id, j) { with_status(legs[j], s) } else { legs[j] })
}

/// The identifiers of the compensable legs (completed, with a compensating
/// action), the last leg first.
pub open spec fn compensation_order(legs: Seq<Leg>) -> Seq<u128>
    decreases legs.len(),
{
    if legs.len() == 0 {
        Seq::empty()
    } else {
        let rest = compensation_order(legs.drop_last());
        if compensable(legs.last()) {
            seq![legs.last().id] + rest
        } else {
            rest
        }
    }
}

/// `legs` where the first leg carrying each of `ids` has status `s`.
pub open spec fn set_first_status_all(legs: Seq<Leg>, ids: Seq<u128>, s: LegStatus) -> Seq<Leg>
    decreases ids.len(),
{
    if ids.len() == 0 {
        legs
    } else {
        set_first_status(set_first_status_all(legs, ids.drop_last(), s), ids.last(), s)
    }
}

/// Sets the status of the first leg carrying `id`.
fn set_first_leg_status(legs: &mut Vec<Leg>, id: u128, s: LegStatus)
    ensures
        final(legs)@ == set_first_status(old(legs)@, id, s),
{
    let mut j: usize = 0;
    while j < legs.len()
        invariant
            legs@ == old(legs)@,
            j <= legs@.len(),
            forall|k: int| 0 <= k < j ==> legs@[k].id != id,
        decreases legs.len() - j,
    {
        if legs[j].id == id {
            legs[j].status = s;
            assert(legs@ =~= set_first_status(old(legs)@, id, s)) by {
                assert forall|q: int| 0 <= q < legs@.len() implies legs@[q] == set_first_status(old(legs)@, id, s)[q] by {
                    if q < j {
                        assert(!first_with_id(old(legs)@, id, q));
                    } else if q > j {
                        assert(old(legs)@[j as int].id == id);
                        assert(!first_with_id(old(legs)@, id, q));
                    }
                }
            }
            return;
        }
        j = j + 1;
    }
    assert(legs@ =~= set_first_status(old(legs)@, id, s));
}

/// The elements of `s` other than `x`, in order.
pub open spec fn without_id(s: Seq<u128>, x: u128) -> Seq<u128> {
    s.filter(other_than(x))
}

/// The test that keeps every identifier but `x`.
pub open spec fn other_than(x: u128) -> spec_fn(u128) -> bool {
    |e: u128| e != x
}

/// The elements of `v` other than `x`, in order (`retain(|e| *e != x)`).
fn without(v: &Vec<u128>, x: u128) -> (res: Vec<u128>)
    ensures
        res@ == without_id(v@, x),
{
    let ghost pred = other_than(x);
    let mut res: Vec<u128> = Vec::new();
    let mut i: usize = 0;
    while i < v.len()
        invariant
            i <= v@.len(),
            pred == other_than(x),
            res@ == v@.take(i as int).filter(pred),
        decreases v.len() - i,
    {
        reveal(Seq::filter);
        assert(v@.take(i + 1).drop_last() =~= v@.take(i as int));
        if v[i] != x {
            res.push(v[i]);
        }
        i = i + 1;
    }
    assert(v@.take(v@.len() as int) =~= v@);
    res
}

impl AtomicityManager {
    pub fn new() -> (m: Self)
        ensures
            m.compensated@.len() == 0,
            m.in_progress@.len() == 0,
            m.failed@.len() == 0,
    {
        AtomicityManager { compensated: Vec::new(), in_progress: Vec::new(), failed: Vec::new() }
    }

    /// Checks whether the plan needs compensation: it has at least one Failed
    /// leg and at least one Completed leg that carries a compensating action.
    pub fn should_compensate(&self, plan: &ExecutionPlan) -> (r: bool)
        ensures
            r == (plan_failed(plan.legs@) && needing_compensation(plan.legs@).len() > 0),
    {
        plan.has_failed() && plan.legs_needing_compensation().len() > 0
    }

    /// Begins the compensation process: the plan becomes `Compensating`, and
    /// the completed legs with a compensating action are returned last first;
    /// the first leg carrying each returned id becomes `Compensating` and the
    /// id is recorded as in progress.
    pub fn begin_compensation(&mut self, plan: &mut ExecutionPlan) -> (to_compensate: Vec<u128>)
        ensures
            to_compensate@ == compensation_order(old(plan).legs@),
            final(plan).legs@ == set_first_status_all(old(plan).legs@, to_compensate@, LegStatus::Compensating),
            final(plan).status == PlanStatus::Compensating,
            final(plan).id == old(plan).id,
            final(plan).intent == old(plan).intent,
            final(plan).created_at == old(plan).created_at,
            final(self).in_progress@ == old(self).in_progress@ + to_compensate@,
            final(self).compensated@ == old(self).compensated@,
            final(self).failed@ == old(self).failed@,
    {
        plan.status = PlanStatus::Compensating;
        let mut to_compensate: Vec<u128> = Vec::new();
        let mut i: usize = 0;
        while i < plan.legs.len()
            invariant
                plan.legs@ == old(plan).legs@,
                i <= plan.legs@.len(),
                to_compensate@ == compensation_order(plan.legs@.take(i as int)),
            decreases plan.legs.len() - i,
        {
            assert(plan.legs@.take(i + 1).drop_last() =~= plan.legs@.take(i as int));
            let leg = &plan.legs[i];
            if leg.status == LegStatus::Completed && leg.compensating_action.is_some() {
                to_compensate.insert(0, leg.id);
                assert(to_compensate@ =~= seq![leg.id] + compensation_order(plan.legs@.take(i as int)));
            }
            i = i + 1;
        }
        assert(plan.legs@.take(plan.legs@.len() as int) =~= plan.legs@);
        let mut k: usize = 0;
        while k < to_compensate.len()
            invariant
                k <= to_compensate@.len(),
                plan.legs@ == set_first_status_all(old(plan).legs@, to_compensate@.take(k as int), LegStatus::Compensating),
                self.in_progress@ == old(self).in_progress@ + to_compensate@.take(k as int),
                self.compensated@ == old(self).compensated@,
                self.failed@ == old(self).failed@,
                plan.status == PlanStatus::Compensating,
                plan.id == old(plan).id,
                plan.intent == old(plan).intent,
                plan.created_at == old(plan).created_at,
            decreases to_compensate.len() - k,
        {
            let id = to_compensate[k];
            set_first_leg_status(&mut plan.legs, id, LegStatus::Compensating);
            self.in_progress.push(id);
            assert(to_compensate@.take(k + 1).drop_last() =~= to_compensate@.take(k as int));
            assert(self.in_progress@ =~= old(self).in_progress@ + to_compensate@.take(k + 1));
            k = k + 1;
        }
        assert(to_compensate@.take(to_compensate@.len() as int) =~= to_compensate@);
        to_compensate
    }

    /// Marks a leg as successfully compensated; once nothing is in progress
    /// the plan is left `Failed` (compensation done, original intent failed).
    pub fn mark_compensated(&mut self, plan: &mut ExecutionPlan, leg_id: u128)
        ensures
            final(self).in_progress@ == without_id(old(self).in_progress@, leg_id),
            final(self).compensated@ == old(self).compensated@.push(leg_id),
            final(self).failed@ == old(self).failed@,
            final(plan).legs@ == set_first_status(old(plan).legs@, leg_id, LegStatus::Compensated),
            final(plan).status == (if final(self).in_progress@.len() == 0 { PlanStatus::Failed } else { old(plan).status }),
            final(plan).id == old(plan).id,
            final(plan).intent == old(plan).intent,
            final(plan).created_at == old(plan).created_at,
    {
        self.in_progress = without(&self.in_progress, leg_id);
        self.compensated.push(leg_id);
        set_first_leg_status(&mut plan.legs, leg_id, LegStatus::Compensated);
        if self.in_progress.len() == 0 {
            plan.status = PlanStatus::Failed;
        }
    }

    /// Marks a leg's compensating action as failed: the leg goes back to
    /// `Completed` so operators can see it still needs manual reversal.
    pub fn mark_compensation_failed(&mut self, plan: &mut ExecutionPlan, leg_id: u128)
        ensures
            final(self).in_progress@ == without_id(old(self).in_progress@, leg_id),
            final(self).failed@ == old(self).failed@.push(leg_id),
            final(self).compensated@ == old(self).compensated@,
            final(plan).legs@ == set_first_status(old(plan).legs@, leg_id, LegStatus::Completed),
            final(plan).status == old(plan).status,
            final(plan).id == old(plan).id,
            final(plan).intent == old(plan).intent,
            final(plan).created_at == old(plan).created_at,
    {
        self.in_progress = without(&self.in_progress, leg_id);
        self.failed.push(leg_id);
        set_first_leg_status(&mut plan.legs, leg_id, LegStatus::Completed);
    }

    /// Returns a snapshot of the current compensation progress.
    pub fn compensation_status(&self) -> (s: CompensationStatus)
        ensures
            s.total_compensated == self.compensated@.len(),
            s.total_in_progress == self.in_progress@.len(),
            s.total_failed == self.failed@.len(),
    {
        CompensationStatus {
            total_compensated: self.compensated.len(),
            total_in_progress: self.in_progress.len(),
            total_failed: self.failed.len(),
        }
    }
}

} // verus!
