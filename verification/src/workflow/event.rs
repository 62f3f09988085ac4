//! The append-only event history of a workflow run, and its replay onto a
//! state.

use vstd::prelude::*;
use std::collections::HashMap;
use crate::workflow::error::WorkflowError;
use crate::workflow::state::{StepState, StepStatus, WorkflowState, WorkflowStatus};

verus! {

/// One entry of a run's history. `output` holds JSON text.
#[derive(Debug)]
pub enum WorkflowEvent {
    WorkflowStarted { id: String, definition: String, timestamp: u64 },
    StepStarted { id: String, step: String, attempt: u32, timestamp: u64 },
    StepCompleted { id: String, step: String, output: String, timestamp: u64 },
    StepFailed { id: String, step: String, error: String, attempt: u32, timestamp: u64 },
    StepRetrying { id: String, step: String, attempt: u32, backoff_ms: u64, timestamp: u64 },
    WorkflowPaused { id: String, step: String, reason: String, timestamp: u64 },
    WorkflowResumed { id: String, by: String, timestamp: u64 },
    WorkflowCompleted { id: String, timestamp: u64 },
    WorkflowFailed { id: String, error: String, timestamp: u64 },
    WorkflowCancelled { id: String, timestamp: u64 },
}

/// The timestamp an event carries.
pub open spec fn event_ts(ev: WorkflowEvent) -> u64 {
    match ev {
        WorkflowEvent::WorkflowStarted { timestamp, .. } => timestamp,
        WorkflowEvent::StepStarted { timestamp, .. } => timestamp,
        WorkflowEvent::StepCompleted { timestamp, .. } => timestamp,
        WorkflowEvent::StepFailed { timestamp, .. } => timestamp,
        WorkflowEvent::StepRetrying { timestamp, .. } => timestamp,
        WorkflowEvent::WorkflowPaused { timestamp, .. } => timestamp,
        WorkflowEvent::WorkflowResumed { timestamp, .. } => timestamp,
        WorkflowEvent::WorkflowCompleted { timestamp, .. } => timestamp,
        WorkflowEvent::WorkflowFailed { timestamp, .. } => timestamp,
        WorkflowEvent::WorkflowCancelled { timestamp, .. } => timestamp,
    }
}

impl WorkflowEvent {
    /// The event itself (events are stamped when they are built).
    pub fn now(ev: Self) -> (r: Self)
        ensures
            r == ev,
    {
        ev
    }

    /// The timestamp the event carries.
    pub fn ts(&self) -> (t: u64)
        ensures
            t == event_ts(*self),
    {
        match self {
            WorkflowEvent::WorkflowStarted { timestamp, .. } => *timestamp,
            WorkflowEvent::StepStarted { timestamp, .. } => *timestamp,
            WorkflowEvent::StepCompleted { timestamp, .. } => *timestamp,
            WorkflowEvent::StepFailed { timestamp, .. } => *timestamp,
            WorkflowEvent::StepRetrying { timestamp, .. } => *timestamp,
            WorkflowEvent::WorkflowPaused { timestamp, .. } => *timestamp,
            WorkflowEvent::WorkflowResumed { timestamp, .. } => *timestamp,
            WorkflowEvent::WorkflowCompleted { timestamp, .. } => *timestamp,
            WorkflowEvent::WorkflowFailed { timestamp, .. } => *timestamp,
            WorkflowEvent::WorkflowCancelled { timestamp, .. } => *timestamp,
        }
    }
}

/// The current Unix time in seconds.
pub fn timestamp_now() -> (t: u64) {
    crate::clock::unix_now()
}

/// Everything of a run's state but the moment it was last written.
pub struct WorkflowModel {
    pub id: Seq<char>,
    pub definition: Seq<char>,
    pub status: WorkflowStatus,
    pub current_step: nat,
    pub steps: Seq<StepState>,
    pub created_at: u64,
    pub agent_id: Option<String>,
    pub tags: Map<String, String>,
}

impl WorkflowState {
    pub open spec fn model(&self) -> WorkflowModel {
        WorkflowModel {
            id: self.id@,
            definition: self.definition@,
            status: self.status,
            current_step: self.current_step as nat,
            steps: self.step_states@,
            created_at: self.created_at,
            agent_id: self.agent_id,
            tags: self.tags@,
        }
    }
}

/// `j` is the first step whose id is `id`.
pub open spec fn first_step(steps: Seq<StepState>, id: Seq<char>, j: int) -> bool {
    0 <= j < steps.len() && steps[j].step_id@ == id && forall|k: int| 0 <= k < j ==> steps[k].step_id@ != id
}

/// Some step has id `id`.
pub open spec fn has_step(steps: Seq<StepState>, id: Seq<char>) -> bool {
    exists|j: int| 0 <= j < steps.len() && steps[j].step_id@ == id
}

/// The position of the first step with id `id`, or -1.
pub open spec fn step_pos(steps: Seq<StepState>, id: Seq<char>) -> int {
    if has_step(steps, id) {
        choose|j: int| first_step(steps, id, j)
    } else {
        -1
    }
}

/// `steps` with the first step whose id is `id` replaced by `f` of it.
pub open spec fn update_first(steps: Seq<StepState>, id: Seq<char>, f: spec_fn(StepState) -> StepState) -> Seq<StepState> {
    Seq::new(steps.len(), |j: int| if first_step(steps, id, j) { f(steps[j]) } else { steps[j] })
}

/// The effect of one event on a run (the write time aside).
pub open spec fn apply_model(ev: WorkflowEvent, m: WorkflowModel) -> WorkflowModel {
    match ev {
        WorkflowEvent::WorkflowStarted { id, definition, .. } => WorkflowModel {
            id: id@,
            definition: definition@,
            status: WorkflowStatus::Running,
            current_step: 0,
            ..m
        },
        WorkflowEvent::StepStarted { step, attempt, timestamp, .. } => WorkflowModel {
            steps: update_first(m.steps, step@, |s: StepState| StepState {
                status: StepStatus::Running, attempt: attempt, started_at: Some(timestamp), ..s
            }),
            ..m
        },
        WorkflowEvent::StepCompleted { step, output, timestamp, .. } => WorkflowModel {
            steps: update_first(m.steps, step@, |s: StepState| StepState {
                status: StepStatus::Completed, output: Some(output), completed_at: Some(timestamp), ..s
            }),
            current_step: (if has_step(m.steps, step@) {
                if m.current_step >= step_pos(m.steps, step@) + 1 { m.current_step } else { (step_pos(m.steps, step@) + 1) as nat }
            } else {
                if m.current_step >= 1 { m.current_step } else { 1 }
            }),
            ..m
        },
        WorkflowEvent::StepFailed { step, error, attempt, .. } => WorkflowModel {
            steps: update_first(m.steps, step@, |s: StepState| StepState {
                status: StepStatus::Failed(error), attempt: attempt, error: Some(error), ..s
            }),
            ..m
        },
        WorkflowEvent::WorkflowPaused { .. } => WorkflowModel { status: WorkflowStatus::Paused, ..m },
        WorkflowEvent::WorkflowResumed { .. } => WorkflowModel { status: WorkflowStatus::Running, ..m },
        WorkflowEvent::WorkflowCompleted { .. } => WorkflowModel { status: WorkflowStatus::Completed, ..m },
        WorkflowEvent::WorkflowFailed { error, .. } => WorkflowModel { status: WorkflowStatus::Failed(error), ..m },
        WorkflowEvent::WorkflowCancelled { .. } => WorkflowModel { status: WorkflowStatus::Cancelled, ..m },
        WorkflowEvent::StepRetrying { .. } => m,
    }
}

/// The effect of a whole history, oldest event first.
pub open spec fn replay_model(history: Seq<WorkflowEvent>, m: WorkflowModel) -> WorkflowModel
    decreases history.len(),
{
    if history.len() == 0 {
        m
    } else {
        apply_model(history.last(), replay_model(history.drop_last(), m))
    }
}

/// The first step whose id is `id`, if any.
pub(crate) fn find_step(steps: &Vec<StepState>, id: &String) -> (r: Option<usize>)
    ensures
        r matches Some(j) ==> first_step(steps@, id@, j as int),
        r is None ==> !has_step(steps@, id@),
{
    let mut j: usize = 0;
    while j < steps.len()
        invariant
            j <= steps@.len(),
            forall|k: int| 0 <= k < j ==> steps@[k].step_id@ != id@,
        decreases steps.len() - j,
    {
        if steps[j].step_id == *id {
            return Some(j);
        }
        j = j + 1;
    }
    None
}

/// The first step with a given id is where `step_pos` points.
pub(crate) proof fn lemma_step_pos(steps: Seq<StepState>, id: Seq<char>, j: int)
    requires
        first_step(steps, id, j),
    ensures
        has_step(steps, id),
        step_pos(steps, id) == j,
{
    assert(has_step(steps, id));
    let c = choose|c: int| first_step(steps, id, c);
    assert(c == j) by {
        if c < j {
            assert(steps[c].step_id@ != id);
        } else if c > j {
            assert(steps[j].step_id@ != id);
        }
    }
}

proof fn lemma_update_at(steps: Seq<StepState>, id: Seq<char>, j: int, f: spec_fn(StepState) -> StepState)
    requires
        first_step(steps, id, j),
    ensures
        update_first(steps, id, f) =~= steps.update(j, f(steps[j])),
        has_step(steps, id),
        step_pos(steps, id) == j,
{
    assert forall|q: int| 0 <= q < steps.len() && q != j implies !first_step(steps, id, q) by {
        if q > j {
            assert(steps[j].step_id@ == id);
        }
    }
    assert(has_step(steps, id));
    let c = choose|c: int| first_step(steps, id, c);
    assert(c == j) by {
        if c < j {
            assert(steps[c].step_id@ != id);
        } else if c > j {
            assert(steps[j].step_id@ != id);
        }
    }
}

/// Applies one event to a run's state and records the write time.
fn apply(ev: &WorkflowEvent, state: &mut WorkflowState)
    ensures
        final(state).model() == apply_model(*ev, old(state).model()),
{
    let ghost m0 = state.model();
    match ev {
        WorkflowEvent::WorkflowStarted { id, definition, .. } => {
            state.id = id.clone();
            state.definition = definition.clone();
            state.status = WorkflowStatus::Running;
            state.current_step = 0;
        },
        WorkflowEvent::StepStarted { step, attempt, timestamp, .. } => {
            match find_step(&state.step_states, step) {
                Some(j) => {
                    state.step_states[j].status = StepStatus::Running;
                    state.step_states[j].attempt = *attempt;
                    state.step_states[j].started_at = Some(*timestamp);
                    proof {
                        lemma_update_at(m0.steps, step@, j as int, |s: StepState| StepState {
                            status: StepStatus::Running, attempt: *attempt, started_at: Some(*timestamp), ..s
                        });
                    }
                },
                None => {},
            }
        },
        WorkflowEvent::StepCompleted { step, output, timestamp, .. } => {
            let pos = find_step(&state.step_states, step);
            match pos {
                Some(j) => {
                    state.step_states[j].status = StepStatus::Completed;
                    state.step_states[j].output = Some(output.clone());
                    state.step_states[j].completed_at = Some(*timestamp);
                    proof {
                        lemma_update_at(m0.steps, step@, j as int, |s: StepState| StepState {
                            status: StepStatus::Completed, output: Some(*output), completed_at: Some(*timestamp), ..s
                        });
                    }
                },
                None => {},
            }
            let p1 = match pos {
                Some(j) => {
                    assert(j < state.step_states.len());
                    j + 1
                },
                None => 1,
            };
            if state.current_step < p1 {
                state.current_step = p1;
            }
        },
        WorkflowEvent::StepFailed { step, error, attempt, .. } => {
            match find_step(&state.step_states, step) {
                Some(j) => {
                    state.step_states[j].status = StepStatus::Failed(error.clone());
                    state.step_states[j].attempt = *attempt;
                    state.step_states[j].error = Some(error.clone());
                    proof {
                        lemma_update_at(m0.steps, step@, j as int, |s: StepState| StepState {
                            status: StepStatus::Failed(*error), attempt: *attempt, error: Some(*error), ..s
                        });
                    }
                },
                None => {},
            }
        },
        WorkflowEvent::WorkflowPaused { .. } => {
            state.status = WorkflowStatus::Paused;
        },
        WorkflowEvent::WorkflowResumed { .. } => {
            state.status = WorkflowStatus::Running;
        },
        WorkflowEvent::WorkflowCompleted { .. } => {
            state.status = WorkflowStatus::Completed;
        },
        WorkflowEvent::WorkflowFailed { error, .. } => {
            state.status = WorkflowStatus::Failed(error.clone());
        },
        WorkflowEvent::WorkflowCancelled { .. } => {
            state.status = WorkflowStatus::Cancelled;
        },
        WorkflowEvent::StepRetrying { .. } => {},
    }
    state.mark_updated();
    assert(state.model().steps =~= apply_model(*ev, m0).steps);
}

/// Replays a history onto a state, oldest event first. It never fails.
pub fn events(history: &Vec<WorkflowEvent>, state: &mut WorkflowState) -> (r: Result<(), WorkflowError>)
    ensures
        r is Ok,
        final(state).model() == replay_model(history@, old(state).model()),
{
    let mut i: usize = 0;
    while i < history.len()
        invariant
            i <= history@.len(),
            state.model() == replay_model(history@.take(i as int), old(state).model()),
        decreases history.len() - i,
    {
        apply(&history[i], state);
        assert(history@.take(i + 1).drop_last() =~= history@.take(i as int));
        i = i + 1;
    }
    assert(history@.take(history@.len() as int) =~= history@);
    Ok(())
}

} // verus!
