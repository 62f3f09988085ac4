//! The decisions of the workflow execution loop.
//!
//! The loop that drives a run alternates outside work (reading and writing
//! the store, running an activity under a timeout, sleeping) with
//! decisions. The decisions live here: `next_decision` says what to do
//! with a freshly loaded state, `record_outcome` what an activity's outcome
//! does to it, and `apply_signal` what a human signal does.

use vstd::prelude::*;
use crate::workflow::definition::{FailurePolicy, WorkflowStep};
use crate::workflow::error::WorkflowError;
use crate::workflow::event::WorkflowEvent;
use crate::workflow::state::{step_terminal, StepState, StepStatus, WorkflowState, WorkflowStatus};

verus! {

/// A human signal sent to a run.
#[derive(Debug, Clone, Copy, PartialEq, Eq, Structural)]
pub enum Signal {
    Approve,
    Cancel,
}

/// What the loop does with a freshly loaded state.
#[derive(Debug)]
pub enum LoopDecision {
    /// The run is over; nothing changed.
    Stop,
    /// The run is paused; look again in a second.
    Wait,
    /// The step pointer moved past a finished step: save and look again.
    Advance,
    /// The run now waits for a human: append the event, save, look again.
    Pause(WorkflowEvent),
    /// Every step is done: append the event, save, and end the run.
    Finish(WorkflowEvent),
    /// Append the event, then run the activity of step `index`.
    Run { index: usize, attempt: u32, event: WorkflowEvent },
}

/// How one attempt at running a step's activity ended.
#[derive(Debug)]
pub enum StepOutcome {
    /// No activity of that name is registered.
    UnknownActivity,
    /// The activity returned this output (JSON text).
    Succeeded(String),
    /// The activity failed with this message.
    Errored(String),
    /// The activity did not finish within the step's timeout.
    TimedOut,
}

/// What the loop does after an outcome has been recorded (the state is
/// always saved, after the events are appended).
#[derive(Debug, Clone, Copy, PartialEq, Eq, Structural)]
pub enum After {
    /// Look at the run again at once.
    Continue,
    /// Sleep this many milliseconds, then look again.
    Retry { backoff_ms: u64 },
    /// End the run.
    Stop,
}

/// The events to append and what to do next.
#[derive(Debug)]
pub struct OutcomeDecision {
    pub events: Vec<WorkflowEvent>,
    pub after: After,
}

/// A run whose status no longer changes on its own.
pub open spec fn status_final(s: WorkflowStatus) -> bool {
    s is Completed || s is Failed || s is Cancelled
}

/// The loop can index the step it is about to run.
pub open spec fn loop_ready(state: WorkflowState, steps: Seq<WorkflowStep>) -> bool {
    (state.status is Running && state.current_step < steps.len()) ==> state.current_step < state.step_states@.len()
}

/// `new` is `old` with only the listed parts changed: the status, the step
/// pointer, the step states and the write time.
pub open spec fn same_run(old: WorkflowState, new: WorkflowState) -> bool {
    &&& new.id == old.id
    &&& new.definition == old.definition
    &&& new.created_at == old.created_at
    &&& new.agent_id == old.agent_id
    &&& new.tags == old.tags
}

/// Nothing changed.
pub open spec fn unchanged(old: WorkflowState, new: WorkflowState) -> bool {
    &&& same_run(old, new)
    &&& new.status == old.status
    &&& new.current_step == old.current_step
    &&& new.step_states@ == old.step_states@
    &&& new.updated_at == old.updated_at
}

/// The contract of `next_decision`.
pub open spec fn next_decision_spec(old: WorkflowState, new: WorkflowState, steps: Seq<WorkflowStep>, now: u64, d: LoopDecision) -> bool {
    let idx = old.current_step as int;
    if status_final(old.status) {
        d is Stop && unchanged(old, new)
    } else if old.status is Paused {
        d is Wait && unchanged(old, new)
    } else if idx >= steps.len() {
        &&& d matches LoopDecision::Finish(WorkflowEvent::WorkflowCompleted { id, timestamp }) && id == old.id && timestamp == now
        &&& same_run(old, new)
        &&& new.status == WorkflowStatus::Completed
        &&& new.current_step == old.current_step
        &&& new.step_states@ == old.step_states@
        &&& new.updated_at == now
    } else if step_terminal(old.step_states@[idx].status) {
        &&& d is Advance
        &&& same_run(old, new)
        &&& new.status == old.status
        &&& new.current_step == idx + 1
        &&& new.step_states@ == old.step_states@
        &&& new.updated_at == old.updated_at
    } else if steps[idx].requires_approval && old.step_states@[idx].status is Pending {
        &&& d matches LoopDecision::Pause(WorkflowEvent::WorkflowPaused { id, step, reason, timestamp })
            && id == old.id && step == steps[idx].id && reason@ == "awaiting approval"@ && timestamp == now
        &&& same_run(old, new)
        &&& new.status == WorkflowStatus::Paused
        &&& new.current_step == old.current_step
        &&& new.step_states@ == old.step_states@.update(idx, StepState { status: StepStatus::Paused, ..old.step_states@[idx] })
        &&& new.updated_at == now
    } else {
        &&& d matches LoopDecision::Run { index, attempt, event: WorkflowEvent::StepStarted { id, step, attempt: a, timestamp } }
            && index == idx && attempt == old.step_states@[idx].attempt && a == attempt
            && id == old.id && step == steps[idx].id && timestamp == now
        &&& unchanged(old, new)
    }
}

/// Decides what the loop does with a freshly loaded state: final runs stop,
/// paused runs wait, a run past its last step completes, a finished step is
/// skipped over, a pending step that needs approval pauses the run, and any
/// other step is run.
pub fn next_decision(state: &mut WorkflowState, steps: &Vec<WorkflowStep>, now: u64) -> (d: LoopDecision)
    requires
        loop_ready(*old(state), steps@),
    ensures
        next_decision_spec(*old(state), *final(state), steps@, now, d),
{
    match state.status {
        WorkflowStatus::Completed | WorkflowStatus::Failed(_) | WorkflowStatus::Cancelled => {
            return LoopDecision::Stop;
        },
        WorkflowStatus::Paused => {
            return LoopDecision::Wait;
        },
        WorkflowStatus::Running => {},
    }
    let idx = state.current_step;
    if idx >= steps.len() {
        let ev = WorkflowEvent::WorkflowCompleted { id: state.id.clone(), timestamp: now };
        state.status = WorkflowStatus::Completed;
        state.updated_at = now;
        return LoopDecision::Finish(ev);
    }
    if state.step_states[idx].is_terminal() {
        state.current_step = idx + 1;
        return LoopDecision::Advance;
    }
    let pending = match state.step_states[idx].status {
        StepStatus::Pending => true,
        _ => false,
    };
    if steps[idx].requires_approval && pending {
        state.step_states[idx].status = StepStatus::Paused;
        state.status = WorkflowStatus::Paused;
        state.updated_at = now;
        let ev = WorkflowEvent::WorkflowPaused {
            id: state.id.clone(),
            step: steps[idx].id.clone(),
            reason: "awaiting approval".to_owned(),
            timestamp: now,
        };
        return LoopDecision::Pause(ev);
    }
    let attempt = state.step_states[idx].attempt;
    let ev = WorkflowEvent::StepStarted { id: state.id.clone(), step: steps[idx].id.clone(), attempt, timestamp: now };
    LoopDecision::Run { index: idx, attempt, event: ev }
}

/// The contract of `record_outcome`.
pub open spec fn record_outcome_spec(
    old: WorkflowState,
    new: WorkflowState,
    steps: Seq<WorkflowStep>,
    index: int,
    outcome: StepOutcome,
    now: u64,
    backoff_ms: u64,
    d: OutcomeDecision,
) -> bool {
    let ss = old.step_states@[index];
    let st = steps[index];
    let attempt = ss.attempt;
    &&& same_run(old, new)
    &&& match outcome {
        StepOutcome::UnknownActivity => {
            &&& d.after == After::Stop
            &&& d.events@.len() == 1
            &&& d.events@[0] matches WorkflowEvent::StepFailed { id, step, error, attempt: a, timestamp }
                && id == old.id && step == st.id && error@ == "unknown activity: "@ + st.activity@
                && a == attempt && timestamp == now
            &&& new.status matches WorkflowStatus::Failed(msg) && msg@ == "unknown activity: "@ + st.activity@
            &&& new.current_step == old.current_step
            &&& new.step_states@ == old.step_states@
            &&& new.updated_at == old.updated_at
        },
        StepOutcome::Succeeded(output) => {
            &&& d.after == After::Continue
            &&& d.events@.len() == 1
            &&& d.events@[0] matches WorkflowEvent::StepCompleted { id, step, output: o, timestamp }
                && id == old.id && step == st.id && o == output && timestamp == now
            &&& new.status == old.status
            &&& new.current_step == index + 1
            &&& new.step_states@ == old.step_states@.update(index, StepState {
                status: StepStatus::Completed, output: Some(output), completed_at: Some(now), ..ss
            })
            &&& new.updated_at == now
        },
        StepOutcome::Errored(msg) => if attempt < st.retry.max_attempts {
            &&& d.after == (After::Retry { backoff_ms })
            &&& d.events@.len() == 1
            &&& d.events@[0] matches WorkflowEvent::StepRetrying { id, step, attempt: a, backoff_ms: b, timestamp }
                && id == old.id && step == st.id && a == attempt + 1 && b == backoff_ms && timestamp == now
            &&& new.status == old.status
            &&& new.current_step == old.current_step
            &&& new.step_states@ == old.step_states@.update(index, StepState { attempt: (attempt + 1) as u32, ..ss })
            &&& new.updated_at == now
        } else {
            &&& d.events@.len() == 1
            &&& d.events@[0] matches WorkflowEvent::StepFailed { id, step, error, attempt: a, timestamp }
                && id == old.id && step == st.id && error@ == msg@ && a == attempt && timestamp == now
            &&& match st.on_failure {
                FailurePolicy::Halt => {
                    &&& d.after == After::Stop
                    &&& new.status matches WorkflowStatus::Failed(m) && m@ == msg@
                    &&& new.current_step == old.current_step
                    &&& new.step_states@ == old.step_states@.update(index, StepState { status: StepStatus::Failed(msg), ..ss })
                    &&& new.updated_at == old.updated_at
                },
                FailurePolicy::Continue => {
                    &&& d.after == After::Continue
                    &&& new.status == old.status
                    &&& new.current_step == index + 1
                    &&& new.step_states@ == old.step_states@.update(index, StepState { status: StepStatus::Skipped, ..ss })
                    &&& new.updated_at == now
                },
            }
        },
        StepOutcome::TimedOut => if attempt < st.retry.max_attempts {
            &&& d.after == (After::Retry { backoff_ms })
            &&& d.events@.len() == 0
            &&& new.status == old.status
            &&& new.current_step == old.current_step
            &&& new.step_states@ == old.step_states@.update(index, StepState { attempt: (attempt + 1) as u32, ..ss })
            &&& new.updated_at == now
        } else {
            &&& d.after == After::Stop
            &&& d.events@.len() == 1
            &&& d.events@[0] matches WorkflowEvent::StepFailed { id, step, error, attempt: a, timestamp }
                && id == old.id && step == st.id
                && error@ == "timed out after "@ + crate::text::decimal(st.timeout_ms as nat) + "ms"@
                && a == attempt && timestamp == now
            &&& new.status matches WorkflowStatus::Failed(m) && m@ == "timed out at step "@ + st.id@
            &&& new.current_step == old.current_step
            &&& new.step_states@[index].status matches StepStatus::Failed(t) && t@ == "timeout"@
            &&& new.step_states@ == old.step_states@.update(index, StepState {
                status: new.step_states@[index].status, ..ss
            })
            &&& new.updated_at == old.updated_at
        },
    }
}

fn single(ev: WorkflowEvent) -> (v: Vec<WorkflowEvent>)
    ensures
        v@ == seq![ev],
{
    let mut v: Vec<WorkflowEvent> = Vec::new();
    v.push(ev);
    assert(v@ =~= seq![ev]);
    v
}

fn text_of(s: &str) -> (r: String)
    ensures
        r@ == s@,
{
    s.to_owned()
}

/// Records how an attempt at step `index` ended. A success completes the
/// step and moves on. A failure or timeout is retried (the attempt count
/// goes up by one, after `backoff_ms`) while fewer than `max_attempts`
/// attempts were made; then the step fails, and the run fails with it
/// unless the step's policy is to continue (the step is then skipped). An
/// unknown activity fails the run at once.
pub fn record_outcome(
    state: &mut WorkflowState,
    steps: &Vec<WorkflowStep>,
    index: usize,
    outcome: StepOutcome,
    now: u64,
    backoff_ms: u64,
) -> (d: OutcomeDecision)
    requires
        index < steps@.len(),
        index < old(state).step_states@.len(),
    ensures
        record_outcome_spec(*old(state), *final(state), steps@, index as int, outcome, now, backoff_ms, d),
{
    let ghost ss = state.step_states@[index as int];
    assert(index < steps.len());
    let step = &steps[index];
    let attempt = state.step_states[index].attempt;
    match outcome {
        StepOutcome::UnknownActivity => {
            let mut msg = text_of("unknown activity: ");
            msg.append(step.activity.as_str());
            let ev = WorkflowEvent::StepFailed {
                id: state.id.clone(),
                step: step.id.clone(),
                error: msg.clone(),
                attempt,
                timestamp: now,
            };
            state.status = WorkflowStatus::Failed(msg);
            OutcomeDecision { events: single(ev), after: After::Stop }
        },
        StepOutcome::Succeeded(output) => {
            state.step_states[index].status = StepStatus::Completed;
            state.step_states[index].output = Some(output.clone());
            state.step_states[index].completed_at = Some(now);
            assert(state.step_states@ =~= old(state).step_states@.update(index as int, StepState {
                status: StepStatus::Completed, output: Some(output), completed_at: Some(now), ..ss
            }));
            let ev = WorkflowEvent::StepCompleted { id: state.id.clone(), step: step.id.clone(), output, timestamp: now };
            state.current_step = index + 1;
            state.updated_at = now;
            OutcomeDecision { events: single(ev), after: After::Continue }
        },
        StepOutcome::Errored(msg) => {
            if step.retry.can_retry(attempt) {
                state.step_states[index].attempt = attempt + 1;
                let ev = WorkflowEvent::StepRetrying {
                    id: state.id.clone(),
                    step: step.id.clone(),
                    attempt: attempt + 1,
                    backoff_ms,
                    timestamp: now,
                };
                state.updated_at = now;
                OutcomeDecision { events: single(ev), after: After::Retry { backoff_ms } }
            } else {
                state.step_states[index].status = StepStatus::Failed(msg.clone());
                let ev = WorkflowEvent::StepFailed {
                    id: state.id.clone(),
                    step: step.id.clone(),
                    error: msg.clone(),
                    attempt,
                    timestamp: now,
                };
                match step.on_failure {
                    FailurePolicy::Halt => {
                        state.status = WorkflowStatus::Failed(msg);
                        OutcomeDecision { events: single(ev), after: After::Stop }
                    },
                    FailurePolicy::Continue => {
                        state.step_states[index].status = StepStatus::Skipped;
                        assert(state.step_states@ =~= old(state).step_states@.update(
                            index as int, StepState { status: StepStatus::Skipped, ..ss }));
                        state.current_step = index + 1;
                        state.updated_at = now;
                        OutcomeDecision { events: single(ev), after: After::Continue }
                    },
                }
            }
        },
        StepOutcome::TimedOut => {
            if step.retry.can_retry(attempt) {
                state.step_states[index].attempt = attempt + 1;
                state.updated_at = now;
                OutcomeDecision { events: Vec::new(), after: After::Retry { backoff_ms } }
            } else {
                let timeout = text_of("timeout");
                state.step_states[index].status = StepStatus::Failed(timeout);
                let mut err = text_of("timed out after ");
                let ms = crate::text::u64_to_decimal(step.timeout_ms);
                err.append(ms.as_str());
                err.append("ms");
                let ev = WorkflowEvent::StepFailed {
                    id: state.id.clone(),
                    step: step.id.clone(),
                    error: err,
                    attempt,
                    timestamp: now,
                };
                let mut why = text_of("timed out at step ");
                why.append(step.id.as_str());
                state.status = WorkflowStatus::Failed(why);
                OutcomeDecision { events: single(ev), after: After::Stop }
            }
        },
    }
}

/// A run laid out over `steps`: one step state per step, and the step
/// pointer no further than one past the last step.
pub open spec fn run_matches(state: WorkflowState, steps: Seq<WorkflowStep>) -> bool {
    &&& state.step_states@.len() == steps.len()
    &&& state.current_step <= steps.len()
}

/// The step states a new run starts with: one fresh `Pending` state per
/// step, named after the step and holding its input.
pub open spec fn fresh_step_states(states: Seq<StepState>, steps: Seq<WorkflowStep>) -> bool {
    &&& states.len() == steps.len()
    &&& forall|i: int| 0 <= i < steps.len() ==> {
        let s = #[trigger] states[i];
        &&& s.step_id@ == steps[i].id@
        &&& s.status == StepStatus::Pending
        &&& s.input == steps[i].input
        &&& s.output.is_none()
        &&& s.attempt == 0
        &&& s.started_at.is_none()
        &&& s.completed_at.is_none()
        &&& s.error.is_none()
    }
}

fn fresh_states(steps: &Vec<WorkflowStep>) -> (v: Vec<StepState>)
    ensures
        fresh_step_states(v@, steps@),
{
    let mut v: Vec<StepState> = Vec::new();
    let mut i: usize = 0;
    while i < steps.len()
        invariant
            i <= steps.len(),
            fresh_step_states(v@, steps@.subrange(0, i as int)),
        decreases steps.len() - i,
    {
        let st = StepState::new(steps[i].id.as_str(), steps[i].input.clone());
        v.push(st);
        i = i + 1;
        assert forall|k: int| 0 <= k < i implies #[trigger] steps@.subrange(0, i as int)[k] == steps@[k] by {}
        assert forall|k: int| 0 <= k < i - 1 implies #[trigger] steps@.subrange(0, i - 1)[k] == steps@[k] by {}
    }
    assert(steps@.subrange(0, steps@.len() as int) =~= steps@);
    v
}

/// Lays out a new run of the workflow `name` over `steps`: a `Running`
/// state at step 0 with one fresh `Pending` state per step, and the
/// `WorkflowStarted` event that opens its history. A workflow without steps
/// is refused.
pub fn start_state(name: &str, steps: &Vec<WorkflowStep>, agent_id: Option<String>) -> (r: Result<(WorkflowState, WorkflowEvent), WorkflowError>)
    ensures
        r is Err <==> steps@.len() == 0,
        r matches Err(e) ==> (e matches WorkflowError::Validation(m) && m@ == "workflow has no steps"@),
        r matches Ok((s, ev)) ==> {
            &&& s.definition@ == name@
            &&& s.status == WorkflowStatus::Running
            &&& s.current_step == 0
            &&& fresh_step_states(s.step_states@, steps@)
            &&& s.created_at == s.updated_at
            &&& s.agent_id == agent_id
            &&& s.tags@ == Map::<String, String>::empty()
            &&& ev matches WorkflowEvent::WorkflowStarted { id, definition, timestamp }
            &&& id == s.id
            &&& definition@ == name@
        },
{
    if steps.len() == 0 {
        return Err(WorkflowError::Validation(text_of("workflow has no steps")));
    }
    let mut state = WorkflowState::new(name, agent_id);
    state.step_states = fresh_states(steps);
    let ev = WorkflowEvent::WorkflowStarted {
        id: state.id.clone(),
        definition: name.to_owned(),
        timestamp: crate::workflow::event::timestamp_now(),
    };
    Ok((state, ev))
}

/// What a human signal does to a run. Approving resumes a paused run (the
/// step it paused on then runs) and is refused for any other run;
/// cancelling marks any run cancelled. The event to append is returned.
pub fn apply_signal(state: &mut WorkflowState, signal: Signal) -> (r: Result<WorkflowEvent, WorkflowError>)
    ensures
        signal == Signal::Approve && !(old(state).status is Paused) ==> {
            &&& r matches Err(e) && e matches WorkflowError::SignalRejected { reason } && reason@ == "workflow is not paused"@
            &&& unchanged(*old(state), *final(state))
        },
        signal == Signal::Approve && old(state).status is Paused ==> {
            &&& r matches Ok(ev) && ev matches WorkflowEvent::WorkflowResumed { id, by, timestamp }
                && id == old(state).id && by@ == "human_approval"@
            &&& same_run(*old(state), *final(state))
            &&& final(state).status == WorkflowStatus::Running
            &&& final(state).current_step == old(state).current_step
            &&& final(state).step_states == old(state).step_states
        },
        signal == Signal::Cancel ==> {
            &&& r matches Ok(ev) && ev matches WorkflowEvent::WorkflowCancelled { id, timestamp } && id == old(state).id
            &&& same_run(*old(state), *final(state))
            &&& final(state).status == WorkflowStatus::Cancelled
            &&& final(state).current_step == old(state).current_step
            &&& final(state).step_states == old(state).step_states
        },
{
    match signal {
        Signal::Approve => {
            let paused = match state.status {
                WorkflowStatus::Paused => true,
                _ => false,
            };
            if !paused {
                return Err(WorkflowError::SignalRejected { reason: text_of("workflow is not paused") });
            }
            state.status = WorkflowStatus::Running;
            state.mark_updated();
            Ok(WorkflowEvent::WorkflowResumed {
                id: state.id.clone(),
                by: text_of("human_approval"),
                timestamp: crate::workflow::event::timestamp_now(),
            })
        },
        Signal::Cancel => {
            state.status = WorkflowStatus::Cancelled;
            state.mark_updated();
            Ok(WorkflowEvent::WorkflowCancelled {
                id: state.id.clone(),
                timestamp: crate::workflow::event::timestamp_now(),
            })
        },
    }
}

/// Marks a run cancelled (no event is recorded).
pub fn cancel(state: &mut WorkflowState)
    ensures
        same_run(*old(state), *final(state)),
        final(state).status == WorkflowStatus::Cancelled,
        final(state).current_step == old(state).current_step,
        final(state).step_states == old(state).step_states,
{
    state.status = WorkflowStatus::Cancelled;
    state.mark_updated();
}

/// A finished run stays as it is: the loop stops on it and changes nothing.
pub proof fn lemma_final_run_is_left_alone(
    old: WorkflowState,
    new: WorkflowState,
    steps: Seq<WorkflowStep>,
    now: u64,
    d: LoopDecision,
)
    requires
        status_final(old.status),
        next_decision_spec(old, new, steps, now, d),
    ensures
        d is Stop,
        unchanged(old, new),
{
}

/// The run is over and the loop stops.
pub open spec fn ends_run(new: WorkflowState, after: After) -> bool {
    status_final(new.status) && after == After::Stop
}

/// The step pointer moved past step `index` and the loop goes on.
pub open spec fn moves_on(new: WorkflowState, index: int, after: After) -> bool {
    new.current_step == index + 1 && after == After::Continue
}

/// Step `index` is to be tried again after a pause: its attempt count rose
/// by one and is still within the step's `max_attempts`.
pub open spec fn spends_attempt(old: WorkflowState, new: WorkflowState, steps: Seq<WorkflowStep>, index: int, after: After) -> bool {
    &&& new.current_step == index
    &&& after is Retry
    &&& new.step_states@[index].attempt == old.step_states@[index].attempt + 1
    &&& new.step_states@[index].attempt <= steps[index].retry.max_attempts
}

/// Every recorded outcome makes progress: it ends the run (and the loop
/// stops), or it moves the step pointer past the step, or it spends one of
/// the step's attempts, and the attempt count never exceeds the step's
/// `max_attempts`. So a step is tried at most `max_attempts + 1` times.
pub proof fn lemma_outcome_makes_progress(
    old: WorkflowState,
    new: WorkflowState,
    steps: Seq<WorkflowStep>,
    index: int,
    outcome: StepOutcome,
    now: u64,
    backoff_ms: u64,
    d: OutcomeDecision,
)
    requires
        0 <= index < steps.len(),
        index < old.step_states@.len(),
        old.current_step == index,
        record_outcome_spec(old, new, steps, index, outcome, now, backoff_ms, d),
    ensures
        new.step_states@.len() == old.step_states@.len(),
        ends_run(new, d.after) || moves_on(new, index, d.after) || spends_attempt(old, new, steps, index, d.after),
{
}

/// The loop keeps a run laid out over its steps: neither a decision nor a
/// recorded outcome adds or drops a step state, and the step pointer never
/// passes one beyond the last step.
pub proof fn lemma_loop_keeps_layout(
    old: WorkflowState,
    mid: WorkflowState,
    new: WorkflowState,
    steps: Seq<WorkflowStep>,
    now: u64,
    d: LoopDecision,
    outcome: StepOutcome,
    backoff_ms: u64,
    od: OutcomeDecision,
)
    requires
        run_matches(old, steps),
        next_decision_spec(old, mid, steps, now, d),
        d matches LoopDecision::Run { index, .. } ==> record_outcome_spec(mid, new, steps, index as int, outcome, now, backoff_ms, od),
    ensures
        run_matches(mid, steps),
        d is Run ==> run_matches(new, steps),
{
}

/// The spec of `apply_signal` for an approval of a paused run.
pub open spec fn approved(old: WorkflowState, new: WorkflowState) -> bool {
    &&& same_run(old, new)
    &&& new.status == WorkflowStatus::Running
    &&& new.current_step == old.current_step
    &&& new.step_states == old.step_states
}

/// A step that needs approval does not run before a human approves it:
/// the loop pauses the run at that step instead of running it, and once the
/// run is approved the next decision runs exactly that step, first attempt
/// unchanged.
pub proof fn lemma_approval_gates_step(
    s0: WorkflowState,
    s1: WorkflowState,
    s2: WorkflowState,
    s3: WorkflowState,
    steps: Seq<WorkflowStep>,
    t1: u64,
    t3: u64,
    d1: LoopDecision,
    d3: LoopDecision,
)
    requires
        s0.status is Running,
        s0.current_step < steps.len(),
        s0.current_step < s0.step_states@.len(),
        steps[s0.current_step as int].requires_approval,
        s0.step_states@[s0.current_step as int].status is Pending,
        next_decision_spec(s0, s1, steps, t1, d1),
        approved(s1, s2),
        next_decision_spec(s2, s3, steps, t3, d3),
    ensures
        d1 is Pause,
        s1.status is Paused,
        d3 matches LoopDecision::Run { index, attempt, .. }
            && index == s0.current_step && attempt == s0.step_states@[s0.current_step as int].attempt,
{
    let idx = s0.current_step as int;
    assert(s2.step_states@[idx].status is Paused);
    assert(!step_terminal(s2.step_states@[idx].status));
}

/// Where a run stands while it heads for, or waits at, an approval step
/// `k`: still running at or before `k` with the step states it started
/// with, or paused at `k` with step `k` marked paused.
pub open spec fn awaiting_approval(s: WorkflowState, s0: WorkflowState, k: int) -> bool {
    ||| (s.status is Running && s.current_step <= k && s.step_states@ == s0.step_states@)
    ||| (s.status is Paused && s.current_step == k && k < s.step_states@.len() && s.step_states@[k].status is Paused)
}

/// Until a human approves, the loop runs neither the step that awaits
/// approval nor any later one. Take a running run whose steps from the
/// current one up to an approval step `k` are finished, and whose step `k`
/// is pending; let the loop decide again and again with no signal in
/// between. Then no decision runs a step; the step pointer never passes
/// `k`; a pause announces step `k` and leaves the run paused at `k` with
/// that step paused; and once paused, every later decision waits and
/// changes nothing.
pub proof fn lemma_paused_until_approved(
    states: Seq<WorkflowState>,
    steps: Seq<WorkflowStep>,
    times: Seq<u64>,
    decisions: Seq<LoopDecision>,
    k: int,
)
    requires
        states.len() == decisions.len() + 1,
        times.len() == decisions.len(),
        states[0].status is Running,
        states[0].current_step <= k,
        k < steps.len(),
        k < states[0].step_states@.len(),
        forall|j: int| states[0].current_step <= j < k ==> step_terminal(#[trigger] states[0].step_states@[j].status),
        steps[k].requires_approval,
        states[0].step_states@[k].status is Pending,
        forall|i: int| 0 <= i < decisions.len() ==> next_decision_spec(#[trigger] states[i], states[i + 1], steps, times[i], decisions[i]),
    ensures
        forall|i: int| 0 <= i < decisions.len() ==> !(#[trigger] decisions[i] is Run),
        forall|i: int| 0 <= i < states.len() ==> (#[trigger] states[i]).current_step <= k,
        forall|i: int| 0 <= i < decisions.len() && #[trigger] decisions[i] is Pause ==> {
            &&& decisions[i] matches LoopDecision::Pause(WorkflowEvent::WorkflowPaused { step, .. }) && step == steps[k].id
            &&& states[i + 1].status is Paused
            &&& states[i + 1].current_step == k
            &&& states[i + 1].step_states@[k].status is Paused
        },
        forall|i: int| 0 <= i < decisions.len() && (#[trigger] states[i]).status is Paused ==> {
            &&& decisions[i] is Wait
            &&& unchanged(states[i], states[i + 1])
        },
{
    lemma_awaiting_prefix(states, steps, times, decisions, k, decisions.len() as int);
    assert forall|j: int| 0 <= j < states.len() implies (#[trigger] states[j]).current_step <= k by {
        assert(awaiting_approval(states[j], states[0], k));
    }
}

proof fn lemma_awaiting_prefix(
    states: Seq<WorkflowState>,
    steps: Seq<WorkflowStep>,
    times: Seq<u64>,
    decisions: Seq<LoopDecision>,
    k: int,
    i: int,
)
    requires
        0 <= i <= decisions.len(),
        states.len() == decisions.len() + 1,
        times.len() == decisions.len(),
        states[0].status is Running,
        states[0].current_step <= k,
        k < steps.len(),
        k < states[0].step_states@.len(),
        forall|j: int| states[0].current_step <= j < k ==> step_terminal(#[trigger] states[0].step_states@[j].status),
        steps[k].requires_approval,
        states[0].step_states@[k].status is Pending,
        forall|j: int| 0 <= j < decisions.len() ==> next_decision_spec(#[trigger] states[j], states[j + 1], steps, times[j], decisions[j]),
    ensures
        forall|j: int| 0 <= j <= i ==> awaiting_approval(#[trigger] states[j], states[0], k),
        forall|j: int| 0 <= j <= i && (#[trigger] states[j]).status is Running ==> states[0].current_step <= states[j].current_step,
        forall|j: int| 0 <= j < i ==> !(#[trigger] decisions[j] is Run),
        forall|j: int| 0 <= j < i && #[trigger] decisions[j] is Pause ==> {
            &&& decisions[j] matches LoopDecision::Pause(WorkflowEvent::WorkflowPaused { step, .. }) && step == steps[k].id
            &&& states[j + 1].status is Paused
            &&& states[j + 1].current_step == k
            &&& states[j + 1].step_states@[k].status is Paused
        },
        forall|j: int| 0 <= j < i && (#[trigger] states[j]).status is Paused ==> {
            &&& decisions[j] is Wait
            &&& unchanged(states[j], states[j + 1])
        },
    decreases i,
{
    if i > 0 {
        lemma_awaiting_prefix(states, steps, times, decisions, k, i - 1);
        lemma_awaiting_step(states[0], states[i - 1], states[i], steps, times[i - 1], decisions[i - 1], k);
        assert(decisions[i - 1] is Pause ==> states[i].step_states@[k].status is Paused);
    }
}

proof fn lemma_awaiting_step(
    s0: WorkflowState,
    s: WorkflowState,
    t: WorkflowState,
    steps: Seq<WorkflowStep>,
    now: u64,
    d: LoopDecision,
    k: int,
)
    requires
        s0.status is Running,
        k < steps.len(),
        k < s0.step_states@.len(),
        forall|j: int| s0.current_step <= j < k ==> step_terminal(#[trigger] s0.step_states@[j].status),
        steps[k].requires_approval,
        s0.step_states@[k].status is Pending,
        awaiting_approval(s, s0, k),
        s.status is Running ==> s0.current_step <= s.current_step,
        next_decision_spec(s, t, steps, now, d),
    ensures
        awaiting_approval(t, s0, k),
        t.status is Running ==> s0.current_step <= t.current_step,
        !(d is Run),
        d is Pause ==> {
            &&& d matches LoopDecision::Pause(WorkflowEvent::WorkflowPaused { step, .. }) && step == steps[k].id
            &&& t.status is Paused
            &&& t.current_step == k
            &&& t.step_states@[k].status is Paused
        },
        s.status is Paused ==> d is Wait && unchanged(s, t),
{
    if s.status is Running {
        let idx = s.current_step as int;
        if idx < k {
            assert(step_terminal(s0.step_states@[idx].status));
        } else {
            assert(!step_terminal(s.step_states@[k].status));
            assert(t.step_states@[k].status is Paused);
        }
    }
}

} // verus!
