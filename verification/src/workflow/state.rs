//! Workflow and step state.

use vstd::prelude::*;
use std::collections::HashMap;

verus! {

/// The lifecycle status of a workflow run.
#[derive(Debug)]
pub enum WorkflowStatus {
    Running,
    Paused,
    Completed,
    Failed(String),
    Cancelled,
}

/// Two workflow statuses are the same variant (and, for `Failed`, carry the same text).
pub open spec fn workflow_status_eq(a: WorkflowStatus, b: WorkflowStatus) -> bool {
    match (a, b) {
        (WorkflowStatus::Failed(x), WorkflowStatus::Failed(y)) => x@ == y@,
        (WorkflowStatus::Running, WorkflowStatus::Running) => true,
        (WorkflowStatus::Paused, WorkflowStatus::Paused) => true,
        (WorkflowStatus::Completed, WorkflowStatus::Completed) => true,
        (WorkflowStatus::Cancelled, WorkflowStatus::Cancelled) => true,
        _ => false,
    }
}

impl PartialEq for WorkflowStatus {
    fn eq(&self, other: &Self) -> (r: bool) {
        match (self, other) {
            (WorkflowStatus::Failed(x), WorkflowStatus::Failed(y)) => *x == *y,
            (WorkflowStatus::Running, WorkflowStatus::Running) => true,
            (WorkflowStatus::Paused, WorkflowStatus::Paused) => true,
            (WorkflowStatus::Completed, WorkflowStatus::Completed) => true,
            (WorkflowStatus::Cancelled, WorkflowStatus::Cancelled) => true,
            _ => false,
        }
    }
}

impl vstd::std_specs::cmp::PartialEqSpecImpl for WorkflowStatus {
    open spec fn obeys_eq_spec() -> bool {
        true
    }

    open spec fn eq_spec(&self, other: &Self) -> bool {
        workflow_status_eq(*self, *other)
    }
}

impl Clone for WorkflowStatus {
    fn clone(&self) -> (res: Self)
        ensures
            res == *self,
    {
        match self {
            WorkflowStatus::Running => WorkflowStatus::Running,
            WorkflowStatus::Paused => WorkflowStatus::Paused,
            WorkflowStatus::Completed => WorkflowStatus::Completed,
            WorkflowStatus::Failed(s) => WorkflowStatus::Failed(s.clone()),
            WorkflowStatus::Cancelled => WorkflowStatus::Cancelled,
        }
    }
}

/// The status of one step of a run.
#[derive(Debug)]
pub enum StepStatus {
    Pending,
    Running,
    Completed,
    Failed(String),
    Paused,
    Skipped,
}

/// Two step statuses are the same variant (and, for `Failed`, carry the same text).
pub open spec fn step_status_eq(a: StepStatus, b: StepStatus) -> bool {
    match (a, b) {
        (StepStatus::Failed(x), StepStatus::Failed(y)) => x@ == y@,
        (StepStatus::Pending, StepStatus::Pending) => true,
        (StepStatus::Running, StepStatus::Running) => true,
        (StepStatus::Completed, StepStatus::Completed) => true,
        (StepStatus::Paused, StepStatus::Paused) => true,
        (StepStatus::Skipped, StepStatus::Skipped) => true,
        _ => false,
    }
}

impl PartialEq for StepStatus {
    fn eq(&self, other: &Self) -> (r: bool) {
        match (self, other) {
            (StepStatus::Failed(x), StepStatus::Failed(y)) => *x == *y,
            (StepStatus::Pending, StepStatus::Pending) => true,
            (StepStatus::Running, StepStatus::Running) => true,
            (StepStatus::Completed, StepStatus::Completed) => true,
            (StepStatus::Paused, StepStatus::Paused) => true,
            (StepStatus::Skipped, StepStatus::Skipped) => true,
            _ => false,
        }
    }
}

impl vstd::std_specs::cmp::PartialEqSpecImpl for StepStatus {
    open spec fn obeys_eq_spec() -> bool {
        true
    }

    open spec fn eq_spec(&self, other: &Self) -> bool {
        step_status_eq(*self, *other)
    }
}

impl Clone for StepStatus {
    fn clone(&self) -> (res: Self)
        ensures
            res == *self,
    {
        match self {
            StepStatus::Pending => StepStatus::Pending,
            StepStatus::Running => StepStatus::Running,
            StepStatus::Completed => StepStatus::Completed,
            StepStatus::Failed(s) => StepStatus::Failed(s.clone()),
            StepStatus::Paused => StepStatus::Paused,
            StepStatus::Skipped => StepStatus::Skipped,
        }
    }
}

/// The state of one step. `input` and `output` hold JSON text.
#[derive(Debug)]
pub struct StepState {
    pub step_id: String,
    pub status: StepStatus,
    pub input: String,
    pub output: Option<String>,
    pub attempt: u32,
    pub started_at: Option<u64>,
    pub completed_at: Option<u64>,
    pub error: Option<String>,
}

impl Clone for StepState {
    fn clone(&self) -> (res: Self)
        ensures
            res == *self,
    {
        StepState {
            step_id: self.step_id.clone(),
            status: self.status.clone(),
            input: self.input.clone(),
            output: self.output.clone(),
            attempt: self.attempt,
            started_at: self.started_at,
            completed_at: self.completed_at,
            error: self.error.clone(),
        }
    }
}

/// A step that has finished one way or another.
pub open spec fn step_terminal(s: StepStatus) -> bool {
    s is Completed || s is Failed || s is Skipped
}

impl StepState {
    /// A fresh `Pending` step with the given input, never attempted.
    pub fn new(step_id: &str, input: String) -> (s: Self)
        ensures
            s.step_id@ == step_id@,
            s.status == StepStatus::Pending,
            s.input == input,
            s.output.is_none(),
            s.attempt == 0,
            s.started_at.is_none(),
            s.completed_at.is_none(),
            s.error.is_none(),
    {
        StepState {
            step_id: step_id.to_owned(),
            status: StepStatus::Pending,
            input,
            output: None,
            attempt: 0,
            started_at: None,
            completed_at: None,
            error: None,
        }
    }

    /// Completed, failed and skipped steps are terminal.
    pub fn is_terminal(&self) -> (r: bool)
        ensures
            r == step_terminal(self.status),
    {
        match self.status {
            StepStatus::Completed | StepStatus::Failed(_) | StepStatus::Skipped => true,
            _ => false,
        }
    }
}

/// The durable state of one workflow run.
#[derive(Debug)]
pub struct WorkflowState {
    pub id: String,
    pub definition: String,
    pub status: WorkflowStatus,
    pub current_step: usize,
    pub step_states: Vec<StepState>,
    pub created_at: u64,
    pub updated_at: u64,
    pub agent_id: Option<String>,
    pub tags: HashMap<String, String>,
}

impl WorkflowState {
    /// A new `Running` run of `definition` at step 0 with no steps yet, a
    /// fresh random id (UUID text) and both timestamps set to now.
    pub fn new(definition: &str, agent_id: Option<String>) -> (s: Self)
        ensures
            s.definition@ == definition@,
            s.status == WorkflowStatus::Running,
            s.current_step == 0,
            s.step_states@.len() == 0,
            s.created_at == s.updated_at,
            s.agent_id == agent_id,
            s.tags@ == Map::<String, String>::empty(),
            exists|u: u128| s.id@ == #[trigger] crate::ids::uuid_text(u),
    {
        let u = crate::ids::new_uuid();
        let id = crate::ids::uuid_string(u);
        let now = crate::clock::unix_now();
        WorkflowState {
            id,
            definition: definition.to_owned(),
            status: WorkflowStatus::Running,
            current_step: 0,
            step_states: Vec::new(),
            created_at: now,
            updated_at: now,
            agent_id,
            tags: HashMap::new(),
        }
    }

    /// Records that the state changed now.
    pub fn mark_updated(&mut self)
        ensures
            final(self).id == old(self).id,
            final(self).definition == old(self).definition,
            final(self).status == old(self).status,
            final(self).current_step == old(self).current_step,
            final(self).step_states == old(self).step_states,
            final(self).created_at == old(self).created_at,
            final(self).agent_id == old(self).agent_id,
            final(self).tags == old(self).tags,
    {
        self.updated_at = crate::clock::unix_now();
    }
}

} // verus!
