//! Workflow errors.

use vstd::prelude::*;
use crate::workflow::state::WorkflowStatus;

verus! {

#[derive(Debug)]
pub enum WorkflowError {
    NotFound(String),
    AlreadyExists(String),
    InvalidTransition { workflow_id: String, from: WorkflowStatus, to: WorkflowStatus },
    StepNotFound(String),
    ActivityError(String),
    ActivityTimeout { step_id: String, timeout_ms: u64 },
    RetryExhausted { step_id: String, attempts: u32 },
    SignalRejected { reason: String },
    Cancelled,
    Storage(String),
    Serialization(String),
    Validation(String),
}

} // verus!
