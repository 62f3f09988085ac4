//! Workflow definitions: steps, retry and failure policies, YAML workflows.

use vstd::prelude::*;
use std::collections::HashMap;

verus! {

/// How often, and how patiently, a failing step is retried.
/// `backoff_multiplier_bits` is the IEEE-754 bit pattern of the (floating
/// point) backoff multiplier; it is carried unchanged.
#[derive(Debug, Clone, Copy, PartialEq, Eq, Structural)]
pub struct RetryPolicy {
    pub max_attempts: u32,
    pub initial_backoff_ms: u64,
    pub max_backoff_ms: u64,
    pub backoff_multiplier_bits: u64,
    pub timeout_ms: u64,
}

pub fn default_max_attempts() -> (r: u32)
    ensures
        r == 1,
{
    1
}

pub fn default_initial_backoff() -> (r: u64)
    ensures
        r == 1000,
{
    1000
}

pub fn default_max_backoff() -> (r: u64)
    ensures
        r == 30000,
{
    30000
}

/// The bit pattern of the default multiplier 2.0.
pub fn default_multiplier_bits() -> (r: u64)
    ensures
        r == 0x4000_0000_0000_0000,
{
    0x4000_0000_0000_0000
}

pub fn default_timeout() -> (r: u64)
    ensures
        r == 30000,
{
    30000
}

impl Default for RetryPolicy {
    fn default() -> (r: Self)
        ensures
            r.max_attempts == 1,
            r.initial_backoff_ms == 1000,
            r.max_backoff_ms == 30000,
            r.backoff_multiplier_bits == 0x4000_0000_0000_0000,
            r.timeout_ms == 30000,
    {
        RetryPolicy {
            max_attempts: default_max_attempts(),
            initial_backoff_ms: default_initial_backoff(),
            max_backoff_ms: default_max_backoff(),
            backoff_multiplier_bits: default_multiplier_bits(),
            timeout_ms: default_timeout(),
        }
    }
}

impl RetryPolicy {
    /// Another attempt is allowed while fewer than `max_attempts` were made.
    pub fn can_retry(&self, attempt: u32) -> (r: bool)
        ensures
            r == (attempt < self.max_attempts),
    {
        attempt < self.max_attempts
    }
}

/// What a run does when a step fails for good.
#[derive(Debug, Clone, Copy, PartialEq, Eq, Structural)]
pub enum FailurePolicy {
    Halt,
    Continue,
}

impl Default for FailurePolicy {
    fn default() -> (r: Self)
        ensures
            r == FailurePolicy::Halt,
    {
        FailurePolicy::Halt
    }
}

/// One step of a workflow. `input` holds JSON text.
#[derive(Debug)]
pub struct WorkflowStep {
    pub id: String,
    pub activity: String,
    pub input: String,
    pub retry: RetryPolicy,
    pub timeout_ms: u64,
    pub requires_approval: bool,
    pub on_failure: FailurePolicy,
}

impl Clone for WorkflowStep {
    fn clone(&self) -> (res: Self)
        ensures
            res == *self,
    {
        WorkflowStep {
            id: self.id.clone(),
            activity: self.activity.clone(),
            input: self.input.clone(),
            retry: self.retry,
            timeout_ms: self.timeout_ms,
            requires_approval: self.requires_approval,
            on_failure: self.on_failure,
        }
    }
}

impl Default for WorkflowStep {
    fn default() -> (s: Self)
        ensures
            s.id@ == Seq::<char>::empty(),
            s.activity@ == Seq::<char>::empty(),
            s.input@ == "null"@,
            s.retry.max_attempts == 1,
            s.retry.initial_backoff_ms == 1000,
            s.retry.max_backoff_ms == 30000,
            s.retry.backoff_multiplier_bits == 0x4000_0000_0000_0000,
            s.retry.timeout_ms == 30000,
            s.timeout_ms == 30000,
            !s.requires_approval,
            s.on_failure == FailurePolicy::Halt,
    {
        WorkflowStep {
            id: String::new(),
            activity: String::new(),
            input: "null".to_owned(),
            retry: RetryPolicy::default(),
            timeout_ms: default_timeout(),
            requires_approval: false,
            on_failure: FailurePolicy::default(),
        }
    }
}

/// A copy of a list of steps.
pub fn clone_steps(v: &Vec<WorkflowStep>) -> (res: Vec<WorkflowStep>)
    ensures
        res@ == v@,
{
    let mut res: Vec<WorkflowStep> = Vec::new();
    let mut i: usize = 0;
    while i < v.len()
        invariant
            i <= v.len(),
            res@ == v@.subrange(0, i as int),
        decreases v.len() - i,
    {
        res.push(v[i].clone());
        i = i + 1;
        assert(res@ =~= v@.subrange(0, i as int));
    }
    assert(res@ =~= v@);
    res
}

/// Something the engine can run: a name and an ordered list of steps.
pub trait WorkflowDefinition {
    fn name(&self) -> &str;

    fn steps(&self) -> Vec<WorkflowStep>;
}

/// A workflow written as a YAML resource.
#[derive(Debug)]
pub struct YamlWorkflow {
    pub api_version: String,
    pub kind: String,
    pub metadata: YamlWorkflowMetadata,
    pub spec: YamlWorkflowSpec,
}

#[derive(Debug)]
pub struct YamlWorkflowMetadata {
    pub name: String,
    pub labels: HashMap<String, String>,
}

#[derive(Debug)]
pub struct YamlWorkflowSpec {
    pub steps: Vec<WorkflowStep>,
}

/// A YAML workflow viewed as a definition.
pub struct YamlWorkflowDef<'a> {
    pub workflow: &'a YamlWorkflow,
}

impl YamlWorkflow {
    pub fn to_definition(&self) -> (d: YamlWorkflowDef<'_>)
        ensures
            d.workflow == self,
    {
        YamlWorkflowDef { workflow: self }
    }
}

/// The name a YAML workflow runs under: its metadata name, or
/// `unnamed-yaml-workflow` when that is empty.
pub open spec fn yaml_workflow_name(name: Seq<char>) -> Seq<char> {
    if name.len() == 0 {
        "unnamed-yaml-workflow"@
    } else {
        name
    }
}

impl<'a> WorkflowDefinition for YamlWorkflowDef<'a> {
    fn name(&self) -> (n: &str)
        ensures
            n@ == yaml_workflow_name(self.workflow.metadata.name@),
    {
        if self.workflow.metadata.name.as_str().is_empty() {
            "unnamed-yaml-workflow"
        } else {
            self.workflow.metadata.name.as_str()
        }
    }

    fn steps(&self) -> (s: Vec<WorkflowStep>)
        ensures
            s@ == self.workflow.spec.steps@,
    {
        clone_steps(&self.workflow.spec.steps)
    }
}

} // verus!
