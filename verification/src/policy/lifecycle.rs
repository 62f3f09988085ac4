//! The lifecycle of a policy: audit first, enforce once trusted.

use vstd::prelude::*;
use crate::policy::trust_policy::{PolicyMode, PolicyStatus, ScanResult, TrustPolicy};

verus! {

/// A policy moving through its lifecycle, from audit to enforcement.
#[derive(Debug)]
pub struct PolicyLifecycle {
    pub policy: TrustPolicy,
    pub current_mode: PolicyMode,
}

/// A status with no history: no evaluations, no blocks, no scan.
pub open spec fn fresh_status(s: PolicyStatus, mode: PolicyMode) -> bool {
    &&& s.mode == mode
    &&& s.evaluations == 0
    &&& s.blocks == 0
    &&& s.last_evaluation == 0
    &&& s.last_scan is None
}

impl PolicyLifecycle {
    /// A policy entering its lifecycle, in audit mode.
    pub fn new(policy: TrustPolicy) -> (l: Self)
        ensures
            l.policy == policy,
            l.current_mode == PolicyMode::Audit,
    {
        PolicyLifecycle { current_mode: PolicyMode::Audit, policy }
    }

    /// Promotes the policy to enforcement.
    pub fn enforce(&mut self)
        ensures
            final(self).current_mode == PolicyMode::Enforce,
            final(self).policy == old(self).policy,
    {
        self.current_mode = PolicyMode::Enforce;
    }

    /// Downgrades the policy to audit (log, don't block).
    pub fn audit(&mut self)
        ensures
            final(self).current_mode == PolicyMode::Audit,
            final(self).policy == old(self).policy,
    {
        self.current_mode = PolicyMode::Audit;
    }

    pub fn mode(&self) -> (m: &PolicyMode)
        ensures
            *m == self.current_mode,
    {
        &self.current_mode
    }

    /// A snapshot of the policy's status: the engine's record when there is
    /// one, else a fresh status in the current mode.
    pub fn status(&self) -> (s: PolicyStatus)
        ensures
            match self.policy.status {
                Some(st) => s.mode == st.mode && s.evaluations == st.evaluations && s.blocks == st.blocks
                    && s.last_evaluation == st.last_evaluation && scan_same(s.last_scan, st.last_scan),
                None => fresh_status(s, self.current_mode),
            },
    {
        match &self.policy.status {
            Some(st) => PolicyStatus {
                mode: st.mode,
                evaluations: st.evaluations,
                blocks: st.blocks,
                last_evaluation: st.last_evaluation,
                last_scan: match &st.last_scan {
                    Some(r) => Some(r.clone()),
                    None => None,
                },
            },
            None => PolicyStatus {
                mode: self.current_mode,
                evaluations: 0,
                blocks: 0,
                last_evaluation: 0,
                last_scan: None,
            },
        }
    }
}

/// Two optional scan results carry the same values.
pub open spec fn scan_same(a: Option<ScanResult>, b: Option<ScanResult>) -> bool {
    match (a, b) {
        (Some(x), Some(y)) => crate::policy::scanner::scan_result_same(x, y),
        (None, None) => true,
        _ => false,
    }
}

} // verus!
