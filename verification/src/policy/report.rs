//! Compliance reports.

use vstd::prelude::*;
use crate::policy::trust_policy::{PolicyMode, ScanResult};

verus! {

/// A summary of policy compliance for an agent or a policy.
#[derive(Debug)]
pub struct TrustReport {
    pub policy_name: String,
    pub mode: PolicyMode,
    pub evaluations: u64,
    pub allowed: u64,
    pub blocked: u64,
    pub pending_hitl: u64,
    pub active_exceptions: u64,
    pub last_scan: Option<ScanResult>,
    pub compliant: bool,
}

impl TrustReport {
    /// An empty, compliant report.
    pub fn new(policy_name: &str, mode: PolicyMode) -> (r: Self)
        ensures
            r.policy_name@ == policy_name@,
            r.mode == mode,
            r.evaluations == 0,
            r.allowed == 0,
            r.blocked == 0,
            r.pending_hitl == 0,
            r.active_exceptions == 0,
            r.last_scan is None,
            r.compliant,
    {
        TrustReport {
            policy_name: policy_name.to_owned(),
            mode,
            evaluations: 0,
            allowed: 0,
            blocked: 0,
            pending_hitl: 0,
            active_exceptions: 0,
            last_scan: None,
            compliant: true,
        }
    }

    /// Marks the report non-compliant; nothing else changes.
    pub fn mark_non_compliant(&mut self)
        ensures
            !final(self).compliant,
            final(self).policy_name == old(self).policy_name,
            final(self).mode == old(self).mode,
            final(self).evaluations == old(self).evaluations,
            final(self).allowed == old(self).allowed,
            final(self).blocked == old(self).blocked,
            final(self).pending_hitl == old(self).pending_hitl,
            final(self).active_exceptions == old(self).active_exceptions,
            final(self).last_scan == old(self).last_scan,
    {
        self.compliant = false;
    }
}

} // verus!
