//! What the background scan is fed: its configured limits, policy drift
//! between enforced policies and the live engine, and which plans are
//! still unsettled.

use vstd::prelude::*;
use crate::num::{parse_u64, parse_u64_spec};
use crate::policy::lifecycle::PolicyLifecycle;
use crate::policy::trust_policy::{PolicyMode, TrustPolicy};
use crate::text::str_eq;
use crate::workflow::state::WorkflowStatus;

verus! {

/// A configured number: the variable's value when it reads as a `u64`,
/// the default otherwise.
pub open spec fn configured(raw: Option<Seq<char>>, default: u64) -> u64 {
    match raw {
        Some(v) => match parse_u64_spec(v) {
            Some(x) => x,
            None => default,
        },
        None => default,
    }
}

fn configured_or(raw: Option<&str>, default: u64) -> (r: u64)
    ensures
        r == configured(match raw { Some(v) => Some(v@), None => None }, default),
{
    match raw {
        Some(v) => match parse_u64(v) {
            Some(x) => x,
            None => default,
        },
        None => default,
    }
}

/// The scan period in seconds, from `BASTION_SCAN_INTERVAL_SECS` (the
/// variable's value, if any, is `raw`); one hour by default.
pub fn scan_interval_secs(raw: Option<&str>) -> (r: u64)
    ensures
        r == configured(match raw { Some(v) => Some(v@), None => None }, 3600),
{
    configured_or(raw, 3600)
}

/// How long an approval may be held, in seconds, from
/// `BASTION_SCAN_APPROVAL_TTL_SECS`; one hour by default.
pub fn approval_ttl_secs(raw: Option<&str>) -> (r: u64)
    ensures
        r == configured(match raw { Some(v) => Some(v@), None => None }, 3600),
{
    configured_or(raw, 3600)
}

/// How long a plan may stay idle, in seconds, from
/// `BASTION_SCAN_UNSETTLED_TTL_SECS`; one day by default.
pub fn unsettled_ttl_secs(raw: Option<&str>) -> (r: u64)
    ensures
        r == configured(match raw { Some(v) => Some(v@), None => None }, 86_400),
{
    configured_or(raw, 86_400)
}

/// What drift detection reads of the live engine's configuration: the
/// addresses it blocks and its per-transaction cap.
#[derive(Debug)]
pub struct LivePolicy {
    pub blocked_addresses: Vec<String>,
    pub max_sol_per_tx: Option<u64>,
}

/// Some string of `v` has the text `s`.
pub open spec fn has_text(v: Seq<String>, s: Seq<char>) -> bool {
    exists|i: int| 0 <= i < v.len() && v[i]@ == s
}

/// An enforced policy has drifted when the live engine no longer meets
/// what it declares: some address it blocklists is not blocked live, or it
/// caps transactions and the live cap is missing or looser.
pub open spec fn drifted(p: TrustPolicy, live: LivePolicy) -> bool {
    let v = p.spec.validate;
    ||| exists|i: int| 0 <= i < v.blocklist@.len() && !has_text(live.blocked_addresses@, #[trigger] v.blocklist@[i]@)
    ||| (v.max_per_transaction matches Some(cap) && !(live.max_sol_per_tx matches Some(live_cap) && live_cap <= cap))
}

fn contains_text(v: &Vec<String>, s: &String) -> (r: bool)
    ensures
        r == has_text(v@, s@),
{
    let mut i: usize = 0;
    while i < v.len()
        invariant
            i <= v@.len(),
            forall|k: int| 0 <= k < i ==> v@[k]@ != s@,
        decreases v.len() - i,
    {
        if str_eq(v[i].as_str(), s.as_str()) {
            return true;
        }
        i = i + 1;
    }
    false
}

/// Whether an enforced policy has drifted from the live engine.
pub fn policy_has_drifted(policy: &TrustPolicy, live: &LivePolicy) -> (r: bool)
    ensures
        r == drifted(*policy, *live),
{
    let v = &policy.spec.validate;
    let mut i: usize = 0;
    while i < v.blocklist.len()
        invariant
            *v == policy.spec.validate,
            i <= v.blocklist@.len(),
            forall|k: int| 0 <= k < i ==> has_text(live.blocked_addresses@, #[trigger] v.blocklist@[k]@),
        decreases v.blocklist.len() - i,
    {
        if !contains_text(&live.blocked_addresses, &v.blocklist[i]) {
            assert(!has_text(live.blocked_addresses@, v.blocklist@[i as int]@));
            return true;
        }
        i = i + 1;
    }
    match v.max_per_transaction {
        Some(cap) => match live.max_sol_per_tx {
            Some(live_cap) => live_cap > cap,
            None => true,
        },
        None => false,
    }
}

/// A plan is unsettled while its workflow runs or waits, or when it failed
/// and no compensation has started.
pub open spec fn unsettled(status: WorkflowStatus, compensating: bool) -> bool {
    status is Running || status is Paused || (status is Failed && !compensating)
}

/// Whether a plan whose workflow has `status` is unsettled.
pub fn plan_is_unsettled(status: &WorkflowStatus, compensating: bool) -> (r: bool)
    ensures
        r == unsettled(*status, compensating),
{
    match status {
        WorkflowStatus::Running | WorkflowStatus::Paused => true,
        WorkflowStatus::Failed(_) => !compensating,
        _ => false,
    }
}

/// The names of the enforced policies that have drifted from the live
/// engine, in registry order.
pub open spec fn drifted_names(ps: Seq<PolicyLifecycle>, live: LivePolicy) -> Seq<Seq<char>>
    decreases ps.len(),
{
    if ps.len() == 0 {
        Seq::empty()
    } else {
        let rest = drifted_names(ps.drop_last(), live);
        let p = ps.last();
        if p.current_mode == PolicyMode::Enforce && drifted(p.policy, live) { rest.push(p.policy.metadata.name@) } else { rest }
    }
}

/// The names of the enforced policies that have drifted from the live
/// engine.
pub fn drifted_policy_names(policies: &Vec<PolicyLifecycle>, live: &LivePolicy) -> (names: Vec<String>)
    ensures
        names@.len() == drifted_names(policies@, *live).len(),
        forall|i: int| 0 <= i < names@.len() ==> #[trigger] names@[i]@ == drifted_names(policies@, *live)[i],
{
    let mut names: Vec<String> = Vec::new();
    let mut i: usize = 0;
    while i < policies.len()
        invariant
            i <= policies@.len(),
            names@.len() == drifted_names(policies@.take(i as int), *live).len(),
            forall|k: int| 0 <= k < names@.len() ==> #[trigger] names@[k]@ == drifted_names(policies@.take(i as int), *live)[k],
        decreases policies.len() - i,
    {
        assert(policies@.take(i + 1).drop_last() =~= policies@.take(i as int));
        assert(policies@.take(i + 1).last() == policies@[i as int]);
        let p = &policies[i];
        if p.current_mode == PolicyMode::Enforce && policy_has_drifted(&p.policy, live) {
            names.push(p.policy.metadata.name.clone());
        }
        i = i + 1;
    }
    assert(policies@.take(policies@.len() as int) =~= policies@);
    names
}

} // verus!
