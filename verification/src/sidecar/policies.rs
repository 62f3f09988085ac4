//! Administration of trust policies: the registry of policies with their
//! lifecycle, mode changes, and dry-run tests of a policy.

use vstd::prelude::*;
use crate::policy::exception::TrustException;
use crate::policy::lifecycle::PolicyLifecycle;
use crate::policy::trust_policy::{policy_matches, policy_rules, PolicyMode, TrustPolicy};
use crate::text::str_eq;

verus! {

/// The body of a request that carries a policy as YAML.
#[derive(Debug)]
pub struct CreatePolicyRequest {
    pub yaml: String,
}

/// The body of a mode change: `audit` or `enforce`.
#[derive(Debug)]
pub struct PolicyModeRequest {
    pub mode: String,
}

/// The body of a dry-run test.
#[derive(Debug)]
pub struct TestPolicyRequest {
    pub intent: String,
    pub chain: String,
    pub amount: Option<u64>,
}

/// The answer to a dry-run test.
#[derive(Debug)]
pub struct TestPolicyResponse {
    pub matches: bool,
    pub rules_evaluated: usize,
    pub decision: String,
}

/// The body of a request for an exception.
#[derive(Debug)]
pub struct CreateExceptionRequest {
    pub policy_name: String,
    pub reason: String,
    pub expires_in_hours: u64,
    pub approved_by: String,
}

/// Tests a policy against an intent and chain: whether it matches, how
/// many engine rules it stands for, and the decision (`would_audit` when it
/// matches, `no_match` otherwise).
pub fn test_policy(policy: &TrustPolicy, req: &TestPolicyRequest) -> (r: TestPolicyResponse)
    ensures
        r.matches == policy_matches(*policy, req.intent@, req.chain@),
        r.rules_evaluated == policy_rules(*policy).len(),
        r.decision@ == (if r.matches { "would_audit"@ } else { "no_match"@ }),
{
    let matches = policy.matches(req.intent.as_str(), req.chain.as_str());
    let rules = policy.to_policy_rules();
    let decision = if !matches { "no_match" } else { "would_audit" };
    TestPolicyResponse { matches, rules_evaluated: rules.len(), decision: decision.to_owned() }
}

/// The mode a request names: `enforce` or `audit`, nothing else.
pub fn parse_mode(mode: &str) -> (r: Option<PolicyMode>)
    ensures
        r == (if mode@ == "enforce"@ {
            Some(PolicyMode::Enforce)
        } else if mode@ == "audit"@ {
            Some(PolicyMode::Audit)
        } else {
            None::<PolicyMode>
        }),
{
    if str_eq(mode, "enforce") {
        Some(PolicyMode::Enforce)
    } else if str_eq(mode, "audit") {
        Some(PolicyMode::Audit)
    } else {
        None
    }
}

/// Why the registry refused a request.
#[derive(Debug, Clone, Copy, PartialEq, Eq, Structural)]
pub enum RegistryError {
    /// No policy has that name ("Policy not found").
    NotFound,
    /// The mode is neither `audit` nor `enforce`.
    InvalidMode,
}

/// The registered policies, in order of registration.
#[derive(Debug)]
pub struct PolicyRegistry {
    pub policies: Vec<PolicyLifecycle>,
}

/// `j` is the first registered policy named `name`.
pub open spec fn first_named(ps: Seq<PolicyLifecycle>, name: Seq<char>, j: int) -> bool {
    &&& 0 <= j < ps.len()
    &&& ps[j].policy.metadata.name@ == name
    &&& forall|k: int| 0 <= k < j ==> ps[k].policy.metadata.name@ != name
}

/// Some registered policy is named `name`.
pub open spec fn has_named(ps: Seq<PolicyLifecycle>, name: Seq<char>) -> bool {
    exists|j: int| 0 <= j < ps.len() && ps[j].policy.metadata.name@ == name
}

impl PolicyRegistry {
    pub fn new() -> (r: Self)
        ensures
            r.policies@.len() == 0,
    {
        PolicyRegistry { policies: Vec::new() }
    }

    /// The position of the first policy named `name`.
    pub fn find(&self, name: &str) -> (r: Option<usize>)
        ensures
            match r {
                Some(j) => first_named(self.policies@, name@, j as int),
                None => !has_named(self.policies@, name@),
            },
    {
        let mut j: usize = 0;
        while j < self.policies.len()
            invariant
                j <= self.policies@.len(),
                forall|k: int| 0 <= k < j ==> self.policies@[k].policy.metadata.name@ != name@,
            decreases self.policies.len() - j,
        {
            if str_eq(self.policies[j].policy.metadata.name.as_str(), name) {
                return Some(j);
            }
            j = j + 1;
        }
        None
    }

    /// Registers a policy, in audit mode, after the others.
    pub fn create(&mut self, policy: TrustPolicy)
        ensures
            final(self).policies@.len() == old(self).policies@.len() + 1,
            forall|k: int| 0 <= k < old(self).policies@.len() ==> #[trigger] final(self).policies@[k] == old(self).policies@[k],
            final(self).policies@.last().policy == policy,
            final(self).policies@.last().current_mode == PolicyMode::Audit,
    {
        self.policies.push(PolicyLifecycle::new(policy));
    }

    /// Replaces the first policy named `name` with `policy`, in audit mode.
    pub fn update(&mut self, name: &str, policy: TrustPolicy) -> (r: Result<(), RegistryError>)
        ensures
            !has_named(old(self).policies@, name@) ==> r == Err::<(), RegistryError>(RegistryError::NotFound)
                && final(self).policies@ == old(self).policies@,
            has_named(old(self).policies@, name@) ==> r is Ok && exists|j: int| #[trigger] first_named(old(self).policies@, name@, j)
                && final(self).policies@.len() == old(self).policies@.len()
                && final(self).policies@[j].policy == policy
                && final(self).policies@[j].current_mode == PolicyMode::Audit
                && forall|k: int| 0 <= k < old(self).policies@.len() && k != j ==> final(self).policies@[k] == old(self).policies@[k],
    {
        match self.find(name) {
            None => Err(RegistryError::NotFound),
            Some(j) => {
                self.policies.set(j, PolicyLifecycle::new(policy));
                assert(first_named(old(self).policies@, name@, j as int));
                Ok(())
            },
        }
    }

    /// Removes the first policy named `name`.
    pub fn delete(&mut self, name: &str) -> (r: Result<(), RegistryError>)
        ensures
            !has_named(old(self).policies@, name@) ==> r == Err::<(), RegistryError>(RegistryError::NotFound)
                && final(self).policies@ == old(self).policies@,
            has_named(old(self).policies@, name@) ==> r is Ok && exists|j: int| #[trigger] first_named(old(self).policies@, name@, j)
                && final(self).policies@ == old(self).policies@.remove(j),
    {
        match self.find(name) {
            None => Err(RegistryError::NotFound),
            Some(j) => {
                self.policies.remove(j);
                assert(first_named(old(self).policies@, name@, j as int));
                Ok(())
            },
        }
    }

    /// Sets the mode of the first policy named `name` to the mode `mode`
    /// names; an unknown policy is reported before an unknown mode.
    pub fn set_mode(&mut self, name: &str, mode: &str) -> (r: Result<(), RegistryError>)
        ensures
            !has_named(old(self).policies@, name@) ==> r == Err::<(), RegistryError>(RegistryError::NotFound)
                && final(self).policies@ == old(self).policies@,
            has_named(old(self).policies@, name@) && !(mode@ == "enforce"@ || mode@ == "audit"@) ==>
                r == Err::<(), RegistryError>(RegistryError::InvalidMode) && final(self).policies@ == old(self).policies@,
            has_named(old(self).policies@, name@) && (mode@ == "enforce"@ || mode@ == "audit"@) ==>
                r is Ok && exists|j: int| #[trigger] first_named(old(self).policies@, name@, j)
                && final(self).policies@.len() == old(self).policies@.len()
                && final(self).policies@[j].policy == old(self).policies@[j].policy
                && final(self).policies@[j].current_mode == (if mode@ == "enforce"@ { PolicyMode::Enforce } else { PolicyMode::Audit })
                && forall|k: int| 0 <= k < old(self).policies@.len() && k != j ==> final(self).policies@[k] == old(self).policies@[k],
    {
        match self.find(name) {
            None => Err(RegistryError::NotFound),
            Some(j) => {
                match parse_mode(mode) {
                    None => Err(RegistryError::InvalidMode),
                    Some(m) => {
                        match m {
                            PolicyMode::Enforce => self.policies[j].enforce(),
                            PolicyMode::Audit => self.policies[j].audit(),
                        }
                        assert(first_named(old(self).policies@, name@, j as int));
                        Ok(())
                    },
                }
            },
        }
    }
}

/// After a policy is registered, looking up its name finds a policy of
/// that name, and it is the new one unless an earlier policy shares the
/// name.
pub proof fn lemma_create_then_find(old_ps: Seq<PolicyLifecycle>, new_ps: Seq<PolicyLifecycle>, policy: TrustPolicy)
    requires
        new_ps.len() == old_ps.len() + 1,
        forall|k: int| 0 <= k < old_ps.len() ==> #[trigger] new_ps[k] == old_ps[k],
        new_ps.last().policy == policy,
    ensures
        has_named(new_ps, policy.metadata.name@),
        !has_named(old_ps, policy.metadata.name@) ==> first_named(new_ps, policy.metadata.name@, old_ps.len() as int),
{
    assert(new_ps[old_ps.len() as int].policy.metadata.name@ == policy.metadata.name@);
}

/// When an exception requested at Unix time `now` for `hours` hours
/// expires (saturating at the largest time).
pub open spec fn exception_expiry(now: u64, hours: u64) -> u64 {
    let t = now as int + hours as int * 3600;
    if t > u64::MAX as int { u64::MAX } else { t as u64 }
}

/// The exceptions granted so far, in the order they were granted.
#[derive(Debug)]
pub struct ExceptionRegistry {
    pub exceptions: Vec<TrustException>,
}

/// Position `j` holds the first exception with id `id`.
pub open spec fn first_with_id(es: Seq<TrustException>, id: Seq<char>, j: int) -> bool {
    &&& 0 <= j < es.len()
    &&& es[j].id@ == id
    &&& forall|k: int| 0 <= k < j ==> es[k].id@ != id
}

/// Some exception has id `id`.
pub open spec fn has_id(es: Seq<TrustException>, id: Seq<char>) -> bool {
    exists|j: int| 0 <= j < es.len() && es[j].id@ == id
}

impl ExceptionRegistry {
    pub fn new() -> (r: Self)
        ensures
            r.exceptions@.len() == 0,
    {
        ExceptionRegistry { exceptions: Vec::new() }
    }

    /// Grants the exception a request asks for at Unix time `now`: it
    /// expires `expires_in_hours` hours later and is kept after the others.
    /// Its position is returned.
    pub fn grant(&mut self, req: &CreateExceptionRequest, now: u64) -> (pos: usize)
        requires
            old(self).exceptions@.len() < usize::MAX,
        ensures
            pos == old(self).exceptions@.len(),
            final(self).exceptions@.len() == old(self).exceptions@.len() + 1,
            forall|k: int| 0 <= k < old(self).exceptions@.len() ==> #[trigger] final(self).exceptions@[k] == old(self).exceptions@[k],
            ({
                let e = final(self).exceptions@[pos as int];
                &&& e.policy_name@ == req.policy_name@
                &&& e.reason@ == req.reason@
                &&& e.approved_by@ == req.approved_by@
                &&& e.expires_at == exception_expiry(now, req.expires_in_hours)
                &&& exists|u: u128| e.id@ == #[trigger] crate::ids::uuid_text(u)
            }),
    {
        let expires_at: u64 = if req.expires_in_hours > (u64::MAX - now) / 3600 {
            u64::MAX
        } else {
            now + req.expires_in_hours * 3600
        };
        assert(expires_at == exception_expiry(now, req.expires_in_hours)) by (nonlinear_arith)
            requires
                req.expires_in_hours > (u64::MAX - now) / 3600 ==> expires_at == u64::MAX,
                req.expires_in_hours <= (u64::MAX - now) / 3600 ==> expires_at == now + req.expires_in_hours * 3600,
        ;
        let e = TrustException::new(req.policy_name.as_str(), req.reason.as_str(), expires_at, req.approved_by.as_str());
        let pos = self.exceptions.len();
        self.exceptions.push(e);
        pos
    }

    /// The position of the first exception with id `id`.
    pub fn find(&self, id: &str) -> (r: Option<usize>)
        ensures
            match r {
                Some(j) => first_with_id(self.exceptions@, id@, j as int),
                None => !has_id(self.exceptions@, id@),
            },
    {
        let mut j: usize = 0;
        while j < self.exceptions.len()
            invariant
                j <= self.exceptions@.len(),
                forall|k: int| 0 <= k < j ==> self.exceptions@[k].id@ != id@,
            decreases self.exceptions.len() - j,
        {
            if str_eq(self.exceptions[j].id.as_str(), id) {
                return Some(j);
            }
            j = j + 1;
        }
        None
    }

    /// Revokes the first exception with id `id`; an unknown id is refused.
    pub fn revoke(&mut self, id: &str) -> (r: Result<(), RegistryError>)
        ensures
            !has_id(old(self).exceptions@, id@) ==> r == Err::<(), RegistryError>(RegistryError::NotFound)
                && final(self).exceptions@ == old(self).exceptions@,
            has_id(old(self).exceptions@, id@) ==> r is Ok && exists|j: int| #[trigger] first_with_id(old(self).exceptions@, id@, j)
                && final(self).exceptions@ == old(self).exceptions@.remove(j),
    {
        match self.find(id) {
            None => Err(RegistryError::NotFound),
            Some(j) => {
                self.exceptions.remove(j);
                assert(first_with_id(old(self).exceptions@, id@, j as int));
                Ok(())
            },
        }
    }
}

/// Revoking an exception whose id no other exception shares leaves no
/// exception with that id, so revoking it again is refused.
pub proof fn lemma_revoke_removes_unique_id(es: Seq<TrustException>, id: Seq<char>, j: int)
    requires
        first_with_id(es, id, j),
        forall|k: int| 0 <= k < es.len() && k != j ==> es[k].id@ != id,
    ensures
        !has_id(es.remove(j), id),
{
    if has_id(es.remove(j), id) {
        let w = choose|w: int| 0 <= w < es.remove(j).len() && es.remove(j)[w].id@ == id;
        if w < j {
            assert(es[w].id@ == id);
        } else {
            assert(es[w + 1].id@ == id);
        }
    }
}

} // verus!
