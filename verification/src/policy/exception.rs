//! Time-bound exceptions granted against a policy.

use vstd::prelude::*;

verus! {

/// A time-bound exception to a TrustPolicy.
#[derive(Debug)]
pub struct TrustException {
    /// A fresh UUID, as text.
    pub id: String,
    pub policy_name: String,
    pub reason: String,
    /// Unix seconds after which the exception no longer applies.
    pub expires_at: u64,
    pub approved_by: String,
    /// Unix seconds when the exception was granted.
    pub created_at: u64,
}

impl TrustException {
    /// A new exception with a fresh random id, granted now.
    pub fn new(policy_name: &str, reason: &str, expires_at: u64, approved_by: &str) -> (e: Self)
        ensures
            exists|u: u128| e.id@ == #[trigger] crate::ids::uuid_text(u),
            e.policy_name@ == policy_name@,
            e.reason@ == reason@,
            e.expires_at == expires_at,
            e.approved_by@ == approved_by@,
    {
        let id = crate::ids::new_uuid();
        let text = crate::ids::uuid_string(id);
        assert(text@ == crate::ids::uuid_text(id));
        TrustException {
            id: text,
            policy_name: policy_name.to_owned(),
            reason: reason.to_owned(),
            expires_at,
            approved_by: approved_by.to_owned(),
            created_at: crate::clock::unix_now(),
        }
    }

    /// Whether the exception has expired at Unix time `now`: strictly after
    /// its expiry.
    pub fn expired_at(&self, now: u64) -> (r: bool)
        ensures
            r == (now > self.expires_at),
    {
        now > self.expires_at
    }

    /// Whether the exception has expired by the current time: as
    /// `expired_at` at the time read from the clock, which the contract
    /// does not name; an exception that expires at the largest time never
    /// has.
    pub fn is_expired(&self) -> (r: bool)
        ensures
            r ==> self.expires_at < u64::MAX,
    {
        let now = crate::clock::unix_now();
        self.expired_at(now)
    }
}

} // verus!
