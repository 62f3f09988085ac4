//! API call events and the proxy's decisions about them.

use vstd::prelude::*;
use crate::decision::FirewallDecision;

verus! {

/// The current hour of the day (0-23) in UTC at Unix time `secs`.
pub open spec fn utc_hour(secs: u64) -> u8 {
    ((secs / 3600) % 24) as u8
}

/// The hour of the day (0-23) in UTC at Unix time `secs`.
pub fn utc_hour_at(secs: u64) -> (h: u8)
    ensures
        h == utc_hour(secs),
        h < 24,
{
    ((secs / 3600) % 24) as u8
}

/// The current hour of the day (0-23) in UTC.
pub fn current_utc_hour() -> (h: u8)
    ensures
        h < 24,
{
    utc_hour_at(crate::clock::unix_now())
}

/// What `url::Url::parse` followed by `path()` makes of a URL: its path,
/// or nothing when the URL does not parse.
pub uninterp spec fn url_path_of(url: Seq<char>) -> Option<Seq<char>>;

/// Parses a URL with `url::Url::parse` and takes its path
/// (`Url::path`). The result is named by `url_path_of`; the URL grammar is
/// not restated here.
#[verifier::external_body]
fn parse_url_path(url: &str) -> (r: Option<String>)
    ensures
        match r {
            Some(p) => url_path_of(url@) == Some(p@),
            None => url_path_of(url@) is None,
        },
{
    match url::Url::parse(url) {
        Ok(u) => Some(u.path().to_string()),
        Err(_) => None,
    }
}

/// A normalised API call made by an agent.
#[derive(Debug)]
pub struct ApiEvent {
    pub id: String,
    pub method: String,
    pub url: String,
    pub headers: Vec<(String, String)>,
    pub body: String,
    pub provider: String,
    pub agent_id: String,
    pub timestamp: u64,
}

/// The path of an event's URL, or the empty text when it has none.
pub open spec fn event_path(e: ApiEvent) -> Seq<char> {
    match url_path_of(e.url@) {
        Some(p) => p,
        None => Seq::empty(),
    }
}

impl ApiEvent {
    /// The path of the event's URL, if the URL parses.
    pub fn path(&self) -> (r: Option<String>)
        ensures
            match r {
                Some(p) => url_path_of(self.url@) == Some(p@),
                None => url_path_of(self.url@) is None,
            },
    {
        parse_url_path(self.url.as_str())
    }

    /// The path, or the empty text.
    pub fn path_or_empty(&self) -> (r: String)
        ensures
            r@ == event_path(*self),
    {
        match self.path() {
            Some(p) => p,
            None => String::new(),
        }
    }

    /// The method in uppercase.
    pub fn method_upper(&self) -> (r: String)
        ensures
            r@ == crate::text::upper_of(self.method@),
    {
        crate::text::to_uppercase(self.method.as_str())
    }
}

/// What to do with an API call.
#[derive(Debug)]
pub enum ProxyDecision {
    Pass,
    Block { reason: String, rule_id: Option<String> },
    PendingHITL { approval_id: String, reason: String },
    LogOnly,
}

impl ProxyDecision {
    /// Passed and log-only calls go through.
    pub fn is_allowed(&self) -> (r: bool)
        ensures
            r == (*self is Pass || *self is LogOnly),
    {
        match self {
            ProxyDecision::Pass | ProxyDecision::LogOnly => true,
            _ => false,
        }
    }

    /// Blocked calls and calls held for a human do not go through.
    pub fn is_blocked(&self) -> (r: bool)
        ensures
            r == (*self is Block || *self is PendingHITL),
    {
        match self {
            ProxyDecision::Block { .. } | ProxyDecision::PendingHITL { .. } => true,
            _ => false,
        }
    }

    /// Calls held for a human.
    pub fn is_pending(&self) -> (r: bool)
        ensures
            r == (*self is PendingHITL),
    {
        match self {
            ProxyDecision::PendingHITL { .. } => true,
            _ => false,
        }
    }
}

/// Every decision either lets the call through or stops it, never both.
pub proof fn lemma_decision_allowed_xor_blocked(d: ProxyDecision)
    ensures
        (d is Pass || d is LogOnly) != (d is Block || d is PendingHITL),
        d is PendingHITL ==> (d is Block || d is PendingHITL),
{
}

/// The proxy decision standing for a firewall decision.
pub open spec fn from_firewall(fd: FirewallDecision) -> ProxyDecision {
    match fd {
        FirewallDecision::Pass => ProxyDecision::Pass,
        FirewallDecision::Block { reason, policy_id } => ProxyDecision::Block { reason, rule_id: policy_id },
        FirewallDecision::PendingHITL { approval_id, reason } => ProxyDecision::PendingHITL { approval_id, reason },
    }
}

impl From<FirewallDecision> for ProxyDecision {
    fn from(fd: FirewallDecision) -> (d: Self) {
        match fd {
            FirewallDecision::Pass => ProxyDecision::Pass,
            FirewallDecision::Block { reason, policy_id } => ProxyDecision::Block { reason, rule_id: policy_id },
            FirewallDecision::PendingHITL { approval_id, reason } => ProxyDecision::PendingHITL { approval_id, reason },
        }
    }
}

impl vstd::std_specs::convert::FromSpecImpl<FirewallDecision> for ProxyDecision {
    open spec fn obeys_from_spec() -> bool {
        true
    }

    open spec fn from_spec(fd: FirewallDecision) -> ProxyDecision {
        from_firewall(fd)
    }
}

} // verus!
