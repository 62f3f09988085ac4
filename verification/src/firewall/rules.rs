//! API-level policy rules.

use vstd::prelude::*;
use crate::firewall::event::{current_utc_hour, event_path, ApiEvent};
use crate::text::{contains_seq, lower_of, str_contains, str_eq, to_lowercase, upper_of};

verus! {

/// An API-level policy rule.
#[derive(Debug)]
pub enum ApiPolicyRule {
    EndpointAllowlist { paths: Vec<String>, methods: Vec<String> },
    EndpointBlocklist { patterns: Vec<String> },
    ProviderBudget { provider: String, max_usd_cents_per_window: u64, window_minutes: u64 },
    RateLimitPerProvider { provider: String, max_requests_per_minute: u32 },
    ContentInspection { detect_pii: bool, detect_secrets: bool, detect_prompt_injection: bool },
    HeaderFilter { allow_headers: Vec<String>, block_headers: Vec<String> },
    CostCap { max_usd_cents_per_month: u64 },
    TimeOfDayRestriction { min_hour_utc: u8, max_hour_utc: u8 },
}

/// The name of a rule's kind.
pub open spec fn api_rule_name(r: ApiPolicyRule) -> Seq<char> {
    match r {
        ApiPolicyRule::EndpointAllowlist { .. } => "endpoint_allowlist"@,
        ApiPolicyRule::EndpointBlocklist { .. } => "endpoint_blocklist"@,
        ApiPolicyRule::ProviderBudget { .. } => "provider_budget"@,
        ApiPolicyRule::RateLimitPerProvider { .. } => "rate_limit_per_provider"@,
        ApiPolicyRule::ContentInspection { .. } => "content_inspection"@,
        ApiPolicyRule::HeaderFilter { .. } => "header_filter"@,
        ApiPolicyRule::CostCap { .. } => "cost_cap"@,
        ApiPolicyRule::TimeOfDayRestriction { .. } => "time_of_day_restriction"@,
    }
}

/// Some string of `v` has the text `s`.
pub open spec fn has_text(v: Seq<String>, s: Seq<char>) -> bool {
    exists|i: int| 0 <= i < v.len() && v[i]@ == s
}

/// Some pattern of `patterns` occurs in `s`.
pub open spec fn any_occurs(patterns: Seq<String>, s: Seq<char>) -> bool {
    exists|i: int| 0 <= i < patterns.len() && contains_seq(s, #[trigger] patterns[i]@)
}

/// The body carries something shaped like a secret key or token.
pub open spec fn has_secret(body: Seq<char>) -> bool {
    contains_seq(body, "sk-"@) || contains_seq(body, "sk-proj-"@) || contains_seq(body, "ghp_"@)
        || contains_seq(body, "github_pat_"@)
}

/// Header `k` is one of `blocked`, compared in lowercase.
pub open spec fn header_blocked(k: Seq<char>, blocked: Seq<String>) -> bool {
    exists|j: int| 0 <= j < blocked.len() && lower_of(#[trigger] blocked[j]@) == lower_of(k)
}

/// Some header of the event is one of `blocked`, compared in lowercase.
pub open spec fn any_header_blocked(headers: Seq<(String, String)>, blocked: Seq<String>) -> bool {
    exists|i: int| 0 <= i < headers.len() && header_blocked(#[trigger] headers[i].0@, blocked)
}

/// For a header filter, whether the event carries one of its blocked
/// headers; false for every other rule.
pub open spec fn blocked_header_hit(r: ApiPolicyRule, e: ApiEvent) -> bool {
    match r {
        ApiPolicyRule::HeaderFilter { block_headers, .. } => any_header_blocked(e.headers@, block_headers@),
        _ => false,
    }
}

/// Whether a rule matches (that is, would block) an event at UTC hour
/// `hour`. Budget and rate rules always match: the engine tracks them.
pub open spec fn rule_matches(r: ApiPolicyRule, e: ApiEvent, hour: u8) -> bool {
    match r {
        ApiPolicyRule::EndpointAllowlist { paths, methods } =>
            !(has_text(paths@, event_path(e)) && has_text(methods@, upper_of(e.method@))),
        ApiPolicyRule::EndpointBlocklist { patterns } => any_occurs(patterns@, event_path(e)),
        ApiPolicyRule::ProviderBudget { .. } => true,
        ApiPolicyRule::RateLimitPerProvider { .. } => true,
        ApiPolicyRule::ContentInspection { detect_secrets, .. } => detect_secrets && has_secret(e.body@),
        ApiPolicyRule::HeaderFilter { .. } => blocked_header_hit(r, e),
        ApiPolicyRule::CostCap { .. } => false,
        ApiPolicyRule::TimeOfDayRestriction { min_hour_utc, max_hour_utc } => hour < min_hour_utc || hour > max_hour_utc,
    }
}

fn contains_string(v: &Vec<String>, s: &str) -> (r: bool)
    ensures
        r == has_text(v@, s@),
{
    let mut i: usize = 0;
    while i < v.len()
        invariant
            i <= v@.len(),
            forall|k: int| 0 <= k < i ==> v@[k]@ != s@,
        decreases v.len() - i,
    {
        if str_eq(v[i].as_str(), s) {
            return true;
        }
        i = i + 1;
    }
    false
}

fn any_pattern_occurs(patterns: &Vec<String>, s: &str) -> (r: bool)
    ensures
        r == any_occurs(patterns@, s@),
{
    let mut i: usize = 0;
    while i < patterns.len()
        invariant
            i <= patterns@.len(),
            forall|k: int| 0 <= k < i ==> !contains_seq(s@, #[trigger] patterns@[k]@),
        decreases patterns.len() - i,
    {
        if str_contains(s, patterns[i].as_str()) {
            return true;
        }
        i = i + 1;
    }
    false
}

/// Whether header `k` is one of `blocked`, compared in lowercase.
pub fn is_header_blocked(k: &str, blocked: &Vec<String>) -> (r: bool)
    ensures
        r == header_blocked(k@, blocked@),
{
    let lk = to_lowercase(k);
    let mut j: usize = 0;
    while j < blocked.len()
        invariant
            j <= blocked@.len(),
            lk@ == lower_of(k@),
            forall|q: int| 0 <= q < j ==> lower_of(#[trigger] blocked@[q]@) != lower_of(k@),
        decreases blocked.len() - j,
    {
        let lb = to_lowercase(blocked[j].as_str());
        if str_eq(lb.as_str(), lk.as_str()) {
            return true;
        }
        j = j + 1;
    }
    false
}

impl ApiPolicyRule {
    /// The name of the rule's kind, in snake case.
    pub fn rule_name(&self) -> (n: &'static str)
        ensures
            n@ == api_rule_name(*self),
    {
        match self {
            ApiPolicyRule::EndpointAllowlist { .. } => "endpoint_allowlist",
            ApiPolicyRule::EndpointBlocklist { .. } => "endpoint_blocklist",
            ApiPolicyRule::ProviderBudget { .. } => "provider_budget",
            ApiPolicyRule::RateLimitPerProvider { .. } => "rate_limit_per_provider",
            ApiPolicyRule::ContentInspection { .. } => "content_inspection",
            ApiPolicyRule::HeaderFilter { .. } => "header_filter",
            ApiPolicyRule::CostCap { .. } => "cost_cap",
            ApiPolicyRule::TimeOfDayRestriction { .. } => "time_of_day_restriction",
        }
    }

    /// Whether the rule matches (would block) the event at UTC hour `hour`.
    pub fn matches_at(&self, event: &ApiEvent, hour: u8) -> (r: bool)
        ensures
            r == rule_matches(*self, *event, hour),
    {
        match self {
            ApiPolicyRule::EndpointAllowlist { paths, methods } => {
                let path = event.path_or_empty();
                let method = event.method_upper();
                !(contains_string(paths, path.as_str()) && contains_string(methods, method.as_str()))
            },
            ApiPolicyRule::EndpointBlocklist { patterns } => {
                let path = event.path_or_empty();
                any_pattern_occurs(patterns, path.as_str())
            },
            ApiPolicyRule::ProviderBudget { .. } | ApiPolicyRule::RateLimitPerProvider { .. } => true,
            ApiPolicyRule::ContentInspection { detect_secrets, .. } => {
                if *detect_secrets {
                    let body = event.body.as_str();
                    if str_contains(body, "sk-") || str_contains(body, "sk-proj-") || str_contains(body, "ghp_")
                        || str_contains(body, "github_pat_") {
                        return true;
                    }
                }
                false
            },
            ApiPolicyRule::HeaderFilter { .. } => self.matches_any_blocked_header(event),
            ApiPolicyRule::CostCap { .. } => false,
            ApiPolicyRule::TimeOfDayRestriction { min_hour_utc, max_hour_utc } => hour < *min_hour_utc || hour > *max_hour_utc,
        }
    }

    /// Whether the rule matches (would block) the event now.
    pub fn matches(&self, event: &ApiEvent) -> (r: bool)
        ensures
            exists|h: u8| h < 24 && r == #[trigger] rule_matches(*self, *event, h),
            !(*self is TimeOfDayRestriction) ==> r == rule_matches(*self, *event, 0),
    {
        let hour = current_utc_hour();
        self.matches_at(event, hour)
    }

    /// For a header filter, whether the event carries a blocked header
    /// (names compared in lowercase); false for every other rule.
    pub fn matches_any_blocked_header(&self, event: &ApiEvent) -> (r: bool)
        ensures
            r == blocked_header_hit(*self, *event),
    {
        match self {
            ApiPolicyRule::HeaderFilter { block_headers, .. } => {
                let mut i: usize = 0;
                while i < event.headers.len()
                    invariant
                        i <= event.headers@.len(),
                        blocked_header_hit(*self, *event) == any_header_blocked(event.headers@, block_headers@),
                        forall|q: int| 0 <= q < i ==> !header_blocked(#[trigger] event.headers@[q].0@, block_headers@),
                    decreases event.headers.len() - i,
                {
                    if is_header_blocked(event.headers[i].0.as_str(), block_headers) {
                        assert(header_blocked(event.headers@[i as int].0@, block_headers@));
                        return true;
                    }
                    i = i + 1;
                }
                false
            },
            _ => false,
        }
    }
}


/// An hour restriction blocks exactly outside its window, both ends
/// permitted: at UTC hour `h` it matches (blocks) the call when `h` is
/// before `min_hour_utc` or after `max_hour_utc`, and lets it through at
/// every hour from `min_hour_utc` to `max_hour_utc` inclusive, in
/// particular at `max_hour_utc` itself.
pub proof fn lemma_hour_window_is_inclusive(min_hour_utc: u8, max_hour_utc: u8, e: ApiEvent, h: u8)
    ensures
        rule_matches(ApiPolicyRule::TimeOfDayRestriction { min_hour_utc, max_hour_utc }, e, h)
            <==> (h < min_hour_utc || h > max_hour_utc),
        min_hour_utc <= h <= max_hour_utc ==> !rule_matches(ApiPolicyRule::TimeOfDayRestriction { min_hour_utc, max_hour_utc }, e, h),
        min_hour_utc <= max_hour_utc ==> !rule_matches(ApiPolicyRule::TimeOfDayRestriction { min_hour_utc, max_hour_utc }, e, max_hour_utc),
        min_hour_utc <= max_hour_utc ==> !rule_matches(ApiPolicyRule::TimeOfDayRestriction { min_hour_utc, max_hour_utc }, e, min_hour_utc),
{
}

} // verus!
