//! The proxy engine: checks an API call against every rule, stateless
//! rules first, then the rate and spending limits it keeps state for.
//!
//! Times are milliseconds of a monotonic clock. The engine's state records,
//! per provider, the times of recent requests and the spending in the
//! current window, and the spending of the current month.

use vstd::prelude::*;
use crate::firewall::event::{current_utc_hour, event_path, ApiEvent, ProxyDecision};
use crate::firewall::rules::{blocked_header_hit, header_blocked, is_header_blocked, rule_matches, ApiPolicyRule};
use crate::json::{push_decimal, push_str};
use crate::keyed::{key_at, key_pos, lemma_first_key, lemma_key_pos, put};
use crate::text::{decimal, str_eq, string_of, upper_of};

verus! {

/// The state the engine keeps for its stateful rules.
#[derive(Debug)]
pub struct EngineState {
    /// Per provider, the times of its requests in the last minute.
    pub request_times: Vec<(String, Vec<u64>)>,
    /// Per provider, the cents spent in its budget window and when the
    /// window started.
    pub provider_spend: Vec<(String, (u64, u64))>,
    /// The cents spent this month and when the month started.
    pub monthly_spend: Option<(u64, u64)>,
}

/// The engine's state seen as plain values.
pub struct StateView {
    pub rate: Seq<(Seq<char>, Seq<u64>)>,
    pub spend: Seq<(Seq<char>, (u64, u64))>,
    pub monthly: Option<(u64, u64)>,
}

pub open spec fn state_view(s: EngineState) -> StateView {
    StateView {
        rate: Seq::new(s.request_times@.len(), |i: int| (s.request_times@[i].0@, s.request_times@[i].1@)),
        spend: Seq::new(s.provider_spend@.len(), |i: int| (s.provider_spend@[i].0@, s.provider_spend@[i].1)),
        monthly: s.monthly_spend,
    }
}

/// Milliseconds from `t` to `now`, zero if `t` is later.
pub open spec fn elapsed_ms(now: u64, t: u64) -> int {
    if now >= t { now - t } else { 0 }
}

/// The times of `times` less than a minute before `now`, in order.
pub open spec fn recent(times: Seq<u64>, now: u64) -> Seq<u64>
    decreases times.len(),
{
    if times.len() == 0 {
        Seq::empty()
    } else {
        let rest = recent(times.drop_last(), now);
        if elapsed_ms(now, times.last()) < 60_000 { rest.push(times.last()) } else { rest }
    }
}

/// The request times of provider `k` after a request at `now`.
pub open spec fn rate_times(rate: Seq<(Seq<char>, Seq<u64>)>, k: Seq<char>, now: u64) -> Seq<u64> {
    let p = key_pos(rate, k);
    recent(if p >= 0 { rate[p].1 } else { Seq::empty() }, now).push(now)
}

/// `m * 60`, saturating at the largest `u64`.
pub open spec fn minutes_to_secs(m: u64) -> int {
    if m * 60 > u64::MAX { u64::MAX as int } else { m * 60 }
}

/// `a + b`, saturating at the largest `u64`.
pub open spec fn sat_add(a: u64, b: u64) -> u64 {
    if a + b > u64::MAX { u64::MAX } else { (a + b) as u64 }
}

/// A spending window after spending `cost` at `now`: the window restarts
/// at `now` with nothing spent once `window_ms` have passed since it
/// began, then `cost` is added (saturating).
pub open spec fn spend_after(cur: (u64, u64), now: u64, window_ms: int, cost: u64) -> (u64, u64) {
    let base = if elapsed_ms(now, cur.1) >= window_ms { (0u64, now) } else { cur };
    (sat_add(base.0, cost), base.1)
}

/// The spending window of provider `k` after spending `cost` at `now`.
pub open spec fn provider_spend_after(spend: Seq<(Seq<char>, (u64, u64))>, k: Seq<char>, now: u64, window_minutes: u64, cost: u64) -> (u64, u64) {
    let p = key_pos(spend, k);
    spend_after(if p >= 0 { spend[p].1 } else { (0u64, now) }, now, minutes_to_secs(window_minutes) * 1000, cost)
}

/// Thirty days in milliseconds.
pub open spec fn month_ms() -> int {
    2_592_000_000
}

/// A block: its reason and the name of the rule.
pub type Block = (Seq<char>, Seq<char>);

pub open spec fn rate_reason(provider: Seq<char>, count: nat, max: u32) -> Seq<char> {
    "Rate limit exceeded for "@ + provider + ": "@ + decimal(count) + " requests/min > "@ + decimal(max as nat) + " allowed"@
}

pub open spec fn budget_reason(provider: Seq<char>, spent: u64, max: u64, window_minutes: u64) -> Seq<char> {
    "Provider budget exceeded for "@ + provider + ": "@ + decimal(spent as nat) + "¢ > "@ + decimal(max as nat) + "¢ per "@
        + decimal(window_minutes as nat) + "min"@
}

pub open spec fn cap_reason(spent: u64, max: u64) -> Seq<char> {
    "Monthly cost cap exceeded: "@ + decimal(spent as nat) + "¢ > "@ + decimal(max as nat) + "¢"@
}

/// What one stateful rule does to the state for an event costing `cost`
/// cents at `now`, and whether it blocks: a rate limit counts the request
/// of its provider and blocks above its maximum per minute; a provider
/// budget or the monthly cap adds a non-zero cost to its window and blocks
/// above its maximum. Other rules do nothing here.
pub open spec fn stateful_step(s: StateView, r: ApiPolicyRule, e: ApiEvent, cost: u64, now: u64) -> (StateView, Option<Block>) {
    match r {
        ApiPolicyRule::RateLimitPerProvider { provider, max_requests_per_minute } => if e.provider@ == provider@ {
            let times = rate_times(s.rate, provider@, now);
            (StateView { rate: put(s.rate, provider@, times), ..s },
                if times.len() > max_requests_per_minute {
                    Some((rate_reason(provider@, times.len(), max_requests_per_minute), "rate_limit_per_provider"@))
                } else {
                    None
                })
        } else {
            (s, None)
        },
        ApiPolicyRule::ProviderBudget { provider, max_usd_cents_per_window, window_minutes } => if e.provider@ == provider@ && cost > 0 {
            let w = provider_spend_after(s.spend, provider@, now, window_minutes, cost);
            (StateView { spend: put(s.spend, provider@, w), ..s },
                if w.0 > max_usd_cents_per_window {
                    Some((budget_reason(provider@, w.0, max_usd_cents_per_window, window_minutes), "provider_budget"@))
                } else {
                    None
                })
        } else {
            (s, None)
        },
        ApiPolicyRule::CostCap { max_usd_cents_per_month } => if cost > 0 {
            let w = spend_after(match s.monthly { Some(m) => m, None => (0u64, now) }, now, month_ms(), cost);
            (StateView { monthly: Some(w), ..s },
                if w.0 > max_usd_cents_per_month {
                    Some((cap_reason(w.0, max_usd_cents_per_month), "cost_cap"@))
                } else {
                    None
                })
        } else {
            (s, None)
        },
        _ => (s, None),
    }
}

/// The stateful rules from `rules[i]` on, in order, up to the first that
/// blocks.
pub open spec fn run_stateful(s: StateView, rules: Seq<ApiPolicyRule>, i: int, e: ApiEvent, cost: u64, now: u64) -> (StateView, Option<Block>)
    decreases rules.len() - i,
{
    if i < 0 || i >= rules.len() {
        (s, None)
    } else {
        let (s1, b) = stateful_step(s, rules[i], e, cost, now);
        if b is Some { (s1, b) } else { run_stateful(s1, rules, i + 1, e, cost, now) }
    }
}

/// The keys of `headers` that are blocked, in order.
pub open spec fn blocked_keys(headers: Seq<(String, String)>, blocked: Seq<String>) -> Seq<Seq<char>>
    decreases headers.len(),
{
    if headers.len() == 0 {
        Seq::empty()
    } else {
        let rest = blocked_keys(headers.drop_last(), blocked);
        if header_blocked(headers.last().0@, blocked) { rest.push(headers.last().0@) } else { rest }
    }
}

/// `items` joined by `sep`.
pub open spec fn joined(items: Seq<Seq<char>>, sep: Seq<char>) -> Seq<char>
    decreases items.len(),
{
    if items.len() == 0 {
        Seq::empty()
    } else if items.len() == 1 {
        items[0]
    } else {
        joined(items.drop_last(), sep) + sep + items.last()
    }
}

/// A stateless rule that blocks the event at UTC hour `hour`: an endpoint
/// allowlist or blocklist, content inspection or a time-of-day
/// restriction that matches, or a header filter whose blocked headers the
/// event carries.
pub open spec fn stateless_hit(r: ApiPolicyRule, e: ApiEvent, hour: u8) -> bool {
    match r {
        ApiPolicyRule::EndpointAllowlist { .. } => rule_matches(r, e, hour),
        ApiPolicyRule::EndpointBlocklist { .. } => rule_matches(r, e, hour),
        ApiPolicyRule::ContentInspection { .. } => rule_matches(r, e, hour),
        ApiPolicyRule::HeaderFilter { .. } => blocked_header_hit(r, e),
        ApiPolicyRule::TimeOfDayRestriction { .. } => rule_matches(r, e, hour),
        _ => false,
    }
}

/// Why a stateless rule blocks, and its name.
pub open spec fn stateless_block(r: ApiPolicyRule, e: ApiEvent, hour: u8) -> Block {
    match r {
        ApiPolicyRule::EndpointAllowlist { .. } =>
            ("Endpoint not in allowlist: "@ + upper_of(e.method@) + " "@ + event_path(e), "endpoint_allowlist"@),
        ApiPolicyRule::EndpointBlocklist { .. } =>
            ("Endpoint matches blocklist pattern: "@ + event_path(e), "endpoint_blocklist"@),
        ApiPolicyRule::ContentInspection { .. } =>
            ("Request body contains sensitive data (secret/PII detected)"@, "content_inspection"@),
        ApiPolicyRule::HeaderFilter { block_headers, .. } =>
            ("Blocked headers present: "@ + joined(blocked_keys(e.headers@, block_headers@), ", "@), "header_filter"@),
        ApiPolicyRule::TimeOfDayRestriction { min_hour_utc, max_hour_utc } =>
            ("Outside permitted hours: "@ + decimal(hour as nat) + " UTC not in "@ + decimal(min_hour_utc as nat) + "-"@
                + decimal(max_hour_utc as nat) + " UTC"@, "time_of_day_restriction"@),
        _ => (Seq::empty(), Seq::empty()),
    }
}

/// The first stateless rule from `rules[i]` on that blocks, if any.
pub open spec fn first_stateless(rules: Seq<ApiPolicyRule>, i: int, e: ApiEvent, hour: u8) -> Option<Block>
    decreases rules.len() - i,
{
    if i < 0 || i >= rules.len() {
        None
    } else if stateless_hit(rules[i], e, hour) {
        Some(stateless_block(rules[i], e, hour))
    } else {
        first_stateless(rules, i + 1, e, hour)
    }
}

/// What the engine makes of an event costing `cost` cents at `now`, at UTC
/// hour `hour`: the first blocking stateless rule blocks with the state
/// untouched; otherwise the stateful rules run in order.
pub open spec fn engine_eval(s: StateView, rules: Seq<ApiPolicyRule>, e: ApiEvent, cost: u64, now: u64, hour: u8) -> (StateView, Option<Block>) {
    match first_stateless(rules, 0, e, hour) {
        Some(b) => (s, Some(b)),
        None => run_stateful(s, rules, 0, e, cost, now),
    }
}

/// `d` is the decision for the outcome `b`: a pass, or a block with that
/// reason and rule name.
pub open spec fn decision_for(d: ProxyDecision, b: Option<Block>) -> bool {
    match b {
        None => d is Pass,
        Some(blk) => match d {
            ProxyDecision::Block { reason, rule_id } => reason@ == blk.0 && (match rule_id {
                Some(id) => id@ == blk.1,
                None => false,
            }),
            _ => false,
        },
    }
}

fn find_rate(v: &Vec<(String, Vec<u64>)>, k: &String) -> (r: Option<usize>)
    ensures
        match r {
            Some(j) => key_at(state_view_rate(v@), k@, j as int),
            None => forall|j: int| 0 <= j < v@.len() ==> v@[j].0@ != k@,
        },
{
    let mut j: usize = 0;
    while j < v.len()
        invariant
            j <= v@.len(),
            forall|q: int| 0 <= q < j ==> v@[q].0@ != k@,
        decreases v.len() - j,
    {
        if str_eq(v[j].0.as_str(), k.as_str()) {
            return Some(j);
        }
        j = j + 1;
    }
    None
}

fn find_spend(v: &Vec<(String, (u64, u64))>, k: &String) -> (r: Option<usize>)
    ensures
        match r {
            Some(j) => key_at(state_view_spend(v@), k@, j as int),
            None => forall|j: int| 0 <= j < v@.len() ==> v@[j].0@ != k@,
        },
{
    let mut j: usize = 0;
    while j < v.len()
        invariant
            j <= v@.len(),
            forall|q: int| 0 <= q < j ==> v@[q].0@ != k@,
        decreases v.len() - j,
    {
        if str_eq(v[j].0.as_str(), k.as_str()) {
            return Some(j);
        }
        j = j + 1;
    }
    None
}

pub open spec fn state_view_rate(v: Seq<(String, Vec<u64>)>) -> Seq<(Seq<char>, Seq<u64>)> {
    Seq::new(v.len(), |i: int| (v[i].0@, v[i].1@))
}

pub open spec fn state_view_spend(v: Seq<(String, (u64, u64))>) -> Seq<(Seq<char>, (u64, u64))> {
    Seq::new(v.len(), |i: int| (v[i].0@, v[i].1))
}

fn recent_times(times: &Vec<u64>, now: u64) -> (r: Vec<u64>)
    ensures
        r@ == recent(times@, now),
{
    let mut r: Vec<u64> = Vec::new();
    let mut i: usize = 0;
    while i < times.len()
        invariant
            i <= times@.len(),
            r@ == recent(times@.take(i as int), now),
        decreases times.len() - i,
    {
        assert(times@.take(i + 1).drop_last() =~= times@.take(i as int));
        assert(times@.take(i + 1).last() == times@[i as int]);
        if now.saturating_sub(times[i]) < 60_000 {
            r.push(times[i]);
        }
        i = i + 1;
    }
    assert(times@.take(times@.len() as int) =~= times@);
    r
}

fn rate_step(state: &mut EngineState, provider: &String, max: u32, now: u64) -> (r: Option<String>)
    ensures
        ({
            let times = rate_times(state_view(*old(state)).rate, provider@, now);
            &&& state_view(*final(state)) == (StateView { rate: put(state_view(*old(state)).rate, provider@, times), ..state_view(*old(state)) })
            &&& (r is Some <==> times.len() > max)
            &&& (r matches Some(t) ==> t@ == rate_reason(provider@, times.len(), max))
        }),
{
    let ghost sv = state_view(*state);
    let pos = find_rate(&state.request_times, provider);
    let mut kept = match pos {
        Some(j) => recent_times(&state.request_times[j].1, now),
        None => Vec::new(),
    };
    proof {
        match pos {
            Some(j) => { lemma_key_pos(sv.rate, provider@, j as int); },
            None => { assert(!(exists|j: int| 0 <= j < sv.rate.len() && sv.rate[j].0 == provider@)); },
        }
    }
    kept.push(now);
    let ghost times = rate_times(sv.rate, provider@, now);
    assert(kept@ =~= times);
    let count = kept.len();
    match pos {
        Some(j) => {
            state.request_times[j].1 = kept;
        },
        None => {
            state.request_times.push((provider.clone(), kept));
        },
    }
    assert(state_view(*state).rate =~= put(sv.rate, provider@, times));
    assert(state_view(*state) == (StateView { rate: put(sv.rate, provider@, times), ..sv }));
    if count > max as usize {
        let mut v: Vec<char> = Vec::new();
        push_str(&mut v, "Rate limit exceeded for ");
        assert(v@ =~= "Rate limit exceeded for "@);
        push_str(&mut v, provider.as_str());
        push_str(&mut v, ": ");
        push_decimal(&mut v, count as u64);
        push_str(&mut v, " requests/min > ");
        push_decimal(&mut v, max as u64);
        push_str(&mut v, " allowed");
        Some(string_of(&v))
    } else {
        None
    }
}

fn spend_window(cur: (u64, u64), now: u64, window_ms: u128, cost: u64) -> (r: (u64, u64))
    ensures
        r == spend_after(cur, now, window_ms as int, cost),
{
    let elapsed = now.saturating_sub(cur.1);
    let base = if elapsed as u128 >= window_ms { (0u64, now) } else { cur };
    (base.0.saturating_add(cost), base.1)
}

fn window_millis(window_minutes: u64) -> (r: u128)
    ensures
        r == minutes_to_secs(window_minutes) * 1000,
{
    let secs: u128 = if window_minutes > u64::MAX / 60 { u64::MAX as u128 } else { (window_minutes * 60) as u128 };
    secs * 1000
}

fn budget_step(state: &mut EngineState, provider: &String, max: u64, window_minutes: u64, cost: u64, now: u64) -> (r: Option<String>)
    ensures
        ({
            let w = provider_spend_after(state_view(*old(state)).spend, provider@, now, window_minutes, cost);
            &&& state_view(*final(state)) == (StateView { spend: put(state_view(*old(state)).spend, provider@, w), ..state_view(*old(state)) })
            &&& (r is Some <==> w.0 > max)
            &&& (r matches Some(t) ==> t@ == budget_reason(provider@, w.0, max, window_minutes))
        }),
{
    let ghost sv = state_view(*state);
    let pos = find_spend(&state.provider_spend, provider);
    let cur = match pos {
        Some(j) => state.provider_spend[j].1,
        None => (0u64, now),
    };
    proof {
        match pos {
            Some(j) => { lemma_key_pos(sv.spend, provider@, j as int); },
            None => { assert(!(exists|j: int| 0 <= j < sv.spend.len() && sv.spend[j].0 == provider@)); },
        }
    }
    let w = spend_window(cur, now, window_millis(window_minutes), cost);
    match pos {
        Some(j) => {
            state.provider_spend[j].1 = w;
        },
        None => {
            state.provider_spend.push((provider.clone(), w));
        },
    }
    assert(state_view(*state).spend =~= put(sv.spend, provider@, w));
    assert(state_view(*state).rate =~= sv.rate);
    if w.0 > max {
        let mut v: Vec<char> = Vec::new();
        push_str(&mut v, "Provider budget exceeded for ");
        assert(v@ =~= "Provider budget exceeded for "@);
        push_str(&mut v, provider.as_str());
        push_str(&mut v, ": ");
        push_decimal(&mut v, w.0);
        push_str(&mut v, "¢ > ");
        push_decimal(&mut v, max);
        push_str(&mut v, "¢ per ");
        push_decimal(&mut v, window_minutes);
        push_str(&mut v, "min");
        Some(string_of(&v))
    } else {
        None
    }
}

fn cap_step(state: &mut EngineState, max: u64, cost: u64, now: u64) -> (r: Option<String>)
    ensures
        ({
            let w = spend_after(match state_view(*old(state)).monthly { Some(m) => m, None => (0u64, now) }, now, month_ms(), cost);
            &&& state_view(*final(state)) == (StateView { monthly: Some(w), ..state_view(*old(state)) })
            &&& (r is Some <==> w.0 > max)
            &&& (r matches Some(t) ==> t@ == cap_reason(w.0, max))
        }),
{
    let ghost sv = state_view(*state);
    let cur = match state.monthly_spend {
        Some(m) => m,
        None => (0u64, now),
    };
    let w = spend_window(cur, now, 2_592_000_000u128, cost);
    state.monthly_spend = Some(w);
    assert(state_view(*state).rate =~= sv.rate);
    assert(state_view(*state).spend =~= sv.spend);
    if w.0 > max {
        let mut v: Vec<char> = Vec::new();
        push_str(&mut v, "Monthly cost cap exceeded: ");
        assert(v@ =~= "Monthly cost cap exceeded: "@);
        push_decimal(&mut v, w.0);
        push_str(&mut v, "¢ > ");
        push_decimal(&mut v, max);
        push_str(&mut v, "¢");
        Some(string_of(&v))
    } else {
        None
    }
}

fn stateful_apply(state: &mut EngineState, rule: &ApiPolicyRule, event: &ApiEvent, cost: u64, now: u64) -> (r: Option<String>)
    ensures
        ({
            let (sv, b) = stateful_step(state_view(*old(state)), *rule, *event, cost, now);
            &&& state_view(*final(state)) == sv
            &&& (r is Some <==> b is Some)
            &&& (r matches Some(t) ==> (b matches Some(blk) && t@ == blk.0))
        }),
{
    match rule {
        ApiPolicyRule::RateLimitPerProvider { provider, max_requests_per_minute } => {
            if str_eq(event.provider.as_str(), provider.as_str()) {
                rate_step(state, provider, *max_requests_per_minute, now)
            } else {
                None
            }
        },
        ApiPolicyRule::ProviderBudget { provider, max_usd_cents_per_window, window_minutes } => {
            if str_eq(event.provider.as_str(), provider.as_str()) && cost > 0 {
                budget_step(state, provider, *max_usd_cents_per_window, *window_minutes, cost, now)
            } else {
                None
            }
        },
        ApiPolicyRule::CostCap { max_usd_cents_per_month } => {
            if cost > 0 {
                cap_step(state, *max_usd_cents_per_month, cost, now)
            } else {
                None
            }
        },
        _ => None,
    }
}

fn blocked_header_list(headers: &Vec<(String, String)>, blocked: &Vec<String>) -> (r: String)
    ensures
        r@ == joined(blocked_keys(headers@, blocked@), ", "@),
{
    let mut v: Vec<char> = Vec::new();
    let mut count: usize = 0;
    let mut i: usize = 0;
    while i < headers.len()
        invariant
            i <= headers@.len(),
            count == blocked_keys(headers@.take(i as int), blocked@).len(),
            count <= i,
            v@ == joined(blocked_keys(headers@.take(i as int), blocked@), ", "@),
        decreases headers.len() - i,
    {
        let ghost before = blocked_keys(headers@.take(i as int), blocked@);
        assert(headers@.take(i + 1).drop_last() =~= headers@.take(i as int));
        assert(headers@.take(i + 1).last() == headers@[i as int]);
        let k = headers[i].0.as_str();
        if is_header_blocked(k, blocked) {
            let ghost after = before.push(k@);
            assert(after.drop_last() =~= before);
            if count > 0 {
                push_str(&mut v, ", ");
                push_str(&mut v, k);
            } else {
                push_str(&mut v, k);
                assert(v@ =~= k@);
            }
            count = count + 1;
        }
        i = i + 1;
    }
    assert(headers@.take(headers@.len() as int) =~= headers@);
    string_of(&v)
}

fn stateless_check(rule: &ApiPolicyRule, event: &ApiEvent, hour: u8) -> (r: Option<String>)
    ensures
        r is Some <==> stateless_hit(*rule, *event, hour),
        r matches Some(t) ==> t@ == stateless_block(*rule, *event, hour).0,
{
    match rule {
        ApiPolicyRule::EndpointAllowlist { .. } => {
            if rule.matches_at(event, hour) {
                let mut v: Vec<char> = Vec::new();
                push_str(&mut v, "Endpoint not in allowlist: ");
                assert(v@ =~= "Endpoint not in allowlist: "@);
                let m = event.method_upper();
                push_str(&mut v, m.as_str());
                push_str(&mut v, " ");
                let p = event.path_or_empty();
                push_str(&mut v, p.as_str());
                Some(string_of(&v))
            } else {
                None
            }
        },
        ApiPolicyRule::EndpointBlocklist { .. } => {
            if rule.matches_at(event, hour) {
                let mut v: Vec<char> = Vec::new();
                push_str(&mut v, "Endpoint matches blocklist pattern: ");
                assert(v@ =~= "Endpoint matches blocklist pattern: "@);
                let p = event.path_or_empty();
                push_str(&mut v, p.as_str());
                Some(string_of(&v))
            } else {
                None
            }
        },
        ApiPolicyRule::ContentInspection { .. } => {
            if rule.matches_at(event, hour) {
                Some("Request body contains sensitive data (secret/PII detected)".to_owned())
            } else {
                None
            }
        },
        ApiPolicyRule::HeaderFilter { block_headers, .. } => {
            if rule.matches_any_blocked_header(event) {
                let mut v: Vec<char> = Vec::new();
                push_str(&mut v, "Blocked headers present: ");
                assert(v@ =~= "Blocked headers present: "@);
                let list = blocked_header_list(&event.headers, block_headers);
                push_str(&mut v, list.as_str());
                Some(string_of(&v))
            } else {
                None
            }
        },
        ApiPolicyRule::TimeOfDayRestriction { min_hour_utc, max_hour_utc } => {
            if rule.matches_at(event, hour) {
                let mut v: Vec<char> = Vec::new();
                push_str(&mut v, "Outside permitted hours: ");
                assert(v@ =~= "Outside permitted hours: "@);
                push_decimal(&mut v, hour as u64);
                push_str(&mut v, " UTC not in ");
                push_decimal(&mut v, *min_hour_utc as u64);
                push_str(&mut v, "-");
                push_decimal(&mut v, *max_hour_utc as u64);
                push_str(&mut v, " UTC");
                Some(string_of(&v))
            } else {
                None
            }
        },
        _ => None,
    }
}

/// The proxy engine: its rules, in order, the state of its stateful rules,
/// and the moment it was made, from which its monotonic times count.
#[derive(Debug)]
pub struct ProxyEngine {
    pub rules: Vec<ApiPolicyRule>,
    pub state: EngineState,
    pub started: std::time::Instant,
}

/// The provider an API URL belongs to: OpenAI, Stripe, GitHub, Slack or
/// AWS, recognised by their hosts, in that order.
pub open spec fn known_provider(url: Seq<char>) -> Option<Seq<char>> {
    if crate::text::contains_seq(url, "api.openai.com"@) {
        Some("openai"@)
    } else if crate::text::contains_seq(url, "api.stripe.com"@) {
        Some("stripe"@)
    } else if crate::text::contains_seq(url, "api.github.com"@) {
        Some("github"@)
    } else if crate::text::contains_seq(url, "slack.com"@) {
        Some("slack"@)
    } else if crate::text::contains_seq(url, "amazonaws.com"@) {
        Some("aws"@)
    } else {
        None
    }
}

/// A state with nothing recorded.
pub open spec fn empty_state(s: StateView) -> bool {
    s.rate.len() == 0 && s.spend.len() == 0 && s.monthly is None
}

impl ProxyEngine {
    /// An engine with these rules and nothing recorded yet.
    pub fn new(rules: Vec<ApiPolicyRule>) -> (e: Self)
        ensures
            e.rules == rules,
            empty_state(state_view(e.state)),
    {
        ProxyEngine {
            rules,
            state: EngineState { request_times: Vec::new(), provider_spend: Vec::new(), monthly_spend: None },
            started: crate::clock::monotonic_now(),
        }
    }

    /// Checks an event costing `cost_usd_cents` cents at millisecond `now_ms`
    /// and UTC hour `hour`: the first stateless rule (in order)
    /// that blocks decides, with the state untouched; otherwise the rate,
    /// budget and cost-cap rules run in order and the first that goes over
    /// its limit blocks; if none does, the call passes.
    pub fn evaluate_with_cost_at(&mut self, event: &ApiEvent, cost_usd_cents: u64, now_ms: u64, hour: u8) -> (d: ProxyDecision)
        ensures
            final(self).rules == old(self).rules,
            ({
                let (sv, b) = engine_eval(state_view(old(self).state), old(self).rules@, *event, cost_usd_cents, now_ms, hour);
                state_view(final(self).state) == sv && decision_for(d, b)
            }),
    {
        let ghost rules = self.rules@;
        let ghost s0 = state_view(self.state);
        let n = self.rules.len();
        let mut i: usize = 0;
        while i < n
            invariant
                n == rules.len(),
                rules == self.rules@,
                self.rules == old(self).rules,
                s0 == state_view(old(self).state),
                state_view(self.state) == s0,
                i <= n,
                first_stateless(rules, 0, *event, hour) == first_stateless(rules, i as int, *event, hour),
            decreases n - i,
        {
            match stateless_check(&self.rules[i], event, hour) {
                Some(reason) => {
                    let name = self.rules[i].rule_name();
                    let ghost b = stateless_block(rules[i as int], *event, hour);
                    assert(b.1 == crate::firewall::rules::api_rule_name(rules[i as int]));
                    return ProxyDecision::Block { reason, rule_id: Some(name.to_owned()) };
                },
                None => {},
            }
            i = i + 1;
        }
        let mut j: usize = 0;
        while j < n
            invariant
                n == rules.len(),
                rules == self.rules@,
                self.rules == old(self).rules,
                s0 == state_view(old(self).state),
                j <= n,
                first_stateless(rules, 0, *event, hour) is None,
                run_stateful(s0, rules, 0, *event, cost_usd_cents, now_ms)
                    == run_stateful(state_view(self.state), rules, j as int, *event, cost_usd_cents, now_ms),
            decreases n - j,
        {
            let ghost sj = state_view(self.state);
            match stateful_apply(&mut self.state, &self.rules[j], event, cost_usd_cents, now_ms) {
                Some(reason) => {
                    let name = self.rules[j].rule_name();
                    let ghost b = stateful_step(sj, rules[j as int], *event, cost_usd_cents, now_ms).1;
                    assert(b matches Some(blk) && blk.1 == crate::firewall::rules::api_rule_name(rules[j as int]));
                    return ProxyDecision::Block { reason, rule_id: Some(name.to_owned()) };
                },
                None => {},
            }
            j = j + 1;
        }
        ProxyDecision::Pass
    }

    /// Checks an event costing `cost_usd_cents` cents now: as
    /// `evaluate_with_cost_at` at the milliseconds elapsed on the monotonic
    /// clock since the engine was made, and at the current UTC hour.
    pub fn evaluate_with_cost(&mut self, event: &ApiEvent, cost_usd_cents: u64) -> (d: ProxyDecision)
        ensures
            final(self).rules == old(self).rules,
            exists|now: u64, hour: u8| hour < 24 && ({
                let (sv, b) = #[trigger] engine_eval(state_view(old(self).state), old(self).rules@, *event, cost_usd_cents, now, hour);
                state_view(final(self).state) == sv && decision_for(d, b)
            }),
    {
        let now = crate::clock::millis_since(&self.started);
        let hour = current_utc_hour();
        self.evaluate_with_cost_at(event, cost_usd_cents, now, hour)
    }

    /// Checks an event with no spending attached: budgets and the cost cap
    /// do not apply.
    pub fn evaluate(&mut self, event: &ApiEvent) -> (d: ProxyDecision)
        ensures
            final(self).rules == old(self).rules,
            exists|now: u64, hour: u8| hour < 24 && ({
                let (sv, b) = #[trigger] engine_eval(state_view(old(self).state), old(self).rules@, *event, 0, now, hour);
                state_view(final(self).state) == sv && decision_for(d, b)
            }),
    {
        self.evaluate_with_cost(event, 0)
    }

    /// The provider an API URL belongs to, if it is a known one.
    pub fn detect_provider(url: &str) -> (r: Option<&'static str>)
        ensures
            match r {
                Some(p) => known_provider(url@) == Some(p@),
                None => known_provider(url@) is None,
            },
    {
        if crate::text::str_contains(url, "api.openai.com") {
            Some("openai")
        } else if crate::text::str_contains(url, "api.stripe.com") {
            Some("stripe")
        } else if crate::text::str_contains(url, "api.github.com") {
            Some("github")
        } else if crate::text::str_contains(url, "slack.com") {
            Some("slack")
        } else if crate::text::str_contains(url, "amazonaws.com") {
            Some("aws")
        } else {
            None
        }
    }
}

/// A call blocked by a stateless rule leaves the engine's state as it was:
/// it counts against no rate limit and spends nothing.
pub proof fn lemma_stateless_block_keeps_state(
    s: StateView,
    rules: Seq<ApiPolicyRule>,
    e: ApiEvent,
    cost: u64,
    now: u64,
    hour: u8,
)
    requires
        first_stateless(rules, 0, e, hour) is Some,
    ensures
        engine_eval(s, rules, e, cost, now, hour).0 == s,
        engine_eval(s, rules, e, cost, now, hour).1 is Some,
{
}

/// An engine without rules lets every call through and records nothing.
pub proof fn lemma_no_rules_pass(s: StateView, e: ApiEvent, cost: u64, now: u64, hour: u8)
    ensures
        engine_eval(s, Seq::empty(), e, cost, now, hour) == (s, Option::<Block>::None),
{
}

/// Within one window, spending accumulates: two costs added one after the
/// other, with no reset in between, add up (saturating).
pub proof fn lemma_spend_accumulates(cur: (u64, u64), t1: u64, t2: u64, window_ms: int, c1: u64, c2: u64)
    requires
        cur.1 <= t1 <= t2,
        t2 - cur.1 < window_ms,
    ensures
        spend_after(spend_after(cur, t1, window_ms, c1), t2, window_ms, c2) == (sat_add(sat_add(cur.0, c1), c2), cur.1),
{
}

/// Once a window has run its course, spending starts again from the cost
/// of the call that opens the next window.
pub proof fn lemma_spend_resets(cur: (u64, u64), now: u64, window_ms: int, cost: u64)
    requires
        elapsed_ms(now, cur.1) >= window_ms,
    ensures
        spend_after(cur, now, window_ms, cost) == (cost, now),
{
}

/// A provider that already made `max` requests in the last minute is
/// refused its next one by its rate limit (an engine whose only rule is
/// that limit).
pub proof fn lemma_rate_limit_refuses_excess(
    s: StateView,
    provider: String,
    max: u32,
    e: ApiEvent,
    now: u64,
    hour: u8,
    j: int,
)
    requires
        e.provider@ == provider@,
        key_at(s.rate, provider@, j),
        recent(s.rate[j].1, now).len() >= max,
    ensures
        engine_eval(s, seq![ApiPolicyRule::RateLimitPerProvider { provider, max_requests_per_minute: max }], e, 0, now, hour).1 is Some,
{
    lemma_key_pos(s.rate, provider@, j);
    let rules = seq![ApiPolicyRule::RateLimitPerProvider { provider, max_requests_per_minute: max }];
    assert(first_stateless(rules, 1, e, hour) is None);
    assert(first_stateless(rules, 0, e, hour) is None);
    assert(rate_times(s.rate, provider@, now).len() == recent(s.rate[j].1, now).len() + 1);
}

/// The request times recorded for provider `k` (none when it has no entry).
pub open spec fn history(rate: Seq<(Seq<char>, Seq<u64>)>, k: Seq<char>) -> Seq<u64> {
    let p = key_pos(rate, k);
    if p >= 0 { rate[p].1 } else { Seq::empty() }
}

/// How many times of `times` are at or after `w`.
pub open spec fn count_from(times: Seq<u64>, w: int) -> nat
    decreases times.len(),
{
    if times.len() == 0 {
        0
    } else {
        count_from(times.drop_last(), w) + (if times.last() >= w { 1nat } else { 0nat })
    }
}

proof fn lemma_count_push(times: Seq<u64>, t: u64, w: int)
    ensures
        count_from(times.push(t), w) == count_from(times, w) + (if t >= w { 1nat } else { 0nat }),
{
    assert(times.push(t).drop_last() =~= times);
}

proof fn lemma_count_le_len(times: Seq<u64>, w: int)
    ensures
        count_from(times, w) <= times.len(),
    decreases times.len(),
{
    if times.len() > 0 {
        lemma_count_le_len(times.drop_last(), w);
    }
}

/// Pruning at `now` keeps every time at or after `w` when `w` lies less
/// than a minute before `now`.
proof fn lemma_recent_keeps_window(times: Seq<u64>, now: u64, w: int)
    requires
        w + 60_000 > now,
    ensures
        count_from(recent(times, now), w) == count_from(times, w),
    decreases times.len(),
{
    if times.len() > 0 {
        lemma_recent_keeps_window(times.drop_last(), now, w);
        let rest = recent(times.drop_last(), now);
        if elapsed_ms(now, times.last()) < 60_000 {
            lemma_count_push(rest, times.last(), w);
        }
    }
}

/// Writing under one key leaves the history of every other key alone and
/// sets that key's history.
proof fn lemma_history_put(rate: Seq<(Seq<char>, Seq<u64>)>, k: Seq<char>, v: Seq<u64>, q: Seq<char>)
    ensures
        history(put(rate, k, v), k) == v,
        q != k ==> history(put(rate, k, v), q) == history(rate, q),
{
    let r2 = put(rate, k, v);
    let pk = key_pos(rate, k);
    lemma_first_key(rate, k);
    lemma_first_key(rate, q);
    if pk >= 0 {
        assert(key_at(r2, k, pk));
        lemma_key_pos(r2, k, pk);
    } else {
        assert(key_at(r2, k, rate.len() as int));
        lemma_key_pos(r2, k, rate.len() as int);
    }
    if q != k {
        lemma_first_key(r2, q);
        let pq = key_pos(rate, q);
        if pq >= 0 {
            assert(key_at(r2, q, pq));
            lemma_key_pos(r2, q, pq);
        } else {
            assert(forall|j: int| 0 <= j < r2.len() ==> r2[j].0 != q);
        }
    }
}

/// The engine has a rate limit of `n` requests a minute for provider `p`.
pub open spec fn limits_rate(rules: Seq<ApiPolicyRule>, p: Seq<char>, n: u32) -> bool {
    exists|q: int| 0 <= q < rules.len() && (#[trigger] rules[q] matches
        ApiPolicyRule::RateLimitPerProvider { provider, max_requests_per_minute } && provider@ == p && max_requests_per_minute == n)
}

/// One stateful rule never forgets a time of `p` within a minute of `now`,
/// and a rate limit for `p` records the request of `p` (a limit of `n` that
/// lets it through has seen at most `n` requests in the minute).
proof fn lemma_step_history(s: StateView, r: ApiPolicyRule, e: ApiEvent, cost: u64, now: u64, p: Seq<char>, w: int)
    requires
        w + 60_000 > now,
    ensures
        ({
            let (s1, b) = stateful_step(s, r, e, cost, now);
            let before = count_from(history(s.rate, p), w);
            let after = count_from(history(s1.rate, p), w);
            &&& after >= before
            &&& match r {
                ApiPolicyRule::RateLimitPerProvider { provider, max_requests_per_minute } =>
                    (provider@ == p && e.provider@ == p) ==> {
                        &&& after == before + (if now >= w { 1nat } else { 0nat })
                        &&& (b is None ==> after <= max_requests_per_minute)
                    },
                _ => true,
            }
        }),
{
    let (s1, b) = stateful_step(s, r, e, cost, now);
    match r {
        ApiPolicyRule::RateLimitPerProvider { provider, max_requests_per_minute } => {
            if e.provider@ == provider@ {
                let times = rate_times(s.rate, provider@, now);
                lemma_history_put(s.rate, provider@, times, p);
                if provider@ == p {
                    assert(history(s.rate, p) == history(s.rate, provider@));
                    lemma_recent_keeps_window(history(s.rate, p), now, w);
                    lemma_count_push(recent(history(s.rate, p), now), now, w);
                    lemma_count_le_len(times, w);
                }
            }
        },
        _ => {},
    }
}

/// Running the stateful rules from `i` on keeps every time of `p` within a
/// minute of `now`; when they let a request of `p` through and one of them
/// limits `p` to `n` a minute, the request is recorded and the minute held
/// fewer than `n` earlier requests.
proof fn lemma_run_history(s: StateView, rules: Seq<ApiPolicyRule>, i: int, e: ApiEvent, cost: u64, now: u64, p: Seq<char>, n: u32, w: int)
    requires
        w + 60_000 > now,
        0 <= i,
    ensures
        ({
            let (s1, b) = run_stateful(s, rules, i, e, cost, now);
            let before = count_from(history(s.rate, p), w);
            let after = count_from(history(s1.rate, p), w);
            &&& after >= before
            &&& (b is None && e.provider@ == p && now >= w && exists|q: int| i <= q < rules.len() && (#[trigger] rules[q] matches
                ApiPolicyRule::RateLimitPerProvider { provider, max_requests_per_minute }
                && provider@ == p && max_requests_per_minute == n)) ==> {
                &&& after >= before + 1
                &&& before + 1 <= n
            }
        }),
    decreases rules.len() - i,
{
    if i < rules.len() {
        let (s1, b1) = stateful_step(s, rules[i], e, cost, now);
        lemma_step_history(s, rules[i], e, cost, now, p, w);
        if b1 is None {
            lemma_run_history(s1, rules, i + 1, e, cost, now, p, n, w);
            let (s2, b2) = run_stateful(s1, rules, i + 1, e, cost, now);
            if b2 is None && e.provider@ == p && now >= w && exists|q: int| i <= q < rules.len() && (#[trigger] rules[q] matches
                ApiPolicyRule::RateLimitPerProvider { provider, max_requests_per_minute }
                && provider@ == p && max_requests_per_minute == n) {
                let q = choose|q: int| i <= q < rules.len() && (#[trigger] rules[q] matches
                    ApiPolicyRule::RateLimitPerProvider { provider, max_requests_per_minute }
                    && provider@ == p && max_requests_per_minute == n);
                if q == i {
                    lemma_count_le_len(history(s2.rate, p), w);
                } else {
                    assert(i + 1 <= q);
                }
            }
        }
    }
}

/// How many of the first `m` calls were requests of provider `p`, made at
/// or after `w`, that the engine let through.
pub open spec fn passes_from(events: Seq<ApiEvent>, outcomes: Seq<Option<Block>>, times: Seq<u64>, p: Seq<char>, w: int, m: int) -> nat
    decreases m,
{
    if m <= 0 {
        0
    } else {
        passes_from(events, outcomes, times, p, w, m - 1) + (if events[m - 1].provider@ == p && outcomes[m - 1] is None
            && times[m - 1] >= w { 1nat } else { 0nat })
    }
}

/// Calls made one after another: call `i` is evaluated on the state the
/// call before it left.
pub open spec fn call_sequence(
    states: Seq<StateView>,
    rules: Seq<ApiPolicyRule>,
    events: Seq<ApiEvent>,
    costs: Seq<u64>,
    times: Seq<u64>,
    hours: Seq<u8>,
    outcomes: Seq<Option<Block>>,
) -> bool {
    &&& states.len() == events.len() + 1
    &&& costs.len() == events.len()
    &&& times.len() == events.len()
    &&& hours.len() == events.len()
    &&& outcomes.len() == events.len()
    &&& forall|i: int| 0 <= i < events.len() ==> (states[i + 1], outcomes[i])
        == #[trigger] engine_eval(states[i], rules, events[i], costs[i], times[i], hours[i])
}

/// A rate limit holds over any minute: when the engine limits provider `p`
/// to `n` requests a minute, then in any sequence of calls starting from
/// any state, as long as every call so far was made before `w` + 60 s, at
/// most `n` of the requests of `p` made from `w` on were let through,
/// whatever the other rules and whatever the calls of other providers
/// (which do not count against `p`).
pub proof fn lemma_rate_limit_window(
    states: Seq<StateView>,
    rules: Seq<ApiPolicyRule>,
    events: Seq<ApiEvent>,
    costs: Seq<u64>,
    times: Seq<u64>,
    hours: Seq<u8>,
    outcomes: Seq<Option<Block>>,
    p: Seq<char>,
    n: u32,
    w: int,
    m: int,
)
    requires
        call_sequence(states, rules, events, costs, times, hours, outcomes),
        limits_rate(rules, p, n),
        0 <= m <= events.len(),
        forall|i: int| 0 <= i < m ==> #[trigger] times[i] < w + 60_000,
    ensures
        passes_from(events, outcomes, times, p, w, m) <= n,
{
    lemma_window_prefix(states, rules, events, costs, times, hours, outcomes, p, n, w, m);
}

proof fn lemma_window_prefix(
    states: Seq<StateView>,
    rules: Seq<ApiPolicyRule>,
    events: Seq<ApiEvent>,
    costs: Seq<u64>,
    times: Seq<u64>,
    hours: Seq<u8>,
    outcomes: Seq<Option<Block>>,
    p: Seq<char>,
    n: u32,
    w: int,
    m: int,
)
    requires
        call_sequence(states, rules, events, costs, times, hours, outcomes),
        limits_rate(rules, p, n),
        0 <= m <= events.len(),
        forall|i: int| 0 <= i < m ==> #[trigger] times[i] < w + 60_000,
    ensures
        passes_from(events, outcomes, times, p, w, m) <= n,
        passes_from(events, outcomes, times, p, w, m) <= count_from(history(states[m].rate, p), w),
    decreases m,
{
    if m > 0 {
        let i = m - 1;
        lemma_window_prefix(states, rules, events, costs, times, hours, outcomes, p, n, w, i);
        assert((states[i + 1], outcomes[i]) == engine_eval(states[i], rules, events[i], costs[i], times[i], hours[i]));
        assert(times[i] < w + 60_000);
        let q = choose|q: int| 0 <= q < rules.len() && (#[trigger] rules[q] matches
            ApiPolicyRule::RateLimitPerProvider { provider, max_requests_per_minute } && provider@ == p && max_requests_per_minute == n);
        match first_stateless(rules, 0, events[i], hours[i]) {
            Some(b) => {},
            None => {
                lemma_run_history(states[i], rules, 0, events[i], costs[i], times[i], p, n, w);
            },
        }
    }
}

/// Pruning at `now` keeps every time of a list whose times all lie at or
/// after `w`, when `w` lies less than a minute before `now`.
proof fn lemma_recent_keeps_all(times: Seq<u64>, now: u64, w: int)
    requires
        w + 60_000 > now,
        forall|i: int| 0 <= i < times.len() ==> times[i] >= w,
    ensures
        recent(times, now) == times,
    decreases times.len(),
{
    if times.len() > 0 {
        lemma_recent_keeps_all(times.drop_last(), now, w);
        assert(times.drop_last().push(times.last()) =~= times);
    }
}

/// How many of the first `m` calls were requests of provider `p`.
pub open spec fn calls_of(events: Seq<ApiEvent>, p: Seq<char>, m: int) -> nat
    decreases m,
{
    if m <= 0 {
        0
    } else {
        calls_of(events, p, m - 1) + (if events[m - 1].provider@ == p { 1nat } else { 0nat })
    }
}

/// A rate limit lets the first requests through: on an engine with nothing
/// recorded whose only rule limits provider `p` to `n` requests a minute,
/// when every call falls within one minute (from `w` to before `w` + 60
/// s), each of the first `n` requests of `p` passes, and so does every
/// call of another provider.
pub proof fn lemma_rate_limit_admits_first(
    states: Seq<StateView>,
    events: Seq<ApiEvent>,
    costs: Seq<u64>,
    times: Seq<u64>,
    hours: Seq<u8>,
    outcomes: Seq<Option<Block>>,
    provider: String,
    n: u32,
    w: int,
    m: int,
)
    requires
        call_sequence(states, seq![ApiPolicyRule::RateLimitPerProvider { provider, max_requests_per_minute: n }],
            events, costs, times, hours, outcomes),
        states[0].rate.len() == 0,
        0 <= m <= events.len(),
        forall|i: int| 0 <= i < m ==> w <= #[trigger] times[i] < w + 60_000,
    ensures
        forall|i: int| 0 <= i < m && (events[i].provider@ != provider@ || calls_of(events, provider@, i) < n)
            ==> (#[trigger] outcomes[i]) is None,
{
    lemma_admits_prefix(states, events, costs, times, hours, outcomes, provider, n, w, m);
}

proof fn lemma_admits_prefix(
    states: Seq<StateView>,
    events: Seq<ApiEvent>,
    costs: Seq<u64>,
    times: Seq<u64>,
    hours: Seq<u8>,
    outcomes: Seq<Option<Block>>,
    provider: String,
    n: u32,
    w: int,
    m: int,
)
    requires
        call_sequence(states, seq![ApiPolicyRule::RateLimitPerProvider { provider, max_requests_per_minute: n }],
            events, costs, times, hours, outcomes),
        states[0].rate.len() == 0,
        0 <= m <= events.len(),
        forall|i: int| 0 <= i < m ==> w <= #[trigger] times[i] < w + 60_000,
    ensures
        history(states[m].rate, provider@).len() == calls_of(events, provider@, m),
        forall|j: int| 0 <= j < history(states[m].rate, provider@).len() ==> history(states[m].rate, provider@)[j] >= w,
        forall|i: int| 0 <= i < m && (events[i].provider@ != provider@ || calls_of(events, provider@, i) < n)
            ==> (#[trigger] outcomes[i]) is None,
    decreases m,
{
    let p = provider@;
    let rule = ApiPolicyRule::RateLimitPerProvider { provider, max_requests_per_minute: n };
    let rules = seq![rule];
    if m == 0 {
        lemma_first_key(states[0].rate, p);
    } else {
        let i = m - 1;
        lemma_admits_prefix(states, events, costs, times, hours, outcomes, provider, n, w, i);
        let s = states[i];
        let e = events[i];
        assert((states[i + 1], outcomes[i]) == engine_eval(s, rules, e, costs[i], times[i], hours[i]));
        assert(first_stateless(rules, 1, e, hours[i]) is None);
        assert(first_stateless(rules, 0, e, hours[i]) is None);
        let (s1, b) = stateful_step(s, rule, e, costs[i], times[i]);
        assert(rules[0] == rule);
        assert(run_stateful(s1, rules, 1, e, costs[i], times[i]) == (s1, None::<Block>));
        assert(run_stateful(s, rules, 0, e, costs[i], times[i]) == (s1, b));
        assert(states[m] == s1 && outcomes[i] == b);
        assert(times[i] < w + 60_000 && w <= times[i]);
        if e.provider@ == p {
            let h = history(s.rate, p);
            lemma_recent_keeps_all(h, times[i], w);
            let t2 = rate_times(s.rate, p, times[i]);
            assert(t2 == h.push(times[i]));
            lemma_history_put(s.rate, p, t2, p);
            assert(s1.rate == put(s.rate, p, t2));
            assert(history(states[m].rate, p) == t2);
        }
    }
}

/// The names of the stateless rules.
pub open spec fn stateless_rule_name(n: Seq<char>) -> bool {
    n == "endpoint_allowlist"@ || n == "endpoint_blocklist"@ || n == "content_inspection"@ || n == "header_filter"@
        || n == "time_of_day_restriction"@
}

/// The names of the stateful rules.
pub open spec fn stateful_rule_name(n: Seq<char>) -> bool {
    n == "rate_limit_per_provider"@ || n == "provider_budget"@ || n == "cost_cap"@
}

proof fn lemma_run_block_names(s: StateView, rules: Seq<ApiPolicyRule>, i: int, e: ApiEvent, cost: u64, now: u64)
    ensures
        run_stateful(s, rules, i, e, cost, now).1 matches Some(b) ==> stateful_rule_name(b.1),
    decreases rules.len() - i,
{
    if 0 <= i < rules.len() {
        let (s1, b) = stateful_step(s, rules[i], e, cost, now);
        if b is None {
            lemma_run_block_names(s1, rules, i + 1, e, cost, now);
        }
    }
}

proof fn lemma_stateless_names_differ(n: Seq<char>)
    requires
        stateless_rule_name(n),
    ensures
        !stateful_rule_name(n),
{
    reveal_strlit("endpoint_allowlist");
    reveal_strlit("endpoint_blocklist");
    reveal_strlit("content_inspection");
    reveal_strlit("header_filter");
    reveal_strlit("time_of_day_restriction");
    reveal_strlit("rate_limit_per_provider");
    reveal_strlit("provider_budget");
    reveal_strlit("cost_cap");
    assert("rate_limit_per_provider"@.len() == 23);
    assert("provider_budget"@.len() == 15);
    assert("cost_cap"@.len() == 8);
    assert("endpoint_allowlist"@.len() == 18);
    assert("endpoint_blocklist"@.len() == 18);
    assert("content_inspection"@.len() == 18);
    assert("header_filter"@.len() == 13);
    assert("time_of_day_restriction"@[0] != "rate_limit_per_provider"@[0]);
}

/// A call refused by a stateless rule (an endpoint allowlist or blocklist,
/// content inspection, a header filter or an hour restriction, as the
/// block's rule name shows) leaves the engine's tracking as it was: it
/// counts against no rate limit, provider budget or cost cap, so every
/// later call is decided as if it had never been made.
pub proof fn lemma_stateless_named_block_keeps_state(
    s: StateView,
    rules: Seq<ApiPolicyRule>,
    e: ApiEvent,
    cost: u64,
    now: u64,
    hour: u8,
)
    requires
        engine_eval(s, rules, e, cost, now, hour).1 matches Some(b) && stateless_rule_name(b.1),
    ensures
        engine_eval(s, rules, e, cost, now, hour).0 == s,
        forall|e2: ApiEvent, cost2: u64, now2: u64, hour2: u8|
            #[trigger] engine_eval(engine_eval(s, rules, e, cost, now, hour).0, rules, e2, cost2, now2, hour2)
                == engine_eval(s, rules, e2, cost2, now2, hour2),
{
    if first_stateless(rules, 0, e, hour) is None {
        lemma_run_block_names(s, rules, 0, e, cost, now);
        let b = engine_eval(s, rules, e, cost, now, hour).1.unwrap();
        lemma_stateless_names_differ(b.1);
    }
}

/// Every rule is a provider budget or a monthly cost cap.
pub open spec fn spending_rules_only(rules: Seq<ApiPolicyRule>) -> bool {
    forall|i: int| 0 <= i < rules.len() ==> (#[trigger] rules[i] is ProviderBudget || rules[i] is CostCap)
}

proof fn lemma_free_call_runs_clear(s: StateView, rules: Seq<ApiPolicyRule>, i: int, e: ApiEvent, now: u64)
    requires
        spending_rules_only(rules),
    ensures
        run_stateful(s, rules, i, e, 0, now) == (s, Option::<Block>::None),
    decreases rules.len() - i,
{
    if 0 <= i < rules.len() {
        assert(rules[i] is ProviderBudget || rules[i] is CostCap);
        lemma_free_call_runs_clear(s, rules, i + 1, e, now);
    }
}

proof fn lemma_spending_rules_not_stateless(rules: Seq<ApiPolicyRule>, i: int, e: ApiEvent, hour: u8)
    requires
        spending_rules_only(rules),
    ensures
        first_stateless(rules, i, e, hour) is None,
    decreases rules.len() - i,
{
    if 0 <= i < rules.len() {
        assert(rules[i] is ProviderBudget || rules[i] is CostCap);
        lemma_spending_rules_not_stateless(rules, i + 1, e, hour);
    }
}

/// A call with no cost attached (what `evaluate` makes) is never refused by
/// a provider budget or the cost cap: an engine whose rules are all budgets
/// and caps lets every such call through and records nothing, however many
/// are made.
pub proof fn lemma_free_calls_pass_spending_rules(s: StateView, rules: Seq<ApiPolicyRule>, e: ApiEvent, now: u64, hour: u8)
    requires
        spending_rules_only(rules),
    ensures
        engine_eval(s, rules, e, 0, now, hour) == (s, Option::<Block>::None),
{
    lemma_spending_rules_not_stateless(rules, 0, e, hour);
    lemma_free_call_runs_clear(s, rules, 0, e, now);
}


/// An engine whose only rule is an hour restriction lets a call through,
/// recording nothing, exactly when the hour lies in the permitted window,
/// both ends included; outside it the call is blocked by that rule.
pub proof fn lemma_hour_restriction_engine(
    s: StateView,
    min_hour_utc: u8,
    max_hour_utc: u8,
    e: ApiEvent,
    cost: u64,
    now: u64,
    hour: u8,
)
    ensures
        ({
            let (s1, b) = engine_eval(s, seq![ApiPolicyRule::TimeOfDayRestriction { min_hour_utc, max_hour_utc }], e, cost, now, hour);
            &&& s1 == s
            &&& (b is None <==> min_hour_utc <= hour <= max_hour_utc)
            &&& (b matches Some(blk) ==> blk.1 == "time_of_day_restriction"@)
        }),
{
    let rules = seq![ApiPolicyRule::TimeOfDayRestriction { min_hour_utc, max_hour_utc }];
    assert(first_stateless(rules, 1, e, hour) is None);
    assert(run_stateful(s, rules, 1, e, cost, now) == (s, Option::<Block>::None));
    assert(stateful_step(s, rules[0], e, cost, now) == (s, Option::<Block>::None));
}

} // verus!
