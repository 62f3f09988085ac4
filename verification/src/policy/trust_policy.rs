//! The TrustPolicy resource: a declarative, Kyverno-style policy whose
//! `match` section selects the actions it governs and whose `validate` and
//! `mutate` sections map onto the rules of the policy engine.

use vstd::prelude::*;
use std::collections::HashMap;
use crate::policy::rules::PolicyRule;
use crate::text::clone_strings;
use crate::transaction::Address;

verus! {

/// The enforcement mode of a TrustPolicy.
#[derive(Debug, Clone, Copy, PartialEq, Eq, Structural)]
pub enum PolicyMode {
    /// Log decisions but do not block.
    Audit,
    /// Block non-compliant actions.
    Enforce,
}

/// A TrustPolicy resource (`apiVersion: bastion.io/v1`, `kind: TrustPolicy`).
#[derive(Debug)]
pub struct TrustPolicy {
    pub api_version: String,
    pub kind: String,
    pub metadata: PolicyMetadata,
    pub spec: PolicySpec,
    /// Runtime state, managed by the engine.
    pub status: Option<PolicyStatus>,
}

#[derive(Debug)]
pub struct PolicyMetadata {
    /// Unique policy name.
    pub name: String,
    /// The agent DID the policy applies to; none means every agent.
    pub agent: Option<String>,
    /// Labels for categorisation.
    pub labels: HashMap<String, String>,
}

#[derive(Debug)]
pub struct PolicySpec {
    /// Which actions the policy governs (the resource's `match` section).
    pub matching: MatchCriteria,
    pub validate: ValidateRules,
    pub mutate: MutateRules,
    pub generate: GenerateRules,
    pub background: BackgroundConfig,
    pub exceptions: Vec<TrustException>,
}

/// Criteria that select the actions a policy governs.
#[derive(Debug)]
pub struct MatchCriteria {
    /// The intent type (transfer, swap, stake, ...); none matches every intent.
    pub intent: Option<String>,
    /// The chains; empty matches every chain.
    pub chains: Vec<String>,
    /// The currency or token; none matches every currency.
    pub currency: Option<String>,
}

/// Validation rules. Floating-point values are held as their IEEE-754 bit
/// patterns.
#[derive(Debug)]
pub struct ValidateRules {
    pub max_per_transaction: Option<u64>,
    pub max_per_24h: Option<u64>,
    pub allowlist: Vec<String>,
    pub blocklist: Vec<String>,
    pub max_transactions_per_hour: Option<u32>,
    pub allowed_chains: Vec<String>,
    pub allowed_tx_types: Vec<String>,
    pub min_reputation_score: Option<u8>,
    pub geofence: Option<GeofenceBounds>,
    pub max_speed_mps_bits: Option<u64>,
    pub max_joules_24h: Option<u64>,
    pub operating_hours: Option<OperatingHoursRange>,
    pub min_stake_sol: Option<u64>,
}

/// A latitude/longitude box, each bound as an IEEE-754 bit pattern.
#[derive(Debug, Clone, Copy, PartialEq, Eq, Structural)]
pub struct GeofenceBounds {
    pub lat_min_bits: u64,
    pub lon_min_bits: u64,
    pub lat_max_bits: u64,
    pub lon_max_bits: u64,
}

#[derive(Debug, Clone, Copy, PartialEq, Eq, Structural)]
pub struct OperatingHoursRange {
    pub min_hour: u8,
    pub max_hour: u8,
}

/// Mutation rules: checks injected into the execution plan.
#[derive(Debug)]
pub struct MutateRules {
    pub inject_human_approval: Option<HitlConfig>,
    pub inject_budget_check: Option<bool>,
    pub inject_simulation: Option<bool>,
}

#[derive(Debug, Clone, Copy, PartialEq, Eq, Structural)]
pub struct HitlConfig {
    pub trigger_above: u64,
    pub timeout_seconds: u64,
}

/// Generation rules: derived trust resources.
#[derive(Debug)]
pub struct GenerateRules {
    pub attestation: Option<bool>,
    pub approval_request: Option<bool>,
    pub audit_event: Option<bool>,
    pub settlement_record: Option<bool>,
}

/// Background scanning configuration.
#[derive(Debug, Clone, Copy, PartialEq, Eq, Structural)]
pub struct BackgroundConfig {
    /// Scan interval in seconds.
    pub scan_interval: u64,
    pub detect_expired_approvals: bool,
    pub detect_expired_delegations: bool,
    pub detect_policy_drift: bool,
    pub detect_unsettled_transactions: bool,
}

/// The default scan interval: one hour.
pub fn default_scan_interval() -> (r: u64)
    ensures
        r == 3600,
{
    3600
}

/// Detectors are on unless switched off.
pub fn default_true() -> (r: bool)
    ensures
        r,
{
    true
}

impl Default for BackgroundConfig {
    fn default() -> (c: Self)
        ensures
            c.scan_interval == 3600,
            c.detect_expired_approvals,
            c.detect_expired_delegations,
            c.detect_policy_drift,
            c.detect_unsettled_transactions,
    {
        BackgroundConfig {
            scan_interval: default_scan_interval(),
            detect_expired_approvals: default_true(),
            detect_expired_delegations: default_true(),
            detect_policy_drift: default_true(),
            detect_unsettled_transactions: default_true(),
        }
    }
}

/// A time-bound exception written into a policy.
#[derive(Debug)]
pub struct TrustException {
    pub reason: String,
    /// A duration such as `24h` or `7d`.
    pub expires: String,
    pub approved_by: String,
}

/// The runtime status of a policy.
#[derive(Debug)]
pub struct PolicyStatus {
    pub mode: PolicyMode,
    pub evaluations: u64,
    pub blocks: u64,
    /// Unix seconds of the last evaluation.
    pub last_evaluation: u64,
    pub last_scan: Option<ScanResult>,
}

/// What a background scan found.
#[derive(Debug, Clone, Copy, PartialEq, Eq, Structural)]
pub enum ScanFindingKind {
    ExpiredApproval,
    ExpiredDelegation,
    PolicyDrift,
    UnsettledTransaction,
}

/// One violation found by a background scan.
#[derive(Debug)]
pub struct ScanFinding {
    pub kind: ScanFindingKind,
    /// The approval, agent, policy or plan concerned.
    pub id: String,
    pub detail: String,
}

/// The result of a background scan: how many violations of each kind, and
/// the violations themselves.
#[derive(Debug)]
pub struct ScanResult {
    pub timestamp: u64,
    pub expired_approvals: u64,
    pub expired_delegations: u64,
    pub policy_drifts: u64,
    pub unsettled_transactions: u64,
    pub findings: Vec<ScanFinding>,
}

/// A rule of the policy engine seen as plain values.
pub enum RuleView {
    AmountLimit { max_per_transaction: u64, max_per_24h: Option<u64>, currency: Seq<char> },
    Destination { allowlist: Seq<Seq<char>>, blocklist: Seq<Seq<char>> },
    Frequency { max_transactions_per_hour: u32 },
    HITL { trigger_above: u64, timeout_seconds: u64 },
    Reputation { minimum_score: u8, elevated_limit_multiplier_bits: Option<u64> },
    TxTypeAllowlist { allowed: Seq<Seq<char>> },
    StakeWeighted { base_limit: u64, min_stake: u64, stake_multiplier_bits: u64, depth_decay_factor_bits: u64 },
    Geofence { lat_min_bits: u64, lon_min_bits: u64, lat_max_bits: u64, lon_max_bits: u64 },
    SpeedLimit { max_speed_mps_bits: u64 },
    EnergyBudget { max_joules_24h: u64 },
    OperatingHours { min_hour: u8, max_hour: u8 },
}

/// The text of each string.
pub open spec fn texts(s: Seq<String>) -> Seq<Seq<char>> {
    Seq::new(s.len(), |i: int| s[i]@)
}

/// The text of each address.
pub open spec fn address_texts(s: Seq<Address>) -> Seq<Seq<char>> {
    Seq::new(s.len(), |i: int| s[i].0@)
}

/// A rule seen as plain values.
pub open spec fn rule_view(r: PolicyRule) -> RuleView {
    match r {
        PolicyRule::AmountLimit { max_per_transaction, max_per_24h, currency } =>
            RuleView::AmountLimit { max_per_transaction, max_per_24h, currency: currency@ },
        PolicyRule::Destination { allowlist, blocklist } =>
            RuleView::Destination { allowlist: address_texts(allowlist@), blocklist: address_texts(blocklist@) },
        PolicyRule::Frequency { max_transactions_per_hour } => RuleView::Frequency { max_transactions_per_hour },
        PolicyRule::HITL { trigger_above, timeout_seconds } => RuleView::HITL { trigger_above, timeout_seconds },
        PolicyRule::Reputation { minimum_score, elevated_limit_multiplier_bits } =>
            RuleView::Reputation { minimum_score, elevated_limit_multiplier_bits },
        PolicyRule::TxTypeAllowlist { allowed } => RuleView::TxTypeAllowlist { allowed: texts(allowed@) },
        PolicyRule::StakeWeighted { base_limit, min_stake, stake_multiplier_bits, depth_decay_factor_bits } =>
            RuleView::StakeWeighted { base_limit, min_stake, stake_multiplier_bits, depth_decay_factor_bits },
        PolicyRule::Geofence { lat_min_bits, lon_min_bits, lat_max_bits, lon_max_bits } =>
            RuleView::Geofence { lat_min_bits, lon_min_bits, lat_max_bits, lon_max_bits },
        PolicyRule::SpeedLimit { max_speed_mps_bits } => RuleView::SpeedLimit { max_speed_mps_bits },
        PolicyRule::EnergyBudget { max_joules_24h } => RuleView::EnergyBudget { max_joules_24h },
        PolicyRule::OperatingHours { min_hour, max_hour } => RuleView::OperatingHours { min_hour, max_hour },
    }
}

/// Rules seen as plain values.
pub open spec fn rule_views(rules: Seq<PolicyRule>) -> Seq<RuleView> {
    Seq::new(rules.len(), |i: int| rule_view(rules[i]))
}

/// One rule when `cond` holds, none otherwise.
pub open spec fn rule_if(cond: bool, r: RuleView) -> Seq<RuleView> {
    if cond { seq![r] } else { Seq::empty() }
}

/// The IEEE-754 bit pattern of 1.0.
pub open spec fn one_bits() -> u64 {
    0x3FF0_0000_0000_0000
}

/// The IEEE-754 bit pattern of 0.5.
pub open spec fn half_bits() -> u64 {
    0x3FE0_0000_0000_0000
}

/// The amount limit, when a per-transaction maximum is set; the currency defaults to `SOL`.
pub open spec fn amount_rule(p: TrustPolicy) -> Seq<RuleView> {
    rule_if(p.spec.validate.max_per_transaction is Some, RuleView::AmountLimit {
        max_per_transaction: p.spec.validate.max_per_transaction.unwrap(),
        max_per_24h: p.spec.validate.max_per_24h,
        currency: match p.spec.matching.currency { Some(c) => c@, None => "SOL"@ },
    })
}

/// The destination lists, when either is non-empty.
pub open spec fn destination_rule(p: TrustPolicy) -> Seq<RuleView> {
    rule_if(p.spec.validate.allowlist@.len() > 0 || p.spec.validate.blocklist@.len() > 0, RuleView::Destination {
        allowlist: texts(p.spec.validate.allowlist@),
        blocklist: texts(p.spec.validate.blocklist@),
    })
}

/// The frequency limit, when set.
pub open spec fn frequency_rule(p: TrustPolicy) -> Seq<RuleView> {
    rule_if(p.spec.validate.max_transactions_per_hour is Some, RuleView::Frequency {
        max_transactions_per_hour: p.spec.validate.max_transactions_per_hour.unwrap(),
    })
}

/// The human-approval rule, when approval is injected.
pub open spec fn hitl_rule(p: TrustPolicy) -> Seq<RuleView> {
    rule_if(p.spec.mutate.inject_human_approval is Some, RuleView::HITL {
        trigger_above: p.spec.mutate.inject_human_approval.unwrap().trigger_above,
        timeout_seconds: p.spec.mutate.inject_human_approval.unwrap().timeout_seconds,
    })
}

/// The reputation floor, when set.
pub open spec fn reputation_rule(p: TrustPolicy) -> Seq<RuleView> {
    rule_if(p.spec.validate.min_reputation_score is Some, RuleView::Reputation {
        minimum_score: p.spec.validate.min_reputation_score.unwrap(),
        elevated_limit_multiplier_bits: None,
    })
}

/// The transaction-type allowlist, when non-empty.
pub open spec fn tx_type_rule(p: TrustPolicy) -> Seq<RuleView> {
    rule_if(p.spec.validate.allowed_tx_types@.len() > 0, RuleView::TxTypeAllowlist {
        allowed: texts(p.spec.validate.allowed_tx_types@),
    })
}

/// Stake weighting, when a minimum stake is set: the base limit is the per-transaction maximum (1000 when unset), multiplier 1.0, depth decay 0.5.
pub open spec fn stake_rule(p: TrustPolicy) -> Seq<RuleView> {
    rule_if(p.spec.validate.min_stake_sol is Some, RuleView::StakeWeighted {
        base_limit: match p.spec.validate.max_per_transaction { Some(m) => m, None => 1000 },
        min_stake: p.spec.validate.min_stake_sol.unwrap(),
        stake_multiplier_bits: one_bits(),
        depth_decay_factor_bits: half_bits(),
    })
}

/// The geofence, when set.
pub open spec fn geofence_rule(p: TrustPolicy) -> Seq<RuleView> {
    rule_if(p.spec.validate.geofence is Some, RuleView::Geofence {
        lat_min_bits: p.spec.validate.geofence.unwrap().lat_min_bits,
        lon_min_bits: p.spec.validate.geofence.unwrap().lon_min_bits,
        lat_max_bits: p.spec.validate.geofence.unwrap().lat_max_bits,
        lon_max_bits: p.spec.validate.geofence.unwrap().lon_max_bits,
    })
}

/// The speed limit, when set.
pub open spec fn speed_rule(p: TrustPolicy) -> Seq<RuleView> {
    rule_if(p.spec.validate.max_speed_mps_bits is Some, RuleView::SpeedLimit {
        max_speed_mps_bits: p.spec.validate.max_speed_mps_bits.unwrap(),
    })
}

/// The energy budget, when set.
pub open spec fn energy_rule(p: TrustPolicy) -> Seq<RuleView> {
    rule_if(p.spec.validate.max_joules_24h is Some, RuleView::EnergyBudget {
        max_joules_24h: p.spec.validate.max_joules_24h.unwrap(),
    })
}

/// The operating hours, when set.
pub open spec fn hours_rule(p: TrustPolicy) -> Seq<RuleView> {
    rule_if(p.spec.validate.operating_hours is Some, RuleView::OperatingHours {
        min_hour: p.spec.validate.operating_hours.unwrap().min_hour,
        max_hour: p.spec.validate.operating_hours.unwrap().max_hour,
    })
}

/// The engine rules a policy stands for, in this order: amount limit,
/// destination lists, frequency, human approval, reputation, transaction
/// types, stake weighting, geofence, speed, energy and operating hours,
/// each present when its setting is.
pub open spec fn policy_rules(p: TrustPolicy) -> Seq<RuleView> {
    amount_rule(p) + destination_rule(p) + frequency_rule(p) + hitl_rule(p) + reputation_rule(p) + tx_type_rule(p)
        + stake_rule(p) + geofence_rule(p) + speed_rule(p) + energy_rule(p) + hours_rule(p)
}

fn addresses_of(v: &Vec<String>) -> (res: Vec<Address>)
    ensures
        address_texts(res@) == texts(v@),
{
    let mut res: Vec<Address> = Vec::new();
    let mut i: usize = 0;
    while i < v.len()
        invariant
            i <= v@.len(),
            res@.len() == i,
            forall|k: int| 0 <= k < i ==> #[trigger] res@[k].0@ == v@[k]@,
        decreases v.len() - i,
    {
        res.push(Address::new(v[i].as_str()));
        i = i + 1;
    }
    assert(address_texts(res@) =~= texts(v@));
    res
}

/// Appends a rule, keeping the views of the list and the expected views equal.
fn push_rule(rules: &mut Vec<PolicyRule>, r: PolicyRule, Ghost(expected): Ghost<Seq<RuleView>>)
    requires
        rule_views(old(rules)@) == expected,
    ensures
        rule_views(final(rules)@) == expected + seq![rule_view(r)],
{
    rules.push(r);
    assert(rule_views(rules@) =~= expected + seq![rule_view(r)]);
}

/// Whether `v` holds a string whose text is `s`.
pub open spec fn has_text(v: Seq<String>, s: Seq<char>) -> bool {
    exists|i: int| 0 <= i < v.len() && v[i]@ == s
}

fn contains_text(v: &Vec<String>, s: &str) -> (r: bool)
    ensures
        r == has_text(v@, s@),
{
    let mut i: usize = 0;
    while i < v.len()
        invariant
            i <= v@.len(),
            forall|k: int| 0 <= k < i ==> v@[k]@ != s@,
        decreases v.len() - i,
    {
        if crate::text::str_eq(v[i].as_str(), s) {
            return true;
        }
        i = i + 1;
    }
    false
}

/// A policy governs an action when its intent (if set) is the action's and
/// its chains (if any) include the action's.
pub open spec fn policy_matches(p: TrustPolicy, intent: Seq<char>, chain: Seq<char>) -> bool {
    &&& (p.spec.matching.intent matches Some(req) ==> req@ == intent)
    &&& (p.spec.matching.chains@.len() > 0 ==> has_text(p.spec.matching.chains@, chain))
}

fn add_amount_rule(rules: &mut Vec<PolicyRule>, p: &TrustPolicy)
    ensures
        rule_views(final(rules)@) == rule_views(old(rules)@) + amount_rule(*p),
{
    let ghost start = rule_views(rules@);
    let v = &p.spec.validate;
    if let Some(max) = v.max_per_transaction {
        let currency = match &p.spec.matching.currency {
            Some(c) => c.clone(),
            None => "SOL".to_owned(),
        };
        push_rule(rules, PolicyRule::AmountLimit { max_per_transaction: max, max_per_24h: v.max_per_24h, currency }, Ghost(start));
    }
    assert(rule_views(rules@) =~= start + amount_rule(*p));
}

fn add_destination_rule(rules: &mut Vec<PolicyRule>, p: &TrustPolicy)
    ensures
        rule_views(final(rules)@) == rule_views(old(rules)@) + destination_rule(*p),
{
    let ghost start = rule_views(rules@);
    let v = &p.spec.validate;
    if v.allowlist.len() > 0 || v.blocklist.len() > 0 {
        let allowlist = addresses_of(&v.allowlist);
        let blocklist = addresses_of(&v.blocklist);
        push_rule(rules, PolicyRule::Destination { allowlist, blocklist }, Ghost(start));
    }
    assert(rule_views(rules@) =~= start + destination_rule(*p));
}

fn add_frequency_rule(rules: &mut Vec<PolicyRule>, p: &TrustPolicy)
    ensures
        rule_views(final(rules)@) == rule_views(old(rules)@) + frequency_rule(*p),
{
    let ghost start = rule_views(rules@);
    let v = &p.spec.validate;
    if let Some(max) = v.max_transactions_per_hour {
        push_rule(rules, PolicyRule::Frequency { max_transactions_per_hour: max }, Ghost(start));
    }
    assert(rule_views(rules@) =~= start + frequency_rule(*p));
}

fn add_hitl_rule(rules: &mut Vec<PolicyRule>, p: &TrustPolicy)
    ensures
        rule_views(final(rules)@) == rule_views(old(rules)@) + hitl_rule(*p),
{
    let ghost start = rule_views(rules@);
    let v = &p.spec.validate;
    if let Some(hitl) = p.spec.mutate.inject_human_approval {
        push_rule(rules, PolicyRule::HITL { trigger_above: hitl.trigger_above, timeout_seconds: hitl.timeout_seconds }, Ghost(start));
    }
    assert(rule_views(rules@) =~= start + hitl_rule(*p));
}

fn add_reputation_rule(rules: &mut Vec<PolicyRule>, p: &TrustPolicy)
    ensures
        rule_views(final(rules)@) == rule_views(old(rules)@) + reputation_rule(*p),
{
    let ghost start = rule_views(rules@);
    let v = &p.spec.validate;
    if let Some(score) = v.min_reputation_score {
        push_rule(rules, PolicyRule::Reputation { minimum_score: score, elevated_limit_multiplier_bits: None }, Ghost(start));
    }
    assert(rule_views(rules@) =~= start + reputation_rule(*p));
}

fn add_tx_type_rule(rules: &mut Vec<PolicyRule>, p: &TrustPolicy)
    ensures
        rule_views(final(rules)@) == rule_views(old(rules)@) + tx_type_rule(*p),
{
    let ghost start = rule_views(rules@);
    let v = &p.spec.validate;
    if v.allowed_tx_types.len() > 0 {
        let allowed = clone_strings(&v.allowed_tx_types);
        push_rule(rules, PolicyRule::TxTypeAllowlist { allowed }, Ghost(start));
    }
    assert(rule_views(rules@) =~= start + tx_type_rule(*p));
}

fn add_stake_rule(rules: &mut Vec<PolicyRule>, p: &TrustPolicy)
    ensures
        rule_views(final(rules)@) == rule_views(old(rules)@) + stake_rule(*p),
{
    let ghost start = rule_views(rules@);
    let v = &p.spec.validate;
    if let Some(min_stake) = v.min_stake_sol {
        let base_limit = match v.max_per_transaction {
            Some(m) => m,
            None => 1000,
        };
        push_rule(rules, PolicyRule::StakeWeighted {
            base_limit,
            min_stake,
            stake_multiplier_bits: 0x3FF0_0000_0000_0000,
            depth_decay_factor_bits: 0x3FE0_0000_0000_0000,
        }, Ghost(start));
    }
    assert(rule_views(rules@) =~= start + stake_rule(*p));
}

fn add_geofence_rule(rules: &mut Vec<PolicyRule>, p: &TrustPolicy)
    ensures
        rule_views(final(rules)@) == rule_views(old(rules)@) + geofence_rule(*p),
{
    let ghost start = rule_views(rules@);
    let v = &p.spec.validate;
    if let Some(geo) = v.geofence {
        push_rule(rules, PolicyRule::Geofence {
            lat_min_bits: geo.lat_min_bits,
            lon_min_bits: geo.lon_min_bits,
            lat_max_bits: geo.lat_max_bits,
            lon_max_bits: geo.lon_max_bits,
        }, Ghost(start));
    }
    assert(rule_views(rules@) =~= start + geofence_rule(*p));
}

fn add_speed_rule(rules: &mut Vec<PolicyRule>, p: &TrustPolicy)
    ensures
        rule_views(final(rules)@) == rule_views(old(rules)@) + speed_rule(*p),
{
    let ghost start = rule_views(rules@);
    let v = &p.spec.validate;
    if let Some(speed) = v.max_speed_mps_bits {
        push_rule(rules, PolicyRule::SpeedLimit { max_speed_mps_bits: speed }, Ghost(start));
    }
    assert(rule_views(rules@) =~= start + speed_rule(*p));
}

fn add_energy_rule(rules: &mut Vec<PolicyRule>, p: &TrustPolicy)
    ensures
        rule_views(final(rules)@) == rule_views(old(rules)@) + energy_rule(*p),
{
    let ghost start = rule_views(rules@);
    let v = &p.spec.validate;
    if let Some(joules) = v.max_joules_24h {
        push_rule(rules, PolicyRule::EnergyBudget { max_joules_24h: joules }, Ghost(start));
    }
    assert(rule_views(rules@) =~= start + energy_rule(*p));
}

fn add_hours_rule(rules: &mut Vec<PolicyRule>, p: &TrustPolicy)
    ensures
        rule_views(final(rules)@) == rule_views(old(rules)@) + hours_rule(*p),
{
    let ghost start = rule_views(rules@);
    let v = &p.spec.validate;
    if let Some(hours) = v.operating_hours {
        push_rule(rules, PolicyRule::OperatingHours { min_hour: hours.min_hour, max_hour: hours.max_hour }, Ghost(start));
    }
    assert(rule_views(rules@) =~= start + hours_rule(*p));
}

/// 1 when `b` holds, 0 otherwise.
pub open spec fn one_if(b: bool) -> int {
    if b { 1 } else { 0 }
}

/// How many of a policy's settings stand for an engine rule.
pub open spec fn settings_present(p: TrustPolicy) -> int {
    let v = p.spec.validate;
    one_if(v.max_per_transaction is Some) + one_if(v.allowlist@.len() > 0 || v.blocklist@.len() > 0)
        + one_if(v.max_transactions_per_hour is Some) + one_if(p.spec.mutate.inject_human_approval is Some)
        + one_if(v.min_reputation_score is Some) + one_if(v.allowed_tx_types@.len() > 0)
        + one_if(v.min_stake_sol is Some) + one_if(v.geofence is Some) + one_if(v.max_speed_mps_bits is Some)
        + one_if(v.max_joules_24h is Some) + one_if(v.operating_hours is Some)
}

/// Every setting of a policy becomes exactly one engine rule: the mapping
/// drops none and adds none. In particular a policy that sets nothing
/// stands for no rule.
pub proof fn lemma_each_setting_is_one_rule(p: TrustPolicy)
    ensures
        policy_rules(p).len() == settings_present(p),
        settings_present(p) == 0 ==> policy_rules(p).len() == 0,
{
}

impl TrustPolicy {
    /// The engine rules this policy stands for (see `policy_rules`).
    pub fn to_policy_rules(&self) -> (rules: Vec<PolicyRule>)
        ensures
            rule_views(rules@) == policy_rules(*self),
    {
        let mut rules: Vec<PolicyRule> = Vec::new();
        add_amount_rule(&mut rules, self);
        assert(rule_views(rules@) =~= amount_rule(*self));
        add_destination_rule(&mut rules, self);
        add_frequency_rule(&mut rules, self);
        add_hitl_rule(&mut rules, self);
        add_reputation_rule(&mut rules, self);
        add_tx_type_rule(&mut rules, self);
        add_stake_rule(&mut rules, self);
        add_geofence_rule(&mut rules, self);
        add_speed_rule(&mut rules, self);
        add_energy_rule(&mut rules, self);
        add_hours_rule(&mut rules, self);
        rules
    }

    /// Whether this policy governs an action of type `intent` on `chain`.
    pub fn matches(&self, intent: &str, chain: &str) -> (r: bool)
        ensures
            r == policy_matches(*self, intent@, chain@),
    {
        let m = &self.spec.matching;
        if let Some(required) = &m.intent {
            if !crate::text::str_eq(required.as_str(), intent) {
                return false;
            }
        }
        if m.chains.len() > 0 && !contains_text(&m.chains, chain) {
            return false;
        }
        true
    }
}


/// A policy without an intent governs every intent: whether it matches an
/// action does not depend on the action's intent, only on its chain (any
/// chain when the policy lists none, else one of the listed chains). A
/// policy with an intent matches only actions of that intent.
pub proof fn lemma_intent_free_policy_matches_every_intent(p: TrustPolicy, i1: Seq<char>, i2: Seq<char>, chain: Seq<char>)
    ensures
        p.spec.matching.intent is None ==> policy_matches(p, i1, chain) == policy_matches(p, i2, chain),
        p.spec.matching.intent is None ==> (policy_matches(p, i1, chain) <==> (p.spec.matching.chains@.len() == 0
            || exists|k: int| 0 <= k < p.spec.matching.chains@.len() && #[trigger] p.spec.matching.chains@[k]@ == chain)),
        p.spec.matching.intent is Some && policy_matches(p, i1, chain) ==> p.spec.matching.intent.unwrap()@ == i1,
        p.spec.matching.intent is None && p.spec.matching.chains@.len() == 0 ==> policy_matches(p, i1, chain),
{
}

} // verus!
