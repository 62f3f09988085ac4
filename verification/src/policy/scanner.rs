//! Background scanning for trust violations.
//!
//! The host gathers a snapshot of its stores (open approvals, delegation
//! expiries, drifted policies, open plans) and the scanner reports what in
//! it violates the configured time limits.

use vstd::prelude::*;
use crate::policy::trust_policy::{BackgroundConfig, ScanFinding, ScanFindingKind, ScanResult};
use crate::text::decimal;

verus! {

/// The raw observations a scan reasons about.
#[derive(Debug)]
pub struct ScanSnapshot {
    /// Unix seconds when the snapshot was gathered.
    pub now: u64,
    /// (approval id, created at) of open human-in-the-loop holds.
    pub pending_approvals: Vec<(String, u64)>,
    /// (agent DID, expiry) of delegations that carry an expiry.
    pub delegation_expiries: Vec<(String, u64)>,
    /// Names of enforced policies the live engine no longer satisfies.
    pub drifted_policies: Vec<String>,
    /// (plan id, last activity) of plans that have not settled.
    pub open_plans: Vec<(String, u64)>,
}

impl Default for ScanSnapshot {
    fn default() -> (s: Self)
        ensures
            s.now == 0,
            s.pending_approvals@.len() == 0,
            s.delegation_expiries@.len() == 0,
            s.drifted_policies@.len() == 0,
            s.open_plans@.len() == 0,
    {
        ScanSnapshot {
            now: 0,
            pending_approvals: Vec::new(),
            delegation_expiries: Vec::new(),
            drifted_policies: Vec::new(),
            open_plans: Vec::new(),
        }
    }
}

/// Checks snapshots against time limits.
#[derive(Debug, Clone, Copy, PartialEq, Eq, Structural)]
pub struct BackgroundScanner {
    pub scan_interval_secs: u64,
    /// Approvals held at least this long are expired.
    pub approval_ttl_secs: u64,
    /// Plans idle at least this long are unsettled.
    pub unsettled_ttl_secs: u64,
}

/// A finding seen as plain values.
pub struct FindingView {
    pub kind: ScanFindingKind,
    pub id: Seq<char>,
    pub detail: Seq<char>,
}

pub open spec fn finding_view(f: ScanFinding) -> FindingView {
    FindingView { kind: f.kind, id: f.id@, detail: f.detail@ }
}

pub open spec fn finding_views(fs: Seq<ScanFinding>) -> Seq<FindingView> {
    Seq::new(fs.len(), |i: int| finding_view(fs[i]))
}

/// Two scan results carry the same values.
pub open spec fn scan_result_same(a: ScanResult, b: ScanResult) -> bool {
    &&& a.timestamp == b.timestamp
    &&& a.expired_approvals == b.expired_approvals
    &&& a.expired_delegations == b.expired_delegations
    &&& a.policy_drifts == b.policy_drifts
    &&& a.unsettled_transactions == b.unsettled_transactions
    &&& finding_views(a.findings@) == finding_views(b.findings@)
}

impl Clone for ScanFinding {
    fn clone(&self) -> (f: Self)
        ensures
            f == *self,
    {
        ScanFinding { kind: self.kind, id: self.id.clone(), detail: self.detail.clone() }
    }
}

impl Clone for ScanResult {
    fn clone(&self) -> (r: Self)
        ensures
            scan_result_same(r, *self),
    {
        let mut findings: Vec<ScanFinding> = Vec::new();
        let mut i: usize = 0;
        while i < self.findings.len()
            invariant
                i <= self.findings@.len(),
                findings@ == self.findings@.take(i as int),
            decreases self.findings.len() - i,
        {
            findings.push(self.findings[i].clone());
            i = i + 1;
            assert(findings@ =~= self.findings@.take(i as int));
        }
        assert(self.findings@.take(self.findings@.len() as int) =~= self.findings@);
        ScanResult {
            timestamp: self.timestamp,
            expired_approvals: self.expired_approvals,
            expired_delegations: self.expired_delegations,
            policy_drifts: self.policy_drifts,
            unsettled_transactions: self.unsettled_transactions,
            findings,
        }
    }
}

/// Seconds elapsed from `since` to `now`, zero if `since` is later.
pub open spec fn elapsed(now: u64, since: u64) -> int {
    if now >= since { now - since } else { 0 }
}

/// The ids of `entries` whose time lies at least `ttl` seconds before `now`.
pub open spec fn aged(entries: Seq<(String, u64)>, now: u64, ttl: u64) -> Seq<Seq<char>>
    decreases entries.len(),
{
    if entries.len() == 0 {
        Seq::empty()
    } else {
        let rest = aged(entries.drop_last(), now, ttl);
        if elapsed(now, entries.last().1) >= ttl { rest.push(entries.last().0@) } else { rest }
    }
}

/// The ids of `entries` whose time is not after `now`.
pub open spec fn lapsed(entries: Seq<(String, u64)>, now: u64) -> Seq<Seq<char>>
    decreases entries.len(),
{
    if entries.len() == 0 {
        Seq::empty()
    } else {
        let rest = lapsed(entries.drop_last(), now);
        if entries.last().1 <= now { rest.push(entries.last().0@) } else { rest }
    }
}

/// Findings of one kind and detail for each of `ids`.
pub open spec fn findings_for(kind: ScanFindingKind, ids: Seq<Seq<char>>, detail: Seq<char>) -> Seq<FindingView> {
    Seq::new(ids.len(), |i: int| FindingView { kind, id: ids[i], detail })
}

pub open spec fn approval_detail(ttl: u64) -> Seq<char> {
    "approval held for more than "@ + decimal(ttl as nat) + "s"@
}

pub open spec fn delegation_detail() -> Seq<char> {
    "delegation expiry has passed"@
}

pub open spec fn drift_detail() -> Seq<char> {
    "enforced policy requirements are no longer met by the live engine"@
}

pub open spec fn unsettled_detail(ttl: u64) -> Seq<char> {
    "plan idle for more than "@ + decimal(ttl as nat) + "s without settling"@
}

/// The texts of `names`.
pub open spec fn names_of(names: Seq<String>) -> Seq<Seq<char>> {
    Seq::new(names.len(), |i: int| names[i]@)
}

/// The ids an enabled detector reports, or none when it is off.
pub open spec fn when_on(on: bool, ids: Seq<Seq<char>>) -> Seq<Seq<char>> {
    if on { ids } else { Seq::empty() }
}

pub open spec fn expired_approval_ids(sc: BackgroundScanner, snap: ScanSnapshot, cfg: BackgroundConfig) -> Seq<Seq<char>> {
    when_on(cfg.detect_expired_approvals, aged(snap.pending_approvals@, snap.now, sc.approval_ttl_secs))
}

pub open spec fn expired_delegation_ids(snap: ScanSnapshot, cfg: BackgroundConfig) -> Seq<Seq<char>> {
    when_on(cfg.detect_expired_delegations, lapsed(snap.delegation_expiries@, snap.now))
}

pub open spec fn drifted_policy_ids(snap: ScanSnapshot, cfg: BackgroundConfig) -> Seq<Seq<char>> {
    when_on(cfg.detect_policy_drift, names_of(snap.drifted_policies@))
}

pub open spec fn unsettled_plan_ids(sc: BackgroundScanner, snap: ScanSnapshot, cfg: BackgroundConfig) -> Seq<Seq<char>> {
    when_on(cfg.detect_unsettled_transactions, aged(snap.open_plans@, snap.now, sc.unsettled_ttl_secs))
}

/// Every finding of a scan, detector by detector, each in snapshot order.
pub open spec fn scan_findings(sc: BackgroundScanner, snap: ScanSnapshot, cfg: BackgroundConfig) -> Seq<FindingView> {
    findings_for(ScanFindingKind::ExpiredApproval, expired_approval_ids(sc, snap, cfg), approval_detail(sc.approval_ttl_secs))
        + findings_for(ScanFindingKind::ExpiredDelegation, expired_delegation_ids(snap, cfg), delegation_detail())
        + findings_for(ScanFindingKind::PolicyDrift, drifted_policy_ids(snap, cfg), drift_detail())
        + findings_for(ScanFindingKind::UnsettledTransaction, unsettled_plan_ids(sc, snap, cfg), unsettled_detail(sc.unsettled_ttl_secs))
}

fn text_of(s: &str) -> (r: String)
    ensures
        r@ == s@,
{
    s.to_owned()
}

/// Appends a finding.
fn push_finding(findings: &mut Vec<ScanFinding>, kind: ScanFindingKind, id: &String, detail: &String)
    ensures
        finding_views(final(findings)@) == finding_views(old(findings)@).push(FindingView { kind, id: id@, detail: detail@ }),
{
    findings.push(ScanFinding { kind, id: id.clone(), detail: detail.clone() });
    assert(finding_views(findings@) =~= finding_views(old(findings)@).push(FindingView { kind, id: id@, detail: detail@ }));
}

/// Reports the entries at least `ttl` seconds old.
fn scan_aged(findings: &mut Vec<ScanFinding>, entries: &Vec<(String, u64)>, now: u64, ttl: u64, kind: ScanFindingKind, detail: &String)
    ensures
        finding_views(final(findings)@) == finding_views(old(findings)@) + findings_for(kind, aged(entries@, now, ttl), detail@),
{
    let ghost start = finding_views(findings@);
    let mut i: usize = 0;
    while i < entries.len()
        invariant
            i <= entries@.len(),
            finding_views(findings@) == start + findings_for(kind, aged(entries@.take(i as int), now, ttl), detail@),
        decreases entries.len() - i,
    {
        let ghost before = aged(entries@.take(i as int), now, ttl);
        assert(entries@.take(i + 1).drop_last() =~= entries@.take(i as int));
        assert(entries@.take(i + 1).last() == entries@[i as int]);
        let (id, t) = &entries[i];
        if now.saturating_sub(*t) >= ttl {
            push_finding(findings, kind, id, detail);
            assert(findings_for(kind, before.push(id@), detail@) =~= findings_for(kind, before, detail@).push(
                FindingView { kind, id: id@, detail: detail@ }));
        }
        i = i + 1;
    }
    assert(entries@.take(entries@.len() as int) =~= entries@);
}

/// Reports the entries whose time is not after `now`.
fn scan_lapsed(findings: &mut Vec<ScanFinding>, entries: &Vec<(String, u64)>, now: u64, kind: ScanFindingKind, detail: &String)
    ensures
        finding_views(final(findings)@) == finding_views(old(findings)@) + findings_for(kind, lapsed(entries@, now), detail@),
{
    let ghost start = finding_views(findings@);
    let mut i: usize = 0;
    while i < entries.len()
        invariant
            i <= entries@.len(),
            finding_views(findings@) == start + findings_for(kind, lapsed(entries@.take(i as int), now), detail@),
        decreases entries.len() - i,
    {
        let ghost before = lapsed(entries@.take(i as int), now);
        assert(entries@.take(i + 1).drop_last() =~= entries@.take(i as int));
        assert(entries@.take(i + 1).last() == entries@[i as int]);
        let (id, t) = &entries[i];
        if *t <= now {
            push_finding(findings, kind, id, detail);
            assert(findings_for(kind, before.push(id@), detail@) =~= findings_for(kind, before, detail@).push(
                FindingView { kind, id: id@, detail: detail@ }));
        }
        i = i + 1;
    }
    assert(entries@.take(entries@.len() as int) =~= entries@);
}

/// Reports every name.
fn scan_all(findings: &mut Vec<ScanFinding>, names: &Vec<String>, kind: ScanFindingKind, detail: &String)
    ensures
        finding_views(final(findings)@) == finding_views(old(findings)@) + findings_for(kind, names_of(names@), detail@),
{
    let ghost start = finding_views(findings@);
    let mut i: usize = 0;
    while i < names.len()
        invariant
            i <= names@.len(),
            finding_views(findings@) == start + findings_for(kind, names_of(names@.take(i as int)), detail@),
        decreases names.len() - i,
    {
        push_finding(findings, kind, &names[i], detail);
        assert(findings_for(kind, names_of(names@.take(i + 1)), detail@) =~= findings_for(kind, names_of(names@.take(i as int)), detail@).push(
            FindingView { kind, id: names@[i as int]@, detail: detail@ }));
        i = i + 1;
    }
    assert(names@.take(names@.len() as int) =~= names@);
}

fn with_suffix(prefix: &str, n: u64, suffix: &str) -> (s: String)
    ensures
        s@ == prefix@ + decimal(n as nat) + suffix@,
{
    let mut v: Vec<char> = Vec::new();
    crate::json::push_str(&mut v, prefix);
    assert(v@ =~= prefix@);
    crate::json::push_decimal(&mut v, n);
    crate::json::push_str(&mut v, suffix);
    crate::text::string_of(&v)
}

impl BackgroundScanner {
    /// A scanner run every `scan_interval_secs`, with the default limits:
    /// approvals expire after an hour, plans are unsettled after a day.
    pub fn new(scan_interval_secs: u64) -> (s: Self)
        ensures
            s.scan_interval_secs == scan_interval_secs,
            s.approval_ttl_secs == 3600,
            s.unsettled_ttl_secs == 86_400,
    {
        BackgroundScanner { scan_interval_secs, approval_ttl_secs: 3600, unsettled_ttl_secs: 86_400 }
    }

    /// The same scanner with other limits.
    pub fn with_ttls(self, approval_ttl_secs: u64, unsettled_ttl_secs: u64) -> (s: Self)
        ensures
            s.scan_interval_secs == self.scan_interval_secs,
            s.approval_ttl_secs == approval_ttl_secs,
            s.unsettled_ttl_secs == unsettled_ttl_secs,
    {
        BackgroundScanner { approval_ttl_secs, unsettled_ttl_secs, ..self }
    }

    /// Scans a snapshot with the detectors `config` switches on: approvals
    /// held at least the approval limit, delegations whose expiry is not
    /// after now, every drifted policy, and plans idle at least the
    /// unsettled limit. Each count is the number of findings of its kind.
    pub fn scan(&self, snapshot: &ScanSnapshot, config: &BackgroundConfig) -> (r: ScanResult)
        ensures
            r.timestamp == snapshot.now,
            finding_views(r.findings@) == scan_findings(*self, *snapshot, *config),
            r.expired_approvals == expired_approval_ids(*self, *snapshot, *config).len(),
            r.expired_delegations == expired_delegation_ids(*snapshot, *config).len(),
            r.policy_drifts == drifted_policy_ids(*snapshot, *config).len(),
            r.unsettled_transactions == unsettled_plan_ids(*self, *snapshot, *config).len(),
    {
        let mut findings: Vec<ScanFinding> = Vec::new();
        assert(finding_views(findings@) =~= Seq::<FindingView>::empty());

        let d1 = with_suffix("approval held for more than ", self.approval_ttl_secs, "s");
        if config.detect_expired_approvals {
            scan_aged(&mut findings, &snapshot.pending_approvals, snapshot.now, self.approval_ttl_secs,
                ScanFindingKind::ExpiredApproval, &d1);
        }
        let n1 = findings.len();
        let ghost g1 = findings_for(ScanFindingKind::ExpiredApproval, expired_approval_ids(*self, *snapshot, *config),
            approval_detail(self.approval_ttl_secs));
        assert(finding_views(findings@) =~= g1);

        let d2 = text_of("delegation expiry has passed");
        if config.detect_expired_delegations {
            scan_lapsed(&mut findings, &snapshot.delegation_expiries, snapshot.now, ScanFindingKind::ExpiredDelegation, &d2);
        }
        let n2 = findings.len();
        let ghost g2 = findings_for(ScanFindingKind::ExpiredDelegation, expired_delegation_ids(*snapshot, *config), delegation_detail());
        assert(finding_views(findings@) =~= g1 + g2);

        let d3 = text_of("enforced policy requirements are no longer met by the live engine");
        if config.detect_policy_drift {
            scan_all(&mut findings, &snapshot.drifted_policies, ScanFindingKind::PolicyDrift, &d3);
        }
        let n3 = findings.len();
        let ghost g3 = findings_for(ScanFindingKind::PolicyDrift, drifted_policy_ids(*snapshot, *config), drift_detail());
        assert(finding_views(findings@) =~= g1 + g2 + g3);

        let d4 = with_suffix("plan idle for more than ", self.unsettled_ttl_secs, "s without settling");
        if config.detect_unsettled_transactions {
            scan_aged(&mut findings, &snapshot.open_plans, snapshot.now, self.unsettled_ttl_secs,
                ScanFindingKind::UnsettledTransaction, &d4);
        }
        let n4 = findings.len();
        let ghost g4 = findings_for(ScanFindingKind::UnsettledTransaction, unsettled_plan_ids(*self, *snapshot, *config),
            unsettled_detail(self.unsettled_ttl_secs));
        assert(finding_views(findings@) =~= g1 + g2 + g3 + g4);

        ScanResult {
            timestamp: snapshot.now,
            expired_approvals: n1 as u64,
            expired_delegations: (n2 - n1) as u64,
            policy_drifts: (n3 - n2) as u64,
            unsettled_transactions: (n4 - n3) as u64,
            findings,
        }
    }
}

/// A scan with every detector switched off reports nothing, whatever the
/// snapshot holds.
pub proof fn lemma_disabled_detectors_report_nothing(sc: BackgroundScanner, snap: ScanSnapshot, cfg: BackgroundConfig)
    requires
        !cfg.detect_expired_approvals,
        !cfg.detect_expired_delegations,
        !cfg.detect_policy_drift,
        !cfg.detect_unsettled_transactions,
    ensures
        scan_findings(sc, snap, cfg).len() == 0,
        expired_approval_ids(sc, snap, cfg).len() == 0,
        expired_delegation_ids(snap, cfg).len() == 0,
        drifted_policy_ids(snap, cfg).len() == 0,
        unsettled_plan_ids(sc, snap, cfg).len() == 0,
{
}

/// A snapshot with nothing pending, no delegations, no drift and no open
/// plans yields no findings, whatever the detectors and limits.
pub proof fn lemma_empty_snapshot_reports_nothing(sc: BackgroundScanner, snap: ScanSnapshot, cfg: BackgroundConfig)
    requires
        snap.pending_approvals@.len() == 0,
        snap.delegation_expiries@.len() == 0,
        snap.drifted_policies@.len() == 0,
        snap.open_plans@.len() == 0,
    ensures
        scan_findings(sc, snap, cfg).len() == 0,
{
    assert(aged(snap.pending_approvals@, snap.now, sc.approval_ttl_secs).len() == 0);
    assert(lapsed(snap.delegation_expiries@, snap.now).len() == 0);
    assert(aged(snap.open_plans@, snap.now, sc.unsettled_ttl_secs).len() == 0);
}

} // verus!
