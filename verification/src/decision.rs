//! The outcome of evaluating a transaction against policy.

use vstd::prelude::*;
use crate::json::push_str;
use crate::text::string_of;

verus! {

/// A firewall decision: let the transaction through, block it (naming the
/// policy when one is known), or hold it for human approval.
#[derive(Debug)]
pub enum FirewallDecision {
    Pass,
    Block { reason: String, policy_id: Option<String> },
    PendingHITL { approval_id: String, reason: String },
}

/// What std's `Debug` formatting (`format!("{:?}", s)`) makes of a string:
/// the text in double quotes, with the characters that need it escaped.
pub uninterp spec fn str_debug_of(s: Seq<char>) -> Seq<char>;

/// std's `Debug` formatting of a `str`. The result is named by
/// `str_debug_of`; the escaping rules it follows are not restated here.
#[verifier::external_body]
fn debug_str(s: &str) -> (r: String)
    ensures
        r@ == str_debug_of(s@),
{
    format!("{:?}", s)
}

/// The `Debug` text of an optional string: `None`, or `Some(..)` around the
/// string's `Debug` text.
pub open spec fn option_debug(o: Option<String>) -> Seq<char> {
    match o {
        Some(s) => "Some("@ + str_debug_of(s@) + ")"@,
        None => "None"@,
    }
}

/// The `Debug` text of a decision, as `derive(Debug)` writes it: the
/// variant's name, then its fields as `{ name: value, .. }`.
pub open spec fn decision_debug(d: FirewallDecision) -> Seq<char> {
    match d {
        FirewallDecision::Pass => "Pass"@,
        FirewallDecision::Block { reason, policy_id } => "Block { reason: "@ + str_debug_of(reason@)
            + ", policy_id: "@ + option_debug(policy_id) + " }"@,
        FirewallDecision::PendingHITL { approval_id, reason } => "PendingHITL { approval_id: "@
            + str_debug_of(approval_id@) + ", reason: "@ + str_debug_of(reason@) + " }"@,
    }
}

impl FirewallDecision {
    /// The decision's `Debug` text.
    pub fn debug_text(&self) -> (t: String)
        ensures
            t@ == decision_debug(*self),
    {
        let mut v: Vec<char> = Vec::new();
        match self {
            FirewallDecision::Pass => {
                push_str(&mut v, "Pass");
            },
            FirewallDecision::Block { reason, policy_id } => {
                push_str(&mut v, "Block { reason: ");
                let r = debug_str(reason.as_str());
                push_str(&mut v, r.as_str());
                push_str(&mut v, ", policy_id: ");
                match policy_id {
                    Some(p) => {
                        push_str(&mut v, "Some(");
                        let q = debug_str(p.as_str());
                        push_str(&mut v, q.as_str());
                        push_str(&mut v, ")");
                    },
                    None => {
                        push_str(&mut v, "None");
                    },
                }
                push_str(&mut v, " }");
            },
            FirewallDecision::PendingHITL { approval_id, reason } => {
                push_str(&mut v, "PendingHITL { approval_id: ");
                let a = debug_str(approval_id.as_str());
                push_str(&mut v, a.as_str());
                push_str(&mut v, ", reason: ");
                let r = debug_str(reason.as_str());
                push_str(&mut v, r.as_str());
                push_str(&mut v, " }");
            },
        }
        assert(v@ =~= decision_debug(*self));
        string_of(&v)
    }
}

} // verus!
