//! The built-in activities: what each reports for a step's input. Inputs
//! and outputs are compact JSON text; objects list their members in key
//! order, as `serde_json` writes its maps.

use vstd::prelude::*;
use crate::ids::{new_uuid, uuid_string, uuid_text};
use crate::json::{json_quote, push_decimal, push_json_string, push_str};
use crate::text::{decimal, string_of};
use crate::workflow::error::WorkflowError;

verus! {

/// What an activity is told of the step it runs for.
#[derive(Debug)]
pub struct ActivityContext {
    pub workflow_id: String,
    pub step_id: String,
    pub attempt: u32,
    pub agent_id: Option<String>,
}

/// The string member `key` of the JSON text `text`: what `serde_json`
/// gives when the text is parsed into a value and the member is read with
/// `get` and `as_str` (`None` for text that does not parse, a value that is
/// not an object, a missing member or one that is not a string).
pub uninterp spec fn json_str_member(text: Seq<char>, key: Seq<char>) -> Option<Seq<char>>;

/// The unsigned member `key` of the JSON text `text`, read likewise with
/// `get` and `as_u64`.
pub uninterp spec fn json_u64_member(text: Seq<char>, key: Seq<char>) -> Option<u64>;

/// Reads a string member of JSON text with `serde_json`: the text is parsed
/// into a `serde_json::Value`, then `Value::get` and `Value::as_str` are
/// applied. The contract claims only that the result is the named function
/// of the text and the key.
#[verifier::external_body]
fn str_member(text: &str, key: &str) -> (r: Option<String>)
    ensures
        r matches Some(s) ==> json_str_member(text@, key@) == Some(s@),
        r is None ==> json_str_member(text@, key@) is None,
{
    match serde_json::from_str::<serde_json::Value>(text) {
        Ok(v) => v.get(key).and_then(serde_json::Value::as_str).map(str::to_owned),
        Err(_) => None,
    }
}

/// Reads an unsigned member of JSON text with `serde_json`: parsed into a
/// `serde_json::Value`, then `Value::get` and `Value::as_u64`. The result
/// is claimed to be the named function of the text and the key.
#[verifier::external_body]
fn u64_member(text: &str, key: &str) -> (r: Option<u64>)
    ensures
        r == json_u64_member(text@, key@),
{
    match serde_json::from_str::<serde_json::Value>(text) {
        Ok(v) => v.get(key).and_then(serde_json::Value::as_u64),
        Err(_) => None,
    }
}

/// `"key":value` with the key quoted.
pub open spec fn member(key: Seq<char>, value: Seq<char>) -> Seq<char> {
    json_quote(key) + seq![':'] + value
}

/// A string member of `text`, or `"unknown"` when there is none.
pub open spec fn str_member_or_unknown(text: Seq<char>, key: Seq<char>) -> Seq<char> {
    match json_str_member(text, key) {
        Some(s) => s,
        None => "unknown"@,
    }
}

/// `{"input":<input>,"note":<note>,"status":<status>}`.
pub open spec fn noted_output(input: Seq<char>, note: Seq<char>, status: Seq<char>) -> Seq<char> {
    seq!['{'] + member("input"@, input) + seq![','] + member("note"@, json_quote(note)) + seq![',']
        + member("status"@, json_quote(status)) + seq!['}']
}

fn noted(input: &str, note: &str, status: &str) -> (o: String)
    ensures
        o@ == noted_output(input@, note@, status@),
{
    let mut v: Vec<char> = Vec::new();
    v.push('{');
    push_json_string(&mut v, "input");
    v.push(':');
    push_str(&mut v, input);
    v.push(',');
    push_json_string(&mut v, "note");
    v.push(':');
    push_json_string(&mut v, note);
    v.push(',');
    push_json_string(&mut v, "status");
    v.push(':');
    push_json_string(&mut v, status);
    v.push('}');
    assert(v@ =~= noted_output(input@, note@, status@));
    string_of(&v)
}

pub open spec fn approve_note() -> Seq<char> {
    "approve activity - resolved by human override signal in production"@
}

pub open spec fn simulate_note() -> Seq<char> {
    "simulate activity - connect to sidecar POST /simulate in production"@
}

pub open spec fn simulate_evm_note() -> Seq<char> {
    "simulate_evm activity - connect to sidecar POST /api/v2/simulate-evm in production"@
}

pub open spec fn compensate_note() -> Seq<char> {
    "compensate activity - submits the reversal transaction in production"@
}

pub open spec fn http_call_note() -> Seq<char> {
    "http_call activity - routes through Web2 firewall proxy in production"@
}

pub open spec fn fetch_secret_note() -> Seq<char> {
    "fetch_secret stub - Vault integration planned for Phase 3"@
}

/// `{"input":..,"leg_id":..,"note":..,"status":"compensated"}`.
pub open spec fn compensate_output(input: Seq<char>) -> Seq<char> {
    seq!['{'] + member("input"@, input) + seq![',']
        + member("leg_id"@, json_quote(str_member_or_unknown(input, "leg_id"@))) + seq![',']
        + member("note"@, json_quote(compensate_note())) + seq![',']
        + member("status"@, json_quote("compensated"@)) + seq!['}']
}

/// `{"key":..,"note":..}`.
pub open spec fn fetch_secret_output(input: Seq<char>) -> Seq<char> {
    seq!['{'] + member("key"@, json_quote(str_member_or_unknown(input, "key"@))) + seq![',']
        + member("note"@, json_quote(fetch_secret_note())) + seq!['}']
}

/// `{"input":..,"note":..,"status":"ok","status_code":200}`.
pub open spec fn http_call_output(input: Seq<char>) -> Seq<char> {
    seq!['{'] + member("input"@, input) + seq![','] + member("note"@, json_quote(http_call_note())) + seq![',']
        + member("status"@, json_quote("ok"@)) + seq![','] + member("status_code"@, "200"@) + seq!['}']
}

/// `{"audit_id":"audit_<uuid>","input":..,"status":"settled"}`.
pub open spec fn settle_output(input: Seq<char>, audit: u128) -> Seq<char> {
    seq!['{'] + member("audit_id"@, json_quote("audit_"@ + uuid_text(audit))) + seq![',']
        + member("input"@, input) + seq![','] + member("status"@, json_quote("settled"@)) + seq!['}']
}

/// How long a sleep step waits: its `ms` member, else one second.
pub open spec fn sleep_ms(input: Seq<char>) -> u64 {
    match json_u64_member(input, "ms"@) {
        Some(ms) => ms,
        None => 1000,
    }
}

/// `{"slept_ms":<ms>}`.
pub open spec fn sleep_output(ms: u64) -> Seq<char> {
    seq!['{'] + member("slept_ms"@, decimal(ms as nat)) + seq!['}']
}

/// Waits for a human: the request is recorded as approved (the override
/// signal resolves it in production).
#[derive(Debug)]
pub struct ApproveActivity;

impl ApproveActivity {
    pub fn name(&self) -> (n: &'static str)
        ensures
            n@ == "approve"@,
    {
        "approve"
    }

    pub fn execute(&self, input: &str, ctx: &ActivityContext) -> (r: Result<String, WorkflowError>)
        ensures
            r matches Ok(o) && o@ == noted_output(input@, approve_note(), "approved"@),
    {
        Ok(noted(input, "approve activity - resolved by human override signal in production", "approved"))
    }
}

/// Simulates a leg (the sidecar's `/simulate` in production).
#[derive(Debug)]
pub struct SimulateActivity;

impl SimulateActivity {
    pub fn name(&self) -> (n: &'static str)
        ensures
            n@ == "simulate"@,
    {
        "simulate"
    }

    pub fn execute(&self, input: &str, ctx: &ActivityContext) -> (r: Result<String, WorkflowError>)
        ensures
            r matches Ok(o) && o@ == noted_output(input@, simulate_note(), "simulated"@),
    {
        Ok(noted(input, "simulate activity - connect to sidecar POST /simulate in production", "simulated"))
    }
}

/// Simulates an EVM leg (the sidecar's `/api/v2/simulate-evm` in
/// production).
#[derive(Debug)]
pub struct SimulateEvmActivity;

impl SimulateEvmActivity {
    pub fn name(&self) -> (n: &'static str)
        ensures
            n@ == "simulate_evm"@,
    {
        "simulate_evm"
    }

    pub fn execute(&self, input: &str, ctx: &ActivityContext) -> (r: Result<String, WorkflowError>)
        ensures
            r matches Ok(o) && o@ == noted_output(input@, simulate_evm_note(), "simulated_evm"@),
    {
        Ok(noted(
            input,
            "simulate_evm activity - connect to sidecar POST /api/v2/simulate-evm in production",
            "simulated_evm",
        ))
    }
}

/// Settles a leg and names the audit entry that records it.
#[derive(Debug)]
pub struct SettleActivity;

impl SettleActivity {
    pub fn name(&self) -> (n: &'static str)
        ensures
            n@ == "settle"@,
    {
        "settle"
    }

    /// The settlement report for `input` under the audit identifier `audit`.
    pub fn report(input: &str, audit: u128) -> (o: String)
        ensures
            o@ == settle_output(input@, audit),
    {
        let mut v: Vec<char> = Vec::new();
        v.push('{');
        push_json_string(&mut v, "audit_id");
        v.push(':');
        let mut id: Vec<char> = Vec::new();
        push_str(&mut id, "audit_");
        let u = uuid_string(audit);
        push_str(&mut id, u.as_str());
        let id_text = string_of(&id);
        assert(id_text@ =~= "audit_"@ + uuid_text(audit));
        push_json_string(&mut v, id_text.as_str());
        v.push(',');
        push_json_string(&mut v, "input");
        v.push(':');
        push_str(&mut v, input);
        v.push(',');
        push_json_string(&mut v, "status");
        v.push(':');
        push_json_string(&mut v, "settled");
        v.push('}');
        assert(v@ =~= settle_output(input@, audit));
        string_of(&v)
    }

    /// Settles under a fresh random audit identifier.
    pub fn execute(&self, input: &str, ctx: &ActivityContext) -> (r: Result<String, WorkflowError>)
        ensures
            r matches Ok(o) && exists|audit: u128| o@ == settle_output(input@, audit),
    {
        let audit = new_uuid();
        Ok(Self::report(input, audit))
    }
}

/// Runs the compensating action of a completed leg; the report names the
/// leg (its `leg_id` member, else `unknown`).
#[derive(Debug)]
pub struct CompensateActivity;

impl CompensateActivity {
    pub fn name(&self) -> (n: &'static str)
        ensures
            n@ == "compensate"@,
    {
        "compensate"
    }

    pub fn execute(&self, input: &str, ctx: &ActivityContext) -> (r: Result<String, WorkflowError>)
        ensures
            r matches Ok(o) && o@ == compensate_output(input@),
    {
        let leg = match str_member(input, "leg_id") {
            Some(s) => s,
            None => "unknown".to_owned(),
        };
        let mut v: Vec<char> = Vec::new();
        v.push('{');
        push_json_string(&mut v, "input");
        v.push(':');
        push_str(&mut v, input);
        v.push(',');
        push_json_string(&mut v, "leg_id");
        v.push(':');
        push_json_string(&mut v, leg.as_str());
        v.push(',');
        push_json_string(&mut v, "note");
        v.push(':');
        push_json_string(&mut v, "compensate activity - submits the reversal transaction in production");
        v.push(',');
        push_json_string(&mut v, "status");
        v.push(':');
        push_json_string(&mut v, "compensated");
        v.push('}');
        assert(v@ =~= compensate_output(input@));
        Ok(string_of(&v))
    }
}

/// Calls an HTTP endpoint (through the Web2 firewall in production).
#[derive(Debug)]
pub struct HttpCallActivity;

impl HttpCallActivity {
    pub fn name(&self) -> (n: &'static str)
        ensures
            n@ == "http_call"@,
    {
        "http_call"
    }

    pub fn execute(&self, input: &str, ctx: &ActivityContext) -> (r: Result<String, WorkflowError>)
        ensures
            r matches Ok(o) && o@ == http_call_output(input@),
    {
        let mut v: Vec<char> = Vec::new();
        v.push('{');
        push_json_string(&mut v, "input");
        v.push(':');
        push_str(&mut v, input);
        v.push(',');
        push_json_string(&mut v, "note");
        v.push(':');
        push_json_string(&mut v, "http_call activity - routes through Web2 firewall proxy in production");
        v.push(',');
        push_json_string(&mut v, "status");
        v.push(':');
        push_json_string(&mut v, "ok");
        v.push(',');
        push_json_string(&mut v, "status_code");
        v.push(':');
        push_str(&mut v, "200");
        v.push('}');
        assert(v@ =~= http_call_output(input@));
        Ok(string_of(&v))
    }
}

/// Fetches a secret by its `key` member (a stub until the vault is wired).
#[derive(Debug)]
pub struct FetchSecretActivity;

impl FetchSecretActivity {
    pub fn name(&self) -> (n: &'static str)
        ensures
            n@ == "fetch_secret"@,
    {
        "fetch_secret"
    }

    pub fn execute(&self, input: &str, ctx: &ActivityContext) -> (r: Result<String, WorkflowError>)
        ensures
            r matches Ok(o) && o@ == fetch_secret_output(input@),
    {
        let key = match str_member(input, "key") {
            Some(s) => s,
            None => "unknown".to_owned(),
        };
        let mut v: Vec<char> = Vec::new();
        v.push('{');
        push_json_string(&mut v, "key");
        v.push(':');
        push_json_string(&mut v, key.as_str());
        v.push(',');
        push_json_string(&mut v, "note");
        v.push(':');
        push_json_string(&mut v, "fetch_secret stub - Vault integration planned for Phase 3");
        v.push('}');
        assert(v@ =~= fetch_secret_output(input@));
        Ok(string_of(&v))
    }
}

/// Waits for the `ms` member of its input (one second by default); the
/// wait itself is the caller's, this reports it.
#[derive(Debug)]
pub struct SleepActivity;

impl SleepActivity {
    pub fn name(&self) -> (n: &'static str)
        ensures
            n@ == "sleep"@,
    {
        "sleep"
    }

    /// How long the step waits.
    pub fn duration_ms(&self, input: &str) -> (ms: u64)
        ensures
            ms == sleep_ms(input@),
    {
        match u64_member(input, "ms") {
            Some(ms) => ms,
            None => 1000,
        }
    }

    /// The report once the wait is over.
    pub fn execute(&self, input: &str, ctx: &ActivityContext) -> (r: Result<String, WorkflowError>)
        ensures
            r matches Ok(o) && o@ == sleep_output(sleep_ms(input@)),
    {
        let ms = self.duration_ms(input);
        let mut v: Vec<char> = Vec::new();
        v.push('{');
        push_json_string(&mut v, "slept_ms");
        v.push(':');
        push_decimal(&mut v, ms);
        v.push('}');
        assert(v@ =~= sleep_output(ms));
        Ok(string_of(&v))
    }
}

} // verus!
