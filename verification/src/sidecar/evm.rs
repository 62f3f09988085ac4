//! EVM transaction simulation: which RPC endpoint serves a chain, and what
//! an `eth_call` plus the balances read around it make of a transaction.

use vstd::prelude::*;
use crate::json::{json_quote, push_json_string, push_signed_decimal, push_str, signed_decimal};
use crate::keyed::{keyed_view, put, put_entry};
use crate::num::{parse_hex_u128, parse_hex_u128_spec};
use crate::sidecar::simulation::{compute_simulation_hash, opt_text, simulation_bytes, ReturnData, SimulationResult};
use crate::text::{ascii_upper_seq, str_eq, string_of, to_ascii_uppercase};

verus! {

/// An EVM transaction as submitted for simulation; quantities are hex text.
#[derive(Debug)]
pub struct EvmTxParams {
    pub from: String,
    pub to: String,
    pub value: Option<String>,
    pub data: Option<String>,
    pub gas: Option<String>,
    pub gas_price: Option<String>,
    pub max_fee_per_gas: Option<String>,
    pub max_priority_fee_per_gas: Option<String>,
    pub nonce: Option<String>,
}

/// The body of a simulation request.
#[derive(Debug)]
pub struct EvmSimulateRequest {
    pub transaction: EvmTxParams,
    pub intent: Option<String>,
    pub chain: Option<String>,
    pub agent_id: Option<String>,
}

/// The body of a simulation response.
#[derive(Debug)]
pub struct EvmSimulateResponse {
    pub allowed: bool,
    pub decision: String,
    pub reason: Option<String>,
    pub simulation_result: Option<SimulationResult>,
    pub risk_score: Option<u8>,
    pub risk_summary: Option<String>,
}

/// The environment variable naming the RPC endpoint of a chain: the known
/// chains have their own names (the Sepolia testnet's cannot be derived),
/// any other chain `<CHAIN>_RPC_URL` with its name in ASCII uppercase.
pub open spec fn chain_env_var(chain: Seq<char>) -> Seq<char> {
    if chain == "ethereum"@ {
        "ETH_RPC_URL"@
    } else if chain == "base"@ {
        "BASE_RPC_URL"@
    } else if chain == "celo"@ {
        "CELO_RPC_URL"@
    } else if chain == "sepolia"@ {
        "ETH_SEPOLIA_RPC_URL"@
    } else {
        ascii_upper_seq(chain) + "_RPC_URL"@
    }
}

/// The chains with their own RPC variable, and the variable's name.
pub fn evm_chain_env_vars() -> (v: Vec<(&'static str, &'static str)>)
    ensures
        v@.len() == 4,
        forall|i: int| 0 <= i < 4 ==> chain_env_var(#[trigger] v@[i].0@) == v@[i].1@,
{
    let v = vec![
        ("ethereum", "ETH_RPC_URL"),
        ("base", "BASE_RPC_URL"),
        ("celo", "CELO_RPC_URL"),
        ("sepolia", "ETH_SEPOLIA_RPC_URL"),
    ];
    proof {
        reveal_strlit("ethereum");
        reveal_strlit("base");
        reveal_strlit("celo");
        reveal_strlit("sepolia");
        assert("base"@.len() != "ethereum"@.len());
        assert("celo"@.len() != "ethereum"@.len());
        assert("celo"@[0] != "base"@[0]);
    }
    assert(chain_env_var(v@[0].0@) == v@[0].1@);
    assert(chain_env_var(v@[1].0@) == v@[1].1@);
    assert(chain_env_var(v@[2].0@) == v@[2].1@);
    assert(chain_env_var(v@[3].0@) == v@[3].1@);
    v
}

/// The RPC environment variable of a chain.
pub fn evm_rpc_env_var(chain: &str) -> (r: String)
    ensures
        r@ == chain_env_var(chain@),
{
    if str_eq(chain, "ethereum") {
        "ETH_RPC_URL".to_owned()
    } else if str_eq(chain, "base") {
        "BASE_RPC_URL".to_owned()
    } else if str_eq(chain, "celo") {
        "CELO_RPC_URL".to_owned()
    } else if str_eq(chain, "sepolia") {
        "ETH_SEPOLIA_RPC_URL".to_owned()
    } else {
        let up = to_ascii_uppercase(chain);
        let mut v: Vec<char> = Vec::new();
        push_str(&mut v, up.as_str());
        assert(v@ =~= up@);
        push_str(&mut v, "_RPC_URL");
        string_of(&v)
    }
}

/// A simulator for one EVM chain: its JSON-RPC endpoint and the label it
/// reports the chain under.
#[derive(Debug)]
pub struct EvmSimulator {
    pub rpc_url: String,
    pub chain_label: String,
}

impl EvmSimulator {
    /// The Celo simulator, on the configured endpoint (`CELO_RPC_URL`) or
    /// the public Forno one.
    pub fn new(celo_rpc_url: Option<String>) -> (s: Self)
        ensures
            s.rpc_url@ == (match celo_rpc_url { Some(u) => u@, None => "https://forno.celo.org"@ }),
            s.chain_label@ == "celo"@,
    {
        let rpc_url = match celo_rpc_url {
            Some(u) => u,
            None => "https://forno.celo.org".to_owned(),
        };
        EvmSimulator { rpc_url, chain_label: "celo".to_owned() }
    }

    /// A simulator for a chain label and endpoint.
    pub fn for_chain(chain_label: &str, rpc_url: &str) -> (s: Self)
        ensures
            s.rpc_url@ == rpc_url@,
            s.chain_label@ == chain_label@,
    {
        EvmSimulator { rpc_url: rpc_url.to_owned(), chain_label: chain_label.to_owned() }
    }

    /// A simulator for an endpoint of an unnamed chain (labelled `evm`).
    pub fn from_rpc_url(rpc_url: &str) -> (s: Self)
        ensures
            s.rpc_url@ == rpc_url@,
            s.chain_label@ == "evm"@,
    {
        EvmSimulator { rpc_url: rpc_url.to_owned(), chain_label: "evm".to_owned() }
    }

    pub fn chain_label(&self) -> (l: &str)
        ensures
            l@ == self.chain_label@,
    {
        self.chain_label.as_str()
    }
}

/// `s` without every leading `0x` (as `trim_start_matches("0x")`).
pub open spec fn trim_0x(s: Seq<char>) -> Seq<char>
    decreases s.len(),
{
    if s.len() >= 2 && s[0] == '0' && s[1] == 'x' { trim_0x(s.subrange(2, s.len() as int)) } else { s }
}

fn trim_0x_exec(s: &str) -> (r: String)
    ensures
        r@ == trim_0x(s@),
{
    let n = s.unicode_len();
    let mut i: usize = 0;
    assert(s@.subrange(0, n as int) =~= s@);
    while n - i >= 2 && s.get_char(i) == '0' && s.get_char(i + 1) == 'x'
        invariant
            n == s@.len(),
            i <= n,
            trim_0x(s@) == trim_0x(s@.subrange(i as int, n as int)),
        decreases n - i,
    {
        assert(s@.subrange(i as int, n as int).subrange(2, n - i) =~= s@.subrange(i + 2, n as int));
        i = i + 2;
    }
    let mut v: Vec<char> = Vec::new();
    let mut k: usize = i;
    while k < n
        invariant
            n == s@.len(),
            i <= k <= n,
            v@ == s@.subrange(i as int, k as int),
        decreases n - k,
    {
        v.push(s.get_char(k));
        k = k + 1;
        assert(v@ =~= s@.subrange(i as int, k as int));
    }
    string_of(&v)
}

/// The value a transaction moves, in wei: its hex `value` (default `0x0`)
/// with the `0x` prefixes trimmed, or 0 when that does not parse.
pub open spec fn evm_value(tx: EvmTxParams) -> u128 {
    let text = match tx.value { Some(v) => v@, None => "0x0"@ };
    match parse_hex_u128_spec(trim_0x(text)) {
        Some(v) => v,
        None => 0,
    }
}

/// The value a transaction moves, in wei.
pub fn tx_value(tx: &EvmTxParams) -> (v: u128)
    ensures
        v == evm_value(*tx),
{
    let text = match &tx.value {
        Some(v) => trim_0x_exec(v.as_str()),
        None => trim_0x_exec("0x0"),
    };
    match parse_hex_u128(text.as_str()) {
        Some(v) => v,
        None => 0,
    }
}

/// The reply to an `eth_call`: its result data, or its error code and
/// message.
#[derive(Debug)]
pub struct EvmCallOutcome {
    pub result: Option<String>,
    pub error: Option<(i64, String)>,
}

/// The balances of sender and receiver read before and after the call.
#[derive(Debug, Clone, Copy)]
pub struct BalanceReadings {
    pub pre_from: u128,
    pub pre_to: u128,
    pub post_from: u128,
    pub post_to: u128,
}

/// Data that is empty or only `0x`.
pub open spec fn empty_data(d: Seq<char>) -> bool {
    d.len() == 0 || d == "0x"@
}

/// The logs of a simulation: what the call returned, then its error.
pub open spec fn evm_logs(call: EvmCallOutcome) -> Seq<Seq<char>> {
    let result_logs = match call.result {
        Some(d) => if empty_data(d@) {
            seq!["eth_call returned 0x (empty)"@]
        } else {
            seq!["eth_call succeeded, return data: "@ + d@]
        },
        None => Seq::empty(),
    };
    let error_logs = match call.error {
        Some((code, msg)) => seq!["eth_call error: "@ + msg@ + " (code "@ + signed_decimal(code as int) + ")"@],
        None => Seq::empty(),
    };
    result_logs + error_logs
}

/// The JSON text of a call error.
pub open spec fn evm_error_json(code: i64, msg: Seq<char>) -> Seq<char> {
    "{\"code\":"@ + signed_decimal(code as int) + ",\"message\":"@ + json_quote(msg) + "}"@
}

/// The balance changes a simulation reports: the sender's change net of
/// the value sent and the receiver's net of the value received, each when
/// non-zero (narrowed to `i64` as Rust's `as` does), the receiver's
/// replacing the sender's when they are the same address.
pub open spec fn evm_balance_changes(tx: EvmTxParams, b: BalanceReadings) -> Seq<(Seq<char>, i64)> {
    let value = as_i128(evm_value(tx));
    let from_delta = as_i128(b.post_from) - as_i128(b.pre_from) - value;
    let to_delta = as_i128(b.post_to) - as_i128(b.pre_to) + value;
    let after_from = if from_delta != 0 { put(Seq::empty(), tx.from@, (from_delta as i128) as i64) } else { Seq::empty() };
    if to_delta != 0 { put(after_from, tx.to@, (to_delta as i128) as i64) } else { after_from }
}

/// The texts of a list of strings.
pub open spec fn texts(v: Seq<String>) -> Seq<Seq<char>> {
    Seq::new(v.len(), |i: int| v[i]@)
}

/// A `u128` read as an `i128`, as Rust's `as` does: values from 2^127 up
/// wrap around to negative ones.
pub open spec fn as_i128(x: u128) -> int {
    if x < 0x8000_0000_0000_0000_0000_0000_0000_0000 {
        x as int
    } else {
        x as int - 0x1_0000_0000_0000_0000_0000_0000_0000_0000
    }
}

/// `x` is a value of `i128`.
pub open spec fn in_i128(x: int) -> bool {
    i128::MIN <= x <= i128::MAX
}

/// Every step of the balance arithmetic (each balance and the value read
/// as `i128`; the sender's difference, then less the value; the receiver's
/// difference, then plus the value) stays within `i128`, where Rust's
/// arithmetic would overflow.
pub open spec fn deltas_fit(tx: EvmTxParams, b: BalanceReadings) -> bool {
    let value = as_i128(evm_value(tx));
    &&& in_i128(as_i128(b.post_from) - as_i128(b.pre_from))
    &&& in_i128(as_i128(b.post_from) - as_i128(b.pre_from) - value)
    &&& in_i128(as_i128(b.post_to) - as_i128(b.pre_to))
    &&& in_i128(as_i128(b.post_to) - as_i128(b.pre_to) + value)
}

fn to_i128(x: u128) -> (r: i128)
    ensures
        r as int == as_i128(x),
{
    if x < 0x8000_0000_0000_0000_0000_0000_0000_0000 {
        x as i128
    } else {
        let low: u128 = x - 0x8000_0000_0000_0000_0000_0000_0000_0000;
        (low as i128) - 0x7fff_ffff_ffff_ffff_ffff_ffff_ffff_ffff - 1
    }
}

fn log_text(parts: &Vec<char>) -> (s: String)
    ensures
        s@ == parts@,
{
    string_of(parts)
}

/// What a simulation makes of a transaction from the reply to its
/// `eth_call` and the balances read around it: the logs, the return data
/// (when the call returned some), the error (as JSON), the balance changes
/// and the content hash of logs and error.
pub fn evm_simulation_result(tx: &EvmTxParams, call: &EvmCallOutcome, balances: BalanceReadings) -> (r: SimulationResult)
    requires
        deltas_fit(*tx, balances),
    ensures
        texts(r.logs@) == evm_logs(*call),
        r.units_consumed is None,
        match call.result {
            Some(d) => if empty_data(d@) {
                r.return_data is None
            } else {
                r.return_data matches Some(rd) && rd.data@ == d@ && rd.encoding@ == "hex"@ && rd.program_id@ == tx.to@
            },
            None => r.return_data is None,
        },
        opt_text(r.error) == (match call.error {
            Some((code, msg)) => Some(evm_error_json(code, msg@)),
            None => None,
        }),
        keyed_view(r.balance_changes@) == evm_balance_changes(*tx, balances),
        r.simulation_hash matches Some(h) && h@ == crate::digest::sha256_of(simulation_bytes(r.logs@, opt_text(r.error))),
{
    let mut logs: Vec<String> = Vec::new();
    let mut return_data: Option<ReturnData> = None;
    match &call.result {
        Some(d) => {
            if d.as_str().unicode_len() == 0 || str_eq(d.as_str(), "0x") {
                logs.push("eth_call returned 0x (empty)".to_owned());
            } else {
                let mut v: Vec<char> = Vec::new();
                push_str(&mut v, "eth_call succeeded, return data: ");
                assert(v@ =~= "eth_call succeeded, return data: "@);
                push_str(&mut v, d.as_str());
                logs.push(log_text(&v));
                return_data = Some(ReturnData { data: d.clone(), encoding: "hex".to_owned(), program_id: tx.to.clone() });
            }
        },
        None => {},
    }
    let ghost after_result = texts(logs@);
    let mut error: Option<String> = None;
    match &call.error {
        Some((code, msg)) => {
            let mut e: Vec<char> = Vec::new();
            push_str(&mut e, "{\"code\":");
            assert(e@ =~= "{\"code\":"@);
            push_signed_decimal(&mut e, *code);
            push_str(&mut e, ",\"message\":");
            push_json_string(&mut e, msg.as_str());
            push_str(&mut e, "}");
            error = Some(string_of(&e));
            let mut v: Vec<char> = Vec::new();
            push_str(&mut v, "eth_call error: ");
            assert(v@ =~= "eth_call error: "@);
            push_str(&mut v, msg.as_str());
            push_str(&mut v, " (code ");
            push_signed_decimal(&mut v, *code);
            push_str(&mut v, ")");
            logs.push(log_text(&v));
        },
        None => {},
    }
    assert(texts(logs@) =~= evm_logs(*call));

    let value = tx_value(tx);
    let value_i: i128 = to_i128(value);
    let from_delta: i128 = to_i128(balances.post_from) - to_i128(balances.pre_from) - value_i;
    let to_delta: i128 = to_i128(balances.post_to) - to_i128(balances.pre_to) + value_i;
    let mut changes: Vec<(String, i64)> = Vec::new();
    assert(keyed_view(changes@) =~= Seq::<(Seq<char>, i64)>::empty());
    if from_delta != 0 {
        put_entry(&mut changes, &tx.from, from_delta as i64);
    }
    if to_delta != 0 {
        put_entry(&mut changes, &tx.to, to_delta as i64);
    }
    let hash = compute_simulation_hash(&logs, &error);
    SimulationResult {
        logs,
        units_consumed: None,
        return_data,
        error,
        balance_changes: changes,
        simulation_hash: Some(hash),
    }
}

/// The text of `o`, or `d` when there is none.
pub open spec fn text_or(o: Option<String>, d: Seq<char>) -> Seq<char> {
    match o {
        Some(t) => t@,
        None => d,
    }
}

fn owned_or(o: &Option<String>, d: &str) -> (r: String)
    ensures
        r@ == text_or(*o, d@),
{
    match o {
        Some(t) => t.clone(),
        None => d.to_owned(),
    }
}

/// The value, data, gas and gas price an `eth_call` of the transaction
/// carries: the transaction's own, defaulting to `0x0`, `0x`, `0x4C4B40`
/// (five million) and `0x0`.
pub fn eth_call_fields(tx: &EvmTxParams) -> (r: (String, String, String, String))
    ensures
        r.0@ == text_or(tx.value, "0x0"@),
        r.1@ == text_or(tx.data, "0x"@),
        r.2@ == text_or(tx.gas, "0x4C4B40"@),
        r.3@ == text_or(tx.gas_price, "0x0"@),
{
    (owned_or(&tx.value, "0x0"), owned_or(&tx.data, "0x"), owned_or(&tx.gas, "0x4C4B40"), owned_or(&tx.gas_price, "0x0"))
}

} // verus!
