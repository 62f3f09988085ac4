//! Solana settlement: pubkey authentication, the transfer projection used
//! when no serialized transaction is supplied, opt-in execution, and the
//! audit-facing projection of an outcome.

use vstd::prelude::*;
use crate::adapter::{AgentIdentity, ExecutionReceipt, SimulationOutcome, TrustAdapter, TrustAdapterError};
use crate::ids::hex_char;
use crate::json::{push_decimal, push_str};
use crate::keyed::{keyed_view, put, put_entry};
use crate::sidecar::simulation::{compute_simulation_hash, opt_text, simulation_bytes, ReturnData, SimulationResult};
use crate::text::{decimal, string_of};
use crate::transaction::{Address, AgentId, Chain};

verus! {

/// Amounts above this many lamports are implausible (the whole SOL supply
/// is about 1.4e18) and are flagged rather than projected.
pub const MAX_LAMPORTS_CHECK: u64 = 10_000_000_000_000_000;

/// What `bs58::decode(..).into_vec()` makes of a text: the decoded bytes,
/// or the error's message.
pub uninterp spec fn bs58_decoding(s: Seq<char>) -> Result<Seq<u8>, Seq<char>>;

/// `bs58::decode(s).into_vec()`, the error rendered as its message. The
/// result is named by `bs58_decoding`; the base58 alphabet is not restated
/// here.
#[verifier::external_body]
fn bs58_decode(s: &str) -> (r: Result<Vec<u8>, String>)
    ensures
        match r {
            Ok(b) => bs58_decoding(s@) == Ok::<Seq<u8>, Seq<char>>(b@),
            Err(e) => bs58_decoding(s@) == Err::<Seq<u8>, Seq<char>>(e@),
        },
{
    bs58::decode(s).into_vec().map_err(|e| e.to_string())
}

/// The Solana settlement adapter: its JSON-RPC endpoint (empty when
/// disabled) and whether live broadcast is permitted.
#[derive(Debug)]
pub struct SolanaAdapter {
    pub rpc_url: String,
    pub execute_enabled: bool,
}

/// The lowercase hexadecimal digits of `n`, without leading zeros.
pub open spec fn hex_digits(n: nat) -> Seq<char>
    decreases n,
{
    if n < 16 { seq![hex_char(n)] } else { hex_digits(n / 16).push(hex_char(n % 16)) }
}

fn hex_digits_exec(n: u64) -> (v: Vec<char>)
    ensures
        v@ == hex_digits(n as nat),
    decreases n,
{
    let d = (n % 16) as u8;
    let c = if d < 10 { (48 + d) as char } else { (87 + d) as char };
    if n < 16 {
        let mut v: Vec<char> = Vec::new();
        v.push(c);
        assert(v@ =~= hex_digits(n as nat));
        v
    } else {
        let mut v = hex_digits_exec(n / 16);
        v.push(c);
        v
    }
}

/// The transfer projection of a transaction moving `amount` lamports: the
/// sender loses it and the receiver gains it (as a later entry for the same
/// address replaces an earlier one) when it is positive and plausible; an
/// implausible amount fails and is flagged.
pub open spec fn transfer_changes(from: Seq<char>, to: Seq<char>, amount: u64) -> Seq<(Seq<char>, i64)> {
    if 0 < amount && amount <= MAX_LAMPORTS_CHECK {
        put(put(Seq::empty(), from, -(amount as int) as i64), to, amount as i64)
    } else {
        Seq::empty()
    }
}

/// The verification header log.
pub open spec fn verify_header(from: Seq<char>, to: Seq<char>, amount: u64) -> Seq<char> {
    "Solana verify on chain=solana from="@ + from + " to="@ + to + " amount="@ + decimal(amount as nat)
}

pub open spec fn texts(v: Seq<String>) -> Seq<Seq<char>> {
    Seq::new(v.len(), |i: int| v[i]@)
}

/// The logs of a transfer projection.
pub open spec fn transfer_logs(from: Seq<char>, to: Seq<char>, amount: u64) -> Seq<Seq<char>> {
    seq![verify_header(from, to, amount)] + (if amount <= MAX_LAMPORTS_CHECK {
        if amount > 0 { seq!["projected transfer of "@ + decimal(amount as nat) + " lamports"@] } else { Seq::empty() }
    } else {
        seq!["amount exceeds sanity bound; flagged for HITL"@]
    })
}

fn header_text(from: &str, to: &str, amount: u64) -> (s: String)
    ensures
        s@ == verify_header(from@, to@, amount),
{
    let mut v: Vec<char> = Vec::new();
    push_str(&mut v, "Solana verify on chain=solana from=");
    assert(v@ =~= "Solana verify on chain=solana from="@);
    push_str(&mut v, from);
    push_str(&mut v, " to=");
    push_str(&mut v, to);
    push_str(&mut v, " amount=");
    push_decimal(&mut v, amount);
    string_of(&v)
}

impl SolanaAdapter {
    /// An adapter for `rpc_url`; broadcast is permitted when
    /// `execute_enabled` (`BASTION_SOLANA_EXECUTE` is set).
    pub fn new(rpc_url: String, execute_enabled: bool) -> (a: Self)
        ensures
            a.rpc_url == rpc_url,
            a.execute_enabled == execute_enabled,
    {
        SolanaAdapter { rpc_url, execute_enabled }
    }

    /// An adapter with no RPC endpoint and no broadcast.
    pub fn disabled() -> (a: Self)
        ensures
            a.rpc_url@.len() == 0,
            !a.execute_enabled,
    {
        SolanaAdapter { rpc_url: String::new(), execute_enabled: false }
    }

    /// The RPC endpoint (empty when disabled).
    pub fn rpc_url(&self) -> (u: &str)
        ensures
            u@ == self.rpc_url@,
    {
        self.rpc_url.as_str()
    }

    /// The coarse projection of a transfer when no serialized transaction
    /// is supplied.
    pub fn verify_transfer(&self, from: &String, to: &String, amount: u64) -> (o: SimulationOutcome)
        ensures
            texts(o.logs@) == transfer_logs(from@, to@, amount),
            keyed_view(o.balance_changes@) == transfer_changes(from@, to@, amount),
            o.success == (amount <= MAX_LAMPORTS_CHECK),
    {
        let mut logs: Vec<String> = Vec::new();
        logs.push(header_text(from.as_str(), to.as_str(), amount));
        let mut changes: Vec<(String, i64)> = Vec::new();
        assert(keyed_view(changes@) =~= Seq::<(Seq<char>, i64)>::empty());
        let mut success = true;
        if amount <= MAX_LAMPORTS_CHECK {
            if amount > 0 {
                let mut v: Vec<char> = Vec::new();
                push_str(&mut v, "projected transfer of ");
                assert(v@ =~= "projected transfer of "@);
                push_decimal(&mut v, amount);
                push_str(&mut v, " lamports");
                logs.push(string_of(&v));
                put_entry(&mut changes, from, -(amount as i64));
                put_entry(&mut changes, to, amount as i64);
            }
        } else {
            logs.push("amount exceeds sanity bound; flagged for HITL".to_owned());
            success = false;
        }
        assert(texts(logs@) =~= transfer_logs(from@, to@, amount));
        SimulationOutcome { balance_changes: changes, logs, success }
    }

    /// Verification backed by an RPC simulation: the header, then the
    /// simulation's logs, success and balance changes.
    pub fn verify_with_simulation(&self, from: &String, to: &String, amount: u64, sim: SimulationOutcome) -> (o: SimulationOutcome)
        ensures
            texts(o.logs@) == seq![verify_header(from@, to@, amount)] + texts(sim.logs@),
            o.balance_changes == sim.balance_changes,
            o.success == sim.success,
    {
        let mut logs: Vec<String> = Vec::new();
        logs.push(header_text(from.as_str(), to.as_str(), amount));
        let ghost head = logs@;
        let mut i: usize = 0;
        while i < sim.logs.len()
            invariant
                i <= sim.logs@.len(),
                logs@ == head + sim.logs@.take(i as int),
            decreases sim.logs.len() - i,
        {
            logs.push(sim.logs[i].clone());
            i = i + 1;
            assert(logs@ =~= head + sim.logs@.take(i as int));
        }
        assert(sim.logs@.take(sim.logs@.len() as int) =~= sim.logs@);
        assert(texts(logs@) =~= seq![verify_header(from@, to@, amount)] + texts(sim.logs@));
        SimulationOutcome { balance_changes: sim.balance_changes, logs, success: sim.success }
    }

    /// The outcome of `simulateTransaction` on a serialized transaction of
    /// `tx_len` characters: the RPC error when there is one, else success.
    pub fn simulation_outcome(tx_len: usize, rpc_error: Option<(i64, String)>) -> (o: SimulationOutcome)
        ensures
            o.balance_changes@.len() == 0,
            match rpc_error {
                Some((code, msg)) => !o.success && texts(o.logs@) == seq!["simulateTransaction error "@
                    + crate::json::signed_decimal(code as int) + ": "@ + msg@],
                None => o.success && texts(o.logs@) == seq!["simulateTransaction OK (len="@ + decimal(tx_len as nat) + ")"@],
            },
    {
        let mut v: Vec<char> = Vec::new();
        let mut logs: Vec<String> = Vec::new();
        match rpc_error {
            Some((code, msg)) => {
                push_str(&mut v, "simulateTransaction error ");
                assert(v@ =~= "simulateTransaction error "@);
                crate::json::push_signed_decimal(&mut v, code);
                push_str(&mut v, ": ");
                push_str(&mut v, msg.as_str());
                logs.push(string_of(&v));
                assert(texts(logs@) =~= seq!["simulateTransaction error "@ + crate::json::signed_decimal(code as int) + ": "@ + msg@]);
                SimulationOutcome { balance_changes: Vec::new(), logs, success: false }
            },
            None => {
                push_str(&mut v, "simulateTransaction OK (len=");
                assert(v@ =~= "simulateTransaction OK (len="@);
                push_decimal(&mut v, tx_len as u64);
                push_str(&mut v, ")");
                logs.push(string_of(&v));
                assert(texts(logs@) =~= seq!["simulateTransaction OK (len="@ + decimal(tx_len as nat) + ")"@]);
                SimulationOutcome { balance_changes: Vec::new(), logs, success: true }
            },
        }
    }
}

impl TrustAdapter for SolanaAdapter {
    /// Resolves an address to an agent identity: it must be a base58
    /// encoding of 32 bytes; the agent is named after the address.
    fn authenticate(&self, address: &Address) -> (r: Result<AgentIdentity, TrustAdapterError>)
        ensures
            match bs58_decoding(address.0@) {
                Err(e) => r matches Err(TrustAdapterError::AuthenticationFailed(m)) && m@ == "invalid base58 pubkey: "@ + e,
                Ok(b) => if b.len() != 32 {
                    r matches Err(TrustAdapterError::AuthenticationFailed(m))
                        && m@ == "Solana pubkey must be 32 bytes, got "@ + decimal(b.len())
                } else {
                    r matches Ok(id) && id.agent_id.0@ == address.0@ && id.chain == Chain::Solana
                        && id.address == *address && id.reputation is None
                },
            },
    {
        match bs58_decode(address.as_str()) {
            Err(e) => {
                let mut v: Vec<char> = Vec::new();
                push_str(&mut v, "invalid base58 pubkey: ");
                assert(v@ =~= "invalid base58 pubkey: "@);
                push_str(&mut v, e.as_str());
                Err(TrustAdapterError::AuthenticationFailed(string_of(&v)))
            },
            Ok(pk) => {
                if pk.len() != 32 {
                    let mut v: Vec<char> = Vec::new();
                    push_str(&mut v, "Solana pubkey must be 32 bytes, got ");
                    assert(v@ =~= "Solana pubkey must be 32 bytes, got "@);
                    push_decimal(&mut v, pk.len() as u64);
                    Err(TrustAdapterError::AuthenticationFailed(string_of(&v)))
                } else {
                    Ok(AgentIdentity {
                        agent_id: AgentId::new(address.as_str()),
                        chain: Chain::Solana,
                        address: address.clone(),
                        reputation: None,
                    })
                }
            },
        }
    }

    /// The transfer projection (a serialized transaction, when one is
    /// supplied, is checked with `verify_with_simulation`).
    fn verify(&self, from: &Address, to: &Address, amount: u64) -> (r: Result<SimulationOutcome, TrustAdapterError>)
        ensures
            r matches Ok(o) && texts(o.logs@) == transfer_logs(from.0@, to.0@, amount)
                && keyed_view(o.balance_changes@) == transfer_changes(from.0@, to.0@, amount)
                && o.success == (amount <= MAX_LAMPORTS_CHECK),
    {
        Ok(self.verify_transfer(&from.0, &to.0, amount))
    }

    /// Executes a transfer of `amount`: refused unless broadcast is
    /// permitted; otherwise a placeholder receipt naming the amount in hex.
    fn execute(&self, from: &Address, to: &Address, amount: u64) -> (r: Result<ExecutionReceipt, TrustAdapterError>)
        ensures
            !self.execute_enabled ==> (r matches Err(TrustAdapterError::ExecutionFailed(m))
                && m@ == "Solana execution disabled (set BASTION_SOLANA_EXECUTE to enable broadcast)"@),
            self.execute_enabled ==> (r matches Ok(rc) && rc.tx_hash@ == "solana:simulated:"@ + hex_digits(amount as nat)
                && rc.block_number is None && rc.success),
    {
        if !self.execute_enabled {
            return Err(TrustAdapterError::ExecutionFailed(
                "Solana execution disabled (set BASTION_SOLANA_EXECUTE to enable broadcast)".to_owned(),
            ));
        }
        let mut v: Vec<char> = Vec::new();
        push_str(&mut v, "solana:simulated:");
        assert(v@ =~= "solana:simulated:"@);
        let h = hex_digits_exec(amount);
        let mut i: usize = 0;
        let ghost head = v@;
        while i < h.len()
            invariant
                i <= h@.len(),
                v@ == head + h@.take(i as int),
            decreases h.len() - i,
        {
            v.push(h[i]);
            i = i + 1;
            assert(v@ =~= head + h@.take(i as int));
        }
        assert(h@.take(h@.len() as int) =~= h@);
        Ok(ExecutionReceipt { tx_hash: string_of(&v), block_number: None, success: true })
    }

    /// Settlement records nothing further.
    fn settle(&self, receipt: &ExecutionReceipt) -> (r: Result<(), TrustAdapterError>)
        ensures
            r is Ok,
    {
        Ok(())
    }

    fn chain_name(&self) -> (n: &str)
        ensures
            n@ == "solana"@,
    {
        "solana"
    }

    fn chain(&self) -> (c: Chain)
        ensures
            c == Chain::Solana,
    {
        Chain::Solana
    }
}

/// The error JSON of a Solana simulation that did not succeed.
pub open spec fn solana_failure_json() -> Seq<char> {
    "{\"message\":\"Solana simulation did not succeed\"}"@
}

/// The audit-facing result of a Solana verification: its logs and balance
/// changes, return data `0x` from program `to`, an error when it did not
/// succeed, and the content hash of logs and error.
pub fn project_solana_outcome(outcome: &SimulationOutcome, to: &str) -> (r: SimulationResult)
    ensures
        r.logs@ == outcome.logs@,
        r.units_consumed is None,
        r.return_data matches Some(rd) && rd.data@ == "0x"@ && rd.encoding@ == "hex"@ && rd.program_id@ == to@,
        opt_text(r.error) == (if outcome.success { None } else { Some(solana_failure_json()) }),
        r.balance_changes@ == outcome.balance_changes@,
        r.simulation_hash matches Some(h) && h@ == crate::digest::sha256_of(simulation_bytes(outcome.logs@, opt_text(r.error))),
{
    let error = if outcome.success {
        None
    } else {
        Some("{\"message\":\"Solana simulation did not succeed\"}".to_owned())
    };
    let logs = crate::text::clone_strings(&outcome.logs);
    let mut changes: Vec<(String, i64)> = Vec::new();
    let mut i: usize = 0;
    while i < outcome.balance_changes.len()
        invariant
            i <= outcome.balance_changes@.len(),
            changes@ == outcome.balance_changes@.take(i as int),
        decreases outcome.balance_changes.len() - i,
    {
        let (k, x) = &outcome.balance_changes[i];
        changes.push((k.clone(), *x));
        i = i + 1;
        assert(changes@ =~= outcome.balance_changes@.take(i as int));
    }
    assert(outcome.balance_changes@.take(outcome.balance_changes@.len() as int) =~= outcome.balance_changes@);
    let hash = compute_simulation_hash(&outcome.logs, &error);
    SimulationResult {
        logs,
        units_consumed: None,
        return_data: Some(ReturnData { data: "0x".to_owned(), encoding: "hex".to_owned(), program_id: to.to_owned() }),
        error,
        balance_changes: changes,
        simulation_hash: Some(hash),
    }
}

/// The body of a Solana simulation request.
#[derive(Debug)]
pub struct SolanaSimulateRequest {
    pub to: String,
    pub amount: Option<u64>,
    pub transaction: Option<String>,
    pub intent: Option<String>,
    pub agent_id: Option<String>,
}

/// The body of a Solana simulation response (the EVM one's shape).
#[derive(Debug)]
pub struct SolanaSimulateResponse {
    pub allowed: bool,
    pub decision: String,
    pub reason: Option<String>,
    pub simulation_result: Option<SimulationResult>,
    pub risk_score: Option<u8>,
    pub risk_summary: Option<String>,
}

} // verus!
