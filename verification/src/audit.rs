//! Chain-agnostic audit records and the commitment hashes third parties
//! recompute to check them.

use vstd::prelude::*;
use std::collections::HashMap;
use vstd::string::StringSliceAdditionalSpecFns;
use vstd::utf8::encode_utf8;
use crate::decision::{decision_debug, FirewallDecision};
use crate::json::push_str;
use crate::text::string_of;
use crate::digest::{ascii_bytes, digest_text, sha256_hex, sha256_hex_of};
use crate::transaction::{Address, AgentId, Chain};

verus! {

/// An audit record written after every firewall evaluation. `metadata`
/// holds JSON text per key.
#[derive(Debug)]
pub struct AuditRecord {
    pub timestamp: u64,
    pub agent_id: AgentId,
    pub chain: Chain,
    pub from: Address,
    pub to: Address,
    pub amount: u64,
    pub currency: String,
    pub decision: FirewallDecision,
    pub payload_hash: String,
    pub observation_digest: String,
    pub wyriwe_hash: String,
    pub metadata: HashMap<String, String>,
}

/// The WYRIWE triple hash of a raw input (bytes `raw`): the hash of the
/// raw input's hash, the hash of the identity sanitisation pipeline over
/// it, and the sanitised (here identical) input's hash, each hash written
/// as `0x` and lowercase hex.
pub open spec fn wyriwe_hash_of(raw: Seq<u8>) -> Seq<char> {
    let raw_hash = sha256_hex_of(raw);
    let pipeline_hash = sha256_hex_of(ascii_bytes("identity"@) + ascii_bytes(raw_hash));
    let input_hash = sha256_hex_of(raw);
    sha256_hex_of(ascii_bytes(raw_hash) + ascii_bytes(pipeline_hash) + ascii_bytes(input_hash))
}

/// The OCP observation digest: the SHA-256 hex (with `0x`) of the UTF-8
/// text made of the decision's `Debug` text, a colon and the payload hash.
pub open spec fn observation_digest_of(d: FirewallDecision, payload_hash: Seq<char>) -> Seq<char> {
    sha256_hex_of(encode_utf8(decision_debug(d) + ":"@ + payload_hash))
}

/// Appends the bytes of an ASCII text.
fn push_ascii(out: &mut Vec<u8>, s: &str)
    requires
        forall|i: int| 0 <= i < s@.len() ==> (s@[i] as u32) < 128,
    ensures
        final(out)@ == old(out)@ + ascii_bytes(s@),
{
    let ghost start = out@;
    let n = s.unicode_len();
    let mut i: usize = 0;
    while i < n
        invariant
            n == s@.len(),
            i <= n,
            forall|k: int| 0 <= k < s@.len() ==> (s@[k] as u32) < 128,
            out@ == start + ascii_bytes(s@.subrange(0, i as int)),
        decreases n - i,
    {
        let c = s.get_char(i);
        assert((c as u32) < 128);
        out.push(c as u8);
        i = i + 1;
        assert(out@ =~= start + ascii_bytes(s@.subrange(0, i as int)));
    }
    assert(s@.subrange(0, n as int) =~= s@);
}

impl AuditRecord {
    /// The audit record of a transaction (given by its time, agent, chain,
    /// addresses, amount, currency and metadata, and by `raw_input`, its
    /// JSON text) under a decision: it carries the WYRIWE hash of the raw
    /// input and the observation digest of the decision and payload hash.
    pub fn from_transaction(
        timestamp: u64,
        agent_id: AgentId,
        chain: Chain,
        from: Address,
        to: Address,
        amount: u64,
        currency: String,
        metadata: HashMap<String, String>,
        raw_input: &str,
        decision: FirewallDecision,
        payload_hash: String,
    ) -> (r: AuditRecord)
        ensures
            r.wyriwe_hash@ == wyriwe_hash_of(raw_input.spec_bytes()),
            r.observation_digest@ == observation_digest_of(decision, payload_hash@),
            digest_text(r.wyriwe_hash@),
            digest_text(r.observation_digest@),
            r.timestamp == timestamp,
            r.agent_id == agent_id,
            r.chain == chain,
            r.from == from,
            r.to == to,
            r.amount == amount,
            r.currency == currency,
            r.metadata == metadata,
            r.decision == decision,
            r.payload_hash == payload_hash,
    {
        let wyriwe_hash = Self::recompute_wyriwe_hash(raw_input);
        let observation_digest = Self::recompute_observation_digest(&decision, payload_hash.as_str());
        AuditRecord {
            timestamp,
            agent_id,
            chain,
            from,
            to,
            amount,
            currency,
            decision,
            payload_hash,
            observation_digest,
            wyriwe_hash,
            metadata,
        }
    }

    /// Recomputes the observation digest from the decision and the payload
    /// hash.
    pub fn recompute_observation_digest(decision: &FirewallDecision, payload_hash: &str) -> (h: String)
        ensures
            h@ == observation_digest_of(*decision, payload_hash@),
            digest_text(h@),
    {
        let mut v: Vec<char> = Vec::new();
        let d = decision.debug_text();
        push_str(&mut v, d.as_str());
        push_str(&mut v, ":");
        push_str(&mut v, payload_hash);
        let observation = string_of(&v);
        assert(observation@ =~= decision_debug(*decision) + ":"@ + payload_hash@);
        sha256_hex(observation.as_str().as_bytes())
    }

    /// Recomputes the WYRIWE hash from the raw input, so that anyone can
    /// check an audit record without trusting the runtime.
    pub fn recompute_wyriwe_hash(raw_input: &str) -> (h: String)
        ensures
            h@ == wyriwe_hash_of(raw_input.spec_bytes()),
            digest_text(h@),
    {
        let raw = raw_input.as_bytes();
        let raw_hash = sha256_hex(raw);
        let mut pipeline: Vec<u8> = Vec::new();
        proof { reveal_strlit("identity"); }
        push_ascii(&mut pipeline, "identity");
        assert(pipeline@ =~= ascii_bytes("identity"@));
        push_ascii(&mut pipeline, raw_hash.as_str());
        let pipeline_hash = sha256_hex(pipeline.as_slice());
        let input_hash = sha256_hex(raw);
        let mut all: Vec<u8> = Vec::new();
        push_ascii(&mut all, raw_hash.as_str());
        assert(all@ =~= ascii_bytes(raw_hash@));
        push_ascii(&mut all, pipeline_hash.as_str());
        push_ascii(&mut all, input_hash.as_str());
        sha256_hex(all.as_slice())
    }
}

} // verus!
