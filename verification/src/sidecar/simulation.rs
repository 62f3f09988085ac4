//! Chain-agnostic simulation results and their content hash.

use vstd::prelude::*;
use vstd::string::StringSliceAdditionalSpecFns;
use crate::digest::{sha256, sha256_of};

verus! {

/// The outcome of a simulation, whatever the chain. `error` holds JSON
/// text; `balance_changes` has one entry per address.
#[derive(Debug)]
pub struct SimulationResult {
    pub logs: Vec<String>,
    pub units_consumed: Option<u64>,
    pub return_data: Option<ReturnData>,
    pub error: Option<String>,
    pub balance_changes: Vec<(String, i64)>,
    pub simulation_hash: Option<[u8; 32]>,
}

#[derive(Debug)]
pub struct ReturnData {
    pub data: String,
    pub encoding: String,
    pub program_id: String,
}

/// The UTF-8 bytes of a text.
pub open spec fn utf8(s: Seq<char>) -> Seq<u8> {
    vstd::utf8::encode_utf8(s)
}

/// What the simulation hash covers: each log followed by a zero byte, then
/// the error's JSON text when there is one.
pub open spec fn simulation_bytes(logs: Seq<String>, error: Option<Seq<char>>) -> Seq<u8>
    decreases logs.len(),
{
    if logs.len() == 0 {
        match error {
            Some(e) => utf8(e),
            None => Seq::empty(),
        }
    } else {
        utf8(logs[0]@) + seq![0u8] + simulation_bytes(logs.drop_first(), error)
    }
}

/// The text of an optional string.
pub open spec fn opt_text(s: Option<String>) -> Option<Seq<char>> {
    match s {
        Some(t) => Some(t@),
        None => None,
    }
}

fn push_slice(out: &mut Vec<u8>, b: &[u8])
    ensures
        final(out)@ == old(out)@ + b@,
{
    let ghost start = out@;
    let mut i: usize = 0;
    while i < b.len()
        invariant
            i <= b@.len(),
            out@ == start + b@.take(i as int),
        decreases b.len() - i,
    {
        out.push(b[i]);
        i = i + 1;
        assert(out@ =~= start + b@.take(i as int));
    }
    assert(b@.take(b@.len() as int) =~= b@);
}

/// The content hash of a simulation's outcome: the SHA-256 digest of its
/// logs (each followed by a zero byte) and its error's JSON text.
pub fn compute_simulation_hash(logs: &Vec<String>, error: &Option<String>) -> (h: [u8; 32])
    ensures
        h@ == sha256_of(simulation_bytes(logs@, opt_text(*error))),
{
    let mut data: Vec<u8> = Vec::new();
    let mut i: usize = 0;
    assert(logs@.skip(0) =~= logs@);
    assert(data@ + simulation_bytes(logs@, opt_text(*error)) =~= simulation_bytes(logs@, opt_text(*error)));
    while i < logs.len()
        invariant
            i <= logs@.len(),
            data@ + simulation_bytes(logs@.skip(i as int), opt_text(*error)) == simulation_bytes(logs@, opt_text(*error)),
        decreases logs.len() - i,
    {
        let ghost rest = logs@.skip(i as int);
        assert(rest.drop_first() =~= logs@.skip(i + 1));
        assert(rest[0] == logs@[i as int]);
        push_slice(&mut data, logs[i].as_str().as_bytes());
        data.push(0u8);
        assert(data@ + simulation_bytes(logs@.skip(i + 1), opt_text(*error))
            =~= (data@.drop_last() + seq![0u8]) + simulation_bytes(logs@.skip(i + 1), opt_text(*error)));
        i = i + 1;
    }
    assert(logs@.skip(logs@.len() as int) =~= Seq::<String>::empty());
    match error {
        Some(e) => push_slice(&mut data, e.as_str().as_bytes()),
        None => {},
    }
    assert(data@ =~= simulation_bytes(logs@, opt_text(*error)));
    sha256(data.as_slice())
}

} // verus!
