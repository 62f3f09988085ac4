//! Keys of the workflow store's trees.
//!
//! Every key joins two parts with a zero byte: a run's id and an event
//! number (big-endian, so keys sort in append order), a status or agent
//! and a run's id, or a run's id and a step's id.

use vstd::prelude::*;
use vstd::string::StringSliceAdditionalSpecFns;
use vstd::utf8::{encode_utf8, valid_utf8};

verus! {

/// Byte `i` (0 = most significant) of the big-endian encoding of `n`.
pub open spec fn be_byte(n: u64, i: int) -> u8 {
    ((n >> ((56 - 8 * i) as u64)) & 0xff) as u8
}

/// The eight bytes of `n`, most significant first.
pub open spec fn be_bytes(n: u64) -> Seq<u8> {
    Seq::new(8, |i: int| be_byte(n, i))
}

/// `a`, a zero byte, then `b`.
pub open spec fn joined(a: Seq<u8>, b: Seq<u8>) -> Seq<u8> {
    a + seq![0u8] + b
}

fn push_bytes(v: &mut Vec<u8>, b: &[u8])
    ensures
        final(v)@ == old(v)@ + b@,
{
    let ghost start = v@;
    let mut i: usize = 0;
    while i < b.len()
        invariant
            i <= b@.len(),
            v@ == start + b@.subrange(0, i as int),
        decreases b@.len() - i,
    {
        v.push(b[i]);
        i = i + 1;
        assert(v@ =~= start + b@.subrange(0, i as int));
    }
    assert(b@.subrange(0, b@.len() as int) =~= b@);
}

/// The key of event number `seq` of run `prefix`: the run's id as UTF-8,
/// a zero byte, and `seq` in eight big-endian bytes.
pub fn composite_key(prefix: &str, seq: u64) -> (key: Vec<u8>)
    ensures
        key@ == joined(prefix.spec_bytes(), be_bytes(seq)),
{
    let mut key: Vec<u8> = Vec::new();
    push_bytes(&mut key, prefix.as_bytes());
    key.push(0);
    let ghost head = key@;
    let mut i: u64 = 0;
    while i < 8
        invariant
            i <= 8,
            key@ == head + be_bytes(seq).subrange(0, i as int),
        decreases 8 - i,
    {
        let shift: u64 = 56 - 8 * i;
        let byte: u8 = ((seq >> shift) & 0xff) as u8;
        assert(byte == be_byte(seq, i as int));
        key.push(byte);
        i = i + 1;
        assert(key@ =~= head + be_bytes(seq).subrange(0, i as int));
    }
    assert(be_bytes(seq).subrange(0, 8) =~= be_bytes(seq));
    key
}

/// `a` as UTF-8, a zero byte, then `b` as UTF-8: the key of a run under a
/// status or an agent (`a` the status or agent, `b` the run), or of a
/// step's saved output (`a` the run, `b` the step).
pub fn joined_key(a: &str, b: &str) -> (key: Vec<u8>)
    ensures
        key@ == joined(a.spec_bytes(), b.spec_bytes()),
{
    let mut key: Vec<u8> = Vec::new();
    push_bytes(&mut key, a.as_bytes());
    key.push(0);
    push_bytes(&mut key, b.as_bytes());
    key
}

/// Decodes `bytes` as UTF-8 (std's `str::from_utf8`).
#[verifier::external_body]
fn utf8_text(bytes: &[u8]) -> (r: Option<String>)
    ensures
        r is Some <==> valid_utf8(bytes@),
        r matches Some(s) ==> encode_utf8(s@) == bytes@,
{
    match std::str::from_utf8(bytes) {
        Ok(s) => Some(s.to_owned()),
        Err(_) => None,
    }
}

/// The position of the first zero byte of `key`, if there is one.
pub open spec fn first_zero(key: Seq<u8>, pos: int) -> bool {
    &&& 0 <= pos < key.len()
    &&& key[pos] == 0
    &&& forall|j: int| 0 <= j < pos ==> key[j] != 0
}

/// What follows the first zero byte of an index key, as the id of a run:
/// nothing when the key has no zero byte, when the rest is not UTF-8, or
/// when it is empty.
pub fn id_after_separator(key: &[u8]) -> (r: Option<String>)
    ensures
        r is Some <==> exists|pos: int| #[trigger] first_zero(key@, pos)
            && valid_utf8(key@.subrange(pos + 1, key@.len() as int))
            && pos + 1 < key@.len(),
        r matches Some(id) ==> forall|pos: int| #[trigger] first_zero(key@, pos)
            ==> encode_utf8(id@) == key@.subrange(pos + 1, key@.len() as int),
{
    let mut pos: usize = 0;
    while pos < key.len()
        invariant
            pos <= key@.len(),
            forall|j: int| 0 <= j < pos ==> key@[j] != 0,
        ensures
            pos <= key@.len(),
            forall|j: int| 0 <= j < pos ==> key@[j] != 0,
            pos < key@.len() ==> key@[pos as int] == 0,
        decreases key@.len() - pos,
    {
        if key[pos] == 0 {
            break;
        }
        pos = pos + 1;
    }
    if pos == key.len() {
        assert(forall|p: int| !first_zero(key@, p));
        return None;
    }
    assert(first_zero(key@, pos as int));
    assert(forall|p: int| #[trigger] first_zero(key@, p) ==> p == pos) by {
        assert forall|p: int| #[trigger] first_zero(key@, p) implies p == pos by {
            if p < pos {
            } else if p > pos {
                assert(key@[pos as int] != 0);
            }
        }
    }
    let mut rest: Vec<u8> = Vec::new();
    let mut i: usize = pos + 1;
    while i < key.len()
        invariant
            pos < key@.len(),
            pos + 1 <= i <= key@.len(),
            rest@ == key@.subrange(pos + 1, i as int),
        decreases key@.len() - i,
    {
        rest.push(key[i]);
        i = i + 1;
        assert(rest@ =~= key@.subrange(pos + 1, i as int));
    }
    match utf8_text(rest.as_slice()) {
        Some(id) => {
            if id.as_str().len() == 0 {
                None
            } else {
                Some(id)
            }
        },
        None => None,
    }
}

} // verus!
