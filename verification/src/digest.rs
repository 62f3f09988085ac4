//! SHA-256 digests and their hexadecimal text.

use vstd::prelude::*;
use sha2::Digest;
use crate::ids::hex_char;

verus! {

/// The SHA-256 digest of `data`.
pub uninterp spec fn sha256_of(data: Seq<u8>) -> Seq<u8>;

/// `sha2::Sha256::digest`: the 32-byte SHA-256 digest of `data`. The
/// digest is named by `sha256_of`; the compression function is not
/// restated here.
#[verifier::external_body]
pub(crate) fn sha256(data: &[u8]) -> (r: [u8; 32])
    ensures
        r@ == sha256_of(data@),
{
    let h = sha2::Sha256::digest(data);
    let mut r = [0u8; 32];
    r.copy_from_slice(&h);
    r
}

/// Two lowercase hex digits per byte, most significant first (as
/// `hex::encode` writes them).
pub open spec fn hex_lower(bytes: Seq<u8>) -> Seq<char>
    decreases bytes.len(),
{
    if bytes.len() == 0 {
        Seq::empty()
    } else {
        hex_lower(bytes.drop_last()) + seq![hex_char((bytes.last() / 16) as nat), hex_char((bytes.last() % 16) as nat)]
    }
}

fn hex_digit(d: u8) -> (c: char)
    requires
        d < 16,
    ensures
        c == hex_char(d as nat),
{
    if d < 10 {
        (48 + d) as char
    } else {
        (87 + d) as char
    }
}

/// The lowercase hexadecimal text of `bytes`.
pub fn hex_encode(bytes: &[u8]) -> (s: String)
    ensures
        s@ == hex_lower(bytes@),
{
    let mut v: Vec<char> = Vec::new();
    let mut i: usize = 0;
    while i < bytes.len()
        invariant
            i <= bytes@.len(),
            v@ == hex_lower(bytes@.take(i as int)),
        decreases bytes.len() - i,
    {
        assert(bytes@.take(i + 1).drop_last() =~= bytes@.take(i as int));
        let b = bytes[i];
        v.push(hex_digit(b / 16));
        v.push(hex_digit(b % 16));
        i = i + 1;
        assert(v@ =~= hex_lower(bytes@.take(i as int)));
    }
    assert(bytes@.take(bytes@.len() as int) =~= bytes@);
    crate::text::string_of(&v)
}

/// The bytes of an ASCII text.
pub open spec fn ascii_bytes(s: Seq<char>) -> Seq<u8> {
    Seq::new(s.len(), |i: int| s[i] as u8)
}

/// `0x` and the lowercase hex of the SHA-256 digest of `data`.
pub open spec fn sha256_hex_of(data: Seq<u8>) -> Seq<char> {
    seq!['0', 'x'] + hex_lower(sha256_of(data))
}

/// A lowercase hexadecimal digit: `0`-`9` or `a`-`f`.
pub open spec fn lower_hex_digit(c: char) -> bool {
    (48 <= (c as u32) <= 57) || (97 <= (c as u32) <= 102)
}

/// The text of a SHA-256 digest: `0x` followed by 64 lowercase hex digits.
pub open spec fn digest_text(s: Seq<char>) -> bool {
    &&& s.len() == 66
    &&& s[0] == '0'
    &&& s[1] == 'x'
    &&& forall|i: int| 2 <= i < 66 ==> lower_hex_digit(#[trigger] s[i])
}

/// `0x` and the lowercase hex of the SHA-256 digest of `data`.
pub fn sha256_hex(data: &[u8]) -> (s: String)
    ensures
        s@ == sha256_hex_of(data@),
        s@.len() == 66,
        forall|i: int| 0 <= i < s@.len() ==> (s@[i] as u32) < 128,
        digest_text(s@),
{
    let d = sha256(data);
    let h = hex_encode(d.as_slice());
    proof { lemma_hex_lower_ascii(sha256_of(data@)); }
    let mut v: Vec<char> = Vec::new();
    v.push('0');
    v.push('x');
    crate::json::push_str(&mut v, h.as_str());
    assert(v@ =~= sha256_hex_of(data@));
    assert(forall|i: int| 2 <= i < 66 ==> v@[i] == hex_lower(sha256_of(data@))[i - 2]);
    crate::text::string_of(&v)
}

proof fn lemma_hex_lower_ascii(b: Seq<u8>)
    ensures
        hex_lower(b).len() == 2 * b.len(),
        forall|i: int| 0 <= i < hex_lower(b).len() ==> (hex_lower(b)[i] as u32) < 128,
        forall|i: int| 0 <= i < hex_lower(b).len() ==> lower_hex_digit(#[trigger] hex_lower(b)[i]),
    decreases b.len(),
{
    if b.len() > 0 {
        lemma_hex_lower_ascii(b.drop_last());
        let last = b.last();
        assert((last / 16) < 16 && (last % 16) < 16);
        let rest = hex_lower(b.drop_last());
        let pair = seq![hex_char((last / 16) as nat), hex_char((last % 16) as nat)];
        assert(hex_lower(b) == rest + pair);
        assert forall|i: int| 0 <= i < hex_lower(b).len() implies lower_hex_digit(#[trigger] hex_lower(b)[i]) by {
            if i >= rest.len() {
                let d: nat = if i == rest.len() { (last / 16) as nat } else { (last % 16) as nat };
                assert(hex_lower(b)[i] == hex_char(d));
            } else {
                assert(hex_lower(b)[i] == rest[i]);
            }
        }
    }
}

} // verus!
