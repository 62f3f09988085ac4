//! Sequences of entries keyed by text, read and written as maps: a read
//! finds the first entry under a key, a write replaces it or appends a new
//! one.

use vstd::prelude::*;

verus! {

/// `j` is the first entry of `s` under key `k`.
pub open spec fn key_at<V>(s: Seq<(Seq<char>, V)>, k: Seq<char>, j: int) -> bool {
    &&& 0 <= j < s.len()
    &&& s[j].0 == k
    &&& forall|q: int| 0 <= q < j ==> s[q].0 != k
}

/// The position of the first entry under key `k`, or -1.
pub open spec fn key_pos<V>(s: Seq<(Seq<char>, V)>, k: Seq<char>) -> int {
    if exists|j: int| 0 <= j < s.len() && s[j].0 == k {
        choose|j: int| key_at(s, k, j)
    } else {
        -1
    }
}

/// `s` with the value under key `k` set to `v` (a new entry at the end
/// when there is none).
pub open spec fn put<V>(s: Seq<(Seq<char>, V)>, k: Seq<char>, v: V) -> Seq<(Seq<char>, V)> {
    if key_pos(s, k) >= 0 { s.update(key_pos(s, k), (k, v)) } else { s.push((k, v)) }
}

pub proof fn lemma_key_pos<V>(s: Seq<(Seq<char>, V)>, k: Seq<char>, j: int)
    requires
        key_at(s, k, j),
    ensures
        key_pos(s, k) == j,
{
    let c = choose|c: int| key_at(s, k, c);
    assert(key_at(s, k, c));
    assert(c == j) by {
        if c < j {
            assert(s[c].0 == k);
        } else if c > j {
            assert(s[j].0 == k);
        }
    }
}

/// `key_pos` finds the first entry under `k` when there is one, and is -1
/// exactly when there is none.
pub(crate) proof fn lemma_first_key<V>(s: Seq<(Seq<char>, V)>, k: Seq<char>)
    ensures
        key_pos(s, k) >= 0 ==> key_at(s, k, key_pos(s, k)),
        key_pos(s, k) < 0 ==> forall|j: int| 0 <= j < s.len() ==> s[j].0 != k,
    decreases s.len(),
{
    if exists|j: int| 0 <= j < s.len() && s[j].0 == k {
        let j = choose|j: int| 0 <= j < s.len() && s[j].0 == k;
        let init = s.drop_last();
        lemma_first_key(init, k);
        assert(forall|i: int| 0 <= i < init.len() ==> init[i] == s[i]);
        if key_pos(init, k) >= 0 {
            let f = key_pos(init, k);
            assert(key_at(s, k, f));
            lemma_key_pos(s, k, f);
        } else {
            assert(j == s.len() - 1) by {
                if j < s.len() - 1 {
                    assert(s[j] == init[j]);
                }
            }
            assert(key_at(s, k, j));
            lemma_key_pos(s, k, j);
        }
    }
}

/// The entries of `v` seen as (key text, value).
pub open spec fn keyed_view<V>(v: Seq<(String, V)>) -> Seq<(Seq<char>, V)> {
    Seq::new(v.len(), |i: int| (v[i].0@, v[i].1))
}

/// Sets the value under key `k`: replaces the first entry under `k`, or
/// appends one.
pub fn put_entry<V>(v: &mut Vec<(String, V)>, k: &String, x: V)
    ensures
        keyed_view(final(v)@) == put(keyed_view(old(v)@), k@, x),
{
    let ghost sv = keyed_view(v@);
    let mut j: usize = 0;
    while j < v.len()
        invariant
            v@ == old(v)@,
            sv == keyed_view(v@),
            j <= v@.len(),
            forall|q: int| 0 <= q < j ==> v@[q].0@ != k@,
        decreases v.len() - j,
    {
        if crate::text::str_eq(v[j].0.as_str(), k.as_str()) {
            proof { lemma_key_pos(sv, k@, j as int); }
            v.set(j, (k.clone(), x));
            assert(keyed_view(v@) =~= put(sv, k@, x));
            return;
        }
        j = j + 1;
    }
    assert(!(exists|q: int| 0 <= q < sv.len() && sv[q].0 == k@));
    v.push((k.clone(), x));
    assert(keyed_view(v@) =~= put(sv, k@, x));
}

} // verus!
