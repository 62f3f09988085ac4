//! Unique identifiers (UUIDs, held as their 128-bit value) and their text form.

use vstd::prelude::*;

verus! {

/// A fresh random identifier: `uuid::Uuid::new_v4()`, as its 128-bit value.
/// Nothing is promised of the value: it is random.
#[verifier::external_body]
pub(crate) fn new_uuid() -> (id: u128) {
    uuid::Uuid::new_v4().as_u128()
}

/// The lowercase hexadecimal digit for `d < 16`.
pub open spec fn hex_char(d: nat) -> char {
    if d < 10 {
        (48 + d) as char
    } else {
        (87 + d) as char
    }
}

/// The last `width` hexadecimal digits of `n`, most significant first.
pub open spec fn hex_fixed(n: nat, width: nat) -> Seq<char>
    decreases width,
{
    if width == 0 {
        Seq::empty()
    } else {
        hex_fixed(n / 16, (width - 1) as nat).push(hex_char(n % 16))
    }
}

/// The hyphenated lowercase text of a UUID (`8-4-4-4-12` hex digits), as
/// `uuid::Uuid`'s `Display` writes it.
pub open spec fn uuid_text(id: u128) -> Seq<char> {
    hex_fixed(id as nat / 0x1_0000_0000_0000_0000_0000_0000, 8) + seq!['-']
        + hex_fixed((id as nat / 0x1_0000_0000_0000_0000_0000) % 0x1_0000, 4) + seq!['-']
        + hex_fixed((id as nat / 0x1_0000_0000_0000_0000) % 0x1_0000, 4) + seq!['-']
        + hex_fixed((id as nat / 0x1_0000_0000_0000) % 0x1_0000, 4) + seq!['-']
        + hex_fixed(id as nat % 0x1_0000_0000_0000, 12)
}

fn hex_digit(d: u128) -> (c: char)
    requires
        d < 16,
    ensures
        c == hex_char(d as nat),
{
    if d < 10 {
        ((48 + d) as u8) as char
    } else {
        ((87 + d) as u8) as char
    }
}

fn push_hex_fixed(out: &mut Vec<char>, n: u128, width: usize)
    ensures
        final(out)@ == old(out)@ + hex_fixed(n as nat, width as nat),
    decreases width,
{
    if width > 0 {
        push_hex_fixed(out, n / 16, width - 1);
        out.push(hex_digit(n % 16));
        assert(final(out)@ =~= old(out)@ + hex_fixed(n as nat, width as nat));
    } else {
        assert(final(out)@ =~= old(out)@ + hex_fixed(n as nat, width as nat));
    }
}

/// The hyphenated lowercase text of a UUID.
pub fn uuid_string(id: u128) -> (s: String)
    ensures
        s@ == uuid_text(id),
{
    let mut v: Vec<char> = Vec::new();
    push_hex_fixed(&mut v, id / 0x1_0000_0000_0000_0000_0000_0000, 8);
    v.push('-');
    push_hex_fixed(&mut v, (id / 0x1_0000_0000_0000_0000_0000) % 0x1_0000, 4);
    v.push('-');
    push_hex_fixed(&mut v, (id / 0x1_0000_0000_0000_0000) % 0x1_0000, 4);
    v.push('-');
    push_hex_fixed(&mut v, (id / 0x1_0000_0000_0000) % 0x1_0000, 4);
    v.push('-');
    push_hex_fixed(&mut v, id % 0x1_0000_0000_0000, 12);
    assert(v@ =~= uuid_text(id));
    crate::text::string_of(&v)
}

/// The first component of a UUID's text: its eight leading hex digits.
pub fn short_id(id: u128) -> (s: String)
    ensures
        s@ == hex_fixed(id as nat / 0x1_0000_0000_0000_0000_0000_0000, 8),
        s@ == uuid_text(id).subrange(0, 8),
{
    let mut v: Vec<char> = Vec::new();
    push_hex_fixed(&mut v, id / 0x1_0000_0000_0000_0000_0000_0000, 8);
    assert(v@ =~= hex_fixed(id as nat / 0x1_0000_0000_0000_0000_0000_0000, 8));
    assert(uuid_text(id).subrange(0, 8) =~= v@) by {
        lemma_hex_fixed_len(id as nat / 0x1_0000_0000_0000_0000_0000_0000, 8);
    }
    crate::text::string_of(&v)
}

pub proof fn lemma_hex_fixed_len(n: nat, width: nat)
    ensures
        hex_fixed(n, width).len() == width,
    decreases width,
{
    if width > 0 {
        lemma_hex_fixed_len(n / 16, (width - 1) as nat);
    }
}

} // verus!
