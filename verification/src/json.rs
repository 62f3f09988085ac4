//! Compact JSON text, as `serde_json` writes it: string escaping and the
//! objects the library frames around values it holds as text.

use vstd::prelude::*;
use crate::ids::hex_char;
use crate::text::decimal;

verus! {

/// How one character of a string is written inside a JSON string literal:
/// quote and backslash are escaped, control characters use their short
/// escape or `\u00XX` (lowercase hex), everything else is written as is.
pub open spec fn json_char(c: char) -> Seq<char> {
    let n = c as u32;
    if c == '"' {
        seq!['\\', '"']
    } else if c == '\\' {
        seq!['\\', '\\']
    } else if n == 8 {
        seq!['\\', 'b']
    } else if n == 9 {
        seq!['\\', 't']
    } else if n == 10 {
        seq!['\\', 'n']
    } else if n == 12 {
        seq!['\\', 'f']
    } else if n == 13 {
        seq!['\\', 'r']
    } else if n < 32 {
        seq!['\\', 'u', '0', '0', hex_char((n / 16) as nat), hex_char((n % 16) as nat)]
    } else {
        seq![c]
    }
}

/// The escaped body of a JSON string literal for `s`.
pub open spec fn json_escape(s: Seq<char>) -> Seq<char>
    decreases s.len(),
{
    if s.len() == 0 {
        Seq::empty()
    } else {
        json_escape(s.drop_last()) + json_char(s.last())
    }
}

/// The JSON string literal for `s`.
pub open spec fn json_quote(s: Seq<char>) -> Seq<char> {
    seq!['"'] + json_escape(s) + seq!['"']
}

/// Appends the characters of `s`.
pub fn push_str(out: &mut Vec<char>, s: &str)
    ensures
        final(out)@ == old(out)@ + s@,
{
    let ghost start = out@;
    let n = s.unicode_len();
    let mut i: usize = 0;
    while i < n
        invariant
            n == s@.len(),
            i <= n,
            out@ == start + s@.subrange(0, i as int),
        decreases n - i,
    {
        out.push(s.get_char(i));
        i = i + 1;
        assert(out@ =~= start + s@.subrange(0, i as int));
    }
    assert(s@.subrange(0, n as int) =~= s@);
}

fn hex_digit(d: u32) -> (c: char)
    requires
        d < 16,
    ensures
        c == hex_char(d as nat),
{
    if d < 10 {
        ((48 + d) as u8) as char
    } else {
        ((87 + d) as u8) as char
    }
}

fn push_json_char(out: &mut Vec<char>, c: char)
    ensures
        final(out)@ == old(out)@ + json_char(c),
{
    let ghost start = out@;
    let n = c as u32;
    if c == '"' {
        out.push('\\');
        out.push('"');
    } else if c == '\\' {
        out.push('\\');
        out.push('\\');
    } else if n == 8 {
        out.push('\\');
        out.push('b');
    } else if n == 9 {
        out.push('\\');
        out.push('t');
    } else if n == 10 {
        out.push('\\');
        out.push('n');
    } else if n == 12 {
        out.push('\\');
        out.push('f');
    } else if n == 13 {
        out.push('\\');
        out.push('r');
    } else if n < 32 {
        out.push('\\');
        out.push('u');
        out.push('0');
        out.push('0');
        out.push(hex_digit(n / 16));
        out.push(hex_digit(n % 16));
    } else {
        out.push(c);
    }
    assert(out@ =~= start + json_char(c));
}

/// Appends the JSON string literal for `s`.
pub fn push_json_string(out: &mut Vec<char>, s: &str)
    ensures
        final(out)@ == old(out)@ + json_quote(s@),
{
    let ghost start = out@;
    out.push('"');
    let n = s.unicode_len();
    let mut i: usize = 0;
    while i < n
        invariant
            n == s@.len(),
            i <= n,
            out@ == start + seq!['"'] + json_escape(s@.subrange(0, i as int)),
        decreases n - i,
    {
        let c = s.get_char(i);
        push_json_char(out, c);
        assert(s@.subrange(0, i + 1).drop_last() =~= s@.subrange(0, i as int));
        i = i + 1;
        assert(out@ =~= start + seq!['"'] + json_escape(s@.subrange(0, i as int)));
    }
    assert(s@.subrange(0, n as int) =~= s@);
    out.push('"');
    assert(out@ =~= start + json_quote(s@));
}

/// Appends `n` in decimal.
pub fn push_decimal(out: &mut Vec<char>, n: u64)
    ensures
        final(out)@ == old(out)@ + decimal(n as nat),
{
    let s = crate::text::u64_to_decimal(n);
    push_str(out, s.as_str());
}

/// The JSON literal `null`.
pub open spec fn json_null() -> Seq<char> {
    seq!['n', 'u', 'l', 'l']
}

/// An optional string: its literal, or `null`.
pub open spec fn json_opt_string(s: Option<Seq<char>>) -> Seq<char> {
    match s {
        Some(t) => json_quote(t),
        None => json_null(),
    }
}

/// An optional number: its decimal digits, or `null`.
pub open spec fn json_opt_number(n: Option<u64>) -> Seq<char> {
    match n {
        Some(v) => decimal(v as nat),
        None => json_null(),
    }
}

/// Appends an optional string.
pub fn push_opt_string(out: &mut Vec<char>, s: Option<&str>)
    ensures
        final(out)@ == old(out)@ + json_opt_string(match s { Some(t) => Some(t@), None => None }),
{
    match s {
        Some(t) => push_json_string(out, t),
        None => {
            let ghost start = out@;
            push_str(out, "null");
            proof { reveal_strlit("null"); }
            assert(out@ =~= start + json_null());
        },
    }
}

/// Appends an optional number.
pub fn push_opt_number(out: &mut Vec<char>, n: Option<u64>)
    ensures
        final(out)@ == old(out)@ + json_opt_number(n),
{
    match n {
        Some(v) => push_decimal(out, v),
        None => {
            let ghost start = out@;
            push_str(out, "null");
            proof { reveal_strlit("null"); }
            assert(out@ =~= start + json_null());
        },
    }
}

/// `n` in decimal, with a leading `-` when negative.
pub open spec fn signed_decimal(n: int) -> Seq<char> {
    if n < 0 { seq!['-'] + decimal((-n) as nat) } else { decimal(n as nat) }
}

/// Appends `n` in decimal, with a leading `-` when negative.
pub fn push_signed_decimal(out: &mut Vec<char>, n: i64)
    ensures
        final(out)@ == old(out)@ + signed_decimal(n as int),
{
    let ghost start = out@;
    if n < 0 {
        out.push('-');
        let m: u64 = (-(n as i128)) as u64;
        push_decimal(out, m);
        assert(out@ =~= start + signed_decimal(n as int));
    } else {
        push_decimal(out, n as u64);
    }
}

} // verus!
