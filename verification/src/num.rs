//! Unsigned integers read from text, as std's `str::parse` and
//! `from_str_radix` read them.

use vstd::prelude::*;

verus! {

/// The value of a decimal digit.
pub open spec fn dec_digit(c: char) -> Option<nat> {
    if '0' <= c && c <= '9' { Some((c as u32 - 48) as nat) } else { None }
}

/// The value of a hexadecimal digit (either case).
pub open spec fn hex_digit(c: char) -> Option<nat> {
    if '0' <= c && c <= '9' {
        Some((c as u32 - 48) as nat)
    } else if 'a' <= c && c <= 'f' {
        Some((c as u32 - 87) as nat)
    } else if 'A' <= c && c <= 'F' {
        Some((c as u32 - 55) as nat)
    } else {
        None
    }
}

/// The value of a string of decimal digits, if every character is one.
pub open spec fn dec_value(s: Seq<char>) -> Option<nat>
    decreases s.len(),
{
    if s.len() == 0 {
        Some(0)
    } else {
        match (dec_value(s.drop_last()), dec_digit(s.last())) {
            (Some(v), Some(d)) => Some(v * 10 + d),
            _ => None,
        }
    }
}

/// The value of a string of hexadecimal digits, if every character is one.
pub open spec fn hex_value(s: Seq<char>) -> Option<nat>
    decreases s.len(),
{
    if s.len() == 0 {
        Some(0)
    } else {
        match (hex_value(s.drop_last()), hex_digit(s.last())) {
            (Some(v), Some(d)) => Some(v * 16 + d),
            _ => None,
        }
    }
}

/// `s` without one leading `+`.
pub open spec fn unsigned_digits(s: Seq<char>) -> Seq<char> {
    if s.len() > 0 && s[0] == '+' { s.drop_first() } else { s }
}

/// What `str::parse::<u64>` reads: an optional `+`, then one or more
/// decimal digits whose value fits in a `u64`.
pub open spec fn parse_u64_spec(s: Seq<char>) -> Option<u64> {
    let d = unsigned_digits(s);
    if d.len() == 0 {
        None
    } else {
        match dec_value(d) {
            Some(v) => if v <= u64::MAX { Some(v as u64) } else { None },
            None => None,
        }
    }
}

/// What `u128::from_str_radix(_, 16)` reads: an optional `+`, then one or
/// more hexadecimal digits whose value fits in a `u128`.
pub open spec fn parse_hex_u128_spec(s: Seq<char>) -> Option<u128> {
    let d = unsigned_digits(s);
    if d.len() == 0 {
        None
    } else {
        match hex_value(d) {
            Some(v) => if v <= u128::MAX { Some(v as u128) } else { None },
            None => None,
        }
    }
}

fn dec_digit_exec(c: char) -> (r: Option<u128>)
    ensures
        match r {
            Some(d) => dec_digit(c) == Some(d as nat) && d < 10,
            None => dec_digit(c) is None,
        },
{
    if '0' <= c && c <= '9' { Some((c as u32 - 48) as u128) } else { None }
}

fn hex_digit_exec(c: char) -> (r: Option<u128>)
    ensures
        match r {
            Some(d) => hex_digit(c) == Some(d as nat) && d < 16,
            None => hex_digit(c) is None,
        },
{
    if '0' <= c && c <= '9' {
        Some((c as u32 - 48) as u128)
    } else if 'a' <= c && c <= 'f' {
        Some((c as u32 - 87) as u128)
    } else if 'A' <= c && c <= 'F' {
        Some((c as u32 - 55) as u128)
    } else {
        None
    }
}

/// Reads an unsigned number in base 10 or 16 from `s` (after one optional
/// `+`); `None` when a character is not a digit, there is no digit, or the
/// value exceeds `max`.
fn parse_radix(s: &str, hex: bool, max: u128) -> (r: Option<u128>)
    requires
        max >= 16,
    ensures
        ({
            let d = unsigned_digits(s@);
            let v = if hex { hex_value(d) } else { dec_value(d) };
            match r {
                Some(x) => d.len() > 0 && v == Some(x as nat) && x <= max,
                None => d.len() == 0 || v is None || v->0 > max,
            }
        }),
{
    let n = s.unicode_len();
    let mut start: usize = 0;
    if n > 0 && s.get_char(0) == '+' {
        start = 1;
    }
    let ghost d = unsigned_digits(s@);
    assert(d =~= s@.subrange(start as int, n as int));
    if start == n {
        return None;
    }
    let mut acc: u128 = 0;
    let mut big = false;
    let mut i: usize = start;
    while i < n
        invariant
            n == s@.len(),
            start <= i <= n,
            max >= 16,
            d == unsigned_digits(s@),
            d == s@.subrange(start as int, n as int),
            ({
                let v = if hex { hex_value(d.take(i - start)) } else { dec_value(d.take(i - start)) };
                &&& v is Some
                &&& !big ==> v == Some(acc as nat) && acc <= max
                &&& big ==> v->0 > max
            }),
        decreases n - i,
    {
        let c = s.get_char(i);
        let ghost k = i - start;
        assert(d.take(k + 1).drop_last() =~= d.take(k));
        assert(d.take(k + 1).last() == c);
        let dig = if hex { hex_digit_exec(c) } else { dec_digit_exec(c) };
        match dig {
            None => {
                proof {
                    assert(d[k] == c);
                    assert(d.take(d.len() as int) =~= d);
                    lemma_invalid_stays(d, k, hex);
                }
                return None;
            },
            Some(x) => {
                if !big {
                    let base: u128 = if hex { 16 } else { 10 };
                    if acc > (max - x) / base {
                        proof { lemma_over(acc as int, base as int, x as int, max as int); }
                        big = true;
                    } else {
                        proof { lemma_under(acc as int, base as int, x as int, max as int); }
                        acc = acc * base + x;
                    }
                }
            },
        }
        i = i + 1;
    }
    assert(d.take(d.len() as int) =~= d);
    if big { None } else { Some(acc) }
}

proof fn lemma_over(acc: int, base: int, x: int, max: int)
    requires
        0 <= x <= max,
        base > 0,
        acc > (max - x) / base,
    ensures
        acc * base + x > max,
{
    assert(acc * base + x > max) by (nonlinear_arith)
        requires
            0 <= x <= max,
            base > 0,
            acc > (max - x) / base;
}

proof fn lemma_under(acc: int, base: int, x: int, max: int)
    requires
        0 <= x <= max,
        base > 0,
        0 <= acc <= (max - x) / base,
    ensures
        acc * base + x <= max,
{
    assert(acc * base + x <= max) by (nonlinear_arith)
        requires
            0 <= x <= max,
            base > 0,
            0 <= acc <= (max - x) / base;
}

proof fn lemma_invalid_stays(d: Seq<char>, k: int, hex: bool)
    requires
        0 <= k < d.len(),
        (if hex { hex_digit(d[k]) } else { dec_digit(d[k]) }) is None,
    ensures
        (if hex { hex_value(d) } else { dec_value(d) }) is None,
    decreases d.len() - k,
{
    if k + 1 < d.len() {
        lemma_invalid_stays(d.drop_last(), k, hex);
        assert(d.drop_last()[k] == d[k]);
    } else {
        assert(d.last() == d[k]);
    }
}

/// Reads a decimal `u64` as `str::parse::<u64>` does.
pub fn parse_u64(s: &str) -> (r: Option<u64>)
    ensures
        r == parse_u64_spec(s@),
{
    match parse_radix(s, false, u64::MAX as u128) {
        Some(x) => Some(x as u64),
        None => None,
    }
}

/// Reads a hexadecimal `u128` as `u128::from_str_radix(s, 16)` does.
pub fn parse_hex_u128(s: &str) -> (r: Option<u128>)
    ensures
        r == parse_hex_u128_spec(s@),
{
    parse_radix(s, true, u128::MAX)
}

} // verus!
