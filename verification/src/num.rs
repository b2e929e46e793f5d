//! Decimal rendering and parsing of integers, as `Display` and `FromStr` do it.

use vstd::prelude::*;
use crate::text::{all_digits, chars_of, decimal, digit_char, digit_value, digits_value, parse_i64_spec, parse_unsigned_spec, signed_decimal, string_from_chars};

verus! {

fn digit_char_exec(d: u128) -> (c: char)
    requires
        d < 10,
    ensures
        c == digit_char(d as nat),
{
    if d == 0 { '0' } else if d == 1 { '1' } else if d == 2 { '2' } else if d == 3 { '3' }
    else if d == 4 { '4' } else if d == 5 { '5' } else if d == 6 { '6' } else if d == 7 { '7' }
    else if d == 8 { '8' } else { '9' }
}

/// Decimal digits of `n`, most significant first.
pub fn decimal_chars(n: u128) -> (v: Vec<char>)
    ensures
        v@ == decimal(n as nat),
    decreases n,
{
    if n < 10 {
        let mut v = Vec::new();
        v.push(digit_char_exec(n));
        assert(v@ =~= seq![digit_char(n as nat)]);
        v
    } else {
        let mut v = decimal_chars(n / 10);
        v.push(digit_char_exec(n % 10));
        v
    }
}

/// `u64::to_string`.
pub fn u64_to_string(n: u64) -> (s: String)
    ensures
        s@ == decimal(n as nat),
{
    let v = decimal_chars(n as u128);
    string_from_chars(v.as_slice())
}

/// `u128::to_string`.
pub fn u128_to_string(n: u128) -> (s: String)
    ensures
        s@ == decimal(n as nat),
{
    let v = decimal_chars(n);
    string_from_chars(v.as_slice())
}

/// `i64::to_string`.
pub fn i64_to_string(n: i64) -> (s: String)
    ensures
        s@ == signed_decimal(n as int),
{
    i128_to_string(n as i128)
}

/// `i128::to_string`.
pub fn i128_to_string(n: i128) -> (s: String)
    ensures
        s@ == signed_decimal(n as int),
{
    if n < 0 {
        let m: u128 = if n == i128::MIN { 170141183460469231731687303715884105728u128 } else { (-n) as u128 };
        let mut v: Vec<char> = Vec::new();
        v.push('-');
        let d = decimal_chars(m);
        let mut i: usize = 0;
        while i < d.len()
            invariant
                0 <= i <= d@.len(),
                v@ == seq!['-'] + d@.take(i as int),
            decreases d@.len() - i,
        {
            v.push(d[i]);
            i += 1;
            assert(d@.take(i as int) == d@.take(i - 1).push(d@[i - 1]));
        }
        assert(d@.take(d@.len() as int) == d@);
        string_from_chars(v.as_slice())
    } else {
        u128_to_string(n as u128)
    }
}

fn digit_value_exec(c: char, radix: u32) -> (r: Option<u64>)
    requires
        radix <= 16,
    ensures
        r matches Some(d) ==> digit_value(c, radix as nat) == Some(d as nat) && d < radix,
        r is None ==> digit_value(c, radix as nat) is None,
{
    let v: u32 = if '0' <= c && c <= '9' {
        (c as u32) - ('0' as u32)
    } else if 'a' <= c && c <= 'f' {
        (c as u32) - ('a' as u32) + 10
    } else if 'A' <= c && c <= 'F' {
        (c as u32) - ('A' as u32) + 10
    } else {
        99
    };
    if v < radix { Some(v as u64) } else { None }
}

proof fn lemma_digits_value_monotone(s: Seq<char>, radix: nat)
    requires
        radix >= 1,
        s.len() > 0,
    ensures
        digits_value(s, radix) >= digits_value(s.drop_last(), radix),
{
    assert(digits_value(s.drop_last(), radix) * radix >= digits_value(s.drop_last(), radix)) by (nonlinear_arith)
        requires radix >= 1;
}

proof fn lemma_prefix_value_grows(v: Seq<char>, start: int, j: int, k: int, radix: nat)
    requires
        radix >= 1,
        0 <= start <= j <= k <= v.len(),
    ensures
        digits_value(v.subrange(start, k), radix) >= digits_value(v.subrange(start, j), radix),
    decreases k - j,
{
    if k > j {
        let t = v.subrange(start, k);
        assert(t.drop_last() =~= v.subrange(start, k - 1));
        lemma_digits_value_monotone(t, radix);
        lemma_prefix_value_grows(v, start, j, k - 1, radix);
    }
}

/// Parses an unsigned integer in the given radix, as `from_str_radix` does for a type whose
/// largest value is `max`.
pub fn parse_unsigned(s: &str, radix: u32, max: u64) -> (r: Option<u64>)
    requires
        2 <= radix <= 16,
    ensures
        r matches Some(v) ==> parse_unsigned_spec(s@, radix as nat, max as nat) == Some(v as nat),
        r is None ==> parse_unsigned_spec(s@, radix as nat, max as nat) is None,
{
    let v = chars_of(s);
    let start: usize = if v.len() > 0 && v[0] == '+' { 1 } else { 0 };
    let ghost body = if s@.len() > 0 && s@[0] == '+' { s@.drop_first() } else { s@ };
    assert(body =~= v@.subrange(start as int, v@.len() as int));
    if start == v.len() {
        return None;
    }
    let mut acc: u64 = 0;
    let mut i: usize = start;
    while i < v.len()
        invariant
            start <= i <= v@.len(),
            body == v@.subrange(start as int, v@.len() as int),
            body == (if s@.len() > 0 && s@[0] == '+' { s@.drop_first() } else { s@ }),
            v@ == s@,
            body.len() > 0,
            2 <= radix <= 16,
            all_digits(v@.subrange(start as int, i as int), radix as nat),
            acc as nat == digits_value(v@.subrange(start as int, i as int), radix as nat),
            acc <= max,
        decreases v@.len() - i,
    {
        let ghost pre = v@.subrange(start as int, i as int);
        let ghost nxt = v@.subrange(start as int, i + 1);
        assert(nxt.drop_last() =~= pre);
        assert(nxt.last() == v@[i as int]);
        match digit_value_exec(v[i], radix) {
            None => {
                assert(body[i - start] == v@[i as int]);
                assert(!all_digits(body, radix as nat));
                assert(parse_unsigned_spec(s@, radix as nat, max as nat) is None);
                return None;
            }
            Some(d) => {
                assert((acc as u128) * (radix as u128) <= 18446744073709551615u128 * 16u128) by (nonlinear_arith)
                    requires acc <= 18446744073709551615u64, radix <= 16u32;
                let wide: u128 = (acc as u128) * (radix as u128) + (d as u128);
                assert(wide == digits_value(nxt, radix as nat));
                if wide > max as u128 {
                    proof {
                        lemma_prefix_value_grows(v@, start as int, i + 1, v@.len() as int, radix as nat);
                        assert(v@.subrange(start as int, v@.len() as int) == body);
                    }
                    return None;
                }
                acc = wide as u64;
                assert forall|k: int| 0 <= k < nxt.len() implies (#[trigger] digit_value(nxt[k], radix as nat)) is Some by {
                    if k < pre.len() { assert(nxt[k] == pre[k]); }
                }
                i += 1;
            }
        }
    }
    assert(v@.subrange(start as int, v@.len() as int) == body);
    Some(acc)
}

/// Parses a signed 64-bit integer, as `str::parse::<i64>` does.
pub fn parse_i64(s: &str) -> (r: Option<i64>)
    ensures
        r matches Some(v) ==> parse_i64_spec(s@) == Some(v as int),
        r is None ==> parse_i64_spec(s@) is None,
{
    let v = chars_of(s);
    if v.len() > 0 && v[0] == '-' {
        let rest = string_from_chars(v.as_slice().split_at(1).1);
        assert(rest@ =~= s@.drop_first());
        if v.len() > 1 && v[1] == '+' {
            // a '+' after the '-' is not a digit
            proof {
                let body = s@.drop_first();
                assert(digit_value(body[0], 10) is None);
            }
            return None;
        }
        proof {
            let body = s@.drop_first();
            if body.len() > 0 { assert(body[0] != '+'); }
            assert((if body.len() > 0 && body[0] == '+' { body.drop_first() } else { body }) == body);
        }
        match parse_unsigned(&rest, 10, 9223372036854775808u64) {
            None => None,
            Some(m) => {
                if m == 9223372036854775808u64 { Some(i64::MIN) } else { Some(-(m as i64)) }
            }
        }
    } else {
        match parse_unsigned(s, 10, 9223372036854775807u64) {
            None => None,
            Some(m) => Some(m as i64),
        }
    }
}

} // verus!
