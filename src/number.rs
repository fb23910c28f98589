//! Decimal number texts, as the gateway writes them in its XML replies.
use vstd::prelude::*;

verus! {

pub open spec fn is_digit(c: char) -> bool {
    '0' <= c && c <= '9'
}

pub open spec fn all_digits(s: Seq<char>) -> bool {
    forall|i: int| 0 <= i < s.len() ==> is_digit(#[trigger] s[i])
}

/// The number that a string of decimal digits denotes.
pub open spec fn digits_value(s: Seq<char>) -> int
    decreases s.len(),
{
    if s.len() == 0 {
        0
    } else {
        digits_value(s.drop_last()) * 10 + (s.last() as int - '0' as int)
    }
}

/// `Some(n)` when `s` is a non-empty run of decimal digits whose value `n` is at most `max`.
pub open spec fn bounded_digits(s: Seq<char>, max: int) -> Option<int> {
    if s.len() > 0 && all_digits(s) && digits_value(s) <= max {
        Some(digits_value(s))
    } else {
        None
    }
}

/// Value of an unsigned decimal text: an optional `+`, then digits.
pub open spec fn unsigned_value(s: Seq<char>, max: int) -> Option<int> {
    if s.len() > 0 && s[0] == '+' {
        bounded_digits(s.skip(1), max)
    } else {
        bounded_digits(s, max)
    }
}

/// Value of a signed decimal text: an optional `+` or `-`, then digits;
/// the result lies in `-(max + 1) ..= max`.
pub open spec fn signed_value(s: Seq<char>, max: int) -> Option<int> {
    if s.len() > 0 && s[0] == '-' {
        match bounded_digits(s.skip(1), max + 1) {
            Some(v) => Some(-v),
            None => None,
        }
    } else {
        unsigned_value(s, max)
    }
}

proof fn lemma_digits_value_nonneg(s: Seq<char>)
    requires
        all_digits(s),
    ensures
        digits_value(s) >= 0,
    decreases s.len(),
{
    if s.len() > 0 {
        assert(all_digits(s.drop_last())) by {
            assert forall|i: int| 0 <= i < s.drop_last().len() implies is_digit(
                #[trigger] s.drop_last()[i],
            ) by {
                assert(s.drop_last()[i] == s[i]);
            }
        }
        lemma_digits_value_nonneg(s.drop_last());
        assert(is_digit(s[s.len() - 1]));
    }
}

/// Reads the digits of `s` from `start` on, when they form a number of at most `max`.
fn digits_from(s: &str, start: usize, max: u64) -> (r: Option<u64>)
    requires
        start <= s@.len(),
    ensures
        r is Some <==> bounded_digits(s@.skip(start as int), max as int) is Some,
        r is Some ==> r->0 == bounded_digits(s@.skip(start as int), max as int)->0 && r->0 <= max,
{
    let n = s.unicode_len();
    let ghost d = s@.skip(start as int);
    let mut acc: u64 = 0;
    let mut over = false;
    let mut i: usize = start;
    while i < n
        invariant
            n == s@.len(),
            d == s@.skip(start as int),
            start <= i <= n,
            all_digits(d.take(i - start)),
            !over ==> acc as int == digits_value(d.take(i - start)) && acc <= max,
            over ==> digits_value(d.take(i - start)) > max,
        decreases n - i,
    {
        let c = s.get_char(i);
        let ghost pre = d.take(i - start);
        let ghost next = d.take(i + 1 - start);
        assert(next.drop_last() =~= pre);
        assert(next.last() == c);
        if !(c >= '0' && c <= '9') {
            assert(d[i - start] == c);
            assert(!all_digits(d));
            return None;
        }
        assert(all_digits(next)) by {
            assert forall|k: int| 0 <= k < next.len() implies is_digit(#[trigger] next[k]) by {
                if k < pre.len() {
                    assert(next[k] == pre[k]);
                }
            }
        }
        let digit: u64 = (c as u32 - '0' as u32) as u64;
        proof {
            lemma_digits_value_nonneg(pre);
        }
        if !over {
            if digit <= max && acc <= (max - digit) / 10 {
                assert(acc * 10 + digit <= max) by (nonlinear_arith)
                    requires
                        acc <= (max - digit) / 10,
                        digit <= max,
                ;
                acc = acc * 10 + digit;
            } else {
                assert(acc * 10 + digit > max) by (nonlinear_arith)
                    requires
                        digit > max || acc > (max - digit) / 10,
                ;
                over = true;
            }
        }
        i = i + 1;
    }
    assert(d.take(i - start) =~= d);
    if i == start || over {
        None
    } else {
        Some(acc)
    }
}

/// Reads an unsigned decimal text into a `u64` no larger than `max`.
pub fn parse_unsigned(s: &str, max: u64) -> (r: Option<u64>)
    ensures
        r is Some <==> unsigned_value(s@, max as int) is Some,
        r is Some ==> r->0 == unsigned_value(s@, max as int)->0 && r->0 <= max,
{
    let n = s.unicode_len();
    if n > 0 && s.get_char(0) == '+' {
        digits_from(s, 1, max)
    } else {
        assert(s@.skip(0) =~= s@);
        digits_from(s, 0, max)
    }
}

/// Reads a decimal text into a `u32`, as `u32::from_str_radix(s, 10)` does.
pub fn parse_u32(s: &str) -> (r: Option<u32>)
    ensures
        r is Some <==> unsigned_value(s@, u32::MAX as int) is Some,
        r is Some ==> r->0 == unsigned_value(s@, u32::MAX as int)->0,
{
    match parse_unsigned(s, u32::MAX as u64) {
        Some(v) => Some(v as u32),
        None => None,
    }
}

/// Reads a decimal text into a `u16`, as `u16::from_str_radix(s, 10)` does.
pub fn parse_u16(s: &str) -> (r: Option<u16>)
    ensures
        r is Some <==> unsigned_value(s@, u16::MAX as int) is Some,
        r is Some ==> r->0 == unsigned_value(s@, u16::MAX as int)->0,
{
    match parse_unsigned(s, u16::MAX as u64) {
        Some(v) => Some(v as u16),
        None => None,
    }
}

/// Reads a decimal text into an `i16`, as `i16::from_str_radix(s, 10)` does.
pub fn parse_i16(s: &str) -> (r: Option<i16>)
    ensures
        r is Some <==> signed_value(s@, i16::MAX as int) is Some,
        r is Some ==> r->0 == signed_value(s@, i16::MAX as int)->0,
{
    let n = s.unicode_len();
    if n > 0 && s.get_char(0) == '-' {
        match digits_from(s, 1, 32768) {
            Some(v) => {
                let m: i32 = 0 - (v as i32);
                assert(m >= -32768);
                Some(m as i16)
            },
            None => None,
        }
    } else {
        match parse_unsigned(s, i16::MAX as u64) {
            Some(v) => Some(v as i16),
            None => None,
        }
    }
}

} // verus!
