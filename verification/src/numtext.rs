//! Decimal and hexadecimal text for integers, with exact specifications.
use vstd::prelude::*;

use crate::text::{chars_of, push_char, trim_bounds, trim};

verus! {

/// The ASCII digit for a value below 16 (lowercase for letters).
pub open spec fn digit_char(d: nat) -> char {
    if d < 10 {
        ((d + 48) as u32) as char
    } else {
        ((d + 87) as u32) as char
    }
}

/// Decimal digits of `n`, most significant first, without leading zeros.
pub open spec fn decimal_digits(n: nat) -> Seq<char>
    decreases n,
{
    if n < 10 {
        seq![digit_char(n)]
    } else {
        decimal_digits(n / 10).push(digit_char(n % 10))
    }
}

/// `i64::to_string`.
pub open spec fn decimal_text(n: int) -> Seq<char> {
    if n < 0 {
        seq!['-'] + decimal_digits((-n) as nat)
    } else {
        decimal_digits(n as nat)
    }
}

/// Lowercase hexadecimal digits of `n`, most significant first, without leading zeros.
pub open spec fn hex_digits(n: nat) -> Seq<char>
    decreases n,
{
    if n < 16 {
        seq![digit_char(n)]
    } else {
        hex_digits(n / 16).push(digit_char(n % 16))
    }
}

fn digit(d: u64) -> (c: char)
    requires
        d < 16,
    ensures
        c == digit_char(d as nat),
{
    let b: u8 = if d < 10 {
        (d + 48) as u8
    } else {
        (d + 87) as u8
    };
    b as char
}

fn push_decimal(out: &mut String, n: u64)
    ensures
        final(out)@ == old(out)@ + decimal_digits(n as nat),
    decreases n,
{
    if n >= 10 {
        push_decimal(out, n / 10);
    }
    push_char(out, digit(n % 10));
    proof {
        if n < 10 {
            assert(n % 10 == n);
        }
        assert(final(out)@ =~= old(out)@ + decimal_digits(n as nat));
    }
}

fn push_hex(out: &mut String, n: u64)
    ensures
        final(out)@ == old(out)@ + hex_digits(n as nat),
    decreases n,
{
    if n >= 16 {
        push_hex(out, n / 16);
    }
    push_char(out, digit(n % 16));
    proof {
        if n < 16 {
            assert(n % 16 == n);
        }
        assert(final(out)@ =~= old(out)@ + hex_digits(n as nat));
    }
}

/// `u64::to_string`.
pub fn u64_to_text(n: u64) -> (s: String)
    ensures
        s@ == decimal_digits(n as nat),
{
    let mut s = String::new();
    push_decimal(&mut s, n);
    assert(s@ =~= decimal_digits(n as nat));
    s
}

/// `i64::to_string`.
pub fn i64_to_text(n: i64) -> (s: String)
    ensures
        s@ == decimal_text(n as int),
{
    let mut s = String::new();
    if n < 0 {
        push_char(&mut s, '-');
        let m: u64 = if n == i64::MIN {
            9223372036854775808u64
        } else {
            (-n) as u64
        };
        push_decimal(&mut s, m);
        assert(s@ =~= decimal_text(n as int));
    } else {
        push_decimal(&mut s, n as u64);
        assert(s@ =~= decimal_text(n as int));
    }
    s
}

/// `format!("{:#x}", n)`: `0x` followed by the lowercase hexadecimal digits.
pub fn u64_to_prefixed_hex(n: u64) -> (s: String)
    ensures
        s@ == seq!['0', 'x'] + hex_digits(n as nat),
{
    let mut s = String::new();
    push_char(&mut s, '0');
    push_char(&mut s, 'x');
    push_hex(&mut s, n);
    assert(s@ =~= seq!['0', 'x'] + hex_digits(n as nat));
    s
}

/// Whether a character is an ASCII decimal digit.
pub open spec fn is_digit(c: char) -> bool {
    '0' <= c && c <= '9'
}

/// The value of a run of decimal digits.
pub open spec fn digits_value(s: Seq<char>) -> nat
    decreases s.len(),
{
    if s.len() == 0 {
        0
    } else {
        digits_value(s.drop_last()) * 10 + ((s.last() as u32) - 48) as nat
    }
}

/// All characters are ASCII decimal digits.
pub open spec fn all_digits(d: Seq<char>) -> bool {
    forall|i: int| 0 <= i < d.len() ==> is_digit(#[trigger] d[i])
}

/// Whether the text starts with a sign character.
pub open spec fn has_sign(s: Seq<char>) -> bool {
    s.len() > 0 && (s[0] == '-' || s[0] == '+')
}

/// The text after an optional leading sign.
pub open spec fn unsigned_part(s: Seq<char>) -> Seq<char> {
    if has_sign(s) {
        s.drop_first()
    } else {
        s
    }
}

/// The signed value that the text denotes, when its digits are well formed.
pub open spec fn signed_value(s: Seq<char>) -> int {
    if s.len() > 0 && s[0] == '-' {
        -(digits_value(unsigned_part(s)) as int)
    } else {
        digits_value(unsigned_part(s)) as int
    }
}

/// `i64::from_str`: an optional sign followed by one or more ASCII digits whose
/// value fits in `i64`.
pub open spec fn parse_i64(s: Seq<char>) -> Option<i64> {
    if unsigned_part(s).len() == 0 || !all_digits(unsigned_part(s)) {
        None
    } else if i64::MIN <= signed_value(s) && signed_value(s) <= i64::MAX {
        Some(signed_value(s) as i64)
    } else {
        None
    }
}

proof fn lemma_digits_value_grows(s: Seq<char>, i: int, j: int)
    requires
        0 <= i <= j <= s.len(),
        forall|k: int| 0 <= k < s.len() ==> is_digit(#[trigger] s[k]),
    ensures
        digits_value(s.subrange(0, i)) <= digits_value(s.subrange(0, j)),
    decreases j - i,
{
    if i < j {
        lemma_digits_value_grows(s, i, j - 1);
        assert(s.subrange(0, j).drop_last() =~= s.subrange(0, j - 1));
    }
}

/// Parses the characters `cs[lo..hi]` as `i64::from_str` would.
#[verifier::loop_isolation(false)]
pub fn parse_i64_chars(cs: &Vec<char>, lo: usize, hi: usize) -> (r: Option<i64>)
    requires
        lo <= hi <= cs@.len(),
    ensures
        r == parse_i64(cs@.subrange(lo as int, hi as int)),
{
    let ghost s = cs@.subrange(lo as int, hi as int);
    if lo == hi {
        return None;
    }
    let negative = cs[lo] == '-';
    let signed = cs[lo] == '-' || cs[lo] == '+';
    let start: usize = if signed {
        lo + 1
    } else {
        lo
    };
    let ghost digits = cs@.subrange(start as int, hi as int);
    assert(s[0] == cs@[lo as int]);
    assert(digits =~= unsigned_part(s));
    if start == hi {
        return None;
    }
    let mut i: usize = start;
    while i < hi
        invariant
            lo <= start <= i <= hi <= cs@.len(),
            forall|k: int| start <= k < i ==> is_digit(#[trigger] cs@[k]),
        decreases hi - i,
    {
        if !('0' <= cs[i] && cs[i] <= '9') {
            assert(!is_digit(digits[i - start]));
            assert(!all_digits(digits));
            return None;
        }
        i = i + 1;
    }
    assert(forall|k: int| 0 <= k < digits.len() ==> is_digit(#[trigger] digits[k])) by {
        assert forall|k: int| 0 <= k < digits.len() implies is_digit(#[trigger] digits[k]) by {
            assert(digits[k] == cs@[start + k]);
        }
    }
    // Accumulate the magnitude, stopping once it exceeds what i64 can hold.
    let limit: u64 = 9223372036854775808u64;
    let mut acc: u64 = 0;
    let mut j: usize = start;
    while j < hi
        invariant
            lo <= start <= j <= hi <= cs@.len(),
            digits == cs@.subrange(start as int, hi as int),
            forall|k: int| 0 <= k < digits.len() ==> is_digit(#[trigger] digits[k]),
            acc as nat == digits_value(digits.subrange(0, j - start)),
            acc <= limit,
        decreases hi - j,
    {
        assert(digits[j - start] == cs@[j as int]);
        assert(is_digit(digits[j - start]));
        let d: u64 = ((cs[j] as u32) - 48) as u64;
        assert(digits.subrange(0, j + 1 - start).drop_last() =~= digits.subrange(0, j - start));
        if acc > limit / 10 || (acc == limit / 10 && d > limit % 10) {
            proof {
                let a = acc as int;
                let dd = d as int;
                assert(a * 10 + dd > 9223372036854775808) by (nonlinear_arith)
                    requires
                        a > 922337203685477580 || (a == 922337203685477580 && dd > 8),
                        dd >= 0,
                ;
                assert(digits_value(digits.subrange(0, j + 1 - start)) > limit);
                lemma_digits_value_grows(digits, j + 1 - start, digits.len() as int);
                assert(digits.subrange(0, digits.len() as int) =~= digits);
            }
            return None;
        }
        acc = acc * 10 + d;
        j = j + 1;
    }
    assert(digits.subrange(0, digits.len() as int) =~= digits);
    if negative {
        if acc == limit {
            Some(i64::MIN)
        } else {
            Some(-(acc as i64))
        }
    } else {
        if acc == limit {
            None
        } else {
            Some(acc as i64)
        }
    }
}

/// `s.parse::<i64>()`, with errors mapped to `None`.
pub fn parse_i64_str(s: &str) -> (r: Option<i64>)
    ensures
        r == parse_i64(s@),
{
    let cs = chars_of(s);
    assert(cs@.subrange(0, cs@.len() as int) =~= cs@);
    parse_i64_chars(&cs, 0, cs.len())
}

/// `s.trim().parse::<i64>()`, with errors mapped to `None`.
pub fn parse_trimmed_i64_str(s: &str) -> (r: Option<i64>)
    ensures
        r == parse_i64(trim(s@)),
{
    let cs = chars_of(s);
    let (a, b) = trim_bounds(&cs);
    parse_i64_chars(&cs, a, b)
}


/// The digits of an unsigned number's text: after an optional `+`.
pub open spec fn unsigned_digits(s: Seq<char>) -> Seq<char> {
    if s.len() > 0 && s[0] == '+' {
        s.drop_first()
    } else {
        s
    }
}

/// `u16::from_str`, `usize::from_str` and their kin for an unsigned type whose
/// largest value is `max`: an optional `+` followed by one or more ASCII
/// digits whose value is at most `max`.
pub open spec fn parse_unsigned(s: Seq<char>, max: int) -> Option<nat> {
    let d = unsigned_digits(s);
    if d.len() == 0 || !all_digits(d) || digits_value(d) > max {
        None
    } else {
        Some(digits_value(d))
    }
}

/// Parses `s` as an unsigned number no larger than `max`.
pub fn parse_unsigned_str(s: &str, max: u64) -> (r: Option<u64>)
    ensures
        match r {
            Some(v) => parse_unsigned(s@, max as int) == Some(v as nat),
            None => parse_unsigned(s@, max as int) is None,
        },
{
    let cs = chars_of(s);
    let n = cs.len();
    let start: usize = if n > 0 && cs[0] == '+' {
        1
    } else {
        0
    };
    let ghost digits = cs@.subrange(start as int, n as int);
    assert(digits =~= unsigned_digits(s@));
    if start == n {
        return None;
    }
    let mut i: usize = start;
    while i < n
        invariant
            cs@ == s@,
            n == cs@.len(),
            start <= i <= n,
            start < n,
            digits == cs@.subrange(start as int, n as int),
            digits == unsigned_digits(s@),
            forall|k: int| start <= k < i ==> is_digit(#[trigger] cs@[k]),
        decreases n - i,
    {
        if !('0' <= cs[i] && cs[i] <= '9') {
            assert(!is_digit(digits[i - start]));
            assert(!all_digits(digits));
            return None;
        }
        i = i + 1;
    }
    assert(forall|k: int| 0 <= k < digits.len() ==> is_digit(#[trigger] digits[k])) by {
        assert forall|k: int| 0 <= k < digits.len() implies is_digit(#[trigger] digits[k]) by {
            assert(digits[k] == cs@[start + k]);
        }
    }
    let mut acc: u64 = 0;
    let mut j: usize = start;
    while j < n
        invariant
            cs@ == s@,
            n == cs@.len(),
            start <= j <= n,
            start < n,
            digits == cs@.subrange(start as int, n as int),
            digits == unsigned_digits(s@),
            forall|k: int| 0 <= k < digits.len() ==> is_digit(#[trigger] digits[k]),
            acc as nat == digits_value(digits.subrange(0, j - start)),
            acc <= max,
        decreases n - j,
    {
        assert(digits[j - start] == cs@[j as int]);
        let d: u64 = ((cs[j] as u32) - 48) as u64;
        assert(digits.subrange(0, j + 1 - start).drop_last() =~= digits.subrange(0, j - start));
        if acc > max / 10 || (acc == max / 10 && d > max % 10) {
            proof {
                let a = acc as int;
                let dd = d as int;
                let m = max as int;
                assert(a * 10 + dd > m) by (nonlinear_arith)
                    requires
                        a > m / 10 || (a == m / 10 && dd > m % 10),
                        dd >= 0,
                        m >= 0,
                ;
                assert(digits_value(digits.subrange(0, j + 1 - start)) == a * 10 + dd);
                lemma_digits_value_grows(digits, j + 1 - start, digits.len() as int);
                assert(digits.subrange(0, digits.len() as int) =~= digits);
                assert(digits_value(digits) > m);
            }
            return None;
        }
        proof {
            let a = acc as int;
            let dd = d as int;
            let m = max as int;
            assert(a * 10 + dd <= m) by (nonlinear_arith)
                requires
                    a <= m / 10,
                    !(a == m / 10 && dd > m % 10),
                    0 <= dd <= 9,
                    m >= 0,
            ;
        }
        acc = acc * 10 + d;
        j = j + 1;
    }
    assert(digits.subrange(0, digits.len() as int) =~= digits);
    Some(acc)
}

} // verus!
