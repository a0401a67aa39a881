//! Small verified text utilities: string equality, decimal formatting and
//! decimal parsing, shared by the request builders and response parsers.

use vstd::prelude::*;
use vstd::string::StrSliceExecFns;
use vstd::string::StringExecFns;

verus! {

/// Relies on `alloc::string::String::push`: appends one character at the end.
pub assume_specification[ String::push ](s: &mut String, c: char)
    ensures
        final(s)@ == old(s)@.push(c),
;

/// Character-by-character string comparison.
pub fn str_eq(a: &str, b: &str) -> (r: bool)
    ensures
        r == (a@ == b@),
{
    let an = a.unicode_len();
    let bn = b.unicode_len();
    if an != bn {
        return false;
    }
    let mut i: usize = 0;
    while i < an
        invariant
            an == a@.len(),
            an == b@.len(),
            i <= an,
            forall|j: int| 0 <= j < i ==> a@[j] == b@[j],
        decreases an - i,
    {
        if a.get_char(i) != b.get_char(i) {
            return false;
        }
        i += 1;
    }
    assert(a@ =~= b@);
    true
}

/// The decimal digit character for a value below ten ('0' is code 48).
pub open spec fn spec_digit_char(d: int) -> char
    recommends
        0 <= d < 10,
{
    (('0' as int + d) as u8) as char
}

/// The decimal representation of a natural number, most significant
/// digit first.
pub open spec fn spec_dec_digits(n: int) -> Seq<char>
    recommends
        n >= 0,
    decreases n,
{
    if n < 10 {
        seq![spec_digit_char(n)]
    } else {
        spec_dec_digits(n / 10) + seq![spec_digit_char(n % 10)]
    }
}

/// Append the decimal representation of `n` to `out`.
pub fn append_u64(out: &mut String, n: u64)
    ensures
        final(out)@ == old(out)@ + spec_dec_digits(n as int),
{
    let mut digits: Vec<char> = Vec::new();
    let mut rest: u64 = n;
    while rest >= 10
        invariant
            spec_dec_digits(n as int) =~= spec_dec_digits(rest as int) + digits@,
        decreases rest,
    {
        let d = (rest % 10) as u8;
        let c = (48u8 + d) as char;
        assert(c == spec_digit_char(rest as int % 10));
        digits.insert(0, c);
        rest = rest / 10;
    }
    let c = (48u8 + (rest as u8)) as char;
    assert(c == spec_digit_char(rest as int));
    digits.insert(0, c);
    assert(digits@ =~= spec_dec_digits(n as int));
    let ghost start = out@;
    let mut i: usize = 0;
    while i < digits.len()
        invariant
            digits@ == spec_dec_digits(n as int),
            i <= digits@.len(),
            out@ == start + digits@.take(i as int),
        decreases digits@.len() - i,
    {
        out.push(digits[i]);
        assert(digits@.take(i + 1) =~= digits@.take(i as int).push(digits@[i as int]));
        i += 1;
    }
    assert(digits@.take(digits@.len() as int) =~= digits@);
}

/// The decimal representation of `n` as a fresh string.
pub fn u64_to_string(n: u64) -> (r: String)
    ensures
        r@ == spec_dec_digits(n as int),
{
    let mut out = String::new();
    append_u64(&mut out, n);
    out
}

/// The numeric value of a sequence of decimal digit characters.
pub open spec fn spec_dec_value(s: Seq<char>) -> int
    decreases s.len(),
{
    if s.len() == 0 {
        0
    } else {
        spec_dec_value(s.drop_last()) * 10 + (s.last() as int - '0' as int)
    }
}

/// Whether every character of `s` is a decimal digit.
pub open spec fn spec_all_digits(s: Seq<char>) -> bool {
    forall|i: int| 0 <= i < s.len() ==> '0' <= #[trigger] s[i] <= '9'
}

/// Formatting a number and reading the text back is the identity: the
/// decimal representation consists of digits and has the number as its
/// value.
pub proof fn lemma_dec_digits_value(n: int)
    requires
        n >= 0,
    ensures
        spec_all_digits(spec_dec_digits(n)),
        spec_dec_value(spec_dec_digits(n)) == n,
    decreases n,
{
    if n < 10 {
        let s = spec_dec_digits(n);
        assert(s == seq![spec_digit_char(n)]);
        assert(spec_dec_value(s.drop_last()) == 0) by {
            assert(s.drop_last().len() == 0);
        }
        assert(spec_dec_value(s) == s.last() as int - '0' as int);
        assert('0' <= spec_digit_char(n) <= '9');
    } else {
        lemma_dec_digits_value(n / 10);
        let t = spec_dec_digits(n / 10);
        let s = spec_dec_digits(n);
        assert(s == t + seq![spec_digit_char(n % 10)]);
        assert(s.drop_last() =~= t);
        assert(s.last() == spec_digit_char(n % 10));
        assert('0' <= spec_digit_char(n % 10) <= '9');
        assert(spec_dec_value(s) == spec_dec_value(t) * 10 + (n % 10));
        assert((n / 10) * 10 + n % 10 == n) by (nonlinear_arith)
            requires
                n >= 0,
        ;
        assert forall|i: int| 0 <= i < s.len() implies '0' <= #[trigger] s[i] <= '9' by {
            if i < t.len() {
                assert(s[i] == t[i]);
            } else {
                assert(s[i] == spec_digit_char(n % 10));
            }
        }
    }
}

/// Parse a non-empty, all-digit string as a decimal number; `None` when a
/// non-digit occurs, the string is empty, or the value exceeds `u64`.
pub fn parse_u64(s: &str) -> (r: Option<u64>)
    ensures
        match r {
            Some(v) => s@.len() > 0 && spec_all_digits(s@) && v == spec_dec_value(s@),
            None => s@.len() == 0 || !spec_all_digits(s@) || spec_dec_value(s@) > u64::MAX,
        },
{
    let n = s.unicode_len();
    if n == 0 {
        return None;
    }
    let mut acc: u64 = 0;
    let mut i: usize = 0;
    while i < n
        invariant
            n == s@.len(),
            i <= n,
            spec_all_digits(s@.take(i as int)),
            acc == spec_dec_value(s@.take(i as int)),
        decreases n - i,
    {
        let c = s.get_char(i);
        if c < '0' || c > '9' {
            assert(s@[i as int] == c && !('0' <= c <= '9'));
            return None;
        }
        let d = (c as u32 - '0' as u32) as u64;
        if acc > (u64::MAX - d) / 10 {
            proof {
                if spec_all_digits(s@) {
                    assert(s@.take(i + 1).drop_last() =~= s@.take(i as int));
                    assert(spec_dec_value(s@.take(i + 1)) == acc * 10 + d);
                    lemma_dec_value_monotone(s@, i + 1);
                }
            }
            return None;
        }
        acc = acc * 10 + d;
        assert(s@.take(i + 1).drop_last() =~= s@.take(i as int));
        i += 1;
    }
    assert(s@.take(n as int) =~= s@);
    Some(acc)
}

/// Reading further digits never decreases the value of a digit string.
proof fn lemma_dec_value_monotone(s: Seq<char>, i: int)
    requires
        0 <= i <= s.len(),
        spec_dec_value(s.take(i)) >= 0,
        spec_all_digits(s),
    ensures
        spec_dec_value(s) >= spec_dec_value(s.take(i)),
    decreases s.len() - i,
{
    if i < s.len() {
        assert(s.take(i + 1).drop_last() =~= s.take(i));
        assert('0' <= s[i] <= '9');
        assert(spec_dec_value(s.take(i + 1)) == spec_dec_value(s.take(i)) * 10 + (s[i] as int
            - '0' as int));
        lemma_dec_value_monotone(s, i + 1);
    } else {
        assert(s.take(i) =~= s);
    }
}

} // verus!
