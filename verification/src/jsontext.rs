//! A small verified JSON emitter: enough to serialize the request bodies
//! the providers expect (objects of string and integer fields), with the
//! string-escaping rules of the JSON grammar.

use vstd::prelude::*;
use vstd::string::StrSliceExecFns;
use vstd::string::StringExecFns;

use crate::text::spec_digit_char;

verus! {

/// The lower-case hex digit for a value below sixteen.
pub open spec fn spec_hex_char(d: int) -> char
    recommends
        0 <= d < 16,
{
    if d < 10 {
        spec_digit_char(d)
    } else {
        (('a' as int + d - 10) as u8) as char
    }
}

/// How one character appears inside a JSON string literal.
pub open spec fn spec_escape_char(c: char) -> Seq<char> {
    if c == '"' {
        seq!['\\', '"']
    } else if c == '\\' {
        seq!['\\', '\\']
    } else if c == '\n' {
        seq!['\\', 'n']
    } else if c == '\r' {
        seq!['\\', 'r']
    } else if c == '\t' {
        seq!['\\', 't']
    } else if (c as int) < 32 {
        seq!['\\', 'u', '0', '0', spec_hex_char(c as int / 16), spec_hex_char(c as int % 16)]
    } else {
        seq![c]
    }
}

/// A whole character sequence, escaped for a JSON string literal.
pub open spec fn spec_json_escaped(s: Seq<char>) -> Seq<char>
    decreases s.len(),
{
    if s.len() == 0 {
        Seq::empty()
    } else {
        spec_json_escaped(s.drop_last()) + spec_escape_char(s.last())
    }
}

/// A JSON string literal: the escaped characters between double quotes.
pub open spec fn spec_json_str(s: Seq<char>) -> Seq<char> {
    seq!['"'] + spec_json_escaped(s) + seq!['"']
}

/// Append one escaped character to `out`.
fn append_escaped_char(out: &mut String, c: char)
    ensures
        final(out)@ == old(out)@ + spec_escape_char(c),
{
    if c == '"' {
        out.push('\\');
        out.push('"');
        assert(out@ =~= old(out)@ + spec_escape_char(c));
    } else if c == '\\' {
        out.push('\\');
        out.push('\\');
        assert(out@ =~= old(out)@ + spec_escape_char(c));
    } else if c == '\n' {
        out.push('\\');
        out.push('n');
        assert(out@ =~= old(out)@ + spec_escape_char(c));
    } else if c == '\r' {
        out.push('\\');
        out.push('r');
        assert(out@ =~= old(out)@ + spec_escape_char(c));
    } else if c == '\t' {
        out.push('\\');
        out.push('t');
        assert(out@ =~= old(out)@ + spec_escape_char(c));
    } else if (c as u32) < 32 {
        let code = c as u32;
        let hi = (code / 16) as u8;
        let lo = (code % 16) as u8;
        let hic = (48u8 + hi) as char;
        let loc = if lo < 10 {
            (48u8 + lo) as char
        } else {
            (97u8 + (lo - 10)) as char
        };
        assert(hic == spec_hex_char(c as int / 16));
        assert(loc == spec_hex_char(c as int % 16));
        out.push('\\');
        out.push('u');
        out.push('0');
        out.push('0');
        out.push(hic);
        out.push(loc);
        assert(out@ =~= old(out)@ + spec_escape_char(c));
    } else {
        out.push(c);
        assert(out@ =~= old(out)@ + spec_escape_char(c));
    }
}

/// The comma-separated JSON string literals of a list of values.
pub open spec fn spec_json_str_items(vals: Seq<String>) -> Seq<char>
    decreases vals.len(),
{
    if vals.len() == 0 {
        Seq::empty()
    } else if vals.len() == 1 {
        spec_json_str(vals[0]@)
    } else {
        spec_json_str_items(vals.drop_last()) + seq![','] + spec_json_str(vals.last()@)
    }
}

/// A JSON array of string literals.
pub open spec fn spec_json_str_array(vals: Seq<String>) -> Seq<char> {
    seq!['['] + spec_json_str_items(vals) + seq![']']
}

/// Append the JSON array of string literals for `vals` to `out`.
pub fn append_json_str_array(out: &mut String, vals: &Vec<String>)
    ensures
        final(out)@ == old(out)@ + spec_json_str_array(vals@),
{
    let ghost start = out@;
    out.push('[');
    let mut i: usize = 0;
    while i < vals.len()
        invariant
            i <= vals@.len(),
            out@ == start + seq!['['] + spec_json_str_items(vals@.take(i as int)),
        decreases vals@.len() - i,
    {
        if i > 0 {
            out.push(',');
        }
        append_json_str(out, vals[i].as_str());
        assert(vals@.take(i + 1).drop_last() =~= vals@.take(i as int));
        assert(vals@.take(i + 1).last() == vals@[i as int]);
        assert(out@ =~= start + seq!['['] + spec_json_str_items(vals@.take(i + 1)));
        i += 1;
    }
    out.push(']');
    assert(vals@.take(vals@.len() as int) =~= vals@);
    assert(out@ =~= start + spec_json_str_array(vals@));
}

/// Append the JSON string literal for `s` (quotes included) to `out`.
pub fn append_json_str(out: &mut String, s: &str)
    ensures
        final(out)@ == old(out)@ + spec_json_str(s@),
{
    let ghost start = out@;
    out.push('"');
    let n = s.unicode_len();
    let mut i: usize = 0;
    while i < n
        invariant
            n == s@.len(),
            i <= n,
            out@ == start + seq!['"'] + spec_json_escaped(s@.take(i as int)),
        decreases n - i,
    {
        let c = s.get_char(i);
        append_escaped_char(out, c);
        assert(s@.take(i + 1).drop_last() =~= s@.take(i as int));
        assert(s@.take(i + 1).last() == s@[i as int]);
        i += 1;
    }
    out.push('"');
    assert(s@.take(n as int) =~= s@);
    assert(out@ =~= start + spec_json_str(s@));
}

} // verus!
