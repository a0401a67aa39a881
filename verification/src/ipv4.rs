//! A plain-value model of an IPv4 address, so that A-record helpers can be
//! stated and verified over it. Formatting is exact, and parsing accepts
//! exactly the canonical dotted-decimal texts (no leading zeros): an
//! accepted string is the canonical text of the returned address, and the
//! canonical text of any address is accepted.

use vstd::prelude::*;
use vstd::string::StrSliceExecFns;
use vstd::string::StringExecFns;

use crate::errors::Error;
use crate::text::spec_dec_digits;
use crate::text::spec_all_digits;
use crate::text::spec_dec_value;
use crate::text::append_u64;
use crate::text::parse_u64;
use crate::text::lemma_dec_digits_value;

verus! {

/// An IPv4 address, one field per octet.
#[derive(Clone, Copy, Debug, PartialEq, Eq, Structural)]
pub struct Ipv4Addr {
    pub a: u8,
    pub b: u8,
    pub c: u8,
    pub d: u8,
}

/// The canonical dotted-decimal text of an address.
pub open spec fn spec_ipv4_text(ip: Ipv4Addr) -> Seq<char> {
    spec_dec_digits(ip.a as int) + seq!['.'] + spec_dec_digits(ip.b as int) + seq!['.']
        + spec_dec_digits(ip.c as int) + seq!['.'] + spec_dec_digits(ip.d as int)
}

/// Whether `s` holds no dot.
pub open spec fn spec_dot_free(s: Seq<char>) -> bool {
    forall|i: int| 0 <= i < s.len() ==> #[trigger] s[i] != '.'
}

impl Ipv4Addr {
    /// Build an address from its four octets.
    pub fn new(a: u8, b: u8, c: u8, d: u8) -> (r: Ipv4Addr)
        ensures
            r == (Ipv4Addr { a, b, c, d }),
    {
        Ipv4Addr { a, b, c, d }
    }

    /// The canonical dotted-decimal text of this address.
    pub fn to_text(&self) -> (r: String)
        ensures
            r@ == spec_ipv4_text(*self),
    {
        let mut out = String::new();
        append_u64(&mut out, self.a as u64);
        out.push('.');
        append_u64(&mut out, self.b as u64);
        out.push('.');
        append_u64(&mut out, self.c as u64);
        out.push('.');
        append_u64(&mut out, self.d as u64);
        assert(out@ =~= spec_ipv4_text(*self));
        out
    }

    /// Parse dotted-decimal text: exactly the canonical texts are
    /// accepted, so an accepted string is the canonical text of the
    /// returned address, the canonical text of any address parses back to
    /// it, and anything else is an address-parse error.
    pub fn parse(s: &str) -> (r: Result<Ipv4Addr, Error>)
        ensures
            r matches Ok(ip) ==> s@ == spec_ipv4_text(ip),
            r matches Err(e) ==> e is AddrParseError,
            forall|ip: Ipv4Addr| s@ == spec_ipv4_text(ip) ==> r == Ok::<Ipv4Addr, Error>(ip),
    {
        let (s1, rest1) = match split_first_dot(s) {
            Some(parts) => parts,
            None => {
                proof {
                    assert forall|ip: Ipv4Addr| s@ != spec_ipv4_text(ip) by {
                        if s@ == spec_ipv4_text(ip) {
                            lemma_canonical_parts(s@, ip);
                        }
                    }
                }
                return Err(Error::AddrParseError("expected four segments".to_owned()));
            },
        };
        proof {
            assert forall|ip: Ipv4Addr| s@ == spec_ipv4_text(ip) implies s1@ == spec_dec_digits(
                ip.a as int,
            ) && rest1@ == spec_tail3(ip) by {
                lemma_canonical_parts(s@, ip);
                lemma_split_unique(
                    s@,
                    s1@,
                    rest1@,
                    spec_dec_digits(ip.a as int),
                    spec_tail3(ip),
                );
            }
        }
        let (s2, rest2) = match split_first_dot(rest1.as_str()) {
            Some(parts) => parts,
            None => {
                proof {
                    assert forall|ip: Ipv4Addr| s@ != spec_ipv4_text(ip) by {
                        if s@ == spec_ipv4_text(ip) {
                            lemma_canonical_parts(s@, ip);
                            assert(rest1@ == spec_tail3(ip));
                            assert(rest1@[spec_dec_digits(ip.b as int).len() as int] == '.');
                        }
                    }
                }
                return Err(Error::AddrParseError("expected four segments".to_owned()));
            },
        };
        proof {
            assert forall|ip: Ipv4Addr| s@ == spec_ipv4_text(ip) implies s2@ == spec_dec_digits(
                ip.b as int,
            ) && rest2@ == spec_tail2(ip) by {
                lemma_canonical_parts(s@, ip);
                lemma_split_unique(
                    rest1@,
                    s2@,
                    rest2@,
                    spec_dec_digits(ip.b as int),
                    spec_tail2(ip),
                );
            }
        }
        let (s3, s4) = match split_first_dot(rest2.as_str()) {
            Some(parts) => parts,
            None => {
                proof {
                    assert forall|ip: Ipv4Addr| s@ != spec_ipv4_text(ip) by {
                        if s@ == spec_ipv4_text(ip) {
                            lemma_canonical_parts(s@, ip);
                            assert(rest2@ == spec_tail2(ip));
                            assert(rest2@[spec_dec_digits(ip.c as int).len() as int] == '.');
                        }
                    }
                }
                return Err(Error::AddrParseError("expected four segments".to_owned()));
            },
        };
        proof {
            assert forall|ip: Ipv4Addr| s@ == spec_ipv4_text(ip) implies s3@ == spec_dec_digits(
                ip.c as int,
            ) && s4@ == spec_dec_digits(ip.d as int) by {
                lemma_canonical_parts(s@, ip);
                lemma_split_unique(
                    rest2@,
                    s3@,
                    s4@,
                    spec_dec_digits(ip.c as int),
                    spec_dec_digits(ip.d as int),
                );
            }
        }
        let a = match parse_octet(s1.as_str()) {
            Some(v) => v,
            None => {
                return Err(Error::AddrParseError("bad octet".to_owned()));
            },
        };
        let b = match parse_octet(s2.as_str()) {
            Some(v) => v,
            None => {
                return Err(Error::AddrParseError("bad octet".to_owned()));
            },
        };
        let c = match parse_octet(s3.as_str()) {
            Some(v) => v,
            None => {
                return Err(Error::AddrParseError("bad octet".to_owned()));
            },
        };
        let d = match parse_octet(s4.as_str()) {
            Some(v) => v,
            None => {
                return Err(Error::AddrParseError("bad octet".to_owned()));
            },
        };
        let ip = Ipv4Addr { a, b, c, d };
        proof {
            assert(s@ =~= spec_ipv4_text(ip));
        }
        Ok(ip)
    }
}

/// The canonical text of an address after its first segment and dot.
pub open spec fn spec_tail3(ip: Ipv4Addr) -> Seq<char> {
    spec_dec_digits(ip.b as int) + seq!['.'] + spec_dec_digits(ip.c as int) + seq!['.']
        + spec_dec_digits(ip.d as int)
}

/// The canonical text of an address after its second segment and dot.
pub open spec fn spec_tail2(ip: Ipv4Addr) -> Seq<char> {
    spec_dec_digits(ip.c as int) + seq!['.'] + spec_dec_digits(ip.d as int)
}

/// Split a string at its first dot: the dot-free head and the rest, or
/// nothing when the string holds no dot.
fn split_first_dot(s: &str) -> (r: Option<(String, String)>)
    ensures
        match r {
            Some(parts) => s@ == parts.0@ + seq!['.'] + parts.1@ && spec_dot_free(parts.0@),
            None => spec_dot_free(s@),
        },
{
    let n = s.unicode_len();
    let mut i: usize = 0;
    while i < n
        invariant
            n == s@.len(),
            i <= n,
            forall|j: int| 0 <= j < i ==> #[trigger] s@[j] != '.',
        decreases n - i,
    {
        if s.get_char(i) == '.' {
            let head = s.substring_char(0, i).to_owned();
            let tail = s.substring_char(i + 1, n).to_owned();
            proof {
                assert(s@ =~= head@ + seq!['.'] + tail@);
            }
            return Some((head, tail));
        }
        i += 1;
    }
    None
}

/// A split at a dot-free head is unique: two decompositions of the same
/// string into a dot-free head, a dot and a tail agree.
proof fn lemma_split_unique(
    s: Seq<char>,
    head: Seq<char>,
    tail: Seq<char>,
    head2: Seq<char>,
    tail2: Seq<char>,
)
    requires
        s == head + seq!['.'] + tail,
        s == head2 + seq!['.'] + tail2,
        spec_dot_free(head),
        spec_dot_free(head2),
    ensures
        head == head2,
        tail == tail2,
{
    let hl = head.len() as int;
    let hl2 = head2.len() as int;
    if hl < hl2 {
        assert(s[hl] == '.');
        assert(s[hl] == head2[hl]);
        assert(false);
    }
    if hl2 < hl {
        assert(s[hl2] == '.');
        assert(s[hl2] == head[hl2]);
        assert(false);
    }
    assert forall|i: int| 0 <= i < hl implies head[i] == head2[i] by {
        assert((head + seq!['.'] + tail)[i] == head[i]);
        assert((head2 + seq!['.'] + tail2)[i] == head2[i]);
    }
    assert(head =~= head2);
    assert((head + seq!['.'] + tail).len() == hl + 1 + tail.len());
    assert((head2 + seq!['.'] + tail2).len() == hl2 + 1 + tail2.len());
    assert(tail.len() == tail2.len());
    assert forall|i: int| 0 <= i < tail.len() implies tail[i] == tail2[i] by {
        assert((head + seq!['.'] + tail)[hl + 1 + i] == tail[i]);
        assert((head2 + seq!['.'] + tail2)[hl + 1 + i] == tail2[i]);
    }
    assert(tail =~= tail2);
}

/// Where the separators of a canonical address text stand, and that its
/// segments are dot-free digit runs.
proof fn lemma_canonical_parts(s: Seq<char>, ip: Ipv4Addr)
    requires
        s == spec_ipv4_text(ip),
    ensures
        s == spec_dec_digits(ip.a as int) + seq!['.'] + spec_tail3(ip),
        spec_tail3(ip) == spec_dec_digits(ip.b as int) + seq!['.'] + spec_tail2(ip),
        spec_tail2(ip) == spec_dec_digits(ip.c as int) + seq!['.'] + spec_dec_digits(
            ip.d as int,
        ),
        spec_dot_free(spec_dec_digits(ip.a as int)),
        spec_dot_free(spec_dec_digits(ip.b as int)),
        spec_dot_free(spec_dec_digits(ip.c as int)),
        spec_dot_free(spec_dec_digits(ip.d as int)),
        s[spec_dec_digits(ip.a as int).len() as int] == '.',
        spec_tail3(ip)[spec_dec_digits(ip.b as int).len() as int] == '.',
        spec_tail2(ip)[spec_dec_digits(ip.c as int).len() as int] == '.',
{
    lemma_dec_digits_value(ip.a as int);
    lemma_dec_digits_value(ip.b as int);
    lemma_dec_digits_value(ip.c as int);
    lemma_dec_digits_value(ip.d as int);
    lemma_digits_dot_free(spec_dec_digits(ip.a as int));
    lemma_digits_dot_free(spec_dec_digits(ip.b as int));
    lemma_digits_dot_free(spec_dec_digits(ip.c as int));
    lemma_digits_dot_free(spec_dec_digits(ip.d as int));
    assert(s =~= spec_dec_digits(ip.a as int) + seq!['.'] + spec_tail3(ip));
    assert(spec_tail3(ip) =~= spec_dec_digits(ip.b as int) + seq!['.'] + spec_tail2(ip));
}

/// A run of digits holds no dot.
proof fn lemma_digits_dot_free(s: Seq<char>)
    requires
        spec_all_digits(s),
    ensures
        spec_dot_free(s),
{
    assert forall|i: int| 0 <= i < s.len() implies #[trigger] s[i] != '.' by {
        assert('0' <= s[i] <= '9');
    }
}

/// Parse one octet: exactly the canonical decimal texts of values up to
/// 255 (all digits, no leading zero) are accepted, and each parses to its
/// value.
fn parse_octet(s: &str) -> (r: Option<u8>)
    ensures
        r matches Some(v) ==> s@ == spec_dec_digits(v as int),
        forall|v: u8| s@ == spec_dec_digits(v as int) ==> r == Some(v),
{
    let n = s.unicode_len();
    if n == 0 || n > 3 {
        proof {
            assert forall|v: u8| s@ != spec_dec_digits(v as int) by {
                if s@ == spec_dec_digits(v as int) {
                    lemma_dec_digits_len_u8(v as int);
                }
            }
        }
        return None;
    }
    if n > 1 && s.get_char(0) == '0' {
        proof {
            assert forall|v: u8| s@ != spec_dec_digits(v as int) by {
                if s@ == spec_dec_digits(v as int) {
                    if v >= 10 {
                        lemma_dec_digits_leading(v as int);
                    }
                }
            }
        }
        return None;
    }
    match parse_u64(s) {
        Some(v) if v <= 255 => {
            proof {
                lemma_canonical_digits(s@);
                assert forall|w: u8| s@ == spec_dec_digits(w as int) implies v == w by {
                    lemma_dec_digits_value(w as int);
                }
            }
            Some(v as u8)
        },
        Some(v) => {
            proof {
                assert forall|w: u8| s@ != spec_dec_digits(w as int) by {
                    if s@ == spec_dec_digits(w as int) {
                        lemma_dec_digits_value(w as int);
                        assert(v == w as u64);
                    }
                }
            }
            None
        },
        None => {
            proof {
                assert forall|w: u8| s@ != spec_dec_digits(w as int) by {
                    if s@ == spec_dec_digits(w as int) {
                        lemma_dec_digits_value(w as int);
                    }
                }
            }
            None
        },
    }
}

/// The decimal text of a value below a thousand has at most three digits.
proof fn lemma_dec_digits_len_u8(n: int)
    requires
        0 <= n < 1000,
    ensures
        1 <= spec_dec_digits(n).len() <= 3,
{
    if n >= 10 {
        let m = n / 10;
        if n >= 100 {
            assert(10 <= m && m < 100);
            assert(spec_dec_digits(m) == spec_dec_digits(m / 10) + seq![
                crate::text::spec_digit_char(m % 10),
            ]);
            assert(m / 10 < 10);
            assert(spec_dec_digits(m / 10).len() == 1);
            assert(spec_dec_digits(m).len() == 2);
        } else {
            assert(m < 10);
            assert(spec_dec_digits(m).len() == 1);
        }
        assert(spec_dec_digits(n) == spec_dec_digits(m) + seq![
            crate::text::spec_digit_char(n % 10),
        ]);
    }
}

/// The decimal text of a value of ten or more does not start with a zero.
proof fn lemma_dec_digits_leading(n: int)
    requires
        n >= 10,
    ensures
        spec_dec_digits(n).len() >= 2,
        spec_dec_digits(n)[0] != '0',
    decreases n,
{
    let t = spec_dec_digits(n / 10);
    assert(t.len() >= 1);
    assert(spec_dec_digits(n)[0] == t[0]);
    if n / 10 >= 10 {
        lemma_dec_digits_leading(n / 10);
    } else {
        assert(n / 10 >= 1);
        assert(t == seq![crate::text::spec_digit_char(n / 10)]);
    }
}

/// A non-empty digit string without a leading zero is the canonical decimal
/// text of its value.
proof fn lemma_canonical_digits(s: Seq<char>)
    requires
        s.len() > 0,
        spec_all_digits(s),
        s.len() > 1 ==> s[0] != '0',
    ensures
        s == spec_dec_digits(spec_dec_value(s)),
    decreases s.len(),
{
    if s.len() == 1 {
        assert(spec_dec_value(s.drop_last()) == 0) by {
            assert(s.drop_last().len() == 0);
        }
        assert(spec_dec_value(s) == s[0] as int - '0' as int);
        assert(spec_dec_digits(spec_dec_value(s)) =~= s);
    } else {
        let t = s.drop_last();
        assert(spec_all_digits(t)) by {
            assert(forall|i: int| 0 <= i < t.len() ==> t[i] == s[i]);
        }
        assert(t[0] == s[0]);
        lemma_canonical_digits(t);
        lemma_leading_digit_value(t);
        let v = spec_dec_value(s);
        let tv = spec_dec_value(t);
        assert(v == tv * 10 + (s.last() as int - '0' as int));
        assert(tv >= 1);
        assert(v >= 10);
        assert(v / 10 == tv);
        assert(v % 10 == s.last() as int - '0' as int);
        assert(spec_dec_digits(v) == spec_dec_digits(tv) + seq![
            crate::text::spec_digit_char(v % 10),
        ]);
        assert(spec_dec_digits(v) =~= s);
    }
}

/// A non-empty digit string whose first digit is not zero has value at
/// least one.
proof fn lemma_leading_digit_value(s: Seq<char>)
    requires
        s.len() > 0,
        spec_all_digits(s),
        s[0] != '0',
    ensures
        spec_dec_value(s) >= 1,
    decreases s.len(),
{
    if s.len() == 1 {
        assert(spec_dec_value(s.drop_last()) == 0) by {
            assert(s.drop_last().len() == 0);
        }
    } else {
        let t = s.drop_last();
        assert(t[0] == s[0]);
        assert(spec_all_digits(t)) by {
            assert(forall|i: int| 0 <= i < t.len() ==> t[i] == s[i]);
        }
        lemma_leading_digit_value(t);
        assert(s.last() as int - '0' as int >= 0);
    }
}

} // verus!
