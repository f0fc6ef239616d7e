//! Resolving the listening port from a configuration value.
//!
//! The port value is a decimal string, optionally with a leading plus sign,
//! that fits in sixteen bits. A missing or unparsable value falls back to
//! the default port.

use vstd::prelude::*;
use vstd::string::StrSliceExecFns;

verus! {

/// The port used when the configured value is absent or unparsable.
pub const DEFAULT_PORT: u16 = 8080;

/// A decimal digit.
pub open spec fn spec_is_digit(c: char) -> bool {
    48 <= c as u32 <= 57
}

/// The value of a decimal digit.
pub open spec fn spec_digit_value(c: char) -> int {
    c as u32 - 48
}

/// The number a sequence of decimal digits denotes.
pub open spec fn spec_decimal_value(s: Seq<char>) -> int
    decreases s.len(),
{
    if s.len() == 0 {
        0
    } else {
        spec_decimal_value(s.drop_last()) * 10 + spec_digit_value(s.last())
    }
}

/// Every character is a decimal digit.
pub open spec fn spec_all_digits(s: Seq<char>) -> bool {
    forall|i: int| 0 <= i < s.len() ==> spec_is_digit(#[trigger] s[i])
}

/// The digits of a port value: the whole string, or what follows a leading
/// plus sign.
pub open spec fn spec_port_digits(s: Seq<char>) -> Seq<char> {
    if s.len() > 0 && s[0] == '+' {
        s.drop_first()
    } else {
        s
    }
}

/// A string parses as a port exactly when its digits are non-empty, all
/// decimal, and denote a number that fits in sixteen bits.
pub open spec fn spec_parses_as_u16(s: Seq<char>) -> bool {
    let d = spec_port_digits(s);
    &&& d.len() > 0
    &&& spec_all_digits(d)
    &&& spec_decimal_value(d) <= 65535
}

/// A sequence of digits denotes a non-negative number.
proof fn lemma_decimal_value_nonneg(s: Seq<char>)
    requires
        spec_all_digits(s),
    ensures
        spec_decimal_value(s) >= 0,
    decreases s.len(),
{
    if s.len() > 0 {
        assert(spec_all_digits(s.drop_last()));
        lemma_decimal_value_nonneg(s.drop_last());
    }
}

/// Extending a sequence of digits never decreases the number it denotes.
proof fn lemma_decimal_prefix_le(s: Seq<char>, j: int)
    requires
        spec_all_digits(s),
        0 <= j <= s.len(),
    ensures
        spec_decimal_value(s.take(j)) <= spec_decimal_value(s),
    decreases s.len() - j,
{
    if j < s.len() {
        assert(s.take(j + 1).drop_last() =~= s.take(j));
        assert(s.take(j + 1).last() == s[j]);
        assert(spec_all_digits(s.take(j)));
        lemma_decimal_value_nonneg(s.take(j));
        lemma_decimal_prefix_le(s, j + 1);
    } else {
        assert(s.take(j) =~= s);
    }
}

/// Parses a decimal port number, accepting an optional leading plus sign.
/// Succeeds exactly on the strings that denote a number fitting in sixteen
/// bits, and returns that number.
pub fn parse_u16(s: &str) -> (r: Option<u16>)
    ensures
        match r {
            Some(v) => spec_parses_as_u16(s@) && v == spec_decimal_value(spec_port_digits(s@)),
            None => !spec_parses_as_u16(s@),
        },
{
    let ghost d: Seq<char> = spec_port_digits(s@);
    let n = s.unicode_len();
    if n == 0 {
        return None;
    }
    let start: usize = if s.get_char(0) == '+' {
        1
    } else {
        0
    };
    proof {
        assert(d.len() == n - start);
        assert(forall|i: int| 0 <= i < d.len() ==> d[i] == s@[i + start]);
    }
    if start == n {
        return None;
    }
    let mut value: u32 = 0;
    let mut i: usize = start;
    while i < n
        invariant
            start <= i <= n == s@.len(),
            d == spec_port_digits(s@),
            d.len() == n - start,
            forall|k: int| 0 <= k < d.len() ==> d[k] == s@[k + start],
            spec_all_digits(d.take(i - start)),
            value == spec_decimal_value(d.take(i - start)),
            value <= 65535,
        decreases n - i,
    {
        let c = s.get_char(i);
        let cv = c as u32;
        if cv < 48 || cv > 57 {
            proof {
                assert(d[i - start] == c);
                assert(!spec_is_digit(c));
            }
            return None;
        }
        let digit = cv - 48;
        let next = value * 10 + digit;
        proof {
            assert(d.take(i - start + 1).drop_last() =~= d.take(i - start));
            assert(d.take(i - start + 1).last() == d[i - start]);
            assert(spec_decimal_value(d.take(i - start + 1)) == next);
        }
        if next > 65535 {
            proof {
                if spec_all_digits(d) {
                    lemma_decimal_prefix_le(d, i - start + 1);
                }
            }
            return None;
        }
        value = next;
        i += 1;
    }
    proof {
        assert(d.take(n - start) =~= d);
    }
    Some(value as u16)
}

/// The listening port for a configured value: the number the value denotes,
/// or the default port when the value is absent or does not parse.
pub fn resolve_port(value: Option<&str>) -> (r: u16)
    ensures
        match value {
            Some(s) => {
                if spec_parses_as_u16(s@) {
                    r == spec_decimal_value(spec_port_digits(s@))
                } else {
                    r == DEFAULT_PORT
                }
            },
            None => r == DEFAULT_PORT,
        },
{
    match value {
        Some(s) => match parse_u16(s) {
            Some(port) => port,
            None => DEFAULT_PORT,
        },
        None => DEFAULT_PORT,
    }
}

} // verus!
