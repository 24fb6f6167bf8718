//! Startup configuration: the listening port.
//!
//! The port comes from a single optional environment-provided string.
//! An absent value falls back to the fixed default; a present value
//! must be a whole decimal port number, and anything else is a fatal
//! startup error for the caller to surface.

use vstd::prelude::*;

verus! {

/// The port the proxy listens on when none is configured.
pub const DEFAULT_PORT: u16 = 8080;

/// Whether `c` is a decimal digit.
pub open spec fn spec_is_digit(c: char) -> bool {
    '0' <= c && c <= '9'
}

/// Numeric value of a decimal digit.
pub open spec fn spec_digit_value(c: char) -> int {
    c as int - '0' as int
}

/// Value of a digit string read as a whole decimal numeral.
pub open spec fn spec_decimal_value(s: Seq<char>) -> int
    decreases s.len(),
{
    if s.len() == 0 {
        0
    } else {
        spec_decimal_value(s.drop_last()) * 10 + spec_digit_value(s.last())
    }
}

/// Whether `s` spells a port: non-empty, all decimal digits, and small
/// enough for a port number.
pub open spec fn spec_is_port(s: Seq<char>) -> bool {
    &&& s.len() > 0
    &&& forall|i: int| 0 <= i < s.len() ==> spec_is_digit(s[i])
    &&& spec_decimal_value(s) <= u16::MAX
}

/// A whole decimal numeral never shrinks when a digit is appended.
proof fn lemma_decimal_value_monotone(s: Seq<char>, n: int)
    requires
        forall|i: int| 0 <= i < s.len() ==> spec_is_digit(s[i]),
        0 <= n <= s.len(),
    ensures
        0 <= spec_decimal_value(s.take(n)) <= spec_decimal_value(s),
    decreases s.len() - n,
{
    if n == s.len() {
        assert(s.take(n) =~= s);
        lemma_decimal_value_nonneg(s);
    } else {
        lemma_decimal_value_monotone(s, n + 1);
        assert(s.take(n + 1).drop_last() =~= s.take(n));
        lemma_decimal_value_nonneg(s.take(n));
    }
}

/// A digit string's value is never negative.
proof fn lemma_decimal_value_nonneg(s: Seq<char>)
    requires
        forall|i: int| 0 <= i < s.len() ==> spec_is_digit(s[i]),
    ensures
        spec_decimal_value(s) >= 0,
    decreases s.len(),
{
    if s.len() > 0 {
        lemma_decimal_value_nonneg(s.drop_last());
    }
}

/// Parse a decimal port number: `Some` exactly on strings that spell a
/// port, and then the spelled value.
pub fn parse_port(s: &str) -> (r: Option<u16>)
    ensures
        r matches Some(p) ==> spec_is_port(s@) && p == spec_decimal_value(s@),
        r is None ==> !spec_is_port(s@),
{
    let n = s.unicode_len();
    if n == 0 {
        return None;
    }
    let mut value: u32 = 0;
    let mut i: usize = 0;
    proof {
        assert(s@.take(0) =~= Seq::<char>::empty());
    }
    while i < n
        invariant
            n == s@.len(),
            i <= n,
            forall|j: int| 0 <= j < i ==> spec_is_digit(s@[j]),
            value <= u16::MAX,
            value == spec_decimal_value(s@.take(i as int)),
        decreases n - i,
    {
        let c = s.get_char(i);
        if c < '0' || c > '9' {
            return None;
        }
        let d: u32 = (c as u32) - ('0' as u32);
        proof {
            assert(s@.take(i as int + 1).drop_last() =~= s@.take(i as int));
            assert(s@.take(i as int + 1).last() == s@[i as int]);
        }
        value = value * 10 + d;
        if value > 65535 {
            proof {
                if spec_is_port(s@) {
                    lemma_decimal_value_monotone(s@, i as int + 1);
                }
            }
            return None;
        }
        i = i + 1;
    }
    proof {
        assert(s@.take(n as int) =~= s@);
    }
    Some(value as u16)
}

/// The port the process starts with: the default when nothing is
/// configured, the spelled value of a well-formed configured string,
/// and `None` — a fatal startup error — on a malformed one.
pub fn startup_port(configured: Option<&str>) -> (r: Option<u16>)
    ensures
        match configured {
            None => r == Some(DEFAULT_PORT),
            Some(s) => r == (if spec_is_port(s@) {
                Some(spec_decimal_value(s@) as u16)
            } else {
                None::<u16>
            }),
        },
{
    match configured {
        None => Some(DEFAULT_PORT),
        Some(s) => parse_port(s),
    }
}

} // verus!
