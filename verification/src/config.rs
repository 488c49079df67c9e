//! Port resolution from an optional environment value.
//!
//! The listener port comes from an optional `PORT` value: absent means the
//! default, a string that parses as a 16-bit unsigned integer means that
//! port, and anything else is a startup-fatal error. Parsing follows the
//! standard unsigned integer grammar: an optional leading `+`, then at least
//! one decimal digit, with the value at most 65535; leading zeros are
//! allowed.

use vstd::prelude::*;
use vstd::string::*;

verus! {

/// The port used when no environment value is present.
pub const DEFAULT_PORT: u16 = 8090;

/// The startup-fatal configuration errors.
#[derive(Clone, Copy, Debug, PartialEq, Eq, Structural)]
pub enum ConfigError {
    InvalidPort,
}

/// Whether a character is a decimal digit.
pub open spec fn spec_is_digit(c: char) -> bool {
    48 <= c as u32 <= 57
}

/// The value of a decimal digit.
pub open spec fn digit_val(c: char) -> int {
    c as u32 - 48
}

/// The digit part of a port string: everything after an optional leading `+`.
pub open spec fn digits_part(s: Seq<char>) -> Seq<char> {
    if s.len() > 0 && s[0] == '+' {
        s.drop_first()
    } else {
        s
    }
}

/// Whether every character of `s` is a decimal digit.
pub open spec fn all_digits(s: Seq<char>) -> bool {
    forall|i: int| 0 <= i < s.len() ==> spec_is_digit(#[trigger] s[i])
}

/// The value of a sequence of decimal digits.
pub open spec fn dec_value(s: Seq<char>) -> int
    decreases s.len(),
{
    if s.len() == 0 {
        0
    } else {
        dec_value(s.drop_last()) * 10 + digit_val(s.last())
    }
}

/// Whether `s` parses as a 16-bit unsigned port number.
pub open spec fn valid_port_str(s: Seq<char>) -> bool {
    &&& digits_part(s).len() > 0
    &&& all_digits(digits_part(s))
    &&& dec_value(digits_part(s)) <= 65535
}

/// The port a valid port string denotes.
pub open spec fn port_value(s: Seq<char>) -> int {
    dec_value(digits_part(s))
}

/// The value of a digit sequence is never negative.
proof fn lemma_dec_value_nonneg(s: Seq<char>)
    requires
        all_digits(s),
    ensures
        dec_value(s) >= 0,
    decreases s.len(),
{
    if s.len() > 0 {
        assert(all_digits(s.drop_last()));
        lemma_dec_value_nonneg(s.drop_last());
    }
}

/// Parses a port string: `Some` exactly when the string is an optional `+`
/// followed by at least one decimal digit denoting a value at most 65535,
/// and then the denoted value.
pub fn parse_port(s: &str) -> (r: Option<u16>)
    ensures
        r is Some <==> valid_port_str(s@),
        r matches Some(p) ==> p as int == port_value(s@),
{
    let n = s.unicode_len();
    if n == 0 {
        return None;
    }
    let first = s.get_char(0);
    let start: usize = if first == '+' {
        1
    } else {
        0
    };
    proof {
        if start == 1 {
            assert(digits_part(s@) =~= s@.subrange(1, n as int));
        } else {
            assert(digits_part(s@) =~= s@.subrange(0, n as int));
        }
    }
    if start == n {
        return None;
    }
    let ghost digits = s@.subrange(start as int, n as int);
    let mut i: usize = start;
    let mut value: u32 = 0;
    while i < n
        invariant
            n == s@.len(),
            start <= i <= n,
            digits == s@.subrange(start as int, n as int),
            digits == digits_part(s@),
            all_digits(s@.subrange(start as int, i as int)),
            value <= 100000,
            value < 100000 ==> value as int == dec_value(s@.subrange(start as int, i as int)),
            value == 100000 ==> dec_value(s@.subrange(start as int, i as int)) >= 100000,
        decreases n - i,
    {
        let c = s.get_char(i);
        let code = c as u32;
        if !(48 <= code && code <= 57) {
            proof {
                assert(digits[i - start] == s@[i as int]);
                assert(!spec_is_digit(digits[i - start]));
            }
            return None;
        }
        let d: u32 = code - 48;
        let ghost prefix = s@.subrange(start as int, i as int);
        let ghost prefix_next = s@.subrange(start as int, i + 1);
        proof {
            assert(prefix_next.drop_last() =~= prefix);
            assert(prefix_next.last() == c);
            assert(dec_value(prefix_next) == dec_value(prefix) * 10 + d);
            lemma_dec_value_nonneg(prefix);
        }
        let grown: u32 = value * 10 + d;
        value = if grown > 100000 {
            100000u32
        } else {
            grown
        };
        i = i + 1;
    }
    proof {
        assert(s@.subrange(start as int, n as int) =~= digits);
    }
    if value > 65535 {
        None
    } else {
        Some(value as u16)
    }
}

/// Resolves the listener port from the optional environment value: absent
/// means the default port, a valid port string means its value, and anything
/// else is the startup-fatal invalid-port error.
pub fn resolve_port(env_port: Option<&str>) -> (r: Result<u16, ConfigError>)
    ensures
        env_port is None ==> r == Ok::<u16, ConfigError>(DEFAULT_PORT),
        env_port matches Some(s) ==> ((r is Ok) <==> valid_port_str(s@)),
        env_port matches Some(s) ==> (valid_port_str(s@) ==> (r matches Ok(p) && p as int
            == port_value(s@))),
        env_port matches Some(s) ==> (!valid_port_str(s@) ==> r == Err::<u16, ConfigError>(
            ConfigError::InvalidPort,
        )),
{
    match env_port {
        None => Ok(DEFAULT_PORT),
        Some(s) => match parse_port(s) {
            Some(p) => Ok(p),
            None => Err(ConfigError::InvalidPort),
        },
    }
}

} // verus!
