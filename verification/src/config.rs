//! Startup configuration: parsing the configured listen port. A value that is
//! not a decimal number fitting a 16-bit integer is refused with a clear,
//! recoverable error instead of a crash.

use vstd::prelude::*;

verus! {

/// Why the configuration was refused.
#[derive(Clone, Copy, Debug, PartialEq, Eq, Structural)]
pub enum ConfigError {
    InvalidPort,
}

impl ConfigError {
    /// A human-readable account of the refusal, for the startup report.
    pub fn message(&self) -> (m: &'static str)
        ensures
            m@ == "invalid listen port: expected a decimal integer between 0 and 65535"@,
    {
        "invalid listen port: expected a decimal integer between 0 and 65535"
    }
}

/// Every character of the sequence is a decimal digit.
pub open spec fn all_digits(s: Seq<char>) -> bool {
    forall|i: int| 0 <= i < s.len() ==> crate::timefmt::is_digit(s[i])
}

/// The value of a sequence of decimal digits, most significant first.
pub open spec fn decimal_value(s: Seq<char>) -> int
    decreases s.len(),
{
    if s.len() == 0 {
        0
    } else {
        decimal_value(s.drop_last()) * 10 + crate::timefmt::digit_val(s.last())
    }
}

/// The value of a digit string is never negative.
proof fn lemma_decimal_value_nonneg(s: Seq<char>)
    requires
        all_digits(s),
    ensures
        decimal_value(s) >= 0,
    decreases s.len(),
{
    if s.len() > 0 {
        assert(all_digits(s.drop_last()));
        lemma_decimal_value_nonneg(s.drop_last());
    }
}

/// Extending a digit string never shrinks its value: the value of the whole
/// is at least the value of any prefix.
proof fn lemma_decimal_value_prefix(s: Seq<char>, i: int)
    requires
        all_digits(s),
        0 <= i <= s.len(),
    ensures
        decimal_value(s) >= decimal_value(s.take(i)),
    decreases s.len() - i,
{
    if i == s.len() {
        assert(s.take(i) =~= s);
    } else {
        lemma_decimal_value_prefix(s, i + 1);
        assert(s.take(i + 1).drop_last() =~= s.take(i));
        assert(all_digits(s.take(i)));
        lemma_decimal_value_nonneg(s.take(i));
        assert(decimal_value(s.take(i + 1)) == decimal_value(s.take(i)) * 10 + crate::timefmt::digit_val(
            s.take(i + 1).last(),
        ));
    }
}

/// Parse the configured listen port. Returns the port exactly when the text
/// is one or more decimal digits whose value fits a 16-bit integer; any other
/// text — empty, a stray character, a value past 65535 — is refused.
pub fn parse_port(s: &str) -> (r: Result<u16, ConfigError>)
    ensures
        match r {
            Ok(v) => {
                &&& s@.len() > 0
                &&& all_digits(s@)
                &&& decimal_value(s@) == v
            },
            Err(_) => !(s@.len() > 0 && all_digits(s@) && decimal_value(s@) <= 65535),
        },
{
    let n = s.unicode_len();
    if n == 0 {
        return Err(ConfigError::InvalidPort);
    }
    let mut value: u32 = 0;
    let mut i: usize = 0;
    proof {
        assert(s@.take(0) =~= Seq::<char>::empty());
    }
    while i < n
        invariant
            n == s@.len(),
            i <= n,
            value <= 65535,
            all_digits(s@.take(i as int)),
            decimal_value(s@.take(i as int)) == value,
        decreases n - i,
    {
        let c = s.get_char(i);
        let cu = c as u32;
        if cu < 48 || cu > 57 {
            return Err(ConfigError::InvalidPort);
        }
        let d = cu - 48;
        proof {
            assert(crate::timefmt::is_digit(c));
            assert(crate::timefmt::digit_val(c) == d);
            assert(s@.take(i as int + 1).drop_last() =~= s@.take(i as int));
            assert(s@.take(i as int + 1).last() == s@[i as int]);
        }
        if value > 6553 || (value == 6553 && d > 5) {
            proof {
                if all_digits(s@) {
                    assert(all_digits(s@.take(i as int + 1)));
                    assert(decimal_value(s@.take(i as int + 1)) == value * 10 + d > 65535);
                    lemma_decimal_value_prefix(s@, i as int + 1);
                }
            }
            return Err(ConfigError::InvalidPort);
        }
        value = value * 10 + d;
        i = i + 1;
    }
    proof {
        assert(s@.take(n as int) =~= s@);
    }
    Ok(value as u16)
}

} // verus!
