//! The string-to-value conversion capability: a trait that each target
//! type supplies, with fully specified parsing for strings and for the
//! unsigned integer types the library supports.

use vstd::prelude::*;
use vstd::string::StrSliceExecFns;
use crate::errors::ErrorMessage;

verus! {

/// A type retrievable from a raw environment string. The three spec
/// functions pin down exactly which strings parse, to what value, and
/// with what error otherwise.
pub trait FromEnvStr: View + Sized {
    /// The conversion error this type's parse produces.
    type Err;

    /// Whether `s` parses successfully.
    spec fn parse_ok(s: Seq<char>) -> bool;

    /// The abstract value `s` parses to (meaningful when `parse_ok(s)`).
    spec fn parse_value(s: Seq<char>) -> Self::V;

    /// The error produced when `s` does not parse (meaningful when
    /// `!parse_ok(s)`).
    spec fn parse_err(s: Seq<char>) -> Self::Err;

    /// Parse `s` into a value of this type.
    fn from_env_str(s: &str) -> (r: Result<Self, Self::Err>)
        ensures
            Self::parse_ok(s@) ==> (r matches Ok(v) && v@ == Self::parse_value(s@)),
            !Self::parse_ok(s@) ==> (r matches Err(e) && e == Self::parse_err(s@)),
    ;
}

/// The conversion error of a parse that cannot fail. No value of it is
/// ever produced.
#[derive(Debug, PartialEq, Eq, Clone, Copy)]
pub struct NeverError;

impl ErrorMessage for NeverError {
    open spec fn message_spec(&self) -> Seq<char> {
        "no error"@
    }

    fn message(&self) -> (r: String)
        ensures
            r@ == self.message_spec(),
    {
        "no error".to_owned()
    }
}

/// Why a string failed to parse as an unsigned integer.
#[derive(Debug, PartialEq, Eq, Clone, Copy)]
pub enum IntParseError {
    /// The string was empty.
    Empty,
    /// Some character was not a decimal digit.
    InvalidDigit,
    /// The digits denote a number too large for the target type.
    Overflow,
}

impl ErrorMessage for IntParseError {
    open spec fn message_spec(&self) -> Seq<char> {
        match self {
            IntParseError::Empty => "cannot parse integer from empty string"@,
            IntParseError::InvalidDigit => "invalid digit found in string"@,
            IntParseError::Overflow => "number too large to fit in target type"@,
        }
    }

    fn message(&self) -> (r: String)
        ensures
            r@ == self.message_spec(),
    {
        match self {
            IntParseError::Empty => "cannot parse integer from empty string".to_owned(),
            IntParseError::InvalidDigit => "invalid digit found in string".to_owned(),
            IntParseError::Overflow => "number too large to fit in target type".to_owned(),
        }
    }
}

/// Whether `c` is a decimal digit.
pub open spec fn is_dec_digit(c: char) -> bool {
    48 <= c as int <= 57
}

/// The numeric value of the digit `c`.
pub open spec fn digit_val(c: char) -> int {
    c as int - 48
}

/// Whether every character of `s` is a decimal digit.
pub open spec fn all_dec_digits(s: Seq<char>) -> bool {
    forall|i: int| 0 <= i < s.len() ==> is_dec_digit(#[trigger] s[i])
}

/// The number denoted by the digit string `s`, most significant digit
/// first.
pub open spec fn dec_val(s: Seq<char>) -> int
    decreases s.len(),
{
    if s.len() == 0 {
        0
    } else {
        dec_val(s.drop_last()) * 10 + digit_val(s.last())
    }
}

/// A digit string denotes a nonnegative number.
proof fn lemma_dec_val_nonneg(s: Seq<char>)
    requires
        all_dec_digits(s),
    ensures
        dec_val(s) >= 0,
    decreases s.len(),
{
    if s.len() > 0 {
        assert(all_dec_digits(s.drop_last()));
        lemma_dec_val_nonneg(s.drop_last());
    }
}

/// Extending a digit string by one digit multiplies its value by ten
/// and adds the digit.
proof fn lemma_dec_val_step(s: Seq<char>, i: int)
    requires
        0 <= i < s.len(),
    ensures
        dec_val(s.take(i + 1)) == dec_val(s.take(i)) * 10 + digit_val(s[i]),
{
    assert(s.take(i + 1).drop_last() =~= s.take(i));
    assert(s.take(i + 1).last() == s[i]);
}

/// A prefix of a digit string denotes no more than the whole string.
proof fn lemma_dec_val_take_le(s: Seq<char>, i: int)
    requires
        all_dec_digits(s),
        0 <= i <= s.len(),
    ensures
        dec_val(s.take(i)) <= dec_val(s),
    decreases s.len() - i,
{
    if i == s.len() {
        assert(s.take(i) =~= s);
    } else {
        lemma_dec_val_step(s, i);
        assert(all_dec_digits(s.take(i)));
        lemma_dec_val_nonneg(s.take(i));
        lemma_dec_val_take_le(s, i + 1);
    }
}

/// The error a decimal parse of `s` reports when `s` does not denote a
/// representable number.
pub open spec fn dec_parse_err(s: Seq<char>) -> IntParseError {
    if s.len() == 0 {
        IntParseError::Empty
    } else if !all_dec_digits(s) {
        IntParseError::InvalidDigit
    } else {
        IntParseError::Overflow
    }
}

/// Whether `s` parses as a decimal number no larger than `max`.
pub open spec fn dec_parse_ok(s: Seq<char>, max: int) -> bool {
    s.len() > 0 && all_dec_digits(s) && dec_val(s) <= max
}

impl FromEnvStr for String {
    type Err = NeverError;

    open spec fn parse_ok(s: Seq<char>) -> bool {
        true
    }

    open spec fn parse_value(s: Seq<char>) -> Seq<char> {
        s
    }

    open spec fn parse_err(s: Seq<char>) -> NeverError {
        NeverError
    }

    fn from_env_str(s: &str) -> (r: Result<String, NeverError>) {
        Ok(s.to_owned())
    }
}

impl FromEnvStr for usize {
    type Err = IntParseError;

    open spec fn parse_ok(s: Seq<char>) -> bool {
        dec_parse_ok(s, usize::MAX as int)
    }

    open spec fn parse_value(s: Seq<char>) -> usize {
        dec_val(s) as usize
    }

    open spec fn parse_err(s: Seq<char>) -> IntParseError {
        dec_parse_err(s)
    }

    fn from_env_str(s: &str) -> (r: Result<usize, IntParseError>) {
        let n = s.unicode_len();
        if n == 0 {
            return Err(IntParseError::Empty);
        }
        let mut i: usize = 0;
        while i < n
            invariant
                i <= n,
                n == s@.len(),
                forall|j: int| 0 <= j < i ==> is_dec_digit(#[trigger] s@[j]),
            decreases n - i,
        {
            let c = s.get_char(i);
            let u = c as u32;
            if u < 48 || u > 57 {
                assert(!is_dec_digit(s@[i as int]));
                assert(!all_dec_digits(s@));
                return Err(IntParseError::InvalidDigit);
            }
            i = i + 1;
        }
        assert(all_dec_digits(s@));
        let mut acc: usize = 0;
        let mut i: usize = 0;
        while i < n
            invariant
                i <= n,
                n == s@.len(),
                all_dec_digits(s@),
                acc as int == dec_val(s@.take(i as int)),
            decreases n - i,
        {
            let c = s.get_char(i);
            let d: usize = ((c as u32) - 48) as usize;
            proof {
                lemma_dec_val_step(s@, i as int);
            }
            let next = match acc.checked_mul(10) {
                Some(p) => p.checked_add(d),
                None => None,
            };
            match next {
                Some(v) => {
                    acc = v;
                },
                None => {
                    proof {
                        lemma_dec_val_take_le(s@, i as int + 1);
                    }
                    return Err(IntParseError::Overflow);
                },
            }
            i = i + 1;
        }
        proof {
            assert(s@.take(n as int) =~= s@);
        }
        Ok(acc)
    }
}

impl FromEnvStr for u16 {
    type Err = IntParseError;

    open spec fn parse_ok(s: Seq<char>) -> bool {
        dec_parse_ok(s, u16::MAX as int)
    }

    open spec fn parse_value(s: Seq<char>) -> u16 {
        dec_val(s) as u16
    }

    open spec fn parse_err(s: Seq<char>) -> IntParseError {
        dec_parse_err(s)
    }

    fn from_env_str(s: &str) -> (r: Result<u16, IntParseError>) {
        match <usize as FromEnvStr>::from_env_str(s) {
            Ok(v) => {
                proof {
                    lemma_dec_val_nonneg(s@);
                }
                if v <= 65535 {
                    Ok(v as u16)
                } else {
                    Err(IntParseError::Overflow)
                }
            },
            Err(e) => Err(e),
        }
    }
}

} // verus!
