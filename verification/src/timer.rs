//! The session timer: the last caller token is a count of minutes, which
//! is parsed as a plain decimal number — one optional leading plus sign
//! is allowed — and converted to whole seconds. Anything else is an
//! input error, raised before any file is touched.

use vstd::prelude::*;
use crate::errors::BlockError;

verus! {

/// An ASCII decimal digit.
pub open spec fn is_digit(c: char) -> bool {
    48 <= c as u32 <= 57
}

/// The numeric value of one decimal digit.
pub open spec fn digit_val(c: char) -> nat {
    (c as u32 - 48) as nat
}

/// The value of a decimal digit string, most significant digit first.
pub open spec fn dec_value(s: Seq<char>) -> nat
    decreases s.len(),
{
    if s.len() == 0 {
        0
    } else {
        dec_value(s.drop_last()) * 10 + digit_val(s.last())
    }
}

/// The digit portion of a minutes token: what follows one optional
/// leading plus sign.
pub open spec fn digits_of(s: Seq<char>) -> Seq<char> {
    if s.len() > 0 && s[0] == '+' {
        s.drop_first()
    } else {
        s
    }
}

/// A well-formed minutes token: one optional leading plus sign, then at
/// least one decimal digit and nothing else, small enough that the count
/// of seconds still fits in a `u64`.
pub open spec fn valid_minutes(s: Seq<char>) -> bool {
    let digits = digits_of(s);
    &&& digits.len() > 0
    &&& forall|i: int| 0 <= i < digits.len() ==> is_digit(#[trigger] digits[i])
    &&& dec_value(digits) * 60 <= u64::MAX
}

/// A digit string's value only grows as digits are appended.
proof fn lemma_dec_value_prefix(s: Seq<char>, i: int)
    requires
        0 <= i <= s.len(),
    ensures
        dec_value(s.take(i)) <= dec_value(s),
    decreases s.len() - i,
{
    if i < s.len() {
        lemma_dec_value_prefix(s, i + 1);
        assert(s.take(i + 1).drop_last() =~= s.take(i));
        assert(s.take(i + 1).last() == s[i]);
        assert(dec_value(s.take(i)) <= dec_value(s.take(i)) * 10 + digit_val(s[i]));
    } else {
        assert(s.take(i) =~= s);
    }
}

/// Parses the timer token: a decimal count of minutes, with one optional
/// leading plus sign, returned as a count of seconds (minutes times
/// sixty). A token whose digit portion is empty, holds a non-digit, or
/// names a duration beyond the `u64` range is rejected as an input
/// error; no input makes this function panic.
pub fn parse_sleep_time(argument: &String) -> (r: Result<u64, BlockError>)
    ensures
        valid_minutes(argument@) ==> r == Ok::<u64, BlockError>(
            (dec_value(digits_of(argument@)) * 60) as u64,
        ),
        !valid_minutes(argument@) ==> r == Err::<u64, BlockError>(BlockError::InputError),
{
    let s = argument.as_str();
    let n = s.unicode_len();
    let start: usize = if n > 0 && s.get_char(0) == '+' {
        1
    } else {
        0
    };
    let ghost digits = digits_of(s@);
    proof {
        assert(digits =~= s@.subrange(start as int, n as int));
    }
    if n == start {
        return Err(BlockError::InputError);
    }
    let mut value: u64 = 0;
    let mut i: usize = start;
    while i < n
        invariant
            s@ == argument@,
            n == s@.len(),
            start <= i <= n,
            digits == digits_of(s@),
            digits =~= s@.subrange(start as int, n as int),
            forall|j: int| 0 <= j < i - start ==> is_digit(#[trigger] digits[j]),
            value == dec_value(digits.take(i - start)),
            value * 60 <= u64::MAX,
        decreases n - i,
    {
        let c = s.get_char(i);
        let u = c as u32;
        proof {
            assert(digits[i - start] == s@[i as int]);
        }
        if u < 48 || u > 57 {
            proof {
                assert(!is_digit(digits_of(argument@)[i - start]));
            }
            return Err(BlockError::InputError);
        }
        let d = (u - 48) as u64;
        proof {
            assert(digits.take(i - start + 1).drop_last() =~= digits.take(i - start));
            assert(digits.take(i - start + 1).last() == digits[i - start]);
        }
        if value > (u64::MAX / 60 - d) / 10 {
            proof {
                lemma_dec_value_prefix(digits, i - start + 1);
                assert(dec_value(digits.take(i - start + 1)) == value * 10 + d);
                assert(dec_value(digits) * 60 > u64::MAX);
            }
            return Err(BlockError::InputError);
        }
        value = value * 10 + d;
        i += 1;
    }
    proof {
        assert(digits.take(n - start) =~= digits);
    }
    Ok(value * 60)
}

} // verus!
