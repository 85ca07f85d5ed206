//! The duration parser: text to a nanosecond offset.
//!
//! Grammar: one or more decimal digits followed by exactly one unit letter in
//! `{s, m, h, d}` — no signs, no decimals, no composite units, no surrounding
//! whitespace. Numeric overflow or any other malformed shape is a
//! `Validation` error. The contract is stated over the UTF-8 bytes of the
//! input, so any non-ASCII text is rejected as malformed.

use vstd::prelude::*;
use vstd::string::StringSliceAdditionalSpecFns;
use vstd::utf8::encode_utf8;

use crate::errors::TokenError;

verus! {

/// A decimal digit, as a byte of UTF-8 text.
pub open spec fn is_ascii_digit(b: u8) -> bool {
    48 <= b <= 57
}

/// A unit letter — the bytes of `s`, `m`, `h` and `d`.
pub open spec fn is_unit_byte(b: u8) -> bool {
    b == 115 || b == 109 || b == 104 || b == 100
}

/// How many nanoseconds one unit of `b` lasts: a second, a minute, an
/// hour, or (for any other byte — the grammar admits only `d`) a day.
pub open spec fn unit_nanos(b: u8) -> nat {
    if b == 115 {
        1_000_000_000
    } else if b == 109 {
        60_000_000_000
    } else if b == 104 {
        3_600_000_000_000
    } else {
        86_400_000_000_000
    }
}

/// The numeric value a digit byte stands for (0 for anything below `'0'`).
pub open spec fn digit_of(b: u8) -> nat {
    if b >= 48 {
        (b - 48) as nat
    } else {
        0
    }
}

/// The value of a big-endian decimal digit string.
pub open spec fn digits_value(s: Seq<u8>) -> nat
    decreases s.len(),
{
    if s.len() == 0 {
        0
    } else {
        digits_value(s.drop_last()) * 10 + digit_of(s.last())
    }
}

/// The shape of a well-formed duration: at least one digit, then one unit
/// letter, nothing else.
pub open spec fn duration_shape_ok(b: Seq<u8>) -> bool {
    &&& b.len() >= 2
    &&& forall|i: int| 0 <= i < b.len() - 1 ==> is_ascii_digit(#[trigger] b[i])
    &&& is_unit_byte(b.last())
}

/// The nanosecond offset a well-shaped duration denotes.
pub open spec fn duration_nanos(b: Seq<u8>) -> nat {
    digits_value(b.drop_last()) * unit_nanos(b.last())
}

/// A duration parses iff it is well shaped and its value fits in `u64`.
pub open spec fn duration_ok(b: Seq<u8>) -> bool {
    duration_shape_ok(b) && duration_nanos(b) <= u64::MAX
}

/// `duration_ok`, over the characters of the input text.
pub open spec fn duration_ok_str(s: Seq<char>) -> bool {
    duration_ok(encode_utf8(s))
}

/// `duration_nanos`, over the characters of the input text.
pub open spec fn duration_nanos_str(s: Seq<char>) -> nat {
    duration_nanos(encode_utf8(s))
}

/// Appending bytes to a digit string never lowers its value.
proof fn lemma_digits_value_mono(s: Seq<u8>, j: int)
    requires
        0 <= j <= s.len(),
    ensures
        digits_value(s.take(j)) <= digits_value(s),
    decreases s.len(),
{
    if j == s.len() {
        assert(s.take(j) =~= s);
    } else {
        lemma_digits_value_mono(s.drop_last(), j);
        assert(s.drop_last().take(j) =~= s.take(j));
    }
}

/// One parsing step: the value of a digit prefix grown by one byte.
proof fn lemma_digits_value_step(s: Seq<u8>, i: int)
    requires
        0 <= i < s.len(),
    ensures
        digits_value(s.take(i + 1)) == digits_value(s.take(i)) * 10 + digit_of(s[i]),
{
    assert(s.take(i + 1).drop_last() =~= s.take(i));
    assert(s.take(i + 1).last() == s[i]);
}

/// A digit prefix already too large for `u64` sinks the whole duration.
proof fn lemma_overflow_rejects(b: Seq<u8>, i: int)
    requires
        0 <= i < b.len() - 1,
        digits_value(b.take(i + 1)) > u64::MAX,
    ensures
        !duration_ok(b),
{
    lemma_digits_value_mono(b.drop_last(), i + 1);
    assert(b.drop_last().take(i + 1) =~= b.take(i + 1));
    assert(duration_nanos(b) >= digits_value(b.drop_last()) * 1) by (nonlinear_arith)
        requires
            duration_nanos(b) == digits_value(b.drop_last()) * unit_nanos(b.last()),
            unit_nanos(b.last()) >= 1,
            digits_value(b.drop_last()) >= 0,
    ;
}

/// Parses a duration such as `"2s"` or `"5m"` into nanoseconds.
pub fn parse_time(time: &str) -> (r: Result<u64, TokenError>)
    ensures
        match r {
            Ok(n) => duration_ok(time.spec_bytes()) && n == duration_nanos(time.spec_bytes()),
            Err(e) => e == TokenError::Validation && !duration_ok(time.spec_bytes()),
        },
{
    let bytes: &[u8] = time.as_bytes();
    let n: usize = bytes.len();
    if n < 2 {
        return Err(TokenError::Validation);
    }
    let unit = bytes[n - 1];
    if !(unit == 115u8 || unit == 109 || unit == 104 || unit == 100) {
        proof {
            assert(bytes@.last() == bytes@[n - 1]);
        }
        return Err(TokenError::Validation);
    }
    let ghost b = time.spec_bytes();
    let mut acc: u64 = 0;
    let mut i: usize = 0;
    while i < n - 1
        invariant
            bytes@ == b,
            b == time.spec_bytes(),
            n == b.len(),
            2 <= n <= usize::MAX,
            0 <= i <= n - 1,
            forall|k: int| 0 <= k < i ==> is_ascii_digit(#[trigger] b[k]),
            acc == digits_value(b.take(i as int)),
        decreases n - 1 - i,
    {
        let d = bytes[i];
        if !(48 <= d && d <= 57) {
            proof {
                assert(!is_ascii_digit(b[i as int]));
                assert(!duration_shape_ok(b));
            }
            return Err(TokenError::Validation);
        }
        proof {
            lemma_digits_value_step(b, i as int);
        }
        let acc10 = match acc.checked_mul(10) {
            Some(t) => t,
            None => {
                proof {
                    lemma_overflow_rejects(b, i as int);
                }
                return Err(TokenError::Validation);
            },
        };
        acc = match acc10.checked_add((d - 48) as u64) {
            Some(v) => v,
            None => {
                proof {
                    lemma_overflow_rejects(b, i as int);
                }
                return Err(TokenError::Validation);
            },
        };
        i = i + 1;
    }
    proof {
        assert(b.take(n - 1) =~= b.drop_last());
    }
    let unit_value: u64 = if unit == 115 {
        1_000_000_000
    } else if unit == 109 {
        60_000_000_000
    } else if unit == 104 {
        3_600_000_000_000
    } else {
        86_400_000_000_000
    };
    match acc.checked_mul(unit_value) {
        Some(v) => Ok(v),
        None => Err(TokenError::Validation),
    }
}

} // verus!
