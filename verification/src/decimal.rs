//! Parsing of plain decimal numbers: unsigned integers, and fixed-point
//! growth factors such as `1.5` kept in thousandths.

use vstd::prelude::*;
use crate::duration::digits_end;
use crate::duration::is_digit_c;
use crate::duration::num_val;

verus! {

/// Why a number was rejected.
#[derive(Clone, Copy, Debug, PartialEq, Eq, Structural)]
pub enum NumberError {
    /// The text is not a number of the expected shape.
    Invalid,
    /// The value does not fit in 64 bits.
    Overflow,
}

/// Weight of a fractional part with `m` digits, for a value kept in
/// thousandths.
pub open spec fn frac_weight(m: int) -> nat {
    if m == 1 {
        100
    } else if m == 2 {
        10
    } else {
        1
    }
}

/// The meaning of a fixed-point number string, in thousandths: digits,
/// optionally followed by a point and one to three fractional digits.
/// `None` when the text has another shape; finer fractions than a
/// thousandth are not representable and are rejected.
pub open spec fn milli_val(s: Seq<char>) -> Option<nat> {
    let d = digits_end(s, 0);
    if d == 0 {
        None
    } else if d == s.len() {
        Some(num_val(s, 0, d) * 1000)
    } else if s[d] == '.' {
        let f = digits_end(s, d + 1);
        if f != s.len() || f == d + 1 || f - (d + 1) > 3 {
            None
        } else {
            Some(num_val(s, 0, d) * 1000 + num_val(s, d + 1, f) * frac_weight(f - (d + 1)))
        }
    } else {
        None
    }
}

/// The meaning of an unsigned integer string: one or more digits and
/// nothing else.
pub open spec fn uint_val(s: Seq<char>) -> Option<nat> {
    if s.len() > 0 && digits_end(s, 0) == s.len() {
        Some(num_val(s, 0, s.len() as int))
    } else {
        None
    }
}

proof fn lemma_digits_region_d(s: Seq<char>, i: int, t: int)
    requires
        0 <= i <= s.len(),
        i <= t < digits_end(s, i),
    ensures
        is_digit_c(s[t]),
    decreases t - i,
{
    crate::duration::lemma_digits_end_bounds(s, i);
    if i < s.len() && is_digit_c(s[i]) {
        if t > i {
            lemma_digits_region_d(s, i + 1, t);
        }
    }
}

/// A small power of ten, for bounding short digit runs.
spec fn pow_small(k: int) -> nat {
    if k <= 0 {
        1
    } else if k == 1 {
        10
    } else if k == 2 {
        100
    } else {
        1000
    }
}

proof fn lemma_num_val_small(s: Seq<char>, i: int, j: int)
    requires
        0 <= i <= j <= s.len(),
        j - i <= 3,
        forall|t: int| i <= t < j ==> is_digit_c(s[t]),
    ensures
        num_val(s, i, j) < pow_small(j - i),
    decreases j - i,
{
    if i < j {
        lemma_num_val_small(s, i, j - 1);
    }
}

/// Parses a fixed-point number into thousandths.
///
/// Returns the value exactly when the text has the documented shape and
/// the value fits in 64 bits; `Invalid` exactly when the shape is wrong;
/// `Overflow` exactly when the value is too large.
pub fn parse_milli(s: &[char]) -> (r: Result<u64, NumberError>)
    ensures
        r == (match milli_val(s@) {
            Option::None => Err::<u64, NumberError>(NumberError::Invalid),
            Option::Some(n) => if n <= u64::MAX {
                Ok(n as u64)
            } else {
                Err(NumberError::Overflow)
            },
        }),
{
    let d = crate::duration::digits_end_x(s, 0);
    if d == 0 {
        return Err(NumberError::Invalid);
    }
    proof {
        assert forall|t: int| 0 <= t < d implies is_digit_c(s@[t]) by {
            lemma_digits_region_d(s@, 0, t);
        }
    }
    let (n, nover) = crate::duration::num_val_x(s, 0, d);
    proof {
        if nover {
            assert(num_val(s@, 0, d as int) * 1000 >= num_val(s@, 0, d as int) * 1)
                by (nonlinear_arith)
                requires
                    num_val(s@, 0, d as int) >= 0,
            ;
        }
    }
    if d == s.len() {
        if nover {
            return Err(NumberError::Overflow);
        }
        let whole: u128 = (n as u128) * 1000;
        if whole > u64::MAX as u128 {
            return Err(NumberError::Overflow);
        }
        return Ok(whole as u64);
    }
    if s[d] != '.' {
        return Err(NumberError::Invalid);
    }
    let f = crate::duration::digits_end_x(s, d + 1);
    if f != s.len() || f == d + 1 || f - (d + 1) > 3 {
        return Err(NumberError::Invalid);
    }
    proof {
        assert forall|t: int| d + 1 <= t < f implies is_digit_c(s@[t]) by {
            lemma_digits_region_d(s@, d as int + 1, t);
        }
        lemma_num_val_small(s@, d as int + 1, f as int);
    }
    let (fr, _frover) = crate::duration::num_val_x(s, d + 1, f);
    let m = f - (d + 1);
    let w: u64 = if m == 1 {
        100
    } else if m == 2 {
        10
    } else {
        1
    };
    if nover {
        return Err(NumberError::Overflow);
    }
    proof {
        assert(num_val(s@, d as int + 1, f as int) <= 999);
        assert((fr as nat) * (w as nat) <= 999 * 100) by (nonlinear_arith)
            requires
                fr as nat <= 999,
                w as nat <= 100,
        ;
    }
    let total: u128 = (n as u128) * 1000 + (fr as u128) * (w as u128);
    if total > u64::MAX as u128 {
        return Err(NumberError::Overflow);
    }
    Ok(total as u64)
}

/// Parses an unsigned integer.
///
/// Returns the value exactly when the text is all digits and fits in 64
/// bits; `Invalid` exactly when it is not all digits; `Overflow` exactly
/// when it is too large.
pub fn parse_uint(s: &[char]) -> (r: Result<u64, NumberError>)
    ensures
        r == (match uint_val(s@) {
            Option::None => Err::<u64, NumberError>(NumberError::Invalid),
            Option::Some(n) => if n <= u64::MAX {
                Ok(n as u64)
            } else {
                Err(NumberError::Overflow)
            },
        }),
{
    if s.len() == 0 {
        return Err(NumberError::Invalid);
    }
    let d = crate::duration::digits_end_x(s, 0);
    if d != s.len() {
        return Err(NumberError::Invalid);
    }
    proof {
        assert forall|t: int| 0 <= t < d implies is_digit_c(s@[t]) by {
            lemma_digits_region_d(s@, 0, t);
        }
    }
    let (n, nover) = crate::duration::num_val_x(s, 0, d);
    if nover {
        return Err(NumberError::Overflow);
    }
    Ok(n)
}

} // verus!
