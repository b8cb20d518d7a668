//! Parsing of human-readable durations such as `5s`, `100ms` or `2m30s`
//! into integer nanosecond counts.
//!
//! A duration is one or more terms, each an unsigned decimal number
//! followed by a unit word, with optional ASCII whitespace before, between
//! and after terms. The value is the sum of the terms. The unit words and
//! their values follow the common humantime convention: a month counts as
//! 30.44 days and a year as 365.25 days.

use vstd::prelude::*;
use crate::chars::range_eq;
use crate::chars::to_chars;

verus! {

/// ASCII whitespace, as accepted between duration terms.
pub open spec fn is_space_c(c: char) -> bool {
    c == ' ' || c == '\t' || c == '\n' || c == '\r' || c == '\u{b}' || c == '\u{c}'
}

/// An ASCII decimal digit.
pub open spec fn is_digit_c(c: char) -> bool {
    '0' <= c && c <= '9'
}

/// An ASCII letter, the stuff unit words are made of.
pub open spec fn is_alpha_c(c: char) -> bool {
    ('a' <= c && c <= 'z') || ('A' <= c && c <= 'Z')
}

/// First position at or after `i` holding no whitespace.
pub open spec fn skip_ws(s: Seq<char>, i: int) -> int
    decreases s.len() - i,
        when 0 <= i <= s.len()
{
    if i < s.len() && is_space_c(s[i]) {
        skip_ws(s, i + 1)
    } else {
        i
    }
}

pub proof fn lemma_skip_ws_bounds(s: Seq<char>, i: int)
    requires
        0 <= i <= s.len(),
    ensures
        i <= skip_ws(s, i) <= s.len(),
    decreases s.len() - i,
{
    if i < s.len() && is_space_c(s[i]) {
        lemma_skip_ws_bounds(s, i + 1);
    }
}

/// First position at or after `i` holding no digit.
pub open spec fn digits_end(s: Seq<char>, i: int) -> int
    decreases s.len() - i,
        when 0 <= i <= s.len()
{
    if i < s.len() && is_digit_c(s[i]) {
        digits_end(s, i + 1)
    } else {
        i
    }
}

pub proof fn lemma_digits_end_bounds(s: Seq<char>, i: int)
    requires
        0 <= i <= s.len(),
    ensures
        i <= digits_end(s, i) <= s.len(),
    decreases s.len() - i,
{
    if i < s.len() && is_digit_c(s[i]) {
        lemma_digits_end_bounds(s, i + 1);
    }
}

/// First position at or after `i` holding no letter.
pub open spec fn alpha_end(s: Seq<char>, i: int) -> int
    decreases s.len() - i,
        when 0 <= i <= s.len()
{
    if i < s.len() && is_alpha_c(s[i]) {
        alpha_end(s, i + 1)
    } else {
        i
    }
}

pub proof fn lemma_alpha_end_bounds(s: Seq<char>, i: int)
    requires
        0 <= i <= s.len(),
    ensures
        i <= alpha_end(s, i) <= s.len(),
    decreases s.len() - i,
{
    if i < s.len() && is_alpha_c(s[i]) {
        lemma_alpha_end_bounds(s, i + 1);
    }
}

/// Value of the decimal digits in the region `[i, j)`.
pub open spec fn num_val(s: Seq<char>, i: int, j: int) -> nat
    decreases j - i,
        when 0 <= i <= j <= s.len()
{
    if i >= j {
        0
    } else {
        num_val(s, i, j - 1) * 10 + ((s[j - 1] as int - 48) as nat)
    }
}

/// Nanoseconds denoted by a unit word, or `None` for an unknown word.
pub open spec fn unit_nanos(u: Seq<char>) -> Option<nat> {
    if u == "nsec"@ || u == "ns"@ {
        Some(1 as nat)
    } else if u == "usec"@ || u == "us"@ {
        Some(1000 as nat)
    } else if u == "msec"@ || u == "ms"@ {
        Some(1000000 as nat)
    } else if u == "seconds"@ || u == "second"@ || u == "secs"@ || u == "sec"@ || u == "s"@ {
        Some(1000000000 as nat)
    } else if u == "minutes"@ || u == "minute"@ || u == "mins"@ || u == "min"@ || u == "m"@ {
        Some(60000000000 as nat)
    } else if u == "hours"@ || u == "hour"@ || u == "hr"@ || u == "h"@ {
        Some(3600000000000 as nat)
    } else if u == "days"@ || u == "day"@ || u == "d"@ {
        Some(86400000000000 as nat)
    } else if u == "weeks"@ || u == "week"@ || u == "w"@ {
        Some(604800000000000 as nat)
    } else if u == "months"@ || u == "month"@ || u == "M"@ {
        Some(2630016000000000 as nat)
    } else if u == "years"@ || u == "year"@ || u == "y"@ {
        Some(31557600000000000 as nat)
    } else {
        None
    }
}

/// Value of the terms that start at position `i` (a non-space position):
/// `None` when the text from `i` on is not a well-formed list of terms,
/// otherwise the sum of the terms' values in nanoseconds.
pub open spec fn terms_val(s: Seq<char>, i: int) -> Option<nat>
    decreases s.len() - i,
        when 0 <= i <= s.len()
        via terms_val_dec
{
    if i >= s.len() {
        None
    } else {
        let d = digits_end(s, i);
        let a = alpha_end(s, d);
        if d == i || a == d {
            None
        } else {
            match unit_nanos(s.subrange(d, a)) {
                Option::None => None,
                Option::Some(u) => {
                    let v = num_val(s, i, d) * u;
                    let k = skip_ws(s, a);
                    if k >= s.len() {
                        Some(v)
                    } else {
                        match terms_val(s, k) {
                            Option::None => None,
                            Option::Some(rest) => Some((v + rest) as nat),
                        }
                    }
                },
            }
        }
    }
}

#[via_fn]
proof fn terms_val_dec(s: Seq<char>, i: int) {
    if 0 <= i < s.len() {
        lemma_digits_end_bounds(s, i);
        lemma_alpha_end_bounds(s, digits_end(s, i));
        lemma_skip_ws_bounds(s, alpha_end(s, digits_end(s, i)));
    }
}

/// The meaning of a whole duration string: `None` when it is not a
/// well-formed duration, otherwise its value in nanoseconds.
pub open spec fn duration_val(s: Seq<char>) -> Option<nat> {
    terms_val(s, skip_ws(s, 0))
}

/// Why a duration string was rejected.
#[derive(Clone, Copy, Debug, PartialEq, Eq, Structural)]
pub enum DurationError {
    /// The text is not a well-formed duration.
    Invalid,
    /// The value does not fit in 64 bits of nanoseconds.
    Overflow,
}

pub fn skip_ws_x(s: &[char], i: usize) -> (r: usize)
    requires
        i <= s@.len(),
    ensures
        r == skip_ws(s@, i as int),
        i <= r <= s@.len(),
{
    let mut j = i;
    while j < s.len() && (s[j] == ' ' || s[j] == '\t' || s[j] == '\n' || s[j] == '\r' || s[j]
        == '\u{b}' || s[j] == '\u{c}')
        invariant
            i <= j <= s@.len(),
            skip_ws(s@, i as int) == skip_ws(s@, j as int),
        decreases s@.len() - j,
    {
        j = j + 1;
    }
    j
}

pub fn digits_end_x(s: &[char], i: usize) -> (r: usize)
    requires
        i <= s@.len(),
    ensures
        r == digits_end(s@, i as int),
        i <= r <= s@.len(),
{
    let mut j = i;
    while j < s.len() && '0' <= s[j] && s[j] <= '9'
        invariant
            i <= j <= s@.len(),
            digits_end(s@, i as int) == digits_end(s@, j as int),
        decreases s@.len() - j,
    {
        j = j + 1;
    }
    j
}

pub fn alpha_end_x(s: &[char], i: usize) -> (r: usize)
    requires
        i <= s@.len(),
    ensures
        r == alpha_end(s@, i as int),
        i <= r <= s@.len(),
{
    let mut j = i;
    while j < s.len() && (('a' <= s[j] && s[j] <= 'z') || ('A' <= s[j] && s[j] <= 'Z'))
        invariant
            i <= j <= s@.len(),
            alpha_end(s@, i as int) == alpha_end(s@, j as int),
        decreases s@.len() - j,
    {
        j = j + 1;
    }
    j
}

/// Reads the digits of the region `[i, j)`. The flag says the value does
/// not fit in 64 bits; when it is clear, the number is the region's value.
pub fn num_val_x(s: &[char], i: usize, j: usize) -> (r: (u64, bool))
    requires
        0 <= i <= j <= s@.len(),
        forall|t: int| i <= t < j ==> is_digit_c(s@[t]),
    ensures
        !r.1 ==> r.0 as nat == num_val(s@, i as int, j as int),
        r.1 ==> num_val(s@, i as int, j as int) > u64::MAX,
{
    let mut acc: u64 = 0;
    let mut over = false;
    let mut k = i;
    while k < j
        invariant
            i <= k <= j <= s@.len(),
            forall|t: int| i <= t < j ==> is_digit_c(s@[t]),
            !over ==> acc as nat == num_val(s@, i as int, k as int),
            over ==> num_val(s@, i as int, k as int) > u64::MAX,
        decreases j - k,
    {
        let c = s[k];
        let d: u64 = (c as u32 as u64) - 48;
        if over {
            proof {
                assert(num_val(s@, i as int, k as int + 1) == num_val(s@, i as int, k as int) * 10
                    + ((s@[k as int] as int - 48) as nat));
                assert(num_val(s@, i as int, k as int) * 10 >= num_val(s@, i as int, k as int))
                    by (nonlinear_arith);
            }
        } else {
            let wide: u128 = (acc as u128) * 10 + (d as u128);
            if wide > u64::MAX as u128 {
                over = true;
            } else {
                acc = wide as u64;
            }
        }
        k = k + 1;
    }
    (acc, over)
}

/// Looks up a unit word in the region `[d, a)`; a found unit is at least
/// one nanosecond.
fn unit_lookup(s: &[char], d: usize, a: usize) -> (r: Option<u64>)
    requires
        0 <= d <= a <= s@.len(),
    ensures
        match unit_nanos(s@.subrange(d as int, a as int)) {
            Option::Some(n) => r == Some(n as u64) && 1 <= n <= u64::MAX,
            Option::None => r is None,
        },
{
    if range_eq(s, d, a, to_chars("nsec").as_slice()) || range_eq(s, d, a, to_chars("ns").as_slice()) {
        Some(1)
    } else if range_eq(s, d, a, to_chars("usec").as_slice()) || range_eq(s, d, a, to_chars("us").as_slice()) {
        Some(1000)
    } else if range_eq(s, d, a, to_chars("msec").as_slice()) || range_eq(s, d, a, to_chars("ms").as_slice()) {
        Some(1000000)
    } else if range_eq(s, d, a, to_chars("seconds").as_slice()) || range_eq(s, d, a, to_chars("second").as_slice()) || range_eq(s, d, a, to_chars("secs").as_slice()) || range_eq(s, d, a, to_chars("sec").as_slice()) || range_eq(s, d, a, to_chars("s").as_slice()) {
        Some(1000000000)
    } else if range_eq(s, d, a, to_chars("minutes").as_slice()) || range_eq(s, d, a, to_chars("minute").as_slice()) || range_eq(s, d, a, to_chars("mins").as_slice()) || range_eq(s, d, a, to_chars("min").as_slice()) || range_eq(s, d, a, to_chars("m").as_slice()) {
        Some(60000000000)
    } else if range_eq(s, d, a, to_chars("hours").as_slice()) || range_eq(s, d, a, to_chars("hour").as_slice()) || range_eq(s, d, a, to_chars("hr").as_slice()) || range_eq(s, d, a, to_chars("h").as_slice()) {
        Some(3600000000000)
    } else if range_eq(s, d, a, to_chars("days").as_slice()) || range_eq(s, d, a, to_chars("day").as_slice()) || range_eq(s, d, a, to_chars("d").as_slice()) {
        Some(86400000000000)
    } else if range_eq(s, d, a, to_chars("weeks").as_slice()) || range_eq(s, d, a, to_chars("week").as_slice()) || range_eq(s, d, a, to_chars("w").as_slice()) {
        Some(604800000000000)
    } else if range_eq(s, d, a, to_chars("months").as_slice()) || range_eq(s, d, a, to_chars("month").as_slice()) || range_eq(s, d, a, to_chars("M").as_slice()) {
        Some(2630016000000000)
    } else if range_eq(s, d, a, to_chars("years").as_slice()) || range_eq(s, d, a, to_chars("year").as_slice()) || range_eq(s, d, a, to_chars("y").as_slice()) {
        Some(31557600000000000)
    } else {
        None
    }
}

/// Parses a duration string into nanoseconds.
///
/// Returns the string's value exactly when the string is a well-formed
/// duration whose value fits in 64 bits; `Invalid` exactly when it is not
/// well formed; `Overflow` exactly when it is well formed but too large.
pub fn parse_duration(s: &[char]) -> (r: Result<u64, DurationError>)
    ensures
        r == (match duration_val(s@) {
            Option::None => Err::<u64, DurationError>(DurationError::Invalid),
            Option::Some(n) => if n <= u64::MAX {
                Ok(n as u64)
            } else {
                Err(DurationError::Overflow)
            },
        }),
{
    let mut i = skip_ws_x(s, 0);
    let ghost i0 = i as int;
    if i == s.len() {
        return Err(DurationError::Invalid);
    }
    let mut total: u64 = 0;
    let mut over = false;
    let ghost mut gsum: nat = 0;
    loop
        invariant
            0 <= i < s@.len(),
            i0 == skip_ws(s@, 0),
            !over ==> total as nat == gsum,
            over ==> gsum > u64::MAX,
            match terms_val(s@, i as int) {
                Option::Some(rest) => terms_val(s@, i0) == Some((gsum + rest) as nat),
                Option::None => terms_val(s@, i0) is None,
            },
        decreases s@.len() - i,
    {
        let d = digits_end_x(s, i);
        if d == i {
            return Err(DurationError::Invalid);
        }
        let a = alpha_end_x(s, d);
        if a == d {
            return Err(DurationError::Invalid);
        }
        let u = match unit_lookup(s, d, a) {
            Some(u) => u,
            None => {
                return Err(DurationError::Invalid);
            },
        };
        proof {
            assert forall|t: int| i <= t < d implies is_digit_c(s@[t]) by {
                lemma_digits_region(s@, i as int, t);
            }
        }
        let (n, nover) = num_val_x(s, i, d);
        let ghost vterm: nat = num_val(s@, i as int, d as int) * (u as nat);
        let mut termover = nover;
        let mut term: u128 = 0;
        if !nover {
            proof {
                assert((n as nat) * (u as nat) <= (u64::MAX as nat) * (u64::MAX as nat))
                    by (nonlinear_arith)
                    requires
                        n as nat <= u64::MAX as nat,
                        u as nat <= u64::MAX as nat,
                ;
            }
            term = (n as u128) * (u as u128);
            if term > u64::MAX as u128 {
                termover = true;
            }
        } else {
            proof {
                assert(num_val(s@, i as int, d as int) * (u as nat) >= num_val(
                    s@,
                    i as int,
                    d as int,
                ) * 1) by (nonlinear_arith)
                    requires
                        u as nat >= 1,
                        num_val(s@, i as int, d as int) >= 0,
                ;
            }
        }
        proof {
            gsum = (gsum + vterm) as nat;
        }
        if termover {
            over = true;
        } else if !over {
            let wide: u128 = (total as u128) + term;
            if wide > u64::MAX as u128 {
                over = true;
            } else {
                total = wide as u64;
            }
        }
        let k = skip_ws_x(s, a);
        if k == s.len() {
            proof {
                assert(terms_val(s@, i as int) == Some(vterm));
            }
            if over {
                return Err(DurationError::Overflow);
            }
            return Ok(total);
        }
        proof {
            assert(terms_val(s@, i as int) == (match terms_val(s@, k as int) {
                Option::None => Option::<nat>::None,
                Option::Some(rest) => Option::Some((vterm + rest) as nat),
            }));
        }
        i = k;
    }
}

proof fn lemma_digits_region(s: Seq<char>, i: int, t: int)
    requires
        0 <= i <= s.len(),
        i <= t < digits_end(s, i),
    ensures
        is_digit_c(s[t]),
    decreases t - i,
{
    lemma_digits_end_bounds(s, i);
    if i < s.len() && is_digit_c(s[i]) {
        if t > i {
            lemma_digits_region(s, i + 1, t);
        }
    }
}

} // verus!
