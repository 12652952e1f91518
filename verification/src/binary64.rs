//! IEEE-754 binary64 values seen as bit patterns.
//!
//! A pattern has a sign bit, eleven exponent bits and fifty-two fraction
//! bits. What the library needs of them is two constants and the numeric
//! order, all of which integer arithmetic decides.

use vstd::prelude::*;

verus! {

/// The pattern of `+0.0`.
pub const ZERO: u64 = 0;

/// The pattern of `1.0`.
pub const ONE: u64 = 0x3FF0_0000_0000_0000;

/// The sign bit, which is also the pattern of `-0.0`.
pub const SIGN_BIT: u64 = 0x8000_0000_0000_0000;

/// The pattern of positive infinity: every exponent bit set, no fraction bit.
pub const INFINITY: u64 = 0x7FF0_0000_0000_0000;

/// Whether the sign bit is set.
pub open spec fn is_negative(bits: u64) -> bool {
    bits >= SIGN_BIT
}

/// The pattern without its sign bit. Among patterns of equal sign that are
/// numbers, a larger magnitude is a number further from zero.
pub open spec fn magnitude(bits: u64) -> int {
    if bits >= SIGN_BIT {
        bits - SIGN_BIT
    } else {
        bits as int
    }
}

/// Whether the pattern is not a number: every exponent bit set and some
/// fraction bit too.
pub open spec fn is_nan(bits: u64) -> bool {
    magnitude(bits) > INFINITY
}

/// The numeric order `a <= b`. Nothing compares with a NaN, and the two
/// zeros are equal.
pub open spec fn le(a: u64, b: u64) -> bool {
    &&& !is_nan(a)
    &&& !is_nan(b)
    &&& if magnitude(a) == 0 && magnitude(b) == 0 {
        true
    } else if is_negative(a) != is_negative(b) {
        is_negative(a)
    } else if is_negative(a) {
        magnitude(a) >= magnitude(b)
    } else {
        magnitude(a) <= magnitude(b)
    }
}

/// Whether each value of the sequence is at most the one after it.
pub open spec fn non_decreasing(values: Seq<u64>) -> bool {
    forall|i: int| 0 < i < values.len() ==> le(values[i - 1], #[trigger] values[i])
}

/// Decides `is_nan`.
pub fn not_a_number(bits: u64) -> (nan: bool)
    ensures
        nan == is_nan(bits),
{
    let magnitude: u64 = if bits >= SIGN_BIT {
        bits - SIGN_BIT
    } else {
        bits
    };
    magnitude > INFINITY
}

/// Decides the numeric order of two patterns.
pub fn less_or_equal(a: u64, b: u64) -> (ordered: bool)
    ensures
        ordered == le(a, b),
{
    if not_a_number(a) || not_a_number(b) {
        return false;
    }
    let a_negative = a >= SIGN_BIT;
    let b_negative = b >= SIGN_BIT;
    let a_magnitude: u64 = if a_negative {
        a - SIGN_BIT
    } else {
        a
    };
    let b_magnitude: u64 = if b_negative {
        b - SIGN_BIT
    } else {
        b
    };
    if a_magnitude == 0 && b_magnitude == 0 {
        true
    } else if a_negative != b_negative {
        a_negative
    } else if a_negative {
        a_magnitude >= b_magnitude
    } else {
        a_magnitude <= b_magnitude
    }
}

/// Decides whether a run of patterns is in non-decreasing numeric order.
pub fn is_non_decreasing(values: &Vec<u64>) -> (ordered: bool)
    ensures
        ordered == non_decreasing(values@),
{
    let mut i: usize = 1;
    while i < values.len()
        invariant
            1 <= i,
            forall|k: int| 0 < k < i && k < values.len() ==> le(values@[k - 1], #[trigger] values@[k]),
        decreases values.len() - i,
    {
        if !less_or_equal(values[i - 1], values[i]) {
            return false;
        }
        i += 1;
    }
    true
}

/// The order is transitive.
pub proof fn lemma_le_transitive(a: u64, b: u64, c: u64)
    requires
        le(a, b),
        le(b, c),
    ensures
        le(a, c),
{
}

/// In a non-decreasing run every value is at most every later one, not only
/// the next.
pub proof fn lemma_non_decreasing_is_sorted(values: Seq<u64>, i: int, j: int)
    requires
        non_decreasing(values),
        0 <= i < j < values.len(),
    ensures
        le(values[i], values[j]),
    decreases j - i,
{
    if i + 1 < j {
        lemma_non_decreasing_is_sorted(values, i, j - 1);
        lemma_le_transitive(values[i], values[j - 1], values[j]);
    }
}

} // verus!
