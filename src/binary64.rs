//! IEEE-754 binary64 values held as their bit patterns (`f64::to_bits`).
//!
//! The magnitude bits of a binary64 value grow with its absolute value, so
//! for values that are not NaN, `x < y` as numbers exactly when
//! `rank(x) < rank(y)`, where the rank is the magnitude bits with the sign
//! applied; both zeros have rank zero.

use vstd::prelude::*;

verus! {

/// The sign bit.
pub const SIGN_BIT: u64 = 0x8000_0000_0000_0000;

/// Bits of positive infinity; every larger magnitude is a NaN.
pub const INFINITY_BITS: u64 = 0x7ff0_0000_0000_0000;

/// Bits of 0.0.
pub const ZERO_BITS: u64 = 0;

/// Bits of 1.0.
pub const ONE_BITS: u64 = 0x3ff0_0000_0000_0000;

/// Bits of 2.0.
pub const TWO_BITS: u64 = 0x4000_0000_0000_0000;

/// Bits of -2.0.
pub const MINUS_TWO_BITS: u64 = 0xc000_0000_0000_0000;

/// The bits below the sign bit: exponent and fraction.
pub open spec fn magnitude(b: u64) -> int {
    if b >= SIGN_BIT {
        b - SIGN_BIT
    } else {
        b as int
    }
}

/// Exponent all ones and a fraction that is not zero.
pub open spec fn is_nan(b: u64) -> bool {
    magnitude(b) > INFINITY_BITS
}

/// A number that orders non-NaN values as the values themselves are ordered.
pub open spec fn rank(b: u64) -> int {
    if b >= SIGN_BIT {
        -magnitude(b)
    } else {
        magnitude(b)
    }
}

/// `x` is a number with `lo <= x <= hi`.
pub open spec fn within(x: u64, lo: u64, hi: u64) -> bool {
    !is_nan(x) && rank(lo) <= rank(x) && rank(x) <= rank(hi)
}

fn rank_of(b: u64) -> (r: i128)
    ensures
        r == rank(b),
{
    if b >= SIGN_BIT {
        -((b - SIGN_BIT) as i128)
    } else {
        b as i128
    }
}

/// Whether `x` lies in the closed range from `lo` to `hi`; a NaN lies in no
/// range.
pub fn within_closed(x: u64, lo: u64, hi: u64) -> (r: bool)
    ensures
        r == within(x, lo, hi),
{
    let m: u64 = if x >= SIGN_BIT {
        x - SIGN_BIT
    } else {
        x
    };
    if m > INFINITY_BITS {
        return false;
    }
    let rx = rank_of(x);
    rank_of(lo) <= rx && rx <= rank_of(hi)
}

} // verus!
