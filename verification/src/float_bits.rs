//! Bit-level model of IEEE-754 double-precision encodings.
//!
//! Coordinates and ellipsoid parameters travel through this crate as the raw
//! 64-bit encodings of double-precision values.  The arithmetic on such values
//! is performed outside the verified library, but classification, ordering and
//! absolute value are exact integer functions of the encoding alone, so they
//! are defined and verified here and every decision the library takes (zone
//! selection, latitude clamping, hemisphere handling, ellipsoid comparison)
//! is proved against them.
//!
//! An encoding splits into a sign bit and a 63-bit magnitude.  Two encodings
//! compare the way the values they encode compare: NaN encodings are
//! unordered, zero encodings of either sign are equal, and otherwise the
//! ordering follows the signs and, within one sign, the magnitudes.

use vstd::prelude::*;

verus! {

/// The sign bit of a double-precision encoding (2^63).
pub const SIGN_BIT: u64 = 0x8000_0000_0000_0000;

/// The magnitude shared by the two infinite encodings; every larger
/// magnitude encodes a NaN.
pub const INFINITY_MAGNITUDE: u64 = 0x7FF0_0000_0000_0000;

/// Does the encoding carry a set sign bit (a negative value, `-0.0` included)?
pub open spec fn is_negative_bits(x: u64) -> bool {
    x >= SIGN_BIT
}

/// The encoding with the sign bit cleared.
pub open spec fn magnitude_bits(x: u64) -> u64 {
    x % SIGN_BIT
}

/// Does the encoding denote NaN?
pub open spec fn is_nan_bits(x: u64) -> bool {
    magnitude_bits(x) > INFINITY_MAGNITUDE
}

/// Does the encoding denote a finite value (neither NaN nor an infinity)?
pub open spec fn is_finite_bits(x: u64) -> bool {
    magnitude_bits(x) < INFINITY_MAGNITUDE
}

/// Does the encoding denote zero (of either sign)?
pub open spec fn is_zero_bits(x: u64) -> bool {
    magnitude_bits(x) == 0
}

/// Strict `<` on the encoded values.  False whenever either side is NaN;
/// `-0.0` and `+0.0` are equal.
pub open spec fn lt_bits(a: u64, b: u64) -> bool {
    &&& !is_nan_bits(a)
    &&& !is_nan_bits(b)
    &&& if is_negative_bits(a) && is_negative_bits(b) {
            magnitude_bits(b) < magnitude_bits(a)
        } else if !is_negative_bits(a) && !is_negative_bits(b) {
            magnitude_bits(a) < magnitude_bits(b)
        } else if is_negative_bits(a) {
            !(is_zero_bits(a) && is_zero_bits(b))
        } else {
            false
        }
}

/// Strict `>` on the encoded values.
pub open spec fn gt_bits(a: u64, b: u64) -> bool {
    lt_bits(b, a)
}

/// `>=` on the encoded values: both sides ordered and `<` does not hold.
pub open spec fn ge_bits(a: u64, b: u64) -> bool {
    &&& !is_nan_bits(a)
    &&& !is_nan_bits(b)
    &&& !lt_bits(a, b)
}

/// Classification: NaN test on an encoding.
pub fn bits_is_nan(x: u64) -> (r: bool)
    ensures
        r == is_nan_bits(x),
{
    x % SIGN_BIT > INFINITY_MAGNITUDE
}

/// Classification: finiteness test on an encoding.
pub fn bits_is_finite(x: u64) -> (r: bool)
    ensures
        r == is_finite_bits(x),
{
    x % SIGN_BIT < INFINITY_MAGNITUDE
}

/// Absolute value on encodings: clearing the sign bit is exact.
pub fn bits_abs(x: u64) -> (r: u64)
    ensures
        r == magnitude_bits(x),
{
    x % SIGN_BIT
}

/// Strict `<` on two encodings.
pub fn bits_lt(a: u64, b: u64) -> (r: bool)
    ensures
        r == lt_bits(a, b),
{
    let ma = a % SIGN_BIT;
    let mb = b % SIGN_BIT;
    if ma > INFINITY_MAGNITUDE || mb > INFINITY_MAGNITUDE {
        false
    } else if a >= SIGN_BIT && b >= SIGN_BIT {
        mb < ma
    } else if a < SIGN_BIT && b < SIGN_BIT {
        ma < mb
    } else if a >= SIGN_BIT {
        !(ma == 0 && mb == 0)
    } else {
        false
    }
}

/// Strict `>` on two encodings.
pub fn bits_gt(a: u64, b: u64) -> (r: bool)
    ensures
        r == gt_bits(a, b),
{
    bits_lt(b, a)
}

/// `>=` on two encodings.
pub fn bits_ge(a: u64, b: u64) -> (r: bool)
    ensures
        r == ge_bits(a, b),
{
    let ma = a % SIGN_BIT;
    let mb = b % SIGN_BIT;
    if ma > INFINITY_MAGNITUDE || mb > INFINITY_MAGNITUDE {
        false
    } else {
        !bits_lt(a, b)
    }
}

} // verus!
