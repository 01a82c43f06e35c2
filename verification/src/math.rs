//! The scalar kernel: stateless functions over single-precision values given
//! as bit patterns. Comparison-driven functions (absolute value, sign, min,
//! max, clamp) are pinned down exactly; functions built from rounding
//! arithmetic state their result as the precise composition of the named
//! IEEE-754 operations that the algorithm performs.

use vstd::prelude::*;

verus! {

use crate::arith::add_of;
use crate::arith::sub_of;
use crate::arith::mul_of;
use crate::arith::div_of;
use crate::arith::add_bits;
use crate::arith::sub_bits;
use crate::arith::mul_bits;
use crate::arith::div_bits;
use crate::ieee;
use crate::ieee::POS_ZERO;
use crate::ieee::NEG_ZERO;
use crate::ieee::ONE_BITS;
use crate::ieee::lt_bits;
use crate::ieee::le_bits;
use crate::ieee::neg_bits;
use crate::ieee::is_nan_bits;

/// A "static" structure holding the scalar kernel. Every function takes and
/// returns single-precision values as their raw IEEE-754 bit patterns.
pub struct Math;

/// Bit pattern of 0.5.
pub const HALF_BITS: u32 = 0x3F00_0000;
/// Bit pattern of -1.0.
pub const NEG_ONE_BITS: u32 = 0xBF80_0000;
/// Bit pattern of 2.0.
pub const TWO_BITS: u32 = 0x4000_0000;
/// Bit pattern of 3.0.
pub const THREE_BITS: u32 = 0x4040_0000;
/// Bit pattern of 10.0.
pub const TEN_BITS: u32 = 0x4120_0000;
/// Bit pattern of 1e-6, the default tolerance of `approx`.
pub const APPROX_EPSILON_BITS: u32 = 0x3586_37BD;

// Constants
impl Math {
    /// Bit pattern of the archimedean constant.
    pub const PI: u32 = 0x4049_0FDB;

    /// Bit pattern of half the archimedean constant.
    pub const PI_OVER_2: u32 = 0x3FC9_0FDB;

    /// Bit pattern of a quarter of the archimedean constant.
    pub const PI_OVER_4: u32 = 0x3F49_0FDB;

    /// Bit pattern of twice the archimedean constant.
    pub const TWO_PI: u32 = 0x40C9_0FDB;

    /// Bit pattern of Euler's number.
    pub const E: u32 = 0x402D_F854;

    /// Bit pattern of the factor from degrees to radians.
    pub const DEG_TO_RAD: u32 = 0x3C8E_FA35;

    /// Bit pattern of the factor from radians to degrees.
    pub const RAD_TO_DEG: u32 = 0x4265_2EE1;

    /// Bit pattern of the natural logarithm of 2.
    pub const LN2: u32 = 0x3F31_7218;

    /// Bit pattern of the natural logarithm of 10.
    pub const LN10: u32 = 0x4013_5D8E;
}

/// What `abs` returns: the operand, negated when it compares below +0;
/// in particular a NaN keeps its sign.
pub open spec fn spec_abs(value: u32) -> u32 {
    if lt_bits(value, POS_ZERO) {
        neg_bits(value)
    } else {
        value
    }
}

/// What `sign` returns: NaN stays NaN, values that compare at or below
/// -0 map to -1.0, everything else to 1.0.
pub open spec fn spec_sign(value: u32) -> u32 {
    if is_nan_bits(value) {
        value
    } else if le_bits(value, NEG_ZERO) {
        NEG_ONE_BITS
    } else {
        ONE_BITS
    }
}

/// What `max` returns: a NaN operand is ignored in favour of the other;
/// otherwise the operand that does not compare below the other.
pub open spec fn spec_max(a: u32, b: u32) -> u32 {
    if is_nan_bits(a) {
        b
    } else if is_nan_bits(b) {
        a
    } else if lt_bits(a, b) {
        b
    } else {
        a
    }
}

/// What `min` returns: a NaN operand is ignored in favour of the other;
/// otherwise the operand that does not compare above the other.
pub open spec fn spec_min(a: u32, b: u32) -> u32 {
    if is_nan_bits(a) {
        b
    } else if is_nan_bits(b) {
        a
    } else if lt_bits(b, a) {
        b
    } else {
        a
    }
}

/// What `clamp` returns for an ordered, non-NaN range: the value pushed
/// into the range, with a NaN value passed through.
pub open spec fn spec_clamp(value: u32, min_val: u32, max_val: u32) -> u32 {
    if lt_bits(value, min_val) {
        min_val
    } else if lt_bits(max_val, value) {
        max_val
    } else {
        value
    }
}

/// Whether the distance of the two values compares below the tolerance.
pub open spec fn spec_approx_epsilon(a: u32, b: u32, epsilon: u32) -> bool {
    lt_bits(spec_abs(sub_of(a, b)), epsilon)
}

impl Math {
    /// Gets the absolute value of the number: the operand negated when it
    /// compares below +0.
    pub fn abs(value: u32) -> (r: u32)
        ensures
            r == spec_abs(value),
    {
        if ieee::lt(value, POS_ZERO) {
            ieee::neg(value)
        } else {
            value
        }
    }

    /// Gets the absolute value of a 32-bit integer.
    pub fn abs_i32(value: i32) -> (r: i32)
        requires
            value != i32::MIN,
        ensures
            r == if value < 0 { -(value as int) } else { value as int },
    {
        if value < 0 {
            -value
        } else {
            value
        }
    }

    /// Finds if the two values are approximately close to each other,
    /// with tolerance 1e-6.
    pub fn approx(a: u32, b: u32) -> (r: bool)
        ensures
            r == spec_approx_epsilon(a, b, APPROX_EPSILON_BITS),
    {
        ieee::lt(Math::abs(sub_bits(a, b)), APPROX_EPSILON_BITS)
    }

    /// Finds if the two values are approximately close to each other,
    /// with the provided tolerance.
    pub fn approx_epsilon(a: u32, b: u32, epsilon: u32) -> (r: bool)
        ensures
            r == spec_approx_epsilon(a, b, epsilon),
    {
        ieee::lt(Math::abs(sub_bits(a, b)), epsilon)
    }

    /// Gets the sign of the given value: 1.0 when positive, -1.0 when
    /// negative or negative zero, NaN kept as it is.
    pub fn sign(value: u32) -> (r: u32)
        ensures
            r == spec_sign(value),
    {
        if ieee::is_nan(value) {
            return value;
        }
        if ieee::le(value, NEG_ZERO) {
            NEG_ONE_BITS
        } else {
            ONE_BITS
        }
    }

    /// Gets the maximum of the two values, ignoring a NaN operand.
    pub fn max(a: u32, b: u32) -> (r: u32)
        ensures
            r == spec_max(a, b),
    {
        if ieee::is_nan(a) {
            return b;
        }
        if ieee::is_nan(b) {
            return a;
        }
        if ieee::lt(a, b) {
            b
        } else {
            a
        }
    }

    /// Gets the minimum of the two values, ignoring a NaN operand.
    pub fn min(a: u32, b: u32) -> (r: u32)
        ensures
            r == spec_min(a, b),
    {
        if ieee::is_nan(a) {
            return b;
        }
        if ieee::is_nan(b) {
            return a;
        }
        if ieee::lt(b, a) {
            b
        } else {
            a
        }
    }

    /// Gets the minimum and maximum value as a correctly sorted tuple.
    pub fn min_max(a: u32, b: u32) -> (r: (u32, u32))
        ensures
            r.0 == spec_min(a, b),
            r.1 == spec_max(a, b),
    {
        (Math::min(a, b), Math::max(a, b))
    }

    /// Clamps the value between the min and max values. The bounds must be
    /// ordered and free of NaN, as the standard clamp demands.
    pub fn clamp(value: u32, min_val: u32, max_val: u32) -> (r: u32)
        requires
            le_bits(min_val, max_val),
        ensures
            r == spec_clamp(value, min_val, max_val),
    {
        if ieee::lt(value, min_val) {
            min_val
        } else if ieee::lt(max_val, value) {
            max_val
        } else {
            value
        }
    }

    /// Linearly interpolates between the first and second values, with the
    /// ratio clamped between 0.0 and 1.0.
    pub fn lerp(a: u32, b: u32, t: u32) -> (r: u32)
        ensures
            r == add_of(a, mul_of(spec_clamp(t, POS_ZERO, ONE_BITS), sub_of(b, a))),
    {
        proof {
            ieee::lemma_fields(POS_ZERO);
            ieee::lemma_fields(ONE_BITS);
        }
        Math::lerp_unclamped(a, b, Math::clamp(t, POS_ZERO, ONE_BITS))
    }

    /// Linearly interpolates between the first and second values.
    pub fn lerp_unclamped(a: u32, b: u32, t: u32) -> (r: u32)
        ensures
            r == add_of(a, mul_of(t, sub_of(b, a))),
    {
        add_bits(a, mul_bits(t, sub_bits(b, a)))
    }

    /// Converts the value from degrees to radians.
    pub fn deg2rad(degrees: u32) -> (r: u32)
        ensures
            r == mul_of(Math::DEG_TO_RAD, degrees),
    {
        mul_bits(Math::DEG_TO_RAD, degrees)
    }

    /// Converts the value from radians to degrees.
    pub fn rad2deg(radians: u32) -> (r: u32)
        ensures
            r == mul_of(Math::RAD_TO_DEG, radians),
    {
        mul_bits(Math::RAD_TO_DEG, radians)
    }

    /// Maps the value from one range into another range.
    pub fn map(value: u32, in_start: u32, in_end: u32, out_start: u32, out_end: u32) -> (r: u32)
        ensures
            r == add_of(
                div_of(
                    mul_of(sub_of(value, in_start), sub_of(out_end, out_start)),
                    sub_of(in_end, in_start),
                ),
                out_start,
            ),
    {
        add_bits(
            div_bits(
                mul_bits(sub_bits(value, in_start), sub_bits(out_end, out_start)),
                sub_bits(in_end, in_start),
            ),
            out_start,
        )
    }

    /// Computes a smooth Hermite interpolation between 0.0 and 1.0.
    pub fn smoothstep(value: u32, left_edge: u32, right_edge: u32) -> (r: u32)
        ensures
            ({
                let y = spec_clamp(
                    div_of(sub_of(value, left_edge), sub_of(right_edge, left_edge)),
                    POS_ZERO,
                    ONE_BITS,
                );
                r == mul_of(mul_of(y, y), sub_of(THREE_BITS, mul_of(TWO_BITS, y)))
            }),
    {
        proof {
            ieee::lemma_fields(POS_ZERO);
            ieee::lemma_fields(ONE_BITS);
        }
        let y = Math::clamp(
            div_bits(sub_bits(value, left_edge), sub_bits(right_edge, left_edge)),
            POS_ZERO,
            ONE_BITS,
        );
        mul_bits(mul_bits(y, y), sub_bits(THREE_BITS, mul_bits(TWO_BITS, y)))
    }
}

} // verus!
