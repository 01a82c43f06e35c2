//! The rounding family of the kernel, built from the exact truncating cast:
//! truncation is the round trip through `i32`, and floor, ceiling, rounding
//! and the fractional part are stated over it.

use vstd::prelude::*;

verus! {

use crate::arith::add_of;
use crate::arith::sub_of;
use crate::arith::mul_of;
use crate::arith::div_of;
use crate::arith::add_bits;
use crate::arith::sub_bits;
use crate::arith::mul_bits;
use crate::arith::div_bits;
use crate::ieee;
use crate::ieee::POS_ZERO;
use crate::ieee::NEG_ZERO;
use crate::ieee::ONE_BITS;
use crate::ieee::lt_bits;
use crate::ieee::le_bits;
use crate::ieee::eq_bits;
use crate::ieee::is_finite_bits;
use crate::ieee::from_i32_bits;
use crate::ieee::to_i32_cast;
use crate::math::Math;
use crate::math::spec_sign;
use crate::math::HALF_BITS;
use crate::math::TEN_BITS;
use crate::explog::spec_pow_i32;

/// What `trunc` returns: the value carried to `i32` with the saturating
/// truncating cast and back.
pub open spec fn spec_trunc(a: u32) -> u32 {
    from_i32_bits(to_i32_cast(a))
}

/// What `floor` returns: the truncation, moved one down when the value is
/// negative and not already integral.
pub open spec fn spec_floor(a: u32) -> u32 {
    let t = spec_trunc(a);
    if eq_bits(t, a) {
        t
    } else if lt_bits(a, POS_ZERO) {
        sub_of(t, ONE_BITS)
    } else {
        t
    }
}

/// What `ceil` returns: the truncation, moved one up when the value is
/// positive and not already integral.
pub open spec fn spec_ceil(a: u32) -> u32 {
    let t = spec_trunc(a);
    if eq_bits(t, a) {
        t
    } else if lt_bits(a, POS_ZERO) {
        t
    } else {
        add_of(t, ONE_BITS)
    }
}

/// What `fract` returns: the value minus its floor.
pub open spec fn spec_fract(a: u32) -> u32 {
    sub_of(a, spec_floor(a))
}

/// What `round` returns: ties go away from zero.
pub open spec fn spec_round(a: u32) -> u32 {
    let t = spec_trunc(a);
    let f0 = spec_fract(a);
    let f = if lt_bits(a, POS_ZERO) && lt_bits(POS_ZERO, f0) {
        sub_of(ONE_BITS, f0)
    } else {
        f0
    };
    if le_bits(HALF_BITS, f) {
        add_of(t, spec_sign(a))
    } else {
        t
    }
}

/// What `round_to_digit` returns: the digit count is clamped to [-15, 15],
/// the value is scaled by that power of ten, rounded with ties away from
/// zero, and scaled back.
pub open spec fn spec_round_to_digit(a: u32, digits: int) -> u32 {
    let d = if digits < -15 {
        -15
    } else if digits > 15 {
        15
    } else {
        digits
    };
    let pow10 = spec_pow_i32(TEN_BITS, d);
    let powered = mul_of(a, pow10);
    let f0 = spec_fract(powered);
    let t = spec_trunc(powered);
    if eq_bits(f0, POS_ZERO) {
        a
    } else {
        let f = if lt_bits(a, POS_ZERO) {
            sub_of(ONE_BITS, f0)
        } else {
            f0
        };
        if le_bits(HALF_BITS, f) {
            div_of(add_of(t, spec_sign(a)), pow10)
        } else {
            div_of(t, pow10)
        }
    }
}

/// What `repeat` returns: values inside the range pass through, values
/// outside wrap around by the fractional part of their offset in range
/// lengths.
pub open spec fn spec_repeat(value: u32, start: u32, end: u32) -> u32 {
    if le_bits(start, value) && le_bits(value, end) {
        value
    } else {
        let x = sub_of(value, start);
        let distance = sub_of(end, start);
        let f = spec_fract(mul_of(x, div_of(ONE_BITS, distance)));
        if lt_bits(x, POS_ZERO) {
            sub_of(end, mul_of(distance, f))
        } else {
            add_of(mul_of(distance, f), start)
        }
    }
}

impl Math {
    /// Truncates the value toward zero, through the saturating `i32` cast.
    pub fn trunc(value: u32) -> (r: u32)
        ensures
            r == spec_trunc(value),
            is_finite_bits(r),
            r != NEG_ZERO,
    {
        proof {
            ieee::lemma_from_i32_fields(to_i32_cast(value));
        }
        ieee::i32_to_f32(ieee::f32_to_i32(value))
    }

    /// Gets the largest integer number that is less than or equal to the
    /// given number.
    pub fn floor(value: u32) -> (r: u32)
        ensures
            r == spec_floor(value),
    {
        let truncated = Math::trunc(value);
        if ieee::eq_val(truncated, value) {
            return truncated;
        }
        let step = if ieee::lt(value, POS_ZERO) {
            ONE_BITS
        } else {
            POS_ZERO
        };
        sub_bits(truncated, step)
    }

    /// Gets the smallest integer number that is greater than or equal to the
    /// given number.
    pub fn ceil(value: u32) -> (r: u32)
        ensures
            r == spec_ceil(value),
    {
        let truncated = Math::trunc(value);
        if ieee::eq_val(truncated, value) {
            return truncated;
        }
        let step = if ieee::lt(value, POS_ZERO) {
            POS_ZERO
        } else {
            ONE_BITS
        };
        add_bits(truncated, step)
    }

    /// Gets the fractional part of the value.
    pub fn fract(value: u32) -> (r: u32)
        ensures
            r == spec_fract(value),
    {
        sub_bits(value, Math::floor(value))
    }

    /// Rounds the given value to the nearest integer, ties away from zero.
    pub fn round(value: u32) -> (r: u32)
        ensures
            r == spec_round(value),
    {
        let mut fraction = Math::fract(value);
        let truncated = Math::trunc(value);
        if ieee::lt(value, POS_ZERO) && ieee::gt(fraction, POS_ZERO) {
            fraction = sub_bits(ONE_BITS, fraction);
        }
        if ieee::ge(fraction, HALF_BITS) {
            add_bits(truncated, Math::sign(value))
        } else {
            truncated
        }
    }

    /// Rounds the value to the given number of digits past the decimal
    /// point; the digit count is clamped between -15 and 15.
    pub fn round_to_digit(value: u32, digits: i32) -> (r: u32)
        ensures
            r == spec_round_to_digit(value, digits as int),
    {
        let d: i32 = if digits < -15 {
            -15
        } else if digits > 15 {
            15
        } else {
            digits
        };
        let pow10 = Math::pow_i32(TEN_BITS, d);
        let powered = mul_bits(value, pow10);
        let mut fraction = Math::fract(powered);
        let truncated = Math::trunc(powered);
        if ieee::eq_val(fraction, POS_ZERO) {
            return value;
        }
        if ieee::lt(value, POS_ZERO) {
            fraction = sub_bits(ONE_BITS, fraction);
        }
        if ieee::ge(fraction, HALF_BITS) {
            div_bits(add_bits(truncated, Math::sign(value)), pow10)
        } else {
            div_bits(truncated, pow10)
        }
    }

    /// Repeats the value around the range, keeping it within the range.
    pub fn repeat(value: u32, start: u32, end: u32) -> (r: u32)
        ensures
            r == spec_repeat(value, start, end),
    {
        if ieee::ge(value, start) && ieee::le(value, end) {
            return value;
        }
        let x = sub_bits(value, start);
        let distance = sub_bits(end, start);
        let f = Math::fract(mul_bits(x, div_bits(ONE_BITS, distance)));
        if ieee::lt(x, POS_ZERO) {
            sub_bits(end, mul_bits(distance, f))
        } else {
            add_bits(mul_bits(distance, f), start)
        }
    }
}

} // verus!
