//! The trigonometric functions of the kernel: sine and cosine come from one
//! CORDIC rotation of 28 fixed micro-steps after reflecting the angle into
//! [-pi/2, pi/2]; the inverse functions use fixed minimax polynomials with
//! quadrant and sign correction; the hyperbolic functions are built on the
//! exponential. Domain violations return NaN or infinity exactly as stated.

use vstd::prelude::*;

verus! {

use crate::arith::add_of;
use crate::arith::sub_of;
use crate::arith::mul_of;
use crate::arith::div_of;
use crate::arith::add_bits;
use crate::arith::sub_bits;
use crate::arith::mul_bits;
use crate::arith::div_bits;
use crate::ieee;
use crate::ieee::POS_ZERO;
use crate::ieee::NEG_ZERO;
use crate::ieee::ONE_BITS;
use crate::ieee::INF_BITS;
use crate::ieee::NEG_INF_BITS;
use crate::ieee::NAN_BITS;
use crate::ieee::lt_bits;
use crate::ieee::le_bits;
use crate::ieee::eq_bits;
use crate::ieee::neg_bits;
use crate::ieee::is_nan_bits;
use crate::ieee::is_infinite_bits;
use crate::math::Math;
use crate::math::spec_abs;
use crate::math::spec_max;
use crate::math::spec_min;
use crate::math::HALF_BITS;
use crate::math::NEG_ONE_BITS;
use crate::math::TWO_BITS;
use crate::explog::spec_exp;
use crate::explog::spec_ln;
use crate::explog::spec_sqrt;
use crate::explog::spec_pow_i32;

/// Bit pattern of -pi/2.
pub const NEG_PI_OVER_2_BITS: u32 = 0xBFC9_0FDB;

/// Bit pattern of the CORDIC scaling constant, the product of the cosines
/// of the 28 micro-rotation angles.
pub const CORDIC_K_BITS: u32 = 0x3F1B_74EE;

/// The number of reflections by pi that the angle reduction may take; far
/// more than any angle a caller can hand in without the step rounding away.
pub const ANGLE_REDUCE_FUEL: u32 = 1_000_000;

/// The pre-calculated arc tangent of 2^-i for each CORDIC round.
pub open spec fn spec_atan_cordic(index: int) -> u32 {
    if index == 0 {
        0x3F49_0FDB
    } else if index == 1 {
        0x3EED_6338
    } else if index == 2 {
        0x3E7A_DBB0
    } else if index == 3 {
        0x3DFE_ADD5
    } else if index == 4 {
        0x3D7F_AADE
    } else if index == 5 {
        0x3CFF_EAAE
    } else if index == 6 {
        0x3C7F_FAAB
    } else if index == 7 {
        0x3BFF_FEAB
    } else if index == 8 {
        0x3B7F_FFAB
    } else if index == 9 {
        0x3AFF_FFEB
    } else if index == 10 {
        0x3A7F_FFFB
    } else if index == 11 {
        0x39FF_FFFF
    } else if index == 12 {
        0x3980_0000
    } else if index == 13 {
        0x3900_0000
    } else if index == 14 {
        0x3880_0000
    } else if index == 15 {
        0x3800_0000
    } else if index == 16 {
        0x3780_0000
    } else if index == 17 {
        0x3700_0000
    } else if index == 18 {
        0x3680_0000
    } else if index == 19 {
        0x3600_0000
    } else if index == 20 {
        0x3580_0000
    } else if index == 21 {
        0x3500_0000
    } else if index == 22 {
        0x3480_0000
    } else if index == 23 {
        0x3400_0000
    } else if index == 24 {
        0x337F_FFFF
    } else if index == 25 {
        0x32FF_FFFF
    } else if index == 26 {
        0x327F_FFFF
    } else if index == 27 {
        0x31FF_FFFF
    } else {
        POS_ZERO
    }
}

/// The CORDIC state (cosine, sine, residual angle) after `i` micro-rotations
/// on the reduced angle.
pub open spec fn spec_cordic_state(a: u32, i: nat) -> (u32, u32, u32)
    decreases i,
{
    if i == 0 {
        (CORDIC_K_BITS, POS_ZERO, a)
    } else {
        let prev = spec_cordic_state(a, (i - 1) as nat);
        let j = (i - 1) as int;
        let di = if le_bits(prev.2, POS_ZERO) {
            NEG_ONE_BITS
        } else {
            ONE_BITS
        };
        let step = spec_pow_i32(TWO_BITS, -j);
        (
            sub_of(prev.0, mul_of(mul_of(prev.1, di), step)),
            add_of(prev.1, mul_of(mul_of(prev.0, di), step)),
            sub_of(prev.2, mul_of(di, spec_atan_cordic(j))),
        )
    }
}

/// The reflection of an angle through pi until it lies in [-pi/2, pi/2],
/// bounded by the given fuel, together with the parity of the reflections.
pub open spec fn spec_angle_reduce(a: u32, flip: bool, fuel: nat) -> (u32, bool)
    decreases fuel,
{
    if fuel == 0 {
        (a, flip)
    } else if lt_bits(a, NEG_PI_OVER_2_BITS) {
        spec_angle_reduce(add_of(a, Math::PI), !flip, (fuel - 1) as nat)
    } else if lt_bits(Math::PI_OVER_2, a) {
        spec_angle_reduce(sub_of(a, Math::PI), !flip, (fuel - 1) as nat)
    } else {
        (a, flip)
    }
}

/// What `sin_cos` returns: the CORDIC sine and cosine of the reduced angle,
/// both negated when the angle was reflected an odd number of times.
pub open spec fn spec_sin_cos(a: u32) -> (u32, u32) {
    let red = spec_angle_reduce(a, false, ANGLE_REDUCE_FUEL as nat);
    let st = spec_cordic_state(red.0, 28);
    if red.1 {
        (neg_bits(st.1), neg_bits(st.0))
    } else {
        (st.1, st.0)
    }
}

/// What `acos` returns: NaN outside [-1, 1], otherwise the minimax
/// polynomial in the absolute value of the input with sign correction.
pub open spec fn spec_acos(v: u32) -> u32 {
    if lt_bits(v, NEG_ONE_BITS) || lt_bits(ONE_BITS, v) {
        NAN_BITS
    } else {
        let negate = if le_bits(v, NEG_ZERO) {
            ONE_BITS
        } else {
            POS_ZERO
        };
        let x = spec_abs(v);
        let p = mul_of(
            add_of(
                mul_of(sub_of(mul_of(add_of(mul_of(0xBC99_6E30, x), 0x3D98_1627), x), 0x3E59_3484), x),
                Math::PI_OVER_2,
            ),
            spec_sqrt(sub_of(ONE_BITS, x)),
        );
        let corrected = sub_of(p, mul_of(mul_of(TWO_BITS, negate), p));
        add_of(mul_of(negate, Math::PI), corrected)
    }
}

/// What `asin` returns: NaN outside [-1, 1], otherwise the minimax
/// polynomial in the absolute value of the input with sign correction.
pub open spec fn spec_asin(v: u32) -> u32 {
    if lt_bits(v, NEG_ONE_BITS) || lt_bits(ONE_BITS, v) {
        NAN_BITS
    } else {
        let negate = if lt_bits(v, POS_ZERO) {
            ONE_BITS
        } else {
            POS_ZERO
        };
        let x = spec_abs(v);
        let poly = add_of(
            mul_of(sub_of(mul_of(add_of(mul_of(0xBC99_6E30, x), 0x3D98_1627), x), 0x3E59_3484), x),
            Math::PI_OVER_2,
        );
        let angle = sub_of(
            mul_of(Math::PI, HALF_BITS),
            mul_of(spec_sqrt(sub_of(ONE_BITS, x)), poly),
        );
        sub_of(angle, mul_of(mul_of(TWO_BITS, negate), angle))
    }
}

/// What `atan2` returns: zero when both arguments are zero (the documented
/// convention for that corner), otherwise the odd minimax polynomial on the
/// ratio of the smaller to the larger magnitude, with quadrant correction
/// from the signs.
pub open spec fn spec_atan2(y: u32, x: u32) -> u32 {
    if eq_bits(y, POS_ZERO) && eq_bits(x, POS_ZERO) {
        POS_ZERO
    } else {
        spec_atan2_poly(y, x)
    }
}

/// The polynomial path of `atan2` on arguments that are not both zero.
pub open spec fn spec_atan2_poly(y: u32, x: u32) -> u32 {
    let ax = spec_abs(x);
    let ay = spec_abs(y);
    let c0 = spec_max(ax, ay);
    let b = spec_min(ax, ay);
    let a = mul_of(b, div_of(ONE_BITS, c0));
    let d = mul_of(a, a);
    let c = add_of(
        mul_of(
            sub_of(
                mul_of(
                    add_of(
                        mul_of(
                            sub_of(mul_of(add_of(mul_of(0xBC5C_DD30, d), 0x3D6B_6D55), d), 0x3DF8_4C31),
                            d,
                        ),
                        0x3E48_54C9,
                    ),
                    d,
                ),
                0x3EAA_7E45,
            ),
            d,
        ),
        0x3F7F_FFB7,
    );
    let a1 = mul_of(a, c);
    let a2 = if lt_bits(spec_abs(x), spec_abs(y)) {
        sub_of(Math::PI_OVER_2, a1)
    } else {
        a1
    };
    let a3 = if lt_bits(x, POS_ZERO) {
        sub_of(Math::PI, a2)
    } else {
        a2
    };
    if lt_bits(y, POS_ZERO) {
        mul_of(a3, NEG_ONE_BITS)
    } else {
        a3
    }
}

/// What `cosh` returns: (e^x + e^-x)/2, with the sign of the input deciding
/// the infinity when the exponential overflows.
pub open spec fn spec_cosh(v: u32) -> u32 {
    let e = spec_exp(v);
    if is_infinite_bits(e) || is_nan_bits(e) {
        if lt_bits(POS_ZERO, v) {
            INF_BITS
        } else {
            NEG_INF_BITS
        }
    } else {
        mul_of(add_of(e, div_of(ONE_BITS, e)), HALF_BITS)
    }
}

/// What `sinh` returns: (e^x - e^-x)/2, with the sign of the input deciding
/// the infinity when the exponential overflows.
pub open spec fn spec_sinh(v: u32) -> u32 {
    let e = spec_exp(v);
    if is_infinite_bits(e) || is_nan_bits(e) {
        if lt_bits(POS_ZERO, v) {
            INF_BITS
        } else {
            NEG_INF_BITS
        }
    } else {
        mul_of(sub_of(e, div_of(ONE_BITS, e)), HALF_BITS)
    }
}

/// What `tanh` returns: (e^2x - 1)/(e^2x + 1), saturating at the unit when
/// the exponential overflows.
pub open spec fn spec_tanh(v: u32) -> u32 {
    let e = spec_exp(mul_of(TWO_BITS, v));
    if is_infinite_bits(e) || is_nan_bits(e) {
        if lt_bits(POS_ZERO, v) {
            ONE_BITS
        } else {
            NEG_ONE_BITS
        }
    } else {
        mul_of(sub_of(e, ONE_BITS), div_of(ONE_BITS, add_of(e, ONE_BITS)))
    }
}

impl Math {
    /// Computes the sine and cosine of the angle in radians as one CORDIC
    /// rotation; the sine comes first.
    pub fn sin_cos(angle: u32) -> (r: (u32, u32))
        ensures
            r == spec_sin_cos(angle),
    {
        let mut a = angle;
        let mut flip = false;
        let mut fuel: u32 = ANGLE_REDUCE_FUEL;
        while fuel > 0
            invariant_except_break
                spec_angle_reduce(angle, false, ANGLE_REDUCE_FUEL as nat) == spec_angle_reduce(
                    a,
                    flip,
                    fuel as nat,
                ),
            ensures
                spec_angle_reduce(angle, false, ANGLE_REDUCE_FUEL as nat) == (a, flip),
            decreases fuel,
        {
            if ieee::lt(a, NEG_PI_OVER_2_BITS) {
                a = add_bits(a, Math::PI);
            } else if ieee::gt(a, Math::PI_OVER_2) {
                a = sub_bits(a, Math::PI);
            } else {
                break;
            }
            flip = !flip;
            fuel = fuel - 1;
        }
        let mut cos = CORDIC_K_BITS;
        let mut sin = POS_ZERO;
        let mut z = a;
        let mut i: i32 = 0;
        while i < 28
            invariant
                0 <= i <= 28,
                (cos, sin, z) == spec_cordic_state(a, i as nat),
            decreases 28 - i,
        {
            let di = if ieee::le(z, POS_ZERO) {
                NEG_ONE_BITS
            } else {
                ONE_BITS
            };
            let step = Math::pow_i32(TWO_BITS, -i);
            let new_cos = sub_bits(cos, mul_bits(mul_bits(sin, di), step));
            let new_sin = add_bits(sin, mul_bits(mul_bits(cos, di), step));
            cos = new_cos;
            sin = new_sin;
            z = sub_bits(z, mul_bits(di, get_atan_for_cordic(i)));
            i = i + 1;
        }
        if flip {
            (ieee::neg(sin), ieee::neg(cos))
        } else {
            (sin, cos)
        }
    }

    /// Computes the sine and cosine of the angle in degrees; the sine comes
    /// first.
    pub fn sin_cos_deg(angle: u32) -> (r: (u32, u32))
        ensures
            r == spec_sin_cos(mul_of(Math::DEG_TO_RAD, angle)),
    {
        Math::sin_cos(mul_bits(Math::DEG_TO_RAD, angle))
    }

    /// Computes the sine of the given angle in radians.
    pub fn sin(angle: u32) -> (r: u32)
        ensures
            r == spec_sin_cos(angle).0,
    {
        Math::sin_cos(angle).0
    }

    /// Computes the sine of the given angle in degrees.
    pub fn sin_deg(angle: u32) -> (r: u32)
        ensures
            r == spec_sin_cos(mul_of(Math::DEG_TO_RAD, angle)).0,
    {
        Math::sin(mul_bits(Math::DEG_TO_RAD, angle))
    }

    /// Computes the cosine of the given angle in radians.
    pub fn cos(angle: u32) -> (r: u32)
        ensures
            r == spec_sin_cos(angle).1,
    {
        Math::sin_cos(angle).1
    }

    /// Computes the cosine of the given angle in degrees.
    pub fn cos_deg(angle: u32) -> (r: u32)
        ensures
            r == spec_sin_cos(mul_of(Math::DEG_TO_RAD, angle)).1,
    {
        Math::cos(mul_bits(Math::DEG_TO_RAD, angle))
    }

    /// Gets the tangent of the angle in radians.
    pub fn tan(angle: u32) -> (r: u32)
        ensures
            r == div_of(spec_sin_cos(angle).0, spec_sin_cos(angle).1),
    {
        let sc = Math::sin_cos(angle);
        div_bits(sc.0, sc.1)
    }

    /// Gets the tangent of the angle in degrees.
    pub fn tan_deg(angle: u32) -> (r: u32)
        ensures
            ({
                let a = mul_of(Math::DEG_TO_RAD, angle);
                r == div_of(spec_sin_cos(a).0, spec_sin_cos(a).1)
            }),
    {
        Math::tan(mul_bits(Math::DEG_TO_RAD, angle))
    }

    /// Computes the cotangent of the given angle in radians.
    pub fn cot(angle: u32) -> (r: u32)
        ensures
            r == div_of(ONE_BITS, div_of(spec_sin_cos(angle).0, spec_sin_cos(angle).1)),
    {
        div_bits(ONE_BITS, Math::tan(angle))
    }

    /// Computes the cotangent of the given angle in degrees.
    pub fn cot_deg(angle: u32) -> (r: u32)
        ensures
            ({
                let a = mul_of(Math::DEG_TO_RAD, angle);
                r == div_of(ONE_BITS, div_of(spec_sin_cos(a).0, spec_sin_cos(a).1))
            }),
    {
        Math::cot(mul_bits(Math::DEG_TO_RAD, angle))
    }

    /// Computes the secant of the given angle in radians.
    pub fn sec(angle: u32) -> (r: u32)
        ensures
            r == div_of(ONE_BITS, spec_sin_cos(angle).1),
    {
        div_bits(ONE_BITS, Math::cos(angle))
    }

    /// Computes the secant of the given angle in degrees.
    pub fn sec_deg(angle: u32) -> (r: u32)
        ensures
            r == div_of(ONE_BITS, spec_sin_cos(mul_of(Math::DEG_TO_RAD, angle)).1),
    {
        Math::sec(mul_bits(Math::DEG_TO_RAD, angle))
    }

    /// Computes the cosecant of the given angle in radians.
    pub fn csc(angle: u32) -> (r: u32)
        ensures
            r == div_of(ONE_BITS, spec_sin_cos(angle).0),
    {
        div_bits(ONE_BITS, Math::sin(angle))
    }

    /// Computes the cosecant of the given angle in degrees.
    pub fn csc_deg(angle: u32) -> (r: u32)
        ensures
            r == div_of(ONE_BITS, spec_sin_cos(mul_of(Math::DEG_TO_RAD, angle)).0),
    {
        Math::csc(mul_bits(Math::DEG_TO_RAD, angle))
    }

    /// Computes the arc cosine in radians; NaN outside [-1, 1].
    pub fn acos(value: u32) -> (r: u32)
        ensures
            r == spec_acos(value),
            lt_bits(value, NEG_ONE_BITS) || lt_bits(ONE_BITS, value) ==> is_nan_bits(r),
    {
        proof {
            ieee::lemma_fields(NAN_BITS);
        }
        if ieee::lt(value, NEG_ONE_BITS) || ieee::gt(value, ONE_BITS) {
            return NAN_BITS;
        }
        let negate = if ieee::le(value, NEG_ZERO) {
            ONE_BITS
        } else {
            POS_ZERO
        };
        let x = Math::abs(value);
        let mut angle = mul_bits(0xBC99_6E30, x);
        angle = add_bits(angle, 0x3D98_1627);
        angle = mul_bits(angle, x);
        angle = sub_bits(angle, 0x3E59_3484);
        angle = mul_bits(angle, x);
        angle = add_bits(angle, Math::PI_OVER_2);
        angle = mul_bits(angle, Math::sqrt(sub_bits(ONE_BITS, x)));
        angle = sub_bits(angle, mul_bits(mul_bits(TWO_BITS, negate), angle));
        add_bits(mul_bits(negate, Math::PI), angle)
    }

    /// Computes the arc cosine in degrees; NaN outside [-1, 1].
    pub fn acos_deg(value: u32) -> (r: u32)
        ensures
            r == mul_of(Math::RAD_TO_DEG, spec_acos(value)),
    {
        mul_bits(Math::RAD_TO_DEG, Math::acos(value))
    }

    /// Computes the arc sine in radians; NaN outside [-1, 1].
    pub fn asin(value: u32) -> (r: u32)
        ensures
            r == spec_asin(value),
            lt_bits(value, NEG_ONE_BITS) || lt_bits(ONE_BITS, value) ==> is_nan_bits(r),
    {
        proof {
            ieee::lemma_fields(NAN_BITS);
        }
        if ieee::lt(value, NEG_ONE_BITS) || ieee::gt(value, ONE_BITS) {
            return NAN_BITS;
        }
        let negate = if ieee::lt(value, POS_ZERO) {
            ONE_BITS
        } else {
            POS_ZERO
        };
        let x = Math::abs(value);
        let mut angle = mul_bits(0xBC99_6E30, x);
        angle = add_bits(angle, 0x3D98_1627);
        angle = mul_bits(angle, x);
        angle = sub_bits(angle, 0x3E59_3484);
        angle = mul_bits(angle, x);
        angle = add_bits(angle, Math::PI_OVER_2);
        angle = sub_bits(
            mul_bits(Math::PI, HALF_BITS),
            mul_bits(Math::sqrt(sub_bits(ONE_BITS, x)), angle),
        );
        sub_bits(angle, mul_bits(mul_bits(TWO_BITS, negate), angle))
    }

    /// Computes the arc sine in degrees; NaN outside [-1, 1].
    pub fn asin_deg(value: u32) -> (r: u32)
        ensures
            r == mul_of(Math::RAD_TO_DEG, spec_asin(value)),
    {
        mul_bits(Math::RAD_TO_DEG, Math::asin(value))
    }

    /// Computes the arc tangent in radians.
    pub fn atan(value: u32) -> (r: u32)
        ensures
            r == spec_atan2(value, ONE_BITS),
    {
        Math::atan2(value, ONE_BITS)
    }

    /// Computes the arc tangent in degrees.
    pub fn atan_deg(value: u32) -> (r: u32)
        ensures
            r == mul_of(Math::RAD_TO_DEG, spec_atan2(value, ONE_BITS)),
    {
        mul_bits(Math::RAD_TO_DEG, Math::atan(value))
    }

    /// Computes the arc tangent of y/x over the whole circle.
    pub fn atan2(y: u32, x: u32) -> (r: u32)
        ensures
            r == spec_atan2(y, x),
    {
        proof {
            ieee::lemma_fields(POS_ZERO);
        }
        if ieee::eq_val(y, POS_ZERO) && ieee::eq_val(x, POS_ZERO) {
            return POS_ZERO;
        }
        let ax = Math::abs(x);
        let ay = Math::abs(y);
        let mut c = Math::max(ax, ay);
        let b = Math::min(ax, ay);
        let mut a = div_bits(ONE_BITS, c);
        a = mul_bits(b, a);
        let d = mul_bits(a, a);
        c = mul_bits(0xBC5C_DD30, d);
        c = add_bits(c, 0x3D6B_6D55);
        c = mul_bits(c, d);
        c = sub_bits(c, 0x3DF8_4C31);
        c = mul_bits(c, d);
        c = add_bits(c, 0x3E48_54C9);
        c = mul_bits(c, d);
        c = sub_bits(c, 0x3EAA_7E45);
        c = mul_bits(c, d);
        c = add_bits(c, 0x3F7F_FFB7);
        a = mul_bits(a, c);
        if ieee::gt(Math::abs(y), Math::abs(x)) {
            a = sub_bits(Math::PI_OVER_2, a);
        }
        if ieee::lt(x, POS_ZERO) {
            a = sub_bits(Math::PI, a);
        }
        if ieee::lt(y, POS_ZERO) {
            a = mul_bits(a, NEG_ONE_BITS);
        }
        a
    }

    /// Computes the arc tangent of y/x over the whole circle, in degrees.
    pub fn atan2_deg(y: u32, x: u32) -> (r: u32)
        ensures
            r == mul_of(Math::RAD_TO_DEG, spec_atan2(y, x)),
    {
        mul_bits(Math::RAD_TO_DEG, Math::atan2(y, x))
    }

    /// Computes the hyperbolic cosine.
    pub fn cosh(value: u32) -> (r: u32)
        ensures
            r == spec_cosh(value),
    {
        let e = Math::exp(value);
        if ieee::is_infinite(e) || ieee::is_nan(e) {
            if ieee::gt(value, POS_ZERO) {
                return INF_BITS;
            } else {
                return NEG_INF_BITS;
            }
        }
        mul_bits(add_bits(e, div_bits(ONE_BITS, e)), HALF_BITS)
    }

    /// Computes the hyperbolic sine.
    pub fn sinh(value: u32) -> (r: u32)
        ensures
            r == spec_sinh(value),
    {
        let e = Math::exp(value);
        if ieee::is_infinite(e) || ieee::is_nan(e) {
            if ieee::gt(value, POS_ZERO) {
                return INF_BITS;
            } else {
                return NEG_INF_BITS;
            }
        }
        mul_bits(sub_bits(e, div_bits(ONE_BITS, e)), HALF_BITS)
    }

    /// Computes the hyperbolic tangent.
    pub fn tanh(value: u32) -> (r: u32)
        ensures
            r == spec_tanh(value),
    {
        let e = Math::exp(mul_bits(TWO_BITS, value));
        if ieee::is_infinite(e) || ieee::is_nan(e) {
            if ieee::gt(value, POS_ZERO) {
                return ONE_BITS;
            } else {
                return NEG_ONE_BITS;
            }
        }
        mul_bits(sub_bits(e, ONE_BITS), div_bits(ONE_BITS, add_bits(e, ONE_BITS)))
    }

    /// Computes the inverse hyperbolic sine as ln(x + sqrt(x^2 + 1)).
    pub fn asinh(value: u32) -> (r: u32)
        ensures
            r == spec_ln(add_of(value, spec_sqrt(add_of(mul_of(value, value), ONE_BITS)))),
    {
        Math::ln(add_bits(value, Math::sqrt(add_bits(mul_bits(value, value), ONE_BITS))))
    }

    /// Computes the inverse hyperbolic cosine as ln(x + sqrt(x^2 - 1));
    /// NaN below one.
    pub fn acosh(value: u32) -> (r: u32)
        ensures
            lt_bits(value, ONE_BITS) ==> is_nan_bits(r),
            !lt_bits(value, ONE_BITS) ==> r == spec_ln(
                add_of(value, spec_sqrt(sub_of(mul_of(value, value), ONE_BITS))),
            ),
    {
        proof {
            ieee::lemma_fields(NAN_BITS);
        }
        if ieee::lt(value, ONE_BITS) {
            return NAN_BITS;
        }
        Math::ln(add_bits(value, Math::sqrt(sub_bits(mul_bits(value, value), ONE_BITS))))
    }

    /// Computes the inverse hyperbolic tangent as ln((1+x)/(1-x))/2;
    /// the unit endpoints and everything beyond map to the infinities.
    pub fn atanh(value: u32) -> (r: u32)
        ensures
            le_bits(ONE_BITS, value) ==> r == INF_BITS,
            le_bits(value, NEG_ONE_BITS) && !le_bits(ONE_BITS, value) ==> r == NEG_INF_BITS,
            !le_bits(ONE_BITS, value) && !le_bits(value, NEG_ONE_BITS) ==> r == mul_of(
                HALF_BITS,
                spec_ln(mul_of(add_of(ONE_BITS, value), div_of(ONE_BITS, sub_of(ONE_BITS, value)))),
            ),
    {
        if ieee::ge(value, ONE_BITS) {
            return INF_BITS;
        }
        if ieee::le(value, NEG_ONE_BITS) {
            return NEG_INF_BITS;
        }
        mul_bits(
            HALF_BITS,
            Math::ln(mul_bits(add_bits(ONE_BITS, value), div_bits(ONE_BITS, sub_bits(ONE_BITS, value)))),
        )
    }
}

/// The pre-calculated arc tangent table for the CORDIC rounds.
fn get_atan_for_cordic(index: i32) -> (r: u32)
    ensures
        r == spec_atan_cordic(index as int),
{
    match index {
        0 => 0x3F49_0FDB,
        1 => 0x3EED_6338,
        2 => 0x3E7A_DBB0,
        3 => 0x3DFE_ADD5,
        4 => 0x3D7F_AADE,
        5 => 0x3CFF_EAAE,
        6 => 0x3C7F_FAAB,
        7 => 0x3BFF_FEAB,
        8 => 0x3B7F_FFAB,
        9 => 0x3AFF_FFEB,
        10 => 0x3A7F_FFFB,
        11 => 0x39FF_FFFF,
        12 => 0x3980_0000,
        13 => 0x3900_0000,
        14 => 0x3880_0000,
        15 => 0x3800_0000,
        16 => 0x3780_0000,
        17 => 0x3700_0000,
        18 => 0x3680_0000,
        19 => 0x3600_0000,
        20 => 0x3580_0000,
        21 => 0x3500_0000,
        22 => 0x3480_0000,
        23 => 0x3400_0000,
        24 => 0x337F_FFFF,
        25 => 0x32FF_FFFF,
        26 => 0x327F_FFFF,
        27 => 0x31FF_FFFF,
        _ => POS_ZERO,
    }
}

} // verus!
