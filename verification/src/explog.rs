//! The exponential, logarithmic, power and root functions of the kernel,
//! computed from first principles: a truncated series for e^x, digit/octave
//! range reduction with an alternating series for the natural logarithm,
//! repeated multiplication for integer powers, and a cubically convergent
//! Newton iteration for the square root. Each contract pins the result to
//! the exact composition of named IEEE-754 operations the algorithm performs,
//! and states the domain policy (NaN and infinity sentinels) exactly.

use vstd::prelude::*;

verus! {

use crate::arith::add_of;
use crate::arith::sub_of;
use crate::arith::mul_of;
use crate::arith::div_of;
use crate::arith::add_bits;
use crate::arith::sub_bits;
use crate::arith::mul_bits;
use crate::arith::div_bits;
use crate::ieee;
use crate::ieee::POS_ZERO;
use crate::ieee::NEG_ZERO;
use crate::ieee::ONE_BITS;
use crate::ieee::INF_BITS;
use crate::ieee::NEG_INF_BITS;
use crate::ieee::NAN_BITS;
use crate::ieee::lt_bits;
use crate::ieee::le_bits;
use crate::ieee::eq_bits;
use crate::ieee::neg_bits;
use crate::ieee::is_nan_bits;
use crate::ieee::is_infinite_bits;
use crate::ieee::from_i32_bits;
use crate::ieee::to_i32_cast;
use crate::math::Math;
use crate::math::spec_abs;
use crate::math::NEG_ONE_BITS;
use crate::math::TWO_BITS;
use crate::math::THREE_BITS;
use crate::math::TEN_BITS;
use crate::rounding::spec_floor;
use crate::rounding::spec_fract;

/// Bit pattern of 1e-9, the stopping tolerance of the square-root iteration.
pub const SQRT_EPSILON_BITS: u32 = 0x3089_705F;

/// The number of reduction steps that the logarithm may take for each of its
/// two reduction loops; 64 is more than any finite single-precision value
/// can use.
pub const LN_REDUCE_FUEL: u32 = 64;

/// A value multiplied by itself until `n` factors have been taken.
pub open spec fn spec_pow_mul(a: u32, n: nat) -> u32
    decreases n,
{
    if n <= 1 {
        a
    } else {
        mul_of(spec_pow_mul(a, (n - 1) as nat), a)
    }
}

/// What `pow_i32` returns: 1.0 for exponent zero, otherwise repeated
/// multiplication, with the reciprocal taken for a negative exponent.
pub open spec fn spec_pow_i32(a: u32, b: int) -> u32 {
    if b == 0 {
        ONE_BITS
    } else {
        let n = if b < 0 {
            (-b) as nat
        } else {
            b as nat
        };
        if b < 0 {
            div_of(ONE_BITS, spec_pow_mul(a, n))
        } else {
            spec_pow_mul(a, n)
        }
    }
}

/// The running term and sum of the e^x series after `i` terms.
pub open spec fn spec_exp_iter(v: u32, i: nat) -> (u32, u32)
    decreases i,
{
    if i == 0 {
        (ONE_BITS, ONE_BITS)
    } else {
        let prev = spec_exp_iter(v, (i - 1) as nat);
        let term = mul_of(prev.0, div_of(v, from_i32_bits(i as int)));
        (term, add_of(prev.1, term))
    }
}

/// What `exp` returns: the 100-term series, applied to the negated input
/// and inverted when the input is negative.
pub open spec fn spec_exp(v: u32) -> u32 {
    if lt_bits(v, POS_ZERO) {
        div_of(ONE_BITS, spec_exp_iter(neg_bits(v), 100).1)
    } else {
        spec_exp_iter(v, 100).1
    }
}

/// The repeated division of a value by ten while it compares above ten,
/// bounded by the given fuel: the reduced value and the step count.
pub open spec fn spec_reduce10(x: u32, fuel: nat) -> (u32, int)
    decreases fuel,
{
    if fuel == 0 || !lt_bits(TEN_BITS, x) {
        (x, 0)
    } else {
        let rest = spec_reduce10(div_of(x, TEN_BITS), (fuel - 1) as nat);
        (rest.0, rest.1 + 1)
    }
}

/// The repeated division of a value by two while it compares at or above
/// two, bounded by the given fuel: the reduced value and the step count.
pub open spec fn spec_reduce2(x: u32, fuel: nat) -> (u32, int)
    decreases fuel,
{
    if fuel == 0 || !le_bits(TWO_BITS, x) {
        (x, 0)
    } else {
        let rest = spec_reduce2(div_of(x, TWO_BITS), (fuel - 1) as nat);
        (rest.0, rest.1 + 1)
    }
}

/// The running power and sum of the alternating logarithm series after the
/// term of index `i`, starting from index 1.
pub open spec fn spec_ln_series(t: u32, i: nat) -> (u32, u32)
    decreases i,
{
    if i <= 1 {
        (t, t)
    } else {
        let prev = spec_ln_series(t, (i - 1) as nat);
        let negative = if i % 2 == 0 {
            NEG_ONE_BITS
        } else {
            ONE_BITS
        };
        let power = mul_of(prev.0, t);
        (power, add_of(prev.1, div_of(mul_of(negative, power), from_i32_bits(i as int))))
    }
}

/// What the logarithm returns on inputs that compare at or above one:
/// infinity passes through, one gives zero, everything else is reduced by
/// powers of ten and two and fed into the series.
pub open spec fn spec_ln_ge1(x: u32) -> u32 {
    if is_infinite_bits(x) {
        INF_BITS
    } else if eq_bits(x, ONE_BITS) {
        POS_ZERO
    } else {
        let r10 = spec_reduce10(x, LN_REDUCE_FUEL as nat);
        let r2 = spec_reduce2(r10.0, LN_REDUCE_FUEL as nat);
        let base = add_of(
            mul_of(from_i32_bits(r2.1), Math::LN2),
            mul_of(from_i32_bits(r10.1), Math::LN10),
        );
        if eq_bits(r2.0, ONE_BITS) {
            base
        } else {
            add_of(base, spec_ln_series(sub_of(r2.0, ONE_BITS), 16).1)
        }
    }
}

/// What `ln` returns: NaN for NaN and negative inputs, negative infinity at
/// zero, the negated logarithm of the reciprocal below one, and the reduced
/// series otherwise.
pub open spec fn spec_ln(a: u32) -> u32 {
    if is_nan_bits(a) {
        NAN_BITS
    } else if eq_bits(a, POS_ZERO) {
        NEG_INF_BITS
    } else if lt_bits(a, POS_ZERO) {
        NAN_BITS
    } else if lt_bits(a, ONE_BITS) {
        neg_bits(spec_ln_ge1(div_of(ONE_BITS, a)))
    } else {
        spec_ln_ge1(a)
    }
}

/// What `pow` returns: the documented short circuits, repeated
/// multiplication for integral exponents, and e^(power·ln value) otherwise.
pub open spec fn spec_pow(value: u32, power: u32) -> u32 {
    if eq_bits(power, POS_ZERO) {
        ONE_BITS
    } else if eq_bits(power, ONE_BITS) {
        value
    } else if eq_bits(value, ONE_BITS) {
        ONE_BITS
    } else if eq_bits(value, TWO_BITS) {
        spec_exp(mul_of(power, Math::LN2))
    } else if eq_bits(spec_fract(power), POS_ZERO) {
        spec_pow_i32(value, to_i32_cast(spec_floor(power)))
    } else {
        spec_exp(mul_of(power, spec_ln(value)))
    }
}

/// One round of the square-root iteration: the Newton update of cubic
/// convergence, stopped when the update moves the estimate by less than
/// the tolerance or when the fuel runs out.
pub open spec fn spec_sqrt_iter(value: u32, x: u32, fuel: nat) -> u32
    decreases fuel,
{
    if fuel == 0 {
        x
    } else {
        let numer = add_of(mul_of(mul_of(x, x), x), mul_of(mul_of(THREE_BITS, value), x));
        let denom = add_of(mul_of(mul_of(THREE_BITS, x), x), value);
        let next = div_of(numer, denom);
        let delta = spec_abs(sub_of(next, x));
        if lt_bits(delta, SQRT_EPSILON_BITS) {
            next
        } else {
            spec_sqrt_iter(value, next, (fuel - 1) as nat)
        }
    }
}

/// What `sqrt` returns: NaN below -0, zero at zero, one at one, and the
/// Newton iteration seeded with the value itself otherwise.
pub open spec fn spec_sqrt(a: u32) -> u32 {
    if lt_bits(a, NEG_ZERO) {
        NAN_BITS
    } else if eq_bits(a, POS_ZERO) {
        POS_ZERO
    } else if eq_bits(a, ONE_BITS) {
        ONE_BITS
    } else {
        spec_sqrt_iter(a, a, 50)
    }
}

impl Math {
    /// Gets the power of the given number by the other given number, with
    /// the power being an `i32`.
    pub fn pow_i32(a: u32, b: i32) -> (r: u32)
        requires
            b != i32::MIN,
        ensures
            r == spec_pow_i32(a, b as int),
    {
        if b == 0 {
            return ONE_BITS;
        }
        let n = Math::abs_i32(b);
        let mut result = a;
        let mut i: i32 = 1;
        while i < n
            invariant
                1 <= i <= n,
                result == spec_pow_mul(a, i as nat),
            decreases n - i,
    {
            result = mul_bits(result, a);
            i = i + 1;
        }
        if b < 0 {
            div_bits(ONE_BITS, result)
        } else {
            result
        }
    }

    /// Computes e^x with a truncated 100-term series; negative inputs go
    /// through the reciprocal of e^(-x).
    pub fn exp(value: u32) -> (r: u32)
        ensures
            r == spec_exp(value),
    {
        if ieee::lt(value, POS_ZERO) {
            div_bits(ONE_BITS, exp_series(ieee::neg(value)))
        } else {
            exp_series(value)
        }
    }

    /// Computes 2^x as e^(x·ln 2).
    pub fn exp2(value: u32) -> (r: u32)
        ensures
            r == spec_exp(mul_of(value, Math::LN2)),
    {
        Math::exp(mul_bits(value, Math::LN2))
    }

    /// Computes the natural log of the given number: NaN for NaN and
    /// negative inputs, negative infinity at zero, infinity at infinity.
    pub fn ln(value: u32) -> (r: u32)
        ensures
            r == spec_ln(value),
            is_nan_bits(value) ==> is_nan_bits(r),
            eq_bits(value, POS_ZERO) ==> r == NEG_INF_BITS,
            lt_bits(value, POS_ZERO) ==> is_nan_bits(r),
            is_infinite_bits(value) && !lt_bits(value, POS_ZERO) ==> r == INF_BITS,
            eq_bits(value, ONE_BITS) ==> r == POS_ZERO,
    {
        proof {
            ieee::lemma_fields(value);
            ieee::lemma_fields(NAN_BITS);
            ieee::lemma_fields(INF_BITS);
            ieee::lemma_fields(POS_ZERO);
            ieee::lemma_fields(ONE_BITS);
        }
        if ieee::is_nan(value) {
            return NAN_BITS;
        }
        if ieee::eq_val(value, POS_ZERO) {
            return NEG_INF_BITS;
        }
        if ieee::lt(value, POS_ZERO) {
            return NAN_BITS;
        }
        if ieee::lt(value, ONE_BITS) {
            return ieee::neg(ln_ge1(div_bits(ONE_BITS, value)));
        }
        ln_ge1(value)
    }

    /// Computes the natural log of the given number plus one.
    pub fn ln_1p(value: u32) -> (r: u32)
        ensures
            r == spec_ln(add_of(value, ONE_BITS)),
    {
        Math::ln(add_bits(value, ONE_BITS))
    }

    /// Computes the log of the given number with a given base.
    pub fn log(value: u32, base: u32) -> (r: u32)
        ensures
            r == mul_of(spec_ln(value), div_of(ONE_BITS, spec_ln(base))),
    {
        mul_bits(Math::ln(value), div_bits(ONE_BITS, Math::ln(base)))
    }

    /// Computes the log of the given number with base 10.
    pub fn log10(value: u32) -> (r: u32)
        ensures
            r == mul_of(spec_ln(value), div_of(ONE_BITS, Math::LN10)),
    {
        mul_bits(Math::ln(value), div_bits(ONE_BITS, Math::LN10))
    }

    /// Computes the log of the given number with base 2.
    pub fn log2(value: u32) -> (r: u32)
        ensures
            r == mul_of(spec_ln(value), div_of(ONE_BITS, Math::LN2)),
    {
        mul_bits(Math::ln(value), div_bits(ONE_BITS, Math::LN2))
    }

    /// Raises the value by the power. An integral power whose floor
    /// truncates to the smallest `i32` is left out: there the repeated
    /// multiplication would take the absolute value of that integer.
    pub fn pow(value: u32, power: u32) -> (r: u32)
        requires
            to_i32_cast(spec_floor(power)) != i32::MIN as int,
        ensures
            r == spec_pow(value, power),
    {
        if ieee::eq_val(power, POS_ZERO) {
            return ONE_BITS;
        }
        if ieee::eq_val(power, ONE_BITS) {
            return value;
        }
        if ieee::eq_val(value, ONE_BITS) {
            return ONE_BITS;
        }
        if ieee::eq_val(value, TWO_BITS) {
            return Math::exp2(power);
        }
        let fraction = Math::fract(power);
        if ieee::eq_val(fraction, POS_ZERO) {
            return Math::pow_i32(value, ieee::f32_to_i32(Math::floor(power)));
        }
        Math::exp(mul_bits(power, Math::ln(value)))
    }

    /// Gets the square root of the given number: NaN for negative inputs,
    /// 0 at either zero, computed by Newton iteration otherwise.
    pub fn sqrt(value: u32) -> (r: u32)
        ensures
            r == spec_sqrt(value),
            lt_bits(value, NEG_ZERO) ==> is_nan_bits(r),
            eq_bits(value, POS_ZERO) ==> r == POS_ZERO,
    {
        proof {
            ieee::lemma_fields(NAN_BITS);
            ieee::lemma_fields(POS_ZERO);
            ieee::lemma_fields(NEG_ZERO);
        }
        if ieee::lt(value, NEG_ZERO) {
            return NAN_BITS;
        }
        if ieee::eq_val(value, POS_ZERO) {
            return POS_ZERO;
        }
        if ieee::eq_val(value, ONE_BITS) {
            return ONE_BITS;
        }
        let mut x = value;
        let mut i: u32 = 0;
        while i < 50
            invariant_except_break
                i <= 50,
                spec_sqrt_iter(value, x, (50 - i) as nat) == spec_sqrt_iter(value, value, 50),
            ensures
                x == spec_sqrt_iter(value, value, 50),
            decreases 50 - i,
        {
            let numer = add_bits(
                mul_bits(mul_bits(x, x), x),
                mul_bits(mul_bits(THREE_BITS, value), x),
            );
            let denom = add_bits(mul_bits(mul_bits(THREE_BITS, x), x), value);
            let next = div_bits(numer, denom);
            let delta = Math::abs(sub_bits(next, x));
            x = next;
            i = i + 1;
            if ieee::lt(delta, SQRT_EPSILON_BITS) {
                break;
            }
        }
        x
    }
}

/// The 100-term series for e^x on a non-negative input.
fn exp_series(v: u32) -> (r: u32)
    ensures
        r == spec_exp_iter(v, 100).1,
{
    let mut result = ONE_BITS;
    let mut term = ONE_BITS;
    let mut n: i32 = 1;
    while n <= 100
        invariant
            1 <= n <= 101,
            (term, result) == spec_exp_iter(v, (n - 1) as nat),
        decreases 101 - n,
    {
        term = mul_bits(term, div_bits(v, ieee::i32_to_f32(n)));
        result = add_bits(result, term);
        n = n + 1;
    }
    result
}

/// The logarithm on inputs at or above one: range reduction by tens and
/// twos, then the alternating series.
fn ln_ge1(x0: u32) -> (r: u32)
    ensures
        r == spec_ln_ge1(x0),
{
    if ieee::is_infinite(x0) {
        return INF_BITS;
    }
    if ieee::eq_val(x0, ONE_BITS) {
        return POS_ZERO;
    }
    let mut x = x0;
    let mut c10: u32 = 0;
    while c10 < LN_REDUCE_FUEL
        invariant_except_break
            c10 <= LN_REDUCE_FUEL,
            spec_reduce10(x0, LN_REDUCE_FUEL as nat).0 == spec_reduce10(
                x,
                (LN_REDUCE_FUEL - c10) as nat,
            ).0,
            spec_reduce10(x0, LN_REDUCE_FUEL as nat).1 == c10 + spec_reduce10(
                x,
                (LN_REDUCE_FUEL - c10) as nat,
            ).1,
        ensures
            c10 <= LN_REDUCE_FUEL,
            spec_reduce10(x0, LN_REDUCE_FUEL as nat) == (x, c10 as int),
        decreases LN_REDUCE_FUEL - c10,
    {
        if !ieee::gt(x, TEN_BITS) {
            break;
        }
        x = div_bits(x, TEN_BITS);
        c10 = c10 + 1;
    }
    let ghost mid = x;
    let mut c2: u32 = 0;
    while c2 < LN_REDUCE_FUEL
        invariant_except_break
            c2 <= LN_REDUCE_FUEL,
            spec_reduce2(mid, LN_REDUCE_FUEL as nat).0 == spec_reduce2(
                x,
                (LN_REDUCE_FUEL - c2) as nat,
            ).0,
            spec_reduce2(mid, LN_REDUCE_FUEL as nat).1 == c2 + spec_reduce2(
                x,
                (LN_REDUCE_FUEL - c2) as nat,
            ).1,
        ensures
            c2 <= LN_REDUCE_FUEL,
            spec_reduce2(mid, LN_REDUCE_FUEL as nat) == (x, c2 as int),
        decreases LN_REDUCE_FUEL - c2,
    {
        if !ieee::ge(x, TWO_BITS) {
            break;
        }
        x = div_bits(x, TWO_BITS);
        c2 = c2 + 1;
    }
    let base = add_bits(
        mul_bits(ieee::i32_to_f32(c2 as i32), Math::LN2),
        mul_bits(ieee::i32_to_f32(c10 as i32), Math::LN10),
    );
    if ieee::eq_val(x, ONE_BITS) {
        return base;
    }
    let term = sub_bits(x, ONE_BITS);
    let mut power = term;
    let mut series = term;
    let mut i: i32 = 2;
    while i < 17
        invariant
            2 <= i <= 17,
            (power, series) == spec_ln_series(term, (i - 1) as nat),
        decreases 17 - i,
    {
        let negative = if i % 2 == 0 {
            NEG_ONE_BITS
        } else {
            ONE_BITS
        };
        power = mul_bits(power, term);
        series = add_bits(series, div_bits(mul_bits(negative, power), ieee::i32_to_f32(i)));
        i = i + 1;
    }
    add_bits(base, series)
}

} // verus!
