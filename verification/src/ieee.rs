//! The exact, fully verified layer of the kernel: IEEE-754 single-precision
//! values are carried as their raw bit patterns in `u32`, and everything whose
//! result is pinned down bit-for-bit by the encoding alone — classification,
//! comparison, negation, and the casts between scalars and 32-bit integers —
//! is implemented here and proved against bit-level specifications.

use vstd::prelude::*;

verus! {

use vstd::arithmetic::power2::pow2;
use vstd::arithmetic::power2::lemma_pow2_adds;
use vstd::arithmetic::power2::lemma_pow2_pos;
use vstd::arithmetic::power2::lemma_pow2_unfold;
use vstd::arithmetic::power2::lemma_pow2_strictly_increases;
use vstd::arithmetic::power2::lemma2_to64;
use vstd::arithmetic::div_mod::lemma_div_is_ordered;
use vstd::arithmetic::div_mod::lemma_div_nonincreasing;
use vstd::arithmetic::div_mod::lemma_div_by_multiple;
use vstd::arithmetic::div_mod::lemma_multiply_divide_lt;
use vstd::arithmetic::mul::lemma_mul_inequality;
use vstd::arithmetic::mul::lemma_mul_strict_inequality;

/// Bit pattern of positive zero.
pub const POS_ZERO: u32 = 0x0000_0000;
/// Bit pattern of negative zero.
pub const NEG_ZERO: u32 = 0x8000_0000;
/// Bit pattern of positive infinity.
pub const INF_BITS: u32 = 0x7F80_0000;
/// Bit pattern of negative infinity.
pub const NEG_INF_BITS: u32 = 0xFF80_0000;
/// Bit pattern of the canonical quiet NaN.
pub const NAN_BITS: u32 = 0x7FC0_0000;
/// Bit pattern of 1.0.
pub const ONE_BITS: u32 = 0x3F80_0000;

/// The sign field of a single-precision bit pattern: 0 or 1.
pub open spec fn sign_field(a: u32) -> u32 {
    a >> 31
}

/// The biased exponent field of a single-precision bit pattern.
pub open spec fn exp_field(a: u32) -> u32 {
    (a >> 23) & 0xFF
}

/// The fraction (trailing significand) field of a single-precision bit pattern.
pub open spec fn frac_field(a: u32) -> u32 {
    a & 0x7F_FFFF
}

/// The magnitude bits: everything but the sign.
pub open spec fn mag_field(a: u32) -> u32 {
    a & 0x7FFF_FFFF
}

/// Whether the pattern encodes a NaN.
pub open spec fn is_nan_bits(a: u32) -> bool {
    exp_field(a) == 0xFF && frac_field(a) != 0
}

/// Whether the pattern encodes an infinity of either sign.
pub open spec fn is_infinite_bits(a: u32) -> bool {
    exp_field(a) == 0xFF && frac_field(a) == 0
}

/// Whether the pattern encodes a finite value (neither NaN nor infinite).
pub open spec fn is_finite_bits(a: u32) -> bool {
    exp_field(a) != 0xFF
}

/// Whether the pattern encodes a zero of either sign.
pub open spec fn is_zero_bits(a: u32) -> bool {
    mag_field(a) == 0
}

/// An order key embedding the encoded values into `int`: non-NaN patterns
/// compare exactly as the values they encode, and the two zeros share key 0.
pub open spec fn order_key(a: u32) -> int {
    if sign_field(a) == 0 {
        mag_field(a) as int
    } else {
        -(mag_field(a) as int)
    }
}

/// IEEE-754 `<` on bit patterns: false whenever either side is NaN.
pub open spec fn lt_bits(a: u32, b: u32) -> bool {
    !is_nan_bits(a) && !is_nan_bits(b) && order_key(a) < order_key(b)
}

/// IEEE-754 `<=` on bit patterns: false whenever either side is NaN.
pub open spec fn le_bits(a: u32, b: u32) -> bool {
    !is_nan_bits(a) && !is_nan_bits(b) && order_key(a) <= order_key(b)
}

/// IEEE-754 `==` on bit patterns: false whenever either side is NaN,
/// and true on the pair of zeros.
pub open spec fn eq_bits(a: u32, b: u32) -> bool {
    !is_nan_bits(a) && !is_nan_bits(b) && order_key(a) == order_key(b)
}

/// IEEE-754 negation: exactly a flip of the sign bit.
pub open spec fn neg_bits(a: u32) -> u32 {
    a ^ 0x8000_0000
}

/// Assembles a bit pattern from a sign, a biased exponent and a fraction.
pub open spec fn make_bits(s: u32, e: u32, m: u32) -> u32 {
    (s * 0x8000_0000 + e * 0x80_0000 + m) as u32
}

/// The three fields are small and recompose to the whole word.
pub proof fn lemma_fields(a: u32)
    by (bit_vector)
    ensures
        sign_field(a) == 0 || sign_field(a) == 1,
        exp_field(a) < 0x100,
        frac_field(a) < 0x80_0000,
        mag_field(a) < 0x8000_0000,
        mag_field(a) == exp_field(a) * 0x80_0000 + frac_field(a),
        a == sign_field(a) * 0x8000_0000 + mag_field(a),
{
}

/// Negation flips the sign field and keeps the magnitude bits.
pub proof fn lemma_neg_fields(a: u32)
    by (bit_vector)
    ensures
        sign_field(neg_bits(a)) == 1 - sign_field(a),
        exp_field(neg_bits(a)) == exp_field(a),
        frac_field(neg_bits(a)) == frac_field(a),
        mag_field(neg_bits(a)) == mag_field(a),
        neg_bits(neg_bits(a)) == a,
{
}

/// A pattern assembled from in-range fields decomposes back into them.
pub proof fn lemma_make_fields(s: u32, e: u32, m: u32)
    by (bit_vector)
    requires
        s < 2,
        e < 0x100,
        m < 0x80_0000,
    ensures
        sign_field(make_bits(s, e, m)) == s,
        exp_field(make_bits(s, e, m)) == e,
        frac_field(make_bits(s, e, m)) == m,
{
}

/// Whether the pattern encodes a NaN.
pub fn is_nan(a: u32) -> (r: bool)
    ensures
        r == is_nan_bits(a),
{
    ((a >> 23) & 0xFF) == 0xFF && (a & 0x7F_FFFF) != 0
}

/// Whether the pattern encodes an infinity of either sign.
pub fn is_infinite(a: u32) -> (r: bool)
    ensures
        r == is_infinite_bits(a),
{
    ((a >> 23) & 0xFF) == 0xFF && (a & 0x7F_FFFF) == 0
}

/// Whether the pattern encodes a finite value.
pub fn is_finite(a: u32) -> (r: bool)
    ensures
        r == is_finite_bits(a),
{
    ((a >> 23) & 0xFF) != 0xFF
}

/// IEEE-754 negation of the encoded value.
pub fn neg(a: u32) -> (r: u32)
    ensures
        r == neg_bits(a),
{
    a ^ 0x8000_0000
}

/// IEEE-754 `<` on the encoded values.
pub fn lt(a: u32, b: u32) -> (r: bool)
    ensures
        r == lt_bits(a, b),
{
    proof {
        lemma_fields(a);
        lemma_fields(b);
    }
    if is_nan(a) || is_nan(b) {
        return false;
    }
    let sa = a >> 31;
    let sb = b >> 31;
    let ma = a & 0x7FFF_FFFF;
    let mb = b & 0x7FFF_FFFF;
    if sa == sb {
        if sa == 0 {
            ma < mb
        } else {
            mb < ma
        }
    } else {
        sa == 1 && !(ma == 0 && mb == 0)
    }
}

/// IEEE-754 `<=` on the encoded values.
pub fn le(a: u32, b: u32) -> (r: bool)
    ensures
        r == le_bits(a, b),
{
    proof {
        lemma_fields(a);
        lemma_fields(b);
    }
    if is_nan(a) || is_nan(b) {
        return false;
    }
    let sa = a >> 31;
    let sb = b >> 31;
    let ma = a & 0x7FFF_FFFF;
    let mb = b & 0x7FFF_FFFF;
    if sa == sb {
        if sa == 0 {
            ma <= mb
        } else {
            mb <= ma
        }
    } else if sa == 1 {
        true
    } else {
        ma == 0 && mb == 0
    }
}

/// IEEE-754 `>` on the encoded values.
pub fn gt(a: u32, b: u32) -> (r: bool)
    ensures
        r == lt_bits(b, a),
{
    lt(b, a)
}

/// IEEE-754 `>=` on the encoded values.
pub fn ge(a: u32, b: u32) -> (r: bool)
    ensures
        r == le_bits(b, a),
{
    le(b, a)
}

/// IEEE-754 `==` on the encoded values.
pub fn eq_val(a: u32, b: u32) -> (r: bool)
    ensures
        r == eq_bits(a, b),
{
    proof {
        lemma_fields(a);
        lemma_fields(b);
    }
    if is_nan(a) || is_nan(b) {
        return false;
    }
    let ma = a & 0x7FFF_FFFF;
    let mb = b & 0x7FFF_FFFF;
    a == b || (ma == 0 && mb == 0)
}

/// A power of two that fits in a `u32`.
pub fn pow2_u32(k: u32) -> (r: u32)
    requires
        k <= 31,
    ensures
        r == pow2(k as nat),
{
    let mut i: u32 = 0;
    let mut p: u32 = 1;
    assert(p == pow2(0)) by {
        lemma2_to64();
    }
    while i < k
        invariant
            i <= k,
            k <= 31,
            p == pow2(i as nat),
        decreases k - i,
    {
        proof {
            lemma_pow2_strictly_increases(i as nat, 31);
            lemma_pow2_unfold((i + 1) as nat);
            lemma2_to64();
        }
        p = p * 2;
        i = i + 1;
    }
    p
}

/// The number of binary digits of a natural number.
pub open spec fn bit_len(x: nat) -> nat
    decreases x,
{
    if x == 0 {
        0
    } else {
        (1 + bit_len((x / 2) as nat)) as nat
    }
}

/// A positive number lies between the two powers of two that its digit count names.
pub proof fn lemma_bit_len_bounds(x: nat)
    ensures
        x > 0 ==> pow2((bit_len(x) - 1) as nat) <= x < pow2(bit_len(x)),
    decreases x,
{
    if x > 0 {
        if x / 2 == 0 {
            assert(x == 1);
            assert(bit_len(1) == 1 + bit_len(0));
            assert(bit_len(0nat) == 0);
            lemma2_to64();
        } else {
            lemma_bit_len_bounds((x / 2) as nat);
            let l = bit_len((x / 2) as nat);
            assert(bit_len(x) == 1 + l);
            lemma_pow2_unfold(l);
            lemma_pow2_unfold((l + 1) as nat);
            assert(pow2((l + 1) as nat) == 2 * pow2(l));
            assert(pow2(l) == 2 * pow2((l - 1) as nat));
        }
    }
}

/// A `u32` has at most 32 binary digits.
pub proof fn lemma_bit_len_le_32(x: u32)
    ensures
        bit_len(x as nat) <= 32,
{
    lemma_bit_len_bounds(x as nat);
    if x > 0 && bit_len(x as nat) > 32 {
        let l = (bit_len(x as nat) - 1) as nat;
        if l > 32 {
            lemma_pow2_strictly_increases(32, l);
        }
        assert(pow2(32) == 0x1_0000_0000) by {
            lemma_pow2_adds(31, 1);
            lemma2_to64();
        }
    }
}

/// The number of binary digits of a `u32`.
pub fn bit_len_u32(x: u32) -> (r: u32)
    ensures
        r == bit_len(x as nat),
{
    proof {
        lemma_bit_len_le_32(x);
    }
    let mut v: u32 = x;
    let mut k: u32 = 0;
    while v > 0
        invariant
            k + bit_len(v as nat) == bit_len(x as nat),
            bit_len(x as nat) <= 32,
        decreases v,
    {
        v = v / 2;
        k = k + 1;
    }
    k
}

/// The magnitude of the value encoded by a finite or infinite pattern,
/// truncated toward zero to an integer.
pub open spec fn trunc_mag(a: u32) -> int {
    let e = exp_field(a) as int;
    let m = frac_field(a) as int;
    if e < 127 {
        0
    } else if e >= 150 {
        (0x80_0000 + m) * pow2((e - 150) as nat)
    } else {
        (0x80_0000 + m) / pow2((150 - e) as nat) as int
    }
}

/// What the saturating cast of the encoded value to `i32` yields:
/// NaN goes to 0, everything else truncates toward zero and saturates.
pub open spec fn to_i32_cast(a: u32) -> int {
    if is_nan_bits(a) {
        0
    } else {
        let v = if sign_field(a) == 0 {
            trunc_mag(a)
        } else {
            -trunc_mag(a)
        };
        if v < -0x8000_0000 {
            -0x8000_0000
        } else if v > 0x7FFF_FFFF {
            0x7FFF_FFFF
        } else {
            v
        }
    }
}

/// The saturating cast of the encoded value to `i32`, as `as i32` performs it.
pub fn f32_to_i32(a: u32) -> (r: i32)
    ensures
        r as int == to_i32_cast(a),
{
    proof {
        lemma_fields(a);
    }
    if is_nan(a) {
        return 0;
    }
    let e: u32 = (a >> 23) & 0xFF;
    let m: u32 = a & 0x7F_FFFF;
    let negative: bool = (a >> 31) == 1;
    if e < 127 {
        return 0;
    }
    if e >= 158 {
        proof {
            lemma_pow2_adds(8, (e - 158) as nat);
            lemma_pow2_pos((e - 158) as nat);
            lemma2_to64();
            let t = pow2((e - 158) as nat) as int;
            assert((0x80_0000 + frac_field(a)) * pow2((e - 150) as nat) >= 0x8000_0000) by (nonlinear_arith)
                requires
                    pow2((e - 150) as nat) == 256 * t,
                    t >= 1,
                    frac_field(a) >= 0,
            ;
        }
        if negative {
            return i32::MIN;
        } else {
            return i32::MAX;
        }
    }
    let base: u32 = 0x80_0000 + m;
    let mag: u32 = if e >= 150 {
        let p = pow2_u32(e - 150);
        proof {
            if e - 150 < 7 {
                lemma_pow2_strictly_increases((e - 150) as nat, 7);
            }
            lemma2_to64();
            assert(base * p < 0x8000_0000) by (nonlinear_arith)
                requires
                    base < 0x100_0000,
                    0 <= p <= 128,
            ;
        }
        base * p
    } else {
        let p = pow2_u32(150 - e);
        proof {
            lemma_pow2_pos((150 - e) as nat);
            lemma_div_is_ordered(0, base as int, pow2((150 - e) as nat) as int);
            lemma_div_nonincreasing(base as int, pow2((150 - e) as nat) as int);
        }
        base / p
    };
    if negative {
        -(mag as i32)
    } else {
        mag as i32
    }
}

/// What the saturating cast of the encoded value to `u8` yields:
/// NaN goes to 0, everything else truncates toward zero and saturates at 0 and 255.
pub open spec fn to_u8_cast(a: u32) -> int {
    if to_i32_cast(a) < 0 {
        0
    } else if to_i32_cast(a) > 255 {
        255
    } else {
        to_i32_cast(a)
    }
}

/// The saturating cast of the encoded value to `u8`, as `as u8` performs it.
pub fn f32_to_u8(a: u32) -> (r: u8)
    ensures
        r as int == to_u8_cast(a),
{
    let v = f32_to_i32(a);
    if v < 0 {
        0
    } else if v > 255 {
        255
    } else {
        v as u8
    }
}

/// The bit pattern nearest to a positive integer magnitude, rounding
/// to nearest with ties to even; exact whenever the magnitude has at
/// most 24 binary digits.
pub open spec fn from_int_mag(mag: nat) -> u32 {
    let k = bit_len(mag);
    if k <= 24 {
        make_bits(0, (126 + k) as u32, (mag * pow2((24 - k) as nat) - 0x80_0000) as u32)
    } else {
        let shift = (k - 24) as nat;
        let keep = mag / pow2(shift);
        let rem = mag % pow2(shift);
        let half = pow2((shift - 1) as nat);
        let keep2: nat = if rem > half || (rem == half && keep % 2 == 1) {
            (keep + 1) as nat
        } else {
            keep
        };
        if keep2 == 0x100_0000 {
            make_bits(0, (127 + k) as u32, 0)
        } else {
            make_bits(0, (126 + k) as u32, (keep2 - 0x80_0000) as u32)
        }
    }
}

/// What the cast of an `i32` to single precision yields: the nearest
/// representable value, ties to even; exact up to 24 binary digits.
pub open spec fn from_i32_bits(n: int) -> u32 {
    if n == 0 {
        POS_ZERO
    } else if n > 0 {
        from_int_mag(n as nat)
    } else {
        neg_bits(from_int_mag((-n) as nat))
    }
}

/// The rounding of a positive magnitude to a bit pattern.
fn from_mag_u32(mag: u32) -> (r: u32)
    requires
        mag > 0,
    ensures
        r == from_int_mag(mag as nat),
{
    proof {
        lemma_bit_len_le_32(mag);
        lemma_bit_len_bounds(mag as nat);
    }
    let k = bit_len_u32(mag);
    if k <= 24 {
        let p = pow2_u32(24 - k);
        proof {
            lemma_pow2_adds((k - 1) as nat, (24 - k) as nat);
            lemma_pow2_adds(k as nat, (24 - k) as nat);
            lemma2_to64();
            lemma_mul_inequality(pow2((k - 1) as nat) as int, mag as int, pow2((24 - k) as nat) as int);
            lemma_mul_strict_inequality(mag as int, pow2(k as nat) as int, pow2((24 - k) as nat) as int);
        }
        let scaled: u32 = mag * p;
        let e: u32 = 126 + k;
        proof {
            lemma_make_fields(0, e, (scaled - 0x80_0000) as u32);
        }
        e * 0x80_0000 + (scaled - 0x80_0000)
    } else {
        let shift = k - 24;
        let p = pow2_u32(shift);
        proof {
            lemma_pow2_pos(shift as nat);
            lemma_pow2_adds(23, shift as nat);
            lemma_pow2_adds(24, shift as nat);
            lemma2_to64();
            lemma_div_is_ordered(pow2((k - 1) as nat) as int, mag as int, pow2(shift as nat) as int);
            lemma_div_by_multiple(pow2(23) as int, pow2(shift as nat) as int);
            lemma_multiply_divide_lt(mag as int, pow2(shift as nat) as int, pow2(24) as int);
            lemma_pow2_unfold(shift as nat);
            lemma_div_by_multiple(pow2((shift - 1) as nat) as int, 2);
        }
        let keep: u32 = mag / p;
        let rem: u32 = mag % p;
        let half: u32 = p / 2;
        assert(half == pow2((shift - 1) as nat)) by {
            lemma_pow2_unfold(shift as nat);
            lemma_pow2_pos((shift - 1) as nat);
            lemma_div_by_multiple(pow2((shift - 1) as nat) as int, 2);
            assert(pow2(shift as nat) == pow2((shift - 1) as nat) * 2) by {
                lemma_pow2_adds((shift - 1) as nat, 1);
                lemma2_to64();
            }
        }
        let keep2: u32 = if rem > half || (rem == half && keep % 2 == 1) {
            keep + 1
        } else {
            keep
        };
        if keep2 == 0x100_0000 {
            let e: u32 = 127 + k;
            proof {
                lemma_make_fields(0, e, 0);
            }
            e * 0x80_0000
        } else {
            let e: u32 = 126 + k;
            proof {
                lemma_make_fields(0, e, (keep2 - 0x80_0000) as u32);
            }
            e * 0x80_0000 + (keep2 - 0x80_0000)
        }
    }
}

/// The rounding of a positive magnitude yields a positive, finite,
/// nonzero pattern.
pub proof fn lemma_from_int_mag_fields(mag: nat)
    requires
        1 <= mag <= 0x8000_0000,
    ensures
        sign_field(from_int_mag(mag)) == 0,
        127 <= exp_field(from_int_mag(mag)) <= 159,
        is_finite_bits(from_int_mag(mag)),
        mag_field(from_int_mag(mag)) != 0,
{
    lemma_bit_len_bounds(mag);
    let k = bit_len(mag);
    assert(k >= 1);
    if k > 32 {
        lemma_pow2_adds(31, 1);
        lemma2_to64();
        if k - 1 > 32 {
            lemma_pow2_strictly_increases(32, (k - 1) as nat);
        }
        assert(false);
    }
    if k <= 24 {
        let p = pow2((24 - k) as nat);
        lemma_pow2_adds((k - 1) as nat, (24 - k) as nat);
        lemma_pow2_adds(k as nat, (24 - k) as nat);
        lemma2_to64();
        lemma_mul_inequality(pow2((k - 1) as nat) as int, mag as int, p as int);
        lemma_mul_strict_inequality(mag as int, pow2(k as nat) as int, p as int);
        let m = (mag * p - 0x80_0000) as u32;
        lemma_make_fields(0, (126 + k) as u32, m);
        lemma_fields(make_bits(0, (126 + k) as u32, m));
    } else {
        let shift = (k - 24) as nat;
        lemma_pow2_pos(shift);
        lemma_pow2_adds(23, shift);
        lemma_pow2_adds(24, shift);
        lemma2_to64();
        lemma_div_is_ordered(pow2((k - 1) as nat) as int, mag as int, pow2(shift) as int);
        lemma_div_by_multiple(pow2(23) as int, pow2(shift) as int);
        lemma_multiply_divide_lt(mag as int, pow2(shift) as int, pow2(24) as int);
        let keep = mag / pow2(shift);
        assert(0x80_0000 <= keep < 0x100_0000);
        let rem = mag % pow2(shift);
        let half = pow2((shift - 1) as nat);
        let keep2: nat = if rem > half || (rem == half && keep % 2 == 1) {
            (keep + 1) as nat
        } else {
            keep
        };
        if keep2 == 0x100_0000 {
            lemma_make_fields(0, (127 + k) as u32, 0);
            lemma_fields(make_bits(0, (127 + k) as u32, 0));
        } else {
            let m = (keep2 - 0x80_0000) as u32;
            lemma_make_fields(0, (126 + k) as u32, m);
            lemma_fields(make_bits(0, (126 + k) as u32, m));
        }
    }
}

/// The cast of any `i32` yields a finite pattern, and never negative zero.
pub proof fn lemma_from_i32_fields(n: int)
    requires
        -0x8000_0000 <= n <= 0x7FFF_FFFF,
    ensures
        is_finite_bits(from_i32_bits(n)),
        from_i32_bits(n) != NEG_ZERO,
        n == 0 ==> from_i32_bits(n) == POS_ZERO,
{
    lemma_fields(POS_ZERO);
    lemma_fields(NEG_ZERO);
    if n > 0 {
        lemma_from_int_mag_fields(n as nat);
        lemma_fields(from_int_mag(n as nat));
    } else if n < 0 {
        lemma_from_int_mag_fields((-n) as nat);
        lemma_neg_fields(from_int_mag((-n) as nat));
        lemma_fields(neg_bits(from_int_mag((-n) as nat)));
    }
}

/// The cast of an `i32` to single precision, as `as` performs it:
/// nearest representable value, ties to even.
pub fn i32_to_f32(n: i32) -> (r: u32)
    ensures
        r == from_i32_bits(n as int),
{
    if n == 0 {
        return POS_ZERO;
    }
    let mag: u32 = if n < 0 {
        (-(n as i64)) as u32
    } else {
        n as u32
    };
    let b = from_mag_u32(mag);
    if n < 0 {
        neg(b)
    } else {
        b
    }
}

} // verus!
