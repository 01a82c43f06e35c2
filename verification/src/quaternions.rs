//! A quaternion algebra over single-precision bit patterns: the Hamilton
//! product, conjugation and inversion, axis-angle and Euler-angle
//! construction, Euler extraction with gimbal-lock handling, spherical
//! interpolation and vector rotation. Every method states its result as the
//! exact composition of the named IEEE-754 operations it performs; that the
//! identity rotation inverts to itself is stated and proved exactly.

use vstd::prelude::*;

verus! {

use crate::arith::add_of;
use crate::arith::sub_of;
use crate::arith::mul_of;
use crate::arith::div_of;
use crate::arith::add_bits;
use crate::arith::sub_bits;
use crate::arith::mul_bits;
use crate::arith::div_bits;
use crate::ieee;
use crate::ieee::POS_ZERO;
use crate::ieee::NEG_ZERO;
use crate::ieee::ONE_BITS;
use crate::ieee::lt_bits;
use crate::ieee::eq_bits;
use crate::ieee::neg_bits;
use crate::ieee::is_nan_bits;
use crate::math::Math;
use crate::math::spec_approx_epsilon;
use crate::math::spec_clamp;
use crate::math::APPROX_EPSILON_BITS;
use crate::math::HALF_BITS;
use crate::math::TWO_BITS;
use crate::explog::spec_sqrt;
use crate::trig::spec_sin_cos;
use crate::trig::spec_acos;
use crate::trig::spec_atan2;
use crate::trig::NEG_PI_OVER_2_BITS;
use crate::vector2::Vector2;
use crate::vector2::NEG_TWO_BITS;
use crate::vector3::Vector3;
use crate::vector3::spec_add3;
use crate::vector3::spec_cross;
use crate::vector3::spec_multiply_scalar3;
use crate::vector3::spec_normalize3;
use crate::vector3::SLERP_DOT_LIMIT_BITS;

/// Bit pattern of -0.5, the half-angle factor of the Euler construction.
pub const NEG_HALF_BITS: u32 = 0xBF00_0000;

/// Bit pattern of the gimbal-lock threshold 0.499999995, which rounds to
/// one half in single precision.
pub const SINGULARITY_TEST_BITS: u32 = 0x3F00_0000;

/// Bit pattern of the negated gimbal-lock threshold.
pub const NEG_SINGULARITY_TEST_BITS: u32 = 0xBF00_0000;

/// A quaternion (a + b·i + c·j + d·k) whose components are single-precision
/// values carried as their bit patterns; a unit quaternion encodes a 3D
/// rotation.
#[derive(Debug, Clone, Copy)]
pub struct Quaternion {
    /// The real component of the quaternion.
    pub a: u32,
    /// The first imaginary component (i) of the quaternion.
    pub b: u32,
    /// The second imaginary component (j) of the quaternion.
    pub c: u32,
    /// The third imaginary component (k) of the quaternion.
    pub d: u32,
}

/// The squared magnitude of a quaternion.
pub open spec fn spec_squared_magnitude_q(q: Quaternion) -> u32 {
    add_of(
        add_of(add_of(mul_of(q.a, q.a), mul_of(q.b, q.b)), mul_of(q.c, q.c)),
        mul_of(q.d, q.d),
    )
}

/// The magnitude of a quaternion: the squared magnitude passes through when
/// it is zero or one, otherwise its square root is taken.
pub open spec fn spec_magnitude_q(q: Quaternion) -> u32 {
    let m = spec_squared_magnitude_q(q);
    if eq_bits(m, POS_ZERO) || eq_bits(m, ONE_BITS) {
        m
    } else {
        spec_sqrt(m)
    }
}

/// The conjugate of a quaternion: the imaginary components negated.
pub open spec fn spec_conjugate(q: Quaternion) -> Quaternion {
    Quaternion { a: q.a, b: neg_bits(q.b), c: neg_bits(q.c), d: neg_bits(q.d) }
}

/// The dot product of two quaternions.
pub open spec fn spec_dot_q(p: Quaternion, q: Quaternion) -> u32 {
    add_of(
        add_of(add_of(mul_of(p.a, q.a), mul_of(p.b, q.b)), mul_of(p.c, q.c)),
        mul_of(p.d, q.d),
    )
}

/// The componentwise sum of two quaternions.
pub open spec fn spec_add_q(p: Quaternion, q: Quaternion) -> Quaternion {
    Quaternion {
        a: add_of(p.a, q.a),
        b: add_of(p.b, q.b),
        c: add_of(p.c, q.c),
        d: add_of(p.d, q.d),
    }
}

/// The componentwise difference of two quaternions.
pub open spec fn spec_sub_q(p: Quaternion, q: Quaternion) -> Quaternion {
    Quaternion {
        a: sub_of(p.a, q.a),
        b: sub_of(p.b, q.b),
        c: sub_of(p.c, q.c),
        d: sub_of(p.d, q.d),
    }
}

/// A quaternion scaled by a scalar.
pub open spec fn spec_multiply_scalar_q(q: Quaternion, s: u32) -> Quaternion {
    Quaternion {
        a: mul_of(s, q.a),
        b: mul_of(s, q.b),
        c: mul_of(s, q.c),
        d: mul_of(s, q.d),
    }
}

/// A quaternion divided by a scalar; a zero divisor yields the zero
/// quaternion.
pub open spec fn spec_divide_scalar_q(q: Quaternion, s: u32) -> Quaternion {
    if eq_bits(s, POS_ZERO) {
        Quaternion { a: POS_ZERO, b: POS_ZERO, c: POS_ZERO, d: POS_ZERO }
    } else {
        Quaternion { a: div_of(q.a, s), b: div_of(q.b, s), c: div_of(q.c, s), d: div_of(q.d, s) }
    }
}

/// The componentwise negation of a quaternion.
pub open spec fn spec_negate_q(q: Quaternion) -> Quaternion {
    Quaternion { a: neg_bits(q.a), b: neg_bits(q.b), c: neg_bits(q.c), d: neg_bits(q.d) }
}

/// The Hamilton product of two quaternions.
pub open spec fn spec_multiply(p: Quaternion, q: Quaternion) -> Quaternion {
    Quaternion {
        a: sub_of(
            sub_of(sub_of(mul_of(p.a, q.a), mul_of(p.b, q.b)), mul_of(p.c, q.c)),
            mul_of(p.d, q.d),
        ),
        b: sub_of(
            add_of(add_of(mul_of(p.a, q.b), mul_of(p.b, q.a)), mul_of(p.c, q.d)),
            mul_of(p.d, q.c),
        ),
        c: add_of(
            add_of(sub_of(mul_of(p.a, q.c), mul_of(p.b, q.d)), mul_of(p.c, q.a)),
            mul_of(p.d, q.b),
        ),
        d: add_of(
            sub_of(add_of(mul_of(p.a, q.d), mul_of(p.b, q.c)), mul_of(p.c, q.b)),
            mul_of(p.d, q.a),
        ),
    }
}

/// What `invert` returns: the conjugate divided by the squared magnitude,
/// with a zero quaternion passing through unchanged.
pub open spec fn spec_invert(q: Quaternion) -> Quaternion {
    let m = spec_squared_magnitude_q(q);
    if eq_bits(m, POS_ZERO) {
        q
    } else {
        spec_divide_scalar_q(spec_conjugate(q), m)
    }
}

/// What `divide` returns: the product with the conjugate, divided by that
/// product's squared magnitude.
pub open spec fn spec_divide_q(p: Quaternion, q: Quaternion) -> Quaternion {
    let divided = spec_multiply(p, spec_conjugate(q));
    spec_divide_scalar_q(divided, spec_squared_magnitude_q(divided))
}

/// What rotating a 3D vector by a quaternion returns: the double-cross
/// rotation formula v + 2·(q_vec × (q_vec × v + a·v)).
pub open spec fn spec_multiply_vector3(q: Quaternion, v: Vector3) -> Vector3 {
    let vector = Vector3 { x: q.b, y: q.c, z: q.d };
    spec_add3(
        v,
        spec_multiply_scalar3(
            spec_cross(vector, spec_add3(spec_cross(vector, v), spec_multiply_scalar3(v, q.a))),
            TWO_BITS,
        ),
    )
}

/// What `from_axis_angle` returns: the cosine of the half angle and the
/// normalized axis scaled by its sine.
pub open spec fn spec_from_axis_angle(axis: Vector3, angle: u32) -> Quaternion {
    let sc = spec_sin_cos(mul_of(HALF_BITS, angle));
    let norm = spec_normalize3(axis);
    Quaternion {
        a: sc.1,
        b: mul_of(sc.0, norm.x),
        c: mul_of(sc.0, norm.y),
        d: mul_of(sc.0, norm.z),
    }
}

/// What `from_euler` returns: the yaw-pitch-roll composition over the
/// negated half angles.
pub open spec fn spec_from_euler(euler_angles: Vector3) -> Quaternion {
    let scy = spec_sin_cos(mul_of(NEG_HALF_BITS, euler_angles.x));
    let scp = spec_sin_cos(mul_of(NEG_HALF_BITS, euler_angles.y));
    let scr = spec_sin_cos(mul_of(NEG_HALF_BITS, euler_angles.z));
    Quaternion {
        a: sub_of(mul_of(mul_of(scy.1, scp.1), scr.1), mul_of(mul_of(scy.0, scp.0), scr.0)),
        b: sub_of(mul_of(mul_of(scy.1, scp.0), scr.0), mul_of(mul_of(scy.0, scp.1), scr.1)),
        c: sub_of(
            neg_bits(mul_of(mul_of(scy.1, scp.0), scr.1)),
            mul_of(mul_of(scy.0, scp.1), scr.0),
        ),
        d: sub_of(
            neg_bits(mul_of(mul_of(scy.0, scp.0), scr.1)),
            mul_of(mul_of(scy.1, scp.1), scr.0),
        ),
    }
}

/// What `euler` returns: the yaw-pitch-roll angles, with the two gimbal-lock
/// regimes detected against the threshold times the squared magnitude and
/// mapped to continuous degenerate triples.
pub open spec fn spec_euler(q: Quaternion) -> Vector3 {
    let sq_a = mul_of(q.a, q.a);
    let sq_b = mul_of(q.b, q.b);
    let sq_c = mul_of(q.c, q.c);
    let sq_d = mul_of(q.d, q.d);
    let unit = add_of(add_of(add_of(sq_a, sq_b), sq_c), sq_d);
    let singularity_test = add_of(mul_of(q.b, q.d), mul_of(q.a, q.c));
    if lt_bits(mul_of(SINGULARITY_TEST_BITS, unit), singularity_test) {
        Vector3 {
            x: POS_ZERO,
            y: Math::PI_OVER_2,
            z: mul_of(TWO_BITS, spec_atan2(q.b, q.a)),
        }
    } else if lt_bits(singularity_test, mul_of(NEG_SINGULARITY_TEST_BITS, unit)) {
        Vector3 {
            x: POS_ZERO,
            y: NEG_PI_OVER_2_BITS,
            z: mul_of(NEG_TWO_BITS, spec_atan2(q.b, q.a)),
        }
    } else {
        Vector3 {
            x: spec_atan2(
                mul_of(TWO_BITS, sub_of(mul_of(q.a, q.b), mul_of(q.c, q.d))),
                add_of(sub_of(sub_of(sq_a, sq_b), sq_c), sq_d),
            ),
            y: crate::trig::spec_asin(div_of(mul_of(TWO_BITS, singularity_test), unit)),
            z: spec_atan2(
                mul_of(TWO_BITS, sub_of(mul_of(q.a, q.d), mul_of(q.b, q.c))),
                sub_of(sub_of(add_of(sq_a, sq_b), sq_c), sq_d),
            ),
        }
    }
}

/// What `slerp_unclamped` returns: a shortest-arc spherical interpolation of
/// the two normalized quaternions, with a linear fallback near parallel.
pub open spec fn spec_slerp_unclamped_q(p: Quaternion, q: Quaternion, t: u32) -> Quaternion {
    let unit_self = spec_normalize_q(p);
    let unit_rhs0 = spec_normalize_q(q);
    let dot0 = spec_dot_q(unit_self, unit_rhs0);
    let unit_rhs1 = if lt_bits(dot0, POS_ZERO) {
        spec_negate_q(unit_rhs0)
    } else {
        unit_rhs0
    };
    let dot1 = if lt_bits(dot0, POS_ZERO) {
        neg_bits(dot0)
    } else {
        dot0
    };
    if lt_bits(SLERP_DOT_LIMIT_BITS, dot1) {
        spec_normalize_q(
            spec_add_q(
                unit_self,
                spec_multiply_scalar_q(spec_sub_q(unit_rhs1, unit_self), t),
            ),
        )
    } else {
        let angle = mul_of(t, spec_acos(dot1));
        let unit_rhs2 = spec_normalize_q(
            spec_sub_q(unit_rhs1, spec_multiply_scalar_q(unit_self, dot1)),
        );
        let sc = spec_sin_cos(angle);
        spec_add_q(
            spec_multiply_scalar_q(unit_self, sc.1),
            spec_multiply_scalar_q(unit_rhs2, sc.0),
        )
    }
}

/// What `normalize` returns: the quaternion divided by its magnitude, so
/// the zero quaternion maps to the zero quaternion.
pub open spec fn spec_normalize_q(q: Quaternion) -> Quaternion {
    spec_divide_scalar_q(q, spec_magnitude_q(q))
}

impl Quaternion {
    /// Creates a new quaternion.
    pub fn new(a: u32, b: u32, c: u32, d: u32) -> (r: Self)
        ensures
            r.a == a,
            r.b == b,
            r.c == c,
            r.d == d,
    {
        Quaternion { a, b, c, d }
    }

    /// Creates the identity quaternion: (1, 0, 0, 0).
    pub fn identity() -> (r: Self)
        ensures
            r.a == ONE_BITS,
            r.b == POS_ZERO,
            r.c == POS_ZERO,
            r.d == POS_ZERO,
    {
        Quaternion::new(ONE_BITS, POS_ZERO, POS_ZERO, POS_ZERO)
    }

    /// Creates a quaternion from an axis and an angle in radians.
    pub fn from_axis_angle(axis: Vector3, angle: u32) -> (r: Self)
        ensures
            r == spec_from_axis_angle(axis, angle),
    {
        let sc = Math::sin_cos(mul_bits(HALF_BITS, angle));
        let norm = axis.normalize();
        Quaternion::new(
            sc.1,
            mul_bits(sc.0, norm.x()),
            mul_bits(sc.0, norm.y()),
            mul_bits(sc.0, norm.z()),
        )
    }

    /// Creates a quaternion from an axis and an angle in degrees.
    pub fn from_axis_angle_deg(axis: Vector3, angle: u32) -> (r: Self)
        ensures
            r == spec_from_axis_angle(axis, mul_of(Math::DEG_TO_RAD, angle)),
    {
        Quaternion::from_axis_angle(axis, Math::deg2rad(angle))
    }

    /// Creates a quaternion from Euler angles in radians (yaw-pitch-roll).
    pub fn from_euler(euler_angles: Vector3) -> (r: Self)
        ensures
            r == spec_from_euler(euler_angles),
    {
        let scy = Math::sin_cos(mul_bits(NEG_HALF_BITS, euler_angles.x()));
        let scp = Math::sin_cos(mul_bits(NEG_HALF_BITS, euler_angles.y()));
        let scr = Math::sin_cos(mul_bits(NEG_HALF_BITS, euler_angles.z()));
        Quaternion::new(
            sub_bits(mul_bits(mul_bits(scy.1, scp.1), scr.1), mul_bits(mul_bits(scy.0, scp.0), scr.0)),
            sub_bits(mul_bits(mul_bits(scy.1, scp.0), scr.0), mul_bits(mul_bits(scy.0, scp.1), scr.1)),
            sub_bits(
                ieee::neg(mul_bits(mul_bits(scy.1, scp.0), scr.1)),
                mul_bits(mul_bits(scy.0, scp.1), scr.0),
            ),
            sub_bits(
                ieee::neg(mul_bits(mul_bits(scy.0, scp.0), scr.1)),
                mul_bits(mul_bits(scy.1, scp.1), scr.0),
            ),
        )
    }

    /// Creates a quaternion from Euler angles in degrees (yaw-pitch-roll).
    pub fn from_euler_deg(euler_angles: Vector3) -> (r: Self)
        ensures
            r == spec_from_euler(
                (Vector3 {
                    x: mul_of(Math::DEG_TO_RAD, euler_angles.x),
                    y: mul_of(Math::DEG_TO_RAD, euler_angles.y),
                    z: mul_of(Math::DEG_TO_RAD, euler_angles.z),
                }),
            ),
    {
        Quaternion::from_euler(
            Vector3::new(
                Math::deg2rad(euler_angles.x()),
                Math::deg2rad(euler_angles.y()),
                Math::deg2rad(euler_angles.z()),
            ),
        )
    }

    /// Gets the real component of the quaternion.
    pub fn a(&self) -> (r: u32)
        ensures
            r == self.a,
    {
        self.a
    }

    /// Sets the real component of the quaternion.
    pub fn set_a(&mut self, value: u32)
        ensures
            final(self).a == value,
            final(self).b == old(self).b,
            final(self).c == old(self).c,
            final(self).d == old(self).d,
    {
        self.a = value;
    }

    /// Gets the first imaginary component (i) of the quaternion.
    pub fn b(&self) -> (r: u32)
        ensures
            r == self.b,
    {
        self.b
    }

    /// Sets the first imaginary component (i) of the quaternion.
    pub fn set_b(&mut self, value: u32)
        ensures
            final(self).a == old(self).a,
            final(self).b == value,
            final(self).c == old(self).c,
            final(self).d == old(self).d,
    {
        self.b = value;
    }

    /// Gets the second imaginary component (j) of the quaternion.
    pub fn c(&self) -> (r: u32)
        ensures
            r == self.c,
    {
        self.c
    }

    /// Sets the second imaginary component (j) of the quaternion.
    pub fn set_c(&mut self, value: u32)
        ensures
            final(self).a == old(self).a,
            final(self).b == old(self).b,
            final(self).c == value,
            final(self).d == old(self).d,
    {
        self.c = value;
    }

    /// Gets the third imaginary component (k) of the quaternion.
    pub fn d(&self) -> (r: u32)
        ensures
            r == self.d,
    {
        self.d
    }

    /// Sets the third imaginary component (k) of the quaternion.
    pub fn set_d(&mut self, value: u32)
        ensures
            final(self).a == old(self).a,
            final(self).b == old(self).b,
            final(self).c == old(self).c,
            final(self).d == value,
    {
        self.d = value;
    }

    /// Extracts the Euler angles (yaw-pitch-roll) in radians, detecting the
    /// gimbal-lock singularities.
    pub fn euler(&self) -> (r: Vector3)
        ensures
            r == spec_euler(*self),
    {
        let sq_a = mul_bits(self.a, self.a);
        let sq_b = mul_bits(self.b, self.b);
        let sq_c = mul_bits(self.c, self.c);
        let sq_d = mul_bits(self.d, self.d);
        let unit = add_bits(add_bits(add_bits(sq_a, sq_b), sq_c), sq_d);
        let singularity_test = add_bits(mul_bits(self.b, self.d), mul_bits(self.a, self.c));
        if ieee::gt(singularity_test, mul_bits(SINGULARITY_TEST_BITS, unit)) {
            return Vector3::new(
                POS_ZERO,
                Math::PI_OVER_2,
                mul_bits(TWO_BITS, Math::atan2(self.b, self.a)),
            );
        }
        if ieee::lt(singularity_test, mul_bits(NEG_SINGULARITY_TEST_BITS, unit)) {
            return Vector3::new(
                POS_ZERO,
                NEG_PI_OVER_2_BITS,
                mul_bits(NEG_TWO_BITS, Math::atan2(self.b, self.a)),
            );
        }
        Vector3::new(
            Math::atan2(
                mul_bits(TWO_BITS, sub_bits(mul_bits(self.a, self.b), mul_bits(self.c, self.d))),
                add_bits(sub_bits(sub_bits(sq_a, sq_b), sq_c), sq_d),
            ),
            Math::asin(div_bits(mul_bits(TWO_BITS, singularity_test), unit)),
            Math::atan2(
                mul_bits(TWO_BITS, sub_bits(mul_bits(self.a, self.d), mul_bits(self.b, self.c))),
                sub_bits(sub_bits(add_bits(sq_a, sq_b), sq_c), sq_d),
            ),
        )
    }

    /// Sets this quaternion from Euler angles in radians.
    pub fn set_euler(&mut self, value: Vector3)
        ensures
            *final(self) == spec_from_euler(value),
    {
        let quat = Quaternion::from_euler(value);
        self.a = quat.a;
        self.b = quat.b;
        self.c = quat.c;
        self.d = quat.d;
    }

    /// Extracts the Euler angles (yaw-pitch-roll) in degrees.
    pub fn euler_deg(&self) -> (r: Vector3)
        ensures
            ({
                let e = spec_euler(*self);
                r.x == mul_of(Math::RAD_TO_DEG, e.x) && r.y == mul_of(Math::RAD_TO_DEG, e.y)
                    && r.z == mul_of(Math::RAD_TO_DEG, e.z)
            }),
    {
        let e = self.euler();
        Vector3::new(Math::rad2deg(e.x()), Math::rad2deg(e.y()), Math::rad2deg(e.z()))
    }

    /// Sets this quaternion from Euler angles in degrees.
    pub fn set_euler_deg(&mut self, value: Vector3)
        ensures
            *final(self) == spec_from_euler(
                (Vector3 {
                    x: mul_of(Math::DEG_TO_RAD, value.x),
                    y: mul_of(Math::DEG_TO_RAD, value.y),
                    z: mul_of(Math::DEG_TO_RAD, value.z),
                }),
            ),
    {
        let quat = Quaternion::from_euler_deg(value);
        self.a = quat.a;
        self.b = quat.b;
        self.c = quat.c;
        self.d = quat.d;
    }

    /// Gets the magnitude of the quaternion; the zero quaternion has
    /// magnitude exactly +0.
    pub fn magnitude(&self) -> (r: u32)
        ensures
            r == spec_magnitude_q(*self),
    {
        proof {
            ieee::lemma_fields(POS_ZERO);
            ieee::lemma_fields(ONE_BITS);
        }
        let magnitude = self.squared_magnitude();
        if ieee::eq_val(magnitude, POS_ZERO) || ieee::eq_val(magnitude, ONE_BITS) {
            return magnitude;
        }
        Math::sqrt(magnitude)
    }

    /// Gets the magnitude squared, avoiding the square root; exactly 1 on
    /// the identity quaternion.
    pub fn squared_magnitude(&self) -> (r: u32)
        ensures
            r == spec_squared_magnitude_q(*self),
            self.a == ONE_BITS && self.b == POS_ZERO && self.c == POS_ZERO && self.d == POS_ZERO
                ==> r == ONE_BITS,
    {
        proof {
            ieee::lemma_fields(POS_ZERO);
            ieee::lemma_fields(NEG_ZERO);
            ieee::lemma_fields(ONE_BITS);
        }
        add_bits(
            add_bits(add_bits(mul_bits(self.a, self.a), mul_bits(self.b, self.b)), mul_bits(self.c, self.c)),
            mul_bits(self.d, self.d),
        )
    }

    /// The conjugate of the quaternion: the imaginary components negated.
    pub fn conjugate(self) -> (r: Quaternion)
        ensures
            r == spec_conjugate(self),
    {
        Quaternion::new(self.a, ieee::neg(self.b), ieee::neg(self.c), ieee::neg(self.d))
    }

    /// Divides this quaternion by another as a whole: the product with the
    /// conjugate, divided by that product's squared magnitude.
    pub fn divide(self, rhs: Quaternion) -> (r: Quaternion)
        ensures
            r == spec_divide_q(self, rhs),
    {
        let divided = self.multiply(rhs.conjugate());
        let m = divided.squared_magnitude();
        divided.divide_scalar(m)
    }

    /// Gets the dot product of the two quaternions.
    pub fn dot(self, rhs: Quaternion) -> (r: u32)
        ensures
            r == spec_dot_q(self, rhs),
    {
        add_bits(
            add_bits(add_bits(mul_bits(self.a, rhs.a), mul_bits(self.b, rhs.b)), mul_bits(self.c, rhs.c)),
            mul_bits(self.d, rhs.d),
        )
    }

    /// Inverts the quaternion: the conjugate divided by the squared
    /// magnitude, with a zero quaternion passing through unchanged. The
    /// identity quaternion inverts to a value that compares equal to the
    /// identity in every component.
    pub fn invert(self) -> (r: Quaternion)
        ensures
            r == spec_invert(self),
            self.a == ONE_BITS && self.b == POS_ZERO && self.c == POS_ZERO && self.d == POS_ZERO
                ==> {
                &&& eq_bits(r.a, ONE_BITS)
                &&& eq_bits(r.b, POS_ZERO)
                &&& eq_bits(r.c, POS_ZERO)
                &&& eq_bits(r.d, POS_ZERO)
            },
    {
        proof {
            ieee::lemma_fields(POS_ZERO);
            ieee::lemma_fields(NEG_ZERO);
            ieee::lemma_fields(ONE_BITS);
            ieee::lemma_neg_fields(POS_ZERO);
        }
        let magnitude = self.squared_magnitude();
        if ieee::eq_val(magnitude, POS_ZERO) {
            return self;
        }
        self.conjugate().divide_scalar(magnitude)
    }

    /// The Hamilton product of the two quaternions (non-commutative).
    pub fn multiply(self, rhs: Quaternion) -> (r: Quaternion)
        ensures
            r == spec_multiply(self, rhs),
    {
        Quaternion::new(
            sub_bits(
                sub_bits(
                    sub_bits(mul_bits(self.a, rhs.a), mul_bits(self.b, rhs.b)),
                    mul_bits(self.c, rhs.c),
                ),
                mul_bits(self.d, rhs.d),
            ),
            sub_bits(
                add_bits(
                    add_bits(mul_bits(self.a, rhs.b), mul_bits(self.b, rhs.a)),
                    mul_bits(self.c, rhs.d),
                ),
                mul_bits(self.d, rhs.c),
            ),
            add_bits(
                add_bits(
                    sub_bits(mul_bits(self.a, rhs.c), mul_bits(self.b, rhs.d)),
                    mul_bits(self.c, rhs.a),
                ),
                mul_bits(self.d, rhs.b),
            ),
            add_bits(
                sub_bits(
                    add_bits(mul_bits(self.a, rhs.d), mul_bits(self.b, rhs.c)),
                    mul_bits(self.c, rhs.b),
                ),
                mul_bits(self.d, rhs.a),
            ),
        )
    }

    /// Rotates a 2D vector by this quaternion, through the 3D rotation.
    pub fn multiply_vector2(self, rhs: Vector2) -> (r: Vector2)
        ensures
            ({
                let v = spec_multiply_vector3(self, (Vector3 { x: rhs.x, y: rhs.y, z: POS_ZERO }));
                r.x == v.x && r.y == v.y
            }),
    {
        self.multiply_vector3(rhs.to_vector3()).to_vector2()
    }

    /// Rotates a 3D vector by this quaternion with the double-cross formula.
    pub fn multiply_vector3(self, rhs: Vector3) -> (r: Vector3)
        ensures
            r == spec_multiply_vector3(self, rhs),
    {
        let vector = Vector3::new(self.b, self.c, self.d);
        rhs.add_other(
            Vector3::cross(
                vector,
                Vector3::cross(vector, rhs).add_other(rhs.multiply_scalar(self.a)),
            ).multiply_scalar(TWO_BITS),
        )
    }

    /// Normalizes the quaternion to unit magnitude; the zero quaternion
    /// stays the zero quaternion.
    pub fn normalize(self) -> (r: Quaternion)
        ensures
            r == spec_normalize_q(self),
    {
        let m = self.magnitude();
        self.divide_scalar(m)
    }

    /// Spherically interpolates between this and the other quaternion, with
    /// the ratio clamped between 0.0 and 1.0.
    pub fn slerp(self, rhs: Quaternion, t: u32) -> (r: Quaternion)
        ensures
            r == spec_slerp_unclamped_q(self, rhs, spec_clamp(t, POS_ZERO, ONE_BITS)),
    {
        proof {
            ieee::lemma_fields(POS_ZERO);
            ieee::lemma_fields(ONE_BITS);
        }
        self.slerp_unclamped(rhs, Math::clamp(t, POS_ZERO, ONE_BITS))
    }

    /// Spherically interpolates between this and the other quaternion: the
    /// shorter arc is taken and near-parallel orientations fall back to
    /// linear interpolation.
    pub fn slerp_unclamped(self, rhs: Quaternion, t: u32) -> (r: Quaternion)
        ensures
            r == spec_slerp_unclamped_q(self, rhs, t),
    {
        let unit_self = self.normalize();
        let mut unit_rhs = rhs.normalize();
        let mut dot = unit_self.dot(unit_rhs);
        if ieee::lt(dot, POS_ZERO) {
            unit_rhs = unit_rhs.negate();
            dot = ieee::neg(dot);
        }
        if ieee::gt(dot, SLERP_DOT_LIMIT_BITS) {
            return unit_self.add_other(
                unit_rhs.subtract_other(unit_self).multiply_scalar(t),
            ).normalize();
        }
        let angle = mul_bits(t, Math::acos(dot));
        let unit = unit_self.multiply_scalar(dot);
        let unit_rhs2 = unit_rhs.subtract_other(unit).normalize();
        let sc = Math::sin_cos(angle);
        unit_self.multiply_scalar(sc.1).add_other(unit_rhs2.multiply_scalar(sc.0))
    }

    /// The componentwise sum with another quaternion.
    pub fn add_other(self, rhs: Quaternion) -> (r: Quaternion)
        ensures
            r == spec_add_q(self, rhs),
    {
        Quaternion::new(
            add_bits(self.a, rhs.a),
            add_bits(self.b, rhs.b),
            add_bits(self.c, rhs.c),
            add_bits(self.d, rhs.d),
        )
    }

    /// Adds another quaternion into this one.
    pub fn add_assign_other(&mut self, rhs: Quaternion)
        ensures
            *final(self) == spec_add_q(*old(self), rhs),
    {
        self.a = add_bits(self.a, rhs.a);
        self.b = add_bits(self.b, rhs.b);
        self.c = add_bits(self.c, rhs.c);
        self.d = add_bits(self.d, rhs.d);
    }

    /// The componentwise difference with another quaternion.
    pub fn subtract_other(self, rhs: Quaternion) -> (r: Quaternion)
        ensures
            r == spec_sub_q(self, rhs),
    {
        Quaternion::new(
            sub_bits(self.a, rhs.a),
            sub_bits(self.b, rhs.b),
            sub_bits(self.c, rhs.c),
            sub_bits(self.d, rhs.d),
        )
    }

    /// Subtracts another quaternion from this one.
    pub fn subtract_assign_other(&mut self, rhs: Quaternion)
        ensures
            *final(self) == spec_sub_q(*old(self), rhs),
    {
        self.a = sub_bits(self.a, rhs.a);
        self.b = sub_bits(self.b, rhs.b);
        self.c = sub_bits(self.c, rhs.c);
        self.d = sub_bits(self.d, rhs.d);
    }

    /// The quaternion scaled by a scalar.
    pub fn multiply_scalar(self, rhs: u32) -> (r: Quaternion)
        ensures
            r == spec_multiply_scalar_q(self, rhs),
    {
        Quaternion::new(
            mul_bits(rhs, self.a),
            mul_bits(rhs, self.b),
            mul_bits(rhs, self.c),
            mul_bits(rhs, self.d),
        )
    }

    /// Scales this quaternion by a scalar in place.
    pub fn multiply_assign_scalar(&mut self, rhs: u32)
        ensures
            final(self).a == mul_of(old(self).a, rhs),
            final(self).b == mul_of(old(self).b, rhs),
            final(self).c == mul_of(old(self).c, rhs),
            final(self).d == mul_of(old(self).d, rhs),
    {
        self.a = mul_bits(self.a, rhs);
        self.b = mul_bits(self.b, rhs);
        self.c = mul_bits(self.c, rhs);
        self.d = mul_bits(self.d, rhs);
    }

    /// The quaternion divided by a scalar; a zero divisor yields the zero
    /// quaternion, and dividing non-NaN components by 1.0 returns them
    /// unchanged.
    pub fn divide_scalar(self, rhs: u32) -> (r: Quaternion)
        ensures
            r == spec_divide_scalar_q(self, rhs),
            rhs == ONE_BITS && !is_nan_bits(self.a) && !is_nan_bits(self.b) && !is_nan_bits(self.c)
                && !is_nan_bits(self.d) ==> r == self,
    {
        proof {
            ieee::lemma_fields(POS_ZERO);
            ieee::lemma_fields(ONE_BITS);
        }
        if ieee::eq_val(rhs, POS_ZERO) {
            return Quaternion::new(POS_ZERO, POS_ZERO, POS_ZERO, POS_ZERO);
        }
        Quaternion::new(
            div_bits(self.a, rhs),
            div_bits(self.b, rhs),
            div_bits(self.c, rhs),
            div_bits(self.d, rhs),
        )
    }

    /// Divides this quaternion by a scalar in place; a zero divisor zeroes
    /// it.
    pub fn divide_assign_scalar(&mut self, rhs: u32)
        ensures
            *final(self) == spec_divide_scalar_q(*old(self), rhs),
    {
        proof {
            ieee::lemma_fields(POS_ZERO);
        }
        if ieee::eq_val(rhs, POS_ZERO) {
            self.a = POS_ZERO;
            self.b = POS_ZERO;
            self.c = POS_ZERO;
            self.d = POS_ZERO;
        } else {
            self.a = div_bits(self.a, rhs);
            self.b = div_bits(self.b, rhs);
            self.c = div_bits(self.c, rhs);
            self.d = div_bits(self.d, rhs);
        }
    }

    /// The scalar divided by each nonzero component, with zero where the
    /// component is zero.
    pub fn reciprocal_scalar(self, rhs: u32) -> (r: Quaternion)
        ensures
            r.a == (if !eq_bits(self.a, POS_ZERO) {
                div_of(rhs, self.a)
            } else {
                POS_ZERO
            }),
            r.b == (if !eq_bits(self.b, POS_ZERO) {
                div_of(rhs, self.b)
            } else {
                POS_ZERO
            }),
            r.c == (if !eq_bits(self.c, POS_ZERO) {
                div_of(rhs, self.c)
            } else {
                POS_ZERO
            }),
            r.d == (if !eq_bits(self.d, POS_ZERO) {
                div_of(rhs, self.d)
            } else {
                POS_ZERO
            }),
    {
        proof {
            ieee::lemma_fields(POS_ZERO);
        }
        Quaternion::new(
            if !ieee::eq_val(self.a, POS_ZERO) {
                div_bits(rhs, self.a)
            } else {
                POS_ZERO
            },
            if !ieee::eq_val(self.b, POS_ZERO) {
                div_bits(rhs, self.b)
            } else {
                POS_ZERO
            },
            if !ieee::eq_val(self.c, POS_ZERO) {
                div_bits(rhs, self.c)
            } else {
                POS_ZERO
            },
            if !ieee::eq_val(self.d, POS_ZERO) {
                div_bits(rhs, self.d)
            } else {
                POS_ZERO
            },
        )
    }

    /// The componentwise negation.
    pub fn negate(self) -> (r: Quaternion)
        ensures
            r == spec_negate_q(self),
    {
        Quaternion::new(ieee::neg(self.a), ieee::neg(self.b), ieee::neg(self.c), ieee::neg(self.d))
    }
}

impl PartialEq for Quaternion {
    /// Componentwise approximate equality with tolerance 1e-6.
    fn eq(&self, other: &Self) -> (r: bool) {
        Math::approx(self.a, other.a) && Math::approx(self.b, other.b) && Math::approx(
            self.c,
            other.c,
        ) && Math::approx(self.d, other.d)
    }
}

impl vstd::std_specs::cmp::PartialEqSpecImpl for Quaternion {
    open spec fn obeys_eq_spec() -> bool {
        true
    }

    open spec fn eq_spec(&self, other: &Quaternion) -> bool {
        spec_approx_epsilon(self.a, other.a, APPROX_EPSILON_BITS) && spec_approx_epsilon(
            self.b,
            other.b,
            APPROX_EPSILON_BITS,
        ) && spec_approx_epsilon(self.c, other.c, APPROX_EPSILON_BITS) && spec_approx_epsilon(
            self.d,
            other.d,
            APPROX_EPSILON_BITS,
        )
    }
}

} // verus!
