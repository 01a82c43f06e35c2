//! A 3D vector over single-precision bit patterns: arithmetic, magnitude and
//! normalization, dot and cross products, projection and reflection, angles,
//! spherical interpolation, a critically damped spring integrator and
//! quaternion-driven rotation. Every method states its result as the exact
//! composition of the named IEEE-754 operations it performs; the cross
//! product's anti-commutativity and self-annihilation are stated and proved
//! on its contract for every input whose products stay finite.

use vstd::prelude::*;

verus! {

use crate::arith::add_of;
use crate::arith::sub_of;
use crate::arith::mul_of;
use crate::arith::div_of;
use crate::arith::add_bits;
use crate::arith::sub_bits;
use crate::arith::mul_bits;
use crate::arith::div_bits;
use crate::ieee;
use crate::ieee::POS_ZERO;
use crate::ieee::NEG_ZERO;
use crate::ieee::ONE_BITS;
use crate::ieee::lt_bits;
use crate::ieee::le_bits;
use crate::ieee::eq_bits;
use crate::ieee::neg_bits;
use crate::ieee::is_nan_bits;
use crate::ieee::is_finite_bits;
use crate::math::Math;
use crate::math::spec_abs;
use crate::math::spec_approx_epsilon;
use crate::math::spec_clamp;
use crate::math::spec_sign;
use crate::math::spec_min;
use crate::math::spec_max;
use crate::math::APPROX_EPSILON_BITS;
use crate::math::NEG_ONE_BITS;
use crate::math::TWO_BITS;
use crate::explog::spec_sqrt;
use crate::trig::spec_sin_cos;
use crate::trig::spec_acos;
use crate::vector2::Vector2;
use crate::vector2::NEG_TWO_BITS;
use crate::vector2::ANGLE_EPSILON_BITS;
use crate::quaternions::Quaternion;
use crate::quaternions::spec_from_axis_angle;
use crate::quaternions::spec_multiply_vector3;

/// Bit pattern of 0.9995, above which spherical interpolation falls back to
/// linear interpolation.
pub const SLERP_DOT_LIMIT_BITS: u32 = 0x3F7F_DF3B;

/// Bit pattern of 1e-4, the smallest smoothing time of the spring integrator.
pub const SMOOTH_TIME_MIN_BITS: u32 = 0x38D1_B717;

/// Bit pattern of the quadratic coefficient of the spring integrator's
/// cubic correction.
pub const SMOOTH_C1_BITS: u32 = 0x3EF5_C28F;

/// Bit pattern of the cubic coefficient of the spring integrator's cubic
/// correction.
pub const SMOOTH_C2_BITS: u32 = 0x3E70_A3D7;

/// A 3D vector that holds an x, y and z coordinate, each a single-precision
/// value carried as its bit pattern.
#[derive(Debug, Clone, Copy)]
pub struct Vector3 {
    /// The x coordinate of the vector.
    pub x: u32,
    /// The y coordinate of the vector.
    pub y: u32,
    /// The z coordinate of the vector.
    pub z: u32,
}

/// The dot product of two 3D vectors.
pub open spec fn spec_dot3(a: Vector3, b: Vector3) -> u32 {
    add_of(add_of(mul_of(a.x, b.x), mul_of(a.y, b.y)), mul_of(a.z, b.z))
}

/// The squared magnitude of a 3D vector.
pub open spec fn spec_square_magnitude3(v: Vector3) -> u32 {
    add_of(add_of(mul_of(v.x, v.x), mul_of(v.y, v.y)), mul_of(v.z, v.z))
}

/// The magnitude of a 3D vector: the squared magnitude passes through when
/// it is zero or one, otherwise its square root is taken.
pub open spec fn spec_magnitude3(v: Vector3) -> u32 {
    let m = spec_square_magnitude3(v);
    if eq_bits(m, POS_ZERO) || eq_bits(m, ONE_BITS) {
        m
    } else {
        spec_sqrt(m)
    }
}

/// A 3D vector scaled by a scalar.
pub open spec fn spec_multiply_scalar3(v: Vector3, s: u32) -> Vector3 {
    Vector3 { x: mul_of(s, v.x), y: mul_of(s, v.y), z: mul_of(s, v.z) }
}

/// A 3D vector divided by a scalar; a zero divisor yields the zero vector.
pub open spec fn spec_divide_scalar3(v: Vector3, s: u32) -> Vector3 {
    if eq_bits(s, POS_ZERO) {
        Vector3 { x: POS_ZERO, y: POS_ZERO, z: POS_ZERO }
    } else {
        Vector3 { x: div_of(v.x, s), y: div_of(v.y, s), z: div_of(v.z, s) }
    }
}

/// The componentwise sum of two 3D vectors.
pub open spec fn spec_add3(a: Vector3, b: Vector3) -> Vector3 {
    Vector3 { x: add_of(a.x, b.x), y: add_of(a.y, b.y), z: add_of(a.z, b.z) }
}

/// The componentwise difference of two 3D vectors.
pub open spec fn spec_sub3(a: Vector3, b: Vector3) -> Vector3 {
    Vector3 { x: sub_of(a.x, b.x), y: sub_of(a.y, b.y), z: sub_of(a.z, b.z) }
}

/// The scalar divided by each nonzero component, with zero where the
/// component is zero.
pub open spec fn spec_reciprocal_scalar3(v: Vector3, s: u32) -> Vector3 {
    Vector3 {
        x: if !eq_bits(v.x, POS_ZERO) {
            div_of(s, v.x)
        } else {
            POS_ZERO
        },
        y: if !eq_bits(v.y, POS_ZERO) {
            div_of(s, v.y)
        } else {
            POS_ZERO
        },
        z: if !eq_bits(v.z, POS_ZERO) {
            div_of(s, v.z)
        } else {
            POS_ZERO
        },
    }
}

/// Componentwise approximate equality of two 3D vectors, with the default
/// tolerance.
pub open spec fn spec_eq3(a: Vector3, b: Vector3) -> bool {
    spec_approx_epsilon(a.x, b.x, APPROX_EPSILON_BITS) && spec_approx_epsilon(
        a.y,
        b.y,
        APPROX_EPSILON_BITS,
    ) && spec_approx_epsilon(a.z, b.z, APPROX_EPSILON_BITS)
}

/// The componentwise negation of a 3D vector.
pub open spec fn spec_negate3(v: Vector3) -> Vector3 {
    Vector3 { x: neg_bits(v.x), y: neg_bits(v.y), z: neg_bits(v.z) }
}

/// What `normalize` returns: the vector divided by its magnitude, so the
/// zero vector maps to itself.
pub open spec fn spec_normalize3(v: Vector3) -> Vector3 {
    spec_divide_scalar3(v, spec_magnitude3(v))
}

/// The cross product of two 3D vectors.
pub open spec fn spec_cross(a: Vector3, b: Vector3) -> Vector3 {
    Vector3 {
        x: sub_of(mul_of(a.y, b.z), mul_of(a.z, b.y)),
        y: sub_of(mul_of(a.z, b.x), mul_of(a.x, b.z)),
        z: sub_of(mul_of(a.x, b.y), mul_of(a.y, b.x)),
    }
}

/// Whether no component of the vector is NaN.
pub open spec fn spec_no_nan3(v: Vector3) -> bool {
    !is_nan_bits(v.x) && !is_nan_bits(v.y) && !is_nan_bits(v.z)
}

/// Whether the six componentwise products of the cross product of the two
/// vectors are all finite.
pub open spec fn spec_cross_products_finite(a: Vector3, b: Vector3) -> bool {
    is_finite_bits(mul_of(a.y, b.z)) && is_finite_bits(mul_of(a.z, b.y)) && is_finite_bits(
        mul_of(a.z, b.x),
    ) && is_finite_bits(mul_of(a.x, b.z)) && is_finite_bits(mul_of(a.x, b.y)) && is_finite_bits(
        mul_of(a.y, b.x),
    )
}

/// What `angle_between` returns: zero when the product of magnitudes is
/// degenerate, otherwise the arc cosine of the clamped cosine ratio.
pub open spec fn spec_angle_between3(a: Vector3, b: Vector3) -> u32 {
    let value = spec_sqrt(mul_of(spec_square_magnitude3(a), spec_square_magnitude3(b)));
    if lt_bits(value, ANGLE_EPSILON_BITS) {
        POS_ZERO
    } else {
        spec_acos(spec_clamp(div_of(spec_dot3(a, b), value), NEG_ONE_BITS, ONE_BITS))
    }
}

/// What `signed_angle_between` returns: the unsigned angle carrying the sign
/// of the axis' dot with the cross product.
pub open spec fn spec_signed_angle_between3(a: Vector3, b: Vector3, axis: Vector3) -> u32 {
    mul_of(spec_sign(spec_dot3(axis, spec_cross(a, b))), spec_angle_between3(a, b))
}

/// What `move_towards` returns: the target itself once the remaining
/// distance is within the delta, otherwise a step of length delta.
pub open spec fn spec_move_towards3(v: Vector3, target: Vector3, delta: u32) -> Vector3 {
    let dir = spec_sub3(target, v);
    let sq_magnitude = spec_square_magnitude3(dir);
    if eq_bits(sq_magnitude, POS_ZERO) || (le_bits(POS_ZERO, delta) && le_bits(
        sq_magnitude,
        mul_of(delta, delta),
    )) {
        target
    } else {
        spec_add3(spec_multiply_scalar3(dir, div_of(delta, spec_sqrt(sq_magnitude))), v)
    }
}

/// What `project` returns: the other vector scaled by the ratio of the dot
/// product to its squared magnitude.
pub open spec fn spec_project3(a: Vector3, b: Vector3) -> Vector3 {
    spec_multiply_scalar3(b, div_of(spec_dot3(a, b), spec_square_magnitude3(b)))
}

/// What `reflect` returns: the incoming vector plus the normal scaled by
/// minus twice the dot product.
pub open spec fn spec_reflect3(v: Vector3, normal: Vector3) -> Vector3 {
    spec_add3(spec_multiply_scalar3(normal, mul_of(NEG_TWO_BITS, spec_dot3(v, normal))), v)
}

/// What `slerp_unclamped` returns: a shortest-arc spherical interpolation of
/// the directions with a linear fallback near parallel, scaled by the
/// linearly interpolated magnitude.
pub open spec fn spec_slerp_unclamped3(a: Vector3, b: Vector3, t: u32) -> Vector3 {
    let ma = spec_magnitude3(a);
    let size = add_of(ma, mul_of(t, sub_of(spec_magnitude3(b), ma)));
    let unit_self = spec_normalize3(a);
    let unit_rhs0 = spec_normalize3(b);
    let dot0 = spec_dot3(unit_self, unit_rhs0);
    let unit_rhs1 = if lt_bits(dot0, POS_ZERO) {
        spec_negate3(unit_rhs0)
    } else {
        unit_rhs0
    };
    let dot1 = if lt_bits(dot0, POS_ZERO) {
        neg_bits(dot0)
    } else {
        dot0
    };
    if lt_bits(SLERP_DOT_LIMIT_BITS, dot1) {
        spec_multiply_scalar3(
            spec_normalize3(
                spec_add3(unit_self, spec_multiply_scalar3(spec_sub3(unit_rhs1, unit_self), t)),
            ),
            size,
        )
    } else {
        let angle = mul_of(t, spec_acos(dot1));
        let unit_rhs2 = spec_normalize3(
            spec_sub3(unit_rhs1, spec_multiply_scalar3(unit_self, dot1)),
        );
        let sc = spec_sin_cos(angle);
        spec_add3(
            spec_multiply_scalar3(unit_self, mul_of(size, sc.1)),
            spec_multiply_scalar3(unit_rhs2, mul_of(size, sc.0)),
        )
    }
}

/// What `smooth_damp` returns: the new position and velocity of a critically
/// damped spring step with a cubic correction, the direction clamped to the
/// maximum speed, and the velocity recomputed from the displacement when the
/// corrected step would overshoot.
pub open spec fn spec_smooth_damp3(
    v: Vector3,
    target0: Vector3,
    velocity0: Vector3,
    smooth_time0: u32,
    max_speed: u32,
    delta: u32,
) -> (Vector3, Vector3) {
    let st = spec_max(SMOOTH_TIME_MIN_BITS, smooth_time0);
    let ist = div_of(TWO_BITS, st);
    let isd = mul_of(ist, delta);
    let cubic = div_of(
        ONE_BITS,
        add_of(
            add_of(add_of(ONE_BITS, isd), mul_of(mul_of(SMOOTH_C1_BITS, isd), isd)),
            mul_of(mul_of(mul_of(SMOOTH_C2_BITS, isd), isd), isd),
        ),
    );
    let dir0 = spec_sub3(v, target0);
    let smooth_speed = mul_of(max_speed, st);
    let sq_speed = mul_of(smooth_speed, smooth_speed);
    let sq_magnitude = spec_square_magnitude3(dir0);
    let dir = if lt_bits(sq_speed, sq_magnitude) {
        let s = div_of(smooth_speed, spec_sqrt(sq_magnitude));
        Vector3 { x: mul_of(dir0.x, s), y: mul_of(dir0.y, s), z: mul_of(dir0.z, s) }
    } else {
        dir0
    };
    let target1 = spec_sub3(v, dir);
    let smooth_velocity = spec_multiply_scalar3(
        spec_add3(velocity0, spec_multiply_scalar3(dir, ist)),
        delta,
    );
    let velocity1 = spec_multiply_scalar3(
        spec_sub3(velocity0, spec_multiply_scalar3(smooth_velocity, ist)),
        cubic,
    );
    let a = spec_sub3(target0, v);
    let result = spec_add3(target1, spec_multiply_scalar3(spec_add3(dir, smooth_velocity), cubic));
    let b = spec_sub3(result, target0);
    let velocity2 = if lt_bits(POS_ZERO, spec_dot3(a, b)) {
        spec_divide_scalar3(spec_sub3(result, target0), delta)
    } else {
        velocity1
    };
    (result, velocity2)
}

/// What `rotate_towards` returns: the vector rotated about the cross-product
/// axis by the clamped signed angle, its magnitude then ramped toward the
/// target's by the allowed magnitude delta.
pub open spec fn spec_rotate_towards3(
    v: Vector3,
    target: Vector3,
    radians_delta: u32,
    magnitude_delta: u32,
) -> Vector3 {
    let axis = spec_cross(v, target);
    let abs_radians = spec_abs(radians_delta);
    let angle = spec_clamp(
        spec_signed_angle_between3(v, target, axis),
        neg_bits(abs_radians),
        abs_radians,
    );
    if eq_bits(angle, POS_ZERO) {
        target
    } else {
        let rotated = spec_multiply_vector3(spec_from_axis_angle(axis, angle), v);
        let magnitude = spec_magnitude3(v);
        let target_magnitude = spec_magnitude3(target);
        if lt_bits(magnitude, target_magnitude) {
            spec_multiply_scalar3(
                spec_normalize3(rotated),
                spec_min(add_of(magnitude, magnitude_delta), target_magnitude),
            )
        } else if lt_bits(target_magnitude, magnitude) {
            spec_multiply_scalar3(
                spec_normalize3(rotated),
                spec_max(sub_of(magnitude, magnitude_delta), target_magnitude),
            )
        } else {
            rotated
        }
    }
}

impl Vector3 {
    /// Creates a new 3D vector.
    pub fn new(x: u32, y: u32, z: u32) -> (r: Self)
        ensures
            r.x == x,
            r.y == y,
            r.z == z,
    {
        Vector3 { x, y, z }
    }

    /// Creates a new 3D vector from a 2D vector, with a zero z coordinate.
    pub fn from_vector2(vector: Vector2) -> (r: Self)
        ensures
            r.x == vector.x,
            r.y == vector.y,
            r.z == POS_ZERO,
    {
        Vector3::new(vector.x(), vector.y(), POS_ZERO)
    }

    /// Creates an empty 3D vector: (0, 0, 0).
    pub fn zero() -> (r: Self)
        ensures
            r.x == POS_ZERO,
            r.y == POS_ZERO,
            r.z == POS_ZERO,
    {
        Vector3 { x: POS_ZERO, y: POS_ZERO, z: POS_ZERO }
    }

    /// Creates a 3D unit vector pointing to the left: (-1, 0, 0).
    pub fn left() -> (r: Self)
        ensures
            r.x == NEG_ONE_BITS,
            r.y == POS_ZERO,
            r.z == POS_ZERO,
    {
        Vector3 { x: NEG_ONE_BITS, y: POS_ZERO, z: POS_ZERO }
    }

    /// Creates a 3D unit vector pointing to the right: (1, 0, 0).
    pub fn right() -> (r: Self)
        ensures
            r.x == ONE_BITS,
            r.y == POS_ZERO,
            r.z == POS_ZERO,
    {
        Vector3 { x: ONE_BITS, y: POS_ZERO, z: POS_ZERO }
    }

    /// Creates a 3D unit vector pointing up: (0, 1, 0).
    pub fn up() -> (r: Self)
        ensures
            r.x == POS_ZERO,
            r.y == ONE_BITS,
            r.z == POS_ZERO,
    {
        Vector3 { x: POS_ZERO, y: ONE_BITS, z: POS_ZERO }
    }

    /// Creates a 3D unit vector pointing down: (0, -1, 0).
    pub fn down() -> (r: Self)
        ensures
            r.x == POS_ZERO,
            r.y == NEG_ONE_BITS,
            r.z == POS_ZERO,
    {
        Vector3 { x: POS_ZERO, y: NEG_ONE_BITS, z: POS_ZERO }
    }

    /// Creates a 3D unit vector pointing forward: (0, 0, 1).
    pub fn forward() -> (r: Self)
        ensures
            r.x == POS_ZERO,
            r.y == POS_ZERO,
            r.z == ONE_BITS,
    {
        Vector3 { x: POS_ZERO, y: POS_ZERO, z: ONE_BITS }
    }

    /// Creates a 3D unit vector pointing backward: (0, 0, -1).
    pub fn back() -> (r: Self)
        ensures
            r.x == POS_ZERO,
            r.y == POS_ZERO,
            r.z == NEG_ONE_BITS,
    {
        Vector3 { x: POS_ZERO, y: POS_ZERO, z: NEG_ONE_BITS }
    }

    /// Creates a 3D vector with 1 in all its components: (1, 1, 1).
    pub fn one() -> (r: Self)
        ensures
            r.x == ONE_BITS,
            r.y == ONE_BITS,
            r.z == ONE_BITS,
    {
        Vector3 { x: ONE_BITS, y: ONE_BITS, z: ONE_BITS }
    }

    /// Creates a 3D unit vector from two angles in radians.
    pub fn from_angles(theta: u32, phi: u32) -> (r: Self)
        ensures
            r.x == mul_of(spec_sin_cos(phi).1, spec_sin_cos(theta).1),
            r.y == mul_of(spec_sin_cos(phi).1, spec_sin_cos(theta).0),
            r.z == spec_sin_cos(phi).0,
    {
        let sc_theta = Math::sin_cos(theta);
        let sc_phi = Math::sin_cos(phi);
        Vector3::new(
            mul_bits(sc_phi.1, sc_theta.1),
            mul_bits(sc_phi.1, sc_theta.0),
            sc_phi.0,
        )
    }

    /// Creates a 3D unit vector from two angles in degrees.
    pub fn from_angles_deg(theta: u32, phi: u32) -> (r: Self)
        ensures
            ({
                let t = mul_of(Math::DEG_TO_RAD, theta);
                let p = mul_of(Math::DEG_TO_RAD, phi);
                r.x == mul_of(spec_sin_cos(p).1, spec_sin_cos(t).1) && r.y == mul_of(
                    spec_sin_cos(p).1,
                    spec_sin_cos(t).0,
                ) && r.z == spec_sin_cos(p).0
            }),
    {
        Vector3::from_angles(Math::deg2rad(theta), Math::deg2rad(phi))
    }

    /// Gets the x coordinate of the vector.
    pub fn x(&self) -> (r: u32)
        ensures
            r == self.x,
    {
        self.x
    }

    /// Sets the x coordinate of the vector.
    pub fn set_x(&mut self, value: u32)
        ensures
            final(self).x == value,
            final(self).y == old(self).y,
            final(self).z == old(self).z,
    {
        self.x = value;
    }

    /// Gets the y coordinate of the vector.
    pub fn y(&self) -> (r: u32)
        ensures
            r == self.y,
    {
        self.y
    }

    /// Sets the y coordinate of the vector.
    pub fn set_y(&mut self, value: u32)
        ensures
            final(self).x == old(self).x,
            final(self).y == value,
            final(self).z == old(self).z,
    {
        self.y = value;
    }

    /// Gets the z coordinate of the vector.
    pub fn z(&self) -> (r: u32)
        ensures
            r == self.z,
    {
        self.z
    }

    /// Sets the z coordinate of the vector.
    pub fn set_z(&mut self, value: u32)
        ensures
            final(self).x == old(self).x,
            final(self).y == old(self).y,
            final(self).z == value,
    {
        self.z = value;
    }

    /// Gets the magnitude (length) of the vector; the zero vector has
    /// magnitude exactly +0.
    pub fn magnitude(&self) -> (r: u32)
        ensures
            r == spec_magnitude3(*self),
            self.x == POS_ZERO && self.y == POS_ZERO && self.z == POS_ZERO ==> r == POS_ZERO,
    {
        proof {
            ieee::lemma_fields(POS_ZERO);
            ieee::lemma_fields(ONE_BITS);
        }
        let magnitude = self.square_magnitude();
        if ieee::eq_val(magnitude, POS_ZERO) || ieee::eq_val(magnitude, ONE_BITS) {
            return magnitude;
        }
        Math::sqrt(magnitude)
    }

    /// Gets the magnitude squared, avoiding the square root; exactly +0 on
    /// the zero vector.
    pub fn square_magnitude(&self) -> (r: u32)
        ensures
            r == spec_square_magnitude3(*self),
            self.x == POS_ZERO && self.y == POS_ZERO && self.z == POS_ZERO ==> r == POS_ZERO,
    {
        proof {
            ieee::lemma_fields(POS_ZERO);
        }
        add_bits(
            add_bits(mul_bits(self.x, self.x), mul_bits(self.y, self.y)),
            mul_bits(self.z, self.z),
        )
    }

    /// Gets the angle between the two vectors in radians; degenerate
    /// magnitudes give zero instead of an unstable arc cosine.
    pub fn angle_between(self, rhs: Vector3) -> (r: u32)
        ensures
            r == spec_angle_between3(self, rhs),
    {
        proof {
            ieee::lemma_fields(NEG_ONE_BITS);
            ieee::lemma_fields(ONE_BITS);
        }
        let value = Math::sqrt(mul_bits(self.square_magnitude(), rhs.square_magnitude()));
        if ieee::lt(value, ANGLE_EPSILON_BITS) {
            POS_ZERO
        } else {
            Math::acos(Math::clamp(div_bits(self.dot(rhs), value), NEG_ONE_BITS, ONE_BITS))
        }
    }

    /// Gets the angle between the two vectors in degrees.
    pub fn angle_between_deg(self, rhs: Vector3) -> (r: u32)
        ensures
            r == mul_of(Math::RAD_TO_DEG, spec_angle_between3(self, rhs)),
    {
        Math::rad2deg(self.angle_between(rhs))
    }

    /// The cross product of the two vectors. When neither operand holds a
    /// NaN and all six componentwise products are finite, swapping the
    /// operands negates the result, and crossing a vector with itself gives
    /// the zero vector.
    pub fn cross(self, rhs: Vector3) -> (r: Vector3)
        ensures
            r == spec_cross(self, rhs),
            spec_no_nan3(self) && spec_no_nan3(rhs) && spec_cross_products_finite(self, rhs) ==> {
                &&& eq_bits(r.x, neg_bits(spec_cross(rhs, self).x))
                &&& eq_bits(r.y, neg_bits(spec_cross(rhs, self).y))
                &&& eq_bits(r.z, neg_bits(spec_cross(rhs, self).z))
            },
            spec_no_nan3(self) && spec_cross_products_finite(self, self) && rhs == self ==> r == (
            Vector3 { x: POS_ZERO, y: POS_ZERO, z: POS_ZERO }),
    {
        proof {
            ieee::lemma_fields(POS_ZERO);
            ieee::lemma_fields(NEG_ZERO);
            ieee::lemma_neg_fields(sub_of(mul_of(rhs.y, self.z), mul_of(rhs.z, self.y)));
            ieee::lemma_neg_fields(sub_of(mul_of(rhs.z, self.x), mul_of(rhs.x, self.z)));
            ieee::lemma_neg_fields(sub_of(mul_of(rhs.x, self.y), mul_of(rhs.y, self.x)));
        }
        Vector3::new(
            sub_bits(mul_bits(self.y, rhs.z), mul_bits(self.z, rhs.y)),
            sub_bits(mul_bits(self.z, rhs.x), mul_bits(self.x, rhs.z)),
            sub_bits(mul_bits(self.x, rhs.y), mul_bits(self.y, rhs.x)),
        )
    }

    /// Gets the distance between the two vectors.
    pub fn distance(self, rhs: Vector3) -> (r: u32)
        ensures
            r == spec_magnitude3(spec_sub3(rhs, self)),
    {
        rhs.subtract_other(self).magnitude()
    }

    /// Gets the dot product of the two vectors.
    pub fn dot(self, rhs: Vector3) -> (r: u32)
        ensures
            r == spec_dot3(self, rhs),
    {
        add_bits(
            add_bits(mul_bits(self.x, rhs.x), mul_bits(self.y, rhs.y)),
            mul_bits(self.z, rhs.z),
        )
    }

    /// Linearly interpolates between this and the other vector, with the
    /// ratio clamped between 0.0 and 1.0.
    pub fn lerp(self, rhs: Vector3, t: u32) -> (r: Vector3)
        ensures
            ({
                let tc = spec_clamp(t, POS_ZERO, ONE_BITS);
                &&& r.x == add_of(self.x, mul_of(tc, sub_of(rhs.x, self.x)))
                &&& r.y == add_of(self.y, mul_of(tc, sub_of(rhs.y, self.y)))
                &&& r.z == add_of(self.z, mul_of(tc, sub_of(rhs.z, self.z)))
            }),
    {
        proof {
            ieee::lemma_fields(POS_ZERO);
            ieee::lemma_fields(ONE_BITS);
        }
        self.lerp_unclamped(rhs, Math::clamp(t, POS_ZERO, ONE_BITS))
    }

    /// Linearly interpolates between this and the other vector.
    pub fn lerp_unclamped(self, rhs: Vector3, t: u32) -> (r: Vector3)
        ensures
            r.x == add_of(self.x, mul_of(t, sub_of(rhs.x, self.x))),
            r.y == add_of(self.y, mul_of(t, sub_of(rhs.y, self.y))),
            r.z == add_of(self.z, mul_of(t, sub_of(rhs.z, self.z))),
    {
        Vector3::new(
            Math::lerp_unclamped(self.x, rhs.x, t),
            Math::lerp_unclamped(self.y, rhs.y, t),
            Math::lerp_unclamped(self.z, rhs.z, t),
        )
    }

    /// Moves this vector towards the target vector, never moving past it:
    /// within the delta the result snaps to the target exactly.
    pub fn move_towards(self, target: Vector3, delta: u32) -> (r: Vector3)
        ensures
            r == spec_move_towards3(self, target, delta),
    {
        proof {
            ieee::lemma_fields(POS_ZERO);
        }
        let dir = target.subtract_other(self);
        let sq_magnitude = dir.square_magnitude();
        if ieee::eq_val(sq_magnitude, POS_ZERO) || (ieee::ge(delta, POS_ZERO) && ieee::le(
            sq_magnitude,
            mul_bits(delta, delta),
        )) {
            return target;
        }
        let diff = div_bits(delta, Math::sqrt(sq_magnitude));
        dir.multiply_scalar(diff).add_other(self)
    }

    /// Normalizes the vector to unit length; the zero vector stays the zero
    /// vector exactly.
    pub fn normalize(self) -> (r: Vector3)
        ensures
            r == spec_normalize3(self),
            self.x == POS_ZERO && self.y == POS_ZERO && self.z == POS_ZERO ==> (r.x == POS_ZERO
                && r.y == POS_ZERO && r.z == POS_ZERO),
    {
        proof {
            ieee::lemma_fields(POS_ZERO);
        }
        let m = self.magnitude();
        self.divide_scalar(m)
    }

    /// Projects this vector onto the given vector.
    pub fn project(self, rhs: Vector3) -> (r: Vector3)
        ensures
            r == spec_project3(self, rhs),
    {
        let top = self.dot(rhs);
        let bottom = rhs.square_magnitude();
        rhs.multiply_scalar(div_bits(top, bottom))
    }

    /// Rejects this vector from the given vector.
    pub fn reject(self, rhs: Vector3) -> (r: Vector3)
        ensures
            r == spec_sub3(self, spec_project3(self, rhs)),
    {
        self.subtract_other(self.project(rhs))
    }

    /// Reflects this vector off a surface with the given normal.
    pub fn reflect(self, normal: Vector3) -> (r: Vector3)
        ensures
            r == spec_reflect3(self, normal),
    {
        let d = mul_bits(NEG_TWO_BITS, self.dot(normal));
        normal.multiply_scalar(d).add_other(self)
    }

    /// Rotates this vector towards the target vector, the rotation bounded
    /// by the angular delta and the length change by the magnitude delta.
    /// A NaN angular delta is left out: the clamp of the signed angle would
    /// have no ordered bounds.
    pub fn rotate_towards(
        self,
        target: Vector3,
        radians_delta: u32,
        magnitude_delta: u32,
    ) -> (r: Vector3)
        requires
            !is_nan_bits(radians_delta),
        ensures
            r == spec_rotate_towards3(self, target, radians_delta, magnitude_delta),
    {
        proof {
            ieee::lemma_fields(POS_ZERO);
            ieee::lemma_fields(radians_delta);
            ieee::lemma_neg_fields(radians_delta);
            ieee::lemma_neg_fields(spec_abs(radians_delta));
        }
        let axis = self.cross(target);
        let abs_radians = Math::abs(radians_delta);
        let angle = Math::clamp(
            self.signed_angle_between(target, axis),
            ieee::neg(abs_radians),
            abs_radians,
        );
        if ieee::eq_val(angle, POS_ZERO) {
            return target;
        }
        let rotation = Quaternion::from_axis_angle(axis, angle);
        let rotated = rotation.multiply_vector3(self);
        let magnitude = self.magnitude();
        let target_magnitude = target.magnitude();
        if ieee::lt(magnitude, target_magnitude) {
            let towards = Math::min(add_bits(self.magnitude(), magnitude_delta), target_magnitude);
            rotated.normalize().multiply_scalar(towards)
        } else if ieee::gt(magnitude, target_magnitude) {
            let towards = Math::max(sub_bits(self.magnitude(), magnitude_delta), target_magnitude);
            rotated.normalize().multiply_scalar(towards)
        } else {
            rotated
        }
    }

    /// Scales the vector componentwise by another vector.
    pub fn scale(self, rhs: Vector3) -> (r: Vector3)
        ensures
            r.x == mul_of(self.x, rhs.x),
            r.y == mul_of(self.y, rhs.y),
            r.z == mul_of(self.z, rhs.z),
    {
        Vector3::new(mul_bits(self.x, rhs.x), mul_bits(self.y, rhs.y), mul_bits(self.z, rhs.z))
    }

    /// Gets the signed angle between the two vectors about an axis, in
    /// radians.
    pub fn signed_angle_between(self, rhs: Vector3, axis: Vector3) -> (r: u32)
        ensures
            r == spec_signed_angle_between3(self, rhs, axis),
    {
        let angle = self.angle_between(rhs);
        let cross = self.cross(rhs);
        let sign = Math::sign(axis.dot(cross));
        mul_bits(sign, angle)
    }

    /// Gets the signed angle between the two vectors about an axis, in
    /// degrees.
    pub fn signed_angle_between_deg(self, rhs: Vector3, axis: Vector3) -> (r: u32)
        ensures
            r == mul_of(Math::RAD_TO_DEG, spec_signed_angle_between3(self, rhs, axis)),
    {
        Math::rad2deg(self.signed_angle_between(rhs, axis))
    }

    /// Spherically interpolates between this and the other vector, with the
    /// ratio clamped between 0.0 and 1.0.
    pub fn slerp(self, rhs: Vector3, t: u32) -> (r: Vector3)
        ensures
            r == spec_slerp_unclamped3(self, rhs, spec_clamp(t, POS_ZERO, ONE_BITS)),
    {
        proof {
            ieee::lemma_fields(POS_ZERO);
            ieee::lemma_fields(ONE_BITS);
        }
        self.slerp_unclamped(rhs, Math::clamp(t, POS_ZERO, ONE_BITS))
    }

    /// Spherically interpolates between this and the other vector: the
    /// shorter arc is taken, near-parallel directions fall back to linear
    /// interpolation, and the magnitude interpolates linearly.
    pub fn slerp_unclamped(self, rhs: Vector3, t: u32) -> (r: Vector3)
        ensures
            r == spec_slerp_unclamped3(self, rhs, t),
    {
        let size = Math::lerp_unclamped(self.magnitude(), rhs.magnitude(), t);
        let unit_self = self.normalize();
        let mut unit_rhs = rhs.normalize();
        let mut dot = unit_self.dot(unit_rhs);
        if ieee::lt(dot, POS_ZERO) {
            unit_rhs = unit_rhs.negate();
            dot = ieee::neg(dot);
        }
        if ieee::gt(dot, SLERP_DOT_LIMIT_BITS) {
            return unit_self.add_other(
                unit_rhs.subtract_other(unit_self).multiply_scalar(t),
            ).normalize().multiply_scalar(size);
        }
        let angle = mul_bits(t, Math::acos(dot));
        let unit = unit_self.multiply_scalar(dot);
        let unit_rhs2 = unit_rhs.subtract_other(unit).normalize();
        let sc = Math::sin_cos(angle);
        unit_self.multiply_scalar(mul_bits(size, sc.1)).add_other(
            unit_rhs2.multiply_scalar(mul_bits(size, sc.0)),
        )
    }

    /// Smoothly damps this vector towards the target with a critically
    /// damped spring model, returning the new position and velocity.
    pub fn smooth_damp(
        self,
        target: Vector3,
        velocity: Vector3,
        smooth_time: u32,
        max_speed: u32,
        delta: u32,
    ) -> (r: (Vector3, Vector3))
        ensures
            r == spec_smooth_damp3(self, target, velocity, smooth_time, max_speed, delta),
    {
        proof {
            ieee::lemma_fields(POS_ZERO);
        }
        let smooth = Math::max(SMOOTH_TIME_MIN_BITS, smooth_time);
        let inv_smooth_time = div_bits(TWO_BITS, smooth);
        let inv_smooth_delta = mul_bits(inv_smooth_time, delta);
        let cubic = div_bits(
            ONE_BITS,
            add_bits(
                add_bits(
                    add_bits(ONE_BITS, inv_smooth_delta),
                    mul_bits(mul_bits(SMOOTH_C1_BITS, inv_smooth_delta), inv_smooth_delta),
                ),
                mul_bits(
                    mul_bits(mul_bits(SMOOTH_C2_BITS, inv_smooth_delta), inv_smooth_delta),
                    inv_smooth_delta,
                ),
            ),
        );
        let mut dir = self.subtract_other(target);
        let smooth_speed = mul_bits(max_speed, smooth);
        let sq_speed = mul_bits(smooth_speed, smooth_speed);
        let sq_magnitude = dir.square_magnitude();
        if ieee::gt(sq_magnitude, sq_speed) {
            dir.multiply_assign_scalar(div_bits(smooth_speed, Math::sqrt(sq_magnitude)));
        }
        let temp_target = target;
        let new_target = self.subtract_other(dir);
        let smooth_velocity = velocity.add_other(dir.multiply_scalar(inv_smooth_time))
            .multiply_scalar(delta);
        let mut new_velocity = velocity.subtract_other(
            smooth_velocity.multiply_scalar(inv_smooth_time),
        ).multiply_scalar(cubic);
        let a = temp_target.subtract_other(self);
        let result = new_target.add_other(dir.add_other(smooth_velocity).multiply_scalar(cubic));
        let b = result.subtract_other(temp_target);
        if ieee::gt(a.dot(b), POS_ZERO) {
            new_velocity = result.subtract_other(temp_target).divide_scalar(delta);
        }
        (result, new_velocity)
    }

    /// Converts into a 2D vector, dropping the z coordinate.
    pub fn to_vector2(self) -> (r: Vector2)
        ensures
            r.x == self.x,
            r.y == self.y,
    {
        Vector2::new(self.x, self.y)
    }

    /// The componentwise sum with another 3D vector.
    pub fn add_other(self, rhs: Vector3) -> (r: Vector3)
        ensures
            r == spec_add3(self, rhs),
    {
        Vector3 {
            x: add_bits(self.x, rhs.x),
            y: add_bits(self.y, rhs.y),
            z: add_bits(self.z, rhs.z),
        }
    }

    /// Adds another 3D vector into this one.
    pub fn add_assign_other(&mut self, rhs: Vector3)
        ensures
            *final(self) == spec_add3(*old(self), rhs),
    {
        self.x = add_bits(self.x, rhs.x);
        self.y = add_bits(self.y, rhs.y);
        self.z = add_bits(self.z, rhs.z);
    }

    /// The componentwise difference with another 3D vector.
    pub fn subtract_other(self, rhs: Vector3) -> (r: Vector3)
        ensures
            r == spec_sub3(self, rhs),
    {
        Vector3 {
            x: sub_bits(self.x, rhs.x),
            y: sub_bits(self.y, rhs.y),
            z: sub_bits(self.z, rhs.z),
        }
    }

    /// Subtracts another 3D vector from this one.
    pub fn subtract_assign_other(&mut self, rhs: Vector3)
        ensures
            *final(self) == spec_sub3(*old(self), rhs),
    {
        self.x = sub_bits(self.x, rhs.x);
        self.y = sub_bits(self.y, rhs.y);
        self.z = sub_bits(self.z, rhs.z);
    }

    /// The sum with a 2D vector; the z coordinate passes through.
    pub fn add_vector2(self, rhs: Vector2) -> (r: Vector3)
        ensures
            r.x == add_of(self.x, rhs.x),
            r.y == add_of(self.y, rhs.y),
            r.z == self.z,
    {
        Vector3 { x: add_bits(self.x, rhs.x), y: add_bits(self.y, rhs.y), z: self.z }
    }

    /// Adds a 2D vector into this one; the z coordinate is untouched.
    pub fn add_assign_vector2(&mut self, rhs: Vector2)
        ensures
            final(self).x == add_of(old(self).x, rhs.x),
            final(self).y == add_of(old(self).y, rhs.y),
            final(self).z == old(self).z,
    {
        self.x = add_bits(self.x, rhs.x);
        self.y = add_bits(self.y, rhs.y);
    }

    /// The difference with a 2D vector; the z coordinate passes through.
    pub fn subtract_vector2(self, rhs: Vector2) -> (r: Vector3)
        ensures
            r.x == sub_of(self.x, rhs.x),
            r.y == sub_of(self.y, rhs.y),
            r.z == self.z,
    {
        Vector3 { x: sub_bits(self.x, rhs.x), y: sub_bits(self.y, rhs.y), z: self.z }
    }

    /// Subtracts a 2D vector from this one; the z coordinate is untouched.
    pub fn subtract_assign_vector2(&mut self, rhs: Vector2)
        ensures
            final(self).x == sub_of(old(self).x, rhs.x),
            final(self).y == sub_of(old(self).y, rhs.y),
            final(self).z == old(self).z,
    {
        self.x = sub_bits(self.x, rhs.x);
        self.y = sub_bits(self.y, rhs.y);
    }

    /// The vector scaled by a scalar.
    pub fn multiply_scalar(self, rhs: u32) -> (r: Vector3)
        ensures
            r == spec_multiply_scalar3(self, rhs),
    {
        Vector3 {
            x: mul_bits(rhs, self.x),
            y: mul_bits(rhs, self.y),
            z: mul_bits(rhs, self.z),
        }
    }

    /// Scales this vector by a scalar in place.
    pub fn multiply_assign_scalar(&mut self, rhs: u32)
        ensures
            final(self).x == mul_of(old(self).x, rhs),
            final(self).y == mul_of(old(self).y, rhs),
            final(self).z == mul_of(old(self).z, rhs),
    {
        self.x = mul_bits(self.x, rhs);
        self.y = mul_bits(self.y, rhs);
        self.z = mul_bits(self.z, rhs);
    }

    /// The vector divided by a scalar; a zero divisor yields the zero vector.
    pub fn divide_scalar(self, rhs: u32) -> (r: Vector3)
        ensures
            r == spec_divide_scalar3(self, rhs),
    {
        proof {
            ieee::lemma_fields(POS_ZERO);
        }
        if ieee::eq_val(rhs, POS_ZERO) {
            return Vector3::zero();
        }
        Vector3 {
            x: div_bits(self.x, rhs),
            y: div_bits(self.y, rhs),
            z: div_bits(self.z, rhs),
        }
    }

    /// Divides this vector by a scalar in place; a zero divisor zeroes it.
    pub fn divide_assign_scalar(&mut self, rhs: u32)
        ensures
            *final(self) == spec_divide_scalar3(*old(self), rhs),
    {
        proof {
            ieee::lemma_fields(POS_ZERO);
        }
        if ieee::eq_val(rhs, POS_ZERO) {
            self.x = POS_ZERO;
            self.y = POS_ZERO;
            self.z = POS_ZERO;
        } else {
            self.x = div_bits(self.x, rhs);
            self.y = div_bits(self.y, rhs);
            self.z = div_bits(self.z, rhs);
        }
    }

    /// The scalar divided by each nonzero component, with zero where the
    /// component is zero.
    pub fn reciprocal_scalar(self, rhs: u32) -> (r: Vector3)
        ensures
            r == spec_reciprocal_scalar3(self, rhs),
    {
        proof {
            ieee::lemma_fields(POS_ZERO);
        }
        Vector3 {
            x: if !ieee::eq_val(self.x, POS_ZERO) {
                div_bits(rhs, self.x)
            } else {
                POS_ZERO
            },
            y: if !ieee::eq_val(self.y, POS_ZERO) {
                div_bits(rhs, self.y)
            } else {
                POS_ZERO
            },
            z: if !ieee::eq_val(self.z, POS_ZERO) {
                div_bits(rhs, self.z)
            } else {
                POS_ZERO
            },
        }
    }

    /// The componentwise negation.
    pub fn negate(self) -> (r: Vector3)
        ensures
            r == spec_negate3(self),
    {
        Vector3::new(ieee::neg(self.x), ieee::neg(self.y), ieee::neg(self.z))
    }
}

impl PartialEq for Vector3 {
    /// Componentwise approximate equality with tolerance 1e-6.
    fn eq(&self, other: &Self) -> (r: bool) {
        Math::approx(self.x, other.x) && Math::approx(self.y, other.y) && Math::approx(
            self.z,
            other.z,
        )
    }
}

impl vstd::std_specs::cmp::PartialEqSpecImpl for Vector3 {
    open spec fn obeys_eq_spec() -> bool {
        true
    }

    open spec fn eq_spec(&self, other: &Vector3) -> bool {
        spec_eq3(*self, *other)
    }
}

} // verus!
