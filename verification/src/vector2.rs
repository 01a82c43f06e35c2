//! A 2D vector over single-precision bit patterns: arithmetic, magnitude and
//! normalization, dot product, projection and reflection, heading angles and
//! interpolation. Every method states its result as the exact composition of
//! the named IEEE-754 operations it performs; the degenerate-input fallbacks
//! (zero vectors, zero divisors) are stated and proved exactly.

use vstd::prelude::*;

verus! {

use crate::arith::add_of;
use crate::arith::sub_of;
use crate::arith::mul_of;
use crate::arith::div_of;
use crate::arith::add_bits;
use crate::arith::sub_bits;
use crate::arith::mul_bits;
use crate::arith::div_bits;
use crate::ieee;
use crate::ieee::POS_ZERO;
use crate::ieee::ONE_BITS;
use crate::ieee::lt_bits;
use crate::ieee::le_bits;
use crate::ieee::eq_bits;
use crate::ieee::neg_bits;
use crate::math::Math;
use crate::math::spec_approx_epsilon;
use crate::math::spec_clamp;
use crate::math::spec_sign;
use crate::math::APPROX_EPSILON_BITS;
use crate::math::NEG_ONE_BITS;
use crate::explog::spec_sqrt;
use crate::trig::spec_sin_cos;
use crate::trig::spec_acos;
use crate::trig::spec_atan2;
use crate::vector3::Vector3;

/// Bit pattern of -2.0, the reflection factor.
pub const NEG_TWO_BITS: u32 = 0xC000_0000;

/// Bit pattern of 1e-10, below which a product of magnitudes counts as
/// degenerate for angle computation.
pub const ANGLE_EPSILON_BITS: u32 = 0x2EDB_E6FF;

/// A 2D vector that holds an x-coordinate and y-coordinate, each a
/// single-precision value carried as its bit pattern.
#[derive(Debug, Clone, Copy)]
pub struct Vector2 {
    /// The x coordinate of the vector.
    pub x: u32,
    /// The y coordinate of the vector.
    pub y: u32,
}

/// The dot product of two 2D vectors.
pub open spec fn spec_dot2(a: Vector2, b: Vector2) -> u32 {
    add_of(mul_of(a.x, b.x), mul_of(a.y, b.y))
}

/// The squared magnitude of a 2D vector.
pub open spec fn spec_square_magnitude2(v: Vector2) -> u32 {
    add_of(mul_of(v.x, v.x), mul_of(v.y, v.y))
}

/// The magnitude of a 2D vector: the squared magnitude passes through when
/// it is zero or one, otherwise its square root is taken.
pub open spec fn spec_magnitude2(v: Vector2) -> u32 {
    let m = spec_square_magnitude2(v);
    if eq_bits(m, POS_ZERO) || eq_bits(m, ONE_BITS) {
        m
    } else {
        spec_sqrt(m)
    }
}

/// A 2D vector scaled by a scalar.
pub open spec fn spec_multiply_scalar2(v: Vector2, s: u32) -> Vector2 {
    Vector2 { x: mul_of(s, v.x), y: mul_of(s, v.y) }
}

/// A 2D vector divided by a scalar; a zero divisor yields the zero vector.
pub open spec fn spec_divide_scalar2(v: Vector2, s: u32) -> Vector2 {
    if eq_bits(s, POS_ZERO) {
        Vector2 { x: POS_ZERO, y: POS_ZERO }
    } else {
        Vector2 { x: div_of(v.x, s), y: div_of(v.y, s) }
    }
}

/// The componentwise sum of two 2D vectors.
pub open spec fn spec_add2(a: Vector2, b: Vector2) -> Vector2 {
    Vector2 { x: add_of(a.x, b.x), y: add_of(a.y, b.y) }
}

/// The componentwise difference of two 2D vectors.
pub open spec fn spec_sub2(a: Vector2, b: Vector2) -> Vector2 {
    Vector2 { x: sub_of(a.x, b.x), y: sub_of(a.y, b.y) }
}

/// The scalar divided by each nonzero component, with zero where the
/// component is zero.
pub open spec fn spec_reciprocal_scalar2(v: Vector2, s: u32) -> Vector2 {
    Vector2 {
        x: if !eq_bits(v.x, POS_ZERO) {
            div_of(s, v.x)
        } else {
            POS_ZERO
        },
        y: if !eq_bits(v.y, POS_ZERO) {
            div_of(s, v.y)
        } else {
            POS_ZERO
        },
    }
}

/// Componentwise approximate equality of two 2D vectors, with the default
/// tolerance.
pub open spec fn spec_eq2(a: Vector2, b: Vector2) -> bool {
    spec_approx_epsilon(a.x, b.x, APPROX_EPSILON_BITS) && spec_approx_epsilon(
        a.y,
        b.y,
        APPROX_EPSILON_BITS,
    )
}

/// The componentwise negation of a 2D vector.
pub open spec fn spec_negate2(v: Vector2) -> Vector2 {
    Vector2 { x: neg_bits(v.x), y: neg_bits(v.y) }
}

/// What `normalize` returns: the vector divided by its magnitude, so the
/// zero vector maps to itself.
pub open spec fn spec_normalize2(v: Vector2) -> Vector2 {
    spec_divide_scalar2(v, spec_magnitude2(v))
}

/// What `angle_between` returns: zero when the product of magnitudes is
/// degenerate, otherwise the arc cosine of the clamped cosine ratio.
pub open spec fn spec_angle_between2(a: Vector2, b: Vector2) -> u32 {
    let value = spec_sqrt(mul_of(spec_square_magnitude2(a), spec_square_magnitude2(b)));
    if lt_bits(value, ANGLE_EPSILON_BITS) {
        POS_ZERO
    } else {
        spec_acos(spec_clamp(div_of(spec_dot2(a, b), value), NEG_ONE_BITS, ONE_BITS))
    }
}

/// What `move_towards` returns: the target itself once the remaining
/// distance is within the delta, otherwise a step of length delta.
pub open spec fn spec_move_towards2(v: Vector2, target: Vector2, delta: u32) -> Vector2 {
    let dir = spec_sub2(target, v);
    let sq_magnitude = spec_square_magnitude2(dir);
    if eq_bits(sq_magnitude, POS_ZERO) || (le_bits(POS_ZERO, delta) && le_bits(
        sq_magnitude,
        mul_of(delta, delta),
    )) {
        target
    } else {
        spec_add2(spec_multiply_scalar2(dir, div_of(delta, spec_sqrt(sq_magnitude))), v)
    }
}

/// What `project` returns: the other vector scaled by the ratio of the dot
/// product to its squared magnitude.
pub open spec fn spec_project2(a: Vector2, b: Vector2) -> Vector2 {
    spec_multiply_scalar2(b, div_of(spec_dot2(a, b), spec_square_magnitude2(b)))
}

/// What `reflect` returns: the incoming vector plus the normal scaled by
/// minus twice the dot product.
pub open spec fn spec_reflect2(v: Vector2, normal: Vector2) -> Vector2 {
    spec_add2(spec_multiply_scalar2(normal, mul_of(NEG_TWO_BITS, spec_dot2(v, normal))), v)
}

impl Vector2 {
    /// Creates a new 2D vector.
    pub fn new(x: u32, y: u32) -> (r: Self)
        ensures
            r.x == x,
            r.y == y,
    {
        Vector2 { x, y }
    }

    /// Creates a new 2D vector from a 3D vector, dropping its z coordinate.
    pub fn from_vector3(vector: Vector3) -> (r: Self)
        ensures
            r.x == vector.x,
            r.y == vector.y,
    {
        Vector2::new(vector.x(), vector.y())
    }

    /// Creates an empty 2D vector: (0, 0).
    pub fn zero() -> (r: Self)
        ensures
            r.x == POS_ZERO,
            r.y == POS_ZERO,
    {
        Vector2 { x: POS_ZERO, y: POS_ZERO }
    }

    /// Creates a 2D unit vector pointing to the left: (-1, 0).
    pub fn left() -> (r: Self)
        ensures
            r.x == NEG_ONE_BITS,
            r.y == POS_ZERO,
    {
        Vector2 { x: NEG_ONE_BITS, y: POS_ZERO }
    }

    /// Creates a 2D unit vector pointing to the right: (1, 0).
    pub fn right() -> (r: Self)
        ensures
            r.x == ONE_BITS,
            r.y == POS_ZERO,
    {
        Vector2 { x: ONE_BITS, y: POS_ZERO }
    }

    /// Creates a 2D unit vector pointing up: (0, 1).
    pub fn up() -> (r: Self)
        ensures
            r.x == POS_ZERO,
            r.y == ONE_BITS,
    {
        Vector2 { x: POS_ZERO, y: ONE_BITS }
    }

    /// Creates a 2D unit vector pointing down: (0, -1).
    pub fn down() -> (r: Self)
        ensures
            r.x == POS_ZERO,
            r.y == NEG_ONE_BITS,
    {
        Vector2 { x: POS_ZERO, y: NEG_ONE_BITS }
    }

    /// Creates a 2D vector with 1 in all its components: (1, 1).
    pub fn one() -> (r: Self)
        ensures
            r.x == ONE_BITS,
            r.y == ONE_BITS,
    {
        Vector2 { x: ONE_BITS, y: ONE_BITS }
    }

    /// Creates a 2D vector from a single angle (heading) in radians.
    pub fn from_heading(angle: u32) -> (r: Self)
        ensures
            r.x == spec_sin_cos(angle).1,
            r.y == spec_sin_cos(angle).0,
    {
        let sc = Math::sin_cos(angle);
        Vector2::new(sc.1, sc.0)
    }

    /// Creates a 2D vector from a single angle (heading) in degrees.
    pub fn from_heading_deg(angle: u32) -> (r: Self)
        ensures
            ({
                let a = mul_of(Math::DEG_TO_RAD, angle);
                r.x == spec_sin_cos(a).1 && r.y == spec_sin_cos(a).0
            }),
    {
        let sc = Math::sin_cos_deg(angle);
        Vector2::new(sc.1, sc.0)
    }

    /// Gets the x coordinate of the vector.
    pub fn x(&self) -> (r: u32)
        ensures
            r == self.x,
    {
        self.x
    }

    /// Sets the x coordinate of the vector.
    pub fn set_x(&mut self, value: u32)
        ensures
            final(self).x == value,
            final(self).y == old(self).y,
    {
        self.x = value;
    }

    /// Gets the y coordinate of the vector.
    pub fn y(&self) -> (r: u32)
        ensures
            r == self.y,
    {
        self.y
    }

    /// Sets the y coordinate of the vector.
    pub fn set_y(&mut self, value: u32)
        ensures
            final(self).x == old(self).x,
            final(self).y == value,
    {
        self.y = value;
    }

    /// Gets the heading of the vector in radians.
    pub fn heading(&self) -> (r: u32)
        ensures
            r == spec_atan2(self.y, self.x),
    {
        Math::atan2(self.y, self.x)
    }

    /// Sets the heading of the vector in radians.
    pub fn set_heading(&mut self, angle: u32)
        ensures
            final(self).x == spec_sin_cos(angle).1,
            final(self).y == spec_sin_cos(angle).0,
    {
        let vector = Vector2::from_heading(angle);
        self.x = vector.x;
        self.y = vector.y;
    }

    /// Gets the heading of the vector in degrees.
    pub fn heading_deg(&self) -> (r: u32)
        ensures
            r == mul_of(Math::RAD_TO_DEG, spec_atan2(self.y, self.x)),
    {
        Math::rad2deg(self.heading())
    }

    /// Sets the heading of the vector in degrees.
    pub fn set_heading_deg(&mut self, angle: u32)
        ensures
            ({
                let a = mul_of(Math::DEG_TO_RAD, angle);
                final(self).x == spec_sin_cos(a).1 && final(self).y == spec_sin_cos(a).0
            }),
    {
        self.set_heading(Math::deg2rad(angle))
    }

    /// Gets the magnitude (length) of the vector; the zero vector has
    /// magnitude exactly +0.
    pub fn magnitude(&self) -> (r: u32)
        ensures
            r == spec_magnitude2(*self),
            self.x == POS_ZERO && self.y == POS_ZERO ==> r == POS_ZERO,
    {
        proof {
            ieee::lemma_fields(POS_ZERO);
            ieee::lemma_fields(ONE_BITS);
        }
        let magnitude = self.square_magnitude();
        if ieee::eq_val(magnitude, POS_ZERO) || ieee::eq_val(magnitude, ONE_BITS) {
            return magnitude;
        }
        Math::sqrt(magnitude)
    }

    /// Gets the magnitude squared, avoiding the square root; exactly +0 on
    /// the zero vector.
    pub fn square_magnitude(&self) -> (r: u32)
        ensures
            r == spec_square_magnitude2(*self),
            self.x == POS_ZERO && self.y == POS_ZERO ==> r == POS_ZERO,
    {
        proof {
            ieee::lemma_fields(POS_ZERO);
        }
        add_bits(mul_bits(self.x, self.x), mul_bits(self.y, self.y))
    }

    /// Gets the angle between the two vectors in radians; degenerate
    /// magnitudes give zero instead of an unstable arc cosine.
    pub fn angle_between(self, rhs: Vector2) -> (r: u32)
        ensures
            r == spec_angle_between2(self, rhs),
    {
        proof {
            ieee::lemma_fields(NEG_ONE_BITS);
            ieee::lemma_fields(ONE_BITS);
        }
        let value = Math::sqrt(mul_bits(self.square_magnitude(), rhs.square_magnitude()));
        if ieee::lt(value, ANGLE_EPSILON_BITS) {
            POS_ZERO
        } else {
            Math::acos(Math::clamp(div_bits(self.dot(rhs), value), NEG_ONE_BITS, ONE_BITS))
        }
    }

    /// Gets the angle between the two vectors in degrees.
    pub fn angle_between_deg(self, rhs: Vector2) -> (r: u32)
        ensures
            r == mul_of(Math::RAD_TO_DEG, spec_angle_between2(self, rhs)),
    {
        Math::rad2deg(self.angle_between(rhs))
    }

    /// Gets the distance between the two vectors.
    pub fn distance(self, rhs: Vector2) -> (r: u32)
        ensures
            r == spec_magnitude2(spec_sub2(rhs, self)),
    {
        rhs.subtract_other(self).magnitude()
    }

    /// Gets the dot product of the two vectors.
    pub fn dot(self, rhs: Vector2) -> (r: u32)
        ensures
            r == spec_dot2(self, rhs),
    {
        add_bits(mul_bits(self.x, rhs.x), mul_bits(self.y, rhs.y))
    }

    /// Linearly interpolates between this and the other vector, with the
    /// ratio clamped between 0.0 and 1.0.
    pub fn lerp(self, rhs: Vector2, t: u32) -> (r: Vector2)
        ensures
            ({
                let tc = spec_clamp(t, POS_ZERO, ONE_BITS);
                r.x == add_of(self.x, mul_of(tc, sub_of(rhs.x, self.x))) && r.y == add_of(
                    self.y,
                    mul_of(tc, sub_of(rhs.y, self.y)),
                )
            }),
    {
        proof {
            ieee::lemma_fields(POS_ZERO);
            ieee::lemma_fields(ONE_BITS);
        }
        self.lerp_unclamped(rhs, Math::clamp(t, POS_ZERO, ONE_BITS))
    }

    /// Linearly interpolates between this and the other vector.
    pub fn lerp_unclamped(self, rhs: Vector2, t: u32) -> (r: Vector2)
        ensures
            r.x == add_of(self.x, mul_of(t, sub_of(rhs.x, self.x))),
            r.y == add_of(self.y, mul_of(t, sub_of(rhs.y, self.y))),
    {
        Vector2::new(
            Math::lerp_unclamped(self.x, rhs.x, t),
            Math::lerp_unclamped(self.y, rhs.y, t),
        )
    }

    /// Moves this vector towards the target vector, never moving past it:
    /// within the delta the result snaps to the target exactly.
    pub fn move_towards(self, target: Vector2, delta: u32) -> (r: Vector2)
        ensures
            r == spec_move_towards2(self, target, delta),
    {
        proof {
            ieee::lemma_fields(POS_ZERO);
        }
        let dir = target.subtract_other(self);
        let sq_magnitude = dir.square_magnitude();
        if ieee::eq_val(sq_magnitude, POS_ZERO) || (ieee::ge(delta, POS_ZERO) && ieee::le(
            sq_magnitude,
            mul_bits(delta, delta),
        )) {
            return target;
        }
        let diff = div_bits(delta, Math::sqrt(sq_magnitude));
        dir.multiply_scalar(diff).add_other(self)
    }

    /// Normalizes the vector to unit length; the zero vector stays the zero
    /// vector exactly.
    pub fn normalize(self) -> (r: Vector2)
        ensures
            r == spec_normalize2(self),
            self.x == POS_ZERO && self.y == POS_ZERO ==> (r.x == POS_ZERO && r.y == POS_ZERO),
    {
        proof {
            ieee::lemma_fields(POS_ZERO);
        }
        let m = self.magnitude();
        self.divide_scalar(m)
    }

    /// Creates a perpendicular 2D vector.
    pub fn perpendicular(self) -> (r: Vector2)
        ensures
            r.x == self.y,
            r.y == neg_bits(self.x),
    {
        Vector2::new(self.y, ieee::neg(self.x))
    }

    /// Projects this vector onto the given vector.
    pub fn project(self, rhs: Vector2) -> (r: Vector2)
        ensures
            r == spec_project2(self, rhs),
    {
        let top = self.dot(rhs);
        let bottom = rhs.square_magnitude();
        rhs.multiply_scalar(div_bits(top, bottom))
    }

    /// Rejects this vector from the given vector.
    pub fn reject(self, rhs: Vector2) -> (r: Vector2)
        ensures
            r == spec_sub2(self, spec_project2(self, rhs)),
    {
        self.subtract_other(self.project(rhs))
    }

    /// Reflects this vector off a surface with the given normal.
    pub fn reflect(self, normal: Vector2) -> (r: Vector2)
        ensures
            r == spec_reflect2(self, normal),
    {
        let d = mul_bits(NEG_TWO_BITS, self.dot(normal));
        normal.multiply_scalar(d).add_other(self)
    }

    /// Scales the vector componentwise by another vector.
    pub fn scale(self, rhs: Vector2) -> (r: Vector2)
        ensures
            r.x == mul_of(self.x, rhs.x),
            r.y == mul_of(self.y, rhs.y),
    {
        Vector2::new(mul_bits(self.x, rhs.x), mul_bits(self.y, rhs.y))
    }

    /// Gets the signed angle between the two vectors in radians: the
    /// unsigned angle carries the sign of the dot with the perpendicular.
    pub fn signed_angle_between(self, rhs: Vector2) -> (r: u32)
        ensures
            r == mul_of(
                spec_sign(spec_dot2(self, (Vector2 { x: rhs.y, y: neg_bits(rhs.x) }))),
                spec_angle_between2(self, rhs),
            ),
    {
        let angle = self.angle_between(rhs);
        let sign = Math::sign(self.dot(rhs.perpendicular()));
        mul_bits(sign, angle)
    }

    /// Gets the signed angle between the two vectors in degrees.
    pub fn signed_angle_between_deg(self, rhs: Vector2) -> (r: u32)
        ensures
            r == mul_of(
                Math::RAD_TO_DEG,
                mul_of(
                    spec_sign(spec_dot2(self, (Vector2 { x: rhs.y, y: neg_bits(rhs.x) }))),
                    spec_angle_between2(self, rhs),
                ),
            ),
    {
        Math::rad2deg(self.signed_angle_between(rhs))
    }

    /// Converts into a 3D vector with a zero z coordinate.
    pub fn to_vector3(self) -> (r: Vector3)
        ensures
            r.x == self.x,
            r.y == self.y,
            r.z == POS_ZERO,
    {
        Vector3::new(self.x, self.y, POS_ZERO)
    }

    /// The componentwise sum with another 2D vector.
    pub fn add_other(self, rhs: Vector2) -> (r: Vector2)
        ensures
            r == spec_add2(self, rhs),
    {
        Vector2 { x: add_bits(self.x, rhs.x), y: add_bits(self.y, rhs.y) }
    }

    /// Adds another 2D vector into this one.
    pub fn add_assign_other(&mut self, rhs: Vector2)
        ensures
            *final(self) == spec_add2(*old(self), rhs),
    {
        self.x = add_bits(self.x, rhs.x);
        self.y = add_bits(self.y, rhs.y);
    }

    /// The componentwise difference with another 2D vector.
    pub fn subtract_other(self, rhs: Vector2) -> (r: Vector2)
        ensures
            r == spec_sub2(self, rhs),
    {
        Vector2 { x: sub_bits(self.x, rhs.x), y: sub_bits(self.y, rhs.y) }
    }

    /// Subtracts another 2D vector from this one.
    pub fn subtract_assign_other(&mut self, rhs: Vector2)
        ensures
            *final(self) == spec_sub2(*old(self), rhs),
    {
        self.x = sub_bits(self.x, rhs.x);
        self.y = sub_bits(self.y, rhs.y);
    }

    /// The sum with a 3D vector, whose z coordinate passes through.
    pub fn add_vector3(self, rhs: Vector3) -> (r: Vector3)
        ensures
            r.x == add_of(self.x, rhs.x),
            r.y == add_of(self.y, rhs.y),
            r.z == rhs.z,
    {
        Vector3::new(add_bits(self.x, rhs.x()), add_bits(self.y, rhs.y()), rhs.z())
    }

    /// The difference with a 3D vector, whose z coordinate is negated.
    pub fn subtract_vector3(self, rhs: Vector3) -> (r: Vector3)
        ensures
            r.x == sub_of(self.x, rhs.x),
            r.y == sub_of(self.y, rhs.y),
            r.z == neg_bits(rhs.z),
    {
        Vector3::new(sub_bits(self.x, rhs.x()), sub_bits(self.y, rhs.y()), ieee::neg(rhs.z()))
    }

    /// The vector scaled by a scalar.
    pub fn multiply_scalar(self, rhs: u32) -> (r: Vector2)
        ensures
            r == spec_multiply_scalar2(self, rhs),
    {
        Vector2 { x: mul_bits(rhs, self.x), y: mul_bits(rhs, self.y) }
    }

    /// Scales this vector by a scalar in place.
    pub fn multiply_assign_scalar(&mut self, rhs: u32)
        ensures
            final(self).x == mul_of(old(self).x, rhs),
            final(self).y == mul_of(old(self).y, rhs),
    {
        self.x = mul_bits(self.x, rhs);
        self.y = mul_bits(self.y, rhs);
    }

    /// The vector divided by a scalar; a zero divisor yields the zero vector.
    pub fn divide_scalar(self, rhs: u32) -> (r: Vector2)
        ensures
            r == spec_divide_scalar2(self, rhs),
    {
        proof {
            ieee::lemma_fields(POS_ZERO);
        }
        if ieee::eq_val(rhs, POS_ZERO) {
            return Vector2::zero();
        }
        Vector2 { x: div_bits(self.x, rhs), y: div_bits(self.y, rhs) }
    }

    /// Divides this vector by a scalar in place; a zero divisor zeroes it.
    pub fn divide_assign_scalar(&mut self, rhs: u32)
        ensures
            *final(self) == spec_divide_scalar2(*old(self), rhs),
    {
        proof {
            ieee::lemma_fields(POS_ZERO);
        }
        if ieee::eq_val(rhs, POS_ZERO) {
            self.x = POS_ZERO;
            self.y = POS_ZERO;
        } else {
            self.x = div_bits(self.x, rhs);
            self.y = div_bits(self.y, rhs);
        }
    }

    /// The scalar divided by each nonzero component, with zero where the
    /// component is zero.
    pub fn reciprocal_scalar(self, rhs: u32) -> (r: Vector2)
        ensures
            r == spec_reciprocal_scalar2(self, rhs),
    {
        proof {
            ieee::lemma_fields(POS_ZERO);
        }
        Vector2 {
            x: if !ieee::eq_val(self.x, POS_ZERO) {
                div_bits(rhs, self.x)
            } else {
                POS_ZERO
            },
            y: if !ieee::eq_val(self.y, POS_ZERO) {
                div_bits(rhs, self.y)
            } else {
                POS_ZERO
            },
        }
    }

    /// The componentwise negation.
    pub fn negate(self) -> (r: Vector2)
        ensures
            r == spec_negate2(self),
    {
        Vector2::new(ieee::neg(self.x), ieee::neg(self.y))
    }
}

impl PartialEq for Vector2 {
    /// Componentwise approximate equality with tolerance 1e-6.
    fn eq(&self, other: &Self) -> (r: bool) {
        Math::approx(self.x, other.x) && Math::approx(self.y, other.y)
    }
}

impl vstd::std_specs::cmp::PartialEqSpecImpl for Vector2 {
    open spec fn obeys_eq_spec() -> bool {
        true
    }

    open spec fn eq_spec(&self, other: &Vector2) -> bool {
        spec_eq2(*self, *other)
    }
}

} // verus!
