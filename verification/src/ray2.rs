//! A 2D ray: an origin and a direction, with point sampling and
//! closest-point queries built on the vector algebra.

use vstd::prelude::*;

verus! {

use crate::vector2::Vector2;
use crate::vector2::spec_add2;
use crate::vector2::spec_sub2;
use crate::vector2::spec_multiply_scalar2;
use crate::vector2::spec_divide_scalar2;
use crate::vector2::spec_project2;
use crate::vector2::spec_magnitude2;
use crate::vector2::spec_negate2;
use crate::vector2::spec_reciprocal_scalar2;
use crate::vector2::spec_eq2;
use crate::ray3::Ray3;

/// A 2D ray that holds an origin and a direction.
#[derive(Debug, Clone, Copy)]
pub struct Ray2 {
    /// The origin of the ray.
    pub origin: Vector2,
    /// The direction the ray points in.
    pub direction: Vector2,
}

impl Ray2 {
    /// Creates a new 2D ray.
    pub fn new(origin: Vector2, direction: Vector2) -> (r: Self)
        ensures
            r.origin == origin,
            r.direction == direction,
    {
        Ray2 { origin, direction }
    }

    /// Gets the origin of the ray.
    pub fn origin(&self) -> (r: Vector2)
        ensures
            r == self.origin,
    {
        self.origin
    }

    /// Sets the origin of the ray.
    pub fn set_origin(&mut self, value: Vector2)
        ensures
            final(self).origin == value,
            final(self).direction == old(self).direction,
    {
        self.origin = value;
    }

    /// Gets the direction of the ray.
    pub fn direction(&self) -> (r: Vector2)
        ensures
            r == self.direction,
    {
        self.direction
    }

    /// Sets the direction of the ray.
    pub fn set_direction(&mut self, value: Vector2)
        ensures
            final(self).origin == old(self).origin,
            final(self).direction == value,
    {
        self.direction = value;
    }

    /// Gets the point on the ray the given distance along the direction.
    pub fn get_point(self, distance: u32) -> (r: Vector2)
        ensures
            r == spec_add2(self.origin, spec_multiply_scalar2(self.direction, distance)),
    {
        let dir = self.direction.multiply_scalar(distance);
        self.origin.add_other(dir)
    }

    /// Gets the point on the ray closest to the given point.
    pub fn closest_point(self, point: Vector2) -> (r: Vector2)
        ensures
            r == spec_add2(
                spec_project2(spec_sub2(point, self.origin), self.direction),
                self.origin,
            ),
    {
        let diff = point.subtract_other(self.origin);
        let projected = diff.project(self.direction);
        projected.add_other(self.origin)
    }

    /// Gets the distance between the ray and the given point.
    pub fn distance(self, point: Vector2) -> (r: u32)
        ensures
            r == spec_magnitude2(
                spec_sub2(
                    spec_add2(
                        spec_project2(spec_sub2(point, self.origin), self.direction),
                        self.origin,
                    ),
                    point,
                ),
            ),
    {
        point.distance(self.closest_point(point))
    }

    /// Converts into a 3D ray with zero z coordinates.
    pub fn to_ray3(self) -> (r: Ray3)
        ensures
            r.origin == (crate::vector3::Vector3 {
                x: self.origin.x,
                y: self.origin.y,
                z: crate::ieee::POS_ZERO,
            }),
            r.direction == (crate::vector3::Vector3 {
                x: self.direction.x,
                y: self.direction.y,
                z: crate::ieee::POS_ZERO,
            }),
    {
        Ray3::new(self.origin.to_vector3(), self.direction.to_vector3())
    }

    /// The ray scaled by a scalar: the direction is scaled, the origin kept.
    pub fn multiply_scalar(self, rhs: u32) -> (r: Ray2)
        ensures
            r.origin == self.origin,
            r.direction == spec_multiply_scalar2(self.direction, rhs),
    {
        Ray2::new(self.origin, self.direction.multiply_scalar(rhs))
    }

    /// The ray divided by a scalar: the direction is divided, the origin
    /// kept.
    pub fn divide_scalar(self, rhs: u32) -> (r: Ray2)
        ensures
            r.origin == self.origin,
            r.direction == spec_divide_scalar2(self.direction, rhs),
    {
        Ray2::new(self.origin, self.direction.divide_scalar(rhs))
    }

    /// Scales the direction by a scalar in place.
    pub fn multiply_assign_scalar(&mut self, rhs: u32)
        ensures
            final(self).origin == old(self).origin,
            final(self).direction.x == crate::arith::mul_of(old(self).direction.x, rhs),
            final(self).direction.y == crate::arith::mul_of(old(self).direction.y, rhs),
    {
        self.direction.multiply_assign_scalar(rhs);
    }

    /// Divides the direction by a scalar in place; a zero divisor zeroes it.
    pub fn divide_assign_scalar(&mut self, rhs: u32)
        ensures
            final(self).origin == old(self).origin,
            final(self).direction == spec_divide_scalar2(old(self).direction, rhs),
    {
        self.direction.divide_assign_scalar(rhs);
    }

    /// The ray whose direction holds the scalar divided by each nonzero
    /// component.
    pub fn reciprocal_scalar(self, rhs: u32) -> (r: Ray2)
        ensures
            r.origin == self.origin,
            r.direction == spec_reciprocal_scalar2(self.direction, rhs),
    {
        Ray2::new(self.origin, self.direction.reciprocal_scalar(rhs))
    }

    /// The ray with its direction negated.
    pub fn negate(self) -> (r: Ray2)
        ensures
            r.origin == self.origin,
            r.direction == spec_negate2(self.direction),
    {
        Ray2::new(self.origin, self.direction.negate())
    }
}

impl PartialEq for Ray2 {
    /// Approximate equality of origin and direction.
    fn eq(&self, other: &Self) -> (r: bool) {
        self.origin == other.origin && self.direction == other.direction
    }
}

impl vstd::std_specs::cmp::PartialEqSpecImpl for Ray2 {
    open spec fn obeys_eq_spec() -> bool {
        true
    }

    open spec fn eq_spec(&self, other: &Ray2) -> bool {
        spec_eq2(self.origin, other.origin) && spec_eq2(self.direction, other.direction)
    }
}

} // verus!
