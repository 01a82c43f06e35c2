//! A 3D ray: an origin and a direction, with point sampling and
//! closest-point queries built on the vector algebra.

use vstd::prelude::*;

verus! {

use crate::arith::mul_of;
use crate::vector2::Vector2;
use crate::vector3::Vector3;
use crate::vector3::spec_add3;
use crate::vector3::spec_sub3;
use crate::vector3::spec_multiply_scalar3;
use crate::vector3::spec_divide_scalar3;
use crate::vector3::spec_project3;
use crate::vector3::spec_magnitude3;
use crate::vector3::spec_negate3;
use crate::vector3::spec_reciprocal_scalar3;
use crate::vector3::spec_eq3;
use crate::ray2::Ray2;

/// A 3D ray that holds an origin and a direction.
#[derive(Debug, Clone, Copy)]
pub struct Ray3 {
    /// The origin of the ray.
    pub origin: Vector3,
    /// The direction the ray points in.
    pub direction: Vector3,
}

impl Ray3 {
    /// Creates a new 3D ray.
    pub fn new(origin: Vector3, direction: Vector3) -> (r: Self)
        ensures
            r.origin == origin,
            r.direction == direction,
    {
        Ray3 { origin, direction }
    }

    /// Gets the origin of the ray.
    pub fn origin(&self) -> (r: Vector3)
        ensures
            r == self.origin,
    {
        self.origin
    }

    /// Sets the origin of the ray.
    pub fn set_origin(&mut self, value: Vector3)
        ensures
            final(self).origin == value,
            final(self).direction == old(self).direction,
    {
        self.origin = value;
    }

    /// Gets the direction of the ray.
    pub fn direction(&self) -> (r: Vector3)
        ensures
            r == self.direction,
    {
        self.direction
    }

    /// Sets the direction of the ray.
    pub fn set_direction(&mut self, value: Vector3)
        ensures
            final(self).origin == old(self).origin,
            final(self).direction == value,
    {
        self.direction = value;
    }

    /// Gets the point on the ray the given distance along the direction.
    pub fn get_point(self, distance: u32) -> (r: Vector3)
        ensures
            r == spec_add3(self.origin, spec_multiply_scalar3(self.direction, distance)),
    {
        let dir = self.direction.multiply_scalar(distance);
        self.origin.add_other(dir)
    }

    /// Gets the point on the ray closest to the given point.
    pub fn closest_point(self, point: Vector3) -> (r: Vector3)
        ensures
            r == spec_add3(
                spec_project3(spec_sub3(point, self.origin), self.direction),
                self.origin,
            ),
    {
        let diff = point.subtract_other(self.origin);
        let projected = diff.project(self.direction);
        projected.add_other(self.origin)
    }

    /// Gets the distance between the ray and the given point.
    pub fn distance(self, point: Vector3) -> (r: u32)
        ensures
            r == spec_magnitude3(
                spec_sub3(
                    spec_add3(
                        spec_project3(spec_sub3(point, self.origin), self.direction),
                        self.origin,
                    ),
                    point,
                ),
            ),
    {
        point.distance(self.closest_point(point))
    }

    /// Converts into a 2D ray, dropping the z coordinates.
    pub fn to_ray2(self) -> (r: Ray2)
        ensures
            r.origin == (Vector2 { x: self.origin.x, y: self.origin.y }),
            r.direction == (Vector2 { x: self.direction.x, y: self.direction.y }),
    {
        Ray2::new(self.origin.to_vector2(), self.direction.to_vector2())
    }

    /// The ray scaled by a scalar: the direction is scaled, the origin kept.
    pub fn multiply_scalar(self, rhs: u32) -> (r: Ray3)
        ensures
            r.origin == self.origin,
            r.direction == spec_multiply_scalar3(self.direction, rhs),
    {
        Ray3::new(self.origin, self.direction.multiply_scalar(rhs))
    }

    /// The ray divided by a scalar: the direction is divided, the origin
    /// kept.
    pub fn divide_scalar(self, rhs: u32) -> (r: Ray3)
        ensures
            r.origin == self.origin,
            r.direction == spec_divide_scalar3(self.direction, rhs),
    {
        Ray3::new(self.origin, self.direction.divide_scalar(rhs))
    }

    /// Scales the direction by a scalar in place.
    pub fn multiply_assign_scalar(&mut self, rhs: u32)
        ensures
            final(self).origin == old(self).origin,
            final(self).direction.x == mul_of(old(self).direction.x, rhs),
            final(self).direction.y == mul_of(old(self).direction.y, rhs),
            final(self).direction.z == mul_of(old(self).direction.z, rhs),
    {
        self.direction.multiply_assign_scalar(rhs);
    }

    /// Divides the direction by a scalar in place; a zero divisor zeroes it.
    pub fn divide_assign_scalar(&mut self, rhs: u32)
        ensures
            final(self).origin == old(self).origin,
            final(self).direction == spec_divide_scalar3(old(self).direction, rhs),
    {
        self.direction.divide_assign_scalar(rhs);
    }

    /// The ray whose direction holds the scalar divided by each nonzero
    /// component.
    pub fn reciprocal_scalar(self, rhs: u32) -> (r: Ray3)
        ensures
            r.origin == self.origin,
            r.direction == spec_reciprocal_scalar3(self.direction, rhs),
    {
        Ray3::new(self.origin, self.direction.reciprocal_scalar(rhs))
    }

    /// The ray with its direction negated.
    pub fn negate(self) -> (r: Ray3)
        ensures
            r.origin == self.origin,
            r.direction == spec_negate3(self.direction),
    {
        Ray3::new(self.origin, self.direction.negate())
    }
}

impl PartialEq for Ray3 {
    /// Approximate equality of origin and direction.
    fn eq(&self, other: &Self) -> (r: bool) {
        self.origin == other.origin && self.direction == other.direction
    }
}

impl vstd::std_specs::cmp::PartialEqSpecImpl for Ray3 {
    open spec fn obeys_eq_spec() -> bool {
        true
    }

    open spec fn eq_spec(&self, other: &Ray3) -> bool {
        spec_eq3(self.origin, other.origin) && spec_eq3(self.direction, other.direction)
    }
}

} // verus!
