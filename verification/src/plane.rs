//! A plane in normal-distance form, with point queries and a ray
//! intersection whose hit policy is stated exactly.

use vstd::prelude::*;

verus! {

use crate::arith::add_of;
use crate::arith::div_of;
use crate::arith::add_bits;
use crate::arith::div_bits;
use crate::ieee;
use crate::ieee::POS_ZERO;
use crate::ieee::ONE_BITS;
use crate::ieee::lt_bits;
use crate::ieee::eq_bits;
use crate::ieee::neg_bits;
use crate::math::Math;
use crate::math::spec_approx_epsilon;
use crate::math::APPROX_EPSILON_BITS;
use crate::vector3::Vector3;
use crate::vector3::spec_dot3;
use crate::vector3::spec_sub3;
use crate::vector3::spec_cross;
use crate::vector3::spec_multiply_scalar3;
use crate::vector3::spec_normalize3;
use crate::vector3::spec_negate3;
use crate::vector3::spec_eq3;
use crate::collision::IRaycast;
use crate::collision::RaycastInfo;
use crate::collision::RaycastInfoBuilder;
use crate::ray3::Ray3;

/// A plane in 3D space: a unit normal and the signed distance from the
/// origin along it.
#[derive(Debug, Clone, Copy)]
pub struct Plane {
    /// The unit normal of the plane.
    pub normal: Vector3,
    /// The signed distance of the plane from the origin.
    pub distance: u32,
}

/// The signed distance of a point from a plane.
pub open spec fn spec_distance_to_point(p: Plane, point: Vector3) -> u32 {
    add_of(spec_dot3(p.normal, point), p.distance)
}

/// What raycasting against a plane yields: an empty record when the ray
/// runs parallel to the plane within the default tolerance, otherwise the
/// travel distance along the ray, a hit flag for strictly positive
/// distances, the plane's normal, and the sampled point.
pub open spec fn spec_raycast_plane(p: Plane, ray: Ray3) -> RaycastInfo {
    let diff = spec_dot3(ray.direction, p.normal);
    let dist = neg_bits(add_of(spec_dot3(ray.origin, p.normal), p.distance));
    if spec_approx_epsilon(diff, POS_ZERO, APPROX_EPSILON_BITS) {
        RaycastInfo {
            is_hit: false,
            point: (Vector3 { x: POS_ZERO, y: POS_ZERO, z: POS_ZERO }),
            normal: (Vector3 { x: POS_ZERO, y: POS_ZERO, z: POS_ZERO }),
            uv: (crate::vector2::Vector2 { x: POS_ZERO, y: POS_ZERO }),
            distance: POS_ZERO,
        }
    } else {
        let travelled = div_of(dist, diff);
        RaycastInfo {
            is_hit: lt_bits(POS_ZERO, travelled),
            point: crate::vector3::spec_add3(
                ray.origin,
                spec_multiply_scalar3(ray.direction, travelled),
            ),
            normal: p.normal,
            uv: (crate::vector2::Vector2 { x: POS_ZERO, y: POS_ZERO }),
            distance: travelled,
        }
    }
}

impl Plane {
    /// Creates a new plane; the normal is normalized.
    pub fn new(normal: Vector3, distance: u32) -> (r: Self)
        ensures
            r.normal == spec_normalize3(normal),
            r.distance == distance,
    {
        Plane { normal: normal.normalize(), distance }
    }

    /// Creates a new plane through a point; the normal is normalized.
    pub fn new_from_point(normal: Vector3, point: Vector3) -> (r: Self)
        ensures
            r.normal == spec_normalize3(normal),
            r.distance == neg_bits(spec_dot3(spec_normalize3(normal), point)),
    {
        let n = normal.normalize();
        Plane { normal: n, distance: ieee::neg(n.dot(point)) }
    }

    /// Creates a new plane through three points.
    pub fn new_triangulated(a: Vector3, b: Vector3, c: Vector3) -> (r: Self)
        ensures
            ({
                let n = spec_normalize3(spec_cross(spec_sub3(b, a), spec_sub3(c, a)));
                r.normal == n && r.distance == neg_bits(spec_dot3(n, a))
            }),
    {
        let p = b.subtract_other(a);
        let q = c.subtract_other(a);
        let normal = p.cross(q).normalize();
        Plane { normal, distance: ieee::neg(normal.dot(a)) }
    }

    /// Creates the plane spanned by the x and y axes.
    pub fn xy_plane() -> (r: Self)
        ensures
            r.normal == spec_normalize3((Vector3 { x: POS_ZERO, y: POS_ZERO, z: ONE_BITS })),
            r.distance == POS_ZERO,
    {
        Plane::new(Vector3::forward(), POS_ZERO)
    }

    /// Creates the plane spanned by the x and z axes.
    pub fn xz_plane() -> (r: Self)
        ensures
            r.normal == spec_normalize3((Vector3 { x: POS_ZERO, y: ONE_BITS, z: POS_ZERO })),
            r.distance == POS_ZERO,
    {
        Plane::new(Vector3::up(), POS_ZERO)
    }

    /// Creates the plane spanned by the y and z axes.
    pub fn yz_plane() -> (r: Self)
        ensures
            r.normal == spec_normalize3((Vector3 { x: ONE_BITS, y: POS_ZERO, z: POS_ZERO })),
            r.distance == POS_ZERO,
    {
        Plane::new(Vector3::right(), POS_ZERO)
    }

    /// Gets the unit normal of the plane.
    pub fn normal(&self) -> (r: Vector3)
        ensures
            r == self.normal,
    {
        self.normal
    }

    /// Sets the normal of the plane; the value is normalized.
    pub fn set_normal(&mut self, value: Vector3)
        ensures
            final(self).normal == spec_normalize3(value),
            final(self).distance == old(self).distance,
    {
        self.normal = value.normalize();
    }

    /// Gets the signed distance of the plane from the origin.
    pub fn distance(&self) -> (r: u32)
        ensures
            r == self.distance,
    {
        self.distance
    }

    /// Sets the signed distance of the plane from the origin.
    pub fn set_distance(&mut self, value: u32)
        ensures
            final(self).normal == old(self).normal,
            final(self).distance == value,
    {
        self.distance = value;
    }

    /// The plane facing the other way: normal and distance negated.
    pub fn flipped(self) -> (r: Self)
        ensures
            r.normal == spec_normalize3(spec_negate3(self.normal)),
            r.distance == neg_bits(self.distance),
    {
        Plane::new(self.normal.negate(), ieee::neg(self.distance))
    }

    /// Whether the point lies on the plane within the default tolerance.
    pub fn is_on_plane(&self, point: Vector3) -> (r: bool)
        ensures
            r == spec_approx_epsilon(
                spec_distance_to_point(*self, point),
                POS_ZERO,
                APPROX_EPSILON_BITS,
            ),
    {
        Math::approx(add_bits(self.normal.dot(point), self.distance), POS_ZERO)
    }

    /// The point on the plane closest to the given point.
    pub fn closest_point(self, point: Vector3) -> (r: Vector3)
        ensures
            r == spec_sub3(
                point,
                spec_multiply_scalar3(self.normal, spec_distance_to_point(self, point)),
            ),
    {
        let d = self.distance_to_point(point);
        point.subtract_other(self.normal.multiply_scalar(d))
    }

    /// The signed distance of a point from the plane.
    pub fn distance_to_point(self, point: Vector3) -> (r: u32)
        ensures
            r == spec_distance_to_point(self, point),
    {
        add_bits(self.normal.dot(point), self.distance)
    }

    /// Whether the point lies strictly on the positive side of the plane.
    pub fn is_on_positive_side(&self, point: Vector3) -> (r: bool)
        ensures
            r == lt_bits(POS_ZERO, spec_distance_to_point(*self, point)),
    {
        ieee::gt(self.distance_to_point(point), POS_ZERO)
    }

    /// Whether the two points lie on the same side of the plane.
    pub fn is_on_same_side(&self, a: Vector3, b: Vector3) -> (r: bool)
        ensures
            r == (lt_bits(POS_ZERO, spec_distance_to_point(*self, a)) == lt_bits(
                POS_ZERO,
                spec_distance_to_point(*self, b),
            )),
    {
        self.is_on_positive_side(a) == self.is_on_positive_side(b)
    }
}

impl IRaycast for Plane {
    /// Raycasts against the plane: an empty record for rays parallel to the
    /// plane, otherwise the travel distance, the hit flag and the sampled
    /// point.
    fn raycast(&self, ray: Ray3) -> (r: RaycastInfo)
        ensures
            r == spec_raycast_plane(*self, ray),
    {
        let diff = ray.direction().dot(self.normal);
        let dist = ieee::neg(add_bits(ray.origin().dot(self.normal), self.distance));
        if Math::approx(diff, POS_ZERO) {
            return RaycastInfo::empty();
        }
        let travelled = div_bits(dist, diff);
        RaycastInfoBuilder::new().set_hit(ieee::gt(travelled, POS_ZERO)).set_distance(
            travelled,
        ).set_normal(self.normal).set_point(ray.get_point(travelled)).build()
    }
}

impl PartialEq for Plane {
    /// Approximate equality of the normal and exact IEEE equality of the
    /// distance.
    fn eq(&self, other: &Self) -> (r: bool) {
        self.normal == other.normal && ieee::eq_val(self.distance, other.distance)
    }
}

impl vstd::std_specs::cmp::PartialEqSpecImpl for Plane {
    open spec fn obeys_eq_spec() -> bool {
        true
    }

    open spec fn eq_spec(&self, other: &Plane) -> bool {
        spec_eq3(self.normal, other.normal) && eq_bits(self.distance, other.distance)
    }
}

} // verus!
