//! The raycast result record and its builder, plus the trait that raycastable
//! shapes implement.

use vstd::prelude::*;

verus! {

use crate::ieee::POS_ZERO;
use crate::vector2::Vector2;
use crate::vector3::Vector3;
use crate::ray3::Ray3;

/// A builder for the information given out by a raycast.
#[derive(Debug)]
pub struct RaycastInfoBuilder {
    /// The point of collision, if one was set.
    pub point: Option<Vector3>,
    /// The normal at the collision, if one was set.
    pub normal: Option<Vector3>,
    /// The texture coordinate of the collision, if one was set.
    pub uv: Option<Vector2>,
    /// The distance the ray travelled, if one was set.
    pub distance: Option<u32>,
    /// Whether the ray hit anything.
    pub is_hit: bool,
}

/// The information given out by a raycast.
#[derive(Debug)]
pub struct RaycastInfo {
    /// The point of collision.
    pub point: Vector3,
    /// The normal at the collision.
    pub normal: Vector3,
    /// The texture coordinate of the collision.
    pub uv: Vector2,
    /// The distance the ray travelled.
    pub distance: u32,
    /// Whether the ray hit anything.
    pub is_hit: bool,
}

/// The raycast record that a builder state stands for: unset fields fall
/// back to zeros.
pub open spec fn spec_build(b: RaycastInfoBuilder) -> RaycastInfo {
    RaycastInfo {
        is_hit: b.is_hit,
        point: (match b.point {
            Option::Some(v) => v,
            Option::None => Vector3 { x: POS_ZERO, y: POS_ZERO, z: POS_ZERO },
        }),
        normal: (match b.normal {
            Option::Some(v) => v,
            Option::None => Vector3 { x: POS_ZERO, y: POS_ZERO, z: POS_ZERO },
        }),
        uv: (match b.uv {
            Option::Some(v) => v,
            Option::None => Vector2 { x: POS_ZERO, y: POS_ZERO },
        }),
        distance: (match b.distance {
            Option::Some(v) => v,
            Option::None => POS_ZERO,
        }),
    }
}

impl RaycastInfoBuilder {
    /// Creates a new builder with nothing set and no hit.
    pub fn new() -> (r: Self)
        ensures
            r.point is None,
            r.normal is None,
            r.uv is None,
            r.distance is None,
            !r.is_hit,
    {
        RaycastInfoBuilder {
            is_hit: false,
            point: Option::None,
            normal: Option::None,
            uv: Option::None,
            distance: Option::None,
        }
    }

    /// Builds the raycast record; unset fields fall back to zeros.
    pub fn build(self) -> (r: RaycastInfo)
        ensures
            r == spec_build(self),
    {
        RaycastInfo {
            is_hit: self.is_hit,
            point: (match self.point {
                Option::Some(v) => v,
                Option::None => Vector3::zero(),
            }),
            normal: (match self.normal {
                Option::Some(v) => v,
                Option::None => Vector3::zero(),
            }),
            uv: (match self.uv {
                Option::Some(v) => v,
                Option::None => Vector2::zero(),
            }),
            distance: (match self.distance {
                Option::Some(v) => v,
                Option::None => POS_ZERO,
            }),
        }
    }

    /// Sets the point of collision.
    pub fn set_point(self, value: Vector3) -> (r: Self)
        ensures
            r == (RaycastInfoBuilder { point: Option::Some(value), ..self }),
    {
        RaycastInfoBuilder { point: Option::Some(value), ..self }
    }

    /// Sets the normal at the collision.
    pub fn set_normal(self, value: Vector3) -> (r: Self)
        ensures
            r == (RaycastInfoBuilder { normal: Option::Some(value), ..self }),
    {
        RaycastInfoBuilder { normal: Option::Some(value), ..self }
    }

    /// Sets the distance the ray travelled.
    pub fn set_distance(self, value: u32) -> (r: Self)
        ensures
            r == (RaycastInfoBuilder { distance: Option::Some(value), ..self }),
    {
        RaycastInfoBuilder { distance: Option::Some(value), ..self }
    }

    /// Sets whether the ray hit anything.
    pub fn set_hit(self, value: bool) -> (r: Self)
        ensures
            r == (RaycastInfoBuilder { is_hit: value, ..self }),
    {
        RaycastInfoBuilder { is_hit: value, ..self }
    }
}

impl RaycastInfo {
    /// Creates an empty raycast record: no hit, zeros throughout.
    pub fn empty() -> (r: Self)
        ensures
            !r.is_hit,
            r.point == (Vector3 { x: POS_ZERO, y: POS_ZERO, z: POS_ZERO }),
            r.normal == (Vector3 { x: POS_ZERO, y: POS_ZERO, z: POS_ZERO }),
            r.uv == (Vector2 { x: POS_ZERO, y: POS_ZERO }),
            r.distance == POS_ZERO,
    {
        RaycastInfo {
            is_hit: false,
            point: Vector3::zero(),
            normal: Vector3::zero(),
            uv: Vector2::zero(),
            distance: POS_ZERO,
        }
    }

    /// Gets the point of collision.
    pub fn point(&self) -> (r: Vector3)
        ensures
            r == self.point,
    {
        self.point
    }

    /// Gets the normal at the collision.
    pub fn normal(&self) -> (r: Vector3)
        ensures
            r == self.normal,
    {
        self.normal
    }

    /// Gets the texture coordinate of the collision.
    pub fn uv(&self) -> (r: Vector2)
        ensures
            r == self.uv,
    {
        self.uv
    }

    /// Gets the distance the ray travelled.
    pub fn distance(&self) -> (r: u32)
        ensures
            r == self.distance,
    {
        self.distance
    }

    /// Gets whether the ray hit anything.
    pub fn is_hit(&self) -> (r: bool)
        ensures
            r == self.is_hit,
    {
        self.is_hit
    }
}

/// What a shape that rays can be cast against implements.
pub trait IRaycast {
    /// Raycasts with the given ray and returns the information on the
    /// raycast.
    fn raycast(&self, ray: Ray3) -> RaycastInfo;
}

} // verus!
