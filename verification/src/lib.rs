//! A portable single-precision numeric kernel with a vector and quaternion
//! algebra on top of it. Scalars are carried as their IEEE-754 bit patterns in
//! `u32`, so that every algorithm in the crate is deterministic, panic-free and
//! verified: classification, comparison and the integer casts are proved from
//! exact bit-level specifications, while the four rounding arithmetic
//! operations are supplied by a software IEEE-754 implementation behind
//! trusted wrappers.

pub mod arith;
pub mod collision;
pub mod colors;
pub mod explog;
pub mod ieee;
pub mod math;
pub mod plane;
pub mod quaternions;
pub mod ray2;
pub mod ray3;
pub mod rounding;
pub mod trig;
pub mod vector2;
pub mod vector3;
