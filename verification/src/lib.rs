//! The exact core of a Monte Carlo path tracer.
//!
//! A path tracer mixes two kinds of work. One is numeric: solving a
//! quadratic, rotating a point, evaluating a density. The other is
//! decision: which crossing along a ray is nearest, which subtree of a
//! bounding volume hierarchy can be skipped, when a light path ends, where
//! a sample lands in the image. This crate holds the second kind and
//! proves it.
//!
//! No fractional arithmetic happens here. Every scalar is carried as a
//! [`util::Key`], an integer that orders exactly as the scalar it stands
//! for, so that comparing, clamping, taking the smaller or larger of two
//! and flipping a sign are exact. Whatever needs arithmetic on scalars is
//! asked of the embedding program through a function argument: how a ray
//! crosses the planes of a box, where it meets an object, how a surface
//! scatters it. The contracts say what this crate decides for every answer
//! those functions may give.

pub mod aabb;
pub mod bvh;
pub mod hittable;
pub mod material;
pub mod onb;
pub mod pdf;
mod random;
pub mod ray;
pub mod renderer;
pub mod texture;
pub mod util;
pub mod vec3;
