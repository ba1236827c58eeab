//! Things that a ray can hit, and the record of a hit.
//!
//! Objects are kept by the embedding program, which knows where a ray
//! crosses a sphere or a plane. Here an object that holds another, or a
//! list that holds many, knows them by their numbers, and asks about them
//! through a function that it is handed: given a ray, the number of an
//! object and a window of the ray parameter, the function reports the
//! crossing that it finds within the window, if any. What is done with the
//! crossings reported is decided here: which one counts, how far the
//! window is narrowed for the next object, and what the record of the hit
//! says.

pub mod aa_rect;
pub mod block;
pub mod constant_medium;
pub mod flip_face;
pub mod moving_sphere;
pub mod rotate;
pub mod sphere;
pub mod translate;
pub mod world;

use crate::material::Material;
use crate::texture::UVCoord;
use crate::util::{below, is_below, negated, Key, ZERO};
use crate::vec3::Vec3;
use vstd::prelude::*;

verus! {

/// The record of a ray hitting a surface.
#[derive(Copy, Clone, Debug, PartialEq, Eq)]
pub struct HitRecord {
    /// The point that got hit.
    pub hit_point: Vec3,
    /// The normal to the surface at that point, turned against the ray.
    pub normal: Vec3,
    /// How far along the ray the surface was hit.
    pub t: Key,
    /// Whether the ray struck the outer face of the surface.
    pub front_face: bool,
    /// The material that got hit.
    pub material: Material,
    /// The surface coordinates of the hit point.
    pub uv: UVCoord,
}

/// Where a ray lands on a surface, worked out for one crossing.
#[derive(Copy, Clone, Debug, PartialEq, Eq)]
pub struct Surface {
    /// The point at which the ray lands.
    pub hit_point: Vec3,
    /// The normal there, pointing out of the surface.
    pub outward_normal: Vec3,
    /// The dot product of the ray's direction and `outward_normal`.
    pub facing: Key,
    /// The surface coordinates of the point.
    pub uv: UVCoord,
}

impl HitRecord {
    /// The record of a hit at `t` whose normal points against the incoming
    /// ray: `outward_normal` where `facing` is a number below zero, its
    /// opposite where it is not, and so also where it is no number.
    pub open spec fn oriented(
        facing: Key,
        t: Key,
        hit_point: Vec3,
        outward_normal: Vec3,
        material: Material,
        uv: UVCoord,
    ) -> HitRecord {
        HitRecord {
            hit_point,
            normal: if is_below(facing, ZERO) {
                outward_normal
            } else {
                Vec3(
                    negated(outward_normal.0),
                    negated(outward_normal.1),
                    negated(outward_normal.2),
                )
            },
            t,
            front_face: is_below(facing, ZERO),
            material,
            uv,
        }
    }

    /// The record of a hit at `t` on the surface `s`.
    pub open spec fn landed(t: Key, s: Surface, material: Material) -> HitRecord {
        HitRecord::oriented(s.facing, t, s.hit_point, s.outward_normal, material, s.uv)
    }

    /// Creates a record whose normal points against the incoming ray.
    /// `facing` is the dot product of the ray's direction and
    /// `outward_normal`, which points out of the surface: where it is
    /// negative the ray struck the outer face and the normal is kept, else
    /// the normal is turned round.
    pub fn new(
        facing: Key,
        t: Key,
        hit_point: Vec3,
        outward_normal: Vec3,
        material: Material,
        uv: UVCoord,
    ) -> (r: HitRecord)
        ensures
            r == HitRecord::oriented(facing, t, hit_point, outward_normal, material, uv),
    {
        let front_face = below(facing, ZERO);
        let normal = if front_face { outward_normal } else { outward_normal.neg() };
        HitRecord { hit_point, t, normal, front_face, material, uv }
    }
}

} // verus!
