//! Spheres that move in a straight line while the shutter is open.

use crate::hittable::sphere::{hit_round, struck, Quadratic};
use crate::hittable::{HitRecord, Surface};
use crate::material::Material;
use crate::ray::Ray;
use crate::util::Key;
use crate::vec3::Vec3;
use vstd::prelude::*;

verus! {

/// A sphere that moves from `center0` at `time0` to `center1` at `time1`.
#[derive(Copy, Clone, Debug, PartialEq, Eq, Structural)]
pub struct MovingSphere {
    pub center0: Vec3,
    pub center1: Vec3,
    pub time0: Key,
    pub time1: Key,
    pub radius: Key,
    pub material: Material,
}

impl MovingSphere {
    /// Creates a new moving sphere.
    pub fn new(
        center0: Vec3,
        center1: Vec3,
        time0: Key,
        time1: Key,
        radius: Key,
        material: Material,
    ) -> (r: MovingSphere)
        ensures
            r == (MovingSphere { center0, center1, time0, time1, radius, material }),
    {
        MovingSphere { center0, center1, time0, time1, radius, material }
    }

    /// Finds where a ray hits the sphere, as it stands at the time of the
    /// ray, within the window from `t_min` to `t_max`, both ends included.
    pub fn hit<
        Q: Fn(&MovingSphere, &Ray) -> Quadratic,
        F: Fn(&MovingSphere, &Ray, Key) -> Surface,
    >(&self, ray: &Ray, solve: &Q, surface: &F, t_min: Key, t_max: Key) -> (r: Option<HitRecord>)
        requires
            solve.requires((self, ray)),
            forall|t: Key| surface.requires((self, ray, t)),
        ensures
            struck(*self, self.material, *ray, *solve, *surface, t_min, t_max, r),
    {
        hit_round(self, self.material, ray, solve, surface, t_min, t_max)
    }
}

} // verus!
