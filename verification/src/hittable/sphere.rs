//! Spheres, and how one of a sphere's two crossings is chosen.

use crate::hittable::{HitRecord, Surface};
use crate::material::Material;
use crate::ray::Ray;
use crate::util::{at_least, at_most, is_at_least, is_at_most, Key, ZERO};
use crate::vec3::Vec3;
use vstd::prelude::*;

verus! {

/// A sphere.
#[derive(Copy, Clone, Debug, PartialEq, Eq, Structural)]
pub struct Sphere {
    pub center: Vec3,
    pub radius: Key,
    pub material: Material,
}

/// The quadratic equation whose solutions are the parameters at which a
/// ray crosses a sphere, solved.
#[derive(Copy, Clone, Debug, PartialEq, Eq, Structural)]
pub struct Quadratic {
    /// The discriminant. The ray misses the sphere where it is negative.
    pub discriminant: Key,
    /// The solution with the root of the discriminant subtracted.
    pub solution_1: Key,
    /// The solution with the root of the discriminant added.
    pub solution_2: Key,
}

/// Whether a solution lies in the window from `t_min` to `t_max`, whose
/// two ends belong to it. What is no number lies in no window, and nothing
/// lies in a window whose end is no number.
pub open spec fn in_window(t: Key, t_min: Key, t_max: Key) -> bool {
    is_at_least(t, t_min) && is_at_most(t, t_max)
}

/// The crossing that counts as the hit: the first solution where it lies
/// in the window, else the second where that does, and none where neither
/// does or the discriminant is negative. A ray that only touches the
/// sphere, with a discriminant of zero, hits it. A discriminant that is no
/// number means a miss.
pub open spec fn chosen_root(q: Quadratic, t_min: Key, t_max: Key) -> Option<Key> {
    if is_at_least(q.discriminant, ZERO) {
        if in_window(q.solution_1, t_min, t_max) {
            Some(q.solution_1)
        } else if in_window(q.solution_2, t_min, t_max) {
            Some(q.solution_2)
        } else {
            None
        }
    } else {
        None
    }
}

/// Chooses the crossing that counts as the hit.
pub fn nearest_root(q: &Quadratic, t_min: Key, t_max: Key) -> (r: Option<Key>)
    ensures
        r == chosen_root(*q, t_min, t_max),
{
    if at_least(q.discriminant, ZERO) {
        if at_least(q.solution_1, t_min) && at_most(q.solution_1, t_max) {
            Some(q.solution_1)
        } else if at_least(q.solution_2, t_min) && at_most(q.solution_2, t_max) {
            Some(q.solution_2)
        } else {
            None
        }
    } else {
        None
    }
}

/// There is no hit exactly when the discriminant is negative or no number,
/// or neither solution lies in the window. A crossing that is chosen is one of the
/// two solutions and lies in the window; it is the first solution
/// whenever that lies in the window; and where the first solution does
/// not come after the second, no solution in the window comes before it.
pub proof fn chosen_root_is_nearest(q: Quadratic, t_min: Key, t_max: Key)
    ensures
        chosen_root(q, t_min, t_max) is None <==> !is_at_least(q.discriminant, ZERO) || (!in_window(
            q.solution_1,
            t_min,
            t_max,
        ) && !in_window(q.solution_2, t_min, t_max)),
        chosen_root(q, t_min, t_max) matches Some(t) ==> in_window(t, t_min, t_max) && (t
            == q.solution_1 || t == q.solution_2),
        is_at_least(q.discriminant, ZERO) && in_window(q.solution_1, t_min, t_max) ==> chosen_root(
            q,
            t_min,
            t_max,
        ) == Some(q.solution_1),
        q.solution_1 <= q.solution_2 ==> (chosen_root(q, t_min, t_max) matches Some(t) ==> (
        in_window(q.solution_1, t_min, t_max) ==> t <= q.solution_1) && (in_window(
            q.solution_2,
            t_min,
            t_max,
        ) ==> t <= q.solution_2)),
{
}

/// Whether a ray sent at a round object may end with `r`: nothing where no
/// crossing is chosen, else the record of the chosen crossing on the
/// surface that `surface` reports for it.
pub open spec fn struck<O, Q: Fn(&O, &Ray) -> Quadratic, F: Fn(&O, &Ray, Key) -> Surface>(
    object: O,
    material: Material,
    ray: Ray,
    solve: Q,
    surface: F,
    t_min: Key,
    t_max: Key,
    r: Option<HitRecord>,
) -> bool {
    exists|q: Quadratic|
        {
            &&& #[trigger] solve.ensures((&object, &ray), q)
            &&& match chosen_root(q, t_min, t_max) {
                None => r is None,
                Some(t) => exists|s: Surface|
                    {
                        &&& #[trigger] surface.ensures((&object, &ray, t), s)
                        &&& r == Some(HitRecord::landed(t, s, material))
                    },
            }
        }
}

/// Sends a ray at a round object of the given material. `solve` solves the
/// quadratic equation of the ray and the object, `surface` tells where the
/// ray lands for a parameter.
pub fn hit_round<O, Q: Fn(&O, &Ray) -> Quadratic, F: Fn(&O, &Ray, Key) -> Surface>(
    object: &O,
    material: Material,
    ray: &Ray,
    solve: &Q,
    surface: &F,
    t_min: Key,
    t_max: Key,
) -> (r: Option<HitRecord>)
    requires
        solve.requires((object, ray)),
        forall|t: Key| surface.requires((object, ray, t)),
    ensures
        struck(*object, material, *ray, *solve, *surface, t_min, t_max, r),
{
    let q = solve(object, ray);
    match nearest_root(&q, t_min, t_max) {
        Some(t) => {
            let s = surface(object, ray, t);
            Some(HitRecord::new(s.facing, t, s.hit_point, s.outward_normal, material, s.uv))
        },
        None => None,
    }
}

impl Sphere {
    /// Creates a new sphere.
    pub fn new(center: Vec3, radius: Key, material: Material) -> (r: Sphere)
        ensures
            r == (Sphere { center, radius, material }),
    {
        Sphere { center, radius, material }
    }

    /// Finds where a ray hits the sphere within the window from `t_min`
    /// to `t_max`, both ends included: at the nearer crossing if that lies
    /// in the window, else at the farther if that does.
    pub fn hit<Q: Fn(&Sphere, &Ray) -> Quadratic, F: Fn(&Sphere, &Ray, Key) -> Surface>(
        &self,
        ray: &Ray,
        solve: &Q,
        surface: &F,
        t_min: Key,
        t_max: Key,
    ) -> (r: Option<HitRecord>)
        requires
            solve.requires((self, ray)),
            forall|t: Key| surface.requires((self, ray, t)),
        ensures
            struck(*self, self.material, *ray, *solve, *surface, t_min, t_max, r),
    {
        hit_round(self, self.material, ray, solve, surface, t_min, t_max)
    }
}

} // verus!
