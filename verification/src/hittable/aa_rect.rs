//! Rectangles that lie in a plane at right angles to an axis.
//!
//! Such a rectangle has no thickness. A ray hits it where it reaches the
//! rectangle's plane within the window and the point reached lies within
//! the rectangle's sides.

use crate::hittable::HitRecord;
use crate::material::Material;
use crate::ray::Ray;
use crate::texture::UVCoord;
use crate::util::{at_least, at_most, is_at_least, is_at_most, Key, ONE, ZERO};
use crate::vec3::Vec3;
use vstd::prelude::*;

verus! {

/// A rectangle in the plane `z = k`.
#[derive(Copy, Clone, Debug, PartialEq, Eq, Structural)]
pub struct XYRect {
    pub material: Material,
    pub x0: Key,
    pub x1: Key,
    pub y0: Key,
    pub y1: Key,
    /// The height of the plane that the rectangle lies in.
    pub k: Key,
}

/// A rectangle in the plane `y = k`.
#[derive(Copy, Clone, Debug, PartialEq, Eq, Structural)]
pub struct XZRect {
    pub material: Material,
    pub x0: Key,
    pub x1: Key,
    pub z0: Key,
    pub z1: Key,
    /// The height of the plane that the rectangle lies in.
    pub k: Key,
}

/// A rectangle in the plane `x = k`.
#[derive(Copy, Clone, Debug, PartialEq, Eq, Structural)]
pub struct YZRect {
    pub material: Material,
    pub y0: Key,
    pub y1: Key,
    pub z0: Key,
    pub z1: Key,
    /// The height of the plane that the rectangle lies in.
    pub k: Key,
}

/// Where a ray reaches the plane of a rectangle.
#[derive(Copy, Clone, Debug, PartialEq, Eq, Structural)]
pub struct Reach {
    /// The ray parameter at which the plane is reached.
    pub t: Key,
    /// The first coordinate, within the plane, of the point reached.
    pub a: Key,
    /// The second coordinate, within the plane, of the point reached.
    pub b: Key,
}

/// Where a ray lands on a rectangle: the point, the dot product of the
/// ray's direction and the rectangle's normal, and the surface coordinates.
#[derive(Copy, Clone, Debug, PartialEq, Eq)]
pub struct Landing {
    pub hit_point: Vec3,
    pub facing: Key,
    pub uv: UVCoord,
}

/// Whether a point reached lies on the rectangle and inside the window.
/// The ends of the window and the sides of the rectangle count as inside.
/// A parameter or a coordinate that is no number lies nowhere, and nothing
/// lies within a bound that is no number.
pub open spec fn lands(
    reach: Reach,
    a0: Key,
    a1: Key,
    b0: Key,
    b1: Key,
    t_min: Key,
    t_max: Key,
) -> bool {
    &&& is_at_least(reach.t, t_min) && is_at_most(reach.t, t_max)
    &&& is_at_least(reach.a, a0) && is_at_most(reach.a, a1)
    &&& is_at_least(reach.b, b0) && is_at_most(reach.b, b1)
}

/// Whether a ray sent at a rectangle may end with `r`: nothing where the
/// point that the ray reaches in the rectangle's plane is off the rectangle
/// or outside the window, else the record of the hit there, with the
/// rectangle's own normal turned against the ray.
pub open spec fn met<O, P: Fn(&O, &Ray) -> Reach, F: Fn(&O, &Ray, Reach) -> Landing>(
    rect: O,
    sides: (Key, Key, Key, Key),
    outward_normal: Vec3,
    material: Material,
    ray: Ray,
    reach: P,
    land: F,
    t_min: Key,
    t_max: Key,
    r: Option<HitRecord>,
) -> bool {
    exists|p: Reach|
        {
            &&& #[trigger] reach.ensures((&rect, &ray), p)
            &&& if lands(p, sides.0, sides.1, sides.2, sides.3, t_min, t_max) {
                exists|l: Landing|
                    {
                        &&& #[trigger] land.ensures((&rect, &ray, p), l)
                        &&& r == Some(
                            HitRecord::oriented(
                                l.facing,
                                p.t,
                                l.hit_point,
                                outward_normal,
                                material,
                                l.uv,
                            ),
                        )
                    }
            } else {
                r is None
            }
        }
}

/// Sends a ray at a rectangle with the given sides and normal. `reach`
/// tells where the ray reaches the rectangle's plane, `land` where it
/// lands on the rectangle.
pub fn hit_rect<O, P: Fn(&O, &Ray) -> Reach, F: Fn(&O, &Ray, Reach) -> Landing>(
    rect: &O,
    sides: (Key, Key, Key, Key),
    outward_normal: Vec3,
    material: Material,
    ray: &Ray,
    reach: &P,
    land: &F,
    t_min: Key,
    t_max: Key,
) -> (r: Option<HitRecord>)
    requires
        reach.requires((rect, ray)),
        forall|p: Reach| land.requires((rect, ray, p)),
    ensures
        met(*rect, sides, outward_normal, material, *ray, *reach, *land, t_min, t_max, r),
{
    let p = reach(rect, ray);
    if !(at_least(p.t, t_min) && at_most(p.t, t_max)) {
        return None;
    }
    if !(at_least(p.a, sides.0) && at_most(p.a, sides.1) && at_least(p.b, sides.2) && at_most(
        p.b,
        sides.3,
    )) {
        return None;
    }
    let l = land(rect, ray, p);
    Some(HitRecord::new(l.facing, p.t, l.hit_point, outward_normal, material, l.uv))
}

impl XYRect {
    /// The sides of the rectangle, and its normal, which points along `z`.
    pub open spec fn sides(self) -> (Key, Key, Key, Key) {
        (self.x0, self.x1, self.y0, self.y1)
    }

    /// Creates a new rectangle without thickness.
    pub fn new(x0: Key, x1: Key, y0: Key, y1: Key, k: Key, material: Material) -> (r: XYRect)
        ensures
            r == (XYRect { material, x0, x1, y0, y1, k }),
    {
        XYRect { x0, x1, y0, y1, k, material }
    }

    /// Finds where a ray hits the rectangle within the window from `t_min`
    /// to `t_max`, both ends included.
    pub fn hit<P: Fn(&XYRect, &Ray) -> Reach, F: Fn(&XYRect, &Ray, Reach) -> Landing>(
        &self,
        ray: &Ray,
        reach: &P,
        land: &F,
        t_min: Key,
        t_max: Key,
    ) -> (r: Option<HitRecord>)
        requires
            reach.requires((self, ray)),
            forall|p: Reach| land.requires((self, ray, p)),
        ensures
            met(
                *self,
                self.sides(),
                Vec3(ZERO, ZERO, ONE),
                self.material,
                *ray,
                *reach,
                *land,
                t_min,
                t_max,
                r,
            ),
    {
        let outward_normal = Vec3::new(ZERO, ZERO, ONE);
        hit_rect(
            self,
            (self.x0, self.x1, self.y0, self.y1),
            outward_normal,
            self.material,
            ray,
            reach,
            land,
            t_min,
            t_max,
        )
    }
}

impl XZRect {
    /// The sides of the rectangle.
    pub open spec fn sides(self) -> (Key, Key, Key, Key) {
        (self.x0, self.x1, self.z0, self.z1)
    }

    /// Creates a new rectangle without thickness.
    pub fn new(x0: Key, x1: Key, z0: Key, z1: Key, k: Key, material: Material) -> (r: XZRect)
        ensures
            r == (XZRect { material, x0, x1, z0, z1, k }),
    {
        XZRect { x0, x1, z0, z1, k, material }
    }

    /// Finds where a ray hits the rectangle within the window from `t_min`
    /// to `t_max`, both ends included.
    pub fn hit<P: Fn(&XZRect, &Ray) -> Reach, F: Fn(&XZRect, &Ray, Reach) -> Landing>(
        &self,
        ray: &Ray,
        reach: &P,
        land: &F,
        t_min: Key,
        t_max: Key,
    ) -> (r: Option<HitRecord>)
        requires
            reach.requires((self, ray)),
            forall|p: Reach| land.requires((self, ray, p)),
        ensures
            met(
                *self,
                self.sides(),
                Vec3(ZERO, ONE, ZERO),
                self.material,
                *ray,
                *reach,
                *land,
                t_min,
                t_max,
                r,
            ),
    {
        let outward_normal = Vec3::new(ZERO, ONE, ZERO);
        hit_rect(
            self,
            (self.x0, self.x1, self.z0, self.z1),
            outward_normal,
            self.material,
            ray,
            reach,
            land,
            t_min,
            t_max,
        )
    }
}

impl YZRect {
    /// The sides of the rectangle.
    pub open spec fn sides(self) -> (Key, Key, Key, Key) {
        (self.y0, self.y1, self.z0, self.z1)
    }

    /// Creates a new rectangle without thickness.
    pub fn new(y0: Key, y1: Key, z0: Key, z1: Key, k: Key, material: Material) -> (r: YZRect)
        ensures
            r == (YZRect { material, y0, y1, z0, z1, k }),
    {
        YZRect { y0, y1, z0, z1, k, material }
    }

    /// Finds where a ray hits the rectangle within the window from `t_min`
    /// to `t_max`, both ends included.
    pub fn hit<P: Fn(&YZRect, &Ray) -> Reach, F: Fn(&YZRect, &Ray, Reach) -> Landing>(
        &self,
        ray: &Ray,
        reach: &P,
        land: &F,
        t_min: Key,
        t_max: Key,
    ) -> (r: Option<HitRecord>)
        requires
            reach.requires((self, ray)),
            forall|p: Reach| land.requires((self, ray, p)),
        ensures
            met(
                *self,
                self.sides(),
                Vec3(ONE, ZERO, ZERO),
                self.material,
                *ray,
                *reach,
                *land,
                t_min,
                t_max,
                r,
            ),
    {
        let outward_normal = Vec3::new(ONE, ZERO, ZERO);
        hit_rect(
            self,
            (self.y0, self.y1, self.z0, self.z1),
            outward_normal,
            self.material,
            ray,
            reach,
            land,
            t_min,
            t_max,
        )
    }
}

} // verus!
