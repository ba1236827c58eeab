//! Turning an object about one of the coordinate axes.
//!
//! A ray is turned back into the frame of the object before the object is
//! asked about it, and a hit is turned forth again. The box of a turned
//! object is the box around the eight turned corners of the object's own
//! box: turning the box itself would leave it askew.

use crate::aabb::AABB;
use crate::hittable::HitRecord;
use crate::ray::Ray;
use crate::util::{greater, lesser, max, min, Key, MAX, MIN};
use crate::vec3::{Axis, Vec3};
use vstd::prelude::*;

verus! {

/// An object, held by the number under which the embedding program keeps
/// it, turned about the x axis.
#[derive(Copy, Clone, Debug, PartialEq, Eq, Structural)]
pub struct RotateX {
    /// The sine of the angle.
    pub sin_theta: Key,
    /// The cosine of the angle.
    pub cos_theta: Key,
    /// The object itself.
    pub obj: usize,
}

/// An object turned about the y axis.
#[derive(Copy, Clone, Debug, PartialEq, Eq, Structural)]
pub struct RotateY {
    /// The sine of the angle.
    pub sin_theta: Key,
    /// The cosine of the angle.
    pub cos_theta: Key,
    /// The object itself.
    pub obj: usize,
}

/// An object turned about the z axis.
#[derive(Copy, Clone, Debug, PartialEq, Eq, Structural)]
pub struct RotateZ {
    /// The sine of the angle.
    pub sin_theta: Key,
    /// The cosine of the angle.
    pub cos_theta: Key,
    /// The object itself.
    pub obj: usize,
}

/// An object turned about one of the three axes.
#[derive(Copy, Clone, Debug, PartialEq, Eq, Structural)]
pub enum Rotate {
    X(RotateX),
    Y(RotateY),
    Z(RotateZ),
}

/// A hit on the object in its own frame, turned forth.
#[derive(Copy, Clone, Debug, PartialEq, Eq, Structural)]
pub struct Turned {
    /// The point of the hit, turned.
    pub hit_point: Vec3,
    /// The normal of the hit, turned.
    pub normal: Vec3,
    /// The dot product of the turned normal and the direction of the
    /// incoming ray, as it runs through the world and not as the object
    /// sees it: the normal of the record is turned against that ray.
    pub facing: Key,
}

/// One of the eight corners of a box: along each axis the `max` corner's
/// coordinate where the flag is set, the `min` corner's where it is not.
pub open spec fn corner(bbox: AABB, i: bool, j: bool, k: bool) -> Vec3 {
    Vec3(
        if i {
            bbox.max.0
        } else {
            bbox.min.0
        },
        if j {
            bbox.max.1
        } else {
            bbox.min.1
        },
        if k {
            bbox.max.2
        } else {
            bbox.min.2
        },
    )
}

/// The eight corners of a box, the last axis changing fastest.
pub open spec fn corners(bbox: AABB) -> Seq<Vec3> {
    seq![
        corner(bbox, false, false, false),
        corner(bbox, false, false, true),
        corner(bbox, false, true, false),
        corner(bbox, false, true, true),
        corner(bbox, true, false, false),
        corner(bbox, true, false, true),
        corner(bbox, true, true, false),
        corner(bbox, true, true, true),
    ]
}

/// The box around the first `n` of a list of points, begun from the box
/// that reaches from the largest finite scalar down to the smallest.
/// Coordinates that are no number are taken as the integers they are.
pub open spec fn bounds(points: Seq<Vec3>, n: nat) -> AABB
    decreases n,
{
    if n == 0 {
        AABB { min: Vec3(MAX, MAX, MAX), max: Vec3(MIN, MIN, MIN) }
    } else {
        let rest = bounds(points, (n - 1) as nat);
        let p = points[n - 1];
        AABB {
            min: Vec3(lesser(rest.min.0, p.0), lesser(rest.min.1, p.1), lesser(rest.min.2, p.2)),
            max: Vec3(
                greater(rest.max.0, p.0),
                greater(rest.max.1, p.1),
                greater(rest.max.2, p.2),
            ),
        }
    }
}

/// Whether `r` may be the box of a turned object whose own box is `bbox`:
/// the box around eight points that `turn` reports for the eight corners
/// of `bbox`.
pub open spec fn turned_box<O, C: Fn(&O, &Vec3) -> Vec3>(
    holder: O,
    turn: C,
    bbox: AABB,
    r: AABB,
) -> bool {
    exists|testers: Seq<Vec3>|
        {
            &&& testers.len() == 8
            &&& forall|n: int|
                0 <= n < 8 ==> turn.ensures((&holder, &corners(bbox)[n]), #[trigger] testers[n])
            &&& r == #[trigger] bounds(testers, 8)
        }
}

/// Computes the box around the eight turned corners of `bbox`.
pub fn box_of_turned<O, C: Fn(&O, &Vec3) -> Vec3>(holder: &O, turn: &C, bbox: &AABB) -> (r: AABB)
    requires
        forall|p: &Vec3| turn.requires((holder, p)),
    ensures
        turned_box(*holder, *turn, *bbox, r),
{
    let mut lo = Vec3::from(MAX);
    let mut hi = Vec3::from(MIN);
    let ghost mut testers: Seq<Vec3> = Seq::empty();
    let mut n: usize = 0;
    while n < 8
        invariant
            n <= 8,
            forall|p: &Vec3| turn.requires((holder, p)),
            testers.len() == n,
            forall|m: int|
                0 <= m < n ==> turn.ensures((holder, &corners(*bbox)[m]), #[trigger] testers[m]),
            (AABB { min: lo, max: hi }) == bounds(testers, n as nat),
        decreases 8 - n,
    {
        let i = n / 4 == 1;
        let j = (n / 2) % 2 == 1;
        let k = n % 2 == 1;
        let x = if i { bbox.max.0 } else { bbox.min.0 };
        let y = if j { bbox.max.1 } else { bbox.min.1 };
        let z = if k { bbox.max.2 } else { bbox.min.2 };
        let here = Vec3::new(x, y, z);
        assert(here == corners(*bbox)[n as int]);
        let tester = turn(holder, &here);
        proof {
            let before = testers;
            testers = testers.push(tester);
            assert forall|m: nat| m <= n implies bounds(testers, m) == bounds(before, m) by {
                lemma_bounds_prefix(before, testers, m);
            }
        }
        lo = Vec3::new(min(lo.0, tester.0), min(lo.1, tester.1), min(lo.2, tester.2));
        hi = Vec3::new(max(hi.0, tester.0), max(hi.1, tester.1), max(hi.2, tester.2));
        n += 1;
    }
    AABB::new(lo, hi)
}

/// The box around the first points of a list does not depend on the points
/// behind them.
pub proof fn lemma_bounds_prefix(a: Seq<Vec3>, b: Seq<Vec3>, n: nat)
    requires
        n <= a.len(),
        n <= b.len(),
        forall|m: int| 0 <= m < n ==> a[m] == b[m],
    ensures
        bounds(a, n) == bounds(b, n),
    decreases n,
{
    if n > 0 {
        lemma_bounds_prefix(a, b, (n - 1) as nat);
    }
}

/// Whether a ray sent at a turned object may end with `r`. The object
/// itself is asked, in its own frame and within the same window, about the
/// ray turned back. A hit keeps its parameter, its material and its
/// surface coordinates; its point and normal are turned forth, by what
/// `to_world` makes of the incoming ray and the hit, and the normal is
/// turned against the incoming ray anew.
pub open spec fn turned_hit<
    O,
    W: Fn(&O, &Ray) -> Ray,
    L: Fn(&Ray, usize, Key, Key) -> Option<HitRecord>,
    B: Fn(&O, &Ray, &HitRecord) -> Turned,
>(
    holder: O,
    obj: usize,
    ray: Ray,
    to_local: W,
    hit_object: L,
    to_world: B,
    t_min: Key,
    t_max: Key,
    r: Option<HitRecord>,
) -> bool {
    exists|rotated_ray: Ray, inner: Option<HitRecord>|
        #![trigger
            to_local.ensures((&holder, &ray), rotated_ray),
            hit_object.ensures((&rotated_ray, obj, t_min, t_max), inner),
        ]
        {
            &&& to_local.ensures((&holder, &ray), rotated_ray)
            &&& hit_object.ensures((&rotated_ray, obj, t_min, t_max), inner)
            &&& match inner {
                None => r is None,
                Some(rec) => exists|turned: Turned|
                    {
                        &&& #[trigger] to_world.ensures((&holder, &ray, &rec), turned)
                        &&& r == Some(
                            HitRecord::oriented(
                                turned.facing,
                                rec.t,
                                turned.hit_point,
                                turned.normal,
                                rec.material,
                                rec.uv,
                            ),
                        )
                    },
            }
        }
}

/// Finds where a ray hits a turned object. `to_local` turns a ray back
/// into the frame of the object, `hit_object` tells where a ray meets the
/// object in its own frame, `to_world` turns a hit forth and is handed the incoming ray.
pub fn hit_turned<
    O,
    W: Fn(&O, &Ray) -> Ray,
    L: Fn(&Ray, usize, Key, Key) -> Option<HitRecord>,
    B: Fn(&O, &Ray, &HitRecord) -> Turned,
>(
    holder: &O,
    obj: usize,
    ray: &Ray,
    to_local: &W,
    hit_object: &L,
    to_world: &B,
    t_min: Key,
    t_max: Key,
) -> (r: Option<HitRecord>)
    requires
        to_local.requires((holder, ray)),
        forall|a: &Ray| hit_object.requires((a, obj, t_min, t_max)),
        forall|a: &Ray, rec: &HitRecord| to_world.requires((holder, a, rec)),
    ensures
        turned_hit(*holder, obj, *ray, *to_local, *hit_object, *to_world, t_min, t_max, r),
{
    let rotated_ray = to_local(holder, ray);
    if let Some(rec) = hit_object(&rotated_ray, obj, t_min, t_max) {
        let turned = to_world(holder, ray, &rec);
        Some(
            HitRecord::new(
                turned.facing,
                rec.t,
                turned.hit_point,
                turned.normal,
                rec.material,
                rec.uv,
            ),
        )
    } else {
        None
    }
}

impl RotateX {
    /// Creates `obj` turned about the x axis by the angle with the given
    /// sine and cosine.
    pub fn new(obj: usize, sin_theta: Key, cos_theta: Key) -> (r: RotateX)
        ensures
            r == (RotateX { sin_theta, cos_theta, obj }),
    {
        RotateX { sin_theta, cos_theta, obj }
    }

    /// Finds where a ray hits the turned object within the window from
    /// `t_min` to `t_max`. `to_local` turns a ray back into the frame of
    /// the object, `hit_object` tells where a ray meets the object in its
    /// own frame, `to_world` turns a hit forth and is handed the incoming ray.
    pub fn hit<
        W: Fn(&RotateX, &Ray) -> Ray,
        L: Fn(&Ray, usize, Key, Key) -> Option<HitRecord>,
        B: Fn(&RotateX, &Ray, &HitRecord) -> Turned,
    >(
        &self,
        ray: &Ray,
        to_local: &W,
        hit_object: &L,
        to_world: &B,
        t_min: Key,
        t_max: Key,
    ) -> (r: Option<HitRecord>)
        requires
            to_local.requires((self, ray)),
            forall|a: &Ray| hit_object.requires((a, self.obj, t_min, t_max)),
            forall|a: &Ray, rec: &HitRecord| to_world.requires((self, a, rec)),
        ensures
            turned_hit(*self, self.obj, *ray, *to_local, *hit_object, *to_world, t_min, t_max, r),
    {
        hit_turned(self, self.obj, ray, to_local, hit_object, to_world, t_min, t_max)
    }

    /// The box of the turned object: the box around the eight turned
    /// corners of the object's own box, and none where the object has
    /// none. `box_of` tells the box of the object, `turn` turns a point.
    pub fn bounding_box<B: Fn(usize, Key, Key) -> Option<AABB>, C: Fn(&RotateX, &Vec3) -> Vec3>(
        &self,
        box_of: &B,
        turn: &C,
        t0: Key,
        t1: Key,
    ) -> (r: Option<AABB>)
        requires
            box_of.requires((self.obj, t0, t1)),
            forall|p: &Vec3| turn.requires((self, p)),
        ensures
            exists|inner: Option<AABB>|
                {
                    &&& #[trigger] box_of.ensures((self.obj, t0, t1), inner)
                    &&& match inner {
                        Some(bbox) => r matches Some(out) && turned_box(*self, *turn, bbox, out),
                        None => r is None,
                    }
                },
    {
        if let Some(bbox) = box_of(self.obj, t0, t1) {
            Some(box_of_turned(self, turn, &bbox))
        } else {
            None
        }
    }
}

impl RotateY {
    /// Creates `obj` turned about the y axis by the angle with the given
    /// sine and cosine.
    pub fn new(obj: usize, sin_theta: Key, cos_theta: Key) -> (r: RotateY)
        ensures
            r == (RotateY { sin_theta, cos_theta, obj }),
    {
        RotateY { sin_theta, cos_theta, obj }
    }

    /// Finds where a ray hits the turned object within the window from
    /// `t_min` to `t_max`. `to_local` turns a ray back into the frame of
    /// the object, `hit_object` tells where a ray meets the object in its
    /// own frame, `to_world` turns a hit forth and is handed the incoming ray.
    pub fn hit<
        W: Fn(&RotateY, &Ray) -> Ray,
        L: Fn(&Ray, usize, Key, Key) -> Option<HitRecord>,
        B: Fn(&RotateY, &Ray, &HitRecord) -> Turned,
    >(
        &self,
        ray: &Ray,
        to_local: &W,
        hit_object: &L,
        to_world: &B,
        t_min: Key,
        t_max: Key,
    ) -> (r: Option<HitRecord>)
        requires
            to_local.requires((self, ray)),
            forall|a: &Ray| hit_object.requires((a, self.obj, t_min, t_max)),
            forall|a: &Ray, rec: &HitRecord| to_world.requires((self, a, rec)),
        ensures
            turned_hit(*self, self.obj, *ray, *to_local, *hit_object, *to_world, t_min, t_max, r),
    {
        hit_turned(self, self.obj, ray, to_local, hit_object, to_world, t_min, t_max)
    }

    /// The box of the turned object: the box around the eight turned
    /// corners of the object's own box, and none where the object has
    /// none. `box_of` tells the box of the object, `turn` turns a point.
    pub fn bounding_box<B: Fn(usize, Key, Key) -> Option<AABB>, C: Fn(&RotateY, &Vec3) -> Vec3>(
        &self,
        box_of: &B,
        turn: &C,
        t0: Key,
        t1: Key,
    ) -> (r: Option<AABB>)
        requires
            box_of.requires((self.obj, t0, t1)),
            forall|p: &Vec3| turn.requires((self, p)),
        ensures
            exists|inner: Option<AABB>|
                {
                    &&& #[trigger] box_of.ensures((self.obj, t0, t1), inner)
                    &&& match inner {
                        Some(bbox) => r matches Some(out) && turned_box(*self, *turn, bbox, out),
                        None => r is None,
                    }
                },
    {
        if let Some(bbox) = box_of(self.obj, t0, t1) {
            Some(box_of_turned(self, turn, &bbox))
        } else {
            None
        }
    }
}

impl RotateZ {
    /// Creates `obj` turned about the z axis by the angle with the given
    /// sine and cosine.
    pub fn new(obj: usize, sin_theta: Key, cos_theta: Key) -> (r: RotateZ)
        ensures
            r == (RotateZ { sin_theta, cos_theta, obj }),
    {
        RotateZ { sin_theta, cos_theta, obj }
    }

    /// Finds where a ray hits the turned object within the window from
    /// `t_min` to `t_max`. `to_local` turns a ray back into the frame of
    /// the object, `hit_object` tells where a ray meets the object in its
    /// own frame, `to_world` turns a hit forth and is handed the incoming ray.
    pub fn hit<
        W: Fn(&RotateZ, &Ray) -> Ray,
        L: Fn(&Ray, usize, Key, Key) -> Option<HitRecord>,
        B: Fn(&RotateZ, &Ray, &HitRecord) -> Turned,
    >(
        &self,
        ray: &Ray,
        to_local: &W,
        hit_object: &L,
        to_world: &B,
        t_min: Key,
        t_max: Key,
    ) -> (r: Option<HitRecord>)
        requires
            to_local.requires((self, ray)),
            forall|a: &Ray| hit_object.requires((a, self.obj, t_min, t_max)),
            forall|a: &Ray, rec: &HitRecord| to_world.requires((self, a, rec)),
        ensures
            turned_hit(*self, self.obj, *ray, *to_local, *hit_object, *to_world, t_min, t_max, r),
    {
        hit_turned(self, self.obj, ray, to_local, hit_object, to_world, t_min, t_max)
    }

    /// The box of the turned object: the box around the eight turned
    /// corners of the object's own box, and none where the object has
    /// none. `box_of` tells the box of the object, `turn` turns a point.
    pub fn bounding_box<B: Fn(usize, Key, Key) -> Option<AABB>, C: Fn(&RotateZ, &Vec3) -> Vec3>(
        &self,
        box_of: &B,
        turn: &C,
        t0: Key,
        t1: Key,
    ) -> (r: Option<AABB>)
        requires
            box_of.requires((self.obj, t0, t1)),
            forall|p: &Vec3| turn.requires((self, p)),
        ensures
            exists|inner: Option<AABB>|
                {
                    &&& #[trigger] box_of.ensures((self.obj, t0, t1), inner)
                    &&& match inner {
                        Some(bbox) => r matches Some(out) && turned_box(*self, *turn, bbox, out),
                        None => r is None,
                    }
                },
    {
        if let Some(bbox) = box_of(self.obj, t0, t1) {
            Some(box_of_turned(self, turn, &bbox))
        } else {
            None
        }
    }
}

impl Rotate {
    /// The object that is turned.
    pub open spec fn obj(self) -> usize {
        match self {
            Rotate::X(x) => x.obj,
            Rotate::Y(y) => y.obj,
            Rotate::Z(z) => z.obj,
        }
    }

    /// Creates `obj` turned about `axis` by the angle with the given sine
    /// and cosine.
    pub fn new(obj: usize, axis: Axis, sin_theta: Key, cos_theta: Key) -> (r: Rotate)
        ensures
            r == match axis {
                Axis::X => Rotate::X(RotateX { sin_theta, cos_theta, obj }),
                Axis::Y => Rotate::Y(RotateY { sin_theta, cos_theta, obj }),
                Axis::Z => Rotate::Z(RotateZ { sin_theta, cos_theta, obj }),
            },
    {
        match axis {
            Axis::X => Rotate::X(RotateX::new(obj, sin_theta, cos_theta)),
            Axis::Y => Rotate::Y(RotateY::new(obj, sin_theta, cos_theta)),
            Axis::Z => Rotate::Z(RotateZ::new(obj, sin_theta, cos_theta)),
        }
    }

    /// Finds where a ray hits the turned object within the window from
    /// `t_min` to `t_max`. `to_local` turns a ray back into the frame of
    /// the object, `hit_object` tells where a ray meets the object in its
    /// own frame, `to_world` turns a hit forth and is handed the incoming ray.
    pub fn hit<
        W: Fn(&Rotate, &Ray) -> Ray,
        L: Fn(&Ray, usize, Key, Key) -> Option<HitRecord>,
        B: Fn(&Rotate, &Ray, &HitRecord) -> Turned,
    >(
        &self,
        ray: &Ray,
        to_local: &W,
        hit_object: &L,
        to_world: &B,
        t_min: Key,
        t_max: Key,
    ) -> (r: Option<HitRecord>)
        requires
            to_local.requires((self, ray)),
            forall|a: &Ray| hit_object.requires((a, self.obj(), t_min, t_max)),
            forall|a: &Ray, rec: &HitRecord| to_world.requires((self, a, rec)),
        ensures
            turned_hit(
                *self,
                self.obj(),
                *ray,
                *to_local,
                *hit_object,
                *to_world,
                t_min,
                t_max,
                r,
            ),
    {
        let obj = match self {
            Rotate::X(x) => x.obj,
            Rotate::Y(y) => y.obj,
            Rotate::Z(z) => z.obj,
        };
        hit_turned(self, obj, ray, to_local, hit_object, to_world, t_min, t_max)
    }

    /// The box of the turned object: the box around the eight turned
    /// corners of the object's own box, and none where the object has
    /// none. `box_of` tells the box of the object, `turn` turns a point.
    pub fn bounding_box<B: Fn(usize, Key, Key) -> Option<AABB>, C: Fn(&Rotate, &Vec3) -> Vec3>(
        &self,
        box_of: &B,
        turn: &C,
        t0: Key,
        t1: Key,
    ) -> (r: Option<AABB>)
        requires
            box_of.requires((self.obj(), t0, t1)),
            forall|p: &Vec3| turn.requires((self, p)),
        ensures
            exists|inner: Option<AABB>|
                {
                    &&& #[trigger] box_of.ensures((self.obj(), t0, t1), inner)
                    &&& match inner {
                        Some(bbox) => r matches Some(out) && turned_box(*self, *turn, bbox, out),
                        None => r is None,
                    }
                },
    {
        let obj = match self {
            Rotate::X(x) => x.obj,
            Rotate::Y(y) => y.obj,
            Rotate::Z(z) => z.obj,
        };
        if let Some(bbox) = box_of(obj, t0, t1) {
            Some(box_of_turned(self, turn, &bbox))
        } else {
            None
        }
    }
}

} // verus!
