//! Moving an object to another place.

use crate::aabb::AABB;
use crate::hittable::HitRecord;
use crate::ray::Ray;
use crate::util::Key;
use crate::vec3::Vec3;
use vstd::prelude::*;

verus! {

/// An object, held by the number under which the embedding program keeps
/// it, moved by an offset.
#[derive(Copy, Clone, Debug, PartialEq, Eq, Structural)]
pub struct Translate {
    pub obj: usize,
    pub offset: Vec3,
}

/// A hit on the object where it stands, seen from where it was moved to.
#[derive(Copy, Clone, Debug, PartialEq, Eq, Structural)]
pub struct Moved {
    /// The point of the hit, moved by the offset.
    pub hit_point: Vec3,
    /// The dot product of the normal of the hit and the direction of the
    /// incoming ray: the normal of the record is turned against that ray.
    pub facing: Key,
}

impl Translate {
    /// Creates the object `obj` moved by `displacement`.
    pub fn new(obj: usize, displacement: Vec3) -> (r: Translate)
        ensures
            r == (Translate { obj, offset: displacement }),
    {
        Translate { obj, offset: displacement }
    }

    /// Whether a ray sent at the moved object may end with `r`. The object
    /// itself is asked, where it stands and within the same window, about
    /// the ray moved back by the offset. A hit keeps its parameter, its
    /// material and its surface coordinates; its normal is turned against
    /// the ray anew.
    pub open spec fn shifted<
        W: Fn(&Translate, &Ray) -> Ray,
        L: Fn(&Ray, usize, Key, Key) -> Option<HitRecord>,
        B: Fn(&Translate, &Ray, &HitRecord) -> Moved,
    >(
        self,
        ray: Ray,
        to_local: W,
        hit_object: L,
        to_world: B,
        t_min: Key,
        t_max: Key,
        r: Option<HitRecord>,
    ) -> bool {
        exists|moved_ray: Ray, inner: Option<HitRecord>|
            #![trigger
                to_local.ensures((&self, &ray), moved_ray),
                hit_object.ensures((&moved_ray, self.obj, t_min, t_max), inner),
            ]
            {
                &&& to_local.ensures((&self, &ray), moved_ray)
                &&& hit_object.ensures((&moved_ray, self.obj, t_min, t_max), inner)
                &&& match inner {
                    None => r is None,
                    Some(rec) => exists|m: Moved|
                        {
                            &&& #[trigger] to_world.ensures((&self, &ray, &rec), m)
                            &&& r == Some(
                                HitRecord::oriented(
                                    m.facing,
                                    rec.t,
                                    m.hit_point,
                                    rec.normal,
                                    rec.material,
                                    rec.uv,
                                ),
                            )
                        },
                }
            }
    }

    /// Finds where a ray hits the moved object. `to_local` moves a ray back
    /// by the offset, `hit_object` tells where a ray meets the object where
    /// it stands, `to_world` moves a hit forth by the offset and is handed the
    /// incoming ray.
    pub fn hit<
        W: Fn(&Translate, &Ray) -> Ray,
        L: Fn(&Ray, usize, Key, Key) -> Option<HitRecord>,
        B: Fn(&Translate, &Ray, &HitRecord) -> Moved,
    >(
        &self,
        ray: &Ray,
        to_local: &W,
        hit_object: &L,
        to_world: &B,
        t_min: Key,
        t_max: Key,
    ) -> (r: Option<HitRecord>)
        requires
            to_local.requires((self, ray)),
            forall|a: &Ray| hit_object.requires((a, self.obj, t_min, t_max)),
            forall|a: &Ray, rec: &HitRecord| to_world.requires((self, a, rec)),
        ensures
            self.shifted(*ray, *to_local, *hit_object, *to_world, t_min, t_max, r),
    {
        let moved_ray = to_local(self, ray);
        if let Some(hit_record) = hit_object(&moved_ray, self.obj, t_min, t_max) {
            let m = to_world(self, ray, &hit_record);
            Some(
                HitRecord::new(
                    m.facing,
                    hit_record.t,
                    m.hit_point,
                    hit_record.normal,
                    hit_record.material,
                    hit_record.uv,
                ),
            )
        } else {
            None
        }
    }

    /// The box of the moved object: the box of the object where it stands,
    /// moved by `shift`, and none where the object has none.
    pub fn bounding_box<B: Fn(usize, Key, Key) -> Option<AABB>, S: Fn(&Translate, &AABB) -> AABB>(
        &self,
        box_of: &B,
        shift: &S,
        t0: Key,
        t1: Key,
    ) -> (r: Option<AABB>)
        requires
            box_of.requires((self.obj, t0, t1)),
            forall|b: &AABB| shift.requires((self, b)),
        ensures
            exists|inner: Option<AABB>|
                {
                    &&& #[trigger] box_of.ensures((self.obj, t0, t1), inner)
                    &&& match inner {
                        Some(bb) => r matches Some(out) && shift.ensures((self, &bb), out),
                        None => r is None,
                    }
                },
    {
        if let Some(bb) = box_of(self.obj, t0, t1) {
            Some(shift(self, &bb))
        } else {
            None
        }
    }
}

} // verus!
