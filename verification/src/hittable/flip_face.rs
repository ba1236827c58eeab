//! Turning the face of an object inside out.

use crate::aabb::AABB;
use crate::hittable::HitRecord;
use crate::ray::Ray;
use crate::util::Key;
use vstd::prelude::*;

verus! {

/// A holder that does nothing but hold an object, by the number under
/// which the embedding program keeps it, and flip its face.
#[derive(Copy, Clone, Debug, PartialEq, Eq, Structural)]
pub struct FlipFace(pub usize);

/// A record with the struck face taken for the other one, and nothing else
/// changed.
pub open spec fn flipped(rec: HitRecord) -> HitRecord {
    HitRecord { front_face: !rec.front_face, ..rec }
}

impl FlipFace {
    /// Creates a new holder that flips the face of `p`.
    pub fn new(p: usize) -> (r: FlipFace)
        ensures
            r == FlipFace(p),
    {
        FlipFace(p)
    }

    /// Finds where a ray hits the object held, and reports the hit with
    /// the other face struck.
    pub fn hit<L: Fn(&Ray, usize, Key, Key) -> Option<HitRecord>>(
        &self,
        ray: &Ray,
        hit_object: &L,
        t_min: Key,
        t_max: Key,
    ) -> (r: Option<HitRecord>)
        requires
            hit_object.requires((ray, self.0, t_min, t_max)),
        ensures
            exists|inner: Option<HitRecord>|
                {
                    &&& #[trigger] hit_object.ensures((ray, self.0, t_min, t_max), inner)
                    &&& r == match inner {
                        Some(rec) => Some(flipped(rec)),
                        None => None,
                    }
                },
    {
        if let Some(mut rec) = hit_object(ray, self.0, t_min, t_max) {
            rec.front_face = !rec.front_face;
            Some(rec)
        } else {
            None
        }
    }

    /// The box of the object held.
    pub fn bounding_box<B: Fn(usize, Key, Key) -> Option<AABB>>(
        &self,
        box_of: &B,
        t0: Key,
        t1: Key,
    ) -> (r: Option<AABB>)
        requires
            box_of.requires((self.0, t0, t1)),
        ensures
            box_of.ensures((self.0, t0, t1), r),
    {
        box_of(self.0, t0, t1)
    }
}

} // verus!
