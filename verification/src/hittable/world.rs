//! The world to be rendered: a list of objects, searched one by one.

use crate::aabb::AABB;
use crate::hittable::HitRecord;
use crate::random::below;
use crate::ray::Ray;
use crate::util::Key;
use crate::vec3::Vec3;
use vstd::prelude::*;

verus! {

/// A list of objects, each named by the number under which the embedding
/// program keeps it. The list can be hit by a ray as a single object.
#[derive(Debug, Default)]
pub struct World {
    pub objects: Vec<usize>,
}

impl Clone for World {
    fn clone(&self) -> (r: World)
        ensures
            r.objects@ == self.objects@,
    {
        World { objects: self.objects.clone() }
    }
}

/// Where the window ends once `found` is known: at the crossing found, or
/// at `t_max` if there is none.
pub open spec fn window_end(found: Option<HitRecord>, t_max: Key) -> Key {
    match found {
        Some(rec) => rec.t,
        None => t_max,
    }
}

/// Whether a linear scan of `objects` may end with `r`. The scan asks the
/// objects in turn, each within the window that ends at the nearest
/// crossing found before it, and keeps the last crossing reported.
pub open spec fn scanned<L: Fn(&Ray, usize, Key, Key) -> Option<HitRecord>>(
    objects: Seq<usize>,
    ray: Ray,
    hit_object: L,
    t_min: Key,
    t_max: Key,
    r: Option<HitRecord>,
) -> bool
    decreases objects.len(),
{
    if objects.len() == 0 {
        r is None
    } else {
        exists|before: Option<HitRecord>, found: Option<HitRecord>|
            {
                &&& scanned(objects.drop_last(), ray, hit_object, t_min, t_max, before)
                &&& #[trigger] hit_object.ensures(
                    (&ray, objects.last(), t_min, window_end(before, t_max)),
                    found,
                )
                &&& r == if found is Some {
                    found
                } else {
                    before
                }
            }
    }
}

/// Whether `acc` may be the box around the first `n` of `objects`: the
/// union, taken in order, of boxes that `box_of` reports for them.
pub open spec fn joined<B: Fn(usize, Key, Key) -> Option<AABB>>(
    objects: Seq<usize>,
    box_of: B,
    t0: Key,
    t1: Key,
    n: nat,
    acc: AABB,
) -> bool
    decreases n,
{
    if n == 0 {
        false
    } else if n == 1 {
        box_of.ensures((objects[0], t0, t1), Some(acc))
    } else {
        exists|rest: AABB, last: AABB|
            {
                &&& joined(objects, box_of, t0, t1, (n - 1) as nat, rest)
                &&& box_of.ensures((objects[n - 1], t0, t1), Some(last))
                &&& acc == #[trigger] rest.union(last)
            }
    }
}

impl World {
    /// Creates a world filled with the given objects.
    pub fn new(objects: Vec<usize>) -> (r: World)
        ensures
            r.objects == objects,
    {
        World { objects }
    }

    /// Adds an object to the world, behind those that it holds.
    pub fn add(&mut self, object: usize)
        ensures
            final(self).objects@ == old(self).objects@.push(object),
    {
        self.objects.push(object);
    }

    /// Finds where a ray first meets the world within the window from
    /// `t_min` to `t_max`. `hit_object` tells where the ray meets one
    /// object within a window. Each crossing found closes the window for
    /// the objects that follow, so the crossing returned is the last one
    /// reported, and none is returned where no object reports one.
    pub fn hit<L: Fn(&Ray, usize, Key, Key) -> Option<HitRecord>>(
        &self,
        ray: &Ray,
        hit_object: &L,
        t_min: Key,
        t_max: Key,
    ) -> (r: Option<HitRecord>)
        requires
            forall|i: int, end: Key|
                #![trigger hit_object.requires((ray, self.objects[i], t_min, end))]
                0 <= i < self.objects.len() ==> hit_object.requires(
                    (ray, self.objects[i], t_min, end),
                ),
        ensures
            scanned(self.objects@, *ray, *hit_object, t_min, t_max, r),
    {
        let mut closest_so_far = t_max;
        let mut rec: Option<HitRecord> = None;
        let n = self.objects.len();
        for i in 0..n
            invariant
                n == self.objects.len(),
                forall|j: int, end: Key|
                    #![trigger hit_object.requires((ray, self.objects[j], t_min, end))]
                    0 <= j < self.objects.len() ==> hit_object.requires(
                        (ray, self.objects[j], t_min, end),
                    ),
                closest_so_far == window_end(rec, t_max),
                scanned(self.objects@.take(i as int), *ray, *hit_object, t_min, t_max, rec),
        {
            let object = self.objects[i];
            let found = hit_object(ray, object, t_min, closest_so_far);
            let ghost before = rec;
            if let Some(obj_hit_rec) = found {
                closest_so_far = obj_hit_rec.t;
                rec = Some(obj_hit_rec);
            }
            proof {
                let next = self.objects@.take(i + 1);
                assert(next.drop_last() == self.objects@.take(i as int));
                assert(next.last() == object);
                assert(scanned(next.drop_last(), *ray, *hit_object, t_min, t_max, before));
                assert(hit_object.ensures(
                    (ray, next.last(), t_min, window_end(before, t_max)),
                    found,
                ));
                assert(scanned(next, *ray, *hit_object, t_min, t_max, rec));
            }
        }
        proof {
            assert(self.objects@.take(n as int) == self.objects@);
        }
        rec
    }

    /// Computes the box around the whole world over the time from `t0` to
    /// `t1`: the union of its objects' boxes. There is none for an empty
    /// world, nor where an object has none. `box_of` tells the box of one
    /// object.
    pub fn bounding_box<B: Fn(usize, Key, Key) -> Option<AABB>>(
        &self,
        box_of: &B,
        t0: Key,
        t1: Key,
    ) -> (r: Option<AABB>)
        requires
            forall|i: int|
                0 <= i < self.objects.len() ==> box_of.requires((#[trigger] self.objects[i], t0, t1)),
        ensures
            match r {
                Some(output_box) => joined(
                    self.objects@,
                    *box_of,
                    t0,
                    t1,
                    self.objects.len() as nat,
                    output_box,
                ),
                None => self.objects.len() == 0 || exists|i: int|
                    0 <= i < self.objects.len() && box_of.ensures(
                        (#[trigger] self.objects[i], t0, t1),
                        None,
                    ),
            },
    {
        let n = self.objects.len();
        if n == 0 {
            return None;
        }
        let mut output_box = match box_of(self.objects[0], t0, t1) {
            Some(first) => first,
            None => {
                return None;
            },
        };
        for i in 1..n
            invariant
                n == self.objects.len(),
                forall|j: int|
                    0 <= j < self.objects.len() ==> box_of.requires(
                        (#[trigger] self.objects[j], t0, t1),
                    ),
                joined(self.objects@, *box_of, t0, t1, i as nat, output_box),
        {
            match box_of(self.objects[i], t0, t1) {
                Some(temp_box) => {
                    let ghost rest = output_box;
                    output_box = AABB::surrounding_box(output_box, temp_box);
                    proof {
                        assert(joined(self.objects@, *box_of, t0, t1, i as nat, rest));
                        assert(box_of.ensures((self.objects@[i as int], t0, t1), Some(temp_box)));
                        assert(joined(self.objects@, *box_of, t0, t1, (i + 1) as nat, output_box));
                    }
                },
                None => {
                    return None;
                },
            }
        }
        Some(output_box)
    }

    /// Draws a direction towards the world from `origin`: the direction
    /// that `random_of` gives towards one of its objects, picked by chance.
    /// The world must hold an object.
    pub fn random<D: Fn(usize, &Vec3) -> Vec3>(&self, random_of: &D, origin: &Vec3) -> (r: Vec3)
        requires
            self.objects.len() > 0,
            forall|i: int|
                0 <= i < self.objects.len() ==> random_of.requires(
                    (#[trigger] self.objects[i], origin),
                ),
        ensures
            exists|i: int|
                0 <= i < self.objects.len() && random_of.ensures(
                    (#[trigger] self.objects[i], origin),
                    r,
                ),
    {
        let index = below(self.objects.len());
        random_of(self.objects[index], origin)
    }
}

} // verus!
