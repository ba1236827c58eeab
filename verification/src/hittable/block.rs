//! A box with sides along the axes, made from six rectangles.

use crate::aabb::AABB;
use crate::hittable::aa_rect::{XYRect, XZRect, YZRect};
use crate::hittable::flip_face::flipped;
use crate::hittable::world::window_end;
use crate::hittable::HitRecord;
use crate::material::Material;
use crate::ray::Ray;
use crate::util::Key;
use crate::vec3::Vec3;
use vstd::prelude::*;

verus! {

/// A rectangle at right angles to one of the three axes.
#[derive(Copy, Clone, Debug, PartialEq, Eq, Structural)]
pub enum Rect {
    XY(XYRect),
    XZ(XZRect),
    YZ(YZRect),
}

/// One side of a block: a rectangle, seen from behind where `flipped`.
#[derive(Copy, Clone, Debug, PartialEq, Eq, Structural)]
pub struct Face {
    pub rect: Rect,
    pub flipped: bool,
}

/// A block, made from six rectangles.
#[derive(Debug)]
pub struct Block {
    /// Minimum corner of the block.
    pub block_min: Vec3,
    /// Maximum corner of the block.
    pub block_max: Vec3,
    /// The six sides, in the order in which they are asked: front, back,
    /// top, bottom, right and left.
    pub faces: Vec<Face>,
}

/// The six sides of the block between the corners `p0` and `p1`: front and
/// back across `z`, top and bottom across `y`, right and left across `x`.
/// Of each pair the first lies in the plane through `p1` and the second,
/// which is flipped, in the plane through `p0`.
pub open spec fn faces_of(p0: Vec3, p1: Vec3, material: Material) -> Seq<Face> {
    seq![
        Face {
            rect: Rect::XY(XYRect { material, x0: p0.0, x1: p1.0, y0: p0.1, y1: p1.1, k: p1.2 }),
            flipped: false,
        },
        Face {
            rect: Rect::XY(XYRect { material, x0: p0.0, x1: p1.0, y0: p0.1, y1: p1.1, k: p0.2 }),
            flipped: true,
        },
        Face {
            rect: Rect::XZ(XZRect { material, x0: p0.0, x1: p1.0, z0: p0.2, z1: p1.2, k: p1.1 }),
            flipped: false,
        },
        Face {
            rect: Rect::XZ(XZRect { material, x0: p0.0, x1: p1.0, z0: p0.2, z1: p1.2, k: p0.1 }),
            flipped: true,
        },
        Face {
            rect: Rect::YZ(YZRect { material, y0: p0.1, y1: p1.1, z0: p0.2, z1: p1.2, k: p1.0 }),
            flipped: false,
        },
        Face {
            rect: Rect::YZ(YZRect { material, y0: p0.1, y1: p1.1, z0: p0.2, z1: p1.2, k: p0.0 }),
            flipped: true,
        },
    ]
}

/// The record of a hit on a side: that of the hit on its rectangle, with
/// the other face struck where the side is flipped.
pub open spec fn seen_from(face: Face, rec: HitRecord) -> HitRecord {
    if face.flipped {
        flipped(rec)
    } else {
        rec
    }
}

/// Whether a scan of the sides `faces` may end with `r`. The rectangles
/// of the sides are asked in turn, each within the window that ends at the
/// nearest hit found before it, and the last hit reported is kept, seen
/// from behind where its side is flipped.
pub open spec fn sides_scanned<L: Fn(&Ray, &Rect, Key, Key) -> Option<HitRecord>>(
    faces: Seq<Face>,
    ray: Ray,
    hit_rect: L,
    t_min: Key,
    t_max: Key,
    r: Option<HitRecord>,
) -> bool
    decreases faces.len(),
{
    if faces.len() == 0 {
        r is None
    } else {
        exists|before: Option<HitRecord>, found: Option<HitRecord>|
            {
                &&& sides_scanned(faces.drop_last(), ray, hit_rect, t_min, t_max, before)
                &&& #[trigger] hit_rect.ensures(
                    (&ray, &faces.last().rect, t_min, window_end(before, t_max)),
                    found,
                )
                &&& r == match found {
                    Some(rec) => Some(seen_from(faces.last(), rec)),
                    None => before,
                }
            }
    }
}

impl Block {
    /// Creates the block between the corners `p0` and `p1`, all of one
    /// material.
    pub fn new(p0: Vec3, p1: Vec3, material: Material) -> (r: Block)
        ensures
            r.block_min == p0,
            r.block_max == p1,
            r.faces@ == faces_of(p0, p1, material),
    {
        let mut faces: Vec<Face> = Vec::new();
        // Front:
        faces.push(
            Face {
                rect: Rect::XY(XYRect::new(p0.0, p1.0, p0.1, p1.1, p1.2, material)),
                flipped: false,
            },
        );
        // Back:
        faces.push(
            Face {
                rect: Rect::XY(XYRect::new(p0.0, p1.0, p0.1, p1.1, p0.2, material)),
                flipped: true,
            },
        );
        // Top:
        faces.push(
            Face {
                rect: Rect::XZ(XZRect::new(p0.0, p1.0, p0.2, p1.2, p1.1, material)),
                flipped: false,
            },
        );
        // Bottom:
        faces.push(
            Face {
                rect: Rect::XZ(XZRect::new(p0.0, p1.0, p0.2, p1.2, p0.1, material)),
                flipped: true,
            },
        );
        // Right:
        faces.push(
            Face {
                rect: Rect::YZ(YZRect::new(p0.1, p1.1, p0.2, p1.2, p1.0, material)),
                flipped: false,
            },
        );
        // Left:
        faces.push(
            Face {
                rect: Rect::YZ(YZRect::new(p0.1, p1.1, p0.2, p1.2, p0.0, material)),
                flipped: true,
            },
        );
        assert(faces@ == faces_of(p0, p1, material));
        Block { block_min: p0, block_max: p1, faces }
    }

    /// The side in place `i`, which must be one of the block's.
    pub fn side(&self, i: usize) -> (r: Face)
        requires
            i < self.faces@.len(),
        ensures
            r == self.faces@[i as int],
    {
        self.faces[i]
    }

    /// Finds where a ray first hits the block within the window from
    /// `t_min` to `t_max`. The sides are asked in their order, as the
    /// objects of a world are: each rectangle within the window that ends
    /// at the nearest hit found so far, and a hit on a flipped side counts
    /// with the other face struck. `hit_rect` tells where the ray meets
    /// a rectangle.
    pub fn hit<L: Fn(&Ray, &Rect, Key, Key) -> Option<HitRecord>>(
        &self,
        ray: &Ray,
        hit_rect: &L,
        t_min: Key,
        t_max: Key,
    ) -> (r: Option<HitRecord>)
        requires
            forall|i: int, end: Key|
                #![trigger hit_rect.requires((ray, &self.faces@[i].rect, t_min, end))]
                0 <= i < self.faces@.len() ==> hit_rect.requires(
                    (ray, &self.faces@[i].rect, t_min, end),
                ),
        ensures
            sides_scanned(self.faces@, *ray, *hit_rect, t_min, t_max, r),
    {
        let mut closest_so_far = t_max;
        let mut rec: Option<HitRecord> = None;
        let n = self.faces.len();
        for i in 0..n
            invariant
                n == self.faces.len(),
                forall|i: int, end: Key|
                    #![trigger hit_rect.requires((ray, &self.faces@[i].rect, t_min, end))]
                    0 <= i < self.faces@.len() ==> hit_rect.requires(
                        (ray, &self.faces@[i].rect, t_min, end),
                    ),
                closest_so_far == window_end(rec, t_max),
                sides_scanned(self.faces@.take(i as int), *ray, *hit_rect, t_min, t_max, rec),
        {
            let face = self.faces[i];
            let found = hit_rect(ray, &face.rect, t_min, closest_so_far);
            let ghost before = rec;
            if let Some(mut side_hit_rec) = found {
                if face.flipped {
                    side_hit_rec.front_face = !side_hit_rec.front_face;
                }
                closest_so_far = side_hit_rec.t;
                rec = Some(side_hit_rec);
            }
            proof {
                let next = self.faces@.take(i + 1);
                assert(next.drop_last() == self.faces@.take(i as int));
                assert(next.last() == face);
                assert(sides_scanned(next.drop_last(), *ray, *hit_rect, t_min, t_max, before));
                assert(hit_rect.ensures(
                    (ray, &next.last().rect, t_min, window_end(before, t_max)),
                    found,
                ));
                assert(sides_scanned(next, *ray, *hit_rect, t_min, t_max, rec));
            }
        }
        proof {
            assert(self.faces@.take(n as int) == self.faces@);
        }
        rec
    }

    /// The box of the block: the block itself, at all times.
    pub fn bounding_box(&self, _t0: Key, _t1: Key) -> (r: Option<AABB>)
        ensures
            r == Some(AABB { min: self.block_min, max: self.block_max }),
    {
        Some(AABB::new(self.block_min, self.block_max))
    }
}

} // verus!
