//! A volume of constant density, such as fog or smoke.
//!
//! A ray that travels through the volume either scatters somewhere inside
//! it or makes it all the way through. The denser the volume and the longer
//! the way through it, the likelier the ray is to scatter.

use crate::hittable::HitRecord;
use crate::material::Material;
use crate::ray::Ray;
use crate::texture::Texture;
use crate::util::{above, at_least, below, is_above, is_at_least, is_below, Key, MAX, MIN, ONE, ZERO};
use crate::vec3::Vec3;
use vstd::prelude::*;

verus! {

/// A volume of constant density.
#[derive(Copy, Clone, Debug, PartialEq, Eq, Structural)]
pub struct ConstantMedium {
    /// The object that gives the volume its shape, by the number under
    /// which the embedding program keeps it.
    pub boundary: usize,
    /// How rays scatter inside the volume.
    pub phase_function: Material,
    /// Minus one over the density.
    pub neg_inv_density: Key,
}

/// One free flight of a ray through a medium.
#[derive(Copy, Clone, Debug, PartialEq, Eq, Structural)]
pub struct Flight {
    /// The length of the ray's way through the medium.
    pub distance_inside_boundary: Key,
    /// How far the ray flies before it scatters, drawn by chance.
    pub hit_distance: Key,
    /// The ray parameter at which the flight ends.
    pub t: Key,
    /// The point at which the flight ends.
    pub hit_point: Vec3,
    /// The dot product of the ray's direction and the normal `(1, 0, 0)`.
    pub facing: Key,
}

/// The stretch of a ray inside a boundary that it enters at `t1` and leaves
/// at `t2`, cut down to the window from `t_min` to `t_max` and to what lies
/// ahead of the ray's origin. None where nothing is left. Every comparison
/// with what is no number comes out false: such an end of the stretch is
/// neither cut down nor found to leave nothing.
pub open spec fn stretch(t1: Key, t2: Key, t_min: Key, t_max: Key) -> Option<(Key, Key)> {
    let enter = if is_below(t1, t_min) {
        t_min
    } else {
        t1
    };
    let exit = if is_above(t2, t_max) {
        t_max
    } else {
        t2
    };
    if is_at_least(enter, exit) {
        None
    } else {
        Some(
            (
                if is_below(enter, ZERO) {
                    ZERO
                } else {
                    enter
                },
                exit,
            ),
        )
    }
}

impl ConstantMedium {
    /// Creates a medium in the shape of `boundary` that scatters evenly in
    /// all directions, with the colour of `albedo`. `neg_inv_density` is
    /// minus one over its density.
    pub fn new(boundary: usize, neg_inv_density: Key, albedo: Texture) -> (r: ConstantMedium)
        ensures
            r == (ConstantMedium {
                boundary,
                phase_function: Material::Isotropic(crate::material::Isotropic { albedo }),
                neg_inv_density,
            }),
    {
        ConstantMedium { boundary, phase_function: Material::isotropic(albedo), neg_inv_density }
    }

    /// The record of a flight that ends inside the medium. Its normal and
    /// its surface coordinates mean nothing: the normal is `(1, 0, 0)`
    /// turned against the ray, the coordinates are those of the point where
    /// the ray came in.
    pub open spec fn scattering(self, flight: Flight, entry: HitRecord) -> HitRecord {
        HitRecord::oriented(
            flight.facing,
            flight.t,
            flight.hit_point,
            Vec3(ONE, ZERO, ZERO),
            self.phase_function,
            entry.uv,
        )
    }

    /// Whether a ray sent through the medium may end with `r`.
    ///
    /// The boundary is asked where the ray enters it, anywhere along the
    /// ray, and then where it leaves it, from a little beyond the entry on.
    /// Nothing is hit if either is missing, if the stretch between them
    /// misses the window, or if the flight drawn is a number longer than
    /// the stretch. Else the ray scatters where the flight ends.
    pub open spec fn crossed<
        L: Fn(&Ray, usize, Key, Key) -> Option<HitRecord>,
        N: Fn(Key) -> Key,
        F: Fn(&ConstantMedium, &Ray, Key, Key) -> Flight,
    >(
        self,
        ray: Ray,
        hit_object: L,
        beyond: N,
        fly: F,
        t_min: Key,
        t_max: Key,
        r: Option<HitRecord>,
    ) -> bool {
        exists|entry: Option<HitRecord>|
            {
                &&& #[trigger] hit_object.ensures((&ray, self.boundary, MIN, MAX), entry)
                &&& match entry {
                    None => r is None,
                    Some(rec1) => exists|start: Key, exit: Option<HitRecord>|
                        #![trigger
                            beyond.ensures((rec1.t,), start),
                            hit_object.ensures((&ray, self.boundary, start, MAX), exit),
                        ]
                        {
                            &&& beyond.ensures((rec1.t,), start)
                            &&& hit_object.ensures((&ray, self.boundary, start, MAX), exit)
                            &&& match exit {
                                None => r is None,
                                Some(rec2) => match stretch(rec1.t, rec2.t, t_min, t_max) {
                                    None => r is None,
                                    Some((from, to)) => exists|flight: Flight|
                                        {
                                            &&& #[trigger] fly.ensures(
                                                (&self, &ray, from, to),
                                                flight,
                                            )
                                            &&& r == if is_above(
                                                flight.hit_distance,
                                                flight.distance_inside_boundary,
                                            ) {
                                                None
                                            } else {
                                                Some(self.scattering(flight, rec1))
                                            }
                                        },
                                },
                            }
                        },
                }
            }
    }

    /// Sends a ray through the medium. `hit_object` tells where the ray
    /// meets the boundary within a window, `beyond` gives the parameter a
    /// little beyond a crossing, and `fly` draws a free flight for the
    /// stretch of the ray between two parameters.
    pub fn hit<
        L: Fn(&Ray, usize, Key, Key) -> Option<HitRecord>,
        N: Fn(Key) -> Key,
        F: Fn(&ConstantMedium, &Ray, Key, Key) -> Flight,
    >(
        &self,
        ray: &Ray,
        hit_object: &L,
        beyond: &N,
        fly: &F,
        t_min: Key,
        t_max: Key,
    ) -> (r: Option<HitRecord>)
        requires
            forall|start: Key, end: Key| hit_object.requires((ray, self.boundary, start, end)),
            forall|t: Key| beyond.requires((t,)),
            forall|from: Key, to: Key| fly.requires((self, ray, from, to)),
        ensures
            self.crossed(*ray, *hit_object, *beyond, *fly, t_min, t_max, r),
    {
        let entry = hit_object(ray, self.boundary, MIN, MAX);
        if let Some(rec1) = entry {
            let start = beyond(rec1.t);
            let exit = hit_object(ray, self.boundary, start, MAX);
            if let Some(rec2) = exit {
                let mut t1 = rec1.t;
                let mut t2 = rec2.t;
                if below(t1, t_min) {
                    t1 = t_min;
                }
                if above(t2, t_max) {
                    t2 = t_max;
                }
                if at_least(t1, t2) {
                    return None;
                }
                if below(t1, ZERO) {
                    t1 = ZERO;
                }
                let flight = fly(self, ray, t1, t2);
                if above(flight.hit_distance, flight.distance_inside_boundary) {
                    return None;
                }
                // The normal and the surface coordinates are arbitrary.
                let normal = Vec3::new(ONE, ZERO, ZERO);
                let uv = rec1.uv;
                let rec = HitRecord::new(
                    flight.facing,
                    flight.t,
                    flight.hit_point,
                    normal,
                    self.phase_function,
                    uv,
                );
                assert(rec == self.scattering(flight, rec1));
                Some(rec)
            } else {
                None
            }
        } else {
            None
        }
    }
}

} // verus!
