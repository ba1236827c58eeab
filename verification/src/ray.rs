//! Rays: a point of departure, a direction and a moment.

use crate::util::Key;
use crate::vec3::Vec3;
use vstd::prelude::*;

verus! {

/// A ray, the set of points `origin + t * direction` for scalar `t`, cast
/// at the moment `time`.
#[derive(Copy, Clone, Debug, PartialEq, Eq, Structural)]
pub struct Ray {
    /// The ray's origin.
    pub origin: Vec3,
    /// The ray's direction.
    pub direction: Vec3,
    /// The moment at which the ray is cast.
    pub time: Key,
}

impl Ray {
    /// Creates the ray that leaves `origin` along `direction` at `time`.
    pub fn new(origin: Vec3, direction: Vec3, time: Key) -> (r: Ray)
        ensures
            r == (Ray { origin, direction, time }),
    {
        Ray { origin, direction, time }
    }
}

} // verus!
