//! Orthonormal bases.

use crate::util::{ONE, ZERO};
use crate::vec3::Vec3;
use vstd::prelude::*;

verus! {

/// An orthonormal basis: three directions of unit length, each at right
/// angles to the other two.
#[derive(Copy, Clone, Debug, PartialEq, Eq, Structural)]
pub struct ONB {
    pub u: Vec3,
    pub v: Vec3,
    pub w: Vec3,
}

impl ONB {
    /// The basis of the coordinate axes themselves.
    pub open spec fn standard() -> ONB {
        ONB { u: Vec3(ONE, ZERO, ZERO), v: Vec3(ZERO, ONE, ZERO), w: Vec3(ZERO, ZERO, ONE) }
    }

    /// The direction in place `i`; places beyond the third read as the
    /// third.
    pub open spec fn place(self, i: int) -> Vec3 {
        if i == 0 {
            self.u
        } else if i == 1 {
            self.v
        } else {
            self.w
        }
    }

    /// Reads a direction by its place, which must be 0, 1 or 2.
    pub fn index(&self, idx: usize) -> (r: Vec3)
        requires
            idx < 3,
        ensures
            r == self.place(idx as int),
    {
        if idx == 0 {
            self.u
        } else if idx == 1 {
            self.v
        } else {
            self.w
        }
    }
}

impl Default for ONB {
    fn default() -> (r: ONB)
        ensures
            r == ONB::standard(),
    {
        ONB {
            u: Vec3::new(ONE, ZERO, ZERO),
            v: Vec3::new(ZERO, ONE, ZERO),
            w: Vec3::new(ZERO, ZERO, ONE),
        }
    }
}

} // verus!
