//! Triples of scalars: points, directions and colours.

use crate::util::{negate, negated, Key};
use vstd::prelude::*;

verus! {

/// Names for the lanes of a triple used as a colour.
#[derive(Copy, Clone, Debug, PartialEq, Eq, Structural)]
pub enum Channel {
    /// Red.
    R,
    /// Green.
    G,
    /// Blue.
    B,
}

/// Names for the lanes of a triple used as a coordinate.
#[derive(Copy, Clone, Debug, PartialEq, Eq, Structural)]
pub enum Axis {
    X,
    Y,
    Z,
}

impl Channel {
    /// The lane that the channel names.
    pub open spec fn lane(self) -> int {
        match self {
            Channel::R => 0,
            Channel::G => 1,
            Channel::B => 2,
        }
    }
}

impl Axis {
    /// The lane that the axis names.
    pub open spec fn lane(self) -> int {
        match self {
            Axis::X => 0,
            Axis::Y => 1,
            Axis::Z => 2,
        }
    }
}

/// A triple of scalars. Serves as a point, a direction or a colour.
#[derive(Copy, Clone, Debug, PartialEq, Eq, Structural)]
pub struct Vec3(pub Key, pub Key, pub Key);

impl Vec3 {
    /// The scalar in lane `i`; lanes beyond the third read as the third.
    pub open spec fn lane(self, i: int) -> Key {
        if i == 0 {
            self.0
        } else if i == 1 {
            self.1
        } else {
            self.2
        }
    }

    /// Creates a triple from its three lanes.
    pub fn new(x: Key, y: Key, z: Key) -> (r: Vec3)
        ensures
            r == Vec3(x, y, z),
    {
        Vec3(x, y, z)
    }

    /// Broadcasts one scalar to all three lanes.
    pub fn from(v: Key) -> (r: Vec3)
        ensures
            r == Vec3(v, v, v),
    {
        Vec3(v, v, v)
    }

    /// The opposite triple: every lane with its sign flipped.
    pub fn neg(self) -> (r: Vec3)
        ensures
            r == Vec3(negated(self.0), negated(self.1), negated(self.2)),
    {
        Vec3(negate(self.0), negate(self.1), negate(self.2))
    }

    /// Reads the lane named by a coordinate axis.
    pub fn axis(&self, idx: Axis) -> (r: Key)
        ensures
            r == self.lane(idx.lane()),
    {
        match idx {
            Axis::X => self.0,
            Axis::Y => self.1,
            Axis::Z => self.2,
        }
    }

    /// Reads the lane named by a colour channel.
    pub fn channel(&self, idx: Channel) -> (r: Key)
        ensures
            r == self.lane(idx.lane()),
    {
        match idx {
            Channel::R => self.0,
            Channel::G => self.1,
            Channel::B => self.2,
        }
    }

    /// Reads a lane by its number, which must be 0, 1 or 2.
    pub fn index(&self, idx: usize) -> (r: Key)
        requires
            idx < 3,
        ensures
            r == self.lane(idx as int),
    {
        if idx == 0 {
            self.0
        } else if idx == 1 {
            self.1
        } else {
            self.2
        }
    }
}

} // verus!
