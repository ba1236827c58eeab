//! Axis-aligned bounding boxes and the slab test.
//!
//! A box is cut out of space by three pairs of parallel planes, one pair
//! for each axis. A ray is inside the box exactly while it is between the
//! planes of all three pairs, so whether it meets the box comes down to
//! whether three intervals of the ray parameter, and the window that the
//! caller is interested in, have a parameter in common.

use crate::ray::Ray;
use crate::util::{
    at_least, greater, is_at_least, is_number, lesser, max, min, number, Key, INFINITY,
};
use crate::vec3::{Axis, Vec3};
use vstd::prelude::*;

verus! {

/// An axis-aligned bounding box, given by two opposite corners.
#[derive(Copy, Clone, Debug, PartialEq, Eq, Structural)]
pub struct AABB {
    /// The corner with the smallest coordinates.
    pub min: Vec3,
    /// The corner with the largest coordinates.
    pub max: Vec3,
}

/// How a ray crosses the pair of planes that bounds a box along one axis.
#[derive(Copy, Clone, Debug, PartialEq, Eq, Structural)]
pub struct Slab {
    /// The ray parameter at the plane through the box's `min` corner.
    pub t0: Key,
    /// The ray parameter at the plane through the box's `max` corner.
    pub t1: Key,
    /// Whether the ray runs towards smaller coordinates along this axis,
    /// so that it reaches the `max` plane first.
    pub reversed: bool,
}

impl Slab {
    /// The parameter at which the ray comes between the two planes.
    pub open spec fn entry(self) -> Key {
        if self.reversed {
            self.t1
        } else {
            self.t0
        }
    }

    /// The parameter at which the ray leaves the space between the planes.
    pub open spec fn exit(self) -> Key {
        if self.reversed {
            self.t0
        } else {
            self.t1
        }
    }

    /// The same crossing seen along the opposite direction: the planes
    /// trade places and the direction flag flips.
    pub open spec fn mirrored(self) -> Slab {
        Slab { t0: self.t1, t1: self.t0, reversed: !self.reversed }
    }
}

/// The start of a window after an entry: the entry where it comes after
/// the start, else the start. An entry that is no number is passed over,
/// as every comparison with it comes out false; so is every entry while
/// the start is no number.
pub open spec fn later(start: Key, entry: Key) -> Key {
    if is_number(start) && is_number(entry) && entry > start {
        entry
    } else {
        start
    }
}

/// The end of a window after an exit: the exit where it comes before the
/// end, else the end. An exit that is no number is passed over.
pub open spec fn sooner(end: Key, exit: Key) -> Key {
    if is_number(end) && is_number(exit) && exit < end {
        exit
    } else {
        end
    }
}

/// Whether nothing lies strictly between a start and an end that are both
/// numbers.
pub open spec fn closed_up(start: Key, end: Key) -> bool {
    is_number(start) && is_number(end) && end <= start
}

/// The latest of the window's start and the three entries.
pub open spec fn last_entry(slabs: [Slab; 3], tmin: Key) -> Key {
    later(later(later(tmin, slabs[0].entry()), slabs[1].entry()), slabs[2].entry())
}

/// The earliest of the window's end and the three exits.
pub open spec fn first_exit(slabs: [Slab; 3], tmax: Key) -> Key {
    sooner(sooner(sooner(tmax, slabs[0].exit()), slabs[1].exit()), slabs[2].exit())
}

/// Whether the ray is inside the box at some parameter strictly inside
/// the window: the window is narrowed axis by axis, to the entry and the
/// exit on that axis, and after no axis has it closed up.
pub open spec fn slabs_overlap(slabs: [Slab; 3], tmin: Key, tmax: Key) -> bool {
    let lo0 = later(tmin, slabs[0].entry());
    let hi0 = sooner(tmax, slabs[0].exit());
    let lo1 = later(lo0, slabs[1].entry());
    let hi1 = sooner(hi0, slabs[1].exit());
    let lo2 = later(lo1, slabs[2].entry());
    let hi2 = sooner(hi1, slabs[2].exit());
    !closed_up(lo0, hi0) && !closed_up(lo1, hi1) && !closed_up(lo2, hi2)
}

/// The axis of the widest of three ranges, the earlier axis on a tie. A
/// range that is no number is at least as wide as nothing, and nothing is
/// at least as wide as it: where no comparison speaks for the first or the
/// second axis, the third is taken.
pub open spec fn widest(x: Key, y: Key, z: Key) -> Axis {
    if is_at_least(x, y) && is_at_least(x, z) {
        Axis::X
    } else if is_at_least(y, z) {
        Axis::Y
    } else {
        Axis::Z
    }
}

impl AABB {
    /// Creates the box with the given corners.
    pub fn new(min: Vec3, max: Vec3) -> (r: AABB)
        ensures
            r == (AABB { min, max }),
    {
        AABB { min, max }
    }

    /// The box of all space, from the opposite of infinity to infinity
    /// along every axis.
    pub open spec fn all_space() -> AABB {
        AABB {
            min: Vec3((-INFINITY) as Key, (-INFINITY) as Key, (-INFINITY) as Key),
            max: Vec3(INFINITY, INFINITY, INFINITY),
        }
    }

    /// Creates the box of all space. It stands for the box of an object
    /// that has none, so that the object is never passed over.
    pub fn everywhere() -> (r: AABB)
        ensures
            r == AABB::all_space(),
    {
        AABB::new(
            Vec3::new(-INFINITY, -INFINITY, -INFINITY),
            Vec3::new(INFINITY, INFINITY, INFINITY),
        )
    }

    /// The smallest box that holds both `self` and `other`.
    pub open spec fn union(self, other: AABB) -> AABB {
        AABB {
            min: Vec3(
                lesser(self.min.0, other.min.0),
                lesser(self.min.1, other.min.1),
                lesser(self.min.2, other.min.2),
            ),
            max: Vec3(
                greater(self.max.0, other.max.0),
                greater(self.max.1, other.max.1),
                greater(self.max.2, other.max.2),
            ),
        }
    }

    /// Whether `other` lies within `self`, faces included.
    pub open spec fn encloses(self, other: AABB) -> bool {
        &&& self.min.0 <= other.min.0
        &&& self.min.1 <= other.min.1
        &&& self.min.2 <= other.min.2
        &&& other.max.0 <= self.max.0
        &&& other.max.1 <= self.max.1
        &&& other.max.2 <= self.max.2
    }

    /// Computes the bounding box of two bounding boxes. Coordinates that are
    /// no number are taken as the integers they are.
    pub fn surrounding_box(box0: AABB, box1: AABB) -> (r: AABB)
        ensures
            r == box0.union(box1),
    {
        let small = Vec3::new(
            min(box0.min.0, box1.min.0),
            min(box0.min.1, box1.min.1),
            min(box0.min.2, box1.min.2),
        );
        let large = Vec3::new(
            max(box0.max.0, box1.max.0),
            max(box0.max.1, box1.max.1),
            max(box0.max.2, box1.max.2),
        );
        AABB::new(small, large)
    }

    /// The slab test on crossings already measured. Narrows the window
    /// axis by axis and gives up as soon as it has closed up. A crossing
    /// that is no number, as that of a ray that runs within a face of the
    /// box, leaves the window as it is.
    pub fn slab_test(slabs: &[Slab; 3], tmin: Key, tmax: Key) -> (r: bool)
        ensures
            r == slabs_overlap(*slabs, tmin, tmax),
    {
        let mut lo = tmin;
        let mut hi = tmax;
        for i in 0..3
            invariant
                i == 0 ==> lo == tmin && hi == tmax,
                i == 1 ==> lo == later(tmin, slabs[0].entry()) && hi == sooner(
                    tmax,
                    slabs[0].exit(),
                ),
                i == 2 ==> lo == later(later(tmin, slabs[0].entry()), slabs[1].entry()) && hi
                    == sooner(sooner(tmax, slabs[0].exit()), slabs[1].exit()),
                i == 3 ==> lo == last_entry(*slabs, tmin) && hi == first_exit(*slabs, tmax),
                i >= 1 ==> !closed_up(
                    later(tmin, slabs[0].entry()),
                    sooner(tmax, slabs[0].exit()),
                ),
                i >= 2 ==> !closed_up(
                    later(later(tmin, slabs[0].entry()), slabs[1].entry()),
                    sooner(sooner(tmax, slabs[0].exit()), slabs[1].exit()),
                ),
                i >= 3 ==> !closed_up(last_entry(*slabs, tmin), first_exit(*slabs, tmax)),
        {
            let mut t0 = slabs[i].t0;
            let mut t1 = slabs[i].t1;
            if slabs[i].reversed {
                let swap = t0;
                t0 = t1;
                t1 = swap;
            }
            lo = if number(lo) && number(t0) && t0 > lo { t0 } else { lo };
            hi = if number(hi) && number(t1) && t1 < hi { t1 } else { hi };
            if number(lo) && number(hi) && hi <= lo {
                return false;
            }
        }
        true
    }

    /// Tests whether a ray meets the box at a parameter strictly inside
    /// the window from `tmin` to `tmax`. `measure` tells how the ray
    /// crosses the three pairs of planes of a box.
    pub fn hit<M: Fn(&Ray, &AABB) -> [Slab; 3]>(
        &self,
        ray: &Ray,
        measure: &M,
        tmin: Key,
        tmax: Key,
    ) -> (r: bool)
        requires
            measure.requires((ray, self)),
        ensures
            exists|slabs: [Slab; 3]|
                measure.ensures((ray, self), slabs) && r == slabs_overlap(slabs, tmin, tmax),
    {
        let slabs = measure(ray, self);
        AABB::slab_test(&slabs, tmin, tmax)
    }

    /// Returns the range of the box along an axis: what `span` makes of the
    /// larger and the smaller of the two corners' coordinates there, in
    /// this order, so that corners in the wrong order do no harm.
    /// Coordinates that are no number are taken as the integers they are.
    pub fn axis_range<S: Fn(Key, Key) -> Key>(&self, axis: Axis, span: &S) -> (r: Key)
        requires
            forall|hi: Key, lo: Key| span.requires((hi, lo)),
        ensures
            span.ensures(
                (
                    greater(self.min.lane(axis.lane()), self.max.lane(axis.lane())),
                    lesser(self.min.lane(axis.lane()), self.max.lane(axis.lane())),
                ),
                r,
            ),
    {
        let lo = min(self.min.axis(axis), self.max.axis(axis));
        let hi = max(self.min.axis(axis), self.max.axis(axis));
        span(hi, lo)
    }

    /// Whether `x`, `y` and `z` are ranges that `axis_range` may report for
    /// the box along the three axes.
    pub open spec fn ranges<F: Fn(&AABB, Axis) -> Key>(
        self,
        axis_range: F,
        x: Key,
        y: Key,
        z: Key,
    ) -> bool {
        &&& axis_range.ensures((&self, Axis::X), x)
        &&& axis_range.ensures((&self, Axis::Y), y)
        &&& axis_range.ensures((&self, Axis::Z), z)
    }

    /// Returns the longest axis of the box, the earlier one where two are
    /// equally long. `axis_range` tells how far the box reaches along an
    /// axis.
    pub fn longest_axis<F: Fn(&AABB, Axis) -> Key>(&self, axis_range: &F) -> (r: Axis)
        requires
            forall|axis: Axis| axis_range.requires((self, axis)),
        ensures
            exists|x: Key, y: Key, z: Key| #[trigger]
                self.ranges(*axis_range, x, y, z) && r == widest(x, y, z),
    {
        let x = axis_range(self, Axis::X);
        let y = axis_range(self, Axis::Y);
        let z = axis_range(self, Axis::Z);
        assert(self.ranges(*axis_range, x, y, z));
        if at_least(x, y) && at_least(x, z) {
            Axis::X
        } else if at_least(y, z) {
            Axis::Y
        } else {
            Axis::Z
        }
    }
}

/// The union of two boxes encloses both, and every box that encloses both
/// encloses their union.
pub proof fn union_is_the_least_enclosure(a: AABB, b: AABB, c: AABB)
    ensures
        a.union(b).encloses(a),
        a.union(b).encloses(b),
        c.encloses(a) && c.encloses(b) ==> c.encloses(a.union(b)),
{
}

/// Whether the window and all six crossings are numbers.
pub open spec fn all_numbers(slabs: [Slab; 3], tmin: Key, tmax: Key) -> bool {
    &&& is_number(tmin)
    &&& is_number(tmax)
    &&& forall|i: int|
        0 <= i < 3 ==> is_number((#[trigger] slabs[i]).t0) && is_number(slabs[i].t1)
}

/// For a window that starts and ends at numbers, the slab test comes to
/// this: the last entry comes before the first exit.
pub proof fn slab_test_compares_last_entry_and_first_exit(slabs: [Slab; 3], tmin: Key, tmax: Key)
    requires
        is_number(tmin),
        is_number(tmax),
    ensures
        slabs_overlap(slabs, tmin, tmax) == (last_entry(slabs, tmin) < first_exit(slabs, tmax)),
{
}

/// Presenting one axis's crossing from the opposite direction, with the
/// planes exchanged and the direction flag flipped, changes neither the
/// entry nor the exit, and so not the outcome of the slab test.
pub proof fn slab_test_ignores_direction_sign(slabs: [Slab; 3], i: int, tmin: Key, tmax: Key)
    requires
        0 <= i < 3,
    ensures
        slabs[i].mirrored().entry() == slabs[i].entry(),
        slabs[i].mirrored().exit() == slabs[i].exit(),
        forall|other: [Slab; 3]|
            (forall|j: int| 0 <= j < 3 ==> #[trigger] other[j] == (if j == i {
                slabs[j].mirrored()
            } else {
                slabs[j]
            })) ==> slabs_overlap(other, tmin, tmax) == slabs_overlap(slabs, tmin, tmax),
{
}

/// The parameter at which a ray has entered the box on all three axes.
pub open spec fn box_entry(slabs: [Slab; 3]) -> Key {
    greater(greater(slabs[0].entry(), slabs[1].entry()), slabs[2].entry())
}

/// The parameter at which a ray first leaves the box on an axis.
pub open spec fn box_exit(slabs: [Slab; 3]) -> Key {
    lesser(lesser(slabs[0].exit(), slabs[1].exit()), slabs[2].exit())
}

/// A ray that passes through the interior of the box, entering it before
/// it leaves it, is reported as a hit by every window that spans its
/// passage from the entry to the exit.
pub proof fn slab_test_accepts_passage(slabs: [Slab; 3], tmin: Key, tmax: Key)
    requires
        all_numbers(slabs, tmin, tmax),
        box_entry(slabs) < box_exit(slabs),
        tmin <= box_entry(slabs),
        box_exit(slabs) <= tmax,
    ensures
        slabs_overlap(slabs, tmin, tmax),
        last_entry(slabs, tmin) == box_entry(slabs),
        first_exit(slabs, tmax) == box_exit(slabs),
{
    assert(is_number(slabs[0].t0) && is_number(slabs[0].t1));
    assert(is_number(slabs[1].t0) && is_number(slabs[1].t1));
    assert(is_number(slabs[2].t0) && is_number(slabs[2].t1));
}

/// More than that: a ray that passes through the interior of the box is
/// reported as a hit by every window that starts before the ray leaves the
/// box and ends after it has entered it.
pub proof fn slab_test_accepts_part_of_passage(slabs: [Slab; 3], tmin: Key, tmax: Key)
    requires
        all_numbers(slabs, tmin, tmax),
        box_entry(slabs) < box_exit(slabs),
        tmin < tmax,
        tmin < box_exit(slabs),
        box_entry(slabs) < tmax,
    ensures
        slabs_overlap(slabs, tmin, tmax),
{
    assert(is_number(slabs[0].t0) && is_number(slabs[0].t1));
    assert(is_number(slabs[1].t0) && is_number(slabs[1].t1));
    assert(is_number(slabs[2].t0) && is_number(slabs[2].t1));
}

/// A ray that leaves the box on one axis no later than it enters it on
/// another misses the box, whatever window of numbers is asked about.
pub proof fn slab_test_rejects_miss(slabs: [Slab; 3], i: int, j: int, tmin: Key, tmax: Key)
    requires
        0 <= i < 3,
        0 <= j < 3,
        is_number(tmin),
        is_number(tmax),
        is_number(slabs[i].entry()),
        is_number(slabs[j].exit()),
        slabs[j].exit() <= slabs[i].entry(),
    ensures
        !slabs_overlap(slabs, tmin, tmax),
{
}

/// A crossing that is no number leaves the window as it is: the slab test
/// comes out as if the ray were between the planes of that axis throughout.
pub proof fn slab_test_passes_over_what_is_no_number(
    slabs: [Slab; 3],
    i: int,
    tmin: Key,
    tmax: Key,
)
    requires
        0 <= i < 3,
        is_number(tmin),
        is_number(tmax),
        !is_number(slabs[i].t0),
        !is_number(slabs[i].t1),
    ensures
        forall|other: [Slab; 3]|
            (forall|j: int| 0 <= j < 3 && j != i ==> #[trigger] other[j] == slabs[j])
                && other[i].entry() == -INFINITY && other[i].exit() == INFINITY
                ==> slabs_overlap(other, tmin, tmax) == slabs_overlap(slabs, tmin, tmax),
{
}

} // verus!
