//! Bounding volume hierarchies.
//!
//! A hierarchy is a binary tree over the objects of a scene. Every node
//! carries the box around all objects beneath it, so a ray that misses the
//! box of a node meets nothing beneath that node, and most of the scene is
//! never asked about.
//!
//! The tree is built once, top down. At every node the objects are put in
//! order along the longest axis of the box around them, by twice the
//! midpoint of their own boxes, and divided at the median: the lower half
//! goes left, the rest goes right.

use crate::aabb::{slabs_overlap, widest, Slab, AABB};
use crate::hittable::world::{scanned, window_end};
use crate::hittable::HitRecord;
use crate::ray::Ray;
use crate::util::{is_below, Key};
use crate::vec3::Axis;
use vstd::prelude::*;
use vstd::seq_lib::*;

verus! {

/// A bounding volume hierarchy.
#[derive(Debug)]
pub struct BVH {
    /// The box around everything beneath this node.
    pub bbox: AABB,
    /// The number of objects beneath this node.
    pub size: usize,
    /// What is beneath this node.
    pub contents: BVHContents,
}

/// What a node of a hierarchy holds: two smaller hierarchies, or one object,
/// named by the number under which the embedding program keeps it.
#[derive(Debug)]
pub enum BVHContents {
    Node { left: Box<BVH>, right: Box<BVH> },
    Leaf(usize),
}

/// Why a hierarchy could not be built.
#[derive(Copy, Clone, Debug, PartialEq, Eq, Structural)]
pub enum BVHError {
    /// There was no object to build it from.
    InvalidInput,
}

/// The box that is enclosed by every box and changes no box that it is
/// united with.
pub open spec fn void() -> AABB {
    AABB {
        min: crate::vec3::Vec3(i32::MAX, i32::MAX, i32::MAX),
        max: crate::vec3::Vec3(i32::MIN, i32::MIN, i32::MIN),
    }
}

/// The boxes of a list of objects.
pub open spec fn boxes_of(objects: Seq<(usize, AABB)>) -> Seq<AABB> {
    objects.map_values(|e: (usize, AABB)| e.1)
}

/// The smallest box around all boxes of a list.
pub open spec fn hull(boxes: Seq<AABB>) -> AABB {
    boxes.fold_left(void(), |acc: AABB, b: AABB| acc.union(b))
}

/// Whether `centroid` may report a midpoint at or below `pivot` for `bbox`
/// along `axis`.
pub open spec fn lies_low<C: Fn(&AABB, Axis) -> Key>(
    centroid: C,
    bbox: AABB,
    axis: Axis,
    pivot: Key,
) -> bool {
    exists|key: Key| #[trigger] centroid.ensures((&bbox, axis), key) && key <= pivot
}

/// Whether `centroid` may report a midpoint at or above `pivot` for `bbox`
/// along `axis`.
pub open spec fn lies_high<C: Fn(&AABB, Axis) -> Key>(
    centroid: C,
    bbox: AABB,
    axis: Axis,
    pivot: Key,
) -> bool {
    exists|key: Key| #[trigger] centroid.ensures((&bbox, axis), key) && key >= pivot
}

impl BVH {
    /// The objects beneath a node, each with its box, from left to right.
    pub open spec fn entries(self) -> Seq<(usize, AABB)>
        decreases self,
    {
        match self.contents {
            BVHContents::Leaf(object) => seq![(object, self.bbox)],
            BVHContents::Node { left, right } => left.entries() + right.entries(),
        }
    }

    /// The objects beneath a node, from left to right.
    pub open spec fn leaves(self) -> Seq<usize>
        decreases self,
    {
        match self.contents {
            BVHContents::Leaf(object) => seq![object],
            BVHContents::Node { left, right } => left.leaves() + right.leaves(),
        }
    }

    /// Whether the boxes and sizes of a hierarchy fit its shape: a leaf
    /// counts one object; an inner node counts those of its two children,
    /// and its box is the union of theirs.
    pub open spec fn wf(self) -> bool
        decreases self,
    {
        match self.contents {
            BVHContents::Leaf(_) => self.size == 1,
            BVHContents::Node { left, right } => {
                &&& left.wf()
                &&& right.wf()
                &&& self.size == left.size + right.size
                &&& self.bbox == left.bbox.union(right.bbox)
            },
        }
    }

    /// Whether every inner node gives half of its objects, rounded down,
    /// to its left child.
    pub open spec fn halved(self) -> bool
        decreases self,
    {
        match self.contents {
            BVHContents::Leaf(_) => true,
            BVHContents::Node { left, right } => {
                &&& left.halved()
                &&& right.halved()
                &&& left.size == self.size / 2
            },
        }
    }

    /// Whether a node's two children are divided along `axis` at `pivot`:
    /// `axis` is the longest axis that `axis_range` may find for the
    /// node's box, no object on the left has its midpoint beyond `pivot`
    /// and none on the right has it before.
    pub open spec fn divided<F: Fn(&AABB, Axis) -> Key, C: Fn(&AABB, Axis) -> Key>(
        self,
        left: BVH,
        right: BVH,
        axis_range: F,
        centroid: C,
        axis: Axis,
        pivot: Key,
    ) -> bool {
        &&& exists|x: Key, y: Key, z: Key| #[trigger]
            self.bbox.ranges(axis_range, x, y, z) && axis == widest(x, y, z)
        &&& forall|i: int|
            0 <= i < left.entries().len() ==> lies_low(
                centroid,
                (#[trigger] left.entries()[i]).1,
                axis,
                pivot,
            )
        &&& forall|i: int|
            0 <= i < right.entries().len() ==> lies_high(
                centroid,
                (#[trigger] right.entries()[i]).1,
                axis,
                pivot,
            )
    }

    /// Whether every inner node divides its objects along the longest axis
    /// of its box.
    pub open spec fn ordered<F: Fn(&AABB, Axis) -> Key, C: Fn(&AABB, Axis) -> Key>(
        self,
        axis_range: F,
        centroid: C,
    ) -> bool
        decreases self,
    {
        match self.contents {
            BVHContents::Leaf(_) => true,
            BVHContents::Node { left, right } => {
                &&& left.ordered(axis_range, centroid)
                &&& right.ordered(axis_range, centroid)
                &&& exists|axis: Axis, pivot: Key| #[trigger]
                    self.divided(*left, *right, axis_range, centroid, axis, pivot)
            },
        }
    }
}

/// The nearer of the crossings found in two subtrees. The right subtree
/// was searched up to the left crossing only, so on a tie the right one is
/// kept; it is also kept where either parameter is no number.
pub open spec fn nearer(hit_left: Option<HitRecord>, hit_right: Option<HitRecord>) -> Option<
    HitRecord,
> {
    match (hit_left, hit_right) {
        (h, None) => h,
        (None, h) => h,
        (Some(hl), Some(hr)) => if is_below(hl.t, hr.t) {
            Some(hl)
        } else {
            Some(hr)
        },
    }
}

impl BVH {
    /// Whether a search of the hierarchy may end with `r`. A node whose
    /// box the ray misses within the window yields nothing. A leaf yields
    /// what its object reports. An inner node searches its left child,
    /// then its right child within the window that ends at the crossing
    /// found on the left, and yields the nearer of the two.
    pub open spec fn searched<
        M: Fn(&Ray, &AABB) -> [Slab; 3],
        L: Fn(&Ray, usize, Key, Key) -> Option<HitRecord>,
    >(
        self,
        ray: Ray,
        measure: M,
        hit_object: L,
        t_min: Key,
        t_max: Key,
        r: Option<HitRecord>,
    ) -> bool
        decreases self,
    {
        exists|slabs: [Slab; 3]|
            {
                &&& #[trigger] measure.ensures((&ray, &self.bbox), slabs)
                &&& if !slabs_overlap(slabs, t_min, t_max) {
                    r is None
                } else {
                    match self.contents {
                        BVHContents::Leaf(object) => hit_object.ensures(
                            (&ray, object, t_min, t_max),
                            r,
                        ),
                        BVHContents::Node { left, right } => exists|
                            hit_left: Option<HitRecord>,
                            hit_right: Option<HitRecord>,
                        |
                            {
                                &&& left.searched(ray, measure, hit_object, t_min, t_max, hit_left)
                                &&& right.searched(
                                    ray,
                                    measure,
                                    hit_object,
                                    t_min,
                                    window_end(hit_left, t_max),
                                    hit_right,
                                )
                                &&& r == #[trigger] nearer(hit_left, hit_right)
                            },
                    }
                }
            }
    }

    /// Whether the functions handed to a search can be asked whatever the
    /// search may ask: `measure` about the box of every node, `hit_object`
    /// about the object of every leaf, within any window that starts at
    /// `t_min`.
    pub open spec fn askable<
        M: Fn(&Ray, &AABB) -> [Slab; 3],
        L: Fn(&Ray, usize, Key, Key) -> Option<HitRecord>,
    >(self, ray: Ray, measure: M, hit_object: L, t_min: Key) -> bool
        decreases self,
    {
        &&& measure.requires((&ray, &self.bbox))
        &&& match self.contents {
            BVHContents::Leaf(object) => forall|end: Key|
                hit_object.requires((&ray, object, t_min, end)),
            BVHContents::Node { left, right } => left.askable(ray, measure, hit_object, t_min)
                && right.askable(ray, measure, hit_object, t_min),
        }
    }

    /// Finds where a ray first meets an object of the hierarchy within the
    /// window from `t_min` to `t_max`. `measure` tells how the ray crosses
    /// the planes of a box, `hit_object` where it meets one object within a
    /// window. Nothing beneath a node is asked about once the ray misses
    /// the node's box.
    pub fn hit<
        M: Fn(&Ray, &AABB) -> [Slab; 3],
        L: Fn(&Ray, usize, Key, Key) -> Option<HitRecord>,
    >(&self, ray: &Ray, measure: &M, hit_object: &L, t_min: Key, t_max: Key) -> (r: Option<
        HitRecord,
    >)
        requires
            self.askable(*ray, *measure, *hit_object, t_min),
        ensures
            self.searched(*ray, *measure, *hit_object, t_min, t_max, r),
        decreases self,
    {
        let slabs = measure(ray, &self.bbox);
        if AABB::slab_test(&slabs, t_min, t_max) {
            match &self.contents {
                BVHContents::Leaf(object) => hit_object(ray, *object, t_min, t_max),
                BVHContents::Node { left, right } => {
                    let hit_left = left.hit(ray, measure, hit_object, t_min, t_max);
                    // Nothing beyond the left crossing can be nearer.
                    let right_t_max = match &hit_left {
                        Some(rec) => rec.t,
                        None => t_max,
                    };
                    let hit_right = right.hit(ray, measure, hit_object, t_min, right_t_max);
                    let r = match (hit_left, hit_right) {
                        (h, None) => h,
                        (None, h) => h,
                        (Some(hl), Some(hr)) => {
                            if crate::util::below(hl.t, hr.t) {
                                Some(hl)
                            } else {
                                Some(hr)
                            }
                        },
                    };
                    assert(r == nearer(hit_left, hit_right));
                    r
                },
            }
        } else {
            None
        }
    }

    /// The box around the hierarchy. It is the same at all times.
    pub fn bounding_box(&self, _t0: Key, _t1: Key) -> (r: Option<AABB>)
        ensures
            r == Some(self.bbox),
    {
        Some(self.bbox)
    }
}

/// Two lists that hold the same items, each as often as the other, still
/// do so after one function has been applied to every item of both.
pub proof fn lemma_map_keeps_multiset<A, B>(a: Seq<A>, b: Seq<A>, f: spec_fn(A) -> B)
    requires
        a.to_multiset() == b.to_multiset(),
    ensures
        a.map_values(f).to_multiset() == b.map_values(f).to_multiset(),
    decreases a.len(),
{
    broadcast use group_to_multiset_ensures;

    if a.len() == 0 {
        assert(b.to_multiset().len() == 0);
        assert(b.len() == 0);
        assert(a.map_values(f) =~= b.map_values(f));
    } else {
        let x = a.last();
        assert(a.to_multiset().count(x) > 0);
        assert(b.contains(x));
        let j = b.index_of(x);
        let a1 = a.drop_last();
        let b1 = b.remove(j);
        assert(a1 == a.remove(a.len() - 1));
        assert(a1.to_multiset() == b1.to_multiset());
        lemma_map_keeps_multiset(a1, b1, f);
        assert(a.map_values(f) =~= a1.map_values(f).push(f(x)));
        assert(b.map_values(f) =~= b1.map_values(f).insert(j, f(x)));
    }
}

/// Uniting boxes one after another gives the same box in whichever order
/// two of them are taken.
pub proof fn lemma_union_commutes()
    ensures
        commutative_foldl(|acc: AABB, b: AABB| acc.union(b)),
{
    let f = |acc: AABB, b: AABB| acc.union(b);
    assert forall|x: AABB, y: AABB, v: AABB| #[trigger] f(f(v, x), y) == f(f(v, y), x) by {}
}

/// The box around a list of boxes does not depend on their order.
pub proof fn lemma_hull_of_permutation(a: Seq<AABB>, b: Seq<AABB>)
    requires
        a.to_multiset() == b.to_multiset(),
    ensures
        hull(a) == hull(b),
{
    lemma_union_commutes();
    lemma_fold_left_permutation(a, b, |acc: AABB, b: AABB| acc.union(b), void());
}

/// The box around two lists put together is the union of the boxes around
/// each.
pub proof fn lemma_hull_of_concat(l: Seq<AABB>, r: Seq<AABB>)
    ensures
        hull(l + r) == hull(l).union(hull(r)),
    decreases r.len(),
{
    let f = |acc: AABB, b: AABB| acc.union(b);
    if r.len() == 0 {
        assert(l + r =~= l);
    } else {
        let r1 = r.drop_last();
        lemma_hull_of_concat(l, r1);
        assert((l + r).drop_last() =~= l + r1);
        assert((l + r).last() == r.last());
        if r1.len() == 0 {
            assert(l + r1 =~= l);
            assert(hull(r1) == void());
            assert(hull(r) == void().union(r.last()));
        }
    }
}

/// The box of a well-formed node is the box around all objects beneath it.
pub proof fn lemma_bbox_is_hull(tree: BVH)
    requires
        tree.wf(),
    ensures
        tree.bbox == hull(boxes_of(tree.entries())),
        tree.entries().len() == tree.size,
        tree.leaves().len() == tree.size,
        tree.size > 0,
    decreases tree,
{
    match tree.contents {
        BVHContents::Leaf(object) => {
            let s = boxes_of(tree.entries());
            assert(s =~= seq![tree.bbox]);
            assert(s.drop_last() =~= Seq::<AABB>::empty());
            assert(s.last() == tree.bbox);
            assert(hull(s.drop_last()) == void());
        },
        BVHContents::Node { left, right } => {
            lemma_bbox_is_hull(*left);
            lemma_bbox_is_hull(*right);
            let l = boxes_of(left.entries());
            let r = boxes_of(right.entries());
            assert(boxes_of(tree.entries()) =~= l + r);
            lemma_hull_of_concat(l, r);
        },
    }
}

/// Puts a list of keyed objects in ascending order of their keys.
///
/// Calls `slice::sort_unstable_by_key` with the key as the key. Its
/// documentation promises a sorted slice of the same elements and leaves
/// the order of elements with equal keys open; so does this contract. The
/// keys are put in order as the integers they are, also those that stand
/// for no number.
#[verifier::external_body]
fn sort_by_key(keyed: &mut Vec<(Key, (usize, AABB))>)
    ensures
        final(keyed)@.to_multiset() == old(keyed)@.to_multiset(),
        forall|i: int, j: int|
            0 <= i <= j < final(keyed)@.len() ==> final(keyed)@[i].0 <= final(keyed)@[j].0,
{
    keyed.sort_unstable_by_key(|e| e.0);
}

/// The objects of a keyed list, without their keys.
pub open spec fn unkeyed(keyed: Seq<(Key, (usize, AABB))>) -> Seq<(usize, AABB)> {
    keyed.map_values(|e: (Key, (usize, AABB))| e.1)
}

/// Drops the keys of a keyed list.
fn strip(keyed: &Vec<(Key, (usize, AABB))>) -> (r: Vec<(usize, AABB)>)
    ensures
        r@ == unkeyed(keyed@),
{
    let mut objects: Vec<(usize, AABB)> = Vec::new();
    for i in 0..keyed.len()
        invariant
            objects@ == unkeyed(keyed@.take(i as int)),
    {
        objects.push(keyed[i].1);
        proof {
            assert(unkeyed(keyed@.take(i + 1)) =~= unkeyed(keyed@.take(i as int)).push(
                keyed@[i as int].1,
            ));
        }
    }
    proof {
        assert(keyed@.take(keyed.len() as int) == keyed@);
    }
    objects
}

impl BVH {
    /// Whether `self` is a hierarchy that `new` may build from `objects`:
    /// it holds each of them once, halves them at every node and divides
    /// them along the longest axis there.
    pub open spec fn built_from<F: Fn(&AABB, Axis) -> Key, C: Fn(&AABB, Axis) -> Key>(
        self,
        objects: Seq<(usize, AABB)>,
        axis_range: F,
        centroid: C,
    ) -> bool {
        &&& self.wf()
        &&& self.size == objects.len()
        &&& self.entries().to_multiset() == objects.to_multiset()
        &&& self.halved()
        &&& self.ordered(axis_range, centroid)
    }

    /// Builds the hierarchy over a list of objects that is not empty.
    fn build<F: Fn(&AABB, Axis) -> Key, C: Fn(&AABB, Axis) -> Key>(
        objects: Vec<(usize, AABB)>,
        axis_range: &F,
        centroid: &C,
    ) -> (r: BVH)
        requires
            objects.len() > 0,
            forall|b: &AABB, a: Axis| axis_range.requires((b, a)),
            forall|b: &AABB, a: Axis| centroid.requires((b, a)),
        ensures
            r.built_from(objects@, *axis_range, *centroid),
        decreases objects.len(),
    {
        let n = objects.len();
        if n == 1 {
            let (object, bbox) = objects[0];
            let leaf = BVH { bbox, size: 1, contents: BVHContents::Leaf(object) };
            proof {
                assert(leaf.entries() =~= objects@);
            }
            return leaf;
        }
        // The box that encompasses all objects, and its biggest axis.
        let mut bbox = objects[0].1;
        proof {
            let first = boxes_of(objects@).take(1);
            assert(first.drop_last() =~= Seq::<AABB>::empty());
            assert(hull(first.drop_last()) == void());
            assert(hull(first) == void().union(first.last()));
        }
        for i in 1..n
            invariant
                n == objects.len(),
                bbox == hull(boxes_of(objects@).take(i as int)),
        {
            bbox = AABB::surrounding_box(bbox, objects[i].1);
            proof {
                let next = boxes_of(objects@).take(i + 1);
                assert(next.drop_last() == boxes_of(objects@).take(i as int));
            }
        }
        let axis = bbox.longest_axis(axis_range);
        // The objects in order along that axis.
        let mut keyed: Vec<(Key, (usize, AABB))> = Vec::new();
        for i in 0..n
            invariant
                n == objects.len(),
                forall|b: &AABB, a: Axis| centroid.requires((b, a)),
                keyed@.len() == i,
                forall|j: int| 0 <= j < i ==> (#[trigger] keyed@[j]).1 == objects@[j],
                forall|j: int|
                    0 <= j < i ==> centroid.ensures(
                        (&objects@[j].1, axis),
                        (#[trigger] keyed@[j]).0,
                    ),
        {
            let key = centroid(&objects[i].1, axis);
            keyed.push((key, objects[i]));
        }
        let ghost unsorted = keyed@;
        sort_by_key(&mut keyed);
        let ghost sorted = keyed@;
        proof {
            unsorted.to_multiset_ensures();
            sorted.to_multiset_ensures();
        }
        let mid = n / 2;
        let right_keyed = keyed.split_off(mid);
        let left_objects = strip(&keyed);
        let right_objects = strip(&right_keyed);
        proof {
            broadcast use group_to_multiset_ensures;

            assert(sorted.len() == n);
            assert(unkeyed(unsorted) =~= objects@);
            assert(left_objects@ + right_objects@ =~= unkeyed(sorted));
            lemma_map_keeps_multiset(sorted, unsorted, |e: (Key, (usize, AABB))| e.1);
        }
        let right = BVH::build(right_objects, axis_range, centroid);
        let left = BVH::build(left_objects, axis_range, centroid);
        let node_box = AABB::surrounding_box(left.bbox, right.bbox);
        let size = left.size + right.size;
        let node = BVH {
            bbox: node_box,
            size,
            contents: BVHContents::Node { left: Box::new(left), right: Box::new(right) },
        };
        proof {
            broadcast use group_to_multiset_ensures;

            let pivot = sorted[mid as int].0;
            assert(node.entries() == left.entries() + right.entries());
            lemma_multiset_commutative(left.entries(), right.entries());
            lemma_multiset_commutative(left_objects@, right_objects@);
            assert(node.entries().to_multiset() == objects@.to_multiset());
            // The node's box is the box that the axis was chosen for.
            lemma_bbox_is_hull(left);
            lemma_bbox_is_hull(right);
            lemma_hull_of_concat(boxes_of(left.entries()), boxes_of(right.entries()));
            assert(boxes_of(node.entries()) =~= boxes_of(left.entries()) + boxes_of(
                right.entries(),
            ));
            lemma_map_keeps_multiset(node.entries(), objects@, |e: (usize, AABB)| e.1);
            lemma_hull_of_permutation(boxes_of(node.entries()), boxes_of(objects@));
            assert(boxes_of(objects@).take(n as int) == boxes_of(objects@));
            assert(node.bbox == bbox);
            // Every object kept its key, and the keys are in order.
            assert forall|k: int| 0 <= k < n implies centroid.ensures(
                (&(#[trigger] sorted[k]).1.1, axis),
                sorted[k].0,
            ) by {
                assert(sorted.to_multiset().count(sorted[k]) > 0);
                assert(unsorted.contains(sorted[k]));
                let p = unsorted.index_of(sorted[k]);
                assert(unsorted[p].1 == objects@[p]);
            }
            assert forall|i: int| 0 <= i < left.entries().len() implies lies_low(
                *centroid,
                (#[trigger] left.entries()[i]).1,
                axis,
                pivot,
            ) by {
                let e = left.entries()[i];
                assert(left.entries().to_multiset().count(e) > 0);
                assert(left_objects@.contains(e));
                let j = left_objects@.index_of(e);
                assert(sorted[j].1 == e);
                assert(centroid.ensures((&e.1, axis), sorted[j].0));
            }
            assert forall|i: int| 0 <= i < right.entries().len() implies lies_high(
                *centroid,
                (#[trigger] right.entries()[i]).1,
                axis,
                pivot,
            ) by {
                let e = right.entries()[i];
                assert(right.entries().to_multiset().count(e) > 0);
                assert(right_objects@.contains(e));
                let j = right_objects@.index_of(e);
                assert(sorted[mid + j].1 == e);
                assert(centroid.ensures((&e.1, axis), sorted[mid + j].0));
            }
            assert(node.divided(left, right, *axis_range, *centroid, axis, pivot));
        }
        node
    }

    /// Creates a hierarchy over the given objects, each named by its number
    /// and given with its box, if it has one. An object without a box is
    /// not turned away: it gets the box of all space, so that no search
    /// passes it over, and takes its place in the order by what `centroid`
    /// reports for that box. `axis_range` tells how far a box reaches along
    /// an axis, `centroid` twice the midpoint of a box along an axis.
    /// Fails with `InvalidInput` if and only if there are no objects.
    pub fn new<F: Fn(&AABB, Axis) -> Key, C: Fn(&AABB, Axis) -> Key>(
        objects: Vec<(usize, Option<AABB>)>,
        axis_range: &F,
        centroid: &C,
    ) -> (r: Result<BVH, BVHError>)
        requires
            forall|b: &AABB, a: Axis| axis_range.requires((b, a)),
            forall|b: &AABB, a: Axis| centroid.requires((b, a)),
        ensures
            match r {
                Ok(tree) => objects.len() > 0 && tree.built_from(
                    bounded(objects@),
                    *axis_range,
                    *centroid,
                ),
                Err(e) => objects.len() == 0 && e == BVHError::InvalidInput,
            },
    {
        let n = objects.len();
        if n == 0 {
            return Err(BVHError::InvalidInput);
        }
        let mut boxed: Vec<(usize, AABB)> = Vec::new();
        for i in 0..n
            invariant
                n == objects.len(),
                boxed@ == bounded(objects@.take(i as int)),
        {
            let (object, bbox) = objects[i];
            let bbox = match bbox {
                Some(bbox) => bbox,
                None => AABB::everywhere(),
            };
            boxed.push((object, bbox));
            proof {
                assert(bounded(objects@.take(i + 1)) =~= bounded(objects@.take(i as int)).push(
                    (object, bbox),
                ));
            }
        }
        proof {
            assert(objects@.take(n as int) == objects@);
        }
        Ok(BVH::build(boxed, axis_range, centroid))
    }
}

/// The box that an object is given in a hierarchy: its own, or the box of
/// all space where it has none.
pub open spec fn box_or_all_space(bbox: Option<AABB>) -> AABB {
    match bbox {
        Some(bbox) => bbox,
        None => AABB::all_space(),
    }
}

/// A list of objects, each with the box that it is given in a hierarchy.
pub open spec fn bounded(objects: Seq<(usize, Option<AABB>)>) -> Seq<(usize, AABB)> {
    objects.map_values(|e: (usize, Option<AABB>)| (e.0, box_or_all_space(e.1)))
}

/// A crossing as seen through a window that ends at `end`: the crossing
/// itself if it comes before `end`, or at `end` where the end belongs to
/// the window; else nothing.
pub open spec fn within(crossing: Option<HitRecord>, end: Key, closed: bool) -> Option<HitRecord> {
    match crossing {
        Some(rec) => if rec.t < end || (closed && rec.t == end) {
            crossing
        } else {
            None
        },
        None => None,
    }
}

/// Whether every object answers with its nearest crossing: what
/// `hit_object` reports for an object within a window is the crossing
/// `nearest` of that object where the window holds it, and nothing where it
/// does not. `closed` tells of every object whether the end of a window
/// belongs to the window for it, as it does for spheres and rectangles.
pub open spec fn answers_nearest<L: Fn(&Ray, usize, Key, Key) -> Option<HitRecord>>(
    hit_object: L,
    ray: Ray,
    t_min: Key,
    nearest: spec_fn(usize) -> Option<HitRecord>,
    closed: spec_fn(usize) -> bool,
) -> bool {
    forall|object: usize, end: Key, r: Option<HitRecord>| #[trigger]
        hit_object.ensures((&ray, object, t_min, end), r) ==> r == within(
            nearest(object),
            end,
            closed(object),
        )
}

/// What an object shows within the window that ends at `end`.
pub open spec fn shown(
    nearest: spec_fn(usize) -> Option<HitRecord>,
    closed: spec_fn(usize) -> bool,
    object: usize,
    end: Key,
) -> Option<HitRecord> {
    within(nearest(object), end, closed(object))
}

/// Whether an object has its nearest crossing before `end`, and not at it.
pub open spec fn crosses_before(
    nearest: spec_fn(usize) -> Option<HitRecord>,
    object: usize,
    end: Key,
) -> bool {
    nearest(object) matches Some(rec) && rec.t < end
}

/// Whether `r` is what a search may find among `objects` within the window
/// that ends at `end`. Nothing, only if no object has a crossing before
/// the end: a crossing at the very end of a window may be lost, where the
/// ray leaves a box just there. Else the crossing that one of the objects
/// shows in the window, which no crossing shown precedes.
pub open spec fn is_found_among(
    objects: Seq<usize>,
    nearest: spec_fn(usize) -> Option<HitRecord>,
    closed: spec_fn(usize) -> bool,
    end: Key,
    r: Option<HitRecord>,
) -> bool {
    match r {
        None => forall|k: int|
            0 <= k < objects.len() ==> !crosses_before(nearest, #[trigger] objects[k], end),
        Some(rec) => {
            &&& exists|k: int|
                0 <= k < objects.len() && shown(nearest, closed, #[trigger] objects[k], end) == r
            &&& forall|k: int|
                0 <= k < objects.len() ==> (shown(nearest, closed, #[trigger] objects[k], end)
                    matches Some(other) ==> rec.t <= other.t)
        },
    }
}

/// Whether `r` is a nearest crossing of `objects` within the window that
/// ends at `end`: none if no object shows a crossing there, else the
/// crossing of one of them that no other crossing shown precedes.
pub open spec fn is_nearest_among(
    objects: Seq<usize>,
    nearest: spec_fn(usize) -> Option<HitRecord>,
    closed: spec_fn(usize) -> bool,
    end: Key,
    r: Option<HitRecord>,
) -> bool {
    match r {
        None => forall|k: int|
            0 <= k < objects.len() ==> shown(nearest, closed, #[trigger] objects[k], end) is None,
        Some(rec) => {
            &&& exists|k: int|
                0 <= k < objects.len() && shown(nearest, closed, #[trigger] objects[k], end) == r
            &&& forall|k: int|
                0 <= k < objects.len() ==> (shown(nearest, closed, #[trigger] objects[k], end)
                    matches Some(other) ==> rec.t <= other.t)
        },
    }
}

impl BVH {
    /// Whether the boxes of the hierarchy are conservative for a ray: at
    /// every node, whenever an object beneath it has its nearest crossing
    /// before `end`, the slab test finds the ray inside the node's box
    /// within the window that ends at `end`. Nothing is asked for a window
    /// that ends at the crossing itself: a box may be as tight as the
    /// object, and the slab test finds nothing in a window that ends where
    /// the ray enters the box.
    pub open spec fn encloses_crossings<M: Fn(&Ray, &AABB) -> [Slab; 3]>(
        self,
        ray: Ray,
        measure: M,
        t_min: Key,
        nearest: spec_fn(usize) -> Option<HitRecord>,
    ) -> bool
        decreases self,
    {
        &&& forall|slabs: [Slab; 3], end: Key, k: int|
            #![trigger measure.ensures((&ray, &self.bbox), slabs), crosses_before(nearest, self.leaves()[k], end)]
            measure.ensures((&ray, &self.bbox), slabs) && 0 <= k < self.leaves().len()
                && crosses_before(nearest, self.leaves()[k], end) ==> slabs_overlap(
                slabs,
                t_min,
                end,
            )
        &&& match self.contents {
            BVHContents::Leaf(_) => true,
            BVHContents::Node { left, right } => left.encloses_crossings(
                ray,
                measure,
                t_min,
                nearest,
            ) && right.encloses_crossings(ray, measure, t_min, nearest),
        }
    }
}

/// Where every object answers with its nearest crossing, the linear scan
/// ends with a nearest crossing of the whole list.
pub proof fn lemma_scan_finds_nearest<L: Fn(&Ray, usize, Key, Key) -> Option<HitRecord>>(
    objects: Seq<usize>,
    ray: Ray,
    hit_object: L,
    t_min: Key,
    t_max: Key,
    nearest: spec_fn(usize) -> Option<HitRecord>,
    closed: spec_fn(usize) -> bool,
    r: Option<HitRecord>,
)
    requires
        answers_nearest(hit_object, ray, t_min, nearest, closed),
        scanned(objects, ray, hit_object, t_min, t_max, r),
    ensures
        is_nearest_among(objects, nearest, closed, t_max, r),
    decreases objects.len(),
{
    if objects.len() > 0 {
        let rest = objects.drop_last();
        let (before, found): (Option<HitRecord>, Option<HitRecord>) = choose|
            before: Option<HitRecord>,
            found: Option<HitRecord>,
        |
            {
                &&& scanned(rest, ray, hit_object, t_min, t_max, before)
                &&& #[trigger] hit_object.ensures(
                    (&ray, objects.last(), t_min, window_end(before, t_max)),
                    found,
                )
                &&& r == if found is Some {
                    found
                } else {
                    before
                }
            };
        lemma_scan_finds_nearest(rest, ray, hit_object, t_min, t_max, nearest, closed, before);
        let last = objects.last();
        assert(found == shown(nearest, closed, last, window_end(before, t_max)));
        assert forall|k: int| 0 <= k < rest.len() implies rest[k] == objects[k] by {}
        if before is Some {
            let kb = choose|k: int|
                0 <= k < rest.len() && shown(nearest, closed, #[trigger] rest[k], t_max) == before;
            assert(objects[kb] == rest[kb]);
        }
        if found is Some {
            assert(shown(nearest, closed, objects[objects.len() - 1], t_max) == found);
        }
        assert(is_nearest_among(objects, nearest, closed, t_max, r)) by {
            assert forall|k: int| 0 <= k < objects.len() implies (k < rest.len() && objects[k]
                == rest[k]) || k == objects.len() - 1 by {}
        }
    }
}

/// Where every object answers with its nearest crossing and the boxes are
/// conservative, a search of the hierarchy ends with nothing only if no
/// object beneath it has a crossing before the end of the window, and else
/// with a nearest of the crossings that the objects beneath it show.
pub proof fn lemma_search_finds_nearest<
    M: Fn(&Ray, &AABB) -> [Slab; 3],
    L: Fn(&Ray, usize, Key, Key) -> Option<HitRecord>,
>(
    tree: BVH,
    ray: Ray,
    measure: M,
    hit_object: L,
    t_min: Key,
    t_max: Key,
    nearest: spec_fn(usize) -> Option<HitRecord>,
    closed: spec_fn(usize) -> bool,
    r: Option<HitRecord>,
)
    requires
        answers_nearest(hit_object, ray, t_min, nearest, closed),
        tree.encloses_crossings(ray, measure, t_min, nearest),
        tree.searched(ray, measure, hit_object, t_min, t_max, r),
    ensures
        is_found_among(tree.leaves(), nearest, closed, t_max, r),
    decreases tree,
{
    let slabs = choose|slabs: [Slab; 3]|
        {
            &&& #[trigger] measure.ensures((&ray, &tree.bbox), slabs)
            &&& if !slabs_overlap(slabs, t_min, t_max) {
                r is None
            } else {
                match tree.contents {
                    BVHContents::Leaf(object) => hit_object.ensures(
                        (&ray, object, t_min, t_max),
                        r,
                    ),
                    BVHContents::Node { left, right } => exists|
                        hit_left: Option<HitRecord>,
                        hit_right: Option<HitRecord>,
                    |
                        {
                            &&& left.searched(ray, measure, hit_object, t_min, t_max, hit_left)
                            &&& right.searched(
                                ray,
                                measure,
                                hit_object,
                                t_min,
                                window_end(hit_left, t_max),
                                hit_right,
                            )
                            &&& r == #[trigger] nearer(hit_left, hit_right)
                        },
                }
            }
        };
    let leaves = tree.leaves();
    if !slabs_overlap(slabs, t_min, t_max) {
        assert forall|k: int| 0 <= k < leaves.len() implies !crosses_before(
            nearest,
            #[trigger] leaves[k],
            t_max,
        ) by {
            if crosses_before(nearest, leaves[k], t_max) {
                assert(slabs_overlap(slabs, t_min, t_max));
            }
        }
    } else {
        match tree.contents {
            BVHContents::Leaf(object) => {
                assert(leaves[0] == object);
                assert(r == shown(nearest, closed, object, t_max));
            },
            BVHContents::Node { left, right } => {
                let (hit_left, hit_right): (Option<HitRecord>, Option<HitRecord>) = choose|
                    hit_left: Option<HitRecord>,
                    hit_right: Option<HitRecord>,
                |
                    {
                        &&& left.searched(ray, measure, hit_object, t_min, t_max, hit_left)
                        &&& right.searched(
                            ray,
                            measure,
                            hit_object,
                            t_min,
                            window_end(hit_left, t_max),
                            hit_right,
                        )
                        &&& r == #[trigger] nearer(hit_left, hit_right)
                    };
                let end = window_end(hit_left, t_max);
                lemma_search_finds_nearest(
                    *left,
                    ray,
                    measure,
                    hit_object,
                    t_min,
                    t_max,
                    nearest,
                    closed,
                    hit_left,
                );
                lemma_search_finds_nearest(
                    *right,
                    ray,
                    measure,
                    hit_object,
                    t_min,
                    end,
                    nearest,
                    closed,
                    hit_right,
                );
                let l = left.leaves();
                let rt = right.leaves();
                assert(leaves == l + rt);
                assert forall|k: int| 0 <= k < leaves.len() implies (k < l.len() && leaves[k]
                    == l[k]) || (l.len() <= k && leaves[k] == rt[k - l.len()]) by {}
                if hit_left is Some {
                    let kl = choose|k: int|
                        0 <= k < l.len() && shown(nearest, closed, #[trigger] l[k], t_max)
                            == hit_left;
                    assert(leaves[kl] == l[kl]);
                    assert(end <= t_max);
                }
                if hit_right is Some {
                    let kr = choose|k: int|
                        0 <= k < rt.len() && shown(nearest, closed, #[trigger] rt[k], end)
                            == hit_right;
                    assert(leaves[l.len() + kr] == rt[kr]);
                    assert(shown(nearest, closed, rt[kr], t_max) == hit_right);
                }
                // What the right side shows up to the left crossing, it
                // also shows in the whole window; what it does not show
                // there lies no nearer than the left crossing.
                assert forall|k: int| 0 <= k < rt.len() implies (shown(
                    nearest,
                    closed,
                    #[trigger] rt[k],
                    end,
                ) == within(shown(nearest, closed, rt[k], t_max), end, closed(rt[k]))) && (
                crosses_before(nearest, rt[k], end) ==> shown(nearest, closed, rt[k], end)
                    is Some) by {}
                assert forall|k: int| 0 <= k < l.len() implies (crosses_before(
                    nearest,
                    #[trigger] l[k],
                    t_max,
                ) ==> shown(nearest, closed, l[k], t_max) is Some) by {}
                assert(is_found_among(leaves, nearest, closed, t_max, r));
            },
        }
    }
}

/// Whether all objects of a list that show a crossing as near as `found`
/// within the window that ends at `end` show the same record.
pub open spec fn nearest_is_one(
    objects: Seq<usize>,
    nearest: spec_fn(usize) -> Option<HitRecord>,
    closed: spec_fn(usize) -> bool,
    end: Key,
    found: Option<HitRecord>,
) -> bool {
    forall|a: usize, b: usize|
        #![trigger shown(nearest, closed, a, end), shown(nearest, closed, b, end)]
        objects.contains(a) && objects.contains(b) && found is Some && shown(
            nearest,
            closed,
            a,
            end,
        ) is Some && shown(nearest, closed, b, end) is Some && shown(nearest, closed, a, end)->0.t
            == found->0.t && shown(nearest, closed, b, end)->0.t == found->0.t ==> shown(
            nearest,
            closed,
            a,
            end,
        ) == shown(nearest, closed, b, end)
}

/// Whether no object of a list has its nearest crossing exactly at `end`.
pub open spec fn ends_at_no_crossing(
    objects: Seq<usize>,
    nearest: spec_fn(usize) -> Option<HitRecord>,
    end: Key,
) -> bool {
    forall|k: int|
        0 <= k < objects.len() ==> !(nearest(#[trigger] objects[k]) matches Some(rec) && rec.t
            == end)
}

/// The hierarchy and the linear scan agree. For one ray and one window
/// that ends at no crossing, as a window without end does, let every
/// object answer with its nearest crossing, whether the end of a window
/// belongs to the window for it or not; let the boxes of the hierarchy be
/// conservative, each as tight as it may be; and let the hierarchy hold the
/// objects of the list. Then a search of the hierarchy finds a crossing
/// exactly when the scan of the list does, and both crossings lie equally
/// far along the ray, also where several objects are met equally far.
/// Where the objects that are met nearest all show one record, the two
/// records are the same in every field, the material included.
pub proof fn bvh_hit_matches_linear_scan<
    M: Fn(&Ray, &AABB) -> [Slab; 3],
    L: Fn(&Ray, usize, Key, Key) -> Option<HitRecord>,
>(
    tree: BVH,
    objects: Seq<usize>,
    ray: Ray,
    measure: M,
    hit_object: L,
    t_min: Key,
    t_max: Key,
    nearest: spec_fn(usize) -> Option<HitRecord>,
    closed: spec_fn(usize) -> bool,
    via_tree: Option<HitRecord>,
    via_scan: Option<HitRecord>,
)
    requires
        forall|object: usize| tree.leaves().contains(object) <==> objects.contains(object),
        answers_nearest(hit_object, ray, t_min, nearest, closed),
        ends_at_no_crossing(objects, nearest, t_max),
        tree.encloses_crossings(ray, measure, t_min, nearest),
        tree.searched(ray, measure, hit_object, t_min, t_max, via_tree),
        scanned(objects, ray, hit_object, t_min, t_max, via_scan),
    ensures
        via_tree is None <==> via_scan is None,
        via_tree is Some ==> via_tree->0.t == via_scan->0.t,
        nearest_is_one(objects, nearest, closed, t_max, via_scan) ==> via_tree == via_scan,
{
    lemma_search_finds_nearest(
        tree,
        ray,
        measure,
        hit_object,
        t_min,
        t_max,
        nearest,
        closed,
        via_tree,
    );
    lemma_scan_finds_nearest(objects, ray, hit_object, t_min, t_max, nearest, closed, via_scan);
    let leaves = tree.leaves();
    assert forall|k: int| 0 <= k < leaves.len() implies objects.contains(#[trigger] leaves[k]) by {
        assert(leaves.contains(leaves[k]));
    }
    assert forall|k: int| 0 <= k < objects.len() implies leaves.contains(#[trigger] objects[k]) by {
        assert(objects.contains(objects[k]));
    }
    // No crossing lies at the end of the window, so what is shown in the
    // window lies before its end.
    assert forall|k: int| 0 <= k < objects.len() implies (shown(
        nearest,
        closed,
        #[trigger] objects[k],
        t_max,
    ) is Some <==> crosses_before(nearest, objects[k], t_max)) by {}
    if via_tree is Some {
        let kt = choose|k: int|
            0 <= k < leaves.len() && shown(nearest, closed, #[trigger] leaves[k], t_max)
                == via_tree;
        assert(objects.contains(leaves[kt]));
        let ko = objects.index_of(leaves[kt]);
        assert(shown(nearest, closed, objects[ko], t_max) == via_tree);
    }
    if via_scan is Some {
        let ks = choose|k: int|
            0 <= k < objects.len() && shown(nearest, closed, #[trigger] objects[k], t_max)
                == via_scan;
        assert(leaves.contains(objects[ks]));
        let kl = leaves.index_of(objects[ks]);
        assert(shown(nearest, closed, leaves[kl], t_max) == via_scan);
        assert(crosses_before(nearest, leaves[kl], t_max));
        if via_tree is Some && nearest_is_one(objects, nearest, closed, t_max, via_scan) {
            let kt = choose|k: int|
                0 <= k < leaves.len() && shown(nearest, closed, #[trigger] leaves[k], t_max)
                    == via_tree;
            assert(objects.contains(leaves[kt]));
            assert(objects.contains(objects[ks]));
            assert(shown(nearest, closed, leaves[kt], t_max) == shown(
                nearest,
                closed,
                objects[ks],
                t_max,
            ));
        }
    }
}

/// The objects beneath a node are those of its entries, in the same order.
pub proof fn lemma_leaves_are_entries(tree: BVH)
    ensures
        tree.leaves().len() == tree.entries().len(),
        forall|k: int| 0 <= k < tree.leaves().len() ==> tree.leaves()[k] == tree.entries()[k].0,
    decreases tree,
{
    match tree.contents {
        BVHContents::Leaf(_) => {},
        BVHContents::Node { left, right } => {
            lemma_leaves_are_entries(*left);
            lemma_leaves_are_entries(*right);
        },
    }
}

/// The box of a well-formed node encloses the box of every object beneath
/// it.
pub proof fn lemma_node_encloses_entries(tree: BVH)
    requires
        tree.wf(),
    ensures
        forall|k: int|
            0 <= k < tree.entries().len() ==> tree.bbox.encloses((#[trigger] tree.entries()[k]).1),
    decreases tree,
{
    match tree.contents {
        BVHContents::Leaf(_) => {},
        BVHContents::Node { left, right } => {
            lemma_node_encloses_entries(*left);
            lemma_node_encloses_entries(*right);
            let l = left.entries();
            assert forall|k: int| 0 <= k < tree.entries().len() implies tree.bbox.encloses(
                (#[trigger] tree.entries()[k]).1,
            ) by {
                if k < l.len() {
                    assert(tree.entries()[k] == l[k]);
                } else {
                    assert(tree.entries()[k] == right.entries()[k - l.len()]);
                }
            }
        },
    }
}

/// A hierarchy built from a list of objects holds exactly the objects of
/// the list.
pub proof fn lemma_built_holds_objects<F: Fn(&AABB, Axis) -> Key, C: Fn(&AABB, Axis) -> Key>(
    tree: BVH,
    objects: Seq<(usize, AABB)>,
    axis_range: F,
    centroid: C,
)
    requires
        tree.built_from(objects, axis_range, centroid),
    ensures
        forall|object: usize|
            tree.leaves().contains(object) <==> objects.map_values(
                |e: (usize, AABB)| e.0,
            ).contains(object),
{
    broadcast use group_to_multiset_ensures;

    lemma_leaves_are_entries(tree);
    let names = objects.map_values(|e: (usize, AABB)| e.0);
    assert forall|object: usize| tree.leaves().contains(object) implies names.contains(object) by {
        let k = tree.leaves().index_of(object);
        let e = tree.entries()[k];
        assert(tree.entries().to_multiset().count(e) > 0);
        assert(objects.contains(e));
        let j = objects.index_of(e);
        assert(names[j] == object);
    }
    assert forall|object: usize| names.contains(object) implies tree.leaves().contains(object) by {
        let j = names.index_of(object);
        let e = objects[j];
        assert(objects.to_multiset().count(e) > 0);
        assert(tree.entries().contains(e));
        let k = tree.entries().index_of(e);
        assert(tree.leaves()[k] == object);
    }
}

/// Whether the slab test grows with the box: whenever it finds a ray
/// inside a box within a window, it finds the ray inside every box that
/// encloses that box within the same window.
pub open spec fn grows_with_box<M: Fn(&Ray, &AABB) -> [Slab; 3]>(
    ray: Ray,
    measure: M,
    t_min: Key,
) -> bool {
    forall|inner: AABB, outer: AABB, seen: [Slab; 3], wider: [Slab; 3], end: Key|
        #![trigger measure.ensures((&ray, &inner), seen), measure.ensures((&ray, &outer), wider), slabs_overlap(seen, t_min, end)]
        outer.encloses(inner) && measure.ensures((&ray, &inner), seen) && measure.ensures(
            (&ray, &outer),
            wider,
        ) && slabs_overlap(seen, t_min, end) ==> slabs_overlap(wider, t_min, end)
}

/// Whether an object lies in its own box as the ray sees it: the ray can
/// be measured against the box, and whenever the object has its nearest
/// crossing before `end`, the slab test finds the ray inside the box
/// within the window that ends at `end`. This holds of a box that is as
/// tight as the object, where the ray enters the box at the crossing
/// itself: nothing is asked for the window that ends just there.
pub open spec fn lies_in_box<M: Fn(&Ray, &AABB) -> [Slab; 3]>(
    entry: (usize, AABB),
    ray: Ray,
    measure: M,
    t_min: Key,
    nearest: spec_fn(usize) -> Option<HitRecord>,
) -> bool {
    &&& exists|seen: [Slab; 3]| #[trigger] measure.ensures((&ray, &entry.1), seen)
    &&& forall|seen: [Slab; 3], end: Key|
        #![trigger measure.ensures((&ray, &entry.1), seen), crosses_before(nearest, entry.0, end)]
        measure.ensures((&ray, &entry.1), seen) && crosses_before(nearest, entry.0, end)
            ==> slabs_overlap(seen, t_min, end)
}

/// Whether every object of a list lies in its own box as the ray sees it.
pub open spec fn crossings_in_boxes<M: Fn(&Ray, &AABB) -> [Slab; 3]>(
    entries: Seq<(usize, AABB)>,
    ray: Ray,
    measure: M,
    t_min: Key,
    nearest: spec_fn(usize) -> Option<HitRecord>,
) -> bool {
    forall|k: int|
        0 <= k < entries.len() ==> lies_in_box(#[trigger] entries[k], ray, measure, t_min, nearest)
}

/// The boxes of a well-formed hierarchy are conservative for a ray as soon
/// as every object lies in its own box and the slab test grows with the
/// box.
pub proof fn lemma_boxes_are_conservative<M: Fn(&Ray, &AABB) -> [Slab; 3]>(
    tree: BVH,
    ray: Ray,
    measure: M,
    t_min: Key,
    nearest: spec_fn(usize) -> Option<HitRecord>,
)
    requires
        tree.wf(),
        grows_with_box(ray, measure, t_min),
        crossings_in_boxes(tree.entries(), ray, measure, t_min, nearest),
    ensures
        tree.encloses_crossings(ray, measure, t_min, nearest),
    decreases tree,
{
    lemma_leaves_are_entries(tree);
    lemma_node_encloses_entries(tree);
    let entries = tree.entries();
    assert forall|slabs: [Slab; 3], end: Key, k: int|
        #![trigger measure.ensures((&ray, &tree.bbox), slabs), crosses_before(nearest, tree.leaves()[k], end)]
        measure.ensures((&ray, &tree.bbox), slabs) && 0 <= k < tree.leaves().len()
            && crosses_before(nearest, tree.leaves()[k], end) implies slabs_overlap(
        slabs,
        t_min,
        end,
    ) by {
        assert(lies_in_box(entries[k], ray, measure, t_min, nearest));
        let seen = choose|seen: [Slab; 3]| #[trigger] measure.ensures((&ray, &entries[k].1), seen);
        assert(crosses_before(nearest, entries[k].0, end));
        assert(slabs_overlap(seen, t_min, end));
        assert(tree.bbox.encloses(entries[k].1));
    }
    match tree.contents {
        BVHContents::Leaf(_) => {},
        BVHContents::Node { left, right } => {
            let l = left.entries();
            let r = right.entries();
            assert forall|k: int| 0 <= k < l.len() implies lies_in_box(
                #[trigger] l[k],
                ray,
                measure,
                t_min,
                nearest,
            ) by {
                assert(l[k] == entries[k]);
            }
            assert forall|k: int| 0 <= k < r.len() implies lies_in_box(
                #[trigger] r[k],
                ray,
                measure,
                t_min,
                nearest,
            ) by {
                assert(r[k] == entries[l.len() + k]);
            }
            lemma_boxes_are_conservative(*left, ray, measure, t_min, nearest);
            lemma_boxes_are_conservative(*right, ray, measure, t_min, nearest);
        },
    }
}

/// A hierarchy built from a list of objects agrees with the linear scan
/// of that list. For one ray and one window that ends at no crossing, as
/// a window without end does, let every object answer with its nearest
/// crossing, whether the end of a window belongs to the window for it or
/// not, and lie in its own box as the ray sees it, be the box ever so
/// tight; and let the slab test grow with the box. Then a search of the
/// hierarchy finds a crossing exactly when the scan does, and both
/// crossings lie equally far along the ray, also where several objects
/// are met equally far. Where the objects that are met nearest all show
/// one record, the two records are the same in every field, the material
/// included.
pub proof fn built_bvh_matches_linear_scan<
    F: Fn(&AABB, Axis) -> Key,
    C: Fn(&AABB, Axis) -> Key,
    M: Fn(&Ray, &AABB) -> [Slab; 3],
    L: Fn(&Ray, usize, Key, Key) -> Option<HitRecord>,
>(
    tree: BVH,
    objects: Seq<(usize, AABB)>,
    axis_range: F,
    centroid: C,
    ray: Ray,
    measure: M,
    hit_object: L,
    t_min: Key,
    t_max: Key,
    nearest: spec_fn(usize) -> Option<HitRecord>,
    closed: spec_fn(usize) -> bool,
    via_tree: Option<HitRecord>,
    via_scan: Option<HitRecord>,
)
    requires
        tree.built_from(objects, axis_range, centroid),
        answers_nearest(hit_object, ray, t_min, nearest, closed),
        ends_at_no_crossing(objects.map_values(|e: (usize, AABB)| e.0), nearest, t_max),
        grows_with_box(ray, measure, t_min),
        crossings_in_boxes(objects, ray, measure, t_min, nearest),
        tree.searched(ray, measure, hit_object, t_min, t_max, via_tree),
        scanned(
            objects.map_values(|e: (usize, AABB)| e.0),
            ray,
            hit_object,
            t_min,
            t_max,
            via_scan,
        ),
    ensures
        via_tree is None <==> via_scan is None,
        via_tree is Some ==> via_tree->0.t == via_scan->0.t,
        nearest_is_one(
            objects.map_values(|e: (usize, AABB)| e.0),
            nearest,
            closed,
            t_max,
            via_scan,
        ) ==> via_tree == via_scan,
{
    broadcast use group_to_multiset_ensures;

    let names = objects.map_values(|e: (usize, AABB)| e.0);
    let entries = tree.entries();
    assert forall|k: int| 0 <= k < entries.len() implies lies_in_box(
        #[trigger] entries[k],
        ray,
        measure,
        t_min,
        nearest,
    ) by {
        let e = entries[k];
        assert(entries.to_multiset().count(e) > 0);
        assert(objects.contains(e));
        let j = objects.index_of(e);
        assert(lies_in_box(objects[j], ray, measure, t_min, nearest));
    }
    lemma_boxes_are_conservative(tree, ray, measure, t_min, nearest);
    lemma_built_holds_objects(tree, objects, axis_range, centroid);
    bvh_hit_matches_linear_scan(
        tree,
        names,
        ray,
        measure,
        hit_object,
        t_min,
        t_max,
        nearest,
        closed,
        via_tree,
        via_scan,
    );
}

} // verus!
