use rand::rngs::StdRng;
use rand::{Rng, SeedableRng};
use std::cell::RefCell;
use weekend_tracer_rs::aabb::{Slab, AABB};
use weekend_tracer_rs::bvh::{BVHContents, BVHError, BVH};
use weekend_tracer_rs::hittable::aa_rect::{Landing, Reach, XYRect};
use weekend_tracer_rs::hittable::sphere::{Quadratic, Sphere};
use weekend_tracer_rs::hittable::world::World;
use weekend_tracer_rs::hittable::{HitRecord, Surface};
use weekend_tracer_rs::material::Material;
use weekend_tracer_rs::ray::Ray;
use weekend_tracer_rs::texture::Texture;
use weekend_tracer_rs::util::{from_bits, to_bits};
use weekend_tracer_rs::vec3::{Axis, Vec3};

fn key(x: f32) -> i32 {
    from_bits(x.to_bits())
}

fn val(k: i32) -> f32 {
    f32::from_bits(to_bits(k))
}

fn vec3(x: f32, y: f32, z: f32) -> Vec3 {
    Vec3::new(key(x), key(y), key(z))
}

fn lanes(v: &Vec3) -> [f32; 3] {
    [val(v.0), val(v.1), val(v.2)]
}

fn triple(v: [f32; 3]) -> Vec3 {
    vec3(v[0], v[1], v[2])
}

fn dot(a: [f32; 3], b: [f32; 3]) -> f32 {
    a[0] * b[0] + a[1] * b[1] + a[2] * b[2]
}

fn sub(a: [f32; 3], b: [f32; 3]) -> [f32; 3] {
    [a[0] - b[0], a[1] - b[1], a[2] - b[2]]
}

fn axis_range(b: &AABB, axis: Axis) -> i32 {
    b.axis_range(axis, &|hi: i32, lo: i32| key(val(hi) - val(lo)))
}

fn centroid(b: &AABB, axis: Axis) -> i32 {
    key(val(b.min.axis(axis)) + val(b.max.axis(axis)))
}

fn measure(ray: &Ray, bbox: &AABB) -> [Slab; 3] {
    let origin = lanes(&ray.origin);
    let direction = lanes(&ray.direction);
    let min = lanes(&bbox.min);
    let max = lanes(&bbox.max);
    let mut slabs = [Slab { t0: 0, t1: 0, reversed: false }; 3];
    for i in 0..3 {
        let inv_d = 1.0 / direction[i];
        slabs[i] = Slab {
            t0: key((min[i] - origin[i]) * inv_d),
            t1: key((max[i] - origin[i]) * inv_d),
            reversed: inv_d < 0.0,
        };
    }
    slabs
}

fn solve(sphere: &Sphere, ray: &Ray) -> Quadratic {
    let oc = sub(lanes(&ray.origin), lanes(&sphere.center));
    let d = lanes(&ray.direction);
    let a = dot(d, d);
    let half_b = dot(oc, d);
    let c = dot(oc, oc) - val(sphere.radius) * val(sphere.radius);
    let discriminant = half_b * half_b - a * c;
    let root = discriminant.sqrt();
    Quadratic {
        discriminant: key(discriminant),
        solution_1: key((-half_b - root) / a),
        solution_2: key((-half_b + root) / a),
    }
}

fn surface(sphere: &Sphere, ray: &Ray, t: i32) -> Surface {
    let o = lanes(&ray.origin);
    let d = lanes(&ray.direction);
    let t = val(t);
    let p = [o[0] + t * d[0], o[1] + t * d[1], o[2] + t * d[2]];
    let r = val(sphere.radius);
    let c = lanes(&sphere.center);
    let n = [(p[0] - c[0]) / r, (p[1] - c[1]) / r, (p[2] - c[2]) / r];
    Surface { hit_point: triple(p), outward_normal: triple(n), facing: key(dot(d, n)), uv: (0, 0) }
}

/// The box of a sphere, padded a little so that no crossing falls outside
/// it by rounding.
fn box_of(sphere: &Sphere) -> AABB {
    let c = lanes(&sphere.center);
    let r = val(sphere.radius) * 1.001 + 0.001;
    AABB::new(vec3(c[0] - r, c[1] - r, c[2] - r), vec3(c[0] + r, c[1] + r, c[2] + r))
}

fn unit_box(x: f32, y: f32, z: f32) -> AABB {
    AABB::new(vec3(x, y, z), vec3(x + 1.0, y + 1.0, z + 1.0))
}

fn with_boxes(objects: Vec<(usize, AABB)>) -> Vec<(usize, Option<AABB>)> {
    objects.into_iter().map(|(object, bbox)| (object, Some(bbox))).collect()
}

fn build(objects: Vec<(usize, AABB)>) -> BVH {
    BVH::new(with_boxes(objects), &axis_range, &centroid).unwrap()
}

fn leaves(tree: &BVH) -> Vec<usize> {
    match &tree.contents {
        BVHContents::Leaf(object) => vec![*object],
        BVHContents::Node { left, right } => {
            let mut all = leaves(left);
            all.extend(leaves(right));
            all
        }
    }
}

/// Checks the sizes and boxes of every node against its children and
/// returns the boxes of the leaves.
fn check_shape(tree: &BVH, boxes: &[AABB]) {
    match &tree.contents {
        BVHContents::Leaf(object) => {
            assert_eq!(tree.size, 1);
            assert_eq!(tree.bbox, boxes[*object]);
        }
        BVHContents::Node { left, right } => {
            assert_eq!(tree.size, left.size + right.size);
            assert_eq!(left.size, tree.size / 2);
            assert_eq!(tree.bbox, AABB::surrounding_box(left.bbox, right.bbox));
            // No object on the left lies beyond any on the right along the
            // longest axis of the node's box.
            let axis = tree.bbox.longest_axis(&axis_range);
            let reach = |side: &BVH| -> Vec<f32> {
                leaves(side).iter().map(|&i| val(centroid(&boxes[i], axis))).collect()
            };
            let highest_left = reach(left).into_iter().fold(f32::MIN, f32::max);
            let lowest_right = reach(right).into_iter().fold(f32::MAX, f32::min);
            assert!(highest_left <= lowest_right);
            check_shape(left, boxes);
            check_shape(right, boxes);
        }
    }
}

#[test]
fn no_hierarchy_is_built_from_no_objects() {
    let r = BVH::new(Vec::new(), &axis_range, &centroid);
    assert_eq!(r.err(), Some(BVHError::InvalidInput));
}

#[test]
fn one_object_makes_a_leaf() {
    let b = unit_box(1.0, 2.0, 3.0);
    let tree = build(vec![(42, b)]);
    assert_eq!(tree.size, 1);
    assert_eq!(tree.bbox, b);
    assert!(matches!(tree.contents, BVHContents::Leaf(42)));
    assert_eq!(tree.bounding_box(key(0.0), key(1.0)), Some(b));
}

#[test]
fn objects_are_divided_along_the_longest_axis() {
    // Spread along y; given out of order.
    let ys = [30.0, 10.0, 50.0, 20.0, 40.0];
    let boxes: Vec<AABB> = ys.iter().map(|&y| unit_box(0.0, y, 0.5)).collect();
    let tree = build(boxes.iter().cloned().enumerate().collect());
    assert_eq!(tree.size, 5);
    assert_eq!(tree.bbox, AABB::new(vec3(0.0, 10.0, 0.5), vec3(1.0, 51.0, 1.5)));
    check_shape(&tree, &boxes);
    // In order of y the objects are 1, 3, 0, 4, 2.
    assert_eq!(leaves(&tree), vec![1, 3, 0, 4, 2]);
    match &tree.contents {
        BVHContents::Node { left, right } => {
            assert_eq!(left.size, 2);
            assert_eq!(right.size, 3);
        }
        BVHContents::Leaf(_) => panic!("five objects cannot make a leaf"),
    }
}

#[test]
fn each_node_picks_its_own_axis() {
    // Two clusters far apart along x; within each the objects spread along z.
    let boxes = vec![
        unit_box(0.0, 0.0, 9.0),
        unit_box(100.0, 0.0, 3.0),
        unit_box(0.0, 0.0, 1.0),
        unit_box(100.0, 0.0, 8.0),
    ];
    let tree = build(boxes.iter().cloned().enumerate().collect());
    check_shape(&tree, &boxes);
    assert_eq!(leaves(&tree), vec![2, 0, 1, 3]);
}

#[test]
fn a_hierarchy_holds_every_object_once() {
    let mut rng = StdRng::seed_from_u64(3);
    for n in 1..40 {
        let boxes: Vec<AABB> = (0..n)
            .map(|_| {
                unit_box(
                    rng.gen_range(-50.0f32, 50.0),
                    rng.gen_range(-5.0f32, 5.0),
                    rng.gen_range(-20.0f32, 20.0),
                )
            })
            .collect();
        // Objects keep the names that they are given.
        let objects: Vec<(usize, AABB)> =
            boxes.iter().cloned().enumerate().map(|(i, b)| (i + 100, b)).collect();
        let tree = BVH::new(with_boxes(objects), &axis_range, &centroid).unwrap();
        assert_eq!(tree.size, n);
        let mut held = leaves(&tree);
        held.sort_unstable();
        assert_eq!(held, (100..100 + n).collect::<Vec<usize>>());
        let shifted: Vec<AABB> =
            std::iter::repeat(boxes[0]).take(100).chain(boxes.iter().cloned()).collect();
        check_shape(&tree, &shifted);
    }
}

#[test]
fn objects_in_one_place_are_still_all_held() {
    let b = unit_box(0.0, 0.0, 0.0);
    let tree = build(vec![(0, b), (1, b), (2, b), (3, b), (4, b), (5, b), (6, b)]);
    assert_eq!(tree.size, 7);
    assert_eq!(tree.bbox, b);
    let mut held = leaves(&tree);
    held.sort_unstable();
    assert_eq!(held, vec![0, 1, 2, 3, 4, 5, 6]);
}

#[test]
fn an_object_without_a_box_is_held_and_never_passed_over() {
    let spheres: Vec<Sphere> = (0..5)
        .map(|i| Sphere::new(vec3(10.0 * i as f32, 0.0, 0.0), key(1.0), Material::lambertian(Texture(i))))
        .collect();
    // The third sphere comes without a box.
    let objects: Vec<(usize, Option<AABB>)> = spheres
        .iter()
        .enumerate()
        .map(|(i, sphere)| (i, if i == 2 { None } else { Some(box_of(sphere)) }))
        .collect();
    let tree = BVH::new(objects, &axis_range, &centroid).unwrap();
    assert_eq!(tree.size, 5);
    let mut held = leaves(&tree);
    held.sort_unstable();
    assert_eq!(held, vec![0, 1, 2, 3, 4]);
    let all_space = AABB::everywhere();
    assert_eq!(all_space.min, vec3(f32::NEG_INFINITY, f32::NEG_INFINITY, f32::NEG_INFINITY));
    assert_eq!(all_space.max, vec3(f32::INFINITY, f32::INFINITY, f32::INFINITY));
    assert_eq!(tree.bbox, all_space);
    let hit_object =
        |ray: &Ray, object: usize, lo: i32, hi: i32| spheres[object].hit(ray, &solve, &surface, lo, hi);
    for i in 0..5 {
        let ray = Ray::new(vec3(10.0 * i as f32, 0.25, -5.0), vec3(0.0, 0.0, 1.0), key(0.0));
        let rec = tree.hit(&ray, &measure, &hit_object, key(0.001), key(f32::INFINITY)).unwrap();
        assert_eq!(rec.material, Material::lambertian(Texture(i)));
    }
    // Alone it makes a leaf with the box of all space.
    let alone = BVH::new(vec![(7, None)], &axis_range, &centroid).unwrap();
    assert!(matches!(alone.contents, BVHContents::Leaf(7)));
    assert_eq!(alone.bbox, all_space);
}

#[test]
fn a_hierarchy_and_a_scan_agree_on_rectangles_at_the_end_of_the_window() {
    let rects: Vec<XYRect> = (1..5)
        .map(|i| {
            XYRect::new(key(-1.0), key(1.0), key(-1.0), key(1.0), key(i as f32), Material::lambertian(Texture(i)))
        })
        .collect();
    let reach = |rect: &XYRect, ray: &Ray| {
        let o = lanes(&ray.origin);
        let d = lanes(&ray.direction);
        let t = (val(rect.k) - o[2]) / d[2];
        Reach { t: key(t), a: key(o[0] + t * d[0]), b: key(o[1] + t * d[1]) }
    };
    let land = |_: &XYRect, ray: &Ray, p: Reach| {
        let o = lanes(&ray.origin);
        let d = lanes(&ray.direction);
        let t = val(p.t);
        Landing { hit_point: vec3(o[0] + t * d[0], o[1] + t * d[1], o[2] + t * d[2]), facing: key(d[2]), uv: (0, 0) }
    };
    let boxes: Vec<(usize, AABB)> = rects
        .iter()
        .enumerate()
        .map(|(i, rect)| {
            let k = val(rect.k);
            (i, AABB::new(vec3(-1.0, -1.0, k - 0.0001), vec3(1.0, 1.0, k + 0.0001)))
        })
        .collect();
    let tree = build(boxes);
    let world = World::new(vec![0, 1, 2, 3]);
    let hit_object =
        |ray: &Ray, object: usize, lo: i32, hi: i32| rects[object].hit(ray, &reach, &land, lo, hi);
    let ray = Ray::new(vec3(0.0, 0.0, 0.0), vec3(0.0, 0.0, 1.0), key(0.0));
    for &(lo, hi, expected) in &[
        (0.001, 10.0, Some(1.0)),
        (0.001, 1.0, Some(1.0)),
        (1.0, 10.0, Some(1.0)),
        (1.5, 2.0, Some(2.0)),
        (4.0, 9.0, Some(4.0)),
        (4.5, 9.0, None),
        (0.001, 0.5, None),
    ] {
        let via_tree = tree.hit(&ray, &measure, &hit_object, key(lo), key(hi));
        let via_scan = world.hit(&ray, &hit_object, key(lo), key(hi));
        assert_eq!(via_scan.map(|rec| val(rec.t)), expected);
        assert_eq!(via_tree, via_scan);
    }
}

/// The box of a sphere, as tight as the sphere.
fn tight_box_of(sphere: &Sphere) -> AABB {
    let c = lanes(&sphere.center);
    let r = val(sphere.radius);
    AABB::new(vec3(c[0] - r, c[1] - r, c[2] - r), vec3(c[0] + r, c[1] + r, c[2] + r))
}

#[test]
fn a_hierarchy_and_a_scan_agree_on_objects_met_on_the_faces_of_their_boxes() {
    // Spheres in tight boxes along the axes, met by rays along the axes.
    let spheres: Vec<Sphere> = [
        [0.0, 0.0, -3.0],
        [0.0, 0.0, -7.0],
        [0.0, 0.0, 5.0],
        [4.0, 0.0, 0.0],
        [-6.0, 0.0, 0.0],
        [0.0, 9.0, 0.0],
    ]
    .iter()
    .enumerate()
    .map(|(i, c)| Sphere::new(triple(*c), key(1.0), Material::lambertian(Texture(i))))
    .collect();
    let tree = build(spheres.iter().map(tight_box_of).enumerate().collect());
    let world = World::new((0..spheres.len()).collect());
    let hit_object =
        |ray: &Ray, object: usize, lo: i32, hi: i32| spheres[object].hit(ray, &solve, &surface, lo, hi);
    for &(direction, object, t) in &[
        ([0.0, 0.0, -1.0], 0, 2.0),
        ([0.0, 0.0, 1.0], 2, 4.0),
        ([1.0, 0.0, 0.0], 3, 3.0),
        ([-1.0, 0.0, 0.0], 4, 5.0),
        ([0.0, 1.0, 0.0], 5, 8.0),
    ] {
        let ray = Ray::new(vec3(0.0, 0.0, 0.0), triple(direction), key(0.0));
        for &end in &[f32::INFINITY, 100.0, t + 0.5] {
            let via_tree = tree.hit(&ray, &measure, &hit_object, key(0.001), key(end));
            let via_scan = world.hit(&ray, &hit_object, key(0.001), key(end));
            assert_eq!(via_scan.map(|rec| (val(rec.t), rec.material)), Some((t, Material::lambertian(Texture(object)))));
            assert_eq!(via_tree, via_scan);
        }
    }
    let down = Ray::new(vec3(0.0, 0.0, 0.0), vec3(0.0, -1.0, 0.0), key(0.0));
    assert!(tree.hit(&down, &measure, &hit_object, key(0.001), key(f32::INFINITY)).is_none());
    assert!(world.hit(&down, &hit_object, key(0.001), key(f32::INFINITY)).is_none());
}

#[test]
fn a_window_that_ends_where_the_ray_enters_a_box_is_shut_for_the_hierarchy() {
    // The crossing at 2 lies on the face of the tight box. The sphere
    // holds the end of the window, the slab test does not.
    let spheres = vec![Sphere::new(vec3(0.0, 0.0, -3.0), key(1.0), Material::lambertian(Texture(0)))];
    let tree = build(spheres.iter().map(tight_box_of).enumerate().collect());
    let hit_object =
        |ray: &Ray, object: usize, lo: i32, hi: i32| spheres[object].hit(ray, &solve, &surface, lo, hi);
    let ray = Ray::new(vec3(0.0, 0.0, 0.0), vec3(0.0, 0.0, -1.0), key(0.0));
    let via_scan = World::new(vec![0]).hit(&ray, &hit_object, key(0.001), key(2.0));
    assert_eq!(via_scan.map(|rec| val(rec.t)), Some(2.0));
    assert!(tree.hit(&ray, &measure, &hit_object, key(0.001), key(2.0)).is_none());
    let beyond = tree.hit(&ray, &measure, &hit_object, key(0.001), key(2.0 + 1.0e-6));
    assert_eq!(beyond.map(|rec| val(rec.t)), Some(2.0));
}

#[test]
fn a_search_skips_what_lies_in_boxes_that_the_ray_misses() {
    let spheres: Vec<Sphere> = (0..8)
        .map(|i| Sphere::new(vec3(10.0 * i as f32, 0.0, 0.0), key(1.0), Material::lambertian(Texture(i))))
        .collect();
    let tree = build(spheres.iter().map(box_of).enumerate().collect());
    let asked = RefCell::new(Vec::new());
    let hit_object = |ray: &Ray, object: usize, lo: i32, hi: i32| {
        asked.borrow_mut().push(object);
        spheres[object].hit(ray, &solve, &surface, lo, hi)
    };
    let ray = Ray::new(vec3(30.0, 0.0, -5.0), vec3(0.0, 0.0, 1.0), key(0.0));
    let rec = tree.hit(&ray, &measure, &hit_object, key(0.001), key(f32::INFINITY)).unwrap();
    assert_eq!(rec.t, key(4.0));
    assert_eq!(rec.material, Material::lambertian(Texture(3)));
    assert_eq!(asked.into_inner(), vec![3]);
}

#[test]
fn a_search_that_meets_nothing_finds_nothing() {
    let spheres: Vec<Sphere> = (0..8)
        .map(|i| Sphere::new(vec3(10.0 * i as f32, 0.0, 0.0), key(1.0), Material::lambertian(Texture(i))))
        .collect();
    let tree = build(spheres.iter().map(box_of).enumerate().collect());
    let hit_object =
        |ray: &Ray, object: usize, lo: i32, hi: i32| spheres[object].hit(ray, &solve, &surface, lo, hi);
    let up = Ray::new(vec3(30.0, 5.0, -5.0), vec3(0.0, 1.0, 0.0), key(0.0));
    assert!(tree.hit(&up, &measure, &hit_object, key(0.001), key(f32::INFINITY)).is_none());
    let short = Ray::new(vec3(30.0, 0.0, -5.0), vec3(0.0, 0.0, 1.0), key(0.0));
    assert!(tree.hit(&short, &measure, &hit_object, key(0.001), key(3.5)).is_none());
}

#[test]
fn the_nearer_of_two_objects_in_one_line_is_found_whichever_side_it_is_on() {
    let spheres = vec![
        Sphere::new(vec3(0.0, 0.0, 0.0), key(1.0), Material::lambertian(Texture(0))),
        Sphere::new(vec3(10.0, 0.0, 0.0), key(1.0), Material::lambertian(Texture(1))),
    ];
    let tree = build(spheres.iter().map(box_of).enumerate().collect());
    assert_eq!(leaves(&tree), vec![0, 1]);
    let hit_object =
        |ray: &Ray, object: usize, lo: i32, hi: i32| spheres[object].hit(ray, &solve, &surface, lo, hi);
    let forth = Ray::new(vec3(-5.0, 0.0, 0.0), vec3(1.0, 0.0, 0.0), key(0.0));
    let rec = tree.hit(&forth, &measure, &hit_object, key(0.001), key(f32::INFINITY)).unwrap();
    assert_eq!((rec.t, rec.material), (key(4.0), Material::lambertian(Texture(0))));
    let back = Ray::new(vec3(15.0, 0.0, 0.0), vec3(-1.0, 0.0, 0.0), key(0.0));
    let rec = tree.hit(&back, &measure, &hit_object, key(0.001), key(f32::INFINITY)).unwrap();
    assert_eq!((rec.t, rec.material), (key(4.0), Material::lambertian(Texture(1))));
}

#[test]
fn a_hierarchy_and_a_linear_scan_find_the_same_hit() {
    let mut rng = StdRng::seed_from_u64(2020);
    let mut hits = 0;
    for round in 0..60 {
        let n = 1 + round % 30;
        let spheres: Vec<Sphere> = (0..n)
            .map(|i| {
                Sphere::new(
                    vec3(
                        rng.gen_range(-10.0f32, 10.0),
                        rng.gen_range(-10.0f32, 10.0),
                        rng.gen_range(-10.0f32, 10.0),
                    ),
                    key(rng.gen_range(0.2f32, 2.5)),
                    Material::lambertian(Texture(i)),
                )
            })
            .collect();
        let tree = build(spheres.iter().map(box_of).enumerate().collect());
        let world = World::new((0..n).collect());
        let hit_object = |ray: &Ray, object: usize, lo: i32, hi: i32| {
            spheres[object].hit(ray, &solve, &surface, lo, hi)
        };
        for _ in 0..50 {
            let from = [
                rng.gen_range(-15.0f32, 15.0),
                rng.gen_range(-15.0f32, 15.0),
                rng.gen_range(-15.0f32, 15.0),
            ];
            let towards = lanes(&spheres[rng.gen_range(0, n)].center);
            let aim = [
                towards[0] + rng.gen_range(-3.0f32, 3.0),
                towards[1] + rng.gen_range(-3.0f32, 3.0),
                towards[2] + rng.gen_range(-3.0f32, 3.0),
            ];
            let ray = Ray::new(triple(from), triple(sub(aim, from)), key(0.0));
            let t_max = if rng.gen::<bool>() { f32::INFINITY } else { rng.gen_range(0.1f32, 2.0) };
            let via_tree: Option<HitRecord> =
                tree.hit(&ray, &measure, &hit_object, key(0.001), key(t_max));
            let via_scan = world.hit(&ray, &hit_object, key(0.001), key(t_max));
            assert_eq!(via_tree, via_scan);
            if via_tree.is_some() {
                hits += 1;
            }
        }
    }
    assert!(hits > 500);
}
