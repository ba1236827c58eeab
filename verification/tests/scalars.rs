use weekend_tracer_rs::onb::ONB;
use weekend_tracer_rs::renderer::T_MIN;
use weekend_tracer_rs::texture::image::texel;
use weekend_tracer_rs::util::{
    above, at_least, at_most, below, clamp, from_bits, max, min, negate, number, to_bits, INFINITY,
    MAX, MIN, ONE, ZERO,
};
use weekend_tracer_rs::vec3::{Axis, Channel, Vec3};

/// The key of a number: its magnitude pattern, negative for a negative
/// number.
fn key(x: f32) -> i32 {
    from_bits(x.to_bits())
}

fn vec3(x: f32, y: f32, z: f32) -> Vec3 {
    Vec3::new(key(x), key(y), key(z))
}

#[test]
fn macro_invocation() {
    assert_eq!(vec3(4.0, 2.0, 1.0), Vec3(key(4.0), key(2.0), key(1.0)));
    assert_eq!(vec3(3.5, 64.2, -13.0), Vec3(key(3.5), key(64.2), key(-13.0)));
    assert_eq!(vec3(0.0, 0.0, 0.0), Vec3(key(0.0), key(0.0), key(0.0)));
    assert_eq!(vec3(-1.1, 0.0, 0.0), Vec3(key(-1.1), key(0.0), key(0.0)));
    assert_eq!(vec3(20.3, -5.6, 0.0), Vec3(key(20.3), key(-5.6), key(0.0)));
}

#[test]
#[allow(clippy::approx_constant)]
fn neg() {
    assert_eq!(vec3(6.0, -5.5, 3.14159).neg(), vec3(-6.0, 5.5, -3.14159));
}

#[test]
fn named_keys_are_the_keys_of_their_numbers() {
    assert_eq!(ZERO, key(0.0));
    assert_eq!(ZERO, key(-0.0));
    assert_eq!(ONE, key(1.0));
    assert_eq!(INFINITY, key(f32::INFINITY));
    assert_eq!(MAX, key(f32::MAX));
    assert_eq!(MIN, key(f32::MIN));
    assert_eq!(T_MIN, key(0.001));
    assert_eq!(ONE, 1_065_353_216);
    assert_eq!(T_MIN, 981_668_463);
}

#[test]
fn a_pattern_and_its_key_give_each_other() {
    assert_eq!(from_bits(0x0000_0000), 0);
    assert_eq!(from_bits(0x8000_0000), 0);
    assert_eq!(from_bits(0x3F80_0000), ONE);
    assert_eq!(from_bits(0xBF80_0000), -ONE);
    assert_eq!(from_bits(0x7FFF_FFFF), i32::MAX);
    assert_eq!(from_bits(0xFFFF_FFFF), -i32::MAX);
    assert_eq!(to_bits(0), 0);
    assert_eq!(to_bits(ONE), 0x3F80_0000);
    assert_eq!(to_bits(-ONE), 0xBF80_0000);
    assert_eq!(to_bits(i32::MAX), 0x7FFF_FFFF);
    assert_eq!(to_bits(-i32::MAX), 0xFFFF_FFFF);
    assert_eq!(to_bits(i32::MIN), 0x8000_0000);
    assert_eq!(to_bits(-1), 0x8000_0001);
    for &x in &[0.0f32, 1.0, -1.0, 0.001, -2.5e-40, 3.0e38, f32::INFINITY, f32::NEG_INFINITY] {
        assert_eq!(f32::from_bits(to_bits(from_bits(x.to_bits()))), x);
        assert_eq!(to_bits(from_bits(x.to_bits())), x.to_bits());
    }
    assert_eq!(to_bits(from_bits((-0.0f32).to_bits())), 0);
    assert!(f32::from_bits(to_bits(from_bits(f32::NAN.to_bits()))).is_nan());
}

#[test]
fn a_key_beyond_infinity_stands_for_no_number() {
    for &x in &[0.0f32, -0.0, 1.0, -2.5, f32::MAX, f32::MIN, f32::INFINITY, f32::NEG_INFINITY] {
        assert!(number(key(x)));
    }
    assert!(!number(key(f32::NAN)));
    assert!(!number(key(-f32::NAN)));
    assert!(!number(key(0.0 * f32::INFINITY)));
    assert!(number(INFINITY));
    assert!(!number(INFINITY + 1));
    assert!(number(-INFINITY));
    assert!(!number(-INFINITY - 1));
    assert!(!number(i32::MAX));
    assert!(!number(i32::MIN));
}

#[test]
fn every_comparison_with_what_is_no_number_comes_out_false() {
    let numbers = [f32::NEG_INFINITY, -2.5, -0.0, 0.0, 1.0e-30, 1.0, f32::MAX, f32::INFINITY];
    for &a in &numbers {
        for &b in &numbers {
            assert_eq!(below(key(a), key(b)), a < b);
            assert_eq!(above(key(a), key(b)), a > b);
            assert_eq!(at_most(key(a), key(b)), a <= b);
            assert_eq!(at_least(key(a), key(b)), a >= b);
        }
        for &nan in &[f32::NAN, -f32::NAN] {
            for &(x, y) in &[(a, nan), (nan, a), (nan, nan), (nan, -nan)] {
                assert!(!below(key(x), key(y)));
                assert!(!above(key(x), key(y)));
                assert!(!at_most(key(x), key(y)));
                assert!(!at_least(key(x), key(y)));
            }
        }
    }
    // The other functions take the keys as the integers they are.
    assert_eq!(min(key(f32::NAN), key(1.0)), key(1.0));
    assert_eq!(min(key(-f32::NAN), key(1.0)), key(-f32::NAN));
    assert_eq!(max(key(f32::NAN), key(1.0)), key(f32::NAN));
    assert_eq!(clamp(key(f32::NAN), key(0.0), key(1.0)), key(1.0));
    assert_eq!(clamp(key(-f32::NAN), key(0.0), key(1.0)), key(0.0));
}

#[test]
fn keys_order_as_their_numbers_do() {
    let numbers = [
        f32::NEG_INFINITY,
        f32::MIN,
        -1.0e10,
        -2.5,
        -1.0,
        -1.0e-30,
        0.0,
        1.0e-30,
        0.001,
        0.5,
        0.999,
        1.0,
        3.0,
        1.0e10,
        f32::MAX,
        f32::INFINITY,
    ];
    for i in 0..numbers.len() {
        for j in 0..numbers.len() {
            assert_eq!(numbers[i] < numbers[j], key(numbers[i]) < key(numbers[j]));
            assert_eq!(numbers[i] == numbers[j], key(numbers[i]) == key(numbers[j]));
        }
    }
}

#[test]
fn clamp_holds_a_scalar_between_the_bounds() {
    assert_eq!(clamp(key(-3.0), key(-2.0), key(3.0)), key(-2.0));
    assert_eq!(clamp(key(1.0), key(-2.0), key(3.0)), key(1.0));
    assert_eq!(clamp(key(5.0), key(-2.0), key(3.0)), key(3.0));
    assert_eq!(clamp(key(-2.0), key(-2.0), key(3.0)), key(-2.0));
    assert_eq!(clamp(key(3.0), key(-2.0), key(3.0)), key(3.0));
}

#[test]
fn clamp_with_crossed_bounds_prefers_the_lower_bound_below_it() {
    assert_eq!(clamp(1, 5, 3), 5);
    assert_eq!(clamp(7, 5, 3), 3);
    assert_eq!(clamp(5, 5, 3), 3);
}

#[test]
fn min_and_max_pick_by_order() {
    assert_eq!(min(key(-1.5), key(2.0)), key(-1.5));
    assert_eq!(max(key(-1.5), key(2.0)), key(2.0));
    assert_eq!(min(4, 4), 4);
    assert_eq!(max(4, 4), 4);
    assert_eq!(min(key(0.25), key(0.125)), key(0.125));
    assert_eq!(max(key(-0.25), key(-0.125)), key(-0.125));
}

#[test]
fn negate_flips_the_sign_and_nothing_else() {
    assert_eq!(negate(key(2.5)), key(-2.5));
    assert_eq!(negate(key(-2.5)), key(2.5));
    assert_eq!(negate(ZERO), ZERO);
    assert_eq!(negate(INFINITY), key(f32::NEG_INFINITY));
    assert_eq!(negate(MAX), MIN);
    assert_eq!(negate(i32::MAX), -i32::MAX);
    assert_eq!(negate(i32::MIN), i32::MIN);
}

#[test]
fn a_triple_is_read_by_axis_channel_and_number() {
    let v = vec3(1.0, 2.0, 3.0);
    assert_eq!(v.axis(Axis::X), key(1.0));
    assert_eq!(v.axis(Axis::Y), key(2.0));
    assert_eq!(v.axis(Axis::Z), key(3.0));
    assert_eq!(v.channel(Channel::R), key(1.0));
    assert_eq!(v.channel(Channel::G), key(2.0));
    assert_eq!(v.channel(Channel::B), key(3.0));
    assert_eq!(v.index(0), key(1.0));
    assert_eq!(v.index(1), key(2.0));
    assert_eq!(v.index(2), key(3.0));
}

#[test]
fn from_broadcasts_one_scalar() {
    assert_eq!(Vec3::from(key(7.0)), vec3(7.0, 7.0, 7.0));
    assert_eq!(Vec3::from(MIN), Vec3(MIN, MIN, MIN));
}

#[test]
fn neg_of_a_triple_with_the_least_integer_keeps_that_lane() {
    assert_eq!(Vec3(i32::MIN, 1, -1).neg(), Vec3(i32::MIN, -1, 1));
}

#[test]
fn the_default_basis_is_that_of_the_axes() {
    let basis = ONB::default();
    assert_eq!(basis.u, vec3(1.0, 0.0, 0.0));
    assert_eq!(basis.v, vec3(0.0, 1.0, 0.0));
    assert_eq!(basis.w, vec3(0.0, 0.0, 1.0));
    assert_eq!(basis.index(0), basis.u);
    assert_eq!(basis.index(1), basis.v);
    assert_eq!(basis.index(2), basis.w);
}

#[test]
fn texel_stays_inside_the_image() {
    assert_eq!(texel(0, 0, 4, 3), (0, 0));
    assert_eq!(texel(3, 2, 4, 3), (3, 2));
    assert_eq!(texel(4, 3, 4, 3), (3, 2));
    assert_eq!(texel(100, 1, 4, 3), (3, 1));
    assert_eq!(texel(2, u32::MAX, 4, 3), (2, 2));
    assert_eq!(texel(5, 5, 1, 1), (0, 0));
}
