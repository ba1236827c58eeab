//! Scalar keys and the helpers that need only their order.

use vstd::prelude::*;

verus! {

/// A scalar. The key of a binary32 number is its magnitude pattern, taken
/// negative for a negative number, so keys compare exactly as the numbers
/// they stand for and both zeros share the key `0`.
///
/// A key beyond `INFINITY`, or below its opposite, stands for no number.
/// As integers such keys lie beyond all numbers. Among the numbers
/// themselves every comparison with what is no number comes out false; the
/// comparisons `below`, `above`, `at_most` and `at_least` do the same, and
/// whatever decides by comparing scalars decides by them. `min`, `max`,
/// `clamp` and `negate` take the keys as the integers they are, and say so.
pub type Key = i32;

/// The key that belongs to a binary32 pattern: the pattern without its
/// sign bit, taken negative where the sign bit is set.
pub open spec fn key_of(bits: u32) -> Key {
    if bits >> 31 == 1 {
        (-((bits & 0x7FFF_FFFF) as int)) as Key
    } else {
        (bits & 0x7FFF_FFFF) as Key
    }
}

/// The binary32 pattern that belongs to a key: its magnitude, with the
/// sign bit set for a negative key.
pub open spec fn bits_of(k: Key) -> u32 {
    if k >= 0 {
        k as u32
    } else {
        ((-(k as int)) as u32 & 0x7FFF_FFFF) | 0x8000_0000
    }
}

/// Gives the key of the number with the given binary32 pattern.
pub fn from_bits(bits: u32) -> (k: Key)
    ensures
        k == key_of(bits),
        -0x7FFF_FFFF <= k <= 0x7FFF_FFFF,
{
    let magnitude = bits & 0x7FFF_FFFF;
    assert(magnitude <= 0x7FFF_FFFF) by (bit_vector)
        requires
            magnitude == bits & 0x7FFF_FFFF,
    ;
    if bits >> 31 == 1 {
        -(magnitude as i32)
    } else {
        magnitude as i32
    }
}

/// Gives the binary32 pattern of the number that a key stands for. The
/// key of zero gives the pattern of positive zero.
pub fn to_bits(k: Key) -> (bits: u32)
    ensures
        bits == bits_of(k),
        k != i32::MIN ==> key_of(bits) == k,
{
    if k >= 0 {
        let bits = k as u32;
        assert(bits >> 31 != 1 && bits & 0x7FFF_FFFF == bits) by (bit_vector)
            requires
                bits <= 0x7FFF_FFFF,
        ;
        bits
    } else {
        let magnitude = (-(k as i64)) as u32;
        let bits = (magnitude & 0x7FFF_FFFF) | 0x8000_0000;
        assert(bits >> 31 == 1 && (magnitude <= 0x7FFF_FFFF ==> bits & 0x7FFF_FFFF == magnitude))
            by (bit_vector)
            requires
                bits == (magnitude & 0x7FFF_FFFF) | 0x8000_0000,
        ;
        bits
    }
}

/// A pattern comes back from its key unchanged, but for the pattern of
/// negative zero, which comes back as that of positive zero.
pub proof fn pattern_comes_back(bits: u32)
    ensures
        bits != 0x8000_0000 ==> bits_of(key_of(bits)) == bits,
        bits_of(key_of(0x8000_0000)) == 0,
{
    let magnitude = bits & 0x7FFF_FFFF;
    assert(magnitude <= 0x7FFF_FFFF && (bits >> 31 == 1 || bits >> 31 == 0) && (bits >> 31 == 1
        ==> bits == magnitude | 0x8000_0000) && (bits >> 31 == 0 ==> bits == magnitude) && (
    magnitude & 0x7FFF_FFFF) == magnitude && (bits != 0x8000_0000 && bits >> 31 == 1 ==> magnitude
        != 0)) by (bit_vector)
        requires
            magnitude == bits & 0x7FFF_FFFF,
    ;
    assert(0x8000_0000u32 >> 31 == 1 && 0x8000_0000u32 & 0x7FFF_FFFF == 0) by (bit_vector);
}

/// Keys order as numbers do. Of two patterns without a sign bit the
/// greater has the greater key; of two with it, the lesser; and no key of
/// a pattern with a sign bit lies above the key of one without.
pub proof fn keys_order_as_numbers(a: u32, b: u32)
    ensures
        a >> 31 == 0 && b >> 31 == 0 ==> (key_of(a) < key_of(b) <==> a < b),
        a >> 31 == 1 && b >> 31 == 1 ==> (key_of(a) < key_of(b) <==> a > b),
        a >> 31 == 1 && b >> 31 == 0 ==> key_of(a) <= key_of(b),
{
    let ma = a & 0x7FFF_FFFF;
    let mb = b & 0x7FFF_FFFF;
    assert(ma <= 0x7FFF_FFFF && (a >> 31 == 0 ==> ma == a) && (a >> 31 == 1 ==> a == ma
        + 0x8000_0000)) by (bit_vector)
        requires
            ma == a & 0x7FFF_FFFF,
    ;
    assert(mb <= 0x7FFF_FFFF && (b >> 31 == 0 ==> mb == b) && (b >> 31 == 1 ==> b == mb
        + 0x8000_0000)) by (bit_vector)
        requires
            mb == b & 0x7FFF_FFFF,
    ;
}

/// The key of zero.
pub const ZERO: Key = 0;

/// The key of one half.
pub const HALF: Key = 0x3F00_0000;

/// The key of one.
pub const ONE: Key = 0x3F80_0000;

/// The key of positive infinity.
pub const INFINITY: Key = 0x7F80_0000;

/// The key of the largest finite scalar.
pub const MAX: Key = 0x7F7F_FFFF;

/// The key of the smallest (most negative) finite scalar.
pub const MIN: Key = -0x7F7F_FFFF;

/// Whether a key stands for a number, infinite or not.
pub open spec fn is_number(k: Key) -> bool {
    -INFINITY <= k <= INFINITY
}

/// A scalar with what is no number taken as nothing.
pub open spec fn settled(k: Key) -> Key {
    if is_number(k) {
        k
    } else {
        ZERO
    }
}

/// Tells whether a key stands for a number.
pub fn number(k: Key) -> (r: bool)
    ensures
        r == is_number(k),
{
    k >= -INFINITY && k <= INFINITY
}

/// Whether `a` and `b` are numbers and `a` is the smaller.
pub open spec fn is_below(a: Key, b: Key) -> bool {
    is_number(a) && is_number(b) && a < b
}

/// Whether `a` and `b` are numbers and `a` is the larger.
pub open spec fn is_above(a: Key, b: Key) -> bool {
    is_number(a) && is_number(b) && a > b
}

/// Whether `a` and `b` are numbers and `a` is not the larger.
pub open spec fn is_at_most(a: Key, b: Key) -> bool {
    is_number(a) && is_number(b) && a <= b
}

/// Whether `a` and `b` are numbers and `a` is not the smaller.
pub open spec fn is_at_least(a: Key, b: Key) -> bool {
    is_number(a) && is_number(b) && a >= b
}

/// Tells whether `a` is below `b`. False where either is no number.
pub fn below(a: Key, b: Key) -> (r: bool)
    ensures
        r == is_below(a, b),
{
    number(a) && number(b) && a < b
}

/// Tells whether `a` is above `b`. False where either is no number.
pub fn above(a: Key, b: Key) -> (r: bool)
    ensures
        r == is_above(a, b),
{
    number(a) && number(b) && a > b
}

/// Tells whether `a` is at most `b`. False where either is no number.
pub fn at_most(a: Key, b: Key) -> (r: bool)
    ensures
        r == is_at_most(a, b),
{
    number(a) && number(b) && a <= b
}

/// Tells whether `a` is at least `b`. False where either is no number.
pub fn at_least(a: Key, b: Key) -> (r: bool)
    ensures
        r == is_at_least(a, b),
{
    number(a) && number(b) && a >= b
}

/// The key of the scalar opposite to the one `k` stands for. A key that
/// stands for no number is negated like any other; the least `i32` is left
/// as it is.
pub open spec fn negated(k: Key) -> Key {
    if k == i32::MIN {
        k
    } else {
        (-k) as Key
    }
}

/// Flips the sign of a scalar.
pub fn negate(k: Key) -> (r: Key)
    ensures
        r == negated(k),
{
    if k == i32::MIN {
        k
    } else {
        -k
    }
}

/// The smaller of two scalars. Keys that stand for no number are taken as
/// the integers they are: below every number where negative, above every
/// number where not.
pub open spec fn lesser(a: Key, b: Key) -> Key {
    if b < a {
        b
    } else {
        a
    }
}

/// The larger of two scalars. Keys that stand for no number are taken as
/// the integers they are.
pub open spec fn greater(a: Key, b: Key) -> Key {
    if b > a {
        b
    } else {
        a
    }
}

/// Returns the smaller of two scalars.
pub fn min(a: Key, b: Key) -> (r: Key)
    ensures
        r == lesser(a, b),
{
    if b < a {
        b
    } else {
        a
    }
}

/// Returns the larger of two scalars.
pub fn max(a: Key, b: Key) -> (r: Key)
    ensures
        r == greater(a, b),
{
    if b > a {
        b
    } else {
        a
    }
}

/// What `clamp` returns: `x` held between `min` and `max`. Where the
/// bounds cross, the lower bound wins for an `x` below it. Keys that stand
/// for no number are taken as the integers they are, so that what is no
/// number comes out as one of the bounds.
pub open spec fn clamped(x: Key, min: Key, max: Key) -> Key {
    if x < min {
        min
    } else if x > max {
        max
    } else {
        x
    }
}

/// Clamps a scalar to the range from `min` to `max`.
pub fn clamp(x: Key, min: Key, max: Key) -> (r: Key)
    ensures
        r == clamped(x, min, max),
{
    if x < min {
        min
    } else if x > max {
        max
    } else {
        x
    }
}

} // verus!
