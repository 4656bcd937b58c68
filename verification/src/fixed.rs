//! Fixed-point arithmetic.
//!
//! A fixed-point number is an `i64` that counts 1/65536ths: [`ONE`] stands for
//! 1. Lengths are in pixels, so a coordinate counts 1/65536ths of a pixel.
//!
//! Every formula of the library is evaluated exactly, over the integers, and
//! the result saturates at the ends of the `i64` range when it is stored.

use vstd::prelude::*;

verus! {

/// The fixed-point number 1.
pub const ONE: i64 = 65536;

/// The fixed-point number 1/2.
pub const HALF: i64 = 32768;

/// `v` brought into the `i64` range.
pub open spec fn clamp(v: int) -> int {
    if v < i64::MIN as int {
        i64::MIN as int
    } else if v > i64::MAX as int {
        i64::MAX as int
    } else {
        v
    }
}

/// What is stored for an exact result `v`: the value itself where it fits, else
/// the nearest end of the `i64` range.
pub open spec fn saturated(v: int) -> i64 {
    clamp(v) as i64
}

/// The product of two fixed-point numbers, rounded down.
pub open spec fn scaled(a: int, b: int) -> int {
    (a * b) / (ONE as int)
}

/// The sum of two products of fixed-point numbers, rounded down.
pub open spec fn scaled_sum(a1: int, b1: int, a2: int, b2: int) -> int {
    (a1 * b1 + a2 * b2) / (ONE as int)
}

/// The difference of two products of fixed-point numbers, rounded down.
pub open spec fn scaled_difference(a1: int, b1: int, a2: int, b2: int) -> int {
    (a1 * b1 - a2 * b2) / (ONE as int)
}

/// The sum of three products of fixed-point numbers, rounded down.
pub open spec fn scaled_sum3(a1: int, b1: int, a2: int, b2: int, a3: int, b3: int) -> int {
    (a1 * b1 + a2 * b2 + a3 * b3) / (ONE as int)
}

/// `v` rounded down to a whole number.
pub open spec fn floor_whole(v: int) -> int {
    (v / (ONE as int)) * (ONE as int)
}

/// `v` rounded up to a whole number.
pub open spec fn ceil_whole(v: int) -> int {
    ((v + ONE - 1) / (ONE as int)) * (ONE as int)
}

/// The absolute value of `v`.
pub open spec fn magnitude(v: int) -> int {
    if v < 0 {
        -v
    } else {
        v
    }
}

/// The lesser of two coordinates.
pub open spec fn lesser(a: i64, b: i64) -> i64 {
    if b < a {
        b
    } else {
        a
    }
}

/// The greater of two coordinates.
pub open spec fn greater(a: i64, b: i64) -> i64 {
    if b > a {
        b
    } else {
        a
    }
}

/// Stores an exact result: the value itself where it fits, else the nearest end
/// of the `i64` range.
pub fn saturate(v: i128) -> (stored: i64)
    ensures
        stored == saturated(v as int),
{
    if v < i64::MIN as i128 {
        i64::MIN
    } else if v > i64::MAX as i128 {
        i64::MAX
    } else {
        v as i64
    }
}

/// The quotient of `a` by a positive `d`, rounded down.
pub(crate) fn floor_div(a: i128, d: i128) -> (q: i128)
    requires
        d > 0,
    ensures
        q == a as int / d as int,
{
    let quotient: i128 = a / d;
    let remainder: i128 = a % d;
    proof {
        if a >= 0 {
            assert(quotient == a as int / d as int);
            assert(remainder == a as int % d as int);
        } else {
            assert(quotient == -((-a) as int / d as int));
            assert(remainder == -((-a) as int % d as int));
        }
    }
    if remainder < 0 {
        proof {
            vstd::arithmetic::div_mod::lemma_fundamental_div_mod((-a) as int, d as int);
            let q0 = (-a) as int / d as int;
            let r0 = (-a) as int % d as int;
            assert(a as int == (-q0 - 1) * d + (d - r0)) by (nonlinear_arith)
                requires -a == d * q0 + r0;
            vstd::arithmetic::div_mod::lemma_fundamental_div_mod_converse(a as int, d as int, -q0 - 1, d - r0);
            assert(q0 <= -a) by (nonlinear_arith)
                requires -a == d * q0 + r0, r0 > 0, d >= 2, -a > 0;
            assert(q0 + q0 <= -a) by (nonlinear_arith)
                requires -a == d * q0 + r0, r0 > 0, d >= 2, q0 <= -a;
        }
        quotient - 1
    } else {
        proof {
            if a < 0 {
                vstd::arithmetic::div_mod::lemma_fundamental_div_mod((-a) as int, d as int);
                let q0 = (-a) as int / d as int;
                assert(a as int == (-q0) * d + 0) by (nonlinear_arith)
                    requires -a == d * q0 + 0;
                vstd::arithmetic::div_mod::lemma_fundamental_div_mod_converse(a as int, d as int, -q0, 0);
            }
        }
        quotient
    }
}

/// The greatest magnitude of a factor: that of the least `i64`.
pub open spec fn is_factor(v: int) -> bool {
    -0x8000_0000_0000_0000 <= v <= 0x8000_0000_0000_0000
}

/// The product of two factors lies inside the `i128` range, its upper end
/// excepted.
proof fn lemma_product_range(a: int, b: int)
    requires
        is_factor(a),
        is_factor(b),
    ensures
        -0x4000_0000_0000_0000_0000_0000_0000_0000 <= a * b <= 0x4000_0000_0000_0000_0000_0000_0000_0000,
{
    assert(-0x4000_0000_0000_0000_0000_0000_0000_0000 <= a * b
        <= 0x4000_0000_0000_0000_0000_0000_0000_0000) by (nonlinear_arith)
        requires
            -0x8000_0000_0000_0000 <= a <= 0x8000_0000_0000_0000,
            -0x8000_0000_0000_0000 <= b <= 0x8000_0000_0000_0000,
    ;
}

/// The exact product of two factors.
pub(crate) fn product(a: i128, b: i128) -> (p: i128)
    requires
        is_factor(a as int),
        is_factor(b as int),
    ensures
        p == a * b,
        -0x4000_0000_0000_0000_0000_0000_0000_0000 <= p <= 0x4000_0000_0000_0000_0000_0000_0000_0000,
{
    proof {
        lemma_product_range(a as int, b as int);
    }
    a * b
}

/// The product of two fixed-point numbers, rounded down, before it is stored.
pub(crate) fn scaled_product(a: i128, b: i128) -> (p: i128)
    requires
        is_factor(a as int),
        is_factor(b as int),
    ensures
        p == scaled(a as int, b as int),
        -0x4000_0000_0000_0000_0000_0000_0000 <= p <= 0x4000_0000_0000_0000_0000_0000_0000,
{
    floor_div(product(a, b), ONE as i128)
}

/// The product of two fixed-point numbers, rounded down and stored.
pub fn multiply(a: i64, b: i64) -> (stored: i64)
    ensures
        stored == saturated(scaled(a as int, b as int)),
{
    saturate(scaled_product(a as i128, b as i128))
}

/// The sum of two products of fixed-point numbers, rounded down, before it is
/// stored.
pub(crate) fn scaled_pair_sum(a1: i128, b1: i128, a2: i128, b2: i128) -> (p: i128)
    requires
        is_factor(a1 as int),
        is_factor(b1 as int),
        is_factor(a2 as int),
        is_factor(b2 as int),
    ensures
        p == scaled_sum(a1 as int, b1 as int, a2 as int, b2 as int),
        -0x8000_0000_0000_0000_0000_0000_0000 <= p <= 0x8000_0000_0000_0000_0000_0000_0000,
{
    let first: i128 = product(a1, b1);
    let second: i128 = product(a2, b2);
    let whole_first: i128 = floor_div(first, ONE as i128);
    let whole_second: i128 = floor_div(second, ONE as i128);
    let rest: i128 = (first - whole_first * (ONE as i128)) + (second - whole_second * (ONE as i128));
    whole_first + whole_second + floor_div(rest, ONE as i128)
}

/// The difference of two products of fixed-point numbers, rounded down, before
/// it is stored.
pub(crate) fn scaled_pair_difference(a1: i128, b1: i128, a2: i128, b2: i128) -> (p: i128)
    requires
        is_factor(a1 as int),
        is_factor(b1 as int),
        is_factor(a2 as int),
        is_factor(b2 as int),
    ensures
        p == scaled_difference(a1 as int, b1 as int, a2 as int, b2 as int),
        -0x8000_0000_0000_0000_0000_0000_0000 <= p <= 0x8000_0000_0000_0000_0000_0000_0000,
{
    assert((-a2) * b2 == -(a2 * b2)) by (nonlinear_arith);
    scaled_pair_sum(a1, b1, -a2, b2)
}

/// The sum of three products of fixed-point numbers, rounded down, before it is
/// stored.
pub(crate) fn scaled_triple_sum(a1: i128, b1: i128, a2: i128, b2: i128, a3: i128, b3: i128) -> (p: i128)
    requires
        is_factor(a1 as int),
        is_factor(b1 as int),
        is_factor(a2 as int),
        is_factor(b2 as int),
        is_factor(a3 as int),
        is_factor(b3 as int),
    ensures
        p == scaled_sum3(a1 as int, b1 as int, a2 as int, b2 as int, a3 as int, b3 as int),
        -0xc000_0000_0000_0000_0000_0000_0000 <= p <= 0xc000_0000_0000_0000_0000_0000_0000,
{
    let first: i128 = product(a1, b1);
    let second: i128 = product(a2, b2);
    let third: i128 = product(a3, b3);
    let whole_first: i128 = floor_div(first, ONE as i128);
    let whole_second: i128 = floor_div(second, ONE as i128);
    let whole_third: i128 = floor_div(third, ONE as i128);
    let rest: i128 = (first - whole_first * (ONE as i128)) + (second - whole_second * (ONE
        as i128)) + (third - whole_third * (ONE as i128));
    whole_first + whole_second + whole_third + floor_div(rest, ONE as i128)
}

} // verus!
