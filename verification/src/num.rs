//! Fixed-point arithmetic primitives shared by every per-frame rule.
//!
//! Quantities are `i64` values in caller-chosen sub-units. Scaling a value by
//! a rational factor (a damping coefficient, an elapsed-time fraction) is
//! `v * num / den` with the division truncated toward zero, exactly as the
//! spec function [`scale`] states it.

use vstd::math::abs;
use vstd::prelude::*;
use vstd::arithmetic::div_mod::{
    lemma_div_is_ordered, lemma_div_multiples_vanish, lemma_div_nonincreasing,
    lemma_div_pos_is_pos,
};
use vstd::arithmetic::mul::lemma_mul_inequality;

verus! {

/// Division truncated toward zero (the behaviour of `/` on machine integers),
/// stated over mathematical integers. `/` on `int` is Euclidean, so the
/// negative side is expressed through the positive one.
pub open spec fn div_trunc(x: int, d: int) -> int
    recommends
        d > 0,
{
    if x >= 0 {
        x / d
    } else {
        -((-x) / d)
    }
}

/// `v` scaled by the rational `num / den`, truncated toward zero.
pub open spec fn scale(v: int, num: int, den: int) -> int
    recommends
        num >= 0,
        den > 0,
{
    div_trunc(v * num, den)
}

/// `v` limited to the interval `[-bound, bound]`.
pub open spec fn clamp_to(v: int, bound: int) -> int
    recommends
        bound >= 0,
{
    if v < -bound {
        -bound
    } else if v > bound {
        bound
    } else {
        v
    }
}

/// Truncating toward zero never grows a magnitude: `|x / d| <= |x|`.
pub proof fn lemma_div_trunc_shrinks(x: int, d: int)
    requires
        d > 0,
    ensures
        abs(div_trunc(x, d)) <= abs(x),
        x >= 0 ==> div_trunc(x, d) >= 0,
        x <= 0 ==> div_trunc(x, d) <= 0,
{
    if x >= 0 {
        lemma_div_nonincreasing(x, d);
        lemma_div_pos_is_pos(x, d);
    } else {
        lemma_div_nonincreasing(-x, d);
        lemma_div_pos_is_pos(-x, d);
    }
}

/// Scaling by a proper fraction (`0 <= num < den`) never grows a magnitude
/// and never flips a sign: `|v * num / den| <= |v|`.
pub proof fn lemma_scale_shrinks(v: int, num: int, den: int)
    requires
        0 <= num < den,
    ensures
        abs(scale(v, num, den)) <= abs(v),
        v >= 0 ==> 0 <= scale(v, num, den) <= v,
        v <= 0 ==> v <= scale(v, num, den) <= 0,
{
    if v >= 0 {
        lemma_mul_inequality(num, den, v);
        assert(v * num == num * v) by (nonlinear_arith);
        assert(v * den == den * v) by (nonlinear_arith);
        lemma_div_is_ordered(v * num, v * den, den);
        lemma_div_multiples_vanish(v, den);
        lemma_div_pos_is_pos(v * num, den);
        assert(v * num >= 0) by (nonlinear_arith)
            requires
                v >= 0,
                num >= 0,
        ;
    } else {
        lemma_mul_inequality(num, den, -v);
        assert((-v) * num == num * (-v)) by (nonlinear_arith);
        assert((-v) * den == den * (-v)) by (nonlinear_arith);
        lemma_div_is_ordered((-v) * num, (-v) * den, den);
        lemma_div_multiples_vanish(-v, den);
        lemma_div_pos_is_pos((-v) * num, den);
        assert((-v) * num >= 0 && -(v * num) == (-v) * num) by (nonlinear_arith)
            requires
                v <= 0,
                num >= 0,
        ;
    }
}

/// `v * num / den`, truncated toward zero, computed without overflow.
pub fn mul_div(v: i64, num: i64, den: i64) -> (r: i64)
    requires
        num >= 0,
        den > 0,
        abs(v as int) * num <= i64::MAX,
    ensures
        r == scale(v as int, num as int, den as int),
        abs(r as int) <= abs(v as int) * num,
{
    if v >= 0 {
        let p: u64 = (v as u64) * (num as u64);
        assert(p == v as int * num as int);
        let q: u64 = p / (den as u64);
        proof {
            lemma_div_nonincreasing(p as int, den as int);
            lemma_div_pos_is_pos(p as int, den as int);
        }
        q as i64
    } else {
        let mag: u64 = (-(v as i128)) as u64;
        assert(mag == -(v as int));
        let p: u64 = mag * (num as u64);
        assert(p == -(v as int * num as int) && p == abs(v as int) * num) by (nonlinear_arith)
            requires
                v < 0,
                num >= 0,
                mag == -(v as int),
                p == mag as int * num as int,
        ;
        let q: u64 = p / (den as u64);
        proof {
            lemma_div_nonincreasing(p as int, den as int);
            lemma_div_pos_is_pos(p as int, den as int);
        }
        -(q as i64)
    }
}

/// `v` limited to `[-bound, bound]`.
pub fn clamp_i64(v: i64, bound: i64) -> (r: i64)
    requires
        bound >= 0,
    ensures
        r == clamp_to(v as int, bound as int),
{
    if v < -bound {
        -bound
    } else if v > bound {
        bound
    } else {
        v
    }
}

} // verus!
