//! The paddle game: one steering rule with a hard position bound.

use vstd::math::abs;
use vstd::prelude::*;
use crate::config::{TimeStep, DT_MAX, POS_MAX, VAL_MAX};
use crate::num::{clamp_i64, clamp_to, mul_div, scale};

verus! {

/// The paddle's horizontal position after one frame: it moves by the net
/// key direction times the speed scaled by the elapsed time, then is bounded
/// to `[-bound, bound]` so it cannot leave the play field.
pub open spec fn paddle_after(
    x: int,
    left: bool,
    right: bool,
    speed: int,
    dt: TimeStep,
    bound: int,
) -> int {
    let shift = scale(speed, dt.num as int, dt.den as int);
    let moved = if right == left {
        x
    } else if right {
        x + shift
    } else {
        x - shift
    };
    clamp_to(moved, bound)
}

/// One frame of paddle movement.
pub fn paddle_movement(x: i64, left: bool, right: bool, speed: i64, dt: TimeStep, bound: i64) -> (r:
    i64)
    requires
        abs(x as int) <= POS_MAX,
        0 <= speed <= VAL_MAX,
        0 <= bound <= POS_MAX,
        dt.wf(),
    ensures
        r == paddle_after(x as int, left, right, speed as int, dt, bound as int),
        -bound <= r <= bound,
{
    proof {
        assert(speed as int * dt.num <= VAL_MAX * DT_MAX) by (nonlinear_arith)
            requires
                0 <= speed <= VAL_MAX,
                0 <= dt.num <= DT_MAX,
        ;
    }
    let shift: i64 = mul_div(speed, dt.num, dt.den);
    let moved: i64 = if right && !left {
        x + shift
    } else if left && !right {
        x - shift
    } else {
        x
    };
    clamp_i64(moved, bound)
}

} // verus!
