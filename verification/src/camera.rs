//! The camera follower.
//!
//! The camera scrolls only while the player moves right, and only once the
//! player has crossed the right dead-zone boundary: the player's position in
//! camera-local space (`player_x + half_viewport - camera_x`) must exceed
//! half the viewport width. It then advances by the player's horizontal
//! velocity divided by a smoothing divisor, not by the full displacement, so
//! it lags behind and catches up smoothly. It never scrolls left.

use vstd::math::abs;
use vstd::prelude::*;
use vstd::arithmetic::div_mod::lemma_div_pos_is_pos;
use crate::config::{POS_MAX, VAL_MAX};
use crate::num::{div_trunc, lemma_div_trunc_shrinks, mul_div};

verus! {

/// The camera's horizontal position after one follower step.
pub open spec fn camera_after(
    camera_x: int,
    player_x: int,
    vx: int,
    half_viewport: int,
    divisor: int,
) -> int
    recommends
        divisor > 0,
{
    if vx > 0 && player_x + half_viewport - camera_x > half_viewport {
        camera_x + div_trunc(vx, divisor)
    } else {
        camera_x
    }
}

/// One follower step. Scrolls right by `vx / divisor` when the rightward
/// moving player is past the dead-zone, else leaves the camera alone.
pub fn camera_follow(
    camera_x: i64,
    player_x: i64,
    vx: i64,
    half_viewport: i64,
    divisor: i64,
) -> (r: i64)
    requires
        divisor > 0,
        abs(camera_x as int) <= POS_MAX,
        abs(player_x as int) <= POS_MAX,
        0 <= half_viewport <= POS_MAX,
        abs(vx as int) <= VAL_MAX,
    ensures
        r == camera_after(camera_x as int, player_x as int, vx as int, half_viewport as int,
            divisor as int),
        camera_x <= r <= camera_x + abs(vx as int),
        vx <= 0 ==> r == camera_x,
{
    proof {
        lemma_div_trunc_shrinks(vx as int, divisor as int);
    }
    if vx > 0 {
        let norm_pos: i64 = (player_x + half_viewport) - camera_x;
        if norm_pos > half_viewport {
            proof {
                lemma_div_pos_is_pos(vx as int, divisor as int);
            }
            return camera_x + mul_div(vx, 1, divisor);
        }
    }
    camera_x
}

/// The inputs the follower reads in one frame: the player's horizontal
/// position and horizontal velocity.
pub struct CameraFrame {
    pub player_x: int,
    pub vx: int,
}

/// The camera position after a whole sequence of follower steps.
pub open spec fn camera_run(
    camera_x: int,
    frames: Seq<CameraFrame>,
    half_viewport: int,
    divisor: int,
) -> int
    decreases frames.len(),
{
    if frames.len() == 0 {
        camera_x
    } else {
        camera_run(
            camera_after(camera_x, frames[0].player_x, frames[0].vx, half_viewport, divisor),
            frames.drop_first(),
            half_viewport,
            divisor,
        )
    }
}

/// Over any sequence of frames in which the player's horizontal velocity is
/// never negative, the camera's horizontal position is monotonically
/// non-decreasing.
pub proof fn lemma_camera_monotone(
    camera_x: int,
    frames: Seq<CameraFrame>,
    half_viewport: int,
    divisor: int,
)
    requires
        divisor > 0,
        forall|i: int| 0 <= i < frames.len() ==> (#[trigger] frames[i]).vx >= 0,
    ensures
        camera_run(camera_x, frames, half_viewport, divisor) >= camera_x,
    decreases frames.len(),
{
    if frames.len() > 0 {
        let next = camera_after(camera_x, frames[0].player_x, frames[0].vx, half_viewport,
            divisor);
        lemma_div_trunc_shrinks(frames[0].vx, divisor);
        assert(next >= camera_x);
        let rest = frames.drop_first();
        assert forall|i: int| 0 <= i < rest.len() implies (#[trigger] rest[i]).vx >= 0 by {
            assert(rest[i] == frames[i + 1]);
        }
        lemma_camera_monotone(next, rest, half_viewport, divisor);
    }
}

/// Every camera position a sequence of follower steps passes through:
/// the starting position, then one entry per frame.
pub open spec fn camera_trace(
    camera_x: int,
    frames: Seq<CameraFrame>,
    half_viewport: int,
    divisor: int,
) -> Seq<int>
    decreases frames.len(),
{
    if frames.len() == 0 {
        seq![camera_x]
    } else {
        seq![camera_x] + camera_trace(
            camera_after(camera_x, frames[0].player_x, frames[0].vx, half_viewport, divisor),
            frames.drop_first(),
            half_viewport,
            divisor,
        )
    }
}

/// Over any sequence of frames in which the player's horizontal velocity is
/// never negative, the camera positions form a monotonically non-decreasing
/// trace: each frame's camera position is at least the previous frame's.
pub proof fn lemma_camera_trace_monotone(
    camera_x: int,
    frames: Seq<CameraFrame>,
    half_viewport: int,
    divisor: int,
)
    requires
        divisor > 0,
        forall|i: int| 0 <= i < frames.len() ==> (#[trigger] frames[i]).vx >= 0,
    ensures
        camera_trace(camera_x, frames, half_viewport, divisor).len() == frames.len() + 1,
        forall|i: int|
            0 <= i < frames.len() ==> #[trigger] camera_trace(camera_x, frames, half_viewport,
                divisor)[i] <= camera_trace(camera_x, frames, half_viewport, divisor)[i + 1],
    decreases frames.len(),
{
    let trace = camera_trace(camera_x, frames, half_viewport, divisor);
    if frames.len() > 0 {
        let next = camera_after(camera_x, frames[0].player_x, frames[0].vx, half_viewport,
            divisor);
        lemma_div_trunc_shrinks(frames[0].vx, divisor);
        assert(camera_x <= next);
        let rest = frames.drop_first();
        assert forall|i: int| 0 <= i < rest.len() implies (#[trigger] rest[i]).vx >= 0 by {
            assert(rest[i] == frames[i + 1]);
        }
        lemma_camera_trace_monotone(next, rest, half_viewport, divisor);
        let rest_trace = camera_trace(next, rest, half_viewport, divisor);
        assert forall|i: int| 0 <= i < frames.len() implies #[trigger] trace[i] <= trace[i
            + 1] by {
            if i == 0 {
                assert(trace[0] == camera_x && trace[1] == rest_trace[0]);
            } else {
                assert(trace[i] == rest_trace[i - 1] && trace[i + 1] == rest_trace[i]);
            }
        }
    }
}

/// Over any sequence of frames in which the player's horizontal velocity is
/// negative, the camera never moves at all.
pub proof fn lemma_camera_still_while_moving_left(
    camera_x: int,
    frames: Seq<CameraFrame>,
    half_viewport: int,
    divisor: int,
)
    requires
        divisor > 0,
        forall|i: int| 0 <= i < frames.len() ==> (#[trigger] frames[i]).vx < 0,
    ensures
        camera_run(camera_x, frames, half_viewport, divisor) == camera_x,
    decreases frames.len(),
{
    if frames.len() > 0 {
        let rest = frames.drop_first();
        assert forall|i: int| 0 <= i < rest.len() implies (#[trigger] rest[i]).vx < 0 by {
            assert(rest[i] == frames[i + 1]);
        }
        lemma_camera_still_while_moving_left(camera_x, rest, half_viewport, divisor);
    }
}

} // verus!
