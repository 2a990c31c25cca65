//! The left boundary clamp.
//!
//! The player may never leave the visible area on the left. The player's
//! camera-relative left edge is
//! `player_x + half_viewport - camera_x - half_player`; when it is negative
//! the player is pushed right by exactly the deficit and the horizontal
//! velocity is zeroed — a hard stop, not a bounce.
//!
//! Within a frame this clamp runs after the camera follower, so it reads the
//! frame's up-to-date camera position.

use vstd::math::abs;
use vstd::prelude::*;
use crate::config::{POS_MAX, VAL_MAX};

verus! {

/// The player's left edge in camera-local space.
pub open spec fn left_edge(
    player_x: int,
    camera_x: int,
    half_viewport: int,
    half_player: int,
) -> int {
    player_x + half_viewport - camera_x - half_player
}

/// The player position and horizontal velocity after the clamp.
pub open spec fn blocked_pos(
    player_x: int,
    camera_x: int,
    half_viewport: int,
    half_player: int,
) -> int {
    let edge = left_edge(player_x, camera_x, half_viewport, half_player);
    if edge < 0 {
        player_x - edge
    } else {
        player_x
    }
}

/// The horizontal velocity after the clamp: zeroed by a hard stop.
pub open spec fn blocked_vx(
    player_x: int,
    vx: int,
    camera_x: int,
    half_viewport: int,
    half_player: int,
) -> int {
    if left_edge(player_x, camera_x, half_viewport, half_player) < 0 {
        0
    } else {
        vx
    }
}

/// One boundary-clamp step: returns the corrected player position and
/// horizontal velocity. After it, the camera-relative left edge is never
/// negative.
pub fn block_left_move(
    player_x: i64,
    vx: i64,
    camera_x: i64,
    half_viewport: i64,
    half_player: i64,
) -> (r: (i64, i64))
    requires
        abs(player_x as int) <= POS_MAX,
        abs(camera_x as int) <= POS_MAX + VAL_MAX,
        0 <= half_viewport <= POS_MAX,
        0 <= half_player <= POS_MAX,
        abs(vx as int) <= VAL_MAX,
    ensures
        r.0 == blocked_pos(player_x as int, camera_x as int, half_viewport as int,
            half_player as int),
        r.1 == blocked_vx(player_x as int, vx as int, camera_x as int, half_viewport as int,
            half_player as int),
        left_edge(r.0 as int, camera_x as int, half_viewport as int, half_player as int) >= 0,
        r.0 >= player_x,
{
    let norm_pos: i64 = ((player_x + half_viewport) - camera_x) - half_player;
    if norm_pos < 0 {
        (player_x - norm_pos, 0)
    } else {
        (player_x, vx)
    }
}

} // verus!
