//! The platformer world and its per-frame transition.
//!
//! The host engine owns the frame loop and the character controller; this
//! module owns every decision in between. A frame runs in two halves around
//! the controller:
//!
//! * [`begin_frame`] — reads the controller output of the previous move
//!   (grounded flag and contacts; absent on the very first frame), resolves
//!   enemy stomps, lets the enemies patrol, runs the kinematics step, and
//!   returns the desired displacement for the controller to resolve;
//! * [`finish_frame`] — applies the displacement the controller actually
//!   allowed, then scrolls the camera, then clamps the player at the
//!   visible left edge. The camera follower runs first within the frame, so
//!   the boundary clamp reads the up-to-date camera position.
//!
//! The world holds exactly one player and one camera by construction: they
//! are plain fields, not a lookup that could come up empty.

use vstd::math::abs;
use vstd::prelude::*;
use crate::boundary::{block_left_move, blocked_pos, blocked_vx, left_edge};
use crate::camera::{camera_after, camera_follow};
use crate::config::{gravity_wf, Config, TimeStep, POS_MAX, VAL_MAX};
use crate::enemy::{enemy_move, patrolled_x, Enemy};
use crate::geom::Vec2;
use crate::kinematics::{kinematics_step, vx_after, vy_after, KeyState};
use crate::num::scale;
use crate::stomp::{resolve_stomps, survives, Contact};

verus! {

/// What the character controller reports about one resolved move.
pub struct ControllerOutput {
    /// The obstacle-adjusted displacement that was actually applied.
    pub applied: Vec2,
    /// Whether a downward cast found support within the snap distance.
    pub grounded: bool,
    /// The contacts of the move, one per touched entity.
    pub contacts: Vec<Contact>,
}

/// The whole mutable state of the platformer.
pub struct World {
    pub player_pos: Vec2,
    pub player_vel: Vec2,
    /// The grounded flag of the previous frame's controller output.
    pub grounded: bool,
    pub camera_x: i64,
    pub enemies: Vec<Enemy>,
    pub config: Config,
    /// Vertical acceleration, negative downward, in sub-units per second squared.
    pub gravity: i64,
    /// Half the viewport width, in sub-units.
    pub half_viewport: i64,
    /// Half the player's box width, in sub-units.
    pub half_player: i64,
    /// Smoothing divisor of the camera follower.
    pub camera_divisor: i64,
    /// Leftward patrol speed of every enemy, in sub-units per second.
    pub enemy_speed: i64,
}

impl World {
    /// Well-formedness: the configuration is sound, every magnitude is in
    /// range, and the velocity is clamped — the invariant each frame
    /// re-establishes.
    pub open spec fn wf(self) -> bool {
        &&& self.config.wf()
        &&& gravity_wf(self.gravity)
        &&& self.player_pos.in_pos_range()
        &&& abs(self.player_vel.x as int) <= self.config.clamp
        &&& abs(self.player_vel.y as int) <= self.config.clamp
        &&& abs(self.camera_x as int) <= POS_MAX
        &&& 0 <= self.half_viewport <= POS_MAX
        &&& 0 <= self.half_player <= POS_MAX
        &&& self.camera_divisor > 0
        &&& 0 <= self.enemy_speed <= VAL_MAX
        &&& forall|i: int|
            0 <= i < self.enemies@.len() ==> (#[trigger] self.enemies@[i]).pos.in_pos_range()
    }
}

/// The grounded flag a frame works with: what the controller reported, or
/// false before the controller has produced any output.
pub open spec fn grounded_of(ctl: Option<&ControllerOutput>) -> bool {
    match ctl {
        Some(out) => out.grounded,
        None => false,
    }
}

/// The contacts a frame works with: none before the first controller output.
pub open spec fn contacts_of(ctl: Option<&ControllerOutput>) -> Seq<Contact> {
    match ctl {
        Some(out) => out.contacts@,
        None => Seq::empty(),
    }
}

/// The first half of a frame, up to the character controller: consume the
/// previous move's output, resolve stomps, patrol the enemies, step the
/// kinematics, and return the desired displacement for this move.
pub fn begin_frame(w: &mut World, keys: KeyState, dt: TimeStep, ctl: Option<&ControllerOutput>)
    -> (desired: Vec2)
    requires
        old(w).wf(),
        dt.wf(),
    ensures
        final(w).grounded == grounded_of(ctl),
        final(w).player_vel.x == vx_after(old(w).player_vel.x as int, grounded_of(ctl), keys,
            old(w).config),
        final(w).player_vel.y == vy_after(old(w).player_vel.y as int, grounded_of(ctl), keys,
            old(w).config, old(w).gravity as int, dt),
        desired.x == scale(final(w).player_vel.x as int, dt.num as int, dt.den as int),
        desired.y == scale(final(w).player_vel.y as int, dt.num as int, dt.den as int),
        keys.jump && grounded_of(ctl) ==> final(w).player_vel.y == old(w).config.jump_speed,
        abs(final(w).player_vel.x as int) <= old(w).config.clamp,
        abs(final(w).player_vel.y as int) <= old(w).config.clamp,
        ({
            let kept = old(w).enemies@.filter(|e: Enemy| survives(contacts_of(ctl), e));
            &&& final(w).enemies@.len() == kept.len()
            &&& forall|i: int|
                0 <= i < kept.len() ==> {
                    let e = #[trigger] final(w).enemies@[i];
                    &&& e.id == kept[i].id
                    &&& e.pos.y == kept[i].pos.y
                    &&& e.pos.x == patrolled_x(kept[i].pos.x as int, old(w).enemy_speed as int,
                        dt)
                }
        }),
        final(w).player_pos == old(w).player_pos,
        final(w).camera_x == old(w).camera_x,
        final(w).config == old(w).config,
        final(w).gravity == old(w).gravity,
        final(w).half_viewport == old(w).half_viewport,
        final(w).half_player == old(w).half_player,
        final(w).camera_divisor == old(w).camera_divisor,
        final(w).enemy_speed == old(w).enemy_speed,
{
    let grounded: bool = match ctl {
        Some(out) => out.grounded,
        None => false,
    };
    w.grounded = grounded;

    let mut survivors: Vec<Enemy> = match ctl {
        Some(out) => resolve_stomps(&w.enemies, &out.contacts),
        None => {
            let empty_contacts: Vec<Contact> = Vec::new();
            resolve_stomps(&w.enemies, &empty_contacts)
        },
    };
    proof {
        let pred = |e: Enemy| survives(contacts_of(ctl), e);
        assert(survivors@ == old(w).enemies@.filter(pred));
        assert forall|i: int| 0 <= i < survivors@.len() implies (#[trigger] survivors@[i])
            .pos.in_pos_range() by {
            assert(old(w).enemies@.contains(survivors@[i]));
            let j = choose|j: int|
                0 <= j < old(w).enemies@.len() && old(w).enemies@[j] == survivors@[i];
            assert(old(w).enemies@[j].pos.in_pos_range());
        }
    }
    enemy_move(&mut survivors, w.enemy_speed, dt);
    w.enemies = survivors;

    let (vel, desired) = kinematics_step(w.player_vel, grounded, keys, &w.config, w.gravity, dt);
    w.player_vel = vel;
    desired
}

/// The second half of a frame, after the character controller: apply the
/// displacement it allowed, scroll the camera, clamp the player at the
/// visible left edge. After it the player's camera-relative left edge is
/// never negative, and the camera has not moved left.
pub fn finish_frame(w: &mut World, applied: Vec2)
    requires
        old(w).wf(),
        abs(old(w).player_pos.x + applied.x) <= POS_MAX,
        abs(old(w).player_pos.y + applied.y) <= POS_MAX,
    ensures
        ({
            let px = old(w).player_pos.x + applied.x;
            let cam = camera_after(old(w).camera_x as int, px, old(w).player_vel.x as int,
                old(w).half_viewport as int, old(w).camera_divisor as int);
            &&& final(w).camera_x == cam
            &&& final(w).player_pos.x == blocked_pos(px, cam, old(w).half_viewport as int,
                old(w).half_player as int)
            &&& final(w).player_vel.x == blocked_vx(px, old(w).player_vel.x as int, cam,
                old(w).half_viewport as int, old(w).half_player as int)
            &&& final(w).player_pos.y == old(w).player_pos.y + applied.y
        }),
        left_edge(final(w).player_pos.x as int, final(w).camera_x as int,
            old(w).half_viewport as int, old(w).half_player as int) >= 0,
        old(w).player_vel.x >= 0 ==> final(w).camera_x >= old(w).camera_x,
        old(w).player_vel.x < 0 ==> final(w).camera_x == old(w).camera_x,
        final(w).player_vel.y == old(w).player_vel.y,
        abs(final(w).player_vel.x as int) <= old(w).config.clamp,
        abs(final(w).player_vel.y as int) <= old(w).config.clamp,
        final(w).grounded == old(w).grounded,
        final(w).enemies@ == old(w).enemies@,
        final(w).config == old(w).config,
        final(w).gravity == old(w).gravity,
        final(w).half_viewport == old(w).half_viewport,
        final(w).half_player == old(w).half_player,
        final(w).camera_divisor == old(w).camera_divisor,
        final(w).enemy_speed == old(w).enemy_speed,
{
    let px: i64 = w.player_pos.x + applied.x;
    let py: i64 = w.player_pos.y + applied.y;

    let cam: i64 = camera_follow(w.camera_x, px, w.player_vel.x, w.half_viewport,
        w.camera_divisor);
    w.camera_x = cam;

    let (bx, bvx) = block_left_move(px, w.player_vel.x, cam, w.half_viewport, w.half_player);
    w.player_pos = Vec2 { x: bx, y: py };
    w.player_vel = Vec2 { x: bvx, y: w.player_vel.y };
}

} // verus!
