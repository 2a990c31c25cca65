//! The platformer's per-frame kinematics step.
//!
//! From the previous frame's velocity, the grounded flag reported by the
//! character controller, and the held keys, it produces the new velocity and
//! the desired displacement handed to the controller:
//!
//! 1. damp the horizontal velocity (full friction on the ground, slightly
//!    less in the air) and, in the air, pull the vertical velocity down by
//!    the gravitational acceleration scaled by the elapsed time;
//! 2. add or subtract the steering speed per held key (the keys cancel);
//! 3. a jump from the ground sets the vertical velocity to the jump impulse;
//! 4. clamp both components to the configured bound;
//! 5. the desired displacement is the velocity scaled by the elapsed time.

use vstd::math::abs;
use vstd::prelude::*;
use crate::config::{gravity_wf, Config, TimeStep, DT_MAX, FRICTION_DEN, VAL_MAX};
use crate::geom::Vec2;
use crate::num::{clamp_i64, clamp_to, lemma_scale_shrinks, mul_div, scale};

verus! {

/// Added to the friction factor while airborne, in thousandths: the air
/// damps a little less than the ground.
pub const AIR_DAMP_BONUS: i64 = 10;

/// The movement keys held during a frame.
#[derive(Clone, Copy, PartialEq, Eq, Structural, Debug)]
pub struct KeyState {
    pub left: bool,
    pub right: bool,
    pub jump: bool,
}

/// The damping factor applied to the horizontal velocity, in thousandths.
pub open spec fn damp_factor(friction: int, grounded: bool) -> int {
    if grounded {
        friction
    } else {
        friction + AIR_DAMP_BONUS
    }
}

/// The horizontal velocity after one kinematics step: damped, steered by the
/// held keys, clamped.
pub open spec fn vx_after(vx: int, grounded: bool, keys: KeyState, cfg: Config) -> int {
    let damped = scale(vx, damp_factor(cfg.friction as int, grounded), FRICTION_DEN as int);
    let steered = damped + (if keys.right {
        cfg.speed as int
    } else {
        0
    }) - (if keys.left {
        cfg.speed as int
    } else {
        0
    });
    clamp_to(steered, cfg.clamp as int)
}

/// The vertical velocity after one kinematics step: pulled down by gravity
/// while airborne, set to the jump impulse by a grounded jump, clamped.
pub open spec fn vy_after(
    vy: int,
    grounded: bool,
    keys: KeyState,
    cfg: Config,
    gravity: int,
    dt: TimeStep,
) -> int {
    let fallen = if grounded {
        vy
    } else {
        vy + scale(gravity, dt.num as int, dt.den as int)
    };
    let jumped = if keys.jump && grounded {
        cfg.jump_speed as int
    } else {
        fallen
    };
    clamp_to(jumped, cfg.clamp as int)
}

/// One kinematics step: returns the new velocity and the desired
/// displacement for the frame.
///
/// The bound on the incoming velocity is the world invariant that this very
/// step maintains: a velocity is always clamped after integration.
pub fn kinematics_step(
    vel: Vec2,
    grounded: bool,
    keys: KeyState,
    cfg: &Config,
    gravity: i64,
    dt: TimeStep,
) -> (r: (Vec2, Vec2))
    requires
        cfg.wf(),
        dt.wf(),
        gravity_wf(gravity),
        abs(vel.x as int) <= cfg.clamp,
        abs(vel.y as int) <= cfg.clamp,
    ensures
        r.0.x == vx_after(vel.x as int, grounded, keys, *cfg),
        r.0.y == vy_after(vel.y as int, grounded, keys, *cfg, gravity as int, dt),
        r.1.x == scale(r.0.x as int, dt.num as int, dt.den as int),
        r.1.y == scale(r.0.y as int, dt.num as int, dt.den as int),
        abs(r.0.x as int) <= cfg.clamp,
        abs(r.0.y as int) <= cfg.clamp,
        keys.jump && grounded ==> r.0.y == cfg.jump_speed,
{
    let damp: i64 = if grounded {
        cfg.friction
    } else {
        cfg.friction + AIR_DAMP_BONUS
    };
    proof {
        assert(abs(vel.x as int) * damp <= VAL_MAX * (FRICTION_DEN + AIR_DAMP_BONUS))
            by (nonlinear_arith)
            requires
                abs(vel.x as int) <= VAL_MAX,
                0 <= damp <= FRICTION_DEN + AIR_DAMP_BONUS,
        ;
    }
    let damped: i64 = mul_div(vel.x, damp, FRICTION_DEN);
    let mut steered: i64 = damped;
    if keys.right {
        steered = steered + cfg.speed;
    }
    if keys.left {
        steered = steered - cfg.speed;
    }
    let vx: i64 = clamp_i64(steered, cfg.clamp);

    let mut lifted: i64 = vel.y;
    if !grounded {
        proof {
            assert(abs(gravity as int) * dt.num <= VAL_MAX * DT_MAX) by (nonlinear_arith)
                requires
                    abs(gravity as int) <= VAL_MAX,
                    0 <= dt.num <= DT_MAX,
            ;
        }
        let pull: i64 = mul_div(gravity, dt.num, dt.den);
        lifted = lifted + pull;
    }
    if keys.jump && grounded {
        lifted = cfg.jump_speed;
    }
    let vy: i64 = clamp_i64(lifted, cfg.clamp);

    proof {
        assert(abs(vx as int) * dt.num <= VAL_MAX * DT_MAX) by (nonlinear_arith)
            requires
                abs(vx as int) <= VAL_MAX,
                0 <= dt.num <= DT_MAX,
        ;
        assert(abs(vy as int) * dt.num <= VAL_MAX * DT_MAX) by (nonlinear_arith)
            requires
                abs(vy as int) <= VAL_MAX,
                0 <= dt.num <= DT_MAX,
        ;
    }
    let dx: i64 = mul_div(vx, dt.num, dt.den);
    let dy: i64 = mul_div(vy, dt.num, dt.den);
    (Vec2 { x: vx, y: vy }, Vec2 { x: dx, y: dy })
}

/// One steering frame of the earliest platformer iteration, which drives
/// the velocity directly instead of accelerating it: a held right key pins
/// the horizontal velocity to `+speed`, a held left key to `-speed` (left
/// is applied second, so it wins when both are held), and with neither key
/// the velocity is left alone.
pub fn player_move(vx: i64, left: bool, right: bool, speed: i64) -> (r: i64)
    requires
        0 <= speed,
    ensures
        r == if left {
            -speed as int
        } else if right {
            speed as int
        } else {
            vx as int
        },
{
    let mut v: i64 = vx;
    if right {
        v = speed;
    }
    if left {
        v = -speed;
    }
    v
}

/// The earliest platformer iteration's jump rule: pressing jump while in
/// contact with the ground pins the vertical velocity to the jump impulse;
/// otherwise the vertical velocity is left alone.
pub fn player_jump(vy: i64, jump_held: bool, touching_ground: bool, jump_speed: i64) -> (r: i64)
    ensures
        r == if jump_held && touching_ground {
            jump_speed as int
        } else {
            vy as int
        },
{
    if jump_held && touching_ground {
        jump_speed
    } else {
        vy
    }
}

/// On the ground with no steering key held, one step multiplies the
/// horizontal velocity by exactly the friction fraction, and the damped
/// velocity never exceeds the old one in magnitude.
pub proof fn lemma_grounded_friction(vx: int, keys: KeyState, cfg: Config)
    requires
        cfg.wf(),
        !keys.left,
        !keys.right,
        abs(vx) <= cfg.clamp,
    ensures
        vx_after(vx, true, keys, cfg) == scale(vx, cfg.friction as int, FRICTION_DEN as int),
        abs(vx_after(vx, true, keys, cfg)) <= abs(vx),
{
    lemma_scale_shrinks(vx, cfg.friction as int, FRICTION_DEN as int);
}

/// Both velocity components that a kinematics step computes lie within
/// `[-clamp, clamp]`, whatever the inputs were.
pub proof fn lemma_step_velocities_clamped(
    vx: int,
    vy: int,
    grounded: bool,
    keys: KeyState,
    cfg: Config,
    gravity: int,
    dt: TimeStep,
)
    requires
        cfg.clamp >= 0,
    ensures
        -cfg.clamp <= vx_after(vx, grounded, keys, cfg) <= cfg.clamp,
        -cfg.clamp <= vy_after(vy, grounded, keys, cfg, gravity, dt) <= cfg.clamp,
{
}

/// A grounded jump sets the vertical velocity to exactly the configured jump
/// impulse, whatever the vertical velocity was before.
pub proof fn lemma_jump_sets_vertical(
    vy: int,
    keys: KeyState,
    cfg: Config,
    gravity: int,
    dt: TimeStep,
)
    requires
        cfg.wf(),
        keys.jump,
    ensures
        vy_after(vy, true, keys, cfg, gravity, dt) == cfg.jump_speed,
{
}

} // verus!
