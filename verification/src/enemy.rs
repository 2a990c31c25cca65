//! Enemies: the patrol drift and the configuration toggle.

use vstd::math::abs;
use vstd::prelude::*;
use crate::config::{TimeStep, DT_MAX, VAL_MAX};
use crate::geom::Vec2;
use crate::num::{mul_div, scale};

verus! {

/// An enemy: a stable identity (the host engine's entity id) and a position.
#[derive(Clone, Copy, PartialEq, Eq, Structural, Debug)]
pub struct Enemy {
    pub id: u64,
    pub pos: Vec2,
}

/// An enemy's horizontal position after one patrol frame: the patrol pins
/// the velocity to a fixed leftward constant, so the frame moves the enemy
/// left by that speed scaled by the elapsed time — through walls and off
/// ledges alike.
pub open spec fn patrolled_x(x: int, speed: int, dt: TimeStep) -> int {
    x - scale(speed, dt.num as int, dt.den as int)
}

/// One patrol frame over every enemy: each drifts left by `speed * dt`,
/// keeping its identity and height.
pub fn enemy_move(enemies: &mut Vec<Enemy>, speed: i64, dt: TimeStep)
    requires
        0 <= speed <= VAL_MAX,
        dt.wf(),
        forall|i: int|
            0 <= i < old(enemies)@.len() ==> (#[trigger] old(enemies)@[i]).pos.in_pos_range(),
    ensures
        final(enemies)@.len() == old(enemies)@.len(),
        forall|i: int|
            0 <= i < old(enemies)@.len() ==> {
                let e = #[trigger] final(enemies)@[i];
                &&& e.id == old(enemies)@[i].id
                &&& e.pos.y == old(enemies)@[i].pos.y
                &&& e.pos.x == patrolled_x(old(enemies)@[i].pos.x as int, speed as int, dt)
            },
{
    proof {
        assert(speed as int * dt.num <= VAL_MAX * DT_MAX) by (nonlinear_arith)
            requires
                0 <= speed <= VAL_MAX,
                0 <= dt.num <= DT_MAX,
        ;
    }
    let shift: i64 = mul_div(speed, dt.num, dt.den);
    let mut i: usize = 0;
    while i < enemies.len()
        invariant
            0 <= i <= enemies@.len(),
            enemies@.len() == old(enemies)@.len(),
            shift == scale(speed as int, dt.num as int, dt.den as int),
            abs(shift as int) <= VAL_MAX * DT_MAX,
            forall|j: int|
                0 <= j < old(enemies)@.len() ==> (#[trigger] old(enemies)@[j]).pos.in_pos_range(),
            forall|j: int| i <= j < enemies@.len() ==> enemies@[j] == old(enemies)@[j],
            forall|j: int|
                0 <= j < i ==> {
                    let e = #[trigger] enemies@[j];
                    &&& e.id == old(enemies)@[j].id
                    &&& e.pos.y == old(enemies)@[j].pos.y
                    &&& e.pos.x == patrolled_x(old(enemies)@[j].pos.x as int, speed as int, dt)
                },
        decreases enemies@.len() - i,
    {
        let e = enemies[i];
        enemies[i] = Enemy { id: e.id, pos: Vec2 { x: e.pos.x - shift, y: e.pos.y } };
        i = i + 1;
    }
}

/// The configuration toggle over the enemy population: while enemies are
/// enabled the population is untouched; switching them off removes every
/// enemy from the world.
pub fn apply_enemy_toggle(enemies: &mut Vec<Enemy>, enabled: bool)
    ensures
        enabled ==> final(enemies)@ == old(enemies)@,
        !enabled ==> final(enemies)@.len() == 0,
{
    if !enabled {
        enemies.clear();
    }
}

} // verus!
