//! The top-down shooter: steering, projectile flight, and collision
//! resolution between projectiles and collidable targets.

use vstd::math::abs;
use vstd::prelude::*;
use vstd::seq_lib::group_filter_ensures;
use crate::config::{TimeStep, DT_MAX, POS_MAX, VAL_MAX};
use crate::geom::{aabb_overlap, boxes_overlap, Vec2};
use crate::num::{mul_div, scale};

verus! {

/// A projectile in flight: identity, center, half-extents.
#[derive(Clone, Copy, PartialEq, Eq, Structural, Debug)]
pub struct Projectile {
    pub id: u64,
    pub pos: Vec2,
    pub half: Vec2,
}

/// A collidable target: identity, box, and whether it is an enemy.
/// Projectiles pass through targets that are not enemies.
#[derive(Clone, Copy, PartialEq, Eq, Structural, Debug)]
pub struct Target {
    pub id: u64,
    pub pos: Vec2,
    pub half: Vec2,
    pub is_enemy: bool,
}

impl Projectile {
    /// A projectile's box is in position range with nonnegative half-extents.
    pub open spec fn wf(self) -> bool {
        &&& self.pos.in_pos_range()
        &&& self.half.in_pos_range()
        &&& self.half.x >= 0
        &&& self.half.y >= 0
    }
}

impl Target {
    /// A target's box is in position range with nonnegative half-extents.
    pub open spec fn wf(self) -> bool {
        &&& self.pos.in_pos_range()
        &&& self.half.in_pos_range()
        &&& self.half.x >= 0
        &&& self.half.y >= 0
    }
}

/// The player's horizontal position after one steering frame: each held key
/// contributes its direction, and the position moves by the net direction
/// times the speed scaled by the elapsed time.
pub open spec fn moved_x(x: int, left: bool, right: bool, speed: int, dt: TimeStep) -> int {
    let shift = scale(speed, dt.num as int, dt.den as int);
    if right == left {
        x
    } else if right {
        x + shift
    } else {
        x - shift
    }
}

/// One steering frame of the shooter's player.
pub fn move_player(x: i64, left: bool, right: bool, speed: i64, dt: TimeStep) -> (r: i64)
    requires
        abs(x as int) <= POS_MAX,
        0 <= speed <= VAL_MAX,
        dt.wf(),
    ensures
        r == moved_x(x as int, left, right, speed as int, dt),
{
    proof {
        assert(speed as int * dt.num <= VAL_MAX * DT_MAX) by (nonlinear_arith)
            requires
                0 <= speed <= VAL_MAX,
                0 <= dt.num <= DT_MAX,
        ;
    }
    let shift: i64 = mul_div(speed, dt.num, dt.den);
    if right && !left {
        x + shift
    } else if left && !right {
        x - shift
    } else {
        x
    }
}

/// A projectile's vertical position after one flight frame.
pub open spec fn risen_y(y: int, rise_speed: int, dt: TimeStep) -> int {
    y + scale(rise_speed, dt.num as int, dt.den as int)
}

/// One flight frame over every projectile: each rises by `rise_speed * dt`.
pub fn move_projectiles(projectiles: &mut Vec<Projectile>, rise_speed: i64, dt: TimeStep)
    requires
        0 <= rise_speed <= VAL_MAX,
        dt.wf(),
        forall|i: int|
            0 <= i < old(projectiles)@.len() ==> (#[trigger] old(
                projectiles,
            )@[i]).pos.in_pos_range(),
    ensures
        final(projectiles)@.len() == old(projectiles)@.len(),
        forall|i: int|
            0 <= i < old(projectiles)@.len() ==> {
                let p = #[trigger] final(projectiles)@[i];
                &&& p.id == old(projectiles)@[i].id
                &&& p.half == old(projectiles)@[i].half
                &&& p.pos.x == old(projectiles)@[i].pos.x
                &&& p.pos.y == risen_y(old(projectiles)@[i].pos.y as int, rise_speed as int, dt)
            },
{
    proof {
        assert(rise_speed as int * dt.num <= VAL_MAX * DT_MAX) by (nonlinear_arith)
            requires
                0 <= rise_speed <= VAL_MAX,
                0 <= dt.num <= DT_MAX,
        ;
    }
    let shift: i64 = mul_div(rise_speed, dt.num, dt.den);
    let mut i: usize = 0;
    while i < projectiles.len()
        invariant
            0 <= i <= projectiles@.len(),
            projectiles@.len() == old(projectiles)@.len(),
            shift == scale(rise_speed as int, dt.num as int, dt.den as int),
            abs(shift as int) <= VAL_MAX * DT_MAX,
            forall|j: int|
                0 <= j < old(projectiles)@.len() ==> (#[trigger] old(
                    projectiles,
                )@[j]).pos.in_pos_range(),
            forall|j: int| i <= j < projectiles@.len() ==> projectiles@[j] == old(projectiles)@[j],
            forall|j: int|
                0 <= j < i ==> {
                    let p = #[trigger] projectiles@[j];
                    &&& p.id == old(projectiles)@[j].id
                    &&& p.half == old(projectiles)@[j].half
                    &&& p.pos.x == old(projectiles)@[j].pos.x
                    &&& p.pos.y == risen_y(old(projectiles)@[j].pos.y as int, rise_speed as int,
                        dt)
                },
        decreases projectiles@.len() - i,
    {
        let p = projectiles[i];
        projectiles[i] = Projectile {
            id: p.id,
            pos: Vec2 { x: p.pos.x, y: p.pos.y + shift },
            half: p.half,
        };
        i = i + 1;
    }
}

/// A projectile past the upper bound of the play field is destroyed.
pub fn cull_projectiles(projectiles: &Vec<Projectile>, limit: i64) -> (kept: Vec<Projectile>)
    ensures
        kept@ == projectiles@.filter(|p: Projectile| !(p.pos.y > limit)),
{
    let ghost pred = |p: Projectile| !(p.pos.y > limit);
    let mut kept: Vec<Projectile> = Vec::new();
    let mut i: usize = 0;
    while i < projectiles.len()
        invariant
            0 <= i <= projectiles@.len(),
            kept@ == projectiles@.take(i as int).filter(pred),
            pred == (|p: Projectile| !(p.pos.y > limit)),
        decreases projectiles@.len() - i,
    {
        let p = projectiles[i];
        proof {
            reveal(Seq::filter);
            assert(projectiles@.take(i + 1).drop_last() =~= projectiles@.take(i as int));
            assert(projectiles@.take(i + 1).last() == projectiles@[i as int]);
        }
        if !(p.pos.y > limit) {
            kept.push(p);
        }
        i = i + 1;
    }
    proof {
        assert(projectiles@.take(projectiles@.len() as int) =~= projectiles@);
    }
    kept
}

/// Whether a projectile's box overlaps some enemy target.
pub open spec fn hits_enemy(p: Projectile, targets: Seq<Target>) -> bool {
    exists|j: int|
        0 <= j < targets.len() && (#[trigger] targets[j]).is_enemy && boxes_overlap(
            p.pos,
            p.half,
            targets[j].pos,
            targets[j].half,
        )
}

/// Whether a target is an enemy hit by some projectile's box.
pub open spec fn target_hit(t: Target, projectiles: Seq<Projectile>) -> bool {
    t.is_enemy && exists|i: int|
        0 <= i < projectiles.len() && boxes_overlap(
            (#[trigger] projectiles[i]).pos,
            projectiles[i].half,
            t.pos,
            t.half,
        )
}

/// Whether the projectile overlaps some enemy among the targets.
pub fn projectile_hits_enemy(p: Projectile, targets: &Vec<Target>) -> (r: bool)
    requires
        p.wf(),
        forall|j: int| 0 <= j < targets@.len() ==> (#[trigger] targets@[j]).wf(),
    ensures
        r == hits_enemy(p, targets@),
{
    let mut j: usize = 0;
    while j < targets.len()
        invariant
            0 <= j <= targets@.len(),
            p.wf(),
            forall|k: int| 0 <= k < targets@.len() ==> (#[trigger] targets@[k]).wf(),
            forall|k: int|
                0 <= k < j ==> !((#[trigger] targets@[k]).is_enemy && boxes_overlap(p.pos, p.half,
                    targets@[k].pos, targets@[k].half)),
        decreases targets@.len() - j,
    {
        let t = targets[j];
        if t.is_enemy && aabb_overlap(p.pos, p.half, t.pos, t.half) {
            assert(targets@[j as int].is_enemy && boxes_overlap(p.pos, p.half,
                targets@[j as int].pos, targets@[j as int].half));
            return true;
        }
        j = j + 1;
    }
    false
}

/// Whether the target is an enemy that some projectile overlaps.
pub fn target_is_hit(t: Target, projectiles: &Vec<Projectile>) -> (r: bool)
    requires
        t.wf(),
        forall|i: int| 0 <= i < projectiles@.len() ==> (#[trigger] projectiles@[i]).wf(),
    ensures
        r == target_hit(t, projectiles@),
{
    if !t.is_enemy {
        return false;
    }
    let mut i: usize = 0;
    while i < projectiles.len()
        invariant
            0 <= i <= projectiles@.len(),
            t.wf(),
            t.is_enemy,
            forall|k: int| 0 <= k < projectiles@.len() ==> (#[trigger] projectiles@[k]).wf(),
            forall|k: int|
                0 <= k < i ==> !boxes_overlap((#[trigger] projectiles@[k]).pos,
                    projectiles@[k].half, t.pos, t.half),
        decreases projectiles@.len() - i,
    {
        let p = projectiles[i];
        if aabb_overlap(p.pos, p.half, t.pos, t.half) {
            assert(boxes_overlap(projectiles@[i as int].pos, projectiles@[i as int].half, t.pos,
                t.half));
            return true;
        }
        i = i + 1;
    }
    false
}

/// Collision resolution over one frame, on the frame-start state: every
/// enemy target that some projectile overlaps is destroyed, and every
/// projectile that overlaps some enemy target is destroyed with it (so a
/// projectile does not cut through a line of enemies into the next frame).
/// Non-enemy targets are never destroyed and never stop a projectile.
pub fn check_for_collisions(projectiles: &Vec<Projectile>, targets: &Vec<Target>) -> (r: (
    Vec<Projectile>,
    Vec<Target>,
))
    requires
        forall|i: int| 0 <= i < projectiles@.len() ==> (#[trigger] projectiles@[i]).wf(),
        forall|j: int| 0 <= j < targets@.len() ==> (#[trigger] targets@[j]).wf(),
    ensures
        r.0@ == projectiles@.filter(|p: Projectile| !hits_enemy(p, targets@)),
        r.1@ == targets@.filter(|t: Target| !target_hit(t, projectiles@)),
        forall|k: int|
            0 <= k < r.1@.len() ==> !target_hit(#[trigger] r.1@[k], projectiles@),
        forall|j: int|
            0 <= j < targets@.len() && !target_hit(#[trigger] targets@[j], projectiles@)
                ==> r.1@.contains(targets@[j]),
{
    let ghost ppred = |p: Projectile| !hits_enemy(p, targets@);
    let ghost tpred = |t: Target| !target_hit(t, projectiles@);
    let mut kept_projectiles: Vec<Projectile> = Vec::new();
    let mut i: usize = 0;
    while i < projectiles.len()
        invariant
            0 <= i <= projectiles@.len(),
            kept_projectiles@ == projectiles@.take(i as int).filter(ppred),
            ppred == (|p: Projectile| !hits_enemy(p, targets@)),
            forall|k: int| 0 <= k < projectiles@.len() ==> (#[trigger] projectiles@[k]).wf(),
            forall|j: int| 0 <= j < targets@.len() ==> (#[trigger] targets@[j]).wf(),
        decreases projectiles@.len() - i,
    {
        let p = projectiles[i];
        let doomed = projectile_hits_enemy(p, targets);
        proof {
            reveal(Seq::filter);
            assert(projectiles@.take(i + 1).drop_last() =~= projectiles@.take(i as int));
            assert(projectiles@.take(i + 1).last() == projectiles@[i as int]);
        }
        if !doomed {
            kept_projectiles.push(p);
        }
        i = i + 1;
    }
    let mut kept_targets: Vec<Target> = Vec::new();
    let mut j: usize = 0;
    while j < targets.len()
        invariant
            0 <= j <= targets@.len(),
            kept_targets@ == targets@.take(j as int).filter(tpred),
            tpred == (|t: Target| !target_hit(t, projectiles@)),
            forall|k: int| 0 <= k < projectiles@.len() ==> (#[trigger] projectiles@[k]).wf(),
            forall|k: int| 0 <= k < targets@.len() ==> (#[trigger] targets@[k]).wf(),
        decreases targets@.len() - j,
    {
        let t = targets[j];
        let doomed = target_is_hit(t, projectiles);
        proof {
            reveal(Seq::filter);
            assert(targets@.take(j + 1).drop_last() =~= targets@.take(j as int));
            assert(targets@.take(j + 1).last() == targets@[j as int]);
        }
        if !doomed {
            kept_targets.push(t);
        }
        j = j + 1;
    }
    proof {
        assert(projectiles@.take(projectiles@.len() as int) =~= projectiles@);
        assert(targets@.take(targets@.len() as int) =~= targets@);
        broadcast use group_filter_ensures;

        assert forall|k: int|
            0 <= k < kept_targets@.len() implies !target_hit(#[trigger] kept_targets@[k],
            projectiles@) by {
            assert(tpred(kept_targets@[k]));
        }
        assert forall|j2: int|
            0 <= j2 < targets@.len() && !target_hit(#[trigger] targets@[j2], projectiles@)
                implies kept_targets@.contains(targets@[j2]) by {
            assert(tpred(targets@[j2]));
        }
    }
    (kept_projectiles, kept_targets)
}

} // verus!
