//! Tests of the shooter rules: steering, projectile flight and culling,
//! box overlap, and collision resolution.

use arcade::config::TimeStep;
use arcade::geom::{aabb_overlap, Vec2};
use arcade::shooter::{
    check_for_collisions, cull_projectiles, move_player, move_projectiles, projectile_hits_enemy,
    target_is_hit, Projectile, Target,
};

const DT_60: TimeStep = TimeStep { num: 1, den: 60 };

fn projectile(id: u64, x: i64, y: i64) -> Projectile {
    Projectile { id, pos: Vec2 { x, y }, half: Vec2 { x: 15, y: 15 } }
}

fn target(id: u64, x: i64, y: i64, is_enemy: bool) -> Target {
    Target { id, pos: Vec2 { x, y }, half: Vec2 { x: 60, y: 10 }, is_enemy }
}

#[test]
fn player_steering_moves_by_speed_times_dt() {
    // Speed 500 u/s at scale 60 over 1/60 s moves exactly 500 sub-units.
    let speed: i64 = 500 * 60;
    assert_eq!(move_player(100, false, true, speed, DT_60), 600);
    assert_eq!(move_player(100, true, false, speed, DT_60), -400);
    // The keys cancel, and no key means no motion.
    assert_eq!(move_player(100, true, true, speed, DT_60), 100);
    assert_eq!(move_player(100, false, false, speed, DT_60), 100);
}

#[test]
fn projectiles_rise_together() {
    let mut ps = vec![projectile(1, 0, 0), projectile(2, 40, 120)];
    // 250 u/s at scale 60: 250 sub-units per 1/60 s frame.
    move_projectiles(&mut ps, 250 * 60, DT_60);
    assert_eq!(ps[0].pos.y, 250);
    assert_eq!(ps[1].pos.y, 120 + 250);
    assert_eq!(ps[0].pos.x, 0);
    assert_eq!(ps[1].pos.x, 40);
    assert_eq!(ps[0].id, 1);
    assert_eq!(ps[1].id, 2);
}

#[test]
fn projectiles_past_the_limit_are_destroyed() {
    let ps = vec![projectile(1, 0, 351), projectile(2, 0, 350), projectile(3, 0, -10)];
    let kept = cull_projectiles(&ps, 350);
    assert_eq!(kept.len(), 2);
    assert_eq!(kept[0].id, 2);
    assert_eq!(kept[1].id, 3);
}

#[test]
fn boxes_touching_at_an_edge_do_not_overlap() {
    let half = Vec2 { x: 10, y: 10 };
    let at = |x: i64, y: i64| Vec2 { x, y };
    // Distance on x exactly the sum of half-widths: touching, no overlap.
    assert!(!aabb_overlap(at(0, 0), half, at(20, 0), half));
    // One sub-unit closer: overlap.
    assert!(aabb_overlap(at(0, 0), half, at(19, 0), half));
    // Overlap needs both axes.
    assert!(!aabb_overlap(at(19, 0), half, at(0, 40), half));
    assert!(aabb_overlap(at(19, 0), half, at(0, 19), half));
}

#[test]
fn collisions_destroy_enemy_and_projectile_together() {
    let ps = vec![
        projectile(1, 0, 300),   // overlaps the enemy at (0, 300)
        projectile(2, 500, 300), // overlaps only the non-enemy collider
        projectile(3, 0, 0),     // overlaps nothing
    ];
    let ts = vec![
        target(10, 0, 300, true),    // enemy, hit by projectile 1
        target(11, 500, 300, false), // not an enemy: never destroyed
        target(12, 900, 300, true),  // enemy out of reach
    ];
    assert!(projectile_hits_enemy(ps[0], &ts));
    assert!(!projectile_hits_enemy(ps[1], &ts));
    assert!(target_is_hit(ts[0], &ps));
    assert!(!target_is_hit(ts[1], &ps));
    assert!(!target_is_hit(ts[2], &ps));
    let (kept_ps, kept_ts) = check_for_collisions(&ps, &ts);
    assert_eq!(kept_ps.len(), 2);
    assert_eq!(kept_ps[0].id, 2);
    assert_eq!(kept_ps[1].id, 3);
    assert_eq!(kept_ts.len(), 2);
    assert_eq!(kept_ts[0].id, 11);
    assert_eq!(kept_ts[1].id, 12);
}
