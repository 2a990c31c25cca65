//! Tests of the platformer rules: kinematics, camera, boundary, stomps.
//!
//! Positions and speeds are fixed-point: each test says which sub-unit
//! scale it works at.

use arcade::config::{Config, TimeStep};
use arcade::enemy::{apply_enemy_toggle, enemy_move, Enemy};
use arcade::geom::Vec2;
use arcade::kinematics::{kinematics_step, player_jump, player_move, KeyState};
use arcade::camera::camera_follow;
use arcade::boundary::block_left_move;
use arcade::stomp::{is_stomped, resolve_stomps, Contact};
use arcade::world::{begin_frame, finish_frame, ControllerOutput, World};

fn base_config() -> Config {
    Config { jump_speed: 130, speed: 30, clamp: 500, friction: 900, enemy: true }
}

const DT_60: TimeStep = TimeStep { num: 1, den: 60 };

fn no_keys() -> KeyState {
    KeyState { left: false, right: false, jump: false }
}

#[test]
fn grounded_friction_damps_exactly() {
    // Scale 1: friction 0.9 on vx = 1000 gives exactly 900.
    let cfg = Config { clamp: 100_000, ..base_config() };
    let vel = Vec2 { x: 1000, y: 0 };
    let (new_vel, _) = kinematics_step(vel, true, no_keys(), &cfg, -196, DT_60);
    assert_eq!(new_vel.x, 900);
    assert!(new_vel.x.abs() <= 1000);
    // Truncation: 0.9 * 5 = 4.5 rounds toward zero.
    let vel = Vec2 { x: 5, y: 0 };
    let (new_vel, _) = kinematics_step(vel, true, no_keys(), &cfg, -196, DT_60);
    assert_eq!(new_vel.x, 4);
    // A negative velocity damps symmetrically.
    let vel = Vec2 { x: -1000, y: 0 };
    let (new_vel, _) = kinematics_step(vel, true, no_keys(), &cfg, -196, DT_60);
    assert_eq!(new_vel.x, -900);
}

#[test]
fn air_damping_is_slightly_weaker() {
    // Airborne the factor is friction + 0.01: 0.91 * 1000 = 910.
    let cfg = Config { clamp: 100_000, ..base_config() };
    let vel = Vec2 { x: 1000, y: 0 };
    let (new_vel, _) = kinematics_step(vel, false, no_keys(), &cfg, 0, DT_60);
    assert_eq!(new_vel.x, 910);
}

#[test]
fn velocity_is_clamped_on_both_axes() {
    // Steering past the clamp pins vx at +clamp; gravity past the clamp
    // pins vy at -clamp.
    let cfg = Config { speed: 1000, clamp: 400, ..base_config() };
    let keys = KeyState { left: false, right: true, jump: false };
    let vel = Vec2 { x: 390, y: 0 };
    let (new_vel, _) = kinematics_step(vel, true, keys, &cfg, 0, DT_60);
    assert_eq!(new_vel.x, 400);
    let dt_one = TimeStep { num: 1, den: 1 };
    let vel = Vec2 { x: 0, y: -300 };
    let (new_vel, _) = kinematics_step(vel, false, no_keys(), &cfg, -1_000_000, dt_one);
    assert_eq!(new_vel.y, -400);
    assert!(-cfg.clamp <= new_vel.x && new_vel.x <= cfg.clamp);
    assert!(-cfg.clamp <= new_vel.y && new_vel.y <= cfg.clamp);
}

#[test]
fn grounded_jump_overrides_vertical_velocity() {
    // Whatever vy was before, a grounded jump sets it to exactly jump_speed.
    let cfg = base_config();
    let keys = KeyState { left: false, right: false, jump: true };
    for prior in [-500i64, -1, 0, 77, 500] {
        let vel = Vec2 { x: 0, y: prior };
        let (new_vel, _) = kinematics_step(vel, true, keys, &cfg, -196, DT_60);
        assert_eq!(new_vel.y, 130);
    }
    // Airborne, holding jump does nothing: only gravity acts.
    let vel = Vec2 { x: 0, y: 60 };
    let (new_vel, _) = kinematics_step(vel, false, keys, &cfg, -60, DT_60);
    assert_eq!(new_vel.y, 59); // 60 + (-60 / 60)
}

#[test]
fn first_frame_moving_right_scenario() {
    // Scale 3600 sub-units per unit. Player starts still, grounded, right
    // key held: speed 40 u/s, friction 0.9, clamp 400 u/s, dt 1/60 s.
    // New velocity: 0.9 * 0 + 40 = 40 u/s; displacement 40/60 = 2/3 u.
    let cfg = Config {
        jump_speed: 130 * 3600,
        speed: 40 * 3600,
        clamp: 400 * 3600,
        friction: 900,
        enemy: true,
    };
    let keys = KeyState { left: false, right: true, jump: false };
    let vel = Vec2 { x: 0, y: 0 };
    let (new_vel, disp) = kinematics_step(vel, true, keys, &cfg, -196 * 3600, DT_60);
    assert_eq!(new_vel.x, 40 * 3600);
    assert_eq!(disp.x, 2400); // 2/3 of 3600 sub-units, about 0.667 units
    assert_eq!(new_vel.y, 0);
    assert_eq!(disp.y, 0);
}

#[test]
fn enemy_patrol_sixty_frames_scenario() {
    // Scale 60 sub-units per unit. The enemy starts at x = 200 and drifts
    // left at 100 u/s; after 60 frames of 1/60 s it stands at exactly 100.
    let mut enemies = vec![Enemy { id: 9, pos: Vec2 { x: 200 * 60, y: -300 * 60 } }];
    for _ in 0..60 {
        enemy_move(&mut enemies, 100 * 60, DT_60);
    }
    assert_eq!(enemies.len(), 1);
    assert_eq!(enemies[0].pos.x, 100 * 60);
    assert_eq!(enemies[0].pos.y, -300 * 60);
    assert_eq!(enemies[0].id, 9);
}

#[test]
fn camera_scrolls_only_rightward_past_dead_zone() {
    // Past the dead-zone and moving right: advance by vx / divisor.
    assert_eq!(camera_follow(0, 10, 120, 540, 60), 2);
    // Moving right but still inside the dead-zone: stay.
    assert_eq!(camera_follow(0, 0, 120, 540, 60), 0);
    // Moving left or standing still: stay, wherever the player is.
    assert_eq!(camera_follow(0, 900, -120, 540, 60), 0);
    assert_eq!(camera_follow(0, 900, 0, 540, 60), 0);
}

#[test]
fn camera_never_decreases_while_moving_right() {
    let mut camera: i64 = -50;
    let mut player_x: i64 = 0;
    let mut last = camera;
    for frame in 0..100 {
        let vx = if frame % 3 == 0 { 0 } else { 240 };
        player_x += vx / 60;
        camera = camera_follow(camera, player_x, vx, 540, 60);
        assert!(camera >= last);
        last = camera;
    }
}

#[test]
fn boundary_clamp_blocks_the_left_edge() {
    // Player's left edge 25 sub-units past the visible left border: pushed
    // back by exactly the deficit, velocity zeroed.
    let (x, vx) = block_left_move(-540, -77, 0, 540, 25);
    assert_eq!(x, -515);
    assert_eq!(vx, 0);
    // The camera-relative left edge is exactly zero afterwards.
    assert_eq!(x + 540 - 0 - 25, 0);
    // Inside the visible area nothing changes.
    let (x, vx) = block_left_move(100, -77, 0, 540, 25);
    assert_eq!(x, 100);
    assert_eq!(vx, -77);
}

#[test]
fn stomp_destroys_exactly_the_straight_up_contacts() {
    let enemies = vec![
        Enemy { id: 7, pos: Vec2 { x: 0, y: 0 } },
        Enemy { id: 8, pos: Vec2 { x: 50, y: 0 } },
    ];
    // A straight-up contact on 7, a sideways contact on 8.
    let contacts = vec![
        Contact { entity: 7, normal_x: 0, normal_y: 1 },
        Contact { entity: 8, normal_x: 1, normal_y: 0 },
    ];
    let survivors = resolve_stomps(&enemies, &contacts);
    assert_eq!(survivors.len(), 1);
    assert_eq!(survivors[0].id, 8);
    assert!(is_stomped(&contacts, 7));
    assert!(!is_stomped(&contacts, 8));
    // A downward normal is not a stomp.
    let contacts = vec![Contact { entity: 7, normal_x: 0, normal_y: -1 }];
    let survivors = resolve_stomps(&enemies, &contacts);
    assert_eq!(survivors.len(), 2);
    // No contacts at all: everyone lives, in order.
    let survivors = resolve_stomps(&enemies, &Vec::new());
    assert_eq!(survivors.len(), 2);
    assert_eq!(survivors[0].id, 7);
    assert_eq!(survivors[1].id, 8);
}

#[test]
fn enemy_toggle_clears_or_keeps() {
    let mut enemies = vec![Enemy { id: 3, pos: Vec2 { x: 10, y: 0 } }];
    apply_enemy_toggle(&mut enemies, true);
    assert_eq!(enemies.len(), 1);
    apply_enemy_toggle(&mut enemies, false);
    assert!(enemies.is_empty());
}

#[test]
fn direct_control_iteration_rules() {
    // Right pins +speed, left pins -speed and wins when both are held.
    assert_eq!(player_move(7, false, true, 100), 100);
    assert_eq!(player_move(7, true, false, 100), -100);
    assert_eq!(player_move(7, true, true, 100), -100);
    assert_eq!(player_move(7, false, false, 100), 7);
    // Jumping needs ground contact.
    assert_eq!(player_jump(-30, true, true, 100), 100);
    assert_eq!(player_jump(-30, true, false, 100), -30);
    assert_eq!(player_jump(-30, false, true, 100), -30);
}

#[test]
fn world_frame_round_trip() {
    // Scale 60. One full frame against a scripted controller output.
    let mut w = World {
        player_pos: Vec2 { x: 0, y: -100 * 60 },
        player_vel: Vec2 { x: 0, y: 0 },
        grounded: false,
        camera_x: 0,
        enemies: vec![
            Enemy { id: 11, pos: Vec2 { x: 200 * 60, y: -300 * 60 } },
            Enemy { id: 12, pos: Vec2 { x: 400 * 60, y: -300 * 60 } },
        ],
        config: Config {
            jump_speed: 130 * 60,
            speed: 30 * 60,
            clamp: 500 * 60,
            friction: 900,
            enemy: true,
        },
        gravity: -196 * 60,
        half_viewport: 540 * 60,
        half_player: 25 * 60,
        camera_divisor: 60,
        enemy_speed: 100 * 60,
    };
    // Previous move: grounded, and the player landed on enemy 11.
    let ctl = ControllerOutput {
        applied: Vec2 { x: 0, y: 0 },
        grounded: true,
        contacts: vec![Contact { entity: 11, normal_x: 0, normal_y: 1 }],
    };
    let keys = KeyState { left: false, right: true, jump: true };
    let desired = begin_frame(&mut w, keys, DT_60, Some(&ctl));
    assert!(w.grounded);
    // Enemy 11 stomped; enemy 12 patrolled 100/60 units left.
    assert_eq!(w.enemies.len(), 1);
    assert_eq!(w.enemies[0].id, 12);
    assert_eq!(w.enemies[0].pos.x, 400 * 60 - 100);
    // Grounded jump plus right key: velocity (30, 130) u/s at scale 60.
    assert_eq!(w.player_vel.x, 30 * 60);
    assert_eq!(w.player_vel.y, 130 * 60);
    assert_eq!(desired.x, 30);
    assert_eq!(desired.y, 130);
    // The controller allowed the full displacement.
    finish_frame(&mut w, desired);
    assert_eq!(w.player_pos.x, 30);
    assert_eq!(w.player_pos.y, -100 * 60 + 130);
    // The player crossed the dead-zone boundary moving right: the camera
    // advanced by vx / divisor, not by the full displacement.
    assert_eq!(w.camera_x, 30 * 60 / 60);
    // First frame before any controller output: grounded defaults to false.
    let _ = begin_frame(&mut w, keys, DT_60, None);
    assert!(!w.grounded);
}
