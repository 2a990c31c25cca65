//! Tests of the paddle game's movement rule.

use arcade::config::TimeStep;
use arcade::paddle::paddle_movement;

const DT_60: TimeStep = TimeStep { num: 1, den: 60 };

#[test]
fn paddle_moves_by_speed_times_dt() {
    // 500 u/s at scale 60 moves 500 sub-units per 1/60 s frame.
    let speed: i64 = 500 * 60;
    let bound: i64 = 380 * 60;
    assert_eq!(paddle_movement(0, false, true, speed, DT_60, bound), 500);
    assert_eq!(paddle_movement(0, true, false, speed, DT_60, bound), -500);
    assert_eq!(paddle_movement(0, true, true, speed, DT_60, bound), 0);
    assert_eq!(paddle_movement(0, false, false, speed, DT_60, bound), 0);
}

#[test]
fn paddle_stops_at_the_play_field_bounds() {
    let speed: i64 = 500 * 60;
    let bound: i64 = 380 * 60;
    // One step short of the right bound: clamped to exactly the bound.
    assert_eq!(paddle_movement(bound - 100, false, true, speed, DT_60, bound), bound);
    // Same at the left bound.
    assert_eq!(paddle_movement(-bound + 100, true, false, speed, DT_60, bound), -bound);
    // At the bound and pushing outward: pinned.
    assert_eq!(paddle_movement(bound, false, true, speed, DT_60, bound), bound);
    // Pushing back inward works.
    assert_eq!(paddle_movement(bound, true, false, speed, DT_60, bound), bound - 500);
}
