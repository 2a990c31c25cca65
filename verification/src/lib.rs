//! Verified game-logic core for a family of small 2D arcade prototypes:
//! a paddle game, a top-down shooter, and a side-scrolling platformer.
//!
//! All motion is modelled in fixed-point units: positions, velocities and
//! speeds are `i64` values in whatever sub-unit resolution the caller picks,
//! and a frame's elapsed time is an exact rational (`TimeStep`). Every
//! per-frame rule (kinematics, camera follow, boundary clamp, enemy stomps,
//! projectile collisions) is an exact function of those integers, so each
//! carries a complete contract.
//!
//! The host engine (rendering, input polling, the kinematic character
//! controller's collision resolution) lives outside this crate; it hands the
//! library plain values and receives plain values back.

pub mod boundary;
pub mod camera;
pub mod config;
pub mod enemy;
pub mod geom;
pub mod kinematics;
pub mod num;
pub mod paddle;
pub mod shooter;
pub mod stomp;
pub mod world;
