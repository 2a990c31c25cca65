//! Tunable parameters of the platformer and the exact time step.

use vstd::math::abs;
use vstd::prelude::*;

verus! {

/// Magnitude bound on configuration values and velocities (sub-units per
/// second). Keeps every product taken by the kinematics step inside `i64`.
pub const VAL_MAX: i64 = 1_000_000_000;

/// Magnitude bound on positions (sub-units). Keeps position updates and the
/// camera-relative sums inside `i64`.
pub const POS_MAX: i64 = 100_000_000_000_000_000;

/// Bound on the two legs of a [`TimeStep`].
pub const DT_MAX: i64 = 1_000_000;

/// Denominator of the friction coefficient: a friction of `900` means the
/// factor `900 / 1000`, i.e. `0.9`.
pub const FRICTION_DEN: i64 = 1000;

/// Elapsed time of one frame, as the exact rational `num / den` seconds.
/// A sixtieth of a second is `TimeStep { num: 1, den: 60 }`.
#[derive(Clone, Copy, PartialEq, Eq, Structural, Debug)]
pub struct TimeStep {
    pub num: i64,
    pub den: i64,
}

impl TimeStep {
    /// A time step is a positive fraction with both legs bounded.
    pub open spec fn wf(self) -> bool {
        &&& 0 < self.num <= DT_MAX
        &&& 0 < self.den <= DT_MAX
    }
}

/// The runtime-tunable parameter record: jump impulse, steering speed,
/// per-axis velocity bound, friction coefficient, and whether enemies are
/// allowed to stay in the world.
#[derive(Clone, Copy, PartialEq, Eq, Structural, Debug)]
pub struct Config {
    /// Vertical velocity set by a jump, in sub-units per second.
    pub jump_speed: i64,
    /// Horizontal velocity added per held steering key, in sub-units per second.
    pub speed: i64,
    /// Per-axis velocity bound applied after integration.
    pub clamp: i64,
    /// Damping factor applied to the horizontal velocity while grounded,
    /// in thousandths; must lie strictly between 0 and [`FRICTION_DEN`].
    pub friction: i64,
    /// When false, every enemy is removed from the world.
    pub enemy: bool,
}

impl Config {
    /// Well-formedness: friction is a proper fraction, magnitudes are bounded,
    /// and the jump impulse fits under the velocity bound (so a jump sets the
    /// vertical velocity exactly, untouched by the clamp that follows it).
    pub open spec fn wf(self) -> bool {
        &&& 0 < self.friction < FRICTION_DEN
        &&& 0 <= self.speed <= VAL_MAX
        &&& 0 <= self.clamp <= VAL_MAX
        &&& 0 <= self.jump_speed <= self.clamp
    }
}

/// A gravitational acceleration is bounded like every other configured value.
pub open spec fn gravity_wf(gravity: i64) -> bool {
    abs(gravity as int) <= VAL_MAX
}

} // verus!
