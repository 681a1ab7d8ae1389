//! The data model of the match: the authoritative `GameState` with its bot,
//! ball and score components, the per-robot actuator `Action`, and the derived
//! per-robot observation `ViewState`.
//!
//! Every physical quantity is a fixed-point integer in milliunits. Each type
//! carries a well-formedness predicate bounding its fields so that one tick of
//! integration provably stays inside `i64` arithmetic.

use vstd::prelude::*;
use crate::SCALE;

verus! {

/// Largest magnitude, in milliunits, that any position, velocity or spin
/// component may take while the state is well formed.
pub const MAX_COORD: i64 = 1_000_000_000;

/// Tolerance on the squared norm of an orientation quaternion: a well-formed
/// orientation `q` has `norm_sq(q)` within `SCALE * SCALE` plus or minus this.
pub const QUAT_NORM_TOL: i64 = 10_000;

/// Most wheels a single robot may carry.
pub const MAX_WHEELS: usize = 8;

/// A three-component fixed-point vector (milliunits per component).
#[derive(Clone, Copy, Debug, PartialEq, Eq, Structural)]
pub struct Vec3 {
    pub x: i64,
    pub y: i64,
    pub z: i64,
}

/// An orientation quaternion with fixed-point components; the identity
/// rotation is `(0, 0, 0, SCALE)`.
#[derive(Clone, Copy, Debug, PartialEq, Eq, Structural)]
pub struct Quat {
    pub x: i64,
    pub y: i64,
    pub z: i64,
    pub w: i64,
}

impl Vec3 {
    /// Every component has magnitude at most `b`.
    pub open spec fn abs_le(self, b: int) -> bool {
        -b <= self.x <= b && -b <= self.y <= b && -b <= self.z <= b
    }

    pub fn zero() -> (r: Vec3)
        ensures
            r == (Vec3 { x: 0, y: 0, z: 0 }),
    {
        Vec3 { x: 0, y: 0, z: 0 }
    }

    pub fn new(x: i64, y: i64, z: i64) -> (r: Vec3)
        ensures
            r == (Vec3 { x: x, y: y, z: z }),
    {
        Vec3 { x, y, z }
    }
}

impl Quat {
    /// Squared quaternion norm, as a mathematical integer.
    pub open spec fn norm_sq(self) -> int {
        self.x * self.x + self.y * self.y + self.z * self.z + self.w * self.w
    }

    /// Unit-norm rotation within the fixed-point tolerance.
    pub open spec fn is_unit(self) -> bool {
        SCALE * SCALE - QUAT_NORM_TOL <= self.norm_sq() <= SCALE * SCALE + QUAT_NORM_TOL
    }

    /// The identity rotation.
    pub fn identity() -> (r: Quat)
        ensures
            r == (Quat { x: 0, y: 0, z: 0, w: SCALE as i64 }),
            r.is_unit(),
    {
        Quat { x: 0, y: 0, z: 0, w: 1000 }
    }
}

/// The state of one robot's wheel assembly: the driven big wheel and the
/// passive small (omni) wheels.
#[derive(Clone, Copy, Debug, PartialEq, Eq, Structural)]
pub struct WheelState {
    pub big_wheel_velocity: i64,
    pub big_wheel_orientation: i64,
    pub small_wheel_velocity: Vec3,
}

impl WheelState {
    pub open spec fn wf(self) -> bool {
        -MAX_COORD <= self.big_wheel_velocity <= MAX_COORD
            && -MAX_COORD <= self.big_wheel_orientation <= MAX_COORD
            && self.small_wheel_velocity.abs_le(MAX_COORD as int)
    }
}

/// The true state of one robot.
#[derive(Clone, Debug, PartialEq)]
pub struct BotState {
    pub position: Vec3,
    pub velocity: Vec3,
    /// Must stay a unit-norm rotation after every integration step.
    pub orientation: Quat,
    /// Angular velocity of the chassis.
    pub spin: Vec3,
    pub wheel_states: Vec<WheelState>,
    pub dribber_speed: i64,
    pub kicker_position: Vec3,
    pub kicker_velocity: Vec3,
}

impl BotState {
    pub open spec fn wf(self) -> bool {
        self.position.abs_le(MAX_COORD as int)
            && self.velocity.abs_le(MAX_COORD as int)
            && self.orientation.is_unit()
            && self.spin.abs_le(MAX_COORD as int)
            && self.wheel_states@.len() <= MAX_WHEELS
            && (forall|i: int| 0 <= i < self.wheel_states@.len() ==> self.wheel_states@[i].wf())
            && -MAX_COORD <= self.dribber_speed <= MAX_COORD
            && self.kicker_position.abs_le(MAX_COORD as int)
            && self.kicker_velocity.abs_le(MAX_COORD as int)
    }
}

/// The true state of the ball.
#[derive(Clone, Copy, Debug, PartialEq, Eq, Structural)]
pub struct BallState {
    pub ball_position: Vec3,
    pub ball_spin: Vec3,
    pub ball_velocity: Vec3,
}

impl BallState {
    pub open spec fn wf(self) -> bool {
        self.ball_position.abs_le(MAX_COORD as int)
            && self.ball_spin.abs_le(MAX_COORD as int)
            && self.ball_velocity.abs_le(MAX_COORD as int)
    }
}

/// Scoring totals for both sides. Each side's total equals the sum of its
/// goal-caused and out-of-bounds-caused counters, and all six counters only
/// ever grow.
#[derive(Clone, Copy, Debug, PartialEq, Eq, Structural)]
pub struct ScoreState {
    /// Total friendly score.
    pub friendly_score: u16,
    /// Friendly points awarded because an enemy bot sent the ball out.
    pub friendly_out_of_bounds_score: u16,
    /// Friendly points scored through the enemy goal.
    pub friendly_goal_score: u16,
    /// Total enemy score.
    pub enemy_score: u16,
    /// Enemy points awarded because a friendly bot sent the ball out.
    pub enemy_out_of_bounds_score: u16,
    /// Enemy points scored through the friendly goal.
    pub enemy_goal_score: u16,
}

impl ScoreState {
    /// Each side's total is the sum of its two cause counters.
    pub open spec fn wf(self) -> bool {
        self.friendly_score == self.friendly_goal_score + self.friendly_out_of_bounds_score
            && self.enemy_score == self.enemy_goal_score + self.enemy_out_of_bounds_score
    }

    pub fn zero() -> (r: ScoreState)
        ensures
            r == (ScoreState {
                friendly_score: 0u16,
                friendly_out_of_bounds_score: 0u16,
                friendly_goal_score: 0u16,
                enemy_score: 0u16,
                enemy_out_of_bounds_score: 0u16,
                enemy_goal_score: 0u16,
            }),
            r.wf(),
    {
        ScoreState {
            friendly_score: 0,
            friendly_out_of_bounds_score: 0,
            friendly_goal_score: 0,
            enemy_score: 0,
            enemy_out_of_bounds_score: 0,
            enemy_goal_score: 0,
        }
    }
}

/// Which side last touched the ball since the last restart; decides who is
/// awarded an out-of-bounds point.
#[derive(Clone, Copy, Debug, PartialEq, Eq, Structural)]
pub enum Toucher {
    Nobody,
    Friendly,
    Enemy,
}

/// The authoritative truth of the whole match, replaced (never mutated in
/// place) each tick.
#[derive(Clone, Debug, PartialEq)]
pub struct GameState {
    pub friendly_bot_1: BotState,
    pub friendly_bot_2: BotState,
    pub enemy_bot_1: BotState,
    pub enemy_bot_2: BotState,
    pub ball: BallState,
    pub score: ScoreState,
    /// Side that last touched the ball since the last restart.
    pub last_toucher: Toucher,
}

impl GameState {
    pub open spec fn wf(self) -> bool {
        self.friendly_bot_1.wf() && self.friendly_bot_2.wf() && self.enemy_bot_1.wf()
            && self.enemy_bot_2.wf() && self.ball.wf() && self.score.wf()
    }
}

/// One robot's actuator command for one tick; clamped against the geometry's
/// limits before use, never rejected.
#[derive(Clone, Debug, PartialEq)]
pub struct Action {
    /// Commanded angular acceleration per big wheel (milli rad/s^2).
    pub wheel_accels: Vec<i64>,
    /// Commanded dribbler roller acceleration.
    pub dribber_accel: i64,
    /// Commanded kick impulse; zero or negative commands no kick.
    pub kicker_accel: i64,
}

/// One robot's egocentric, noisy observation of the true state; recomputed
/// from the `GameState` each tick, never persisted.
#[derive(Clone, Debug, PartialEq)]
pub struct ViewState {
    pub lidar_readings: Vec<i64>,
    pub line_sensor_readings: Vec<u8>,
    pub relative_ball_pos: Vec3,
    pub relative_ball_vel: Vec3,
    pub relative_self_goal_pos: Vec3,
    pub relative_target_goal_pos: Vec3,
}

} // verus!
