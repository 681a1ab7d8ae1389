//! View generation: projects the post-step true state into each robot's
//! egocentric observation — lidar ranges against the field walls and the
//! other robots' hitboxes, binary line sensors, and the ball and goal
//! positions rotated into the robot's body frame — with bounded additive
//! sensor noise drawn from a caller-supplied profile.
//!
//! The four projections are independent functions of the same immutable
//! state; with every noise magnitude zero the observation equals the exact
//! geometric projection.

use vstd::prelude::*;
use crate::data::BallState;
use crate::data::BotState;
use crate::data::GameState;
use crate::data::Vec3;
use crate::data::ViewState;
use crate::data::MAX_COORD;
use crate::geom::BotGeomData;
use crate::linalg::idiv;
use crate::linalg::mulb;
use crate::linalg::lemma_unit_comps;
use crate::linalg::qconj;
use crate::linalg::qrotate;
use crate::linalg::vsub;
use crate::linalg::spec_qrotate;
use crate::linalg::spec_tdiv;
use crate::rng::RngState;
use crate::rng::jitter;
use crate::rng::rng_next;
use crate::rng::spec_rng_n;
use crate::simulate::spec_body_offset;
use crate::simulate::spec_conj_of;

verus! {

/// Sentinel range reported when a lidar ray hits nothing.
pub const LIDAR_MAX: i64 = 100_000_000;

/// Number of lidar rays per robot, at fixed bearings around the chassis.
pub const N_RAYS: usize = 8;

/// Magnitude of the uniform additive noise on each observation family;
/// zero makes that family exact.
#[derive(Clone, Copy, Debug, PartialEq, Eq, Structural)]
pub struct NoiseProfile {
    pub lidar_mag: i64,
    pub ball_pos_mag: i64,
    pub ball_vel_mag: i64,
    pub goal_mag: i64,
}

impl NoiseProfile {
    pub open spec fn wf(self) -> bool {
        0 <= self.lidar_mag <= 1_000_000 && 0 <= self.ball_pos_mag <= 1_000_000 && 0
            <= self.ball_vel_mag <= 1_000_000 && 0 <= self.goal_mag <= 1_000_000
    }

    pub open spec fn spec_is_zero(self) -> bool {
        self.lidar_mag == 0 && self.ball_pos_mag == 0 && self.ball_vel_mag == 0 && self.goal_mag
            == 0
    }

    /// The all-zero (noiseless) profile.
    pub fn zero() -> (r: NoiseProfile)
        ensures
            r == (NoiseProfile { lidar_mag: 0, ball_pos_mag: 0, ball_vel_mag: 0, goal_mag: 0 }),
            r.wf(),
    {
        NoiseProfile { lidar_mag: 0, ball_pos_mag: 0, ball_vel_mag: 0, goal_mag: 0 }
    }
}

/// Body-frame direction of ray `i`: eight fixed bearings, milliunit scale.
pub open spec fn spec_ray_dir(i: int) -> (int, int) {
    if i == 0 {
        (1000, 0)
    } else if i == 1 {
        (707, 707)
    } else if i == 2 {
        (0, 1000)
    } else if i == 3 {
        (-707, 707)
    } else if i == 4 {
        (-1000, 0)
    } else if i == 5 {
        (0, -1000)
    } else if i == 6 {
        (-707, -707)
    } else {
        (707, -707)
    }
}

fn ray_dir(i: usize) -> (r: (i64, i64))
    requires
        i < 8,
    ensures
        (r.0 as int, r.1 as int) == spec_ray_dir(i as int),
        -1000 <= r.0 <= 1000,
        -1000 <= r.1 <= 1000,
{
    if i == 0 {
        (1000, 0)
    } else if i == 1 {
        (707, 707)
    } else if i == 2 {
        (0, 1000)
    } else if i == 3 {
        (-707, 707)
    } else if i == 4 {
        (-1000, 0)
    } else if i == 5 {
        (0, -1000)
    } else if i == 6 {
        (-707, -707)
    } else {
        (707, -707)
    }
}

/// Distance along a ray from `(px, py)` with direction `(dx, dy)` to the
/// field walls, clamped into `[0, LIDAR_MAX]`.
#[verifier::opaque]
pub open spec fn spec_wall_dist(px: int, py: int, dx: int, dy: int, g: BotGeomData) -> int {
    let tx = if dx > 0 {
        spec_tdiv((g.field_half_length - px) * 1000, dx)
    } else if dx < 0 {
        spec_tdiv((px + g.field_half_length) * 1000, -dx)
    } else {
        LIDAR_MAX as int
    };
    let ty = if dy > 0 {
        spec_tdiv((g.field_half_width - py) * 1000, dy)
    } else if dy < 0 {
        spec_tdiv((py + g.field_half_width) * 1000, -dy)
    } else {
        LIDAR_MAX as int
    };
    let t = if tx < ty {
        tx
    } else {
        ty
    };
    if t < 0 {
        0
    } else if t > LIDAR_MAX {
        LIDAR_MAX as int
    } else {
        t
    }
}

/// Range at which the ray meets another robot's hitbox (flat-chord model:
/// the ray hits when it passes within `bot_radius` of the robot's center,
/// and reports the center projection minus the radius); `LIDAR_MAX` on a
/// miss.
#[verifier::opaque]
pub open spec fn spec_bot_block(
    px: int,
    py: int,
    dx: int,
    dy: int,
    ox: int,
    oy: int,
    g: BotGeomData,
) -> int {
    let ex = ox - px;
    let ey = oy - py;
    let along = ex * dx + ey * dy;
    let across = ex * dy - ey * dx;
    if along <= 0 {
        LIDAR_MAX as int
    } else if across > g.bot_radius * 1000 || across < -(g.bot_radius * 1000) {
        LIDAR_MAX as int
    } else {
        let b = spec_tdiv(along, 1000) - g.bot_radius;
        if b < 0 {
            0
        } else if b > LIDAR_MAX {
            LIDAR_MAX as int
        } else {
            b
        }
    }
}

/// The reading of ray `i`: the nearest of the walls and the three other
/// robots.
#[verifier::opaque]
pub open spec fn spec_lidar(
    bot: BotState,
    o1: BotState,
    o2: BotState,
    o3: BotState,
    g: BotGeomData,
    i: int,
) -> int {
    let bd = spec_ray_dir(i);
    let wd = spec_qrotate(bot.orientation, Vec3 { x: bd.0 as i64, y: bd.1 as i64, z: 0 });
    let wdx = crate::spec_clamp(wd.0, -100_000, 100_000);
    let wdy = crate::spec_clamp(wd.1, -100_000, 100_000);
    let px = bot.position.x as int;
    let py = bot.position.y as int;
    let w = spec_wall_dist(px, py, wdx, wdy, g);
    let b1 = spec_bot_block(px, py, wdx, wdy, o1.position.x as int, o1.position.y as int, g);
    let b2 = spec_bot_block(px, py, wdx, wdy, o2.position.x as int, o2.position.y as int, g);
    let b3 = spec_bot_block(px, py, wdx, wdy, o3.position.x as int, o3.position.y as int, g);
    let m1 = if b1 < w {
        b1
    } else {
        w
    };
    let m2 = if b2 < m1 {
        b2
    } else {
        m1
    };
    if b3 < m2 {
        b3
    } else {
        m2
    }
}

/// Whether line sensor `j` (a body-frame mount offset from `bot_hitbox`)
/// lies over or beyond a field boundary line.
#[verifier::opaque]
pub open spec fn spec_line_sensor(bot: BotState, g: BotGeomData, j: int) -> u8 {
    let sx = g.bot_hitbox@[2 * j] as int;
    let sy = g.bot_hitbox@[2 * j + 1] as int;
    let w = spec_qrotate(bot.orientation, Vec3 { x: sx as i64, y: sy as i64, z: 0 });
    let wx = bot.position.x + w.0;
    let wy = bot.position.y + w.1;
    if wx > g.field_half_length || wx < -g.field_half_length || wy > g.field_half_width || wy
        < -g.field_half_width {
        1u8
    } else {
        0u8
    }
}

/// The world position of the goal a side defends (`friendly` defends the
/// `-x` goal) and attacks.
pub open spec fn spec_self_goal(friendly: bool, g: BotGeomData) -> Vec3 {
    if friendly {
        Vec3 { x: (-g.field_half_length as int) as i64, y: 0, z: 0 }
    } else {
        Vec3 { x: g.field_half_length, y: 0, z: 0 }
    }
}

/// The exact body-frame offset of a world point `p` from the robot.
pub open spec fn spec_rel(bot: BotState, p: Vec3) -> (int, int, int) {
    let diff = Vec3 {
        x: (p.x - bot.position.x) as i64,
        y: (p.y - bot.position.y) as i64,
        z: (p.z - bot.position.z) as i64,
    };
    spec_qrotate(spec_conj_of(bot.orientation), diff)
}

/// The exact body-frame ball velocity relative to the robot.
pub open spec fn spec_rel_vel(bot: BotState, ball: BallState) -> (int, int, int) {
    let diff = Vec3 {
        x: (ball.ball_velocity.x - bot.velocity.x) as i64,
        y: (ball.ball_velocity.y - bot.velocity.y) as i64,
        z: (ball.ball_velocity.z - bot.velocity.z) as i64,
    };
    spec_qrotate(spec_conj_of(bot.orientation), diff)
}

/// Every field of the observation equals its exact geometric value: the
/// noiseless view of the state from this robot.
#[verifier::opaque]
pub open spec fn spec_view_exact(
    v: ViewState,
    bot: BotState,
    o1: BotState,
    o2: BotState,
    o3: BotState,
    ball: BallState,
    friendly: bool,
    g: BotGeomData,
) -> bool {
    &&& v.lidar_readings@.len() == N_RAYS
    &&& (forall|i: int|
        0 <= i < N_RAYS ==> #[trigger] v.lidar_readings@[i] == spec_lidar(bot, o1, o2, o3, g, i))
    &&& v.line_sensor_readings@.len() == g.bot_hitbox@.len() / 2
    &&& (forall|j: int|
        0 <= j < g.bot_hitbox@.len() / 2 ==> #[trigger] v.line_sensor_readings@[j]
            == spec_line_sensor(bot, g, j))
    &&& (v.relative_ball_pos.x as int, v.relative_ball_pos.y as int, v.relative_ball_pos.z as int)
        == spec_body_offset(bot, ball)
    &&& (v.relative_ball_vel.x as int, v.relative_ball_vel.y as int, v.relative_ball_vel.z as int)
        == spec_rel_vel(bot, ball)
    &&& (
        v.relative_self_goal_pos.x as int,
        v.relative_self_goal_pos.y as int,
        v.relative_self_goal_pos.z as int,
    ) == spec_rel(bot, spec_self_goal(friendly, g))
    &&& (
        v.relative_target_goal_pos.x as int,
        v.relative_target_goal_pos.y as int,
        v.relative_target_goal_pos.z as int,
    ) == spec_rel(bot, spec_self_goal(!friendly, g))
}

/// Adds one noise draw to a value; exact when the magnitude is zero.
fn noisy(v: i64, mag: i64, rng: &mut RngState) -> (r: i64)
    requires
        old(rng).wf(),
        0 <= mag <= 1_000_000,
        -200_000_000_000_000 <= v <= 200_000_000_000_000,
    ensures
        final(rng).wf(),
        v - mag <= r <= v + mag,
        mag == 0 ==> r == v,
{
    let j: i64 = jitter(rng, mag);
    v + j
}

/// One robot's observation of the state. Every field is pinned to its exact
/// geometric value within the profile's noise magnitude, and is exactly the
/// geometric value when that magnitude is zero.
pub fn view_one(
    bot: &BotState,
    o1: &BotState,
    o2: &BotState,
    o3: &BotState,
    ball: &BallState,
    friendly: bool,
    g: &BotGeomData,
    profile: &NoiseProfile,
    rng: &mut RngState,
) -> (r: ViewState)
    requires
        bot.wf(),
        o1.wf(),
        o2.wf(),
        o3.wf(),
        ball.wf(),
        g.wf(),
        profile.wf(),
        old(rng).wf(),
    ensures
        final(rng).wf(),
        r.lidar_readings@.len() == N_RAYS,
        forall|i: int|
            0 <= i < N_RAYS ==> spec_lidar(*bot, *o1, *o2, *o3, *g, i) - profile.lidar_mag
                <= #[trigger] r.lidar_readings@[i] <= spec_lidar(*bot, *o1, *o2, *o3, *g, i)
                + profile.lidar_mag,
        r.line_sensor_readings@.len() == g.bot_hitbox@.len() / 2,
        forall|j: int|
            0 <= j < g.bot_hitbox@.len() / 2 ==> #[trigger] r.line_sensor_readings@[j]
                == spec_line_sensor(*bot, *g, j),
        ({
            let exact = spec_body_offset(*bot, *ball);
            &&& exact.0 - profile.ball_pos_mag <= r.relative_ball_pos.x <= exact.0
                + profile.ball_pos_mag
            &&& exact.1 - profile.ball_pos_mag <= r.relative_ball_pos.y <= exact.1
                + profile.ball_pos_mag
            &&& exact.2 - profile.ball_pos_mag <= r.relative_ball_pos.z <= exact.2
                + profile.ball_pos_mag
        }),
        ({
            let exact = spec_rel_vel(*bot, *ball);
            &&& exact.0 - profile.ball_vel_mag <= r.relative_ball_vel.x <= exact.0
                + profile.ball_vel_mag
            &&& exact.1 - profile.ball_vel_mag <= r.relative_ball_vel.y <= exact.1
                + profile.ball_vel_mag
            &&& exact.2 - profile.ball_vel_mag <= r.relative_ball_vel.z <= exact.2
                + profile.ball_vel_mag
        }),
        profile.spec_is_zero() ==> spec_view_exact(r, *bot, *o1, *o2, *o3, *ball, friendly, *g),
{
    proof {
        lemma_unit_comps(bot.orientation);
        reveal(spec_view_exact);
    }
    let conj = qconj(bot.orientation);
    // Lidar sweep.
    let mut lidar: Vec<i64> = Vec::new();
    let mut i: usize = 0;
    while i < N_RAYS
        invariant
            0 <= i <= N_RAYS,
            bot.wf(),
            o1.wf(),
            o2.wf(),
            o3.wf(),
            g.wf(),
            profile.wf(),
            rng.wf(),
            lidar@.len() == i,
            forall|k: int|
                0 <= k < i ==> spec_lidar(*bot, *o1, *o2, *o3, *g, k) - profile.lidar_mag
                    <= #[trigger] lidar@[k] <= spec_lidar(*bot, *o1, *o2, *o3, *g, k)
                    + profile.lidar_mag,
            profile.lidar_mag == 0 ==> forall|k: int|
                0 <= k < i ==> #[trigger] lidar@[k] == spec_lidar(*bot, *o1, *o2, *o3, *g, k),
        decreases N_RAYS - i,
    {
        proof {
            lemma_unit_comps(bot.orientation);
            reveal(spec_lidar);
        }
        let (bdx, bdy) = ray_dir(i);
        let wd: Vec3 = qrotate(bot.orientation, Vec3 { x: bdx, y: bdy, z: 0 });
        let wdx: i64 = crate::clamp(wd.x, -100_000, 100_000);
        let wdy: i64 = crate::clamp(wd.y, -100_000, 100_000);
        let w: i64 = wall_dist(bot.position.x, bot.position.y, wdx, wdy, g);
        let b1: i64 = bot_block(bot.position.x, bot.position.y, wdx, wdy, o1.position.x, o1.position.y, g);
        let b2: i64 = bot_block(bot.position.x, bot.position.y, wdx, wdy, o2.position.x, o2.position.y, g);
        let b3: i64 = bot_block(bot.position.x, bot.position.y, wdx, wdy, o3.position.x, o3.position.y, g);
        let m1: i64 = if b1 < w {
            b1
        } else {
            w
        };
        let m2: i64 = if b2 < m1 {
            b2
        } else {
            m1
        };
        let m3: i64 = if b3 < m2 {
            b3
        } else {
            m2
        };
        let reading: i64 = noisy(m3, profile.lidar_mag, rng);
        lidar.push(reading);
        i = i + 1;
    }
    // Line sensors from the hitbox mount offsets.
    let n_sensors: usize = g.bot_hitbox.len() / 2;
    let mut line: Vec<u8> = Vec::new();
    let mut j: usize = 0;
    while j < n_sensors
        invariant
            0 <= j <= n_sensors,
            n_sensors == g.bot_hitbox@.len() / 2,
            bot.wf(),
            g.wf(),
            line@.len() == j,
            forall|k: int|
                0 <= k < j ==> #[trigger] line@[k] == spec_line_sensor(*bot, *g, k),
        decreases n_sensors - j,
    {
        proof {
            lemma_unit_comps(bot.orientation);
            reveal(spec_line_sensor);
        }
        let sx: i64 = g.bot_hitbox[2 * j];
        let sy: i64 = g.bot_hitbox[2 * j + 1];
        let w: Vec3 = qrotate(bot.orientation, Vec3 { x: sx, y: sy, z: 0 });
        let wx: i64 = bot.position.x + w.x;
        let wy: i64 = bot.position.y + w.y;
        let s: u8 = if wx > g.field_half_length || wx < -g.field_half_length || wy
            > g.field_half_width || wy < -g.field_half_width {
            1
        } else {
            0
        };
        line.push(s);
        j = j + 1;
    }
    // Ball and goals in the body frame.
    let bp: Vec3 = qrotate(conj, vsub(ball.ball_position, bot.position));
    let bv: Vec3 = qrotate(conj, vsub(ball.ball_velocity, bot.velocity));
    let self_goal = if friendly {
        Vec3 { x: -g.field_half_length, y: 0, z: 0 }
    } else {
        Vec3 { x: g.field_half_length, y: 0, z: 0 }
    };
    let target_goal = if friendly {
        Vec3 { x: g.field_half_length, y: 0, z: 0 }
    } else {
        Vec3 { x: -g.field_half_length, y: 0, z: 0 }
    };
    let sg: Vec3 = qrotate(conj, vsub(self_goal, bot.position));
    let tg: Vec3 = qrotate(conj, vsub(target_goal, bot.position));
    let rbp = Vec3 {
        x: noisy(bp.x, profile.ball_pos_mag, rng),
        y: noisy(bp.y, profile.ball_pos_mag, rng),
        z: noisy(bp.z, profile.ball_pos_mag, rng),
    };
    let rbv = Vec3 {
        x: noisy(bv.x, profile.ball_vel_mag, rng),
        y: noisy(bv.y, profile.ball_vel_mag, rng),
        z: noisy(bv.z, profile.ball_vel_mag, rng),
    };
    let rsg = Vec3 {
        x: noisy(sg.x, profile.goal_mag, rng),
        y: noisy(sg.y, profile.goal_mag, rng),
        z: noisy(sg.z, profile.goal_mag, rng),
    };
    let rtg = Vec3 {
        x: noisy(tg.x, profile.goal_mag, rng),
        y: noisy(tg.y, profile.goal_mag, rng),
        z: noisy(tg.z, profile.goal_mag, rng),
    };
    ViewState {
        lidar_readings: lidar,
        line_sensor_readings: line,
        relative_ball_pos: rbp,
        relative_ball_vel: rbv,
        relative_self_goal_pos: rsg,
        relative_target_goal_pos: rtg,
    }
}

/// Wall distance for one ray.
fn wall_dist(px: i64, py: i64, dx: i64, dy: i64, g: &BotGeomData) -> (r: i64)
    requires
        g.wf(),
        -MAX_COORD <= px <= MAX_COORD,
        -MAX_COORD <= py <= MAX_COORD,
        -100_000 <= dx <= 100_000,
        -100_000 <= dy <= 100_000,
    ensures
        r == spec_wall_dist(px as int, py as int, dx as int, dy as int, *g),
        0 <= r <= LIDAR_MAX,
{
    proof {
        reveal(spec_wall_dist);
    }
    let tx: i64 = if dx > 0 {
        let num: i64 = mulb(g.field_half_length - px, 1000, 2_000_000_000, 1000);
        idiv(num, dx)
    } else if dx < 0 {
        let num: i64 = mulb(px + g.field_half_length, 1000, 2_000_000_000, 1000);
        idiv(num, -dx)
    } else {
        LIDAR_MAX
    };
    let ty: i64 = if dy > 0 {
        let num: i64 = mulb(g.field_half_width - py, 1000, 2_000_000_000, 1000);
        idiv(num, dy)
    } else if dy < 0 {
        let num: i64 = mulb(py + g.field_half_width, 1000, 2_000_000_000, 1000);
        idiv(num, -dy)
    } else {
        LIDAR_MAX
    };
    let t: i64 = if tx < ty {
        tx
    } else {
        ty
    };
    if t < 0 {
        0
    } else if t > LIDAR_MAX {
        LIDAR_MAX
    } else {
        t
    }
}

/// Blocking range of one other robot for one ray.
fn bot_block(px: i64, py: i64, dx: i64, dy: i64, ox: i64, oy: i64, g: &BotGeomData) -> (r: i64)
    requires
        g.wf(),
        -MAX_COORD <= px <= MAX_COORD,
        -MAX_COORD <= py <= MAX_COORD,
        -MAX_COORD <= ox <= MAX_COORD,
        -MAX_COORD <= oy <= MAX_COORD,
        -100_000 <= dx <= 100_000,
        -100_000 <= dy <= 100_000,
    ensures
        r == spec_bot_block(px as int, py as int, dx as int, dy as int, ox as int, oy as int, *g),
        0 <= r <= LIDAR_MAX,
{
    proof {
        reveal(spec_bot_block);
    }
    let ex: i64 = ox - px;
    let ey: i64 = oy - py;
    let along: i64 = mulb(ex, dx, 2_000_000_000, 100_000) + mulb(ey, dy, 2_000_000_000, 100_000);
    let across: i64 = mulb(ex, dy, 2_000_000_000, 100_000) - mulb(ey, dx, 2_000_000_000, 100_000);
    if along <= 0 {
        return LIDAR_MAX;
    }
    let lim: i64 = mulb(g.bot_radius, 1000, 1_000_000, 1000);
    if across > lim || across < -lim {
        return LIDAR_MAX;
    }
    let b: i64 = idiv(along, 1000) - g.bot_radius;
    if b < 0 {
        0
    } else if b > LIDAR_MAX {
        LIDAR_MAX
    } else {
        b
    }
}

/// Projects the true state into the four robots' observations, in slot
/// order, with noise drawn from the caller's profile through the seeded
/// generator. With the zero profile each relative-ball-position equals the
/// exact geometric projection of the ball into that robot's frame.
#[verifier::rlimit(100)]
pub fn take_view(
    game_state: &GameState,
    g: &BotGeomData,
    profile: &NoiseProfile,
    rng: &mut RngState,
) -> (r: (ViewState, ViewState, ViewState, ViewState))
    requires
        game_state.wf(),
        g.wf(),
        profile.wf(),
        old(rng).wf(),
    ensures
        final(rng).wf(),
        final(rng).s as int == spec_rng_n(old(rng).s as int, 4),
        profile.spec_is_zero() ==> spec_view_exact(
            r.0,
            game_state.friendly_bot_1,
            game_state.friendly_bot_2,
            game_state.enemy_bot_1,
            game_state.enemy_bot_2,
            game_state.ball,
            true,
            *g,
        ),
        profile.spec_is_zero() ==> spec_view_exact(
            r.1,
            game_state.friendly_bot_2,
            game_state.friendly_bot_1,
            game_state.enemy_bot_1,
            game_state.enemy_bot_2,
            game_state.ball,
            true,
            *g,
        ),
        profile.spec_is_zero() ==> spec_view_exact(
            r.2,
            game_state.enemy_bot_1,
            game_state.enemy_bot_2,
            game_state.friendly_bot_1,
            game_state.friendly_bot_2,
            game_state.ball,
            false,
            *g,
        ),
        profile.spec_is_zero() ==> spec_view_exact(
            r.3,
            game_state.enemy_bot_2,
            game_state.enemy_bot_1,
            game_state.friendly_bot_1,
            game_state.friendly_bot_2,
            game_state.ball,
            false,
            *g,
        ),
        r.0.lidar_readings@.len() == N_RAYS,
        r.1.lidar_readings@.len() == N_RAYS,
        r.2.lidar_readings@.len() == N_RAYS,
        r.3.lidar_readings@.len() == N_RAYS,
{
    // Each projection draws its noise from its own seed, so the four views
    // are independent of one another's draw counts; the shared generator
    // advances exactly four times.
    let ghost s0: int = rng.s as int;
    let s1: u64 = rng_next(rng);
    let s2: u64 = rng_next(rng);
    let s3: u64 = rng_next(rng);
    let s4: u64 = rng_next(rng);
    proof {
        assert(spec_rng_n(s0, 0) == s0);
        assert(spec_rng_n(s0, 1) == crate::rng::spec_rng_next(s0));
        assert(spec_rng_n(s0, 2) == crate::rng::spec_rng_next(spec_rng_n(s0, 1)));
        assert(spec_rng_n(s0, 3) == crate::rng::spec_rng_next(spec_rng_n(s0, 2)));
        assert(spec_rng_n(s0, 4) == crate::rng::spec_rng_next(spec_rng_n(s0, 3)));
    }
    let mut r1 = RngState { s: s1 };
    let mut r2 = RngState { s: s2 };
    let mut r3 = RngState { s: s3 };
    let mut r4 = RngState { s: s4 };
    let v1 = view_one(
        &game_state.friendly_bot_1,
        &game_state.friendly_bot_2,
        &game_state.enemy_bot_1,
        &game_state.enemy_bot_2,
        &game_state.ball,
        true,
        g,
        profile,
        &mut r1,
    );
    let v2 = view_one(
        &game_state.friendly_bot_2,
        &game_state.friendly_bot_1,
        &game_state.enemy_bot_1,
        &game_state.enemy_bot_2,
        &game_state.ball,
        true,
        g,
        profile,
        &mut r2,
    );
    let v3 = view_one(
        &game_state.enemy_bot_1,
        &game_state.enemy_bot_2,
        &game_state.friendly_bot_1,
        &game_state.friendly_bot_2,
        &game_state.ball,
        false,
        g,
        profile,
        &mut r3,
    );
    let v4 = view_one(
        &game_state.enemy_bot_2,
        &game_state.enemy_bot_1,
        &game_state.friendly_bot_1,
        &game_state.friendly_bot_2,
        &game_state.ball,
        false,
        g,
        profile,
        &mut r4,
    );
    (v1, v2, v3, v4)
}

} // verus!
