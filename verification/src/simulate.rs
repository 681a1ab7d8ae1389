//! One tick of the match: writes the commanded actuator state into each
//! robot through the drivetrain, dribbler and kicker models, integrates every
//! body one fixed timestep, resolves the ball's ground contact, and runs the
//! scoring state machine on the resulting ball position.
//!
//! The previous `GameState` is never mutated: a fresh state is returned, and
//! a non-representable (diverged) pose surfaces as `PhysicsDivergedError`
//! rather than being silently clamped.
//!
//! Bodies interact through the wheel, dribbler and kicker contact models,
//! the ball's ground contact and the touch attribution that feeds scoring;
//! chassis-against-chassis collision is not resolved.

use vstd::prelude::*;
use crate::SCALE;
use crate::spec_clamp;
use crate::clamp;
use crate::data::Action;
use crate::data::BallState;
use crate::data::GameState;
use crate::data::ScoreState;
use crate::data::Toucher;
use crate::data::BotState;
use crate::data::Quat;
use crate::data::Vec3;
use crate::data::WheelState;
use crate::data::MAX_COORD;
use crate::dribbler::dribbler_step;
use crate::dribbler::spec_dribbler_engaged;
use crate::dribbler::spec_dribbler_center_force;
use crate::dribbler::spec_dribbler_spin;
use crate::dribbler::spec_dribbler_speed;
use crate::drivetrain::drivetrain_step;
use crate::drivetrain::spec_drive_fwd;
use crate::drivetrain::spec_drive_yaw;
use crate::drivetrain::spec_wheel_cmd;
use crate::drivetrain::spec_wheel_next;
use crate::drivetrain::spec_coulomb;
use crate::drivetrain::coulomb;
use crate::drivetrain::DT_MS;
use crate::drivetrain::GRAVITY;
use crate::geom::BotGeomData;
use crate::linalg::idiv;
use crate::linalg::mulb;
use crate::linalg::lemma_tdiv_bound;
use crate::linalg::lemma_unit_comps;
use crate::linalg::qconj;
use crate::linalg::qmul;
use crate::linalg::qnormalize;
use crate::linalg::qrotate;
use crate::linalg::vsub;
use crate::linalg::spec_qmul;
use crate::linalg::spec_qnormalize;
use crate::linalg::spec_qrotate;
use crate::linalg::spec_tdiv;
use crate::kicker::kicker_step;
use crate::kicker::spec_kick;
use crate::rng::RngState;
use crate::score::classify;
use crate::score::spec_classify;
use crate::score::spec_track_score;
use crate::score::track_score;

verus! {

/// A body's pose left the representable range after integration: fatal for
/// the tick, surfaced to the caller instead of being clamped away.
#[derive(Clone, Copy, Debug, PartialEq, Eq, Structural)]
pub struct PhysicsDivergedError;

/// The conjugate of a bot's orientation, as a quaternion value.
pub open spec fn spec_conj_of(q: Quat) -> Quat {
    Quat { x: (-q.x as int) as i64, y: (-q.y as int) as i64, z: (-q.z as int) as i64, w: q.w }
}

/// The chassis-frame offset of the ball from a robot's center.
pub open spec fn spec_body_offset(bot: BotState, ball: BallState) -> (int, int, int) {
    let diff = Vec3 {
        x: (ball.ball_position.x - bot.position.x) as i64,
        y: (ball.ball_position.y - bot.position.y) as i64,
        z: (ball.ball_position.z - bot.position.z) as i64,
    };
    spec_qrotate(spec_conj_of(bot.orientation), diff)
}

/// Lateral braking force the passive small wheels produce: the force that
/// would cancel the chassis' sideways velocity in one tick, put through
/// their own Coulomb law.
pub open spec fn spec_lat_force(g: BotGeomData, vby: int) -> int {
    let desired = -spec_tdiv(vby * g.bot_mass, DT_MS as int);
    let load = spec_tdiv(g.bot_mass * GRAVITY, SCALE as int);
    let lim_s = spec_tdiv(g.small_wheel_fric_s * load, SCALE as int);
    let lim_k = spec_tdiv(g.small_wheel_fric_k * load, SCALE as int);
    spec_coulomb(desired, lim_s, lim_k).0
}

/// The new chassis velocity one tick of drivetrain forces produces.
pub open spec fn spec_bot_vel(bot: BotState, a: Action, g: BotGeomData) -> (int, int, int) {
    let vbody = spec_qrotate(spec_conj_of(bot.orientation), bot.velocity);
    let fwd = spec_drive_fwd(a.wheel_accels@, g, bot.wheel_states@.len() as int);
    let flat = spec_lat_force(g, vbody.1);
    let fworld = spec_qrotate(bot.orientation, Vec3 { x: fwd as i64, y: flat as i64, z: 0 });
    (
        bot.velocity.x + spec_tdiv(fworld.0 * DT_MS, g.bot_mass as int),
        bot.velocity.y + spec_tdiv(fworld.1 * DT_MS, g.bot_mass as int),
        bot.velocity.z + spec_tdiv(fworld.2 * DT_MS, g.bot_mass as int),
    )
}

/// The new yaw spin one tick of wheel torque produces.
pub open spec fn spec_bot_spin_z(bot: BotState, a: Action, g: BotGeomData) -> int {
    let yaw = spec_drive_yaw(a.wheel_accels@, g, bot.wheel_states@.len() as int);
    bot.spin.z + spec_tdiv(spec_tdiv(yaw * DT_MS, SCALE as int), g.bot_mass as int)
}

/// The orientation before renormalization: the old one composed with the
/// small rotation the spin sweeps through in one tick.
pub open spec fn spec_bot_quat_raw(bot: BotState, a: Action, g: BotGeomData) -> Quat {
    let sz = spec_bot_spin_z(bot, a, g);
    let dq = Quat {
        x: spec_tdiv(bot.spin.x as int, 125) as i64,
        y: spec_tdiv(bot.spin.y as int, 125) as i64,
        z: spec_tdiv(sz, 125) as i64,
        w: 1000,
    };
    let qn = spec_qmul(bot.orientation, dq);
    Quat { x: qn.0 as i64, y: qn.1 as i64, z: qn.2 as i64, w: qn.3 as i64 }
}

/// The step diverges: some intermediate pose or rate left the representable
/// range, or the orientation drifted beyond repair.
pub open spec fn spec_bot_div(bot: BotState, a: Action, g: BotGeomData) -> bool {
    let vbody = spec_qrotate(spec_conj_of(bot.orientation), bot.velocity);
    let v = spec_bot_vel(bot, a, g);
    let px = bot.position.x + spec_tdiv(v.0 * DT_MS, SCALE as int);
    let py = bot.position.y + spec_tdiv(v.1 * DT_MS, SCALE as int);
    let pz = bot.position.z + spec_tdiv(v.2 * DT_MS, SCALE as int);
    let sz = spec_bot_spin_z(bot, a, g);
    let dqx = spec_tdiv(bot.spin.x as int, 125);
    let dqy = spec_tdiv(bot.spin.y as int, 125);
    let dqz = spec_tdiv(sz, 125);
    ||| !(-4_000_000_000 <= vbody.1 <= 4_000_000_000)
    ||| !(-MAX_COORD <= v.0 <= MAX_COORD && -MAX_COORD <= v.1 <= MAX_COORD && -MAX_COORD <= v.2
        <= MAX_COORD)
    ||| !(-MAX_COORD <= px <= MAX_COORD && -MAX_COORD <= py <= MAX_COORD && -MAX_COORD <= pz
        <= MAX_COORD)
    ||| !(-MAX_COORD <= sz <= MAX_COORD)
    ||| !(-8_000_000 <= dqx <= 8_000_000 && -8_000_000 <= dqy <= 8_000_000 && -8_000_000 <= dqz
        <= 8_000_000)
    ||| spec_qnormalize(spec_bot_quat_raw(bot, a, g)) is None
}

/// The new bot state `nb` is the one the step computes from `bot`: every
/// field is pinned, so the step is deterministic.
pub open spec fn spec_bot_rel(
    bot: BotState,
    a: Action,
    g: BotGeomData,
    nb: BotState,
) -> bool {
    let v = spec_bot_vel(bot, a, g);
    let sz = spec_bot_spin_z(bot, a, g);
    let vbody = spec_qrotate(spec_conj_of(bot.orientation), bot.velocity);
    let sv = Vec3 {
        x: spec_clamp(vbody.0, -MAX_COORD as int, MAX_COORD as int) as i64,
        y: spec_clamp(vbody.1, -MAX_COORD as int, MAX_COORD as int) as i64,
        z: spec_clamp(vbody.2, -MAX_COORD as int, MAX_COORD as int) as i64,
    };
    &&& spec_qnormalize(spec_bot_quat_raw(bot, a, g)) == Some(
        (
            nb.orientation.x as int,
            nb.orientation.y as int,
            nb.orientation.z as int,
            nb.orientation.w as int,
        ),
    )
    &&& nb.velocity.x == v.0
    &&& nb.velocity.y == v.1
    &&& nb.velocity.z == v.2
    &&& nb.position.x == bot.position.x + spec_tdiv(v.0 * DT_MS, SCALE as int)
    &&& nb.position.y == bot.position.y + spec_tdiv(v.1 * DT_MS, SCALE as int)
    &&& nb.position.z == bot.position.z + spec_tdiv(v.2 * DT_MS, SCALE as int)
    &&& nb.spin.x == bot.spin.x
    &&& nb.spin.y == bot.spin.y
    &&& nb.spin.z == sz
    &&& nb.wheel_states@.len() == bot.wheel_states@.len()
    &&& (forall|i: int|
        0 <= i < bot.wheel_states@.len() ==> #[trigger] nb.wheel_states@[i] == spec_wheel_next(
            bot.wheel_states@[i],
            g,
            spec_wheel_cmd(a.wheel_accels@, i),
            sv,
        ))
    &&& nb.dribber_speed == spec_dribbler_speed(g, bot.dribber_speed as int, a.dribber_accel as int)
    &&& nb.kicker_position == bot.kicker_position
    &&& nb.kicker_velocity == bot.kicker_velocity
    &&& nb.wf()
}

/// Every field of two bot states agrees (the wheel sequences by their
/// views).
pub open spec fn spec_bot_eq(a: BotState, b: BotState) -> bool {
    &&& a.position == b.position
    &&& a.velocity == b.velocity
    &&& a.orientation == b.orientation
    &&& a.spin == b.spin
    &&& a.wheel_states@ == b.wheel_states@
    &&& a.dribber_speed == b.dribber_speed
    &&& a.kicker_position == b.kicker_position
    &&& a.kicker_velocity == b.kicker_velocity
}

/// Integrates one robot one tick. `Ok` pins every field of the new state to
/// the step relation, and the new orientation is unit-norm; `Err` comes
/// exactly on the inputs the divergence predicate names. The returned pair
/// also carries the dribble effect the robot exerts on the ball this tick.
pub fn bot_phase(bot: &BotState, a: &Action, g: &BotGeomData, ball: &BallState) -> (r: Result<
    (BotState, Option<(i64, i64)>),
    PhysicsDivergedError,
>)
    requires
        bot.wf(),
        g.wf(),
        ball.wf(),
    ensures
        match r {
            Ok(p) => {
                &&& spec_bot_rel(*bot, *a, *g, p.0)
                &&& !spec_bot_div(*bot, *a, *g)
                &&& p.0.orientation.is_unit()
                &&& match p.1 {
                    Some(e) => {
                        let d = spec_body_offset(*bot, *ball);
                        &&& spec_dribbler_engaged(*g, d.0, d.1)
                        &&& e.0 == spec_dribbler_spin(*g, p.0.dribber_speed as int, d.1)
                        &&& e.1 == spec_dribbler_center_force(*g, d.1)
                        &&& -1_000_000_000 <= e.0 <= 1_000_000_000
                        &&& -1_000_000_000 <= e.1 <= 1_000_000_000
                    },
                    None => {
                        let d = spec_body_offset(*bot, *ball);
                        !spec_dribbler_engaged(*g, d.0, d.1)
                    },
                }
            },
            Err(_) => spec_bot_div(*bot, *a, *g),
        },
{
    proof {
        lemma_unit_comps(bot.orientation);
    }
    let conj: Quat = qconj(bot.orientation);
    let vbody: Vec3 = qrotate(conj, bot.velocity);
    if vbody.y < -4_000_000_000 || vbody.y > 4_000_000_000 {
        return Err(PhysicsDivergedError);
    }
    let sv = Vec3 {
        x: clamp(vbody.x, -MAX_COORD, MAX_COORD),
        y: clamp(vbody.y, -MAX_COORD, MAX_COORD),
        z: clamp(vbody.z, -MAX_COORD, MAX_COORD),
    };
    let (wheels, fwd, yaw) = drivetrain_step(&bot.wheel_states, &a.wheel_accels, g, sv);
    // Passive small wheels brake the sideways velocity, Coulomb-limited.
    let braken: i64 = mulb(vbody.y, g.bot_mass, 4_000_000_000, 1_000_000);
    proof {
        lemma_tdiv_bound(braken as int, 16, 4_000_000_000_000_000);
    }
    let desired: i64 = -idiv(braken, 16);
    let loadn: i64 = mulb(g.bot_mass, GRAVITY, 1_000_000, 9_810);
    proof {
        lemma_tdiv_bound(loadn as int, 1000, 9_810_000_000);
    }
    let load: i64 = idiv(loadn, 1000);
    let lsn: i64 = mulb(g.small_wheel_fric_s, load, 1_000_000, 9_810_000);
    let lkn: i64 = mulb(g.small_wheel_fric_k, load, 1_000_000, 9_810_000);
    proof {
        lemma_tdiv_bound(lsn as int, 1000, 9_810_000_000_000);
        lemma_tdiv_bound(lkn as int, 1000, 9_810_000_000_000);
    }
    let lim_s: i64 = idiv(lsn, 1000);
    let lim_k: i64 = idiv(lkn, 1000);
    let (flat, _slip) = coulomb(desired, lim_s, lim_k);
    let fbody = Vec3 { x: fwd, y: flat, z: 0 };
    let fworld: Vec3 = qrotate(bot.orientation, fbody);
    let fx16: i64 = mulb(fworld.x, DT_MS, 100_000_000_000_000, 16);
    let fy16: i64 = mulb(fworld.y, DT_MS, 100_000_000_000_000, 16);
    let fz16: i64 = mulb(fworld.z, DT_MS, 100_000_000_000_000, 16);
    proof {
        lemma_tdiv_bound(fx16 as int, g.bot_mass as int, 1_600_000_000_000_000);
        lemma_tdiv_bound(fy16 as int, g.bot_mass as int, 1_600_000_000_000_000);
        lemma_tdiv_bound(fz16 as int, g.bot_mass as int, 1_600_000_000_000_000);
    }
    let vx: i64 = bot.velocity.x + idiv(fx16, g.bot_mass);
    let vy: i64 = bot.velocity.y + idiv(fy16, g.bot_mass);
    let vz: i64 = bot.velocity.z + idiv(fz16, g.bot_mass);
    if vx < -MAX_COORD || vx > MAX_COORD || vy < -MAX_COORD || vy > MAX_COORD || vz < -MAX_COORD
        || vz > MAX_COORD {
        return Err(PhysicsDivergedError);
    }
    let vx16: i64 = mulb(vx, DT_MS, MAX_COORD, 16);
    let vy16: i64 = mulb(vy, DT_MS, MAX_COORD, 16);
    let vz16: i64 = mulb(vz, DT_MS, MAX_COORD, 16);
    proof {
        lemma_tdiv_bound(vx16 as int, 1000, 16_000_000_000);
        lemma_tdiv_bound(vy16 as int, 1000, 16_000_000_000);
        lemma_tdiv_bound(vz16 as int, 1000, 16_000_000_000);
    }
    let px: i64 = bot.position.x + idiv(vx16, 1000);
    let py: i64 = bot.position.y + idiv(vy16, 1000);
    let pz: i64 = bot.position.z + idiv(vz16, 1000);
    if px < -MAX_COORD || px > MAX_COORD || py < -MAX_COORD || py > MAX_COORD || pz < -MAX_COORD
        || pz > MAX_COORD {
        return Err(PhysicsDivergedError);
    }
    let yawdt: i64 = mulb(yaw, DT_MS, 100_000_000_000_000, 16);
    proof {
        lemma_tdiv_bound(yawdt as int, 1000, 1_600_000_000_000_000);
        lemma_tdiv_bound(spec_tdiv(yawdt as int, 1000), g.bot_mass as int, 1_600_000_000_000);
    }
    let sz: i64 = bot.spin.z + idiv(idiv(yawdt, 1000), g.bot_mass);
    if sz < -MAX_COORD || sz > MAX_COORD {
        return Err(PhysicsDivergedError);
    }
    let dqx: i64 = idiv(bot.spin.x, 125);
    let dqy: i64 = idiv(bot.spin.y, 125);
    let dqz: i64 = idiv(sz, 125);
    if dqx < -8_000_000 || dqx > 8_000_000 || dqy < -8_000_000 || dqy > 8_000_000 || dqz
        < -8_000_000 || dqz > 8_000_000 {
        return Err(PhysicsDivergedError);
    }
    let dq = Quat { x: dqx, y: dqy, z: dqz, w: 1000 };
    let qn: Quat = qmul(bot.orientation, dq);
    let q3: Quat = match qnormalize(qn) {
        Some(u) => u,
        None => {
            return Err(PhysicsDivergedError);
        },
    };
    let d: Vec3 = qrotate(conj, vsub(ball.ball_position, bot.position));
    let (speed, effect) = dribbler_step(g, bot.dribber_speed, a.dribber_accel, d);
    Ok(
        (
            BotState {
                position: Vec3 { x: px, y: py, z: pz },
                velocity: Vec3 { x: vx, y: vy, z: vz },
                orientation: q3,
                spin: Vec3 { x: bot.spin.x, y: bot.spin.y, z: sz },
                wheel_states: wheels,
                dribber_speed: speed,
                kicker_position: bot.kicker_position,
                kicker_velocity: bot.kicker_velocity,
            },
            effect,
        ),
    )
}

/// Friction decrement toward zero: the magnitude shrinks by `dec`, never
/// crossing zero.
pub open spec fn spec_toward(v: int, dec: int) -> int {
    if v > 0 {
        if v > dec {
            v - dec
        } else {
            0
        }
    } else {
        if v < -dec {
            v + dec
        } else {
            0
        }
    }
}

/// Moves `v` toward zero by at most `dec`.
pub fn toward(v: i64, dec: i64) -> (r: i64)
    requires
        0 <= dec <= 1_000_000_000,
        -2_000_000_000_000_000 <= v <= 2_000_000_000_000_000,
    ensures
        r == spec_toward(v as int, dec as int),
{
    if v > 0 {
        if v > dec {
            v - dec
        } else {
            0
        }
    } else {
        if v < -dec {
            v + dec
        } else {
            0
        }
    }
}

/// The dribble effect one robot exerts on the ball this tick, if engaged.
pub open spec fn spec_effect(g: BotGeomData, bot: BotState, a: Action, ball: BallState) -> Option<
    (int, int),
> {
    let d = spec_body_offset(bot, ball);
    let sp = spec_dribbler_speed(g, bot.dribber_speed as int, a.dribber_accel as int);
    if spec_dribbler_engaged(g, d.0, d.1) {
        Some((spec_dribbler_spin(g, sp, d.1), spec_dribbler_center_force(g, d.1)))
    } else {
        None
    }
}

/// Ball velocity change from one robot's dribbler centering force (rotated
/// into the world frame); zero when not engaged.
pub open spec fn spec_dribble_dv(q: Quat, e: Option<(int, int)>, g: BotGeomData) -> (
    int,
    int,
    int,
) {
    match e {
        Some(p) => {
            let dvl = spec_tdiv(p.1 * DT_MS, g.ball_mass as int);
            spec_qrotate(q, Vec3 { x: 0, y: dvl as i64, z: 0 })
        },
        None => (0, 0, 0),
    }
}

/// The backspin the last engaged dribbler imposes, else the current spin.
pub open spec fn spec_spin_override(e: Option<(int, int)>, cur: int) -> int {
    match e {
        Some(p) => p.0,
        None => cur,
    }
}

/// One robot's kick this tick, as the kicker model sees it; the ball's
/// constants come from `gb`.
pub open spec fn spec_kick_of(g: BotGeomData, gb: BotGeomData, bot: BotState, a: Action, ball: BallState, s: int)
    -> Option<(int, int, int)> {
    let d = spec_body_offset(bot, ball);
    spec_kick(g, gb, a.kicker_accel as int, d.0, d.1, s)
}

/// World-frame ball velocity change of one kick; zero when it did not fire.
pub open spec fn spec_kick_dv(q: Quat, k: Option<(int, int, int)>) -> (int, int, int) {
    match k {
        Some(t) => spec_qrotate(q, Vec3 { x: t.0 as i64, y: t.1 as i64, z: 0 }),
        None => (0, 0, 0),
    }
}

/// The generator state after one kick opportunity.
pub open spec fn spec_kick_s(k: Option<(int, int, int)>, s: int) -> int {
    match k {
        Some(t) => t.2,
        None => s,
    }
}

/// Dribble velocity contributions and imposed backspin of all four robots.
pub open spec fn spec_dribbles(
    f1: BotState,
    f2: BotState,
    e1: BotState,
    e2: BotState,
    a1: Action,
    a2: Action,
    a3: Action,
    a4: Action,
    g1: BotGeomData,
    g2: BotGeomData,
    g3: BotGeomData,
    g4: BotGeomData,
    ball: BallState,
) -> ((int, int, int), int) {
    let ef1 = spec_effect(g1, f1, a1, ball);
    let ef2 = spec_effect(g2, f2, a2, ball);
    let ef3 = spec_effect(g3, e1, a3, ball);
    let ef4 = spec_effect(g4, e2, a4, ball);
    let bsy = spec_spin_override(
        ef4,
        spec_spin_override(ef3, spec_spin_override(ef2, spec_spin_override(ef1, ball.ball_spin.y as int))),
    );
    let dd1 = spec_dribble_dv(f1.orientation, ef1, g1);
    let dd2 = spec_dribble_dv(f2.orientation, ef2, g1);
    let dd3 = spec_dribble_dv(e1.orientation, ef3, g1);
    let dd4 = spec_dribble_dv(e2.orientation, ef4, g1);
    (
        (dd1.0 + dd2.0 + dd3.0 + dd4.0, dd1.1 + dd2.1 + dd3.1 + dd4.1, dd1.2 + dd2.2 + dd3.2
            + dd4.2),
        bsy,
    )
}

/// Kick velocity contributions of all four robots, in slot order, and the
/// generator state after them.
pub open spec fn spec_kicks(
    f1: BotState,
    f2: BotState,
    e1: BotState,
    e2: BotState,
    a1: Action,
    a2: Action,
    a3: Action,
    a4: Action,
    g1: BotGeomData,
    g2: BotGeomData,
    g3: BotGeomData,
    g4: BotGeomData,
    ball: BallState,
    s0: int,
) -> ((int, int, int), int) {
    let k1 = spec_kick_of(g1, g1, f1, a1, ball, s0);
    let s1 = spec_kick_s(k1, s0);
    let k2 = spec_kick_of(g2, g1, f2, a2, ball, s1);
    let s2 = spec_kick_s(k2, s1);
    let k3 = spec_kick_of(g3, g1, e1, a3, ball, s2);
    let s3 = spec_kick_s(k3, s2);
    let k4 = spec_kick_of(g4, g1, e2, a4, ball, s3);
    let s4 = spec_kick_s(k4, s3);
    let kd1 = spec_kick_dv(f1.orientation, k1);
    let kd2 = spec_kick_dv(f2.orientation, k2);
    let kd3 = spec_kick_dv(e1.orientation, k3);
    let kd4 = spec_kick_dv(e2.orientation, k4);
    (
        (kd1.0 + kd2.0 + kd3.0 + kd4.0, kd1.1 + kd2.1 + kd3.1 + kd4.1, kd1.2 + kd2.2 + kd3.2
            + kd4.2),
        s4,
    )
}

/// Ball velocity, imposed backspin and generator state after all four
/// robots' dribblers and kickers have acted, in slot order.
pub open spec fn spec_ball_impulses(
    f1: BotState,
    f2: BotState,
    e1: BotState,
    e2: BotState,
    a1: Action,
    a2: Action,
    a3: Action,
    a4: Action,
    g1: BotGeomData,
    g2: BotGeomData,
    g3: BotGeomData,
    g4: BotGeomData,
    ball: BallState,
    s0: int,
) -> ((int, int, int), int, int) {
    let dr = spec_dribbles(f1, f2, e1, e2, a1, a2, a3, a4, g1, g2, g3, g4, ball);
    let kk = spec_kicks(f1, f2, e1, e2, a1, a2, a3, a4, g1, g2, g3, g4, ball, s0);
    (
        (
            ball.ball_velocity.x + dr.0.0 + kk.0.0,
            ball.ball_velocity.y + dr.0.1 + kk.0.1,
            ball.ball_velocity.z + dr.0.2 + kk.0.2,
        ),
        dr.1,
        kk.1,
    )
}

/// The ball touches a robot standing at `(px, py)`.
pub open spec fn spec_touch(bx: int, by: int, px: int, py: int, g: BotGeomData) -> bool {
    (bx - px) * (bx - px) + (by - py) * (by - py) <= (g.bot_radius + g.ball_radius) * (
    g.bot_radius + g.ball_radius)
}

/// The post-step position of a bot, recomputed from the tick's inputs.
pub open spec fn spec_bot_next_pos(bot: BotState, a: Action, g: BotGeomData) -> (int, int) {
    let v = spec_bot_vel(bot, a, g);
    (
        bot.position.x + spec_tdiv(v.0 * DT_MS, SCALE as int),
        bot.position.y + spec_tdiv(v.1 * DT_MS, SCALE as int),
    )
}

/// The ball, score, last toucher and generator state one tick produces, or
/// `None` when the ball's motion left the representable range. Ball and
/// field constants are read from the first robot's descriptor.
pub open spec fn spec_ball_out(
    f1: BotState,
    f2: BotState,
    e1: BotState,
    e2: BotState,
    a1: Action,
    a2: Action,
    a3: Action,
    a4: Action,
    g1: BotGeomData,
    g2: BotGeomData,
    g3: BotGeomData,
    g4: BotGeomData,
    ball: BallState,
    score: ScoreState,
    toucher: Toucher,
    p1x: int,
    p1y: int,
    p2x: int,
    p2y: int,
    p3x: int,
    p3y: int,
    p4x: int,
    p4y: int,
    s0: int,
) -> Option<(BallState, ScoreState, Toucher, int)> {
    let imp = spec_ball_impulses(f1, f2, e1, e2, a1, a2, a3, a4, g1, g2, g3, g4, ball, s0);
    let bv = imp.0;
    let bsy = imp.1;
    let s4 = imp.2;
    let dec = spec_tdiv(g1.ball_fric_k * 157, SCALE as int);
    let bvx = spec_toward(bv.0, dec);
    let bvy = spec_toward(bv.1, dec);
    let bvz = bv.2 - 157;
    if !(-MAX_COORD <= bvx <= MAX_COORD && -MAX_COORD <= bvy <= MAX_COORD && -MAX_COORD <= bvz
        <= MAX_COORD) {
        None
    } else {
        let bpx = ball.ball_position.x + spec_tdiv(bvx * DT_MS, SCALE as int);
        let bpy = ball.ball_position.y + spec_tdiv(bvy * DT_MS, SCALE as int);
        let bpz0 = ball.ball_position.z + spec_tdiv(bvz * DT_MS, SCALE as int);
        let bounced = bpz0 < g1.ball_radius;
        let bpz = if bounced {
            g1.ball_radius as int
        } else {
            bpz0
        };
        let bvz2 = if bounced {
            -spec_tdiv(bvz * g1.ball_elasticity, SCALE as int)
        } else {
            bvz
        };
        if !(-MAX_COORD <= bvz2 <= MAX_COORD && -MAX_COORD <= bpx <= MAX_COORD && -MAX_COORD
            <= bpy <= MAX_COORD && -MAX_COORD <= bpz <= MAX_COORD) {
            None
        } else {
            let t1 = if spec_touch(bpx, bpy, p4x, p4y, g4) {
                Toucher::Enemy
            } else if spec_touch(bpx, bpy, p3x, p3y, g3) {
                Toucher::Enemy
            } else if spec_touch(bpx, bpy, p2x, p2y, g2) {
                Toucher::Friendly
            } else if spec_touch(bpx, bpy, p1x, p1y, g1) {
                Toucher::Friendly
            } else {
                toucher
            };
            let c = spec_classify(g1, bpx, bpy);
            let tr = spec_track_score(score, t1, c);
            let ball2 = if tr.2 {
                BallState {
                    ball_position: Vec3 { x: 0, y: 0, z: g1.ball_radius },
                    ball_spin: Vec3 { x: 0, y: 0, z: 0 },
                    ball_velocity: Vec3 { x: 0, y: 0, z: 0 },
                }
            } else {
                BallState {
                    ball_position: Vec3 { x: bpx as i64, y: bpy as i64, z: bpz as i64 },
                    ball_spin: Vec3 { x: ball.ball_spin.x, y: bsy as i64, z: ball.ball_spin.z },
                    ball_velocity: Vec3 { x: bvx as i64, y: bvy as i64, z: bvz2 as i64 },
                }
            };
            Some((ball2, tr.0, tr.1, s4))
        }
    }
}

/// Advances the whole match one tick: every robot under its action, then the
/// ball under the dribble and kick impulses, ground contact and friction,
/// then the scoring state machine.
///
/// `Ok` pins every field of the new state to the tick's inputs and the
/// generator seed (the step is deterministic); every orientation stays
/// unit-norm; the score counters never decrease and each side's total stays
/// the sum of its two causes. `Err` reports a diverged (non-representable)
/// pose and comes exactly when the divergence predicates say so.
/// An executable dribble effect, as the mathematical option it stands for.
pub open spec fn opt_ii(e: Option<(i64, i64)>) -> Option<(int, int)> {
    match e {
        Some(p) => Some((p.0 as int, p.1 as int)),
        None => None,
    }
}

/// Accumulates the dribble and kick impulses of all four robots on the
/// ball, in slot order, threading the jitter generator through the kicks.
#[verifier::rlimit(100)]
fn ball_impulses(
    f1: &BotState,
    f2: &BotState,
    e1: &BotState,
    e2: &BotState,
    a1: &Action,
    a2: &Action,
    a3: &Action,
    a4: &Action,
    g1: &BotGeomData,
    g2: &BotGeomData,
    g3: &BotGeomData,
    g4: &BotGeomData,
    ball: &BallState,
    ef1: Option<(i64, i64)>,
    ef2: Option<(i64, i64)>,
    ef3: Option<(i64, i64)>,
    ef4: Option<(i64, i64)>,
    rng: &mut RngState,
) -> (r: (Vec3, i64))
    requires
        f1.wf(),
        f2.wf(),
        e1.wf(),
        e2.wf(),
        g1.wf(),
        g2.wf(),
        g3.wf(),
        g4.wf(),
        ball.wf(),
        old(rng).wf(),
        opt_ii(ef1) == spec_effect(*g1, *f1, *a1, *ball),
        opt_ii(ef2) == spec_effect(*g2, *f2, *a2, *ball),
        opt_ii(ef3) == spec_effect(*g3, *e1, *a3, *ball),
        opt_ii(ef4) == spec_effect(*g4, *e2, *a4, *ball),
        ef1 matches Some(p) ==> -1_000_000_000 <= p.0 <= 1_000_000_000 && -1_000_000_000 <= p.1 <= 1_000_000_000,
        ef2 matches Some(p) ==> -1_000_000_000 <= p.0 <= 1_000_000_000 && -1_000_000_000 <= p.1 <= 1_000_000_000,
        ef3 matches Some(p) ==> -1_000_000_000 <= p.0 <= 1_000_000_000 && -1_000_000_000 <= p.1 <= 1_000_000_000,
        ef4 matches Some(p) ==> -1_000_000_000 <= p.0 <= 1_000_000_000 && -1_000_000_000 <= p.1 <= 1_000_000_000,
    ensures
        final(rng).wf(),
        spec_ball_impulses(
            *f1, *f2, *e1, *e2, *a1, *a2, *a3, *a4, *g1, *g2, *g3, *g4, *ball,
            old(rng).s as int,
        ) == ((r.0.x as int, r.0.y as int, r.0.z as int), r.1 as int, final(rng).s as int),
        r.0.abs_le(2_000_000_000_000_000),
        -1_000_000_000 <= r.1 <= 1_000_000_000,
{
    // Dribbler centering impulses on the ball, in slot order.
    let dd1 = dribble_dv(f1, ef1, g1);
    let dd2 = dribble_dv(f2, ef2, g1);
    let dd3 = dribble_dv(e1, ef3, g1);
    let dd4 = dribble_dv(e2, ef4, g1);
    let bsy: i64 = spin_override(ef4, spin_override(ef3, spin_override(ef2, spin_override(
        ef1,
        ball.ball_spin.y,
    ))));
    let ddx: i64 = dd1.x + dd2.x + dd3.x + dd4.x;
    let ddy: i64 = dd1.y + dd2.y + dd3.y + dd4.y;
    let ddz: i64 = dd1.z + dd2.z + dd3.z + dd4.z;
    proof {
        assert(spec_dribbles(*f1, *f2, *e1, *e2, *a1, *a2, *a3, *a4, *g1, *g2, *g3, *g4, *ball)
            == ((ddx as int, ddy as int, ddz as int), bsy as int));
    }
    // Kick impulses, threading the jitter generator in slot order.
    let kd1 = kick_dv(f1, a1, g1, g1, ball, rng);
    let kd2 = kick_dv(f2, a2, g2, g1, ball, rng);
    let kd3 = kick_dv(e1, a3, g3, g1, ball, rng);
    let kd4 = kick_dv(e2, a4, g4, g1, ball, rng);
    let kkx: i64 = kd1.x + kd2.x + kd3.x + kd4.x;
    let kky: i64 = kd1.y + kd2.y + kd3.y + kd4.y;
    let kkz: i64 = kd1.z + kd2.z + kd3.z + kd4.z;
    proof {
        assert(spec_kicks(
            *f1, *f2, *e1, *e2, *a1, *a2, *a3, *a4, *g1, *g2, *g3, *g4, *ball,
            old(rng).s as int,
        ) == ((kkx as int, kky as int, kkz as int), rng.s as int));
    }
    let bvx0: i64 = ball.ball_velocity.x + ddx + kkx;
    let bvy0: i64 = ball.ball_velocity.y + ddy + kky;
    let bvz0: i64 = ball.ball_velocity.z + ddz + kkz;
    (Vec3 { x: bvx0, y: bvy0, z: bvz0 }, bsy)
}

/// Resolves the ball's tick: dribble and kick impulses, rolling friction,
/// gravity and ground restitution, touch attribution and scoring. `p*x, p*y`
/// are the robots' post-step planar positions. `Ok` pins ball, score,
/// toucher and generator to `spec_ball_out`; `Err` comes exactly when that
/// relation diverges.
#[verifier::rlimit(100)]
fn ball_phase(
    f1: &BotState,
    f2: &BotState,
    e1: &BotState,
    e2: &BotState,
    a1: &Action,
    a2: &Action,
    a3: &Action,
    a4: &Action,
    g1: &BotGeomData,
    g2: &BotGeomData,
    g3: &BotGeomData,
    g4: &BotGeomData,
    ball: &BallState,
    score: ScoreState,
    toucher: Toucher,
    ef1: Option<(i64, i64)>,
    ef2: Option<(i64, i64)>,
    ef3: Option<(i64, i64)>,
    ef4: Option<(i64, i64)>,
    p1x: i64,
    p1y: i64,
    p2x: i64,
    p2y: i64,
    p3x: i64,
    p3y: i64,
    p4x: i64,
    p4y: i64,
    rng: &mut RngState,
) -> (r: Result<(BallState, ScoreState, Toucher), PhysicsDivergedError>)
    requires
        f1.wf(),
        f2.wf(),
        e1.wf(),
        e2.wf(),
        g1.wf(),
        g2.wf(),
        g3.wf(),
        g4.wf(),
        ball.wf(),
        score.wf(),
        old(rng).wf(),
        opt_ii(ef1) == spec_effect(*g1, *f1, *a1, *ball),
        opt_ii(ef2) == spec_effect(*g2, *f2, *a2, *ball),
        opt_ii(ef3) == spec_effect(*g3, *e1, *a3, *ball),
        opt_ii(ef4) == spec_effect(*g4, *e2, *a4, *ball),
        ef1 matches Some(p) ==> -1_000_000_000 <= p.0 <= 1_000_000_000 && -1_000_000_000 <= p.1 <= 1_000_000_000,
        ef2 matches Some(p) ==> -1_000_000_000 <= p.0 <= 1_000_000_000 && -1_000_000_000 <= p.1 <= 1_000_000_000,
        ef3 matches Some(p) ==> -1_000_000_000 <= p.0 <= 1_000_000_000 && -1_000_000_000 <= p.1 <= 1_000_000_000,
        ef4 matches Some(p) ==> -1_000_000_000 <= p.0 <= 1_000_000_000 && -1_000_000_000 <= p.1 <= 1_000_000_000,
        -MAX_COORD <= p1x <= MAX_COORD,
        -MAX_COORD <= p1y <= MAX_COORD,
        -MAX_COORD <= p2x <= MAX_COORD,
        -MAX_COORD <= p2y <= MAX_COORD,
        -MAX_COORD <= p3x <= MAX_COORD,
        -MAX_COORD <= p3y <= MAX_COORD,
        -MAX_COORD <= p4x <= MAX_COORD,
        -MAX_COORD <= p4y <= MAX_COORD,
    ensures
        final(rng).wf(),
        match r {
            Ok(t) => {
                &&& spec_ball_out(
                    *f1, *f2, *e1, *e2, *a1, *a2, *a3, *a4, *g1, *g2, *g3, *g4, *ball, score,
                    toucher, p1x as int, p1y as int, p2x as int, p2y as int, p3x as int,
                    p3y as int, p4x as int, p4y as int, old(rng).s as int,
                ) == Some((t.0, t.1, t.2, final(rng).s as int))
                &&& t.0.wf()
                &&& t.1.wf()
                &&& -g1.field_half_length <= t.0.ball_position.x <= g1.field_half_length
                &&& -g1.field_half_width <= t.0.ball_position.y <= g1.field_half_width
                &&& score.friendly_score <= t.1.friendly_score
                &&& score.friendly_goal_score <= t.1.friendly_goal_score
                &&& score.friendly_out_of_bounds_score <= t.1.friendly_out_of_bounds_score
                &&& score.enemy_score <= t.1.enemy_score
                &&& score.enemy_goal_score <= t.1.enemy_goal_score
                &&& score.enemy_out_of_bounds_score <= t.1.enemy_out_of_bounds_score
            },
            Err(_) => spec_ball_out(
                *f1, *f2, *e1, *e2, *a1, *a2, *a3, *a4, *g1, *g2, *g3, *g4, *ball, score,
                toucher, p1x as int, p1y as int, p2x as int, p2y as int, p3x as int, p3y as int,
                p4x as int, p4y as int, old(rng).s as int,
            ) is None,
        },
{
    let (bv0, bsy) = ball_impulses(
        f1, f2, e1, e2, a1, a2, a3, a4, g1, g2, g3, g4, ball, ef1, ef2, ef3, ef4, rng,
    );
    let bvx0: i64 = bv0.x;
    let bvy0: i64 = bv0.y;
    let bvz0: i64 = bv0.z;
    // Rolling friction toward rest, and gravity on the vertical axis.
    let decn: i64 = mulb(g1.ball_fric_k, 157, 1_000_000, 157);
    proof {
        lemma_tdiv_bound(decn as int, 1000, 157_000_000);
    }
    let dec: i64 = idiv(decn, 1000);
    let bvx: i64 = toward(bvx0, dec);
    let bvy: i64 = toward(bvy0, dec);
    let bvz: i64 = bvz0 - 157;
    if bvx < -MAX_COORD || bvx > MAX_COORD || bvy < -MAX_COORD || bvy > MAX_COORD || bvz
        < -MAX_COORD || bvz > MAX_COORD {
        return Err(PhysicsDivergedError);
    }
    let bx16: i64 = mulb(bvx, DT_MS, MAX_COORD, 16);
    let by16: i64 = mulb(bvy, DT_MS, MAX_COORD, 16);
    let bz16: i64 = mulb(bvz, DT_MS, MAX_COORD, 16);
    proof {
        lemma_tdiv_bound(bx16 as int, 1000, 16_000_000_000);
        lemma_tdiv_bound(by16 as int, 1000, 16_000_000_000);
        lemma_tdiv_bound(bz16 as int, 1000, 16_000_000_000);
    }
    let bpx: i64 = ball.ball_position.x + idiv(bx16, 1000);
    let bpy: i64 = ball.ball_position.y + idiv(by16, 1000);
    let bpz0: i64 = ball.ball_position.z + idiv(bz16, 1000);
    let bounced: bool = bpz0 < g1.ball_radius;
    let bpz: i64 = if bounced {
        g1.ball_radius
    } else {
        bpz0
    };
    let bvz2: i64 = if bounced {
        let bn: i64 = mulb(bvz, g1.ball_elasticity, MAX_COORD, 1_000_000);
        proof {
            lemma_tdiv_bound(bn as int, 1000, 1_000_000_000_000_000);
        }
        -idiv(bn, 1000)
    } else {
        bvz
    };
    if bvz2 < -MAX_COORD || bvz2 > MAX_COORD || bpx < -MAX_COORD || bpx > MAX_COORD || bpy
        < -MAX_COORD || bpy > MAX_COORD || bpz < -MAX_COORD || bpz > MAX_COORD {
        return Err(PhysicsDivergedError);
    }
    // Who touched the ball decides out-of-bounds awards; later slots win.
    let t1: Toucher = if touches(bpx, bpy, p4x, p4y, g4) {
        Toucher::Enemy
    } else if touches(bpx, bpy, p3x, p3y, g3) {
        Toucher::Enemy
    } else if touches(bpx, bpy, p2x, p2y, g2) {
        Toucher::Friendly
    } else if touches(bpx, bpy, p1x, p1y, g1) {
        Toucher::Friendly
    } else {
        toucher
    };
    let c = classify(g1, bpx, bpy);
    let (score2, t2, reset) = track_score(score, t1, c);
    let ball2: BallState = if reset {
        BallState {
            ball_position: Vec3 { x: 0, y: 0, z: g1.ball_radius },
            ball_spin: Vec3 { x: 0, y: 0, z: 0 },
            ball_velocity: Vec3 { x: 0, y: 0, z: 0 },
        }
    } else {
        BallState {
            ball_position: Vec3 { x: bpx, y: bpy, z: bpz },
            ball_spin: Vec3 { x: ball.ball_spin.x, y: bsy, z: ball.ball_spin.z },
            ball_velocity: Vec3 { x: bvx, y: bvy, z: bvz2 },
        }
    };
    Ok((ball2, score2, t2))
}

/// Advances the whole match one tick: every robot under its action, then the
/// ball under the dribble and kick impulses, ground contact and friction,
/// then the scoring state machine.
///
/// `Ok` pins every field of the new state to the tick's inputs and the
/// generator seed (the step is deterministic); every orientation stays
/// unit-norm; the score counters never decrease and each side's total stays
/// the sum of its two causes. `Err` reports a diverged (non-representable)
/// pose and comes exactly when the divergence predicates say so.
#[verifier::rlimit(100)]
pub fn simulate(
    game_state: &GameState,
    friendly_bot_1_action: &Action,
    friendly_bot_2_action: &Action,
    enemy_bot_1_action: &Action,
    enemy_bot_2_action: &Action,
    friendly_bot_1_geom: &BotGeomData,
    friendly_bot_2_geom: &BotGeomData,
    enemy_bot_1_geom: &BotGeomData,
    enemy_bot_2_geom: &BotGeomData,
    rng: &mut RngState,
) -> (r: Result<GameState, PhysicsDivergedError>)
    requires
        game_state.wf(),
        friendly_bot_1_geom.wf(),
        friendly_bot_2_geom.wf(),
        enemy_bot_1_geom.wf(),
        enemy_bot_2_geom.wf(),
        old(rng).wf(),
    ensures
        final(rng).wf(),
        match r {
            Ok(s2) => {
                &&& spec_bot_rel(
                    game_state.friendly_bot_1,
                    *friendly_bot_1_action,
                    *friendly_bot_1_geom,
                    s2.friendly_bot_1,
                )
                &&& spec_bot_rel(
                    game_state.friendly_bot_2,
                    *friendly_bot_2_action,
                    *friendly_bot_2_geom,
                    s2.friendly_bot_2,
                )
                &&& spec_bot_rel(
                    game_state.enemy_bot_1,
                    *enemy_bot_1_action,
                    *enemy_bot_1_geom,
                    s2.enemy_bot_1,
                )
                &&& spec_bot_rel(
                    game_state.enemy_bot_2,
                    *enemy_bot_2_action,
                    *enemy_bot_2_geom,
                    s2.enemy_bot_2,
                )
                &&& spec_ball_out(
                    game_state.friendly_bot_1,
                    game_state.friendly_bot_2,
                    game_state.enemy_bot_1,
                    game_state.enemy_bot_2,
                    *friendly_bot_1_action,
                    *friendly_bot_2_action,
                    *enemy_bot_1_action,
                    *enemy_bot_2_action,
                    *friendly_bot_1_geom,
                    *friendly_bot_2_geom,
                    *enemy_bot_1_geom,
                    *enemy_bot_2_geom,
                    game_state.ball,
                    game_state.score,
                    game_state.last_toucher,
                    spec_bot_next_pos(game_state.friendly_bot_1, *friendly_bot_1_action, *friendly_bot_1_geom).0,
                    spec_bot_next_pos(game_state.friendly_bot_1, *friendly_bot_1_action, *friendly_bot_1_geom).1,
                    spec_bot_next_pos(game_state.friendly_bot_2, *friendly_bot_2_action, *friendly_bot_2_geom).0,
                    spec_bot_next_pos(game_state.friendly_bot_2, *friendly_bot_2_action, *friendly_bot_2_geom).1,
                    spec_bot_next_pos(game_state.enemy_bot_1, *enemy_bot_1_action, *enemy_bot_1_geom).0,
                    spec_bot_next_pos(game_state.enemy_bot_1, *enemy_bot_1_action, *enemy_bot_1_geom).1,
                    spec_bot_next_pos(game_state.enemy_bot_2, *enemy_bot_2_action, *enemy_bot_2_geom).0,
                    spec_bot_next_pos(game_state.enemy_bot_2, *enemy_bot_2_action, *enemy_bot_2_geom).1,
                    old(rng).s as int,
                ) == Some((s2.ball, s2.score, s2.last_toucher, final(rng).s as int))
                &&& s2.friendly_bot_1.orientation.is_unit()
                &&& s2.friendly_bot_2.orientation.is_unit()
                &&& s2.enemy_bot_1.orientation.is_unit()
                &&& s2.enemy_bot_2.orientation.is_unit()
                &&& s2.score.wf()
                &&& game_state.score.friendly_score <= s2.score.friendly_score
                &&& game_state.score.friendly_goal_score <= s2.score.friendly_goal_score
                &&& game_state.score.friendly_out_of_bounds_score
                    <= s2.score.friendly_out_of_bounds_score
                &&& game_state.score.enemy_score <= s2.score.enemy_score
                &&& game_state.score.enemy_goal_score <= s2.score.enemy_goal_score
                &&& game_state.score.enemy_out_of_bounds_score
                    <= s2.score.enemy_out_of_bounds_score
                &&& s2.wf()
                &&& -friendly_bot_1_geom.field_half_length <= s2.ball.ball_position.x
                    <= friendly_bot_1_geom.field_half_length
                &&& -friendly_bot_1_geom.field_half_width <= s2.ball.ball_position.y
                    <= friendly_bot_1_geom.field_half_width
                &&& !spec_bot_div(
                    game_state.friendly_bot_1,
                    *friendly_bot_1_action,
                    *friendly_bot_1_geom,
                )
                &&& !spec_bot_div(
                    game_state.friendly_bot_2,
                    *friendly_bot_2_action,
                    *friendly_bot_2_geom,
                )
                &&& !spec_bot_div(game_state.enemy_bot_1, *enemy_bot_1_action, *enemy_bot_1_geom)
                &&& !spec_bot_div(game_state.enemy_bot_2, *enemy_bot_2_action, *enemy_bot_2_geom)
            },
            Err(_) => {
                ||| spec_bot_div(
                    game_state.friendly_bot_1,
                    *friendly_bot_1_action,
                    *friendly_bot_1_geom,
                )
                ||| spec_bot_div(
                    game_state.friendly_bot_2,
                    *friendly_bot_2_action,
                    *friendly_bot_2_geom,
                )
                ||| spec_bot_div(game_state.enemy_bot_1, *enemy_bot_1_action, *enemy_bot_1_geom)
                ||| spec_bot_div(game_state.enemy_bot_2, *enemy_bot_2_action, *enemy_bot_2_geom)
                ||| spec_ball_out(
                    game_state.friendly_bot_1,
                    game_state.friendly_bot_2,
                    game_state.enemy_bot_1,
                    game_state.enemy_bot_2,
                    *friendly_bot_1_action,
                    *friendly_bot_2_action,
                    *enemy_bot_1_action,
                    *enemy_bot_2_action,
                    *friendly_bot_1_geom,
                    *friendly_bot_2_geom,
                    *enemy_bot_1_geom,
                    *enemy_bot_2_geom,
                    game_state.ball,
                    game_state.score,
                    game_state.last_toucher,
                    spec_bot_next_pos(game_state.friendly_bot_1, *friendly_bot_1_action, *friendly_bot_1_geom).0,
                    spec_bot_next_pos(game_state.friendly_bot_1, *friendly_bot_1_action, *friendly_bot_1_geom).1,
                    spec_bot_next_pos(game_state.friendly_bot_2, *friendly_bot_2_action, *friendly_bot_2_geom).0,
                    spec_bot_next_pos(game_state.friendly_bot_2, *friendly_bot_2_action, *friendly_bot_2_geom).1,
                    spec_bot_next_pos(game_state.enemy_bot_1, *enemy_bot_1_action, *enemy_bot_1_geom).0,
                    spec_bot_next_pos(game_state.enemy_bot_1, *enemy_bot_1_action, *enemy_bot_1_geom).1,
                    spec_bot_next_pos(game_state.enemy_bot_2, *enemy_bot_2_action, *enemy_bot_2_geom).0,
                    spec_bot_next_pos(game_state.enemy_bot_2, *enemy_bot_2_action, *enemy_bot_2_geom).1,
                    old(rng).s as int,
                ) is None
            },
        },
{
    let g1 = friendly_bot_1_geom;
    let g2 = friendly_bot_2_geom;
    let g3 = enemy_bot_1_geom;
    let g4 = enemy_bot_2_geom;
    let ball = &game_state.ball;
    let nf1 = match bot_phase(&game_state.friendly_bot_1, friendly_bot_1_action, g1, ball) {
        Ok(p) => p,
        Err(e) => {
            return Err(e);
        },
    };
    let nf2 = match bot_phase(&game_state.friendly_bot_2, friendly_bot_2_action, g2, ball) {
        Ok(p) => p,
        Err(e) => {
            return Err(e);
        },
    };
    let ne1 = match bot_phase(&game_state.enemy_bot_1, enemy_bot_1_action, g3, ball) {
        Ok(p) => p,
        Err(e) => {
            return Err(e);
        },
    };
    let ne2 = match bot_phase(&game_state.enemy_bot_2, enemy_bot_2_action, g4, ball) {
        Ok(p) => p,
        Err(e) => {
            return Err(e);
        },
    };
    let out = match ball_phase(
        &game_state.friendly_bot_1,
        &game_state.friendly_bot_2,
        &game_state.enemy_bot_1,
        &game_state.enemy_bot_2,
        friendly_bot_1_action,
        friendly_bot_2_action,
        enemy_bot_1_action,
        enemy_bot_2_action,
        g1,
        g2,
        g3,
        g4,
        ball,
        game_state.score,
        game_state.last_toucher,
        nf1.1,
        nf2.1,
        ne1.1,
        ne2.1,
        nf1.0.position.x,
        nf1.0.position.y,
        nf2.0.position.x,
        nf2.0.position.y,
        ne1.0.position.x,
        ne1.0.position.y,
        ne2.0.position.x,
        ne2.0.position.y,
        rng,
    ) {
        Ok(t) => t,
        Err(e) => {
            return Err(e);
        },
    };
    Ok(
        GameState {
            friendly_bot_1: nf1.0,
            friendly_bot_2: nf2.0,
            enemy_bot_1: ne1.0,
            enemy_bot_2: ne2.0,
            ball: out.0,
            score: out.1,
            last_toucher: out.2,
        },
    )
}

/// The ball velocity change one robot's dribbler centering force causes.
fn dribble_dv(bot: &BotState, e: Option<(i64, i64)>, g1: &BotGeomData) -> (r: Vec3)
    requires
        bot.wf(),
        g1.wf(),
        match e {
            Some(p) => -1_000_000_000 <= p.0 <= 1_000_000_000 && -1_000_000_000 <= p.1
                <= 1_000_000_000,
            None => true,
        },
    ensures
        (r.x as int, r.y as int, r.z as int) == spec_dribble_dv(
            bot.orientation,
            match e {
                Some(p) => Some((p.0 as int, p.1 as int)),
                None => None,
            },
            *g1,
        ),
        r.abs_le(100_000_000_000_000),
{
    proof {
        lemma_unit_comps(bot.orientation);
    }
    match e {
        Some(p) => {
            let fn16: i64 = mulb(p.1, DT_MS, 1_000_000_000, 16);
            proof {
                lemma_tdiv_bound(fn16 as int, g1.ball_mass as int, 16_000_000_000);
            }
            let dvl: i64 = idiv(fn16, g1.ball_mass);
            qrotate(bot.orientation, Vec3 { x: 0, y: dvl, z: 0 })
        },
        None => Vec3 { x: 0, y: 0, z: 0 },
    }
}

/// The world-frame ball velocity change of one robot's kick opportunity;
/// the ball's constants come from `gb`.
fn kick_dv(bot: &BotState, a: &Action, g: &BotGeomData, gb: &BotGeomData, ball: &BallState, rng: &mut RngState)
    -> (r: Vec3)
    requires
        bot.wf(),
        g.wf(),
        gb.wf(),
        ball.wf(),
        old(rng).wf(),
    ensures
        final(rng).wf(),
        ({
            let d = spec_body_offset(*bot, *ball);
            let k = spec_kick(*g, *gb, a.kicker_accel as int, d.0, d.1, old(rng).s as int);
            &&& (r.x as int, r.y as int, r.z as int) == spec_kick_dv(bot.orientation, k)
            &&& final(rng).s as int == spec_kick_s(k, old(rng).s as int)
        }),
        r.abs_le(100_000_000_000_000),
{
    proof {
        lemma_unit_comps(bot.orientation);
    }
    let conj = qconj(bot.orientation);
    let d: Vec3 = qrotate(conj, vsub(ball.ball_position, bot.position));
    match kicker_step(g, gb, a.kicker_accel, d, rng) {
        Some(p) => qrotate(bot.orientation, Vec3 { x: p.0, y: p.1, z: 0 }),
        None => Vec3 { x: 0, y: 0, z: 0 },
    }
}

/// The backspin the last engaged dribbler imposes, else the current spin.
fn spin_override(e: Option<(i64, i64)>, cur: i64) -> (r: i64)
    requires
        match e {
            Some(p) => -1_000_000_000 <= p.0 <= 1_000_000_000,
            None => -1_000_000_000 <= cur <= 1_000_000_000,
        },
    ensures
        r as int == spec_spin_override(
            match e {
                Some(p) => Some((p.0 as int, p.1 as int)),
                None => None,
            },
            cur as int,
        ),
        -1_000_000_000 <= r <= 1_000_000_000,
{
    match e {
        Some(p) => p.0,
        None => cur,
    }
}

/// The ball at `(bx, by)` touches a robot standing at `(px, py)`.
fn touches(bx: i64, by: i64, px: i64, py: i64, g: &BotGeomData) -> (r: bool)
    requires
        g.wf(),
        -MAX_COORD <= bx <= MAX_COORD,
        -MAX_COORD <= by <= MAX_COORD,
        -MAX_COORD <= px <= MAX_COORD,
        -MAX_COORD <= py <= MAX_COORD,
    ensures
        r == spec_touch(bx as int, by as int, px as int, py as int, *g),
{
    let dx: i64 = bx - px;
    let dy: i64 = by - py;
    let dx2: i64 = mulb(dx, dx, 2_000_000_000, 2_000_000_000);
    let dy2: i64 = mulb(dy, dy, 2_000_000_000, 2_000_000_000);
    let rs: i64 = g.bot_radius + g.ball_radius;
    let rs2: i64 = mulb(rs, rs, 2_000_000, 2_000_000);
    dx2 + dy2 <= rs2
}

/// The full Ok-contract of one tick: every robot satisfies the bot step
/// relation and the ball, score, toucher and generator satisfy the ball
/// relation.
pub open spec fn spec_step_ok(
    gs: GameState,
    a1: Action,
    a2: Action,
    a3: Action,
    a4: Action,
    g1: BotGeomData,
    g2: BotGeomData,
    g3: BotGeomData,
    g4: BotGeomData,
    s0: int,
    out: GameState,
    s1: int,
) -> bool {
    &&& spec_bot_rel(gs.friendly_bot_1, a1, g1, out.friendly_bot_1)
    &&& spec_bot_rel(gs.friendly_bot_2, a2, g2, out.friendly_bot_2)
    &&& spec_bot_rel(gs.enemy_bot_1, a3, g3, out.enemy_bot_1)
    &&& spec_bot_rel(gs.enemy_bot_2, a4, g4, out.enemy_bot_2)
    &&& spec_ball_out(
        gs.friendly_bot_1,
        gs.friendly_bot_2,
        gs.enemy_bot_1,
        gs.enemy_bot_2,
        a1,
        a2,
        a3,
        a4,
        g1,
        g2,
        g3,
        g4,
        gs.ball,
        gs.score,
        gs.last_toucher,
        spec_bot_next_pos(gs.friendly_bot_1, a1, g1).0,
        spec_bot_next_pos(gs.friendly_bot_1, a1, g1).1,
        spec_bot_next_pos(gs.friendly_bot_2, a2, g2).0,
        spec_bot_next_pos(gs.friendly_bot_2, a2, g2).1,
        spec_bot_next_pos(gs.enemy_bot_1, a3, g3).0,
        spec_bot_next_pos(gs.enemy_bot_1, a3, g3).1,
        spec_bot_next_pos(gs.enemy_bot_2, a4, g4).0,
        spec_bot_next_pos(gs.enemy_bot_2, a4, g4).1,
        s0,
    ) == Some((out.ball, out.score, out.last_toucher, s1))
}

/// Every observable field of two whole states agrees.
pub open spec fn spec_state_eq(a: GameState, b: GameState) -> bool {
    &&& spec_bot_eq(a.friendly_bot_1, b.friendly_bot_1)
    &&& spec_bot_eq(a.friendly_bot_2, b.friendly_bot_2)
    &&& spec_bot_eq(a.enemy_bot_1, b.enemy_bot_1)
    &&& spec_bot_eq(a.enemy_bot_2, b.enemy_bot_2)
    &&& a.ball == b.ball
    &&& a.score == b.score
    &&& a.last_toucher == b.last_toucher
}

/// Determinism of a tick: two results of the step relation on identical
/// state, actions, geometries and seed agree on every field of the new
/// state and on the generator state after the tick.
pub proof fn lemma_step_deterministic(
    gs: GameState,
    a1: Action,
    a2: Action,
    a3: Action,
    a4: Action,
    g1: BotGeomData,
    g2: BotGeomData,
    g3: BotGeomData,
    g4: BotGeomData,
    s0: int,
    out1: GameState,
    s1: int,
    out2: GameState,
    s2: int,
)
    requires
        spec_step_ok(gs, a1, a2, a3, a4, g1, g2, g3, g4, s0, out1, s1),
        spec_step_ok(gs, a1, a2, a3, a4, g1, g2, g3, g4, s0, out2, s2),
    ensures
        spec_state_eq(out1, out2),
        s1 == s2,
{
    assert(out1.friendly_bot_1.wheel_states@ =~= out2.friendly_bot_1.wheel_states@);
    assert(out1.friendly_bot_2.wheel_states@ =~= out2.friendly_bot_2.wheel_states@);
    assert(out1.enemy_bot_1.wheel_states@ =~= out2.enemy_bot_1.wheel_states@);
    assert(out1.enemy_bot_2.wheel_states@ =~= out2.enemy_bot_2.wheel_states@);
}

/// A valid kickoff configuration: robots on their own halves facing the
/// center, the ball resting at the field center, all scores zero and no
/// toucher recorded.
pub fn initial_state(g: &BotGeomData) -> (r: GameState)
    requires
        g.wf(),
    ensures
        r.wf(),
        ({
            let hx = spec_tdiv(g.field_half_length as int, 2);
            let hy = spec_tdiv(g.field_half_width as int, 2);
            &&& (r.friendly_bot_1.position.x as int, r.friendly_bot_1.position.y as int, r.friendly_bot_1.position.z as int) == (-hx, -hy, 0int)
            &&& (r.friendly_bot_2.position.x as int, r.friendly_bot_2.position.y as int, r.friendly_bot_2.position.z as int) == (-hx, hy, 0int)
            &&& (r.enemy_bot_1.position.x as int, r.enemy_bot_1.position.y as int, r.enemy_bot_1.position.z as int) == (hx, -hy, 0int)
            &&& (r.enemy_bot_2.position.x as int, r.enemy_bot_2.position.y as int, r.enemy_bot_2.position.z as int) == (hx, hy, 0int)
        }),
        r.friendly_bot_1.orientation == (Quat { x: 0, y: 0, z: 0, w: 1000 }),
        r.friendly_bot_2.orientation == (Quat { x: 0, y: 0, z: 0, w: 1000 }),
        r.enemy_bot_1.orientation == (Quat { x: 0, y: 0, z: 1000, w: 0 }),
        r.enemy_bot_2.orientation == (Quat { x: 0, y: 0, z: 1000, w: 0 }),
        r.friendly_bot_1.velocity == (Vec3 { x: 0, y: 0, z: 0 }),
        r.friendly_bot_2.velocity == (Vec3 { x: 0, y: 0, z: 0 }),
        r.enemy_bot_1.velocity == (Vec3 { x: 0, y: 0, z: 0 }),
        r.enemy_bot_2.velocity == (Vec3 { x: 0, y: 0, z: 0 }),
        r.friendly_bot_1.spin == (Vec3 { x: 0, y: 0, z: 0 }),
        r.friendly_bot_2.spin == (Vec3 { x: 0, y: 0, z: 0 }),
        r.enemy_bot_1.spin == (Vec3 { x: 0, y: 0, z: 0 }),
        r.enemy_bot_2.spin == (Vec3 { x: 0, y: 0, z: 0 }),
        r.friendly_bot_1.wheel_states@.len() == g.n_wheels as int,
        r.friendly_bot_2.wheel_states@.len() == g.n_wheels as int,
        r.enemy_bot_1.wheel_states@.len() == g.n_wheels as int,
        r.enemy_bot_2.wheel_states@.len() == g.n_wheels as int,
        r.ball.ball_position.x == 0,
        r.ball.ball_position.y == 0,
        r.ball.ball_position.z == g.ball_radius,
        r.ball.ball_spin == (Vec3 { x: 0, y: 0, z: 0 }),
        r.ball.ball_velocity == (Vec3 { x: 0, y: 0, z: 0 }),
        r.score == (ScoreState {
            friendly_score: 0u16,
            friendly_out_of_bounds_score: 0u16,
            friendly_goal_score: 0u16,
            enemy_score: 0u16,
            enemy_out_of_bounds_score: 0u16,
            enemy_goal_score: 0u16,
        }),
        r.last_toucher is Nobody,
{
    let half_x: i64 = idiv(g.field_half_length, 2);
    let half_y: i64 = idiv(g.field_half_width, 2);
    let facing_pos_x = Quat { x: 0, y: 0, z: 0, w: 1000 };
    // Yaw of half a turn: the enemy side faces the negative x axis.
    let facing_neg_x = Quat { x: 0, y: 0, z: 1000, w: 0 };
    let f1 = initial_bot(g, -half_x, -half_y, facing_pos_x);
    let f2 = initial_bot(g, -half_x, half_y, facing_pos_x);
    let e1 = initial_bot(g, half_x, -half_y, facing_neg_x);
    let e2 = initial_bot(g, half_x, half_y, facing_neg_x);
    GameState {
        friendly_bot_1: f1,
        friendly_bot_2: f2,
        enemy_bot_1: e1,
        enemy_bot_2: e2,
        ball: BallState {
            ball_position: Vec3 { x: 0, y: 0, z: g.ball_radius },
            ball_spin: Vec3 { x: 0, y: 0, z: 0 },
            ball_velocity: Vec3 { x: 0, y: 0, z: 0 },
        },
        score: ScoreState::zero(),
        last_toucher: Toucher::Nobody,
    }
}

/// One robot at rest at a kickoff position.
fn initial_bot(g: &BotGeomData, px: i64, py: i64, q: Quat) -> (r: BotState)
    requires
        g.wf(),
        -1_000_000 <= px <= 1_000_000,
        -1_000_000 <= py <= 1_000_000,
        q.is_unit(),
    ensures
        r.wf(),
        r.position == (Vec3 { x: px, y: py, z: 0 }),
        r.orientation == q,
        r.velocity == (Vec3 { x: 0, y: 0, z: 0 }),
        r.spin == (Vec3 { x: 0, y: 0, z: 0 }),
        r.wheel_states@.len() == g.n_wheels as int,
        r.dribber_speed == 0,
{
    let mut wheels: Vec<WheelState> = Vec::new();
    let n: usize = g.n_wheels as usize;
    let mut i: usize = 0;
    while i < n
        invariant
            0 <= i <= n,
            n <= 8,
            wheels@.len() == i,
            forall|k: int| 0 <= k < i ==> #[trigger] wheels@[k].wf(),
        decreases n - i,
    {
        wheels.push(
            WheelState {
                big_wheel_velocity: 0,
                big_wheel_orientation: 0,
                small_wheel_velocity: Vec3 { x: 0, y: 0, z: 0 },
            },
        );
        i = i + 1;
    }
    BotState {
        position: Vec3 { x: px, y: py, z: 0 },
        velocity: Vec3 { x: 0, y: 0, z: 0 },
        orientation: q,
        spin: Vec3 { x: 0, y: 0, z: 0 },
        wheel_states: wheels,
        dribber_speed: 0,
        kicker_position: Vec3 { x: 0, y: 0, z: 0 },
        kicker_velocity: Vec3 { x: 0, y: 0, z: 0 },
    }
}

} // verus!
