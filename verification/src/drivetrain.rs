//! Per-robot drivetrain: maps commanded wheel accelerations and the current
//! wheel state into the traction force and yaw torque applied to the chassis
//! this tick, under Coulomb (static/kinetic) friction and the wheel torque
//! and speed caps.
//!
//! Conventions: unit wheel radius and unit wheel inertia, so a commanded
//! wheel acceleration is the torque it requires and a wheel torque is the
//! traction force it asks of the contact. Big wheels drive along the chassis
//! forward axis; wheels alternate left (even index) and right (odd index) of
//! the chassis center, a lever arm of `bot_radius` each.

use vstd::prelude::*;
use crate::SCALE;
use crate::spec_clamp;
use crate::clamp;
use crate::data::Vec3;
use crate::data::WheelState;
use crate::data::MAX_COORD;
use crate::geom::BotGeomData;
use crate::linalg::idiv;
use crate::linalg::mulb;
use crate::linalg::lemma_tdiv_bound;
use crate::linalg::spec_tdiv;

verus! {

/// Standard gravity in milli m/s^2.
pub const GRAVITY: i64 = 9_810;

/// Length of one tick in milliseconds.
pub const DT_MS: i64 = 16;

/// Coulomb contact: while the demanded force stays within the static limit
/// the contact grips and transmits it unchanged; beyond it the contact slips
/// and transmits exactly the kinetic limit, signed like the demand.
pub open spec fn spec_coulomb(desired: int, lim_s: int, lim_k: int) -> (int, bool) {
    if -lim_s <= desired <= lim_s {
        (desired, false)
    } else if desired > lim_s {
        (lim_k, true)
    } else {
        (-lim_k, true)
    }
}

/// Applies the Coulomb friction law; the returned flag reports slipping.
pub fn coulomb(desired: i64, lim_s: i64, lim_k: i64) -> (r: (i64, bool))
    requires
        0 <= lim_s <= 100_000_000_000,
        0 <= lim_k <= 100_000_000_000,
        -4_000_000_000_000_000 <= desired <= 4_000_000_000_000_000,
    ensures
        (r.0 as int, r.1) == spec_coulomb(desired as int, lim_s as int, lim_k as int),
        !r.1 ==> -lim_s <= r.0 <= lim_s && r.0 == desired,
        r.1 ==> r.0 == lim_k || r.0 == -lim_k,
{
    if -lim_s <= desired && desired <= lim_s {
        (desired, false)
    } else if desired > lim_s {
        (lim_k, true)
    } else {
        (-lim_k, true)
    }
}

/// The command addressed to wheel `i`: the action's entry, or zero for a
/// wheel the action does not mention.
pub open spec fn spec_wheel_cmd(ac: Seq<i64>, i: int) -> int {
    if 0 <= i < ac.len() {
        ac[i] as int
    } else {
        0
    }
}

/// Normal load carried by one wheel (milli newtons).
pub open spec fn spec_wheel_load(g: BotGeomData) -> int {
    spec_tdiv(spec_tdiv(g.bot_mass * GRAVITY, SCALE as int), g.n_wheels as int)
}

/// Static traction limit of one big wheel.
pub open spec fn spec_wheel_lim_s(g: BotGeomData) -> int {
    spec_tdiv(g.wheel_fric_s * spec_wheel_load(g), SCALE as int)
}

/// Kinetic traction of one slipping big wheel.
pub open spec fn spec_wheel_lim_k(g: BotGeomData) -> int {
    spec_tdiv(g.wheel_fric_k * spec_wheel_load(g), SCALE as int)
}

/// Torque realized at one wheel: the commanded acceleration clamped to the
/// torque cap.
pub open spec fn spec_wheel_torque(g: BotGeomData, cmd: int) -> int {
    spec_clamp(cmd, -g.wheel_max_torque as int, g.wheel_max_torque as int)
}

/// Traction force one wheel passes to the ground this tick.
pub open spec fn spec_wheel_applied(g: BotGeomData, cmd: int) -> int {
    spec_coulomb(spec_wheel_torque(g, cmd), spec_wheel_lim_s(g), spec_wheel_lim_k(g)).0
}

/// The next state of one wheel: speed integrated under the realized torque
/// and clamped to the speed cap; the angle accumulates (saturating at the
/// representable bound); the passive small wheels roll with the chassis and
/// so track its body-frame velocity `sv`.
pub open spec fn spec_wheel_next(w: WheelState, g: BotGeomData, cmd: int, sv: Vec3) -> WheelState {
    let torque = spec_wheel_torque(g, cmd);
    let vel = spec_clamp(
        w.big_wheel_velocity + spec_tdiv(torque * DT_MS, SCALE as int),
        -g.wheel_max_speed as int,
        g.wheel_max_speed as int,
    );
    let ang = spec_clamp(
        w.big_wheel_orientation + spec_tdiv(vel * DT_MS, SCALE as int),
        -MAX_COORD as int,
        MAX_COORD as int,
    );
    WheelState {
        big_wheel_velocity: vel as i64,
        big_wheel_orientation: ang as i64,
        small_wheel_velocity: sv,
    }
}

/// The Coulomb friction law at one wheel: whatever the command, while the
/// contact is not slipping the traction force never exceeds the static limit
/// `wheel_fric_s x normal_load`, and once slipping it equals the kinetic
/// traction `wheel_fric_k x normal_load` in magnitude.
pub proof fn lemma_wheel_friction_law(g: BotGeomData, cmd: int)
    requires
        g.wf(),
    ensures
        ({
            let c = spec_coulomb(
                spec_wheel_torque(g, cmd),
                spec_wheel_lim_s(g),
                spec_wheel_lim_k(g),
            );
            &&& !c.1 ==> -spec_wheel_lim_s(g) <= c.0 <= spec_wheel_lim_s(g)
            &&& c.1 ==> c.0 == spec_wheel_lim_k(g) || c.0 == -spec_wheel_lim_k(g)
        }),
{
}

/// Sum of the traction forces of the first `i` wheels (the chassis forward
/// force).
pub open spec fn spec_drive_fwd(ac: Seq<i64>, g: BotGeomData, i: int) -> int
    decreases i,
{
    if i <= 0 {
        0
    } else {
        spec_drive_fwd(ac, g, i - 1) + spec_wheel_applied(g, spec_wheel_cmd(ac, i - 1))
    }
}

/// Yaw torque of the first `i` wheels: each traction force times the signed
/// lever arm `bot_radius`, left wheels (even index) positive.
pub open spec fn spec_drive_yaw(ac: Seq<i64>, g: BotGeomData, i: int) -> int
    decreases i,
{
    if i <= 0 {
        0
    } else {
        let f = spec_wheel_applied(g, spec_wheel_cmd(ac, i - 1));
        let lever = spec_tdiv(f * g.bot_radius, SCALE as int);
        spec_drive_yaw(ac, g, i - 1) + if (i - 1) % 2 == 0 {
            lever
        } else {
            -lever
        }
    }
}

/// Advances every wheel one tick and accumulates the chassis forward force
/// and yaw torque; `sv` is the chassis' body-frame velocity the passive
/// small wheels roll with.
pub fn drivetrain_step(wheels: &Vec<WheelState>, ac: &Vec<i64>, g: &BotGeomData, sv: Vec3) -> (r: (
    Vec<WheelState>,
    i64,
    i64,
))
    requires
        g.wf(),
        wheels@.len() <= 8,
        forall|i: int| 0 <= i < wheels@.len() ==> #[trigger] wheels@[i].wf(),
        sv.abs_le(MAX_COORD as int),
    ensures
        r.0@.len() == wheels@.len(),
        forall|i: int|
            0 <= i < wheels@.len() ==> #[trigger] r.0@[i] == spec_wheel_next(
                wheels@[i],
                *g,
                spec_wheel_cmd(ac@, i),
                sv,
            ),
        forall|i: int| 0 <= i < r.0@.len() ==> #[trigger] r.0@[i].wf(),
        r.1 == spec_drive_fwd(ac@, *g, wheels@.len() as int),
        r.2 == spec_drive_yaw(ac@, *g, wheels@.len() as int),
        -100_000_000_000 <= r.1 <= 100_000_000_000,
        -100_000_000_000_000 <= r.2 <= 100_000_000_000_000,
{
    let load_num: i64 = mulb(g.bot_mass, GRAVITY, 1_000_000, 9_810);
    let load_all: i64 = idiv(load_num, 1000);
    let load: i64 = idiv(load_all, g.n_wheels as i64);
    proof {
        lemma_tdiv_bound(load_num as int, 1000, 9_810_000_000);
        lemma_tdiv_bound(load_all as int, g.n_wheels as int, 9_810_000);
    }
    let lsn: i64 = mulb(g.wheel_fric_s, load, 1_000_000, 9_810_000);
    let lkn: i64 = mulb(g.wheel_fric_k, load, 1_000_000, 9_810_000);
    proof {
        lemma_tdiv_bound(lsn as int, 1000, 9_810_000_000_000_000);
        lemma_tdiv_bound(lkn as int, 1000, 9_810_000_000_000_000);
    }
    let lim_s: i64 = idiv(lsn, 1000);
    let lim_k: i64 = idiv(lkn, 1000);

    let mut out: Vec<WheelState> = Vec::new();
    let mut fwd: i64 = 0;
    let mut yaw: i64 = 0;
    let n: usize = wheels.len();
    let mut i: usize = 0;
    while i < n
        invariant
            n == wheels@.len(),
            n <= 8,
            0 <= i <= n,
            g.wf(),
            forall|j: int| 0 <= j < n ==> #[trigger] wheels@[j].wf(),
            lim_s == spec_wheel_lim_s(*g),
            lim_k == spec_wheel_lim_k(*g),
            0 <= lim_s <= 10_000_000_000,
            0 <= lim_k <= 10_000_000_000,
            out@.len() == i,
            sv.abs_le(MAX_COORD as int),
            forall|j: int|
                0 <= j < i ==> #[trigger] out@[j] == spec_wheel_next(
                    wheels@[j],
                    *g,
                    spec_wheel_cmd(ac@, j),
                    sv,
                ),
            forall|j: int| 0 <= j < i ==> #[trigger] out@[j].wf(),
            fwd == spec_drive_fwd(ac@, *g, i as int),
            yaw == spec_drive_yaw(ac@, *g, i as int),
            -10_000_000_000 * (i as int) <= fwd <= 10_000_000_000 * (i as int),
            -10_000_000_000_000 * (i as int) <= yaw <= 10_000_000_000_000 * (i as int),
        decreases n - i,
    {
        proof {
            assert(wheels@[i as int].wf());
        }
        let cmd: i64 = if i < ac.len() {
            ac[i]
        } else {
            0
        };
        let torque: i64 = clamp(cmd, -g.wheel_max_torque, g.wheel_max_torque);
        proof {
            lemma_tdiv_bound(torque as int * DT_MS as int, 1000, 16_000_000);
        }
        let dv: i64 = idiv(mulb(torque, DT_MS, 1_000_000, 16), 1000);
        let vel: i64 = clamp(
            wheels[i].big_wheel_velocity + dv,
            -g.wheel_max_speed,
            g.wheel_max_speed,
        );
        proof {
            lemma_tdiv_bound(vel as int * DT_MS as int, 1000, 16_000_000);
        }
        let da: i64 = idiv(mulb(vel, DT_MS, 1_000_000, 16), 1000);
        let ang: i64 = clamp(wheels[i].big_wheel_orientation + da, -MAX_COORD, MAX_COORD);
        let next = WheelState {
            big_wheel_velocity: vel,
            big_wheel_orientation: ang,
            small_wheel_velocity: sv,
        };
        let (applied, _slipping) = coulomb(torque, lim_s, lim_k);
        let prod: i64 = mulb(applied, g.bot_radius, 10_000_000_000, 1_000_000);
        proof {
            lemma_tdiv_bound(prod as int, 1000, 10_000_000_000_000_000);
        }
        let lever: i64 = idiv(prod, 1000);
        out.push(next);
        fwd = fwd + applied;
        if i % 2 == 0 {
            yaw = yaw + lever;
        } else {
            yaw = yaw - lever;
        }
        i = i + 1;
    }
    (out, fwd, yaw)
}

} // verus!
