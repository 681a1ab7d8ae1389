//! Dribbler: a spinning roller on the front of the chassis. While the ball
//! rests inside the dribbler's contact volume the roller transfers backspin
//! to it (half-cone contact, scaled by the roller's middle radius) and a
//! centering force pulls the ball toward the roller's longitudinal center
//! plane.

use vstd::prelude::*;
use crate::SCALE;
use crate::spec_clamp;
use crate::clamp;
use crate::data::Vec3;
use crate::geom::BotGeomData;
use crate::drivetrain::DT_MS;
use crate::linalg::idiv;
use crate::linalg::mulb;
use crate::linalg::lemma_tdiv_bound;
use crate::linalg::spec_tdiv;

verus! {

/// The roller speed after one tick: the commanded acceleration, clamped to
/// the geometry's limits, integrated and capped at `dribbler_max_speed`.
pub open spec fn spec_dribbler_speed(g: BotGeomData, cur: int, accel: int) -> int {
    let a = spec_clamp(accel, -g.dribbler_max_speed as int, g.dribbler_max_speed as int);
    spec_clamp(
        cur + spec_tdiv(a * DT_MS, SCALE as int),
        -g.dribbler_max_speed as int,
        g.dribbler_max_speed as int,
    )
}

/// How far in front of the chassis the dribbler can hold the ball.
pub open spec fn spec_dribbler_reach(g: BotGeomData) -> int {
    if g.dribbler_hitbox@.len() >= 1 {
        g.dribbler_hitbox@[0] as int
    } else {
        0
    }
}

/// The ball (at body-frame offset `(dx, dy)`) rests against the dribbler.
pub open spec fn spec_dribbler_engaged(g: BotGeomData, dx: int, dy: int) -> bool {
    let front = dx - g.bot_radius - g.ball_radius;
    &&& g.have_dribbler
    &&& -g.ball_radius <= front <= spec_dribbler_reach(g)
    &&& -spec_tdiv(g.dribbler_width as int, 2) <= dy <= spec_tdiv(g.dribbler_width as int, 2)
}

/// The roller's contact radius at lateral offset `dy`: the double cone runs
/// from `dribbler_middle_radius` at the center plane to
/// `dribbler_edge_radius` at the half-width edge (straight half edge).
pub open spec fn spec_dribbler_radius_at(g: BotGeomData, dy: int) -> int {
    let half = spec_tdiv(g.dribbler_width as int, 2);
    let ady = if dy >= 0 { dy } else { -dy };
    let slope = if half > 0 {
        spec_tdiv((g.dribbler_edge_radius - g.dribbler_middle_radius) * ady, half)
    } else {
        0
    };
    crate::spec_clamp(g.dribbler_middle_radius + slope, 0, crate::geom::GEOM_MAX as int)
}

/// Backspin the roller imparts, proportional to the contact overlap: the
/// roller speed scaled by the cone radius at the ball's lateral offset,
/// opposing the roller's turn.
pub open spec fn spec_dribbler_spin(g: BotGeomData, speed: int, dy: int) -> int {
    -spec_tdiv(speed * spec_dribbler_radius_at(g, dy), SCALE as int)
}

/// Lateral centering force on the ball, pulling the offset `dy` toward zero.
pub open spec fn spec_dribbler_center_force(g: BotGeomData, dy: int) -> int {
    -spec_tdiv(g.dribbler_centering_tendency * dy, SCALE as int)
}

/// Advances the roller and, while the ball is engaged, returns the backspin
/// it imposes and the lateral centering force on the ball.
pub fn dribbler_step(g: &BotGeomData, cur: i64, accel: i64, d: Vec3) -> (r: (
    i64,
    Option<(i64, i64)>,
))
    requires
        g.wf(),
        -1_000_000_000 <= cur <= 1_000_000_000,
        d.abs_le(100_000_000_000_000),
    ensures
        r.0 == spec_dribbler_speed(*g, cur as int, accel as int),
        -g.dribbler_max_speed <= r.0 <= g.dribbler_max_speed,
        match r.1 {
            Some(e) => {
                &&& spec_dribbler_engaged(*g, d.x as int, d.y as int)
                &&& e.0 == spec_dribbler_spin(*g, r.0 as int, d.y as int)
                &&& e.1 == spec_dribbler_center_force(*g, d.y as int)
                &&& -1_000_000_000 <= e.0 <= 1_000_000_000
                &&& -1_000_000_000 <= e.1 <= 1_000_000_000
            },
            None => !spec_dribbler_engaged(*g, d.x as int, d.y as int),
        },
{
    let a: i64 = clamp(accel, -g.dribbler_max_speed, g.dribbler_max_speed);
    let an: i64 = mulb(a, DT_MS, 1_000_000, 16);
    proof {
        lemma_tdiv_bound(an as int, 1000, 16_000_000);
    }
    let speed: i64 = clamp(cur + idiv(an, 1000), -g.dribbler_max_speed, g.dribbler_max_speed);
    if !g.have_dribbler {
        return (speed, None);
    }
    let front: i64 = d.x - g.bot_radius - g.ball_radius;
    let reach: i64 = if g.dribbler_hitbox.len() >= 1 {
        g.dribbler_hitbox[0]
    } else {
        0
    };
    let half: i64 = idiv(g.dribbler_width, 2);
    if !(-g.ball_radius <= front && front <= reach && -half <= d.y && d.y <= half) {
        return (speed, None);
    }
    let ady: i64 = if d.y >= 0 {
        d.y
    } else {
        -d.y
    };
    let sl: i64 = if half > 0 {
        let sn0: i64 = mulb(g.dribbler_edge_radius - g.dribbler_middle_radius, ady, 2_000_000, 1_000_000);
        proof {
            lemma_tdiv_bound(sn0 as int, half as int, 2_000_000_000_000);
        }
        idiv(sn0, half)
    } else {
        0
    };
    let reff: i64 = clamp(g.dribbler_middle_radius + sl, 0, crate::geom::GEOM_MAX);
    let sn: i64 = mulb(speed, reff, 1_000_000, 1_000_000);
    proof {
        lemma_tdiv_bound(sn as int, 1000, 1_000_000_000_000);
    }
    let spin: i64 = -idiv(sn, 1000);
    let cn: i64 = mulb(g.dribbler_centering_tendency, d.y, 1_000_000, 1_000_000);
    proof {
        lemma_tdiv_bound(cn as int, 1000, 1_000_000_000_000);
    }
    let force: i64 = -idiv(cn, 1000);
    (speed, Some((spin, force)))
}

} // verus!
