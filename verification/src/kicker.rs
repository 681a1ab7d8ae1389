//! Kicker: on a positive kick command, and only while the ball sits inside
//! the front insink contact pocket, an instantaneous impulse is applied to
//! the ball along the robot's forward axis. Its magnitude is the command
//! clamped into `[kicker_min_impulse, kicker_max_impulse]` and scaled by
//! `kicker_elasticity`; its direction picks up a bounded, seeded lateral
//! jitter of at most `kicker_uncertainty`.

use vstd::prelude::*;
use crate::SCALE;
use crate::spec_clamp;
use crate::clamp;
use crate::data::Vec3;
use crate::geom::BotGeomData;
use crate::linalg::idiv;
use crate::linalg::mulb;
use crate::linalg::lemma_tdiv_bound;
use crate::linalg::spec_tdiv;
use crate::rng::RngState;
use crate::rng::spec_jitter;
use crate::rng::spec_rng_next;
use crate::rng::jitter;

verus! {

/// The ball (at body-frame offset `d` from the chassis center) sits inside
/// the kicker's contact pocket. `g` is the kicking robot's descriptor, `gb`
/// the one the ball's constants are read from.
pub open spec fn spec_kick_in_range(g: BotGeomData, gb: BotGeomData, dx: int, dy: int) -> bool {
    let front = dx - g.bot_radius - gb.ball_radius;
    0 <= front <= g.bot_front_insink_depth && -spec_tdiv(g.bot_front_insink_outer_width as int, 2) <= dy
        <= spec_tdiv(g.bot_front_insink_outer_width as int, 2)
}

/// The impulse a kick command realizes: the command clamped to the kicker's
/// impulse range.
pub open spec fn spec_kick_mag(g: BotGeomData, cmd: int) -> int {
    spec_clamp(cmd, g.kicker_min_impulse as int, g.kicker_max_impulse as int)
}

/// The clamping law of the kicker: whatever the commanded magnitude, above
/// or below range, the realized impulse lies within
/// `[kicker_min_impulse, kicker_max_impulse]`.
pub proof fn lemma_kick_impulse_clamped(g: BotGeomData, cmd: int)
    requires
        g.wf(),
    ensures
        g.kicker_min_impulse <= spec_kick_mag(g, cmd) <= g.kicker_max_impulse,
{
}

/// The body-frame velocity change a kick gives the ball, and the generator
/// state after it: `None` when the command or the geometry makes the kick a
/// no-op (no impulse, no generator draw).
#[verifier::opaque]
pub open spec fn spec_kick(g: BotGeomData, gb: BotGeomData, cmd: int, dx: int, dy: int, s: int) -> Option<
    (int, int, int),
> {
    if !g.have_kicker || cmd <= 0 || !spec_kick_in_range(g, gb, dx, dy) {
        None
    } else {
        let mag = spec_kick_mag(g, cmd);
        let eff = spec_tdiv(mag * g.kicker_elasticity, SCALE as int);
        let dv = spec_tdiv(eff * SCALE, gb.ball_mass as int);
        let j = spec_jitter(s, spec_clamp(g.kicker_uncertainty as int, 0, SCALE as int));
        let dvl = spec_tdiv(dv * j, SCALE as int);
        Some((dv, dvl, spec_rng_next(s)))
    }
}

/// Fires the kicker if the command and contact range allow it, returning the
/// body-frame (forward, lateral) velocity change of the ball.
pub fn kicker_step(g: &BotGeomData, gb: &BotGeomData, cmd: i64, d: Vec3, rng: &mut RngState) -> (r: Option<
    (i64, i64),
>)
    requires
        g.wf(),
        gb.wf(),
        old(rng).wf(),
        d.abs_le(100_000_000_000_000),
    ensures
        final(rng).wf(),
        match r {
            Some(dv) => {
                &&& spec_kick(*g, *gb, cmd as int, d.x as int, d.y as int, old(rng).s as int)
                    == Some((dv.0 as int, dv.1 as int, final(rng).s as int))
                &&& g.kicker_min_impulse <= spec_kick_mag(*g, cmd as int)
                    <= g.kicker_max_impulse
                &&& -1_000_000_000_000 <= dv.0 <= 1_000_000_000_000
                &&& -1_000_000_000_000 <= dv.1 <= 1_000_000_000_000
            },
            None => {
                &&& spec_kick(*g, *gb, cmd as int, d.x as int, d.y as int, old(rng).s as int) is None
                &&& *final(rng) == *old(rng)
            },
        },
{
    proof {
        reveal(spec_kick);
    }
    if !g.have_kicker || cmd <= 0 {
        return None;
    }
    let front: i64 = d.x - g.bot_radius - gb.ball_radius;
    let half: i64 = idiv(g.bot_front_insink_outer_width, 2);
    if !(0 <= front && front <= g.bot_front_insink_depth && -half <= d.y && d.y <= half) {
        return None;
    }
    let mag: i64 = clamp(cmd, g.kicker_min_impulse, g.kicker_max_impulse);
    let effn: i64 = mulb(mag, g.kicker_elasticity, 1_000_000, 1_000_000);
    proof {
        lemma_tdiv_bound(effn as int, 1000, 1_000_000_000_000);
    }
    let eff: i64 = idiv(effn, 1000);
    let dvn: i64 = mulb(eff, 1000, 1_000_000_000, 1000);
    proof {
        lemma_tdiv_bound(dvn as int, gb.ball_mass as int, 1_000_000_000_000);
    }
    let dv: i64 = idiv(dvn, gb.ball_mass);
    let uc: i64 = clamp(g.kicker_uncertainty, 0, 1000);
    let j: i64 = jitter(rng, uc);
    let dvln: i64 = mulb(dv, j, 1_000_000_000_000, 1000);
    proof {
        lemma_tdiv_bound(dvln as int, 1000, 1_000_000_000_000_000);
    }
    let dvl: i64 = idiv(dvln, 1000);
    Some((dv, dvl))
}

} // verus!
