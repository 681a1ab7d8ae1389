//! Deterministic fixed-point physics simulator for a small two-on-two robot
//! soccer match. One call advances the true game state by one tick under the
//! robots' actuator commands, then derives each robot's egocentric, noisy
//! observation of that state.
//!
//! All physical quantities are fixed-point integers in milliunits (one
//! thousandth of the base unit), which keeps every tick bit-reproducible.

use vstd::prelude::*;

pub mod data;
pub mod dribbler;
pub mod drivetrain;
pub mod geom;
pub mod kicker;
pub mod linalg;
pub mod rng;
pub mod score;
pub mod simulate;
pub mod take_view;

verus! {

/// Fixed-point scale: 1000 milliunits make one base unit.
pub const SCALE: i64 = 1000;

/// Clamps `v` into the closed interval `[lo, hi]`.
pub fn clamp(v: i64, lo: i64, hi: i64) -> (r: i64)
    requires
        lo <= hi,
    ensures
        r == spec_clamp(v as int, lo as int, hi as int),
        lo <= r <= hi,
{
    if v < lo {
        lo
    } else if v > hi {
        hi
    } else {
        v
    }
}

/// Mathematical model of `clamp`.
pub open spec fn spec_clamp(v: int, lo: int, hi: int) -> int {
    if v < lo {
        lo
    } else if v > hi {
        hi
    } else {
        v
    }
}

/// Advances the match one tick and derives the four robots' observations of
/// the resulting state.
///
/// The new state is pinned to the tick's inputs and generator seed (the step
/// relation `spec_step_ok` holds for the generator state the physics left
/// behind), every orientation stays unit-norm, the score counters never
/// decrease, and with a zero noise profile each observation's relative ball
/// position equals the exact projection into that robot's frame.
pub fn next_step(
    game_state: data::GameState,
    friendly_bot_1_action: data::Action,
    friendly_bot_2_action: data::Action,
    enemy_bot_1_action: data::Action,
    enemy_bot_2_action: data::Action,
    friendly_bot_1_geom: geom::BotGeomData,
    friendly_bot_2_geom: geom::BotGeomData,
    enemy_bot_1_geom: geom::BotGeomData,
    enemy_bot_2_geom: geom::BotGeomData,
    profile: &take_view::NoiseProfile,
    rng: &mut rng::RngState,
) -> (r: Result<
    (data::GameState, data::ViewState, data::ViewState, data::ViewState, data::ViewState),
    simulate::PhysicsDivergedError,
>)
    requires
        game_state.wf(),
        friendly_bot_1_geom.wf(),
        friendly_bot_2_geom.wf(),
        enemy_bot_1_geom.wf(),
        enemy_bot_2_geom.wf(),
        profile.wf(),
        old(rng).wf(),
    ensures
        final(rng).wf(),
        match r {
            Ok(t) => {
                &&& (exists|m: int|
                    simulate::spec_step_ok(
                        game_state,
                        friendly_bot_1_action,
                        friendly_bot_2_action,
                        enemy_bot_1_action,
                        enemy_bot_2_action,
                        friendly_bot_1_geom,
                        friendly_bot_2_geom,
                        enemy_bot_1_geom,
                        enemy_bot_2_geom,
                        old(rng).s as int,
                        t.0,
                        m,
                    ) && final(rng).s as int == rng::spec_rng_n(m, 4))
                &&& t.0.wf()
                &&& t.0.friendly_bot_1.orientation.is_unit()
                &&& t.0.friendly_bot_2.orientation.is_unit()
                &&& t.0.enemy_bot_1.orientation.is_unit()
                &&& t.0.enemy_bot_2.orientation.is_unit()
                &&& game_state.score.friendly_score <= t.0.score.friendly_score
                &&& game_state.score.friendly_goal_score <= t.0.score.friendly_goal_score
                &&& game_state.score.friendly_out_of_bounds_score
                    <= t.0.score.friendly_out_of_bounds_score
                &&& game_state.score.enemy_score <= t.0.score.enemy_score
                &&& game_state.score.enemy_goal_score <= t.0.score.enemy_goal_score
                &&& game_state.score.enemy_out_of_bounds_score
                    <= t.0.score.enemy_out_of_bounds_score
                &&& t.0.score.wf()
                &&& (profile.spec_is_zero() ==> take_view::spec_view_exact(
                    t.1,
                    t.0.friendly_bot_1,
                    t.0.friendly_bot_2,
                    t.0.enemy_bot_1,
                    t.0.enemy_bot_2,
                    t.0.ball,
                    true,
                    friendly_bot_1_geom,
                ))
                &&& (profile.spec_is_zero() ==> take_view::spec_view_exact(
                    t.2,
                    t.0.friendly_bot_2,
                    t.0.friendly_bot_1,
                    t.0.enemy_bot_1,
                    t.0.enemy_bot_2,
                    t.0.ball,
                    true,
                    friendly_bot_1_geom,
                ))
                &&& (profile.spec_is_zero() ==> take_view::spec_view_exact(
                    t.3,
                    t.0.enemy_bot_1,
                    t.0.enemy_bot_2,
                    t.0.friendly_bot_1,
                    t.0.friendly_bot_2,
                    t.0.ball,
                    false,
                    friendly_bot_1_geom,
                ))
                &&& (profile.spec_is_zero() ==> take_view::spec_view_exact(
                    t.4,
                    t.0.enemy_bot_2,
                    t.0.enemy_bot_1,
                    t.0.friendly_bot_1,
                    t.0.friendly_bot_2,
                    t.0.ball,
                    false,
                    friendly_bot_1_geom,
                ))
            },
            Err(_) => {
                ||| simulate::spec_bot_div(
                    game_state.friendly_bot_1,
                    friendly_bot_1_action,
                    friendly_bot_1_geom,
                )
                ||| simulate::spec_bot_div(
                    game_state.friendly_bot_2,
                    friendly_bot_2_action,
                    friendly_bot_2_geom,
                )
                ||| simulate::spec_bot_div(
                    game_state.enemy_bot_1,
                    enemy_bot_1_action,
                    enemy_bot_1_geom,
                )
                ||| simulate::spec_bot_div(
                    game_state.enemy_bot_2,
                    enemy_bot_2_action,
                    enemy_bot_2_geom,
                )
                ||| simulate::spec_ball_out(
                    game_state.friendly_bot_1,
                    game_state.friendly_bot_2,
                    game_state.enemy_bot_1,
                    game_state.enemy_bot_2,
                    friendly_bot_1_action,
                    friendly_bot_2_action,
                    enemy_bot_1_action,
                    enemy_bot_2_action,
                    friendly_bot_1_geom,
                    friendly_bot_2_geom,
                    enemy_bot_1_geom,
                    enemy_bot_2_geom,
                    game_state.ball,
                    game_state.score,
                    game_state.last_toucher,
                    simulate::spec_bot_next_pos(game_state.friendly_bot_1, friendly_bot_1_action, friendly_bot_1_geom).0,
                    simulate::spec_bot_next_pos(game_state.friendly_bot_1, friendly_bot_1_action, friendly_bot_1_geom).1,
                    simulate::spec_bot_next_pos(game_state.friendly_bot_2, friendly_bot_2_action, friendly_bot_2_geom).0,
                    simulate::spec_bot_next_pos(game_state.friendly_bot_2, friendly_bot_2_action, friendly_bot_2_geom).1,
                    simulate::spec_bot_next_pos(game_state.enemy_bot_1, enemy_bot_1_action, enemy_bot_1_geom).0,
                    simulate::spec_bot_next_pos(game_state.enemy_bot_1, enemy_bot_1_action, enemy_bot_1_geom).1,
                    simulate::spec_bot_next_pos(game_state.enemy_bot_2, enemy_bot_2_action, enemy_bot_2_geom).0,
                    simulate::spec_bot_next_pos(game_state.enemy_bot_2, enemy_bot_2_action, enemy_bot_2_geom).1,
                    old(rng).s as int,
                ) is None
            },
        },
{
    let next_game_state = match simulate::simulate(
        &game_state,
        &friendly_bot_1_action,
        &friendly_bot_2_action,
        &enemy_bot_1_action,
        &enemy_bot_2_action,
        &friendly_bot_1_geom,
        &friendly_bot_2_geom,
        &enemy_bot_1_geom,
        &enemy_bot_2_geom,
        rng,
    ) {
        Ok(s) => s,
        Err(e) => {
            return Err(e);
        },
    };
    let ghost mid: int = rng.s as int;
    proof {
        assert(simulate::spec_step_ok(
            game_state,
            friendly_bot_1_action,
            friendly_bot_2_action,
            enemy_bot_1_action,
            enemy_bot_2_action,
            friendly_bot_1_geom,
            friendly_bot_2_geom,
            enemy_bot_1_geom,
            enemy_bot_2_geom,
            old(rng).s as int,
            next_game_state,
            mid,
        ));
    }
    let (friendly_bot_1_view, friendly_bot_2_view, enemy_bot_1_view, enemy_bot_2_view) =
        take_view::take_view(&next_game_state, &friendly_bot_1_geom, profile, rng);
    Ok(
        (
            next_game_state,
            friendly_bot_1_view,
            friendly_bot_2_view,
            enemy_bot_1_view,
            enemy_bot_2_view,
        ),
    )
}

} // verus!
