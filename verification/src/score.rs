//! Scoring state machine: watches the ball position once per tick after
//! integration, awards goal and out-of-bounds points exactly once per
//! crossing, and requests the ball reset that re-enters play.
//!
//! The friendly side defends the goal at `-field_half_length` and attacks the
//! one at `+field_half_length`.

use vstd::prelude::*;
use crate::data::ScoreState;
use crate::data::Toucher;
use crate::geom::BotGeomData;

verus! {

/// Where the ball sits relative to the field after one integration step.
#[derive(Clone, Copy, Debug, PartialEq, Eq, Structural)]
pub enum Crossing {
    /// Inside the field of play.
    Inside,
    /// Through the goal mouth on the `+x` end (the enemy's goal).
    GoalPlusX,
    /// Through the goal mouth on the `-x` end (the friendly goal).
    GoalMinusX,
    /// Past the boundary anywhere else.
    Out,
}

/// Classification of a ball position against the field and goal geometry.
pub open spec fn spec_classify(g: BotGeomData, bx: int, by: int) -> Crossing {
    if bx > g.field_half_length && -g.goal_half_width <= by <= g.goal_half_width {
        Crossing::GoalPlusX
    } else if bx < -g.field_half_length && -g.goal_half_width <= by <= g.goal_half_width {
        Crossing::GoalMinusX
    } else if bx > g.field_half_length || bx < -g.field_half_length || by > g.field_half_width
        || by < -g.field_half_width {
        Crossing::Out
    } else {
        Crossing::Inside
    }
}

pub fn classify(g: &BotGeomData, bx: i64, by: i64) -> (r: Crossing)
    requires
        g.wf(),
        -1_000_000_000 <= bx <= 1_000_000_000,
        -1_000_000_000 <= by <= 1_000_000_000,
    ensures
        r == spec_classify(*g, bx as int, by as int),
{
    if bx > g.field_half_length && -g.goal_half_width <= by && by <= g.goal_half_width {
        Crossing::GoalPlusX
    } else if bx < -g.field_half_length && -g.goal_half_width <= by && by <= g.goal_half_width {
        Crossing::GoalMinusX
    } else if bx > g.field_half_length || bx < -g.field_half_length || by > g.field_half_width
        || by < -g.field_half_width {
        Crossing::Out
    } else {
        Crossing::Inside
    }
}

/// One point for a side: both its total and the given cause counter grow by
/// one, unless the total has reached the counter ceiling, in which case both
/// stay frozen so the total always remains the sum of its causes.
pub open spec fn spec_bump(total: u16, part: u16) -> (int, int) {
    if total < 0xffff {
        (total + 1, part + 1)
    } else {
        (total as int, part as int)
    }
}

pub fn bump(total: u16, part: u16) -> (r: (u16, u16))
    requires
        part <= total,
    ensures
        (r.0 as int, r.1 as int) == spec_bump(total, part),
        total <= r.0,
        part <= r.1,
        r.1 <= r.0,
        r.0 as int - r.1 as int == total as int - part as int,
{
    if total < 0xffff {
        (total + 1, part + 1)
    } else {
        (total, part)
    }
}

/// The score, last-toucher and reset flag that one tick's crossing produces.
///
/// A goal on the `+x` end is a friendly goal point; one on the `-x` end an
/// enemy goal point. A plain out-of-bounds awards the side opposing the last
/// toucher, or nobody when no robot has touched the ball since the last
/// restart. Any crossing clears the toucher and requests a ball reset, which
/// re-enters play and so debounces the next crossing.
pub open spec fn spec_track_score(score: ScoreState, toucher: Toucher, c: Crossing) -> (
    ScoreState,
    Toucher,
    bool,
) {
    match c {
        Crossing::Inside => (score, toucher, false),
        Crossing::GoalPlusX => {
            let (t, p) = spec_bump(score.friendly_score, score.friendly_goal_score);
            (
                ScoreState { friendly_score: t as u16, friendly_goal_score: p as u16, ..score },
                Toucher::Nobody,
                true,
            )
        },
        Crossing::GoalMinusX => {
            let (t, p) = spec_bump(score.enemy_score, score.enemy_goal_score);
            (
                ScoreState { enemy_score: t as u16, enemy_goal_score: p as u16, ..score },
                Toucher::Nobody,
                true,
            )
        },
        Crossing::Out => match toucher {
            Toucher::Enemy => {
                let (t, p) = spec_bump(score.friendly_score, score.friendly_out_of_bounds_score);
                (
                    ScoreState {
                        friendly_score: t as u16,
                        friendly_out_of_bounds_score: p as u16,
                        ..score
                    },
                    Toucher::Nobody,
                    true,
                )
            },
            Toucher::Friendly => {
                let (t, p) = spec_bump(score.enemy_score, score.enemy_out_of_bounds_score);
                (
                    ScoreState {
                        enemy_score: t as u16,
                        enemy_out_of_bounds_score: p as u16,
                        ..score
                    },
                    Toucher::Nobody,
                    true,
                )
            },
            Toucher::Nobody => (score, Toucher::Nobody, true),
        },
    }
}

/// Applies one tick's crossing to the score. The new score is well formed,
/// every counter is monotone, and exactly the crossing's counters moved.
pub fn track_score(score: ScoreState, toucher: Toucher, c: Crossing) -> (r: (
    ScoreState,
    Toucher,
    bool,
))
    requires
        score.wf(),
    ensures
        r == spec_track_score(score, toucher, c),
        r.0.wf(),
        score.friendly_score <= r.0.friendly_score,
        score.friendly_goal_score <= r.0.friendly_goal_score,
        score.friendly_out_of_bounds_score <= r.0.friendly_out_of_bounds_score,
        score.enemy_score <= r.0.enemy_score,
        score.enemy_goal_score <= r.0.enemy_goal_score,
        score.enemy_out_of_bounds_score <= r.0.enemy_out_of_bounds_score,
        c is Inside ==> r == (score, toucher, false),
        !(c is Inside) ==> r.1 is Nobody && r.2,
        c is Out && toucher is Nobody ==> r.0 == score,
{
    match c {
        Crossing::Inside => (score, toucher, false),
        Crossing::GoalPlusX => {
            let (t, p) = bump(score.friendly_score, score.friendly_goal_score);
            (
                ScoreState { friendly_score: t, friendly_goal_score: p, ..score },
                Toucher::Nobody,
                true,
            )
        },
        Crossing::GoalMinusX => {
            let (t, p) = bump(score.enemy_score, score.enemy_goal_score);
            (
                ScoreState { enemy_score: t, enemy_goal_score: p, ..score },
                Toucher::Nobody,
                true,
            )
        },
        Crossing::Out => match toucher {
            Toucher::Enemy => {
                let (t, p) = bump(score.friendly_score, score.friendly_out_of_bounds_score);
                (
                    ScoreState {
                        friendly_score: t,
                        friendly_out_of_bounds_score: p,
                        ..score
                    },
                    Toucher::Nobody,
                    true,
                )
            },
            Toucher::Friendly => {
                let (t, p) = bump(score.enemy_score, score.enemy_out_of_bounds_score);
                (
                    ScoreState { enemy_score: t, enemy_out_of_bounds_score: p, ..score },
                    Toucher::Nobody,
                    true,
                )
            },
            Toucher::Nobody => (score, Toucher::Nobody, true),
        },
    }
}

} // verus!

