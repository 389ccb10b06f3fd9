//! Obstacles: pipes with a gap, sliding left at constant speed. This module
//! gives the mathematical model of one tick of the obstacle stream: slide,
//! retire, spawn, and mark passed pipes for scoring.

use vstd::prelude::*;

use crate::config::{GAP_TOP_MAX, GAP_TOP_MIN, PIPE_SPEED, PIPE_WIDTH, SCREEN_WIDTH, SPAWN_SPACING};

verus! {

/// One obstacle: a pipe pair at horizontal position `x_axis`, solid from the
/// top of the screen down to `height` and from `height + PIPE_GAP` to the
/// bottom. `scored` records that the ball has passed it and the pass has been
/// counted.
#[derive(Clone, Copy, PartialEq, Eq, Structural, Debug)]
pub struct Pipe {
    pub x_axis: i64,
    pub height: i64,
    pub scored: bool,
}

/// All coordinates of the pipe lie within `m`.
pub open spec fn pipe_within(p: Pipe, m: int) -> bool {
    &&& -m <= p.x_axis <= m
    &&& -m <= p.height <= m
}

/// All coordinates of every pipe in the sequence lie within `m`.
pub open spec fn pipes_within(ps: Seq<Pipe>, m: int) -> bool {
    forall|i: int| 0 <= i < ps.len() ==> pipe_within(#[trigger] ps[i], m)
}

/// A pipe is kept only while some part of it is still on screen.
pub open spec fn visible(p: Pipe) -> bool {
    p.x_axis + PIPE_WIDTH > 0
}

/// The pipe one tick later: slid left by the pipe speed.
pub open spec fn slid(p: Pipe) -> Pipe {
    Pipe { x_axis: (p.x_axis - PIPE_SPEED) as i64, height: p.height, scored: p.scored }
}

/// The stream after sliding every pipe left and retiring the pipes whose
/// right edge has left the screen, in order.
pub open spec fn moved_pipes(ps: Seq<Pipe>) -> Seq<Pipe>
    decreases ps.len(),
{
    if ps.len() == 0 {
        Seq::empty()
    } else {
        let rest = moved_pipes(ps.drop_last());
        let p = slid(ps.last());
        if visible(p) {
            rest.push(p)
        } else {
            rest
        }
    }
}

/// A new pipe is due when the stream is empty or the last-spawned pipe has
/// slid far enough from the right edge.
pub open spec fn needs_spawn(ps: Seq<Pipe>) -> bool {
    ps.len() == 0 || ps.last().x_axis < SCREEN_WIDTH - SPAWN_SPACING
}

/// The range the randomized gap placement of a spawned pipe is drawn from.
pub open spec fn gap_in_range(g: i64) -> bool {
    GAP_TOP_MIN <= g < GAP_TOP_MAX
}

/// A pipe as spawned: at the right edge of the screen, gap top at `g`, not
/// yet passed.
pub open spec fn fresh_pipe(g: i64) -> Pipe {
    Pipe { x_axis: SCREEN_WIDTH, height: g, scored: false }
}

/// The stream after the spawn phase: exactly one new pipe is appended when
/// one is due, none otherwise.
pub open spec fn with_spawn(ps: Seq<Pipe>, g: i64) -> Seq<Pipe> {
    if needs_spawn(ps) {
        ps.push(fresh_pipe(g))
    } else {
        ps
    }
}

/// The ball at horizontal position `bx` has fully passed the pipe and the
/// pass has not been counted yet.
pub open spec fn passes_now(p: Pipe, bx: i64) -> bool {
    !p.scored && p.x_axis + PIPE_WIDTH < bx
}

/// The pipe after the scoring phase: marked `scored` exactly when the pass
/// is counted this tick.
pub open spec fn pass_marked(p: Pipe, bx: i64) -> Pipe {
    if passes_now(p, bx) {
        Pipe { x_axis: p.x_axis, height: p.height, scored: true }
    } else {
        p
    }
}

/// Every pipe of the stream after the scoring phase.
pub open spec fn pass_marked_all(ps: Seq<Pipe>, bx: i64) -> Seq<Pipe> {
    ps.map(|i: int, p: Pipe| pass_marked(p, bx))
}

/// How many pipes of `ps` the ball at `bx` passes this tick; the score grows
/// by exactly this much.
pub open spec fn newly_passed(ps: Seq<Pipe>, bx: i64) -> int
    decreases ps.len(),
{
    if ps.len() == 0 {
        0
    } else {
        newly_passed(ps.drop_last(), bx) + if passes_now(ps.last(), bx) {
            1int
        } else {
            0int
        }
    }
}

/// The whole obstacle stream one tick later, given the gap placement `g`
/// drawn at spawn time: slide, retire, spawn, then mark passed pipes.
pub open spec fn stream_step(ps: Seq<Pipe>, bx: i64, g: i64) -> Seq<Pipe> {
    pass_marked_all(with_spawn(moved_pipes(ps), g), bx)
}

/// The score gained on that tick.
pub open spec fn stream_gain(ps: Seq<Pipe>, bx: i64, g: i64) -> int {
    newly_passed(with_spawn(moved_pipes(ps), g), bx)
}

} // verus!
