//! Laws of the simulation that relate several operations, stated over the
//! same model the executable contracts use. Laws that concern a single
//! operation (ticks freeze a non-playing world, a jump always sets the fixed
//! upward velocity, what a reset clears and keeps) stand directly in the
//! `ensures` of `tick`, `handle_input` and `refresh_game`.

use vstd::prelude::*;

use crate::config::{PIPE_SPEED, SCREEN_HEIGHT, SCREEN_WIDTH, SPAWN_SPACING};
use crate::pipe::{
    fresh_pipe, moved_pipes, needs_spawn, newly_passed, pass_marked, pass_marked_all, passes_now,
    slid, stream_step, visible, with_spawn, Pipe,
};
use crate::ball::Ball;
use crate::world::{crashed, hits_pipe};

verus! {

/// How many pipes turned from not scored to scored between two streams of
/// equal length, position by position.
pub open spec fn newly_scored_count(before: Seq<Pipe>, after: Seq<Pipe>) -> int
    decreases before.len(),
{
    if before.len() == 0 || after.len() == 0 {
        0
    } else {
        newly_scored_count(before.drop_last(), after.drop_last()) + if !before.last().scored
            && after.last().scored {
            1int
        } else {
            0int
        }
    }
}

/// The scoring phase turns the `scored` flag of a pipe from false to true at
/// most once — a pipe once scored stays scored, and a flag only turns on a
/// genuine pass — and the score it adds equals exactly the number of flags
/// that turn.
pub proof fn lemma_passed_transitions(ps: Seq<Pipe>, bx: i64)
    ensures
        pass_marked_all(ps, bx).len() == ps.len(),
        forall|i: int|
            0 <= i < ps.len() && ps[i].scored ==> #[trigger] pass_marked_all(ps, bx)[i].scored,
        forall|i: int|
            0 <= i < ps.len() && #[trigger] pass_marked_all(ps, bx)[i].scored && !ps[i].scored
                ==> passes_now(ps[i], bx),
        newly_passed(ps, bx) == newly_scored_count(ps, pass_marked_all(ps, bx)),
    decreases ps.len(),
{
    if ps.len() == 0 {
    } else {
        lemma_passed_transitions(ps.drop_last(), bx);
        assert(pass_marked_all(ps, bx).drop_last() =~= pass_marked_all(ps.drop_last(), bx));
        assert(pass_marked_all(ps, bx).last() == pass_marked(ps.last(), bx));
    }
}

/// A tick on an empty stream spawns exactly one pipe, at the right edge of
/// the screen, with the drawn gap placement.
pub proof fn lemma_spawn_on_empty(bx: i64, g: i64)
    ensures
        stream_step(Seq::empty(), bx, g).len() == 1,
        stream_step(Seq::empty(), bx, g)[0].x_axis == SCREEN_WIDTH,
        stream_step(Seq::empty(), bx, g)[0].height == g,
{
    let e = Seq::<Pipe>::empty();
    assert(moved_pipes(e) =~= e);
    assert(needs_spawn(moved_pipes(e)));
    assert(with_spawn(moved_pipes(e), g) =~= e.push(fresh_pipe(g)));
    assert(stream_step(e, bx, g)[0] == pass_marked(fresh_pipe(g), bx));
}

/// Spawn spacing: while the last-spawned pipe, after its slide, still stands
/// at or beyond the spacing threshold, the tick spawns nothing — the new
/// stream is exactly the slid, retired stream with passes marked.
pub proof fn lemma_spawn_spacing(ps: Seq<Pipe>, bx: i64, g: i64)
    requires
        ps.len() > 0,
        ps.last().x_axis - PIPE_SPEED >= SCREEN_WIDTH - SPAWN_SPACING,
    ensures
        stream_step(ps, bx, g).len() == moved_pipes(ps).len(),
        forall|i: int|
            0 <= i < moved_pipes(ps).len() ==> stream_step(ps, bx, g)[i] == pass_marked(
                moved_pipes(ps)[i],
                bx,
            ),
{
    assert(visible(slid(ps.last())));
    assert(moved_pipes(ps) == moved_pipes(ps.drop_last()).push(slid(ps.last())));
    assert(moved_pipes(ps).last() == slid(ps.last()));
    assert(!needs_spawn(moved_pipes(ps)));
    assert(with_spawn(moved_pipes(ps), g) == moved_pipes(ps));
}

/// A ball outside the vertical screen bounds collides, whatever the stream
/// holds.
pub proof fn lemma_out_of_bounds_crashes(b: Ball, ps: Seq<Pipe>)
    requires
        b.y_axis < 0 || b.y_axis > SCREEN_HEIGHT,
    ensures
        crashed(b, ps),
{
}

/// A pipe whose horizontal span overlaps the ball and whose gap excludes the
/// ball's vertical extent makes the world collide.
pub proof fn lemma_pipe_hit_crashes(b: Ball, ps: Seq<Pipe>, i: int)
    requires
        0 <= i < ps.len(),
        hits_pipe(b, ps[i]),
    ensures
        crashed(b, ps),
{
}

} // verus!
