//! The world: ball, obstacle stream, score and the four-state game machine,
//! with the per-tick simulation step and the discrete input transitions.

use vstd::prelude::*;

use crate::ball::{ball_within, integrated, Ball};
use crate::config::{
    BALL_RADIUS, BALL_START_X, BALL_START_Y, COORD_LIMIT, GAP_TOP_MAX, GAP_TOP_MIN, JUMP_VELOCITY,
    PIPE_GAP, PIPE_SPEED, PIPE_WIDTH, SCREEN_HEIGHT, SCREEN_WIDTH, SPAWN_SPACING,
};
use crate::pipe::{
    gap_in_range, moved_pipes, needs_spawn, newly_passed, pass_marked, pass_marked_all,
    pipe_within, pipes_within, stream_gain, stream_step, with_spawn, Pipe,
};
use crate::rng::sample_in_range;

verus! {

/// The four states of the game. Simulation advances only while `Playing`.
#[derive(Clone, Copy, PartialEq, Eq, Structural, Debug)]
pub enum GameReqType {
    Start,
    Playing,
    Paused,
    GameOver,
}

/// The three discrete input events the game reacts to.
#[derive(Clone, Copy, PartialEq, Eq, Structural, Debug)]
pub enum GameInput {
    Jump,
    TogglePause,
    Reset,
}

/// The whole game world. Pipes are ordered by spawn time, which equals
/// left-to-right screen order since all slide at the same speed.
pub struct GameReq {
    pub ball: Ball,
    pub pipes: Vec<Pipe>,
    pub score: i64,
    pub high_score: i64,
    pub state: GameReqType,
}

/// The ball has left the screen vertically.
pub open spec fn out_of_bounds(b: Ball) -> bool {
    b.y_axis > SCREEN_HEIGHT || b.y_axis < 0
}

/// The ball overlaps a solid region of the pipe: its horizontal span meets
/// the pipe's span, and its vertical extent clips the region above the gap
/// or the region below it.
pub open spec fn hits_pipe(b: Ball, p: Pipe) -> bool {
    &&& b.x_axis + BALL_RADIUS > p.x_axis
    &&& b.x_axis - BALL_RADIUS < p.x_axis + PIPE_WIDTH
    &&& (b.y_axis - BALL_RADIUS < p.height || b.y_axis + BALL_RADIUS > p.height + PIPE_GAP)
}

/// The ball is out of bounds or hits some pipe of the stream.
pub open spec fn crashed(b: Ball, ps: Seq<Pipe>) -> bool {
    out_of_bounds(b) || exists|i: int| 0 <= i < ps.len() && hits_pipe(b, #[trigger] ps[i])
}

/// One tick of the obstacle stream together with its score gain, for the gap
/// placement `g` drawn at spawn time.
pub open spec fn advance_pipes_rel(
    ps: Seq<Pipe>,
    bx: i64,
    score0: i64,
    qs: Seq<Pipe>,
    score1: i64,
) -> bool {
    exists|g: i64|
        #[trigger] gap_in_range(g) && qs =~= stream_step(ps, bx, g) && score1 == score0
            + stream_gain(ps, bx, g)
}

/// One whole simulation tick taken from a `Playing` world: the ball is
/// integrated, the stream slides, retires, spawns and scores, and the state
/// falls to `GameOver` exactly when the new ball position collides.
pub open spec fn playing_tick_rel(pre: GameReq, post: GameReq) -> bool {
    &&& post.ball == integrated(pre.ball)
    &&& post.high_score == pre.high_score
    &&& advance_pipes_rel(pre.pipes@, pre.ball.x_axis, pre.score, post.pipes@, post.score)
    &&& post.state == (if crashed(post.ball, post.pipes@) {
        GameReqType::GameOver
    } else {
        GameReqType::Playing
    })
}

/// A full reset: the ball re-centers with zero velocity, the stream and the
/// score are cleared, the high score keeps the maximum it has seen, and the
/// game returns to `Start`.
pub open spec fn reset_rel(pre: GameReq, post: GameReq) -> bool {
    &&& post.ball.x_axis == pre.ball.x_axis
    &&& post.ball.y_axis == BALL_START_Y
    &&& post.ball.velocity == 0
    &&& post.pipes@.len() == 0
    &&& post.score == 0
    &&& post.high_score == (if pre.score > pre.high_score {
        pre.score
    } else {
        pre.high_score
    })
    &&& post.state == GameReqType::Start
}

/// What each discrete input does in each state: jump starts the game from
/// `Start` and is an impulse while `Playing`; pause toggles between
/// `Playing` and `Paused`; reset applies in every state; everything else is
/// a no-op.
pub open spec fn input_rel(pre: GameReq, input: GameInput, post: GameReq) -> bool {
    match input {
        GameInput::Jump => match pre.state {
            GameReqType::Start => {
                &&& post.ball == pre.ball
                &&& post.pipes == pre.pipes
                &&& post.score == pre.score
                &&& post.high_score == pre.high_score
                &&& post.state == GameReqType::Playing
            },
            GameReqType::Playing => {
                &&& post.ball.x_axis == pre.ball.x_axis
                &&& post.ball.y_axis == pre.ball.y_axis
                &&& post.ball.velocity == JUMP_VELOCITY
                &&& post.pipes == pre.pipes
                &&& post.score == pre.score
                &&& post.high_score == pre.high_score
                &&& post.state == GameReqType::Playing
            },
            _ => post == pre,
        },
        GameInput::TogglePause => match pre.state {
            GameReqType::Playing => {
                &&& post.ball == pre.ball
                &&& post.pipes == pre.pipes
                &&& post.score == pre.score
                &&& post.high_score == pre.high_score
                &&& post.state == GameReqType::Paused
            },
            GameReqType::Paused => {
                &&& post.ball == pre.ball
                &&& post.pipes == pre.pipes
                &&& post.score == pre.score
                &&& post.high_score == pre.high_score
                &&& post.state == GameReqType::Playing
            },
            _ => post == pre,
        },
        GameInput::Reset => reset_rel(pre, post),
    }
}

impl GameReq {
    /// Every coordinate, the score and the stream length lie far within the
    /// range one simulation step keeps free of overflow.
    pub open spec fn wf(self) -> bool {
        &&& ball_within(self.ball, COORD_LIMIT as int)
        &&& pipes_within(self.pipes@, COORD_LIMIT as int)
        &&& 0 <= self.score <= COORD_LIMIT
        &&& 0 <= self.high_score <= COORD_LIMIT
        &&& self.pipes@.len() <= COORD_LIMIT
    }

    /// The initial world: ball centered, no pipes, zero scores, `Start`.
    pub fn game_start() -> (game: GameReq)
        ensures
            game.ball == (Ball { x_axis: BALL_START_X, y_axis: BALL_START_Y, velocity: 0 }),
            game.pipes@.len() == 0,
            game.score == 0,
            game.high_score == 0,
            game.state == GameReqType::Start,
            game.wf(),
    {
        GameReq {
            ball: Ball { x_axis: BALL_START_X, y_axis: BALL_START_Y, velocity: 0 },
            pipes: Vec::new(),
            score: 0,
            high_score: 0,
            state: GameReqType::Start,
        }
    }

    /// A full reset, in every state.
    pub fn refresh_game(&mut self)
        ensures
            reset_rel(*old(self), *final(self)),
    {
        self.ball.y_axis = BALL_START_Y;
        self.ball.velocity = 0;
        self.pipes = Vec::new();
        if self.score > self.high_score {
            self.high_score = self.score;
        }
        self.score = 0;
        self.state = GameReqType::Start;
    }

    /// One tick of the obstacle stream: every pipe slides left, pipes fully
    /// off screen retire, at most one new pipe spawns with a random gap
    /// placement, and every pipe the ball has newly passed is marked and
    /// counted.
    pub fn advance_and_spawn(&mut self)
        requires
            ball_within(old(self).ball, 3 * COORD_LIMIT),
            pipes_within(old(self).pipes@, 3 * COORD_LIMIT),
            0 <= old(self).score <= 3 * COORD_LIMIT,
            old(self).pipes@.len() <= 3 * COORD_LIMIT,
        ensures
            final(self).ball == old(self).ball,
            final(self).high_score == old(self).high_score,
            final(self).state == old(self).state,
            advance_pipes_rel(
                old(self).pipes@,
                old(self).ball.x_axis,
                old(self).score,
                final(self).pipes@,
                final(self).score,
            ),
            pipes_within(final(self).pipes@, 4 * COORD_LIMIT),
            final(self).pipes@.len() <= old(self).pipes@.len() + 1,
    {
        let ghost orig: Seq<Pipe> = self.pipes@;

        // Slide every pipe left and keep only those still visible.
        let mut moved: Vec<Pipe> = Vec::new();
        proof {
            assert(orig.take(0) =~= Seq::<Pipe>::empty());
            assert(moved@ =~= moved_pipes(orig.take(0)));
        }
        let n: usize = self.pipes.len();
        let mut i: usize = 0;
        while i < n
            invariant
                n == self.pipes@.len(),
                self.pipes@ == orig,
                i <= n,
                pipes_within(orig, 3 * COORD_LIMIT),
                moved@ == moved_pipes(orig.take(i as int)),
                pipes_within(moved@, 3 * COORD_LIMIT + PIPE_SPEED),
                moved@.len() <= i,
            decreases n - i,
        {
            let p = self.pipes[i];
            let nx = p.x_axis - PIPE_SPEED;
            if nx + PIPE_WIDTH > 0 {
                moved.push(Pipe { x_axis: nx, height: p.height, scored: p.scored });
            }
            proof {
                assert(orig.take(i as int + 1).drop_last() =~= orig.take(i as int));
                assert(orig.take(i as int + 1).last() == orig[i as int]);
                assert(moved@ =~= moved_pipes(orig.take(i as int + 1)));
            }
            i = i + 1;
        }
        proof {
            assert(orig.take(n as int) =~= orig);
        }

        // Spawn exactly one new pipe when the stream is empty or the last
        // pipe has slid past the spacing threshold.
        let ghost pre_spawn: Seq<Pipe> = moved@;
        let mut gap_top: i64 = GAP_TOP_MIN;
        let need_new_pipe = moved.len() == 0 || moved[moved.len() - 1].x_axis < SCREEN_WIDTH
            - SPAWN_SPACING;
        if need_new_pipe {
            let mut rng = rand::thread_rng();
            gap_top = sample_in_range(&mut rng, GAP_TOP_MIN, GAP_TOP_MAX);
            moved.push(Pipe { x_axis: SCREEN_WIDTH, height: gap_top, scored: false });
        }
        proof {
            assert(gap_in_range(gap_top));
            assert(need_new_pipe == needs_spawn(pre_spawn));
            assert(moved@ =~= with_spawn(moved_pipes(orig), gap_top));
        }

        // Mark every pipe the ball has newly passed and count the passes.
        let ghost spawned_seq: Seq<Pipe> = moved@;
        let bx = self.ball.x_axis;
        let m: usize = moved.len();
        let mut out: Vec<Pipe> = Vec::new();
        let mut gained: i64 = 0;
        proof {
            assert(spawned_seq.take(0) =~= Seq::<Pipe>::empty());
        }
        let mut j: usize = 0;
        while j < m
            invariant
                m == moved@.len(),
                moved@ == spawned_seq,
                m <= 3 * COORD_LIMIT + 1,
                j <= m,
                bx == self.ball.x_axis,
                ball_within(self.ball, 3 * COORD_LIMIT),
                pipes_within(spawned_seq, 3 * COORD_LIMIT + PIPE_SPEED),
                out@.len() == j,
                forall|k: int| 0 <= k < j ==> out@[k] == pass_marked(spawned_seq[k], bx),
                gained == newly_passed(spawned_seq.take(j as int), bx),
                0 <= gained <= j,
            decreases m - j,
        {
            let p = moved[j];
            proof {
                assert(spawned_seq.take(j as int + 1).drop_last() =~= spawned_seq.take(j as int));
                assert(spawned_seq.take(j as int + 1).last() == spawned_seq[j as int]);
            }
            if !p.scored && p.x_axis + PIPE_WIDTH < bx {
                out.push(Pipe { x_axis: p.x_axis, height: p.height, scored: true });
                gained = gained + 1;
            } else {
                out.push(p);
            }
            j = j + 1;
        }
        proof {
            assert(spawned_seq.take(m as int) =~= spawned_seq);
            assert(out@ =~= pass_marked_all(spawned_seq, bx));
        }

        self.pipes = out;
        self.score = self.score + gained;
        proof {
            assert(self.pipes@ =~= stream_step(orig, bx, gap_top));
            assert(gap_in_range(gap_top) && self.pipes@ =~= stream_step(orig, bx, gap_top)
                && self.score == old(self).score + stream_gain(orig, bx, gap_top));
            assert(forall|k: int|
                0 <= k < self.pipes@.len() ==> pipe_within(#[trigger] self.pipes@[k], 4 * COORD_LIMIT));
        }
    }

    /// True exactly when the ball collides: out of the vertical screen
    /// bounds, or overlapping a solid region of some pipe.
    pub fn crash_check(b: Ball, pipes: &Vec<Pipe>) -> (r: bool)
        requires
            ball_within(b, 4 * COORD_LIMIT),
            pipes_within(pipes@, 4 * COORD_LIMIT),
        ensures
            r == crashed(b, pipes@),
    {
        let mut hit: bool = b.y_axis > SCREEN_HEIGHT || b.y_axis < 0;
        let n: usize = pipes.len();
        let mut i: usize = 0;
        while i < n && !hit
            invariant
                n == pipes@.len(),
                i <= n,
                ball_within(b, 4 * COORD_LIMIT),
                pipes_within(pipes@, 4 * COORD_LIMIT),
                hit ==> crashed(b, pipes@),
                !hit ==> !out_of_bounds(b) && (forall|k: int|
                    0 <= k < i ==> !hits_pipe(b, #[trigger] pipes@[k])),
            decreases n - i,
        {
            let p = pipes[i];
            let horizontal_overlap = b.x_axis + BALL_RADIUS > p.x_axis && b.x_axis - BALL_RADIUS
                < p.x_axis + PIPE_WIDTH;
            let vertical_overlap = b.y_axis - BALL_RADIUS < p.height || b.y_axis + BALL_RADIUS
                > p.height + PIPE_GAP;
            if horizontal_overlap && vertical_overlap {
                hit = true;
            }
            i = i + 1;
        }
        hit
    }

    /// The collision check of one tick: the state falls to `GameOver`
    /// exactly when the ball collides; nothing else changes. There is no
    /// recovery: only a reset leaves `GameOver`.
    pub fn is_crashed(&mut self)
        requires
            ball_within(old(self).ball, 4 * COORD_LIMIT),
            pipes_within(old(self).pipes@, 4 * COORD_LIMIT),
        ensures
            final(self).ball == old(self).ball,
            final(self).pipes == old(self).pipes,
            final(self).score == old(self).score,
            final(self).high_score == old(self).high_score,
            final(self).state == (if crashed(old(self).ball, old(self).pipes@) {
                GameReqType::GameOver
            } else {
                old(self).state
            }),
    {
        let hit = GameReq::crash_check(self.ball, &self.pipes);
        if hit {
            self.state = GameReqType::GameOver;
        }
    }

    /// One simulation tick. While the game is not `Playing` the world is
    /// left exactly as it was; while `Playing`, physics, obstacle stream and
    /// collision check run in that order.
    pub fn tick(&mut self)
        requires
            old(self).wf(),
        ensures
            old(self).state != GameReqType::Playing ==> *final(self) == *old(self),
            old(self).state == GameReqType::Playing ==> playing_tick_rel(*old(self), *final(self)),
    {
        if self.state != GameReqType::Playing {
            return;
        }
        self.ball.integrate();
        self.advance_and_spawn();
        self.is_crashed();
    }

    /// Apply one discrete input event, as `input_rel` states.
    pub fn handle_input(&mut self, input: GameInput)
        ensures
            input_rel(*old(self), input, *final(self)),
    {
        match input {
            GameInput::Jump => {
                if self.state == GameReqType::Start {
                    self.state = GameReqType::Playing;
                } else if self.state == GameReqType::Playing {
                    self.ball.apply_impulse();
                }
            },
            GameInput::TogglePause => {
                if self.state == GameReqType::Playing {
                    self.state = GameReqType::Paused;
                } else if self.state == GameReqType::Paused {
                    self.state = GameReqType::Playing;
                }
            },
            GameInput::Reset => {
                self.refresh_game();
            },
        }
    }

    /// Runtime check of `wf`, for unverified drivers that must establish the
    /// precondition of `tick` before calling it.
    pub fn is_well_formed(&self) -> (r: bool)
        ensures
            r == self.wf(),
    {
        let b = self.ball;
        let scalars_ok = -COORD_LIMIT <= b.x_axis && b.x_axis <= COORD_LIMIT && -COORD_LIMIT
            <= b.y_axis && b.y_axis <= COORD_LIMIT && -COORD_LIMIT <= b.velocity && b.velocity
            <= COORD_LIMIT && 0 <= self.score && self.score <= COORD_LIMIT && 0 <= self.high_score
            && self.high_score <= COORD_LIMIT && self.pipes.len() as u64 <= COORD_LIMIT as u64;
        if !scalars_ok {
            return false;
        }
        let n: usize = self.pipes.len();
        let mut i: usize = 0;
        while i < n
            invariant
                n == self.pipes@.len(),
                i <= n,
                forall|k: int|
                    0 <= k < i ==> pipe_within(#[trigger] self.pipes@[k], COORD_LIMIT as int),
            decreases n - i,
        {
            let p = self.pipes[i];
            if !(-COORD_LIMIT <= p.x_axis && p.x_axis <= COORD_LIMIT && -COORD_LIMIT <= p.height
                && p.height <= COORD_LIMIT) {
                return false;
            }
            i = i + 1;
        }
        true
    }
}

} // verus!
