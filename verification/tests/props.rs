use flappy_core::config::{
    BALL_START_X, BALL_START_Y, GAP_TOP_MAX, GAP_TOP_MIN, GRAVITY, JUMP_VELOCITY, PIPE_GAP,
    PIPE_SPEED, PIPE_WIDTH, SCREEN_HEIGHT, SCREEN_WIDTH, UNITS_PER_PIXEL,
};
use flappy_core::pipe::Pipe;
use flappy_core::world::{GameInput, GameReq, GameReqType};

fn world_with_pipe(state: GameReqType, pipe: Pipe) -> GameReq {
    let mut game = GameReq::game_start();
    game.state = state;
    game.pipes.push(pipe);
    game
}

#[test]
fn tick_freezes_start_world() {
    let mut game = GameReq::game_start();
    game.tick();
    assert_eq!(game.state, GameReqType::Start);
    assert_eq!(game.score, 0);
    assert_eq!(game.pipes.len(), 0);
    assert_eq!(game.ball.y_axis, BALL_START_Y);
    assert_eq!(game.ball.velocity, 0);
}

#[test]
fn tick_freezes_paused_and_game_over_worlds() {
    for state in [GameReqType::Paused, GameReqType::GameOver] {
        let mut game = world_with_pipe(
            state,
            Pipe {
                x_axis: 400 * UNITS_PER_PIXEL,
                height: 100 * UNITS_PER_PIXEL,
                scored: false,
            },
        );
        game.score = 3;
        game.ball.velocity = 5;
        game.tick();
        assert_eq!(game.state, state);
        assert_eq!(game.score, 3);
        assert_eq!(game.pipes.len(), 1);
        assert_eq!(game.pipes[0].x_axis, 400 * UNITS_PER_PIXEL);
        assert_eq!(game.ball.velocity, 5);
        assert_eq!(game.ball.y_axis, BALL_START_Y);
    }
}

#[test]
fn jump_overrides_any_velocity() {
    for start_velocity in [-500_i64, 0, 7, 2000] {
        let mut game = GameReq::game_start();
        game.state = GameReqType::Playing;
        game.ball.velocity = start_velocity;
        game.handle_input(GameInput::Jump);
        assert_eq!(game.ball.velocity, JUMP_VELOCITY);
        assert_eq!(game.state, GameReqType::Playing);
    }
}

#[test]
fn jump_in_start_only_starts() {
    let mut game = GameReq::game_start();
    game.handle_input(GameInput::Jump);
    assert_eq!(game.state, GameReqType::Playing);
    assert_eq!(game.ball.velocity, 0, "the starting jump applies no impulse");
}

#[test]
fn jump_and_pause_ignored_when_over() {
    let mut game = GameReq::game_start();
    game.state = GameReqType::GameOver;
    game.ball.velocity = 9;
    game.handle_input(GameInput::Jump);
    assert_eq!(game.state, GameReqType::GameOver);
    assert_eq!(game.ball.velocity, 9);
    game.handle_input(GameInput::TogglePause);
    assert_eq!(game.state, GameReqType::GameOver);
}

#[test]
fn pause_toggles_playing() {
    let mut game = GameReq::game_start();
    game.state = GameReqType::Playing;
    game.handle_input(GameInput::TogglePause);
    assert_eq!(game.state, GameReqType::Paused);
    game.handle_input(GameInput::TogglePause);
    assert_eq!(game.state, GameReqType::Playing);
}

#[test]
fn pass_counted_exactly_once() {
    let mut game = world_with_pipe(
        GameReqType::Playing,
        Pipe {
            x_axis: BALL_START_X - PIPE_WIDTH - 20 * UNITS_PER_PIXEL,
            height: 100 * UNITS_PER_PIXEL,
            scored: false,
        },
    );
    game.advance_and_spawn();
    assert_eq!(game.score, 1);
    assert!(game.pipes[0].scored);
    game.advance_and_spawn();
    assert_eq!(game.score, 1, "a passed pipe is never counted again");
    assert!(game.pipes[0].scored);
}

#[test]
fn spawned_gap_lies_within_margins() {
    for _ in 0..50 {
        let mut game = GameReq::game_start();
        game.advance_and_spawn();
        assert_eq!(game.pipes.len(), 1);
        let h = game.pipes[0].height;
        assert!(GAP_TOP_MIN <= h && h < GAP_TOP_MAX);
        assert!(!game.pipes[0].scored);
    }
}

#[test]
fn no_spawn_while_last_pipe_is_near() {
    let mut game = world_with_pipe(
        GameReqType::Playing,
        Pipe {
            x_axis: SCREEN_WIDTH,
            height: 200 * UNITS_PER_PIXEL,
            scored: false,
        },
    );
    game.advance_and_spawn();
    assert_eq!(game.pipes.len(), 1, "no pipe spawns while the last is near");
    assert_eq!(game.pipes[0].x_axis, SCREEN_WIDTH - PIPE_SPEED);
}

#[test]
fn off_screen_pipe_retires() {
    let mut game = world_with_pipe(
        GameReqType::Playing,
        Pipe {
            x_axis: -PIPE_WIDTH,
            height: 200 * UNITS_PER_PIXEL,
            scored: true,
        },
    );
    game.advance_and_spawn();
    assert_eq!(game.pipes.len(), 1, "the old pipe retires, one new spawns");
    assert_eq!(game.pipes[0].x_axis, SCREEN_WIDTH);
}

#[test]
fn ball_above_screen_crashes() {
    let mut game = GameReq::game_start();
    game.ball.y_axis = -1;
    game.is_crashed();
    assert_eq!(game.state, GameReqType::GameOver);
}

#[test]
fn ball_on_boundary_does_not_crash() {
    for y in [0, SCREEN_HEIGHT] {
        let mut game = GameReq::game_start();
        game.state = GameReqType::Playing;
        game.ball.y_axis = y;
        game.is_crashed();
        assert_eq!(game.state, GameReqType::Playing);
    }
}

#[test]
fn clipping_the_gap_bottom_crashes() {
    let mut game = world_with_pipe(
        GameReqType::Playing,
        Pipe {
            x_axis: BALL_START_X - 5 * UNITS_PER_PIXEL,
            height: 100 * UNITS_PER_PIXEL,
            scored: false,
        },
    );
    // Gap spans [100px, 100px + gap); the ball's lower edge pokes past it.
    game.ball.y_axis = 100 * UNITS_PER_PIXEL + PIPE_GAP - 5 * UNITS_PER_PIXEL;
    game.is_crashed();
    assert_eq!(game.state, GameReqType::GameOver);
}

#[test]
fn ball_inside_gap_is_safe() {
    let mut game = world_with_pipe(
        GameReqType::Playing,
        Pipe {
            x_axis: BALL_START_X - 5 * UNITS_PER_PIXEL,
            height: 100 * UNITS_PER_PIXEL,
            scored: false,
        },
    );
    game.ball.y_axis = 100 * UNITS_PER_PIXEL + PIPE_GAP / 2;
    game.is_crashed();
    assert_eq!(game.state, GameReqType::Playing);
}

#[test]
fn no_crash_without_horizontal_overlap() {
    let mut game = world_with_pipe(
        GameReqType::Playing,
        Pipe {
            x_axis: BALL_START_X + 100 * UNITS_PER_PIXEL,
            height: 100 * UNITS_PER_PIXEL,
            scored: false,
        },
    );
    game.ball.y_axis = 50 * UNITS_PER_PIXEL; // would clip the gap top
    game.is_crashed();
    assert_eq!(game.state, GameReqType::Playing);
}

#[test]
fn reset_clears_world_and_keeps_best_score() {
    let mut game = world_with_pipe(
        GameReqType::GameOver,
        Pipe {
            x_axis: 300 * UNITS_PER_PIXEL,
            height: 100 * UNITS_PER_PIXEL,
            scored: true,
        },
    );
    game.score = 7;
    game.high_score = 3;
    game.ball.y_axis = 17;
    game.ball.velocity = 44;
    game.handle_input(GameInput::Reset);
    assert_eq!(game.pipes.len(), 0);
    assert_eq!(game.score, 0);
    assert_eq!(game.high_score, 7);
    assert_eq!(game.state, GameReqType::Start);
    assert_eq!(game.ball.x_axis, BALL_START_X);
    assert_eq!(game.ball.y_axis, BALL_START_Y);
    assert_eq!(game.ball.velocity, 0);
}

#[test]
fn reset_never_lowers_high_score() {
    let mut game = GameReq::game_start();
    game.state = GameReqType::Playing;
    game.score = 4;
    game.high_score = 10;
    game.handle_input(GameInput::Reset);
    assert_eq!(game.high_score, 10);
}

#[test]
fn tick_integrates_gravity() {
    let mut game = GameReq::game_start();
    game.state = GameReqType::Playing;
    game.tick();
    assert_eq!(game.ball.velocity, GRAVITY);
    assert_eq!(game.ball.y_axis, BALL_START_Y + GRAVITY);
    assert_eq!(game.pipes.len(), 1, "a pipe spawns on the first tick");
    assert_eq!(game.state, GameReqType::Playing);
    assert_eq!(game.score, 0);
}

#[test]
fn well_formedness_check_sees_wild_coordinates() {
    let mut game = GameReq::game_start();
    assert!(game.is_well_formed());
    game.ball.y_axis = i64::MAX;
    assert!(!game.is_well_formed());
}
