use flappy_core::config::{
    JUMP_VELOCITY, PIPE_WIDTH, SCREEN_HEIGHT, SCREEN_WIDTH, UNITS_PER_PIXEL,
};
use flappy_core::pipe::Pipe;
use flappy_core::world::{GameReq, GameReqType};

#[test]
fn is_ball_out_of_bounds_test() {
    let mut game = GameReq::game_start();
    game.ball.y_axis = SCREEN_HEIGHT + 10 * UNITS_PER_PIXEL;

    game.is_crashed();

    assert_eq!(
        game.state,
        GameReqType::GameOver,
        "Game should end when ball goes out of bounds."
    );
}

#[test]
fn collision_with_pipe_test() {
    let mut game = GameReq::game_start();

    game.state = GameReqType::Playing;

    game.ball.x_axis = 200 * UNITS_PER_PIXEL;
    game.ball.y_axis = 100 * UNITS_PER_PIXEL;

    game.pipes.push(Pipe {
        x_axis: 195 * UNITS_PER_PIXEL,
        height: 120 * UNITS_PER_PIXEL,
        scored: false,
    });

    // Check collision
    game.is_crashed();

    assert_eq!(
        game.state,
        GameReqType::GameOver,
        "Game should end when ball collides with pipe at position ({}, {})",
        game.ball.x_axis,
        game.ball.y_axis
    );
}

#[test]
fn no_score_increment_without_pipe_pass_test() {
    let mut game = GameReq::game_start();
    game.pipes.push(Pipe {
        x_axis: game.ball.x_axis + 100 * UNITS_PER_PIXEL,
        height: SCREEN_HEIGHT / 2,
        scored: false,
    });
    game.advance_and_spawn();
    assert_eq!(
        game.score, 0,
        "Score should not increment when the ball hasn't passed a pipe."
    );
}

#[test]
fn ball_movement_test() {
    let mut game = GameReq::game_start();
    game.state = GameReqType::Playing;

    let initial_y = game.ball.y_axis;

    game.ball.velocity = JUMP_VELOCITY;

    game.ball.y_axis += game.ball.velocity;

    assert!(
        game.ball.y_axis < initial_y,
        "Ball should move upward when jumping"
    );
}

#[test]
fn pipe_generation_test() {
    let mut game = GameReq::game_start();
    game.state = GameReqType::Playing;

    assert_eq!(game.pipes.len(), 0, "Should start with no pipes");

    game.advance_and_spawn();

    assert_eq!(game.pipes.len(), 1, "Should generate one pipe");

    let pipe = &game.pipes[0];
    assert_eq!(
        pipe.x_axis, SCREEN_WIDTH,
        "New pipe should start at screen width"
    );
}

#[test]
fn score_tracking_test() {
    let mut game = GameReq::game_start();
    game.state = GameReqType::Playing;

    game.pipes.push(Pipe {
        x_axis: game.ball.x_axis - PIPE_WIDTH - 10 * UNITS_PER_PIXEL,
        height: 200 * UNITS_PER_PIXEL,
        scored: false,
    });

    game.advance_and_spawn();

    assert_eq!(game.score, 1, "Should score point after passing pipe");
    assert!(game.pipes[0].scored, "Pipe should be marked as scored");
}
