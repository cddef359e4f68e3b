use pong::entities::{
    set_ball_direction, DEFAULT_BALL_SPEED, DEFAULT_PADDLE_HEIGHT,
    DEFAULT_PADDLE_MAX_BOUNCE_ANGLE, DEFAULT_PADDLE_SPEED, GAME_CENTER_X, GAME_CENTER_Y,
    GAME_HEIGHT, GAME_WIDTH, NEW_BALL_ANGLE_RANGE,
};
use pong::game::{new_game, step_frame, FrameOutcome, Side};
use pong::geometry::UNIT;
use pong::physics::{advance_paddle, bounce_angle, reflect_walls};

/// About a hundredth of a second, in subunit seconds.
const DT: i64 = 655;

#[test]
fn paddle_stops_at_the_top_edge() {
    let mut p = pong::entities::new_left_paddle();
    // a long frame going up pins the center half a height from the edge
    advance_paddle(&mut p, -1, 4194304);
    assert_eq!(p.position.y, DEFAULT_PADDLE_HEIGHT / 2);
    assert_eq!(p.position.x, 0);
}

#[test]
fn paddle_stops_at_the_bottom_edge() {
    let mut p = pong::entities::new_right_paddle();
    advance_paddle(&mut p, 1, 4194304);
    assert_eq!(p.position.y, GAME_HEIGHT - DEFAULT_PADDLE_HEIGHT / 2);
}

#[test]
fn paddle_moves_by_speed_times_time() {
    let mut p = pong::entities::new_left_paddle();
    // speed * dt / UNIT = 100 * 65536 * 655 / 65536 = 65500 subunits
    advance_paddle(&mut p, 1, DT);
    assert_eq!(p.position.y, GAME_CENTER_Y + DEFAULT_PADDLE_SPEED / UNIT * DT);
}

#[test]
fn top_wall_reflects_only_once_per_approach() {
    let mut b = pong::entities::new_ball(0, UNIT, false);
    b.position.y = 257 * UNIT;
    reflect_walls(&mut b);
    assert_eq!(b.velocity.y, -DEFAULT_BALL_SPEED);
    // still beyond the wall, but now departing: no second flip
    reflect_walls(&mut b);
    assert_eq!(b.velocity.y, -DEFAULT_BALL_SPEED);
}

#[test]
fn bottom_wall_reflects_only_once_per_approach() {
    let mut b = pong::entities::new_ball(0, -UNIT, false);
    b.position.y = -5;
    reflect_walls(&mut b);
    assert_eq!(b.velocity.y, DEFAULT_BALL_SPEED);
    reflect_walls(&mut b);
    assert_eq!(b.velocity.y, DEFAULT_BALL_SPEED);
}

#[test]
fn center_hit_leaves_horizontally() {
    assert_eq!(bounce_angle(0, DEFAULT_PADDLE_HEIGHT, DEFAULT_PADDLE_MAX_BOUNCE_ANGLE), 0);
}

#[test]
fn topmost_hit_leaves_at_the_full_negative_angle() {
    assert_eq!(
        bounce_angle(
            -(DEFAULT_PADDLE_HEIGHT / 2),
            DEFAULT_PADDLE_HEIGHT,
            DEFAULT_PADDLE_MAX_BOUNCE_ANGLE
        ),
        -DEFAULT_PADDLE_MAX_BOUNCE_ANGLE
    );
}

#[test]
fn bottommost_hit_leaves_at_the_full_positive_angle() {
    assert_eq!(
        bounce_angle(
            DEFAULT_PADDLE_HEIGHT / 2,
            DEFAULT_PADDLE_HEIGHT,
            DEFAULT_PADDLE_MAX_BOUNCE_ANGLE
        ),
        DEFAULT_PADDLE_MAX_BOUNCE_ANGLE
    );
}

#[test]
fn quiet_frame_stays_in_play() {
    let mut s = new_game();
    let outcome = step_frame(&mut s, 0, 0, DT);
    assert_eq!(outcome, FrameOutcome::InPlay);
    assert_eq!(s.ball.position.x, GAME_CENTER_X);
    assert_eq!(s.ball.position.y, GAME_CENTER_Y);
    assert_eq!(s.left_score, 0);
    assert_eq!(s.right_score, 0);
}

#[test]
fn centered_return_off_the_left_paddle() {
    let mut s = new_game();
    s.ball.position.x = UNIT;
    s.ball.position.y = 128 * UNIT;
    set_ball_direction(&mut s.ball, -UNIT, 0, false);
    assert_eq!(s.ball.velocity.x, -DEFAULT_BALL_SPEED);

    let outcome = step_frame(&mut s, 0, 0, DT);

    // dead-center hit: the outgoing angle is zero
    assert_eq!(outcome, FrameOutcome::BouncedLeft { angle: 0 });
    assert_eq!(s.left_score, 0);
    assert_eq!(s.right_score, 0);
    // the ball moved 104800 subunits left and sits past the edge
    assert_eq!(s.ball.position.x, UNIT - 104800);
    assert_eq!(s.ball.position.y, 128 * UNIT);

    // the embedding program installs the unit direction of angle zero
    set_ball_direction(&mut s.ball, UNIT, 0, false);
    assert_eq!(s.ball.velocity.x, DEFAULT_BALL_SPEED);
    assert_eq!(s.ball.velocity.y, 0);
}

#[test]
fn return_off_the_right_paddle_flips_horizontally() {
    let mut s = new_game();
    s.ball.position.x = 383 * UNIT;
    s.ball.position.y = 128 * UNIT;
    set_ball_direction(&mut s.ball, UNIT, 0, false);

    let outcome = step_frame(&mut s, 0, 0, DT);
    assert_eq!(outcome, FrameOutcome::BouncedRight { angle: 0 });
    assert_eq!(s.left_score, 0);
    assert_eq!(s.right_score, 0);

    set_ball_direction(&mut s.ball, UNIT, 0, true);
    assert_eq!(s.ball.velocity.x, -DEFAULT_BALL_SPEED);
    assert_eq!(s.ball.velocity.y, 0);
}

#[test]
fn overshot_miss_scores_for_the_right_side_and_resets() {
    let mut s = new_game();
    // outside game height, within one frame's overshoot
    s.ball.position.x = UNIT;
    s.ball.position.y = 400 * UNIT;
    set_ball_direction(&mut s.ball, -UNIT, 0, false);

    let outcome = step_frame(&mut s, 0, 0, DT);

    match outcome {
        FrameOutcome::PointScored { winner, serve } => {
            assert_eq!(winner, Side::Right);
            assert!(-NEW_BALL_ANGLE_RANGE <= serve.angle && serve.angle <= NEW_BALL_ANGLE_RANGE);
        }
        other => panic!("expected a point, got {:?}", other),
    }
    // exactly one counter moved
    assert_eq!(s.right_score, 1);
    assert_eq!(s.left_score, 0);
    // full round reset
    assert_eq!(s.ball.position.x, GAME_CENTER_X);
    assert_eq!(s.ball.position.y, GAME_CENTER_Y);
    assert_eq!(s.ball.velocity.x, 0);
    assert_eq!(s.ball.velocity.y, 0);
    assert_eq!(s.left_paddle.position.x, 0);
    assert_eq!(s.left_paddle.position.y, GAME_CENTER_Y);
    assert_eq!(s.right_paddle.position.x, GAME_WIDTH);
    assert_eq!(s.right_paddle.position.y, GAME_CENTER_Y);
}

#[test]
fn miss_at_the_right_edge_scores_for_the_left_side() {
    let mut s = new_game();
    s.ball.position.x = 383 * UNIT;
    s.ball.position.y = 10 * UNIT; // far above the right paddle's extent
    set_ball_direction(&mut s.ball, UNIT, 0, false);

    let outcome = step_frame(&mut s, 0, 0, DT);
    assert!(matches!(outcome, FrameOutcome::PointScored { winner: Side::Left, .. }));
    assert_eq!(s.left_score, 1);
    assert_eq!(s.right_score, 0);
    assert_eq!(s.ball.position.x, GAME_CENTER_X);
    assert_eq!(s.ball.position.y, GAME_CENTER_Y);
}

#[test]
fn zero_length_frame_changes_nothing() {
    let mut s = new_game();
    set_ball_direction(&mut s.ball, -UNIT, 0, false);
    let before = s;
    let outcome = step_frame(&mut s, 1, -1, 0);
    assert_eq!(outcome, FrameOutcome::InPlay);
    assert_eq!(s, before);
}

#[test]
fn hit_exactly_at_the_paddle_edge_still_returns() {
    let mut s = new_game();
    s.ball.position.x = UNIT;
    // the bottommost collidable point of the left paddle's extent
    s.ball.position.y = 128 * UNIT + DEFAULT_PADDLE_HEIGHT / 2;
    set_ball_direction(&mut s.ball, -UNIT, 0, false);

    let outcome = step_frame(&mut s, 0, 0, DT);
    assert_eq!(
        outcome,
        FrameOutcome::BouncedLeft { angle: DEFAULT_PADDLE_MAX_BOUNCE_ANGLE }
    );
    assert_eq!(s.right_score, 0);
}

#[test]
fn one_subunit_past_the_paddle_edge_is_a_miss() {
    let mut s = new_game();
    s.ball.position.x = UNIT;
    s.ball.position.y = 128 * UNIT + DEFAULT_PADDLE_HEIGHT / 2 + 1;
    set_ball_direction(&mut s.ball, -UNIT, 0, false);

    let outcome = step_frame(&mut s, 0, 0, DT);
    assert!(matches!(outcome, FrameOutcome::PointScored { winner: Side::Right, .. }));
    assert_eq!(s.right_score, 1);
}

#[test]
fn paddles_stay_inside_game_space_across_frames() {
    let mut s = new_game();
    for _ in 0..300 {
        step_frame(&mut s, -1, 1, 4194304);
        assert!(DEFAULT_PADDLE_HEIGHT / 2 <= s.left_paddle.position.y);
        assert!(s.left_paddle.position.y <= GAME_HEIGHT - DEFAULT_PADDLE_HEIGHT / 2);
        assert!(DEFAULT_PADDLE_HEIGHT / 2 <= s.right_paddle.position.y);
        assert!(s.right_paddle.position.y <= GAME_HEIGHT - DEFAULT_PADDLE_HEIGHT / 2);
    }
}
