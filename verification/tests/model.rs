use pong::entities::{
    new_ball, new_left_paddle, new_right_paddle, serve_spawn, set_ball_direction,
    BALL_DISPLAY_RADIUS, DEFAULT_BALL_SPEED, DEFAULT_PADDLE_HEIGHT,
    DEFAULT_PADDLE_MAX_BOUNCE_ANGLE, DEFAULT_PADDLE_SPEED, GAME_CENTER_X, GAME_CENTER_Y,
    GAME_WIDTH, NEW_BALL_ANGLE_RANGE,
};
use pong::geometry::{clamp_i64, div_trunc, UNIT};
use pong::input::movement_intent;
use pong::render::{
    ball_draw_circle, paddle_draw_rect, right_score_text_x, score_text, to_pixels,
};

#[test]
fn intent_is_down_minus_up() {
    assert_eq!(movement_intent(false, false), 0);
    assert_eq!(movement_intent(true, false), 1);
    assert_eq!(movement_intent(false, true), -1);
    assert_eq!(movement_intent(true, true), 0);
}

#[test]
fn truncating_division_rounds_toward_zero() {
    assert_eq!(div_trunc(7, 2), 3);
    assert_eq!(div_trunc(-7, 2), -3);
    assert_eq!(div_trunc(0, 5), 0);
    assert_eq!(div_trunc(-98304, 65536), -1);
}

#[test]
fn clamp_applies_upper_bound_first() {
    assert_eq!(clamp_i64(5, 0, 10), 5);
    assert_eq!(clamp_i64(-5, 0, 10), 0);
    assert_eq!(clamp_i64(15, 0, 10), 10);
    assert_eq!(clamp_i64(7, 9, 3), 9);
}

#[test]
fn fresh_paddles_sit_centered_on_their_edges() {
    let l = new_left_paddle();
    assert_eq!(l.position.x, 0);
    assert_eq!(l.position.y, GAME_CENTER_Y);
    assert_eq!(l.height, DEFAULT_PADDLE_HEIGHT);
    assert_eq!(l.speed, DEFAULT_PADDLE_SPEED);
    assert_eq!(l.max_bounce_angle, DEFAULT_PADDLE_MAX_BOUNCE_ANGLE);

    let r = new_right_paddle();
    assert_eq!(r.position.x, GAME_WIDTH);
    assert_eq!(r.position.y, GAME_CENTER_Y);
    assert_eq!(r.height, DEFAULT_PADDLE_HEIGHT);
    assert_eq!(r.speed, DEFAULT_PADDLE_SPEED);
    assert_eq!(r.max_bounce_angle, DEFAULT_PADDLE_MAX_BOUNCE_ANGLE);
}

#[test]
fn fresh_ball_sits_at_the_center() {
    let b = new_ball(0, 0, false);
    assert_eq!(b.position.x, GAME_CENTER_X);
    assert_eq!(b.position.y, GAME_CENTER_Y);
    assert_eq!(b.velocity.x, 0);
    assert_eq!(b.velocity.y, 0);
    assert_eq!(b.speed, DEFAULT_BALL_SPEED);
    assert_eq!(b.display_radius, BALL_DISPLAY_RADIUS);
}

#[test]
fn installed_direction_is_scaled_by_speed() {
    let mut b = new_ball(0, 0, false);
    set_ball_direction(&mut b, UNIT, 0, false);
    assert_eq!(b.velocity.x, DEFAULT_BALL_SPEED);
    assert_eq!(b.velocity.y, 0);

    set_ball_direction(&mut b, UNIT, 0, true);
    assert_eq!(b.velocity.x, -DEFAULT_BALL_SPEED);
    assert_eq!(b.velocity.y, 0);

    // half of a unit component scales to half the speed
    set_ball_direction(&mut b, UNIT / 2, -UNIT / 2, false);
    assert_eq!(b.velocity.x, DEFAULT_BALL_SPEED / 2);
    assert_eq!(b.velocity.y, -DEFAULT_BALL_SPEED / 2);
    assert_eq!(b.position.x, GAME_CENTER_X);
    assert_eq!(b.position.y, GAME_CENTER_Y);
}

#[test]
fn serve_angle_stays_within_a_quarter_turn() {
    for _ in 0..200 {
        let s = serve_spawn();
        assert!(-NEW_BALL_ANGLE_RANGE <= s.angle && s.angle <= NEW_BALL_ANGLE_RANGE);
    }
}

#[test]
fn pixels_truncate_toward_zero() {
    assert_eq!(to_pixels(98304), 1);
    assert_eq!(to_pixels(-98304), -1);
    assert_eq!(to_pixels(0), 0);
}

#[test]
fn left_paddle_rectangle_overhangs_the_edge() {
    let l = new_left_paddle();
    let rect = paddle_draw_rect(&l);
    assert_eq!(rect, (-1, 103, 3, 50));
}

#[test]
fn fresh_ball_circle() {
    let b = new_ball(0, 0, false);
    assert_eq!(ball_draw_circle(&b), (192, 128, 3));
}

#[test]
fn score_text_gives_decimal_digits() {
    assert_eq!(score_text(0), vec![b'0']);
    assert_eq!(score_text(7), vec![b'7']);
    assert_eq!(score_text(10), vec![b'1', b'0']);
    assert_eq!(score_text(4294967295), b"4294967295".to_vec());
}

#[test]
fn right_score_sits_at_a_fixed_inset() {
    assert_eq!(right_score_text_x(10), 344);
    assert_eq!(right_score_text_x(22), 332);
}
