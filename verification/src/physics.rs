//! Per-frame kinematics: paddle movement with clamping, ball movement,
//! wall reflection, and the bounce-angle mapping of a paddle return.

use vstd::prelude::*;
use crate::geometry::{UNIT, tdiv, div_trunc, spec_clamp, clamp_i64, lemma_tdiv_bound, lemma_tdiv_sign};
use crate::entities::{Ball, Paddle, ball_wf, paddle_wf, GAME_HEIGHT, ANGLE_TAU, SPEED_CAP, DT_CAP, POS_CAP};

verus! {

/// How far a speed within the cap carries in a frame within the cap:
/// the bound on any single-frame displacement, in subunits.
pub const FRAME_STEP_CAP: i64 = 137438953472;

/// A paddle's vertical center after one frame: the signed displacement
/// `intent * speed * dt` added, then the result clamped so that the
/// whole paddle stays between the horizontal edges.
pub open spec fn spec_paddle_y_after(p: Paddle, intent: int, dt: int) -> int {
    spec_clamp(
        p.position.y + intent * tdiv(p.speed * dt, UNIT as int),
        p.height / 2,
        GAME_HEIGHT - p.height / 2,
    )
}

/// Advance a paddle by one frame: move its center by
/// `intent * speed * dt` and clamp it to
/// `[height / 2, GAME_HEIGHT - height / 2]`.
pub fn advance_paddle(p: &mut Paddle, intent: i32, dt: i64)
    requires
        paddle_wf(*old(p)),
        -1 <= intent <= 1,
        0 <= dt <= DT_CAP,
    ensures
        final(p).position.y == spec_paddle_y_after(*old(p), intent as int, dt as int),
        final(p).position.x == old(p).position.x,
        final(p).height == old(p).height,
        final(p).speed == old(p).speed,
        final(p).max_bounce_angle == old(p).max_bounce_angle,
        paddle_wf(*final(p)),
        old(p).height / 2 <= final(p).position.y <= GAME_HEIGHT - old(p).height / 2,
{
    proof {
        assert(p.speed * dt <= SPEED_CAP * DT_CAP) by (nonlinear_arith)
            requires 0 <= p.speed <= SPEED_CAP, 0 <= dt <= DT_CAP;
        assert(p.speed * dt >= 0) by (nonlinear_arith)
            requires p.speed >= 0, dt >= 0;
        lemma_tdiv_bound(p.speed as int * dt as int, UNIT as int, FRAME_STEP_CAP as int);
    }
    let step: i64 = div_trunc(p.speed * dt, UNIT);
    proof {
        assert(-FRAME_STEP_CAP <= intent * step <= FRAME_STEP_CAP) by (nonlinear_arith)
            requires -1 <= intent <= 1, -FRAME_STEP_CAP <= step <= FRAME_STEP_CAP;
    }
    let moved: i64 = p.position.y + (intent as i64) * step;
    let half: i64 = div_trunc(p.height, 2);
    p.position.y = clamp_i64(moved, half, GAME_HEIGHT - half);
}

/// One coordinate of the ball after one frame: the velocity component
/// times the elapsed time added, saturating at the far bound `POS_CAP`
/// of representable space.
pub open spec fn spec_ball_coord_after(pos: int, vel: int, dt: int) -> int {
    spec_clamp(pos + tdiv(vel * dt, UNIT as int), -POS_CAP as int, POS_CAP as int)
}

/// Advance the ball by one frame: add `velocity * dt` to the position.
/// The stored velocity is the current direction already scaled by the
/// ball's speed, so no renormalization is needed; an integer direction
/// never drifts.
pub fn advance_ball(b: &mut Ball, dt: i64)
    requires
        ball_wf(*old(b)),
        0 <= dt <= DT_CAP,
    ensures
        final(b).position.x == spec_ball_coord_after(
            old(b).position.x as int, old(b).velocity.x as int, dt as int),
        final(b).position.y == spec_ball_coord_after(
            old(b).position.y as int, old(b).velocity.y as int, dt as int),
        final(b).velocity == old(b).velocity,
        final(b).speed == old(b).speed,
        final(b).display_radius == old(b).display_radius,
        ball_wf(*final(b)),
{
    proof {
        assert(-(SPEED_CAP * DT_CAP) <= b.velocity.x * dt <= SPEED_CAP * DT_CAP) by (nonlinear_arith)
            requires -SPEED_CAP <= b.velocity.x <= SPEED_CAP, 0 <= dt <= DT_CAP;
        assert(-(SPEED_CAP * DT_CAP) <= b.velocity.y * dt <= SPEED_CAP * DT_CAP) by (nonlinear_arith)
            requires -SPEED_CAP <= b.velocity.y <= SPEED_CAP, 0 <= dt <= DT_CAP;
        lemma_tdiv_bound(b.velocity.x as int * dt as int, UNIT as int, FRAME_STEP_CAP as int);
        lemma_tdiv_bound(b.velocity.y as int * dt as int, UNIT as int, FRAME_STEP_CAP as int);
    }
    let dx: i64 = div_trunc(b.velocity.x * dt, UNIT);
    let dy: i64 = div_trunc(b.velocity.y * dt, UNIT);
    b.position.x = clamp_i64(b.position.x + dx, -POS_CAP, POS_CAP);
    b.position.y = clamp_i64(b.position.y + dy, -POS_CAP, POS_CAP);
}

/// The vertical velocity after the wall checks: negated when the ball
/// is at or beyond the top edge and not moving away from it, or at or
/// beyond the bottom edge and not moving away from it.
pub open spec fn spec_vy_after_walls(pos_y: int, vy: int) -> int {
    if pos_y >= GAME_HEIGHT && vy >= 0 {
        -vy
    } else if pos_y <= 0 && vy <= 0 {
        -vy
    } else {
        vy
    }
}

/// Reflect the ball off the top and bottom edges of game space. The two
/// edge conditions exclude each other, so at most one negation happens
/// per frame.
pub fn reflect_walls(b: &mut Ball)
    requires
        ball_wf(*old(b)),
    ensures
        final(b).velocity.y == spec_vy_after_walls(
            old(b).position.y as int, old(b).velocity.y as int),
        final(b).velocity.x == old(b).velocity.x,
        final(b).position == old(b).position,
        final(b).speed == old(b).speed,
        final(b).display_radius == old(b).display_radius,
        ball_wf(*final(b)),
{
    if b.position.y >= GAME_HEIGHT && b.velocity.y >= 0 {
        b.velocity.y = -b.velocity.y;
    } else if b.position.y <= 0 && b.velocity.y <= 0 {
        b.velocity.y = -b.velocity.y;
    }
}

/// The outgoing angle of a paddle return, from the ball's vertical
/// offset against the paddle's center, by linear interpolation: the
/// offset, normalized to `[-1, 1]` over half the paddle's height, is
/// mapped to `[0, 1]` and then to
/// `[-max_bounce_angle, max_bounce_angle]`; algebraically that is
/// `2 * max_bounce_angle * offset / height`.
pub open spec fn spec_bounce_angle(offset: int, height: int, max_angle: int) -> int {
    tdiv(2 * max_angle * offset, height)
}

/// Compute the outgoing angle of a paddle return.
pub fn bounce_angle(offset: i64, height: i64, max_angle: i64) -> (a: i64)
    requires
        0 < height <= GAME_HEIGHT,
        0 <= max_angle <= ANGLE_TAU,
        -height <= 2 * offset <= height,
    ensures
        a == spec_bounce_angle(offset as int, height as int, max_angle as int),
        -max_angle <= a <= max_angle,
        offset == 0 ==> a == 0,
{
    proof {
        assert(-(max_angle * height) <= 2 * max_angle * offset <= max_angle * height)
            by (nonlinear_arith)
            requires 0 <= max_angle, -height <= 2 * offset <= height;
        assert(max_angle * height <= ANGLE_TAU * GAME_HEIGHT) by (nonlinear_arith)
            requires 0 <= max_angle <= ANGLE_TAU, 0 < height <= GAME_HEIGHT;
        lemma_tdiv_bound(2 * max_angle as int * offset as int, height as int, max_angle as int);
        if offset == 0 {
            lemma_tdiv_sign(0, height as int);
        }
    }
    div_trunc(2 * max_angle * offset, height)
}

/// Whatever the intent and however long the frame, a well-formed
/// paddle's center stays at least half the paddle's height away from
/// either horizontal edge.
pub proof fn lemma_paddle_stays_inside(p: Paddle, intent: int, dt: int)
    requires
        paddle_wf(p),
    ensures
        p.height / 2 <= spec_paddle_y_after(p, intent, dt) <= GAME_HEIGHT - p.height / 2,
{
}

/// At the top edge with upward motion, one reflection sends the ball
/// away: the reflected vertical velocity is the negation, the top
/// condition no longer holds of it wherever the ball still is at or
/// beyond the top edge, and a further constant-velocity step does not
/// raise the ball.
pub proof fn lemma_top_reflection_departs(pos_y: int, vy: int, dt: int)
    requires
        pos_y >= GAME_HEIGHT,
        vy > 0,
        0 <= dt,
    ensures
        spec_vy_after_walls(pos_y, vy) == -vy,
        forall|p: int| p >= GAME_HEIGHT ==> #[trigger] spec_vy_after_walls(p, -vy) == -vy,
        tdiv(-vy * dt, UNIT as int) <= 0,
{
    assert(-vy * dt <= 0) by (nonlinear_arith)
        requires vy > 0, dt >= 0;
    lemma_tdiv_sign(-vy * dt, UNIT as int);
}

/// At the bottom edge with downward motion, one reflection sends the
/// ball away, symmetrically to the top edge.
pub proof fn lemma_bottom_reflection_departs(pos_y: int, vy: int, dt: int)
    requires
        pos_y <= 0,
        vy < 0,
        0 <= dt,
    ensures
        spec_vy_after_walls(pos_y, vy) == -vy,
        forall|p: int| p <= 0 ==> #[trigger] spec_vy_after_walls(p, -vy) == -vy,
        tdiv(-vy * dt, UNIT as int) >= 0,
{
    assert(-vy * dt >= 0) by (nonlinear_arith)
        requires vy < 0, dt >= 0;
    lemma_tdiv_sign(-vy * dt, UNIT as int);
}

/// A ball striking the dead center of a paddle leaves horizontally:
/// the bounce angle of a zero offset is zero.
pub proof fn lemma_bounce_center_horizontal(height: int, max_angle: int)
    requires
        0 < height,
    ensures
        spec_bounce_angle(0, height, max_angle) == 0,
{
    lemma_tdiv_sign(0, height);
}

/// A ball striking the topmost collidable point of a paddle of even
/// height leaves at the full negative bounce angle.
pub proof fn lemma_bounce_top_extreme(height: int, max_angle: int)
    requires
        0 < height,
        height % 2 == 0,
        0 <= max_angle,
    ensures
        spec_bounce_angle(-(height / 2), height, max_angle) == -max_angle,
{
    vstd::arithmetic::div_mod::lemma_fundamental_div_mod(height, 2);
    assert(2 * max_angle * (height / 2) == max_angle * height) by (nonlinear_arith)
        requires height == 2 * (height / 2);
    vstd::arithmetic::div_mod::lemma_div_multiples_vanish(max_angle, height);
    assert(max_angle * height == height * max_angle) by (nonlinear_arith);
    assert(2 * max_angle * (-(height / 2)) == -(2 * max_angle * (height / 2))) by (nonlinear_arith);
    vstd::arithmetic::div_mod::lemma_div_pos_is_pos(max_angle * height, height);
}

} // verus!
