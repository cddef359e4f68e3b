//! The frame-level rules: one game state, advanced one frame at a time.
//!
//! [`step_frame`] plays the physics of one frame and decides its single
//! event: the ball was returned by a paddle, a side scored, or plain
//! flight. Turning a bounce or serve angle into a unit direction vector
//! is floating-point trigonometry and is left to the embedding program,
//! which completes the frame by handing the direction components to
//! [`crate::entities::set_ball_direction`]; until it does, a freshly
//! reset ball carries a zero velocity.

use vstd::prelude::*;
use crate::geometry::{Vec2, div_trunc, lemma_tdiv_sign};
use crate::entities::{
    Ball, Paddle, BallSpawn, ball_wf, paddle_wf, new_ball, new_left_paddle, new_right_paddle,
    serve_spawn, GAME_WIDTH, GAME_CENTER_X, GAME_CENTER_Y, DEFAULT_BALL_SPEED,
    BALL_DISPLAY_RADIUS, DEFAULT_PADDLE_HEIGHT, DEFAULT_PADDLE_SPEED,
    DEFAULT_PADDLE_MAX_BOUNCE_ANGLE, NEW_BALL_ANGLE_RANGE, DT_CAP,
};
use crate::physics::{
    advance_paddle, advance_ball, reflect_walls, bounce_angle, spec_paddle_y_after,
    spec_ball_coord_after, spec_vy_after_walls, spec_bounce_angle,
};

verus! {

/// The side that won a point.
#[derive(Clone, Copy, PartialEq, Eq, Structural, Debug)]
pub enum Side {
    Left,
    Right,
}

/// The whole state of a running game.
#[derive(Clone, Copy, PartialEq, Eq, Structural, Debug)]
pub struct GameState {
    pub ball: Ball,
    pub left_paddle: Paddle,
    pub right_paddle: Paddle,
    pub left_score: i32,
    pub right_score: i32,
}

/// What one frame decided.
#[derive(Clone, Copy, PartialEq, Eq, Structural, Debug)]
pub enum FrameOutcome {
    /// The ball is in flight; nothing further to do.
    InPlay,
    /// The left paddle returned the ball: the embedding program is to
    /// install the unit direction of `angle` on the ball, without a
    /// horizontal flip.
    BouncedLeft { angle: i64 },
    /// The right paddle returned the ball: the embedding program is to
    /// install the unit direction of `angle` on the ball, with the
    /// horizontal component negated so the ball goes back leftward.
    BouncedRight { angle: i64 },
    /// A side scored; paddles and ball were rebuilt, and the embedding
    /// program is to install the serve's direction on the fresh ball.
    PointScored { winner: Side, serve: BallSpawn },
}

/// A game state is well formed when both paddles are on their own
/// edges and inside game space, and every kinematic quantity is within
/// the machine caps.
pub open spec fn state_wf(s: GameState) -> bool {
    &&& ball_wf(s.ball)
    &&& paddle_wf(s.left_paddle)
    &&& paddle_wf(s.right_paddle)
    &&& s.left_paddle.position.x == 0
    &&& s.right_paddle.position.x == GAME_WIDTH
    &&& 0 <= s.left_score
    &&& 0 <= s.right_score
}

/// The ball's horizontal position after this frame's advance.
pub open spec fn adv_ball_x(s: GameState, dt: int) -> int {
    spec_ball_coord_after(s.ball.position.x as int, s.ball.velocity.x as int, dt)
}

/// The ball's vertical position after this frame's advance.
pub open spec fn adv_ball_y(s: GameState, dt: int) -> int {
    spec_ball_coord_after(s.ball.position.y as int, s.ball.velocity.y as int, dt)
}

/// The ball's vertical velocity after this frame's advance and wall
/// checks.
pub open spec fn post_wall_vy(s: GameState, dt: int) -> int {
    spec_vy_after_walls(adv_ball_y(s, dt), s.ball.velocity.y as int)
}

/// The left boundary is reached: the advanced ball is at or past the
/// left paddle's plane and still moving left.
pub open spec fn left_triggered(s: GameState, dt: int) -> bool {
    adv_ball_x(s, dt) <= s.left_paddle.position.x && s.ball.velocity.x <= 0
}

/// Having reached the left boundary, the ball is within the left
/// paddle's vertical extent (the paddle's center taken after this
/// frame's movement).
pub open spec fn left_returned(s: GameState, li: int, dt: int) -> bool {
    let py = spec_paddle_y_after(s.left_paddle, li, dt);
    let half = s.left_paddle.height / 2;
    py - half <= adv_ball_y(s, dt) <= py + half
}

/// The right boundary is reached: the advanced ball is at or past the
/// right paddle's plane and still moving right.
pub open spec fn right_triggered(s: GameState, dt: int) -> bool {
    adv_ball_x(s, dt) >= s.right_paddle.position.x && s.ball.velocity.x >= 0
}

/// Having reached the right boundary, the ball is within the right
/// paddle's vertical extent.
pub open spec fn right_returned(s: GameState, ri: int, dt: int) -> bool {
    let py = spec_paddle_y_after(s.right_paddle, ri, dt);
    let half = s.right_paddle.height / 2;
    py - half <= adv_ball_y(s, dt) <= py + half
}

/// Both paddles advanced by their intents and otherwise unchanged.
pub open spec fn paddles_advanced(s: GameState, li: int, ri: int, dt: int, t: GameState) -> bool {
    &&& t.left_paddle.position.x == s.left_paddle.position.x
    &&& t.left_paddle.position.y == spec_paddle_y_after(s.left_paddle, li, dt)
    &&& t.left_paddle.height == s.left_paddle.height
    &&& t.left_paddle.speed == s.left_paddle.speed
    &&& t.left_paddle.max_bounce_angle == s.left_paddle.max_bounce_angle
    &&& t.right_paddle.position.x == s.right_paddle.position.x
    &&& t.right_paddle.position.y == spec_paddle_y_after(s.right_paddle, ri, dt)
    &&& t.right_paddle.height == s.right_paddle.height
    &&& t.right_paddle.speed == s.right_paddle.speed
    &&& t.right_paddle.max_bounce_angle == s.right_paddle.max_bounce_angle
}

/// The ball advanced: position moved by `velocity * dt`, vertical
/// velocity reflected at the walls where due, all else kept. The
/// horizontal velocity still holds its pre-frame value; after a return
/// it is the embedding program that installs the new direction.
pub open spec fn ball_advanced(s: GameState, dt: int, t: GameState) -> bool {
    &&& t.ball.position.x == adv_ball_x(s, dt)
    &&& t.ball.position.y == adv_ball_y(s, dt)
    &&& t.ball.velocity.x == s.ball.velocity.x
    &&& t.ball.velocity.y == post_wall_vy(s, dt)
    &&& t.ball.speed == s.ball.speed
    &&& t.ball.display_radius == s.ball.display_radius
}

/// A full round reset: both paddles rebuilt on their edges at
/// mid-height with the default parameters, and a fresh ball at the
/// exact center of game space, not yet moving until the serve
/// direction is installed.
pub open spec fn round_reset(t: GameState) -> bool {
    &&& t.left_paddle == (Paddle {
        position: Vec2 { x: 0, y: GAME_CENTER_Y },
        height: DEFAULT_PADDLE_HEIGHT,
        speed: DEFAULT_PADDLE_SPEED,
        max_bounce_angle: DEFAULT_PADDLE_MAX_BOUNCE_ANGLE,
    })
    &&& t.right_paddle == (Paddle {
        position: Vec2 { x: GAME_WIDTH, y: GAME_CENTER_Y },
        height: DEFAULT_PADDLE_HEIGHT,
        speed: DEFAULT_PADDLE_SPEED,
        max_bounce_angle: DEFAULT_PADDLE_MAX_BOUNCE_ANGLE,
    })
    &&& t.ball.position == (Vec2 { x: GAME_CENTER_X, y: GAME_CENTER_Y })
    &&& t.ball.velocity == (Vec2 { x: 0, y: 0 })
    &&& t.ball.speed == DEFAULT_BALL_SPEED
    &&& t.ball.display_radius == BALL_DISPLAY_RADIUS
}

/// The angle of a left-paddle return this frame.
pub open spec fn left_bounce_angle(s: GameState, li: int, dt: int) -> int {
    spec_bounce_angle(
        adv_ball_y(s, dt) - spec_paddle_y_after(s.left_paddle, li, dt),
        s.left_paddle.height as int,
        s.left_paddle.max_bounce_angle as int,
    )
}

/// The angle of a right-paddle return this frame.
pub open spec fn right_bounce_angle(s: GameState, ri: int, dt: int) -> int {
    spec_bounce_angle(
        adv_ball_y(s, dt) - spec_paddle_y_after(s.right_paddle, ri, dt),
        s.right_paddle.height as int,
        s.right_paddle.max_bounce_angle as int,
    )
}

/// A fresh game: paddles on their edges at mid-height, the ball at the
/// center with the default parameters and no motion yet, both scores
/// zero. The first serve's direction is installed afterwards, from a
/// [`serve_spawn`] draw.
pub fn new_game() -> (s: GameState)
    ensures
        round_reset(s),
        s.left_score == 0,
        s.right_score == 0,
        state_wf(s),
{
    proof {
        lemma_tdiv_sign(0, crate::geometry::UNIT as int);
    }
    GameState {
        ball: new_ball(0, 0, false),
        left_paddle: new_left_paddle(),
        right_paddle: new_right_paddle(),
        left_score: 0,
        right_score: 0,
    }
}

/// Play one frame: move both paddles by their intents, move the ball,
/// reflect it off the top and bottom edges, and settle the boundary
/// interactions — a paddle return with its bounce angle, or a score
/// with a full round reset. At most one boundary event happens per
/// frame, and at most one score counter moves.
pub fn step_frame(state: &mut GameState, left_intent: i32, right_intent: i32, dt: i64) -> (outcome: FrameOutcome)
    requires
        state_wf(*old(state)),
        -1 <= left_intent <= 1,
        -1 <= right_intent <= 1,
        0 <= dt <= DT_CAP,
        old(state).left_score < i32::MAX,
        old(state).right_score < i32::MAX,
    ensures
        state_wf(*final(state)),
        // a left-paddle return: the ball is kept, its new direction is
        // the bounce angle, to be installed by the caller
        left_triggered(*old(state), dt as int) && left_returned(*old(state), left_intent as int, dt as int) ==> {
            &&& outcome == (FrameOutcome::BouncedLeft {
                angle: left_bounce_angle(*old(state), left_intent as int, dt as int) as i64,
            })
            &&& paddles_advanced(*old(state), left_intent as int, right_intent as int, dt as int, *final(state))
            &&& ball_advanced(*old(state), dt as int, *final(state))
            &&& final(state).left_score == old(state).left_score
            &&& final(state).right_score == old(state).right_score
        },
        // a miss at the left boundary: the right side scores, the round resets
        left_triggered(*old(state), dt as int) && !left_returned(*old(state), left_intent as int, dt as int) ==> {
            &&& outcome matches FrameOutcome::PointScored { winner: Side::Right, serve }
                && -NEW_BALL_ANGLE_RANGE <= serve.angle <= NEW_BALL_ANGLE_RANGE
            &&& round_reset(*final(state))
            &&& final(state).left_score == old(state).left_score
            &&& final(state).right_score == old(state).right_score + 1
        },
        // a right-paddle return
        !left_triggered(*old(state), dt as int) && right_triggered(*old(state), dt as int)
            && right_returned(*old(state), right_intent as int, dt as int) ==> {
            &&& outcome == (FrameOutcome::BouncedRight {
                angle: right_bounce_angle(*old(state), right_intent as int, dt as int) as i64,
            })
            &&& paddles_advanced(*old(state), left_intent as int, right_intent as int, dt as int, *final(state))
            &&& ball_advanced(*old(state), dt as int, *final(state))
            &&& final(state).left_score == old(state).left_score
            &&& final(state).right_score == old(state).right_score
        },
        // a miss at the right boundary: the left side scores, the round resets
        !left_triggered(*old(state), dt as int) && right_triggered(*old(state), dt as int)
            && !right_returned(*old(state), right_intent as int, dt as int) ==> {
            &&& outcome matches FrameOutcome::PointScored { winner: Side::Left, serve }
                && -NEW_BALL_ANGLE_RANGE <= serve.angle <= NEW_BALL_ANGLE_RANGE
            &&& round_reset(*final(state))
            &&& final(state).left_score == old(state).left_score + 1
            &&& final(state).right_score == old(state).right_score
        },
        // plain flight
        !left_triggered(*old(state), dt as int) && !right_triggered(*old(state), dt as int) ==> {
            &&& outcome == FrameOutcome::InPlay
            &&& paddles_advanced(*old(state), left_intent as int, right_intent as int, dt as int, *final(state))
            &&& ball_advanced(*old(state), dt as int, *final(state))
            &&& final(state).left_score == old(state).left_score
            &&& final(state).right_score == old(state).right_score
        },
        // scoring is exclusive per frame: never both counters
        !(final(state).left_score > old(state).left_score
            && final(state).right_score > old(state).right_score),
        // and a counter moves by at most one
        old(state).left_score <= final(state).left_score <= old(state).left_score + 1,
        old(state).right_score <= final(state).right_score <= old(state).right_score + 1,
{
    advance_paddle(&mut state.left_paddle, left_intent, dt);
    advance_paddle(&mut state.right_paddle, right_intent, dt);
    advance_ball(&mut state.ball, dt);
    reflect_walls(&mut state.ball);

    if state.ball.position.x <= state.left_paddle.position.x && state.ball.velocity.x <= 0 {
        let half: i64 = div_trunc(state.left_paddle.height, 2);
        if state.left_paddle.position.y - half <= state.ball.position.y
            && state.ball.position.y <= state.left_paddle.position.y + half {
            let angle: i64 = bounce_angle(
                state.ball.position.y - state.left_paddle.position.y,
                state.left_paddle.height,
                state.left_paddle.max_bounce_angle,
            );
            return FrameOutcome::BouncedLeft { angle };
        } else {
            state.right_score = state.right_score + 1;
            state.left_paddle = new_left_paddle();
            state.right_paddle = new_right_paddle();
            proof {
                lemma_tdiv_sign(0, crate::geometry::UNIT as int);
            }
            state.ball = new_ball(0, 0, false);
            let serve = serve_spawn();
            return FrameOutcome::PointScored { winner: Side::Right, serve };
        }
    }

    if state.ball.position.x >= state.right_paddle.position.x && state.ball.velocity.x >= 0 {
        let half: i64 = div_trunc(state.right_paddle.height, 2);
        if state.right_paddle.position.y - half <= state.ball.position.y
            && state.ball.position.y <= state.right_paddle.position.y + half {
            let angle: i64 = bounce_angle(
                state.ball.position.y - state.right_paddle.position.y,
                state.right_paddle.height,
                state.right_paddle.max_bounce_angle,
            );
            return FrameOutcome::BouncedRight { angle };
        } else {
            state.left_score = state.left_score + 1;
            state.left_paddle = new_left_paddle();
            state.right_paddle = new_right_paddle();
            proof {
                lemma_tdiv_sign(0, crate::geometry::UNIT as int);
            }
            state.ball = new_ball(0, 0, false);
            let serve = serve_spawn();
            return FrameOutcome::PointScored { winner: Side::Left, serve };
        }
    }

    FrameOutcome::InPlay
}

} // verus!
