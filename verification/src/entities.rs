//! The game's entities and their factories: the ball, the two paddles,
//! the fixed game-space constants, and the random serve draw.

use vstd::prelude::*;
use crate::geometry::{Vec2, UNIT, tdiv, div_trunc};

verus! {

/// Width of game space, in subunits (384 game units).
pub const GAME_WIDTH: i64 = 384 * UNIT;

/// Height of game space, in subunits (256 game units).
pub const GAME_HEIGHT: i64 = 256 * UNIT;

/// Horizontal center of game space.
pub const GAME_CENTER_X: i64 = 192 * UNIT;

/// Vertical center of game space.
pub const GAME_CENTER_Y: i64 = 128 * UNIT;

/// Angle subunits in one full turn: angles are thousandths of a degree.
pub const ANGLE_TAU: i64 = 360000;

/// A fresh ball's direction angle is drawn uniformly from
/// `[-NEW_BALL_ANGLE_RANGE, NEW_BALL_ANGLE_RANGE]`: a quarter turn to
/// either side of the horizontal, so the vertical direction of a serve
/// spans a full semicircle.
pub const NEW_BALL_ANGLE_RANGE: i64 = 90000;

/// Ball speed in subunits per second (160 game units per second).
pub const DEFAULT_BALL_SPEED: i64 = 160 * UNIT;

/// Display radius of the ball (3 game units).
pub const BALL_DISPLAY_RADIUS: i64 = 3 * UNIT;

/// Collision height of a paddle (50 game units).
pub const DEFAULT_PADDLE_HEIGHT: i64 = 50 * UNIT;

/// Paddle speed in subunits per second (100 game units per second).
pub const DEFAULT_PADDLE_SPEED: i64 = 100 * UNIT;

/// Largest outgoing bounce angle, measured from the horizontal: a tenth
/// of a turn (36 degrees) to either side.
pub const DEFAULT_PADDLE_MAX_BOUNCE_ANGLE: i64 = 36000;

/// Upper bound on any speed or velocity component the model admits, in
/// subunits per second. A machine limit, far above the defaults.
pub const SPEED_CAP: i64 = 2147483648;

/// Upper bound on a frame's elapsed time, in subunit seconds (64
/// seconds). A machine limit; real frames are a few hundredths of a
/// second.
pub const DT_CAP: i64 = 4194304;

/// Positions saturate at this distance from the origin, about seventy
/// billion game units out: a machine limit that keeps every coordinate
/// computation inside `i64`.
pub const POS_CAP: i64 = 4503599627370496;

/// The ball: a moving point with a fixed scalar speed and a display
/// radius. `velocity` holds the current direction already scaled by
/// `speed`, exactly as installed by [`set_ball_direction`]; wall
/// reflection and the horizontal flip of a right-paddle return only
/// negate a component, so the magnitude never drifts.
#[derive(Clone, Copy, PartialEq, Eq, Structural, Debug)]
pub struct Ball {
    pub position: Vec2,
    pub velocity: Vec2,
    pub speed: i64,
    pub display_radius: i64,
}

/// A paddle: `position.x` is fixed per side, `position.y` is the
/// vertical center and is clamped to keep the whole paddle inside game
/// space.
#[derive(Clone, Copy, PartialEq, Eq, Structural, Debug)]
pub struct Paddle {
    pub position: Vec2,
    pub height: i64,
    pub speed: i64,
    pub max_bounce_angle: i64,
}

/// Bounds under which every kinematic computation on the ball stays
/// inside `i64`.
pub open spec fn ball_wf(b: Ball) -> bool {
    &&& 0 <= b.speed <= SPEED_CAP
    &&& -SPEED_CAP <= b.velocity.x <= SPEED_CAP
    &&& -SPEED_CAP <= b.velocity.y <= SPEED_CAP
    &&& -POS_CAP <= b.position.x <= POS_CAP
    &&& -POS_CAP <= b.position.y <= POS_CAP
    &&& 0 <= b.display_radius
}

/// A paddle is well formed when it fits inside game space, its center
/// keeps the whole paddle inside the horizontal edges, and its
/// parameters are within the machine caps.
pub open spec fn paddle_wf(p: Paddle) -> bool {
    &&& 0 < p.height <= GAME_HEIGHT
    &&& p.height / 2 <= p.position.y <= GAME_HEIGHT - p.height / 2
    &&& 0 <= p.speed <= SPEED_CAP
    &&& 0 <= p.max_bounce_angle <= ANGLE_TAU
}

/// One velocity component after installing a direction: the unit-vector
/// component (in subunits, at most `UNIT` in magnitude) scaled by the
/// ball's speed.
pub open spec fn spec_scaled_component(dir: int, speed: int) -> int {
    tdiv(dir * speed, UNIT as int)
}

/// A fresh ball at the exact center of game space, with the default
/// speed and radius, moving along the unit direction `(dir_x, dir_y)`
/// (in subunits of `UNIT`), with the horizontal component negated when
/// `flip_x` is set so that a serve goes toward either side.
pub fn new_ball(dir_x: i64, dir_y: i64, flip_x: bool) -> (b: Ball)
    requires
        -UNIT <= dir_x <= UNIT,
        -UNIT <= dir_y <= UNIT,
    ensures
        b.position.x == GAME_CENTER_X,
        b.position.y == GAME_CENTER_Y,
        b.speed == DEFAULT_BALL_SPEED,
        b.display_radius == BALL_DISPLAY_RADIUS,
        b.velocity.x == if flip_x {
            -spec_scaled_component(dir_x as int, DEFAULT_BALL_SPEED as int)
        } else {
            spec_scaled_component(dir_x as int, DEFAULT_BALL_SPEED as int)
        },
        b.velocity.y == spec_scaled_component(dir_y as int, DEFAULT_BALL_SPEED as int),
        ball_wf(b),
{
    let mut b = Ball {
        position: Vec2 { x: GAME_CENTER_X, y: GAME_CENTER_Y },
        velocity: Vec2 { x: 0, y: 0 },
        speed: DEFAULT_BALL_SPEED,
        display_radius: BALL_DISPLAY_RADIUS,
    };
    set_ball_direction(&mut b, dir_x, dir_y, flip_x);
    b
}

/// Install a new direction on the ball: scale the unit direction by the
/// ball's speed and negate the horizontal component when `flip_x` is
/// set. Position, speed and radius are untouched.
pub fn set_ball_direction(b: &mut Ball, dir_x: i64, dir_y: i64, flip_x: bool)
    requires
        ball_wf(*old(b)),
        -UNIT <= dir_x <= UNIT,
        -UNIT <= dir_y <= UNIT,
    ensures
        final(b).position == old(b).position,
        final(b).speed == old(b).speed,
        final(b).display_radius == old(b).display_radius,
        final(b).velocity.x == if flip_x {
            -spec_scaled_component(dir_x as int, old(b).speed as int)
        } else {
            spec_scaled_component(dir_x as int, old(b).speed as int)
        },
        final(b).velocity.y == spec_scaled_component(dir_y as int, old(b).speed as int),
        // no component of an installed velocity outruns the ball's speed
        -old(b).speed <= final(b).velocity.x <= old(b).speed,
        -old(b).speed <= final(b).velocity.y <= old(b).speed,
        ball_wf(*final(b)),
{
    proof {
        lemma_scaled_component_bounded(dir_x as int, b.speed as int);
        lemma_scaled_component_bounded(dir_y as int, b.speed as int);
    }
    let sx: i64 = div_trunc(dir_x * b.speed, UNIT);
    let sy: i64 = div_trunc(dir_y * b.speed, UNIT);
    b.velocity.x = if flip_x { -sx } else { sx };
    b.velocity.y = sy;
}

/// A direction component scaled by a speed within the cap stays within
/// the cap.
proof fn lemma_scaled_component_bounded(dir: int, speed: int)
    requires
        -UNIT <= dir <= UNIT,
        0 <= speed <= SPEED_CAP,
    ensures
        -(UNIT * SPEED_CAP) <= dir * speed <= UNIT * SPEED_CAP,
        -speed <= spec_scaled_component(dir, speed) <= speed,
{
    assert(-(UNIT * speed) <= dir * speed <= UNIT * speed) by (nonlinear_arith)
        requires -UNIT <= dir <= UNIT, 0 <= speed;
    assert(UNIT * speed <= UNIT * SPEED_CAP) by (nonlinear_arith)
        requires 0 <= speed <= SPEED_CAP, UNIT > 0;
    crate::geometry::lemma_tdiv_bound(dir * speed, UNIT as int, speed);
}

/// A fresh left paddle: horizontally at the left edge, centered
/// vertically, with the default parameters.
pub fn new_left_paddle() -> (p: Paddle)
    ensures
        p == (Paddle {
            position: Vec2 { x: 0, y: GAME_CENTER_Y },
            height: DEFAULT_PADDLE_HEIGHT,
            speed: DEFAULT_PADDLE_SPEED,
            max_bounce_angle: DEFAULT_PADDLE_MAX_BOUNCE_ANGLE,
        }),
        paddle_wf(p),
{
    Paddle {
        position: Vec2 { x: 0, y: GAME_CENTER_Y },
        height: DEFAULT_PADDLE_HEIGHT,
        speed: DEFAULT_PADDLE_SPEED,
        max_bounce_angle: DEFAULT_PADDLE_MAX_BOUNCE_ANGLE,
    }
}

/// A fresh right paddle: horizontally at the right edge, centered
/// vertically, with the default parameters.
pub fn new_right_paddle() -> (p: Paddle)
    ensures
        p == (Paddle {
            position: Vec2 { x: GAME_WIDTH, y: GAME_CENTER_Y },
            height: DEFAULT_PADDLE_HEIGHT,
            speed: DEFAULT_PADDLE_SPEED,
            max_bounce_angle: DEFAULT_PADDLE_MAX_BOUNCE_ANGLE,
        }),
        paddle_wf(p),
{
    Paddle {
        position: Vec2 { x: GAME_WIDTH, y: GAME_CENTER_Y },
        height: DEFAULT_PADDLE_HEIGHT,
        speed: DEFAULT_PADDLE_SPEED,
        max_bounce_angle: DEFAULT_PADDLE_MAX_BOUNCE_ANGLE,
    }
}

/// The random part of a serve: the direction angle, and whether the
/// horizontal component is to be negated so that the serve goes left.
#[derive(Clone, Copy, PartialEq, Eq, Structural, Debug)]
pub struct BallSpawn {
    pub angle: i64,
    pub flip_x: bool,
}

/// Relies on rand::random: a value drawn from the thread-local
/// generator, uniform over `u64`. Nothing is promised of the value.
#[verifier::external_body]
fn random_draw() -> u64 {
    rand::random::<u64>()
}

/// Draw the random parameters of a serve: an angle within a quarter
/// turn of the horizontal to either side, and a fair choice of side.
pub fn serve_spawn() -> (s: BallSpawn)
    ensures
        -NEW_BALL_ANGLE_RANGE <= s.angle <= NEW_BALL_ANGLE_RANGE,
{
    let angle_draw = random_draw();
    let side_draw = random_draw();
    let span: u64 = (2 * NEW_BALL_ANGLE_RANGE + 1) as u64;
    let offset: u64 = angle_draw % span;
    let angle: i64 = (offset as i64) - NEW_BALL_ANGLE_RANGE;
    BallSpawn { angle, flip_x: side_draw % 2 == 0 }
}

} // verus!
