//! The computational side of drawing: where each shape and score sits
//! on the pixel grid. One game unit maps to one pixel; the raster calls
//! themselves are the embedding program's.

use vstd::prelude::*;
use crate::geometry::{UNIT, tdiv, div_trunc};
use crate::entities::{Ball, Paddle, paddle_wf, ball_wf, DEFAULT_PADDLE_HEIGHT, POS_CAP};

verus! {

/// Pixel height of the score text.
pub const FONT_SIZE: i64 = 20;

/// Pixel inset of each score from its screen edge.
pub const SCORE_HORIZONTAL_DISTANCE: i64 = 30;

/// Pixel distance of the scores from the top of the screen.
pub const SCORE_VERTICAL_DISTANCE: i64 = 30;

/// Display width of a paddle, in subunits (3 game units): the drawn
/// rectangle is thinner than the collision extent is tall.
pub const PADDLE_DISPLAY_WIDTH: i64 = 3 * UNIT;

/// Width of game space in pixels.
pub const GAME_WIDTH_PX: i64 = 384;

/// A game-space coordinate on the pixel grid, truncated toward zero as
/// a hardware float-to-integer cast truncates.
pub fn to_pixels(v: i64) -> (px: i64)
    requires
        -POS_CAP <= v <= POS_CAP,
    ensures
        px == tdiv(v as int, UNIT as int),
{
    div_trunc(v, UNIT)
}

/// The pixel rectangle of a paddle: centered horizontally on the
/// paddle's plane and vertically on its center, with the fixed display
/// width and the default display height.
pub fn paddle_draw_rect(p: &Paddle) -> (rect: (i64, i64, i64, i64))
    requires
        paddle_wf(*p),
        -POS_CAP <= p.position.x <= POS_CAP,
    ensures
        rect.0 == tdiv(p.position.x - PADDLE_DISPLAY_WIDTH / 2, UNIT as int),
        rect.1 == tdiv(p.position.y - DEFAULT_PADDLE_HEIGHT / 2, UNIT as int),
        rect.2 == PADDLE_DISPLAY_WIDTH / UNIT,
        rect.3 == DEFAULT_PADDLE_HEIGHT / UNIT,
{
    let half_w: i64 = div_trunc(PADDLE_DISPLAY_WIDTH, 2);
    let half_h: i64 = div_trunc(DEFAULT_PADDLE_HEIGHT, 2);
    let x: i64 = div_trunc(p.position.x - half_w, UNIT);
    let y: i64 = div_trunc(p.position.y - half_h, UNIT);
    let w: i64 = div_trunc(PADDLE_DISPLAY_WIDTH, UNIT);
    let h: i64 = div_trunc(DEFAULT_PADDLE_HEIGHT, UNIT);
    (x, y, w, h)
}

/// The pixel center and radius of the ball's circle.
pub fn ball_draw_circle(b: &Ball) -> (circle: (i64, i64, i64))
    requires
        ball_wf(*b),
    ensures
        circle.0 == tdiv(b.position.x as int, UNIT as int),
        circle.1 == tdiv(b.position.y as int, UNIT as int),
        circle.2 == tdiv(b.display_radius as int, UNIT as int),
{
    (div_trunc(b.position.x, UNIT), div_trunc(b.position.y, UNIT), div_trunc(b.display_radius, UNIT))
}

/// The decimal reading of a digit string, most significant first.
pub open spec fn decimal_value(s: Seq<u8>) -> int
    decreases s.len(),
{
    if s.len() == 0 {
        0
    } else {
        decimal_value(s.drop_last()) * 10 + (s.last() - 48)
    }
}

/// The decimal digits of a score, as bytes, most significant first,
/// without leading zeros.
pub fn score_text(n: u32) -> (digits: Vec<u8>)
    ensures
        decimal_value(digits@) == n as int,
        digits@.len() >= 1,
        forall|i: int| 0 <= i < digits@.len() ==> 48 <= #[trigger] digits@[i] <= 57,
        digits@[0] == 48 ==> n == 0,
    decreases n,
{
    if n < 10 {
        let d: u8 = 48 + (n as u8);
        let mut digits: Vec<u8> = Vec::new();
        digits.push(d);
        proof {
            assert(digits@.drop_last() =~= Seq::<u8>::empty());
            assert(decimal_value(Seq::<u8>::empty()) == 0);
            assert(decimal_value(digits@)
                == decimal_value(digits@.drop_last()) * 10 + (digits@.last() - 48));
        }
        digits
    } else {
        let mut digits = score_text(n / 10);
        let d: u8 = 48 + ((n % 10) as u8);
        let ghost pre = digits@;
        digits.push(d);
        proof {
            assert(digits@.drop_last() =~= pre);
            assert(digits@.last() == d);
            vstd::arithmetic::div_mod::lemma_fundamental_div_mod(n as int, 10);
        }
        digits
    }
}

/// Where the right score's text starts so that its right edge sits at
/// the fixed inset from the right screen edge, whatever the digit
/// count.
pub fn right_score_text_x(text_width_px: i64) -> (x: i64)
    requires
        0 <= text_width_px <= GAME_WIDTH_PX,
    ensures
        x == GAME_WIDTH_PX - text_width_px - SCORE_HORIZONTAL_DISTANCE,
{
    GAME_WIDTH_PX - text_width_px - SCORE_HORIZONTAL_DISTANCE
}

} // verus!
