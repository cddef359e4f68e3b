//! The input mapper: two opposing key states become a movement intent.

use vstd::prelude::*;

verus! {

/// The movement intent of one side for one frame: the "down" press
/// minus the "up" press, so both or neither held yields no motion.
/// Positive moves the paddle down, since the vertical axis grows
/// downward.
pub fn movement_intent(down_held: bool, up_held: bool) -> (intent: i32)
    ensures
        intent == (if down_held { 1int } else { 0int })
            - (if up_held { 1int } else { 0int }),
        -1 <= intent <= 1,
{
    let down: i32 = if down_held { 1 } else { 0 };
    let up: i32 = if up_held { 1 } else { 0 };
    down - up
}

} // verus!
