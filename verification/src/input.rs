//! Turning the four held direction actions into movement axes.
//!
//! The caller's camera (or body) basis supplies a forward and a right
//! vector; the movement direction is `forward * axes.forward + right *
//! axes.right`, normalised by the caller when it is not zero.
use vstd::prelude::*;

verus! {

/// Which direction actions are held this frame.
#[derive(Clone, Copy, Debug, PartialEq, Eq, Structural)]
pub struct DirectionKeys {
    pub forward: bool,
    pub backwards: bool,
    pub left: bool,
    pub right: bool,
}

/// How many times the forward and the right vector enter the direction.
#[derive(Clone, Copy, Debug, PartialEq, Eq, Structural)]
pub struct MoveAxes {
    pub forward: i8,
    pub right: i8,
}

/// One for the positive action alone, minus one for the negative action
/// alone, zero when both or neither are held.
pub open spec fn axis(positive: bool, negative: bool) -> int {
    (if positive {
        1int
    } else {
        0int
    }) - (if negative {
        1int
    } else {
        0int
    })
}

/// An axis is one for its positive action alone, minus one for its negative
/// action alone, and zero when both or neither are held; swapping the two
/// actions negates it.
pub proof fn lemma_axis_values(positive: bool, negative: bool)
    ensures
        axis(true, false) == 1,
        axis(false, true) == -1,
        positive == negative ==> axis(positive, negative) == 0,
        axis(negative, positive) == -axis(positive, negative),
        -1 <= axis(positive, negative) <= 1,
{
}

/// The movement axes for the held actions: forward adds the forward vector
/// and backwards subtracts it; right adds the right vector and left
/// subtracts it.
pub fn movement_axes(keys: DirectionKeys) -> (axes: MoveAxes)
    ensures
        axes.forward == axis(keys.forward, keys.backwards),
        axes.right == axis(keys.right, keys.left),
{
    let mut forward: i8 = 0;
    let mut right: i8 = 0;
    if keys.forward {
        forward = forward + 1;
    }
    if keys.backwards {
        forward = forward - 1;
    }
    if keys.left {
        right = right - 1;
    }
    if keys.right {
        right = right + 1;
    }
    MoveAxes { forward, right }
}

} // verus!
