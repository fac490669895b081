//! Mapping movement intent to sprite facing and animation state.
//!
//! The engine reads a two-dimensional movement-intent vector each frame;
//! the only facts this logic uses are the sign of its horizontal component
//! and whether the vector is zero, so the intent arrives here as a pair of
//! axis signs.

use vstd::prelude::*;

use crate::animation::Animation;
use crate::animation::AnimationState;
use crate::animation::state_transition;

verus! {

/// The sign of one component of the movement-intent vector.
#[derive(Debug, PartialEq, Eq, Structural, Clone, Copy)]
pub enum AxisSign {
    Negative,
    Zero,
    Positive,
}

/// A movement intent, reduced to the sign of each component.
#[derive(Debug, PartialEq, Eq, Structural, Clone, Copy)]
pub struct MoveIntent {
    pub x: AxisSign,
    pub y: AxisSign,
}

impl MoveIntent {
    /// The intent is the zero vector.
    pub open spec fn is_zero(self) -> bool {
        self.x == AxisSign::Zero && self.y == AxisSign::Zero
    }
}

/// The animation state a movement intent maps to: zero intent idles, any
/// other intent walks.
pub open spec fn state_for_intent(intent: MoveIntent) -> AnimationState {
    if intent.is_zero() {
        AnimationState::Idling
    } else {
        AnimationState::Walking
    }
}

/// The sprite's horizontal flip after seeing an intent: flipped (facing
/// left) on a negative X component, unflipped (facing right) on a positive
/// one, and unchanged when X is zero.
pub open spec fn flip_after(intent: MoveIntent, flip_before: bool) -> bool {
    match intent.x {
        AxisSign::Negative => true,
        AxisSign::Positive => false,
        AxisSign::Zero => flip_before,
    }
}

/// Update the sprite direction and the animation state (idling/walking)
/// from the current movement intent.
pub fn update_movement(intent: &MoveIntent, flip_x: &mut bool, animation: &mut Animation)
    requires
        old(animation).wf(),
        old(animation).spec_state() != state_for_intent(*intent) ==> old(animation).has_state(
            state_for_intent(*intent),
        ),
    ensures
        *final(flip_x) == flip_after(*intent, *old(flip_x)),
        final(animation).wf(),
        state_transition(*old(animation), *final(animation), state_for_intent(*intent)),
{
    match intent.x {
        AxisSign::Negative => {
            *flip_x = true;
        },
        AxisSign::Positive => {
            *flip_x = false;
        },
        AxisSign::Zero => {},
    }
    let state = if intent.x == AxisSign::Zero && intent.y == AxisSign::Zero {
        AnimationState::Idling
    } else {
        AnimationState::Walking
    };
    animation.update_state(state);
}

} // verus!
