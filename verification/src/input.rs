//! What the player's hands are doing, as the simulation is told of it.
//!
//! The simulation never asks a device.  Whoever drives it fills in an
//! `Input` before each step.

use vstd::prelude::*;
use crate::vector::Vec2;

verus! {

/// The state of the controls at one instant.
#[derive(Debug, Clone, Copy, PartialEq, Eq, Structural)]
pub struct Input {
    /// The thrust key is down.
    pub thrust_held: bool,
    /// The turn-left key is down.
    pub turn_left_held: bool,
    /// The turn-right key is down.
    pub turn_right_held: bool,
    /// The fire key is down.
    pub fire_held: bool,
    /// Where the pointer is, in screen space.
    pub pointer_position: Vec2,
    /// The width and height of the screen.
    pub screen_size: Vec2,
    /// The pointer's thrust button is down.
    pub pointer_thrust_held: bool,
    /// The pointer's fire button is down.
    pub pointer_fire_held: bool,
}

impl Input {
    /// No control touched, the pointer at the origin of an empty screen.
    pub open spec fn idle_spec() -> Input {
        Input {
            thrust_held: false,
            turn_left_held: false,
            turn_right_held: false,
            fire_held: false,
            pointer_position: Vec2::zero_spec(),
            screen_size: Vec2::zero_spec(),
            pointer_thrust_held: false,
            pointer_fire_held: false,
        }
    }

    /// The pointer's offset from the middle of the screen.
    pub open spec fn pointer_from_middle_spec(self) -> Vec2 {
        self.pointer_position.minus_spec(self.screen_size.scale_ratio_spec(1, 2))
    }

    /// The state with no control touched.
    pub fn idle() -> (r: Input)
        ensures
            r == Input::idle_spec(),
    {
        Input {
            thrust_held: false,
            turn_left_held: false,
            turn_right_held: false,
            fire_held: false,
            pointer_position: Vec2::zero(),
            screen_size: Vec2::zero(),
            pointer_thrust_held: false,
            pointer_fire_held: false,
        }
    }

    /// The pointer's offset from the middle of the screen.
    pub fn pointer_from_middle(&self) -> (r: Vec2)
        ensures
            r == self.pointer_from_middle_spec(),
    {
        self.pointer_position.minus(self.screen_size.scale_ratio(1, 2))
    }
}

} // verus!
