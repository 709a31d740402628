//! One instantaneous snapshot of every button and axis of the controller.

use vstd::prelude::*;

verus! {

/// The neutral resting value of each analog stick axis.
pub const STICK_NEUTRAL: u8 = 128;

/// A plain snapshot of all button and axis values at one instant.
///
/// Analog sticks rest at `(128, 128)`; triggers rest at `0`; every digital
/// button rests released. The snapshot is copied by value whenever it moves
/// between components, so no consumer ever holds a live reference into it.
#[derive(Clone, Copy, Debug, PartialEq)]
pub struct ControllerState {
    pub a: bool,
    pub b: bool,
    pub x: bool,
    pub y: bool,
    pub up: bool,
    pub down: bool,
    pub left: bool,
    pub right: bool,
    pub start: bool,
    pub analog: (u8, u8),
    pub c: (u8, u8),
    pub l_analog: u8,
    pub r_analog: u8,
    pub l_digital: bool,
    pub r_digital: bool,
    pub z: bool,
}

impl ControllerState {
    /// All digital buttons released, both sticks centered, both triggers at
    /// zero: the safe fallback value at startup and on source disconnect.
    pub open spec fn is_neutral(self) -> bool {
        &&& !self.a
        &&& !self.b
        &&& !self.x
        &&& !self.y
        &&& !self.up
        &&& !self.down
        &&& !self.left
        &&& !self.right
        &&& !self.start
        &&& self.analog == (STICK_NEUTRAL, STICK_NEUTRAL)
        &&& self.c == (STICK_NEUTRAL, STICK_NEUTRAL)
        &&& self.l_analog == 0
        &&& self.r_analog == 0
        &&& !self.l_digital
        &&& !self.r_digital
        &&& !self.z
    }
}

impl Default for ControllerState {
    /// The neutral state, and the only state with `is_neutral`.
    fn default() -> (s: ControllerState)
        ensures
            s.is_neutral(),
            forall|t: ControllerState| t.is_neutral() ==> t == s,
    {
        ControllerState {
            a: false,
            b: false,
            x: false,
            y: false,
            up: false,
            down: false,
            left: false,
            right: false,
            start: false,
            analog: (STICK_NEUTRAL, STICK_NEUTRAL),
            c: (STICK_NEUTRAL, STICK_NEUTRAL),
            l_analog: 0,
            r_analog: 0,
            l_digital: false,
            r_digital: false,
            z: false,
        }
    }
}

} // verus!
