//! Enumerations shared by the whole compositor.

use vstd::prelude::*;

verus! {

/// Kind of an input device.
#[derive(PartialEq, Eq, Structural, Clone, Copy, Debug)]
pub enum DeviceKind {
    Keyboard,
    Mouse,
    Touchpad,
    Unknown,
}

/// State of a key or a button.
#[derive(PartialEq, Eq, Structural, Clone, Copy, Debug)]
pub enum KeyState {
    Released,
    Pressed,
}

impl KeyState {
    /// Numeric value of the state as carried by input events.
    pub open spec fn spec_value(self) -> i32 {
        match self {
            KeyState::Released => 0,
            KeyState::Pressed => 1,
        }
    }

    /// Returns the numeric value of the state as carried by input events.
    pub fn value(&self) -> (result: i32)
        ensures
            result == self.spec_value(),
    {
        match self {
            KeyState::Released => 0,
            KeyState::Pressed => 1,
        }
    }
}

/// Action part of a compositor command.
#[derive(PartialEq, Eq, Structural, Clone, Copy, Debug)]
pub enum Action {
    Empty,
    Anchor,
    Configure,
    Focus,
    Swap,
    Move,
    Resize,
    Jump,
    Dive,
}

/// Direction part of a compositor command.
#[derive(PartialEq, Eq, Structural, Clone, Copy, Debug)]
pub enum Direction {
    Empty,
    North,
    East,
    South,
    West,
    Backward,
    Forward,
    Begin,
    End,
    Workspace,
}

} // verus!
