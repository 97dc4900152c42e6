//! Flags describing key modifiers.

use vstd::prelude::*;

verus! {

/// Set of key modifier flags.
pub type ModifierType = u16;

pub const NONE: ModifierType = 0b00000000;
pub const LCTL: ModifierType = 0b00000001;
pub const RCTL: ModifierType = 0b00000010;
pub const LSHF: ModifierType = 0b00000100;
pub const RSHF: ModifierType = 0b00001000;
pub const LALT: ModifierType = 0b00010000;
pub const RALT: ModifierType = 0b00100000;
pub const LMTA: ModifierType = 0b01000000;
pub const RMTA: ModifierType = 0b10000000;
pub const CTRL: ModifierType = 0b00000011;
pub const SHIFT: ModifierType = 0b00001100;
pub const ALT: ModifierType = 0b00110000;
pub const META: ModifierType = 0b11000000;

} // verus!
