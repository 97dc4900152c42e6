//! State of keyboard modifiers.

use vstd::prelude::*;

verus! {

/// This struct represents state of keyboard modifiers (shift, ctrl, etc...).
#[derive(Clone, Copy, Debug, Eq, PartialEq, Structural)]
pub struct KeyMods {
    pub depressed: u32,
    pub latched: u32,
    pub locked: u32,
    pub effective: u32,
}

impl KeyMods {
    /// Constructs default `KeyMods`.
    pub fn default() -> (result: Self)
        ensures
            result == (KeyMods { depressed: 0, latched: 0, locked: 0, effective: 0 }),
    {
        KeyMods { depressed: 0, latched: 0, locked: 0, effective: 0 }
    }

    /// Constructs `KeyMods` from given modifiers.
    pub fn new(depressed: u32, latched: u32, locked: u32, effective: u32) -> (result: Self)
        ensures
            result == (KeyMods {
                depressed: depressed,
                latched: latched,
                locked: locked,
                effective: effective,
            }),
    {
        KeyMods { depressed: depressed, latched: latched, locked: locked, effective: effective }
    }

    /// Replaces the held modifiers with `mods` and tells whether they changed.
    pub fn update(&mut self, mods: KeyMods) -> (changed: bool)
        ensures
            *final(self) == mods,
            changed == (mods != *old(self)),
    {
        if mods != *self {
            *self = mods;
            true
        } else {
            false
        }
    }
}

} // verus!
