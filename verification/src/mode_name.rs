//! Names of the built-in input modes.

use vstd::prelude::*;

verus! {

/// Name of the mode whose bindings are active in every situation.
pub const COMMON: &'static str = "common";

/// Name of the mode for passing input to clients.
pub const INSERT: &'static str = "insert";

/// Name of the mode for commanding the compositor.
pub const NORMAL: &'static str = "normal";

} // verus!
