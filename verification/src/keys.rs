//! Codes of keys as numbered by the kernel input subsystem (`linux/input-event-codes.h`).

use vstd::prelude::*;

verus! {

pub const KEY_ESC: i32 = 1;
pub const KEY_1: i32 = 2;
pub const KEY_2: i32 = 3;
pub const KEY_3: i32 = 4;
pub const KEY_4: i32 = 5;
pub const KEY_5: i32 = 6;
pub const KEY_6: i32 = 7;
pub const KEY_7: i32 = 8;
pub const KEY_8: i32 = 9;
pub const KEY_9: i32 = 10;
pub const KEY_10: i32 = 11;
pub const KEY_TAB: i32 = 15;
pub const KEY_Q: i32 = 16;
pub const KEY_W: i32 = 17;
pub const KEY_E: i32 = 18;
pub const KEY_R: i32 = 19;
pub const KEY_T: i32 = 20;
pub const KEY_Y: i32 = 21;
pub const KEY_U: i32 = 22;
pub const KEY_I: i32 = 23;
pub const KEY_O: i32 = 24;
pub const KEY_P: i32 = 25;
pub const KEY_A: i32 = 30;
pub const KEY_S: i32 = 31;
pub const KEY_D: i32 = 32;
pub const KEY_F: i32 = 33;
pub const KEY_G: i32 = 34;
pub const KEY_H: i32 = 35;
pub const KEY_J: i32 = 36;
pub const KEY_K: i32 = 37;
pub const KEY_L: i32 = 38;
pub const KEY_Z: i32 = 44;
pub const KEY_X: i32 = 45;
pub const KEY_C: i32 = 46;
pub const KEY_V: i32 = 47;
pub const KEY_B: i32 = 48;
pub const KEY_N: i32 = 49;
pub const KEY_M: i32 = 50;
pub const KEY_SPACE: i32 = 57;
pub const KEY_HOME: i32 = 102;
pub const KEY_UP: i32 = 103;
pub const KEY_PAGEUP: i32 = 104;
pub const KEY_LEFT: i32 = 105;
pub const KEY_RIGHT: i32 = 106;
pub const KEY_END: i32 = 107;
pub const KEY_DOWN: i32 = 108;
pub const KEY_PAGEDOWN: i32 = 109;

} // verus!
