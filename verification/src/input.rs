//! Joypad button identifiers and the mapping from pressed keys to the
//! 16-entry button-state array that the emulation core polls.

use vstd::prelude::*;

verus! {

pub const DEVICE_ID_JOYPAD_B: i16 = 0;

pub const DEVICE_ID_JOYPAD_Y: i16 = 1;

pub const DEVICE_ID_JOYPAD_SELECT: i16 = 2;

pub const DEVICE_ID_JOYPAD_START: i16 = 3;

pub const DEVICE_ID_JOYPAD_UP: i16 = 4;

pub const DEVICE_ID_JOYPAD_DOWN: i16 = 5;

pub const DEVICE_ID_JOYPAD_LEFT: i16 = 6;

pub const DEVICE_ID_JOYPAD_RIGHT: i16 = 7;

pub const DEVICE_ID_JOYPAD_A: i16 = 8;

pub const DEVICE_ID_JOYPAD_X: i16 = 9;

/// The keys the frontend reads from the keyboard. The four letter keys
/// `h`, `j`, `k`, `l` act as a second set of arrow keys.
pub struct PressedKeys {
    pub a: bool,
    pub s: bool,
    pub enter: bool,
    pub space: bool,
    pub up: bool,
    pub down: bool,
    pub left: bool,
    pub right: bool,
    pub h: bool,
    pub j: bool,
    pub k: bool,
    pub l: bool,
}

/// The state the core reads for one button: 1 while it is held, 0 otherwise.
pub open spec fn button_flag(pressed: bool) -> i16 {
    if pressed {
        1i16
    } else {
        0i16
    }
}

/// The state of one button as an executable value.
fn flag(pressed: bool) -> (state: i16)
    ensures
        state == button_flag(pressed),
{
    if pressed {
        1
    } else {
        0
    }
}

/// Build the 16-entry button-state array for the core from the pressed keys:
/// `a` and `s` drive the A and B buttons, enter and space drive start and
/// select, and the arrow keys (or `h`, `j`, `k`, `l`) drive the directions.
/// Buttons with no key stay released.
pub fn buttons_from_keys(keys: &PressedKeys) -> (buttons: Vec<i16>)
    ensures
        buttons@.len() == 16,
        buttons@[DEVICE_ID_JOYPAD_A as int] == button_flag(keys.a),
        buttons@[DEVICE_ID_JOYPAD_B as int] == button_flag(keys.s),
        buttons@[DEVICE_ID_JOYPAD_START as int] == button_flag(keys.enter),
        buttons@[DEVICE_ID_JOYPAD_SELECT as int] == button_flag(keys.space),
        buttons@[DEVICE_ID_JOYPAD_UP as int] == button_flag(keys.up || keys.k),
        buttons@[DEVICE_ID_JOYPAD_DOWN as int] == button_flag(keys.down || keys.j),
        buttons@[DEVICE_ID_JOYPAD_LEFT as int] == button_flag(keys.left || keys.h),
        buttons@[DEVICE_ID_JOYPAD_RIGHT as int] == button_flag(keys.right || keys.l),
        buttons@[DEVICE_ID_JOYPAD_Y as int] == 0,
        buttons@[DEVICE_ID_JOYPAD_X as int] == 0,
        forall|i: int| 10 <= i < 16 ==> buttons@[i] == 0,
{
    let mut buttons: Vec<i16> = Vec::new();
    buttons.push(flag(keys.s));
    buttons.push(0);
    buttons.push(flag(keys.space));
    buttons.push(flag(keys.enter));
    buttons.push(flag(keys.up || keys.k));
    buttons.push(flag(keys.down || keys.j));
    buttons.push(flag(keys.left || keys.h));
    buttons.push(flag(keys.right || keys.l));
    buttons.push(flag(keys.a));
    buttons.push(0);
    buttons.push(0);
    buttons.push(0);
    buttons.push(0);
    buttons.push(0);
    buttons.push(0);
    buttons.push(0);
    buttons
}

} // verus!
