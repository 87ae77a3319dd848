//! The joypad.

use vstd::prelude::*;
use crate::machine::{GameBoy, InputState, Machine};

verus! {

/// The weight of a button's bit in the joypad byte if the button is not
/// pressed, else zero: the byte is active-low.
pub open spec fn released(pressed: bool, weight: int) -> int {
    if pressed {
        0
    } else {
        weight
    }
}

/// The joypad byte for `state`: a bit per button, clear while pressed;
/// directions in the high nibble, action buttons in the low one.
pub open spec fn joypad_byte(state: InputState) -> u8 {
    (released(state.down, 128) + released(state.up, 64) + released(state.left, 32) + released(
        state.right,
        16,
    ) + released(state.start, 8) + released(state.select, 4) + released(state.b, 2) + released(
        state.a,
        1,
    )) as u8
}

/// Whether a button that was released in joypad byte `before` is pressed
/// in `after`.
pub open spec fn newly_pressed(before: u8, after: u8) -> bool {
    before & !after != 0
}

/// The machine after a snapshot of the buttons: the joypad byte is
/// replaced, and the joypad interrupt is requested if a button went down.
pub open spec fn input_update(m: Machine, state: InputState) -> Machine {
    let taken = Machine { joypad_state: joypad_byte(state), ..m };
    if newly_pressed(m.joypad_state, joypad_byte(state)) {
        taken.with_io(0x0F, m.io[0x0F] | 0x10)
    } else {
        taken
    }
}

/// The joypad byte for `state`.
pub fn encode_input(state: &InputState) -> (byte: u8)
    ensures
        byte == joypad_byte(*state),
{
    let mut byte: u8 = 0;
    if !state.down {
        byte = byte + 128;
    }
    if !state.up {
        byte = byte + 64;
    }
    if !state.left {
        byte = byte + 32;
    }
    if !state.right {
        byte = byte + 16;
    }
    if !state.start {
        byte = byte + 8;
    }
    if !state.select {
        byte = byte + 4;
    }
    if !state.b {
        byte = byte + 2;
    }
    if !state.a {
        byte = byte + 1;
    }
    byte
}

impl GameBoy {
    /// Takes a snapshot of the buttons.
    pub fn update_input(&mut self, state: &InputState)
        requires
            old(self).wf(),
        ensures
            final(self).wf(),
            final(self)@ == input_update(old(self)@, *state),
    {
        let new_state = encode_input(state);
        if self.joypad_state & !new_state != 0 {
            let requests = self.io[0x0F];
            self.io.set(0x0F, requests | 0x10);
        }
        self.joypad_state = new_state;
    }
}

} // verus!
