//! The status of player input on the Sega Master System.
use vstd::prelude::*;

verus! {

/// Bit flags for Joypad Port A. A button press is indicated by a flag *not*
/// being set.
pub const JOYPAD2_DOWN: u8 = 0b10000000;
pub const JOYPAD2_UP: u8 = 0b01000000;
pub const JOYPAD1_B: u8 = 0b00100000;
pub const JOYPAD1_A: u8 = 0b00010000;
pub const JOYPAD1_RIGHT: u8 = 0b00001000;
pub const JOYPAD1_LEFT: u8 = 0b00000100;
pub const JOYPAD1_DOWN: u8 = 0b00000010;
pub const JOYPAD1_UP: u8 = 0b00000001;

/// Bit flags for Joypad Port B. A button press is indicated by a flag *not*
/// being set.
pub const B_TH: u8 = 0b10000000;
pub const A_TH: u8 = 0b01000000;
pub const CONT: u8 = 0b00100000;
pub const RESET: u8 = 0b00010000;
pub const JOYPAD2_B: u8 = 0b00001000;
pub const JOYPAD2_A: u8 = 0b00000100;
pub const JOYPAD2_RIGHT: u8 = 0b00000010;
pub const JOYPAD2_LEFT: u8 = 0b00000001;

/// What buttons are being pressed this frame?
///
/// Since button presses are indicated by flags *not* being set, the default
/// sets `joypad_a` and `joypad_b` to `0xFF`.
#[derive(Clone, Copy, Debug, PartialEq, Eq, Structural)]
pub struct SmsPlayerInput {
    /// Joypad Port A (which doesn't completely correspond to Joypad 1).
    joypad_a: u8,
    /// Joypad Port B (which doesn't completely correspond to Joypad 2).
    joypad_b: u8,
    /// The pause button.
    pause: bool,
}

impl SmsPlayerInput {
    pub closed spec fn spec_joypad_a(self) -> u8 {
        self.joypad_a
    }

    pub closed spec fn spec_joypad_b(self) -> u8 {
        self.joypad_b
    }

    pub closed spec fn spec_pause(self) -> bool {
        self.pause
    }

    /// No button pressed.
    pub fn new() -> (r: SmsPlayerInput)
        ensures
            r.spec_joypad_a() == 0xFF,
            r.spec_joypad_b() == 0xFF,
            !r.spec_pause(),
    {
        SmsPlayerInput { joypad_a: 0xFF, joypad_b: 0xFF, pause: false }
    }

    pub fn joypad_a(&self) -> (r: u8)
        ensures
            r == self.spec_joypad_a(),
    {
        self.joypad_a
    }

    pub fn set_joypad_a(&mut self, x: u8)
        ensures
            final(self).spec_joypad_a() == x,
            final(self).spec_joypad_b() == old(self).spec_joypad_b(),
            final(self).spec_pause() == old(self).spec_pause(),
    {
        self.joypad_a = x;
    }

    pub fn joypad_b(&self) -> (r: u8)
        ensures
            r == self.spec_joypad_b(),
    {
        self.joypad_b
    }

    pub fn set_joypad_b(&mut self, x: u8)
        ensures
            final(self).spec_joypad_b() == x,
            final(self).spec_joypad_a() == old(self).spec_joypad_a(),
            final(self).spec_pause() == old(self).spec_pause(),
    {
        self.joypad_b = x;
    }

    pub fn pause(&self) -> (r: bool)
        ensures
            r == self.spec_pause(),
    {
        self.pause
    }

    pub fn set_pause(&mut self, x: bool)
        ensures
            final(self).spec_pause() == x,
            final(self).spec_joypad_a() == old(self).spec_joypad_a(),
            final(self).spec_joypad_b() == old(self).spec_joypad_b(),
    {
        self.pause = x;
    }
}

} // verus!
