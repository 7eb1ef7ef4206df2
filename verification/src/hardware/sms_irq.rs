//! The pause button's nonmaskable interrupt on the Sega Master System.
use vstd::prelude::*;

verus! {

/// Where the pause button's interrupt stands: pressing pause asks for one
/// interrupt, which is taken once; another needs the button released first.
#[derive(Clone, Copy, Debug, PartialEq, Eq, Structural)]
pub enum SmsPauseInterruptState {
    Free,
    InterruptTaken,
    InterruptNeeded,
}

/// The state after the pause button is seen pressed (`x`) or released.
pub open spec fn spec_pause_pressed(s: SmsPauseInterruptState, x: bool) -> SmsPauseInterruptState {
    if x && s == SmsPauseInterruptState::Free {
        SmsPauseInterruptState::InterruptNeeded
    } else if !x && s == SmsPauseInterruptState::InterruptTaken {
        SmsPauseInterruptState::Free
    } else {
        s
    }
}

impl SmsPauseInterruptState {
    pub fn default() -> (r: SmsPauseInterruptState)
        ensures
            r == SmsPauseInterruptState::Free,
    {
        SmsPauseInterruptState::Free
    }

    pub fn pause_pressed(&mut self, x: bool)
        ensures
            *final(self) == spec_pause_pressed(*old(self), x),
    {
        if x && *self == SmsPauseInterruptState::Free {
            *self = SmsPauseInterruptState::InterruptNeeded;
        }
        if !x && *self == SmsPauseInterruptState::InterruptTaken {
            *self = SmsPauseInterruptState::Free;
        }
    }
}

/// Holding pause asks for one interrupt only: once it is taken, pressing
/// again does not ask for another until the button is released.
pub proof fn lemma_pause_once(s: SmsPauseInterruptState)
    ensures
        spec_pause_pressed(SmsPauseInterruptState::InterruptTaken, true)
            == SmsPauseInterruptState::InterruptTaken,
        spec_pause_pressed(spec_pause_pressed(SmsPauseInterruptState::InterruptTaken, false), true)
            == SmsPauseInterruptState::InterruptNeeded,
        spec_pause_pressed(spec_pause_pressed(s, true), true) == spec_pause_pressed(s, true),
{
}

} // verus!
