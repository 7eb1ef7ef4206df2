//! IO system with 16 bit addresses and 8 bit data.
use vstd::prelude::*;

verus! {

/// IO system with 16 bit addresses and 8 bit data.
///
/// An input may change the device (reading a VDP port advances its address),
/// so the trait names both the byte an input gives and the device after it.
pub trait Io16: Sized {
    spec fn spec_input(&self, address: u16) -> u8;

    spec fn spec_after_input(&self, address: u16) -> Self;

    spec fn spec_output(&self, address: u16, value: u8) -> Self;

    /// Receive an input byte at the given `address`.
    fn input(&mut self, address: u16) -> (r: u8)
        ensures
            r == old(self).spec_input(address),
            *final(self) == old(self).spec_after_input(address),
    ;

    /// Output a byte at the given `address`.
    fn output(&mut self, address: u16, value: u8)
        ensures
            *final(self) == old(self).spec_output(address, value),
    ;
}

} // verus!
