//! 16 bit memory maps.
use vstd::prelude::*;
use vstd::array::spec_array_update;

verus! {

/// A memory map with 16 bit addresses.
///
/// `spec_read` is the byte a read at an address gives, and `spec_write` the
/// memory after a write. A read leaves the memory as it was.
pub trait Memory16: Sized {
    spec fn spec_read(&self, logical_address: u16) -> u8;

    spec fn spec_write(&self, logical_address: u16, value: u8) -> Self;

    /// Read a byte.
    fn read(&mut self, logical_address: u16) -> (r: u8)
        ensures
            r == old(self).spec_read(logical_address),
            *final(self) == *old(self),
    ;

    /// Write a byte.
    fn write(&mut self, logical_address: u16, value: u8)
        ensures
            *final(self) == old(self).spec_write(logical_address, value),
    ;
}

/// A flat 64 KiB memory: every address is plain RAM.
impl Memory16 for [u8; 0x10000] {
    open spec fn spec_read(&self, logical_address: u16) -> u8 {
        self@[logical_address as int]
    }

    open spec fn spec_write(&self, logical_address: u16, value: u8) -> Self {
        spec_array_update(*self, logical_address as int, value)
    }

    fn read(&mut self, logical_address: u16) -> (r: u8) {
        self[logical_address as usize]
    }

    fn write(&mut self, logical_address: u16, value: u8) {
        self[logical_address as usize] = value;
        assert(*self =~= spec_array_update(*old(self), logical_address as int, value));
    }
}

/// On flat memory, a read gives back what the last write at that address
/// wrote, and a write leaves every other address alone.
pub proof fn lemma_flat_read_after_write(mem: [u8; 0x10000], a: u16, b: u16, v: u8)
    ensures
        mem.spec_write(a, v).spec_read(a) == v,
        a != b ==> mem.spec_write(a, v).spec_read(b) == mem.spec_read(b),
{
}

} // verus!
