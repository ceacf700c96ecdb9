//! Byte addresses of the simulated machine.

use vstd::prelude::*;

verus! {

/// A 32-bit byte address, kept apart from counts and offsets.
#[derive(Debug, Clone, Copy, PartialEq, Eq, Hash, Structural)]
pub struct Address(pub u32);

impl Address {
    /// The address as a number.
    pub fn value(self) -> (raw: u32)
        ensures
            raw == self.0,
    {
        self.0
    }

    /// The address `offset` bytes further on.
    pub fn offset(self, offset: u32) -> (moved: Address)
        requires
            self.0 + offset <= u32::MAX,
        ensures
            moved.0 == self.0 + offset,
    {
        Address(self.0 + offset)
    }

    /// The address `offset` bytes further on, counted round the end of
    /// the address space.
    pub fn wrapping_offset(self, offset: u32) -> (moved: Address)
        ensures
            moved.0 == (self.0 + offset) % 0x1_0000_0000,
    {
        Address(self.0.wrapping_add(offset))
    }

    /// The number of bytes from `base` up to this address.
    pub fn distance_from(self, base: Address) -> (size: usize)
        requires
            base.0 <= self.0,
        ensures
            size == self.0 - base.0,
    {
        (self.0 - base.0) as usize
    }
}

} // verus!
