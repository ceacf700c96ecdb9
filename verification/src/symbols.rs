//! The address map and what a label stands for.

use vstd::prelude::*;

verus! {

/// Where the text segment begins.
pub const BASE_TEXT_ADDR: u32 = 0x0040_0000;

/// Where the data segment begins.
pub const BASE_DATA_ADDR: u32 = 0x1001_0000;

/// The most instructions that have an address each.
pub const MAX_TEXT_LEN: u32 = 0x3FEF_FFFF;

/// The most data bytes after which the next byte still has an address.
pub const MAX_DATA_LEN: u32 = 0xEFFE_FFFF;

/// The two regions of the address space.
#[derive(Debug, Clone, Copy, PartialEq, Eq, Structural)]
pub enum Segment {
    Text,
    Data,
}

/// What a label stands for.
#[derive(Debug, Clone, Copy, PartialEq, Eq, Structural)]
pub struct Symbol {
    pub address: u32,
    pub segment: Segment,
}

} // verus!
