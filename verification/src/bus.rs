//! A flat pairing of a ROM image with eight kilobytes of RAM.

use vstd::prelude::*;

use crate::mmu::zeroed;

verus! {

pub const RAM_SIZE: usize = 8 * 1024;

pub struct Bus {
    rom: Vec<u8>,
    ram: Vec<u8>,
}

impl Bus {
    /// The bytes of the ROM image.
    pub closed spec fn rom(&self) -> Seq<u8> {
        self.rom@
    }

    /// The bytes of the RAM.
    pub closed spec fn ram(&self) -> Seq<u8> {
        self.ram@
    }

    /// A bus over the given ROM image, with its RAM zeroed.
    pub fn new(rom: Vec<u8>) -> (r: Bus)
        ensures
            r.rom() == rom@,
            r.ram() == Seq::new(RAM_SIZE as nat, |i: int| 0u8),
    {
        Bus { rom: rom, ram: zeroed(RAM_SIZE) }
    }
}

} // verus!
