use vstd::prelude::*;
use crate::memory::{byte_or_open, read_or_open};

verus! {

/// A cartridge without a bank controller: 32 KiB of ROM mapped directly at
/// 0000-7FFF, and no RAM.
pub struct RomOnly {
    pub rom: Vec<u8>,
}

impl RomOnly {
    pub fn new(rom: Vec<u8>) -> (r: RomOnly)
        ensures
            r.rom@ == rom@,
    {
        RomOnly { rom }
    }

    /// What a read of `addr` returns.
    pub open spec fn read_spec(self, addr: u16) -> u8 {
        if addr <= 0x7FFF {
            byte_or_open(self.rom@, addr as int)
        } else {
            0xFF
        }
    }

    pub fn read8(&self, addr: u16) -> (r: u8)
        ensures
            r == self.read_spec(addr),
    {
        if addr <= 0x7FFF {
            read_or_open(&self.rom, addr as usize)
        } else {
            0xFF
        }
    }
}

} // verus!
