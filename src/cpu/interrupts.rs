use vstd::prelude::*;

verus! {

/// The interrupt sources, in priority order: the bit of each in IF and IE is
/// its position here.
pub enum Flags {
    VBlank,
    LCDStat,
    Timer,
    Serial,
    Joypad,
}

/// The bit that an interrupt source occupies in IF and IE.
pub open spec fn flag_mask(flag: Flags) -> u8 {
    match flag {
        Flags::VBlank => 0x01,
        Flags::LCDStat => 0x02,
        Flags::Timer => 0x04,
        Flags::Serial => 0x08,
        Flags::Joypad => 0x10,
    }
}

/// The Interrupt Flag register (IF): one pending-request bit per source.
pub struct InterruptFlags {
    pub data: u8,
}

impl InterruptFlags {
    /// No interrupt pending.
    pub fn new() -> (r: InterruptFlags)
        ensures
            r.data == 0,
    {
        InterruptFlags { data: 0x00 }
    }

    /// Request the interrupt of `flag`, keeping the other requests.
    pub fn set(&mut self, flag: Flags)
        ensures
            final(self).data == old(self).data | flag_mask(flag),
    {
        let mask: u8 = match flag {
            Flags::VBlank => 0x01,
            Flags::LCDStat => 0x02,
            Flags::Timer => 0x04,
            Flags::Serial => 0x08,
            Flags::Joypad => 0x10,
        };
        self.data = self.data | mask;
    }
}

} // verus!
