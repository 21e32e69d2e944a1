use vstd::prelude::*;
use crate::memory::{byte_or_open, read_or_open};

verus! {

/// What the two bits of the secondary bank register select.
#[derive(PartialEq, Eq, Structural, Clone, Copy, Debug)]
pub enum BankMode {
    /// They are bits 5-6 of the ROM bank; RAM bank 0 is used.
    Rom,
    /// They select the RAM bank; only ROM banks 01-1F can be reached.
    Ram,
}

/// The MBC1 bank controller. `bank` holds the 5-bit ROM bank register in bits
/// 0-4 and the 2-bit secondary register in bits 5-6.
pub struct Mbc1 {
    pub rom: Vec<u8>,
    pub ram: Vec<u8>,
    pub bank_mode: BankMode,
    pub bank: u8,
    pub ram_enabled: bool,
}

/// The bank register after writing `val` to the ROM bank register: its low
/// five bits, with 0 read as 1.
pub open spec fn with_rom_bank_low(bank: u8, val: u8) -> u8 {
    let b = val & 0x1F;
    (bank & 0x60) | (if b == 0 { 1u8 } else { b })
}

/// The state of an MBC1 controller, as the contracts see it.
pub struct Mbc1View {
    pub rom: Seq<u8>,
    pub ram: Seq<u8>,
    pub bank_mode: BankMode,
    pub bank: u8,
    pub ram_enabled: bool,
}

impl Mbc1View {
    /// The 5-bit register never holds 0, and bit 7 is unused.
    pub open spec fn wf(self) -> bool {
        self.bank & 0x1F != 0 && self.bank & 0x80 == 0
    }

    /// The effective ROM bank at 4000-7FFF: in ROM banking mode the secondary
    /// register gives bits 5-6.
    pub open spec fn rom_bank(self) -> nat {
        match self.bank_mode {
            BankMode::Rom => (self.bank & 0x7F) as nat,
            BankMode::Ram => (self.bank & 0x1F) as nat,
        }
    }

    /// The effective RAM bank at A000-BFFF.
    pub open spec fn ram_bank(self) -> nat {
        match self.bank_mode {
            BankMode::Rom => 0,
            BankMode::Ram => ((self.bank & 0x60) >> 5u8) as nat,
        }
    }

    /// What a read of `addr` returns. Disabled RAM, and anything past the end
    /// of ROM or RAM, reads as 0xFF.
    pub open spec fn read(self, addr: u16) -> u8 {
        if addr <= 0x3FFF {
            byte_or_open(self.rom, addr as int)
        } else if addr <= 0x7FFF {
            byte_or_open(self.rom, self.rom_bank() * 0x4000 + (addr - 0x4000))
        } else if 0xA000 <= addr <= 0xBFFF && self.ram_enabled {
            byte_or_open(self.ram, self.ram_bank() * 0x2000 + (addr - 0xA000))
        } else {
            0xFF
        }
    }

    /// The controller after a write of `val` to `addr`. Writes to the mode
    /// register other than 0 or 1 are rejected.
    pub open spec fn write(self, addr: u16, val: u8) -> Mbc1View {
        if addr <= 0x1FFF {
            Mbc1View { ram_enabled: val & 0x0F == 0x0A, ..self }
        } else if addr <= 0x3FFF {
            Mbc1View { bank: with_rom_bank_low(self.bank, val), ..self }
        } else if addr <= 0x5FFF {
            Mbc1View { bank: (self.bank & 0x9F) | ((val & 0x03) << 5u8), ..self }
        } else if addr <= 0x7FFF {
            if val == 0 {
                Mbc1View { bank_mode: BankMode::Rom, ..self }
            } else if val == 1 {
                Mbc1View { bank_mode: BankMode::Ram, ..self }
            } else {
                self
            }
        } else if 0xA000 <= addr <= 0xBFFF && self.ram_enabled {
            let i = self.ram_bank() * 0x2000 + (addr - 0xA000);
            if i < self.ram.len() {
                Mbc1View { ram: self.ram.update(i, val), ..self }
            } else {
                self
            }
        } else {
            self
        }
    }
}

impl View for Mbc1 {
    type V = Mbc1View;

    open spec fn view(&self) -> Mbc1View {
        Mbc1View {
            rom: self.rom@,
            ram: self.ram@,
            bank_mode: self.bank_mode,
            bank: self.bank,
            ram_enabled: self.ram_enabled,
        }
    }
}

impl Mbc1 {
    /// A controller at power-up: ROM banking mode, bank 1, RAM disabled.
    pub fn new(rom: Vec<u8>, ram: Vec<u8>) -> (r: Mbc1)
        ensures
            r@ == (Mbc1View { rom: rom@, ram: ram@, bank_mode: BankMode::Rom, bank: 1, ram_enabled: false }),
            r@.wf(),
    {
        proof {
            assert(1u8 & 0x1F != 0 && 1u8 & 0x80 == 0) by (bit_vector);
        }
        Mbc1 { rom, ram, bank_mode: BankMode::Rom, bank: 0x01, ram_enabled: false }
    }

    /// The ROM bank mapped at 4000-7FFF.
    pub fn rom_bank(&self) -> (r: usize)
        ensures
            r == self@.rom_bank(),
            r < 0x80,
    {
        let bank = match self.bank_mode {
            BankMode::Rom => self.bank & 0x7F,
            BankMode::Ram => self.bank & 0x1F,
        };
        proof {
            assert(forall|b: u8| b & 0x7F < 0x80 && b & 0x1F < 0x80) by (bit_vector);
        }
        bank as usize
    }

    /// The RAM bank mapped at A000-BFFF.
    pub fn ram_bank(&self) -> (r: usize)
        ensures
            r == self@.ram_bank(),
            r < 4,
    {
        let bank = match self.bank_mode {
            BankMode::Rom => 0x00,
            BankMode::Ram => (self.bank & 0x60) >> 5,
        };
        proof {
            assert(forall|b: u8| (b & 0x60) >> 5u8 < 4) by (bit_vector);
        }
        bank as usize
    }

    pub fn read8(&self, addr: u16) -> (r: u8)
        ensures
            r == self@.read(addr),
    {
        if addr <= 0x3FFF {
            read_or_open(&self.rom, addr as usize)
        } else if addr <= 0x7FFF {
            let bank = self.rom_bank();
            read_or_open(&self.rom, bank * 0x4000 + (addr as usize - 0x4000))
        } else if 0xA000 <= addr && addr <= 0xBFFF && self.ram_enabled {
            let bank = self.ram_bank();
            read_or_open(&self.ram, bank * 0x2000 + (addr as usize - 0xA000))
        } else {
            0xFF
        }
    }

    pub fn write8(&mut self, addr: u16, val: u8)
        requires
            old(self)@.wf(),
        ensures
            final(self)@ == old(self)@.write(addr, val),
            final(self)@.wf(),
    {
        if addr <= 0x1FFF {
            self.ram_enabled = val & 0x0F == 0x0A;
        } else if addr <= 0x3FFF {
            let b = val & 0x1F;
            let low: u8 = if b == 0 { 1 } else { b };
            proof {
                let bank = self.bank;
                assert(low & 0x1F != 0 && low & 0x80 == 0 && low == (if val & 0x1F == 0 { 1u8 } else { val & 0x1F })) by (bit_vector)
                    requires b == val & 0x1F, low == (if b == 0 { 1u8 } else { b });
                assert(((bank & 0x60) | low) & 0x1F != 0 && ((bank & 0x60) | low) & 0x80 == 0) by (bit_vector)
                    requires low & 0x1F != 0 && low & 0x80 == 0;
            }
            self.bank = (self.bank & 0x60) | low;
        } else if addr <= 0x5FFF {
            proof {
                let bank = self.bank;
                assert(((bank & 0x9F) | ((val & 0x03) << 5u8)) & 0x1F != 0 && ((bank & 0x9F) | ((val & 0x03) << 5u8)) & 0x80 == 0) by (bit_vector)
                    requires bank & 0x1F != 0 && bank & 0x80 == 0;
            }
            self.bank = (self.bank & 0x9F) | ((val & 0x03) << 5);
        } else if addr <= 0x7FFF {
            if val == 0 {
                self.bank_mode = BankMode::Rom;
            } else if val == 1 {
                self.bank_mode = BankMode::Ram;
            }
        } else if 0xA000 <= addr && addr <= 0xBFFF && self.ram_enabled {
            let bank = self.ram_bank();
            let i = bank * 0x2000 + (addr as usize - 0xA000);
            if i < self.ram.len() {
                self.ram[i] = val;
            }
        }
    }
}

/// The switchable ROM window never maps bank 0x00, 0x20, 0x40 or 0x60: a
/// zero in the 5-bit ROM bank register reads as 1, so writing 0x00 (or
/// 0x20, whose low five bits are zero) to it selects bank 1 plus the high
/// bits, and the write never leaves the window on a bank that 0000-3FFF
/// already shows.
pub proof fn lemma_rom_bank_never_zero(m: Mbc1View, addr: u16, val: u8)
    requires
        m.wf(),
        0x2000 <= addr <= 0x3FFF,
    ensures
        m.write(addr, val).wf(),
        m.write(addr, val).rom_bank() % 32 != 0,
        val & 0x1F == 0 ==> m.write(addr, val).rom_bank() % 32 == 1,
        val & 0x1F == 0 && m.bank & 0x60 == 0 ==> m.write(addr, val).rom_bank() == 1,
{
    let bank = m.bank;
    let nb = with_rom_bank_low(bank, val);
    assert(nb & 0x1F != 0 && nb & 0x80 == 0) by (bit_vector)
        requires
            nb == (bank & 0x60) | (if val & 0x1F == 0 { 1u8 } else { val & 0x1F }),
    ;
    assert((nb & 0x7F) % 32 == nb & 0x1F && (nb & 0x1F) % 32 == nb & 0x1F) by (bit_vector);
    assert(val & 0x1F == 0 ==> nb & 0x1F == 1) by (bit_vector)
        requires
            nb == (bank & 0x60) | (if val & 0x1F == 0 { 1u8 } else { val & 0x1F }),
    ;
    assert(val & 0x1F == 0 && bank & 0x60 == 0 ==> nb & 0x7F == 1) by (bit_vector)
        requires
            nb == (bank & 0x60) | (if val & 0x1F == 0 { 1u8 } else { val & 0x1F }),
    ;
}

} // verus!
