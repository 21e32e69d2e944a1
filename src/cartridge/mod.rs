pub mod mbc;
pub mod mbc1;

use vstd::prelude::*;
use self::mbc::RomOnly;
use self::mbc1::{Mbc1, Mbc1View};
use crate::cpu::registers::word;
use crate::memory::{byte_or_open, zeroed};

verus! {

/// Offsets of the header fields that the core reads.
pub const TITLE_START: u16 = 0x134;
pub const TITLE_END: u16 = 0x143;
pub const CARTRIDGE_TYPE_ADDR: usize = 0x147;
pub const RAM_SIZE_ADDR: usize = 0x149;
/// The header ends at 0x14F; a shorter image is malformed.
pub const HEADER_END: usize = 0x150;

/// The cartridge hardware named by the header byte at 0x147.
#[derive(PartialEq, Eq, Structural, Clone, Copy, Debug)]
pub enum CartridgeType {
    RomOnly,
    Mbc1,
    Mbc1Ram,
    Mbc1RamBattery,
    Mbc2,
    Mbc2Battery,
    RomRam,
    RomRamBattery,
    Mmm01,
    Mmm01Ram,
    Mmm01RamBattery,
    Mbc3TimerBattery,
    Mbc3TimerRamBattery,
    Mbc3,
    Mbc3Ram,
    Mbc3RamBattery,
    Mbc5,
    Mbc5Ram,
    Mbc5RamBattery,
    Mbc5Rumble,
    Mbc5RumbleRam,
    Mbc5RumbleRamBattery,
    Mbc6,
    Mbc7SensorRumbleRamBattery,
    PocketCamera,
    BandaiTama5,
    HuC3,
    HuC1RamBattery,
}

/// The cartridge type a header code names, if any.
pub open spec fn cartridge_type_of(code: u8) -> Option<CartridgeType> {
    match code {
        0x00 => Some(CartridgeType::RomOnly),
        0x01 => Some(CartridgeType::Mbc1),
        0x02 => Some(CartridgeType::Mbc1Ram),
        0x03 => Some(CartridgeType::Mbc1RamBattery),
        0x05 => Some(CartridgeType::Mbc2),
        0x06 => Some(CartridgeType::Mbc2Battery),
        0x08 => Some(CartridgeType::RomRam),
        0x09 => Some(CartridgeType::RomRamBattery),
        0x0B => Some(CartridgeType::Mmm01),
        0x0C => Some(CartridgeType::Mmm01Ram),
        0x0D => Some(CartridgeType::Mmm01RamBattery),
        0x0F => Some(CartridgeType::Mbc3TimerBattery),
        0x10 => Some(CartridgeType::Mbc3TimerRamBattery),
        0x11 => Some(CartridgeType::Mbc3),
        0x12 => Some(CartridgeType::Mbc3Ram),
        0x13 => Some(CartridgeType::Mbc3RamBattery),
        0x19 => Some(CartridgeType::Mbc5),
        0x1A => Some(CartridgeType::Mbc5Ram),
        0x1B => Some(CartridgeType::Mbc5RamBattery),
        0x1C => Some(CartridgeType::Mbc5Rumble),
        0x1D => Some(CartridgeType::Mbc5RumbleRam),
        0x1E => Some(CartridgeType::Mbc5RumbleRamBattery),
        0x20 => Some(CartridgeType::Mbc6),
        0x22 => Some(CartridgeType::Mbc7SensorRumbleRamBattery),
        0xFC => Some(CartridgeType::PocketCamera),
        0xFD => Some(CartridgeType::BandaiTama5),
        0xFE => Some(CartridgeType::HuC3),
        0xFF => Some(CartridgeType::HuC1RamBattery),
        _ => None,
    }
}

impl CartridgeType {
    /// Decode the header code at 0x147.
    pub fn from_u8(code: u8) -> (r: Option<CartridgeType>)
        ensures
            r == cartridge_type_of(code),
    {
        match code {
            0x00 => Some(CartridgeType::RomOnly),
            0x01 => Some(CartridgeType::Mbc1),
            0x02 => Some(CartridgeType::Mbc1Ram),
            0x03 => Some(CartridgeType::Mbc1RamBattery),
            0x05 => Some(CartridgeType::Mbc2),
            0x06 => Some(CartridgeType::Mbc2Battery),
            0x08 => Some(CartridgeType::RomRam),
            0x09 => Some(CartridgeType::RomRamBattery),
            0x0B => Some(CartridgeType::Mmm01),
            0x0C => Some(CartridgeType::Mmm01Ram),
            0x0D => Some(CartridgeType::Mmm01RamBattery),
            0x0F => Some(CartridgeType::Mbc3TimerBattery),
            0x10 => Some(CartridgeType::Mbc3TimerRamBattery),
            0x11 => Some(CartridgeType::Mbc3),
            0x12 => Some(CartridgeType::Mbc3Ram),
            0x13 => Some(CartridgeType::Mbc3RamBattery),
            0x19 => Some(CartridgeType::Mbc5),
            0x1A => Some(CartridgeType::Mbc5Ram),
            0x1B => Some(CartridgeType::Mbc5RamBattery),
            0x1C => Some(CartridgeType::Mbc5Rumble),
            0x1D => Some(CartridgeType::Mbc5RumbleRam),
            0x1E => Some(CartridgeType::Mbc5RumbleRamBattery),
            0x20 => Some(CartridgeType::Mbc6),
            0x22 => Some(CartridgeType::Mbc7SensorRumbleRamBattery),
            0xFC => Some(CartridgeType::PocketCamera),
            0xFD => Some(CartridgeType::BandaiTama5),
            0xFE => Some(CartridgeType::HuC3),
            0xFF => Some(CartridgeType::HuC1RamBattery),
            _ => None,
        }
    }
}

/// The size of cartridge RAM named by the header byte at 0x149.
#[derive(PartialEq, Eq, Structural, Clone, Copy, Debug)]
pub enum RamSize {
    NoRam,
    Kb2Unused,
    Kb8,
    Kb32,
    Kb128,
    Kb64,
}

/// The number of RAM bytes a header RAM-size code gives; unknown codes give none.
pub open spec fn ram_bytes(code: u8) -> nat {
    match code {
        0x01 => 0x800,
        0x02 => 0x2000,
        0x03 => 0x8000,
        0x04 => 0x20000,
        0x05 => 0x10000,
        _ => 0,
    }
}

impl RamSize {
    /// Decode the header code at 0x149.
    pub fn from_u8(code: u8) -> (r: Option<RamSize>)
        ensures
            r.is_some() <==> code <= 0x05,
            r.is_some() ==> r.unwrap().byte_count() == ram_bytes(code),
    {
        match code {
            0x00 => Some(RamSize::NoRam),
            0x01 => Some(RamSize::Kb2Unused),
            0x02 => Some(RamSize::Kb8),
            0x03 => Some(RamSize::Kb32),
            0x04 => Some(RamSize::Kb128),
            0x05 => Some(RamSize::Kb64),
            _ => None,
        }
    }

    pub open spec fn byte_count(self) -> nat {
        match self {
            RamSize::NoRam => 0,
            RamSize::Kb2Unused => 0x800,
            RamSize::Kb8 => 0x2000,
            RamSize::Kb32 => 0x8000,
            RamSize::Kb128 => 0x20000,
            RamSize::Kb64 => 0x10000,
        }
    }

    /// The number of bytes of RAM of this size.
    pub fn bytes(&self) -> (r: usize)
        ensures
            r == self.byte_count(),
    {
        match self {
            RamSize::NoRam => 0,
            RamSize::Kb2Unused => 0x800,
            RamSize::Kb8 => 0x2000,
            RamSize::Kb32 => 0x8000,
            RamSize::Kb128 => 0x20000,
            RamSize::Kb64 => 0x10000,
        }
    }
}

/// Why a ROM image cannot be made into a cartridge.
#[derive(PartialEq, Eq, Structural, Clone, Copy, Debug)]
pub enum CartridgeError {
    /// The image ends before the end of the header (0x150 bytes).
    TooShort,
    /// The header names a bank controller that is not emulated; the code is given.
    UnsupportedMapper(u8),
}

/// A cartridge, by bank controller.
pub enum Cartridge {
    RomOnly(RomOnly),
    Mbc1(Mbc1),
}

/// The state of a cartridge, as the contracts see it.
pub enum CartridgeView {
    RomOnly(Seq<u8>),
    Mbc1(Mbc1View),
}

/// The title bytes from header offset `i` on: up to the first zero byte or 0x143.
pub open spec fn title_from(c: CartridgeView, i: int) -> Seq<char>
    decreases 0x143 - i,
{
    if i < 0x134 || i >= 0x143 || c.read(i as u16) == 0 {
        Seq::empty()
    } else {
        seq![c.read(i as u16) as char] + title_from(c, i + 1)
    }
}

impl CartridgeView {
    pub open spec fn wf(self) -> bool {
        match self {
            CartridgeView::RomOnly(_) => true,
            CartridgeView::Mbc1(m) => m.wf(),
        }
    }

    pub open spec fn read(self, addr: u16) -> u8 {
        match self {
            CartridgeView::RomOnly(rom) => if addr <= 0x7FFF {
                byte_or_open(rom, addr as int)
            } else {
                0xFF
            },
            CartridgeView::Mbc1(m) => m.read(addr),
        }
    }

    pub open spec fn write(self, addr: u16, val: u8) -> CartridgeView {
        match self {
            CartridgeView::RomOnly(_) => self,
            CartridgeView::Mbc1(m) => CartridgeView::Mbc1(m.write(addr, val)),
        }
    }

    /// The title: the header bytes from 0x134 up to the first zero, at most 15.
    pub open spec fn title(self) -> Seq<char> {
        title_from(self, 0x134)
    }
}

impl View for Cartridge {
    type V = CartridgeView;

    open spec fn view(&self) -> CartridgeView {
        match self {
            Cartridge::RomOnly(r) => CartridgeView::RomOnly(r.rom@),
            Cartridge::Mbc1(m) => CartridgeView::Mbc1(m@),
        }
    }
}

/// What `Cartridge::new` makes of a ROM image.
pub open spec fn cartridge_of(rom: Seq<u8>) -> Result<CartridgeView, CartridgeError> {
    if rom.len() < 0x150 {
        Err(CartridgeError::TooShort)
    } else if rom[0x147] == 0x00 {
        Ok(CartridgeView::RomOnly(rom))
    } else if 0x01 <= rom[0x147] <= 0x03 {
        Ok(
            CartridgeView::Mbc1(
                Mbc1View {
                    rom,
                    ram: Seq::new(ram_bytes(rom[0x149]), |i: int| 0u8),
                    bank_mode: mbc1::BankMode::Rom,
                    bank: 1,
                    ram_enabled: false,
                },
            ),
        )
    } else {
        Err(CartridgeError::UnsupportedMapper(rom[0x147]))
    }
}

/// Relies on std's `String::push`: it appends one character.
#[verifier::external_body]
fn push_char(s: &mut String, c: char)
    ensures
        final(s)@ == old(s)@.push(c),
{
    s.push(c)
}

impl Cartridge {
    /// Make a cartridge of a ROM image: ROM-only for type 0x00, MBC1 for
    /// 0x01-0x03 with the RAM its header asks for, zeroed.
    pub fn new(rom: Vec<u8>) -> (r: Result<Cartridge, CartridgeError>)
        ensures
            match r {
                Ok(c) => cartridge_of(rom@) == Ok::<CartridgeView, CartridgeError>(c@),
                Err(e) => cartridge_of(rom@) == Err::<CartridgeView, CartridgeError>(e),
            },
            r.is_ok() ==> r.unwrap()@.wf(),
    {
        if rom.len() < HEADER_END {
            return Err(CartridgeError::TooShort);
        }
        let code = rom[CARTRIDGE_TYPE_ADDR];
        match CartridgeType::from_u8(code) {
            Some(CartridgeType::RomOnly) => Ok(Cartridge::RomOnly(RomOnly::new(rom))),
            Some(CartridgeType::Mbc1) | Some(CartridgeType::Mbc1Ram) | Some(CartridgeType::Mbc1RamBattery) => {
                let size = match RamSize::from_u8(rom[RAM_SIZE_ADDR]) {
                    Some(s) => s.bytes(),
                    None => 0,
                };
                let ram = zeroed(size);
                Ok(Cartridge::Mbc1(Mbc1::new(rom, ram)))
            },
            _ => Err(CartridgeError::UnsupportedMapper(code)),
        }
    }

    pub fn read8(&self, addr: u16) -> (r: u8)
        ensures
            r == self@.read(addr),
    {
        match self {
            Cartridge::RomOnly(c) => c.read8(addr),
            Cartridge::Mbc1(c) => c.read8(addr),
        }
    }

    /// Writes reach the bank controller's registers and RAM; ROM does not change.
    pub fn write8(&mut self, addr: u16, val: u8)
        requires
            old(self)@.wf(),
        ensures
            final(self)@ == old(self)@.write(addr, val),
            final(self)@.wf(),
    {
        match self {
            Cartridge::RomOnly(_) => {},
            Cartridge::Mbc1(c) => c.write8(addr, val),
        }
    }

    /// Read a little-endian word: the low byte at `addr`, the high byte after it.
    pub fn read16(&self, addr: u16) -> (r: u16)
        ensures
            r == word(self@.read(addr.wrapping_add(1)), self@.read(addr)),
    {
        let lo = self.read8(addr);
        let hi = self.read8(addr.wrapping_add(1));
        proof {
            crate::cpu::registers::lemma_word_join(hi, lo);
        }
        ((hi as u16) << 8) | (lo as u16)
    }

    /// Write a little-endian word as two byte writes, low byte first.
    pub fn write16(&mut self, addr: u16, val: u16)
        requires
            old(self)@.wf(),
        ensures
            final(self)@ == old(self)@.write(addr, crate::cpu::registers::lo_byte(val)).write(
                addr.wrapping_add(1),
                crate::cpu::registers::hi_byte(val),
            ),
            final(self)@.wf(),
    {
        proof {
            crate::cpu::registers::lemma_word_split(val);
        }
        self.write8(addr, val as u8);
        self.write8(addr.wrapping_add(1), (val >> 8) as u8);
    }

    /// The cartridge type its header names, if the code is a known one.
    pub fn mbc(&self) -> (r: Option<CartridgeType>)
        ensures
            r == cartridge_type_of(self@.read(0x147)),
    {
        CartridgeType::from_u8(self.read8(0x147))
    }

    /// The RAM size its header names, if the code is a known one.
    pub fn ram_size(&self) -> (r: Option<RamSize>)
        ensures
            r.is_some() <==> self@.read(0x149) <= 0x05,
            r.is_some() ==> r.unwrap().byte_count() == ram_bytes(self@.read(0x149)),
    {
        RamSize::from_u8(self.read8(0x149))
    }

    /// The game title from the header.
    pub fn title(&self) -> (r: String)
        ensures
            r@ == self@.title(),
    {
        let mut s = String::new();
        let mut i: u16 = TITLE_START;
        let mut done = false;
        while i < TITLE_END && !done
            invariant
                TITLE_START <= i <= TITLE_END,
                done ==> title_from(self@, i as int) == Seq::<char>::empty(),
                s@ + title_from(self@, i as int) == self@.title(),
            decreases TITLE_END - i + (if done { 0int } else { 1int }),
        {
            let b = self.read8(i);
            if b == 0 {
                done = true;
            } else {
                let c = b as char;
                proof {
                    assert(title_from(self@, i as int) == seq![c] + title_from(self@, i + 1));
                    assert(s@.push(c) + title_from(self@, i + 1) =~= s@ + (seq![c] + title_from(self@, i + 1)));
                }
                push_char(&mut s, c);
                i = i + 1;
            }
        }
        proof {
            assert(title_from(self@, i as int) == Seq::<char>::empty());
            assert(s@ + Seq::<char>::empty() =~= s@);
        }
        s
    }
}

} // verus!
