use vstd::prelude::*;

verus! {

/// The four modes of the PPU; the number of each is what STAT bits 0-1 show.
#[derive(PartialEq, Eq, Structural, Clone, Copy, Debug)]
pub enum PpuMode {
    /// Mode 0: the rest of a visible line after drawing.
    HBlank,
    /// Mode 1: the ten lines after the last visible one.
    VBlank,
    /// Mode 2: the PPU scans OAM; the CPU cannot reach OAM.
    AccessOAM,
    /// Mode 3: the PPU draws; the CPU can reach neither OAM nor VRAM.
    AccessVRAM,
}

pub open spec fn mode_bits(m: PpuMode) -> u8 {
    match m {
        PpuMode::HBlank => 0,
        PpuMode::VBlank => 1,
        PpuMode::AccessOAM => 2,
        PpuMode::AccessVRAM => 3,
    }
}

/// The LCD control register (LCDC, FF40).
#[derive(Clone, Copy)]
pub struct Lcdc {
    pub data: u8,
}

impl Lcdc {
    pub fn new() -> (r: Lcdc)
        ensures
            r.data == 0,
    {
        Lcdc { data: 0x00 }
    }

    pub fn set(&mut self, data: u8)
        ensures
            final(self).data == data,
    {
        self.data = data;
    }

    /// Bit 7: the PPU runs only while it is set.
    pub fn lcd_display_enable(&self) -> (r: bool)
        ensures
            r == (self.data & 0x80 != 0),
    {
        self.data & 0x80 != 0
    }

    /// Bit 6: the window's tile map is at 9C00 rather than 9800.
    pub fn window_tile_map_select(&self) -> (r: bool)
        ensures
            r == (self.data & 0x40 != 0),
    {
        self.data & 0x40 != 0
    }

    /// Bit 5: the window is shown.
    pub fn window_display_enable(&self) -> (r: bool)
        ensures
            r == (self.data & 0x20 != 0),
    {
        self.data & 0x20 != 0
    }

    /// Bit 4: background and window tiles are addressed from 8000 by an
    /// unsigned number, rather than from 9000 by a signed one.
    pub fn tile_data_select(&self) -> (r: bool)
        ensures
            r == (self.data & 0x10 != 0),
    {
        self.data & 0x10 != 0
    }

    /// Bit 3: the background's tile map is at 9C00 rather than 9800.
    pub fn bg_tile_map_select(&self) -> (r: bool)
        ensures
            r == (self.data & 0x08 != 0),
    {
        self.data & 0x08 != 0
    }

    /// Bit 2: sprites are 8x16 rather than 8x8.
    pub fn sprite_size(&self) -> (r: bool)
        ensures
            r == (self.data & 0x04 != 0),
    {
        self.data & 0x04 != 0
    }

    /// Bit 1: sprites are shown.
    pub fn sprite_enable(&self) -> (r: bool)
        ensures
            r == (self.data & 0x02 != 0),
    {
        self.data & 0x02 != 0
    }

    /// Bit 0: background and window are shown.
    pub fn bg_window_enable(&self) -> (r: bool)
        ensures
            r == (self.data & 0x01 != 0),
    {
        self.data & 0x01 != 0
    }
}

/// STAT after the PPU reports its mode and the LY=LYC comparison in bits 0-2.
pub open spec fn stat_with(data: u8, mode: PpuMode, ly: u8, lyc: u8) -> u8 {
    (data & 0xF8) | (if ly == lyc { 0x04u8 } else { 0u8 }) | mode_bits(mode)
}

/// The LCD status register (STAT, FF41).
#[derive(Clone, Copy)]
pub struct Stat {
    pub data: u8,
}

impl Stat {
    pub fn new() -> (r: Stat)
        ensures
            r.data == 0,
    {
        Stat { data: 0x00 }
    }

    /// A CPU write: only the interrupt-enable bits 3-6 are writable.
    pub fn set(&mut self, data: u8)
        ensures
            final(self).data == (old(self).data & 0x07) | (data & 0x78),
            final(self).data & 0x03 == old(self).data & 0x03,
            final(self).data & 0x04 == old(self).data & 0x04,
    {
        let d = self.data;
        self.data = (self.data & 0x07) | (data & 0x78);
        proof {
            let n = self.data;
            assert(n & 3 == d & 3 && n & 4 == d & 4) by (bit_vector)
                requires n == (d & 7) | (data & 0x78);
        }
    }

    /// Report the mode and whether LY equals LYC.
    pub fn update(&mut self, ppu_mode: PpuMode, ppu_ly: u8, ppu_lyc: u8)
        ensures
            final(self).data == stat_with(old(self).data, ppu_mode, ppu_ly, ppu_lyc),
            final(self).data & 0x03 == mode_bits(ppu_mode),
            (final(self).data & 0x04 != 0) == (ppu_ly == ppu_lyc),
    {
        let coincidence: u8 = if ppu_ly == ppu_lyc { 0x04 } else { 0x00 };
        let mode: u8 = match ppu_mode {
            PpuMode::HBlank => 0,
            PpuMode::VBlank => 1,
            PpuMode::AccessOAM => 2,
            PpuMode::AccessVRAM => 3,
        };
        let d = self.data;
        self.data = (self.data & 0xF8) | coincidence | mode;
        proof {
            let n = self.data;
            assert(n & 3 == mode && ((n & 4 != 0) == (coincidence == 4))) by (bit_vector)
                requires
                    n == (d & 0xF8) | coincidence | mode,
                    mode <= 3,
                    coincidence == 0 || coincidence == 4,
            ;
        }
    }

    /// Bit 6: request LCD-STAT when LY becomes equal to LYC.
    pub fn lyc_ly_stat_interrupt_enable(&self) -> (r: bool)
        ensures
            r == (self.data & 0x40 != 0),
    {
        self.data & 0x40 != 0
    }

    /// Bit 5: request LCD-STAT on entering mode 2.
    pub fn mode_2_stat_interrupt_enable(&self) -> (r: bool)
        ensures
            r == (self.data & 0x20 != 0),
    {
        self.data & 0x20 != 0
    }

    /// Bit 4: request LCD-STAT on entering mode 1.
    pub fn mode_1_stat_interrupt_enable(&self) -> (r: bool)
        ensures
            r == (self.data & 0x10 != 0),
    {
        self.data & 0x10 != 0
    }

    /// Bit 3: request LCD-STAT on entering mode 0.
    pub fn mode_0_stat_interrupt_enable(&self) -> (r: bool)
        ensures
            r == (self.data & 0x08 != 0),
    {
        self.data & 0x08 != 0
    }

    /// Bit 2: LY equals LYC.
    pub fn coincidence_flag(&self) -> (r: bool)
        ensures
            r == (self.data & 0x04 != 0),
    {
        self.data & 0x04 != 0
    }

    /// Bits 0-1: the mode.
    pub fn ppu_mode(&self) -> (r: u8)
        ensures
            r == self.data & 0x03,
    {
        self.data & 0x03
    }
}

/// The four shades of the DMG screen, lightest first.
#[derive(PartialEq, Eq, Structural, Clone, Copy, Debug)]
pub enum Color {
    White,
    LightGray,
    DarkGray,
    Black,
}

impl Color {
    /// The shade of a 2-bit shade number.
    pub fn from_u8(val: u8) -> (r: Color)
        requires
            val <= 3,
        ensures
            val == 0 ==> r == Color::White,
            val == 1 ==> r == Color::LightGray,
            val == 2 ==> r == Color::DarkGray,
            val == 3 ==> r == Color::Black,
    {
        if val == 0 {
            Color::White
        } else if val == 1 {
            Color::LightGray
        } else if val == 2 {
            Color::DarkGray
        } else {
            Color::Black
        }
    }

    /// The shade as a 0RGB grey for a host framebuffer.
    pub fn to_u32(&self) -> (r: u32)
        ensures
            *self == Color::White ==> r == 0x00FF_FFFF,
            *self == Color::LightGray ==> r == 0x00AA_AAAA,
            *self == Color::DarkGray ==> r == 0x0055_5555,
            *self == Color::Black ==> r == 0,
    {
        match self {
            Color::White => 0x00FF_FFFF,
            Color::LightGray => 0x00AA_AAAA,
            Color::DarkGray => 0x0055_5555,
            Color::Black => 0x0000_0000,
        }
    }
}

} // verus!
