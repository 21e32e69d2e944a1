pub mod fetcher;
pub mod fifo;
pub mod lcd;
pub mod render;

use vstd::prelude::*;
use crate::cpu::interrupts::{Flags, InterruptFlags};
use crate::cpu::registers::{hi_byte, lemma_word_join, lemma_word_split, lo_byte, word};
use crate::memory::{byte_or_open, read_or_open, zeroed};
use self::lcd::{mode_bits, stat_with, Lcdc, PpuMode, Stat};

verus! {

pub const SCREEN_WIDTH: usize = 160;
pub const SCREEN_HEIGHT: usize = 144;
pub const SCREEN_PIXELS: usize = SCREEN_WIDTH * SCREEN_HEIGHT;
pub const VRAM_SIZE: usize = 0x2000;
pub const OAM_SIZE: usize = 0xA0;

/// T-cycles of each mode: a line lasts 456, of which OAM scan takes 80 and
/// drawing 172; a VBlank line lasts 456 too.
pub const ACCESS_OAM_CYCLES: u32 = 80;
pub const ACCESS_VRAM_CYCLES: u32 = 172;
pub const HBLANK_CYCLES: u32 = 204;
pub const LINE_CYCLES: u32 = 456;
/// 154 lines of 456 T-cycles.
pub const FRAME_CYCLES: u32 = 70224;

/// What the CPU reads where the PPU does not answer.
pub const UNDEFINED_READ: u8 = 0xFF;

pub open spec fn mode_cycles(m: PpuMode) -> u32 {
    match m {
        PpuMode::HBlank => HBLANK_CYCLES,
        PpuMode::VBlank => LINE_CYCLES,
        PpuMode::AccessOAM => ACCESS_OAM_CYCLES,
        PpuMode::AccessVRAM => ACCESS_VRAM_CYCLES,
    }
}

/// The T-cycle of a line at which a mode ends.
pub open spec fn mode_end(m: PpuMode) -> int {
    match m {
        PpuMode::AccessOAM => 80,
        PpuMode::AccessVRAM => 252,
        _ => 456,
    }
}

/// `new` keeps every bit of `old` and sets no bit outside `mask`.
pub open spec fn raised_within(old: u8, new: u8, mask: u8) -> bool {
    new & old == old && new | mask == old | mask
}

/// The state of the PPU, as the contracts see it.
pub struct PpuView {
    pub vram: Seq<u8>,
    pub oam: Seq<u8>,
    pub buffer: Seq<u8>,
    pub lcdc: u8,
    pub stat: u8,
    pub scy: u8,
    pub scx: u8,
    pub ly: u8,
    pub lyc: u8,
    pub dma: u8,
    pub bgp: u8,
    pub obp0: u8,
    pub obp1: u8,
    pub wy: u8,
    pub wx: u8,
    pub mode: PpuMode,
    pub clock: u32,
    pub updated: bool,
}

impl PpuView {
    pub open spec fn lcd_on(self) -> bool {
        self.lcdc & 0x80 != 0
    }

    /// The mode machine is consistent: lines 0-143 cycle through OAM scan,
    /// drawing and HBlank; lines 144-153 are VBlank; the countdown lies within
    /// the mode's length.
    pub open spec fn timing_wf(self) -> bool {
        &&& self.ly <= 153
        &&& (self.ly < 144 <==> self.mode != PpuMode::VBlank)
        &&& 0 < self.clock <= mode_cycles(self.mode)
    }

    /// STAT reports the mode in bits 0-1 and whether LY equals LYC in bit 2.
    pub open spec fn stat_shows(self) -> bool {
        &&& self.stat & 0x03 == mode_bits(self.mode)
        &&& (self.stat & 0x04 != 0) == (self.ly == self.lyc)
    }

    pub open spec fn wf(self) -> bool {
        &&& self.vram.len() == VRAM_SIZE
        &&& self.oam.len() == OAM_SIZE
        &&& self.buffer.len() == SCREEN_PIXELS
        &&& self.timing_wf()
        &&& self.lcd_on() ==> self.stat_shows()
    }

    /// How many T-cycles of the frame have passed, from the start of OAM
    /// scan on line 0.
    pub open spec fn frame_pos(self) -> int {
        self.ly as int * 456 + mode_end(self.mode) - self.clock as int
    }

    /// The CPU cannot reach VRAM while the PPU draws.
    pub open spec fn vram_blocked(self) -> bool {
        self.lcd_on() && self.mode == PpuMode::AccessVRAM
    }

    /// The CPU cannot reach OAM while the PPU scans or draws.
    pub open spec fn oam_blocked(self) -> bool {
        self.lcd_on() && (self.mode == PpuMode::AccessOAM || self.mode == PpuMode::AccessVRAM)
    }

    /// What a CPU read of `addr` returns.
    pub open spec fn read(self, addr: u16) -> u8 {
        if 0x8000 <= addr <= 0x9FFF {
            if self.vram_blocked() {
                UNDEFINED_READ
            } else {
                byte_or_open(self.vram, addr - 0x8000)
            }
        } else if 0xFE00 <= addr <= 0xFE9F {
            if self.oam_blocked() {
                UNDEFINED_READ
            } else {
                byte_or_open(self.oam, addr - 0xFE00)
            }
        } else if addr == 0xFF40 {
            self.lcdc
        } else if addr == 0xFF41 {
            self.stat | 0x80
        } else if addr == 0xFF42 {
            self.scy
        } else if addr == 0xFF43 {
            self.scx
        } else if addr == 0xFF44 {
            self.ly
        } else if addr == 0xFF45 {
            self.lyc
        } else if addr == 0xFF46 {
            self.dma
        } else if addr == 0xFF47 {
            self.bgp
        } else if addr == 0xFF48 {
            self.obp0
        } else if addr == 0xFF49 {
            self.obp1
        } else if addr == 0xFF4A {
            self.wy
        } else if addr == 0xFF4B {
            self.wx
        } else {
            UNDEFINED_READ
        }
    }

    /// The PPU after LCDC is written with `val`. Switching the LCD on or off
    /// restarts the frame: line 0, OAM scan.
    pub open spec fn write_lcdc(self, val: u8) -> PpuView {
        if (self.lcdc & 0x80) != (val & 0x80) {
            PpuView {
                lcdc: val,
                ly: 0,
                mode: PpuMode::AccessOAM,
                clock: ACCESS_OAM_CYCLES,
                stat: stat_with(self.stat, if val & 0x80 != 0 { PpuMode::AccessOAM } else { PpuMode::HBlank }, 0, self.lyc),
                ..self
            }
        } else {
            PpuView { lcdc: val, ..self }
        }
    }

    /// The PPU after a CPU write of `val` to `addr`. LY is read-only, and
    /// writes to blocked VRAM or OAM are dropped.
    pub open spec fn write(self, addr: u16, val: u8) -> PpuView {
        if 0x8000 <= addr <= 0x9FFF {
            if self.vram_blocked() {
                self
            } else {
                PpuView { vram: self.vram.update(addr - 0x8000, val), ..self }
            }
        } else if 0xFE00 <= addr <= 0xFE9F {
            if self.oam_blocked() {
                self
            } else {
                PpuView { oam: self.oam.update(addr - 0xFE00, val), ..self }
            }
        } else if addr == 0xFF40 {
            self.write_lcdc(val)
        } else if addr == 0xFF41 {
            PpuView { stat: (self.stat & 0x07) | (val & 0x78), ..self }
        } else if addr == 0xFF42 {
            PpuView { scy: val, ..self }
        } else if addr == 0xFF43 {
            PpuView { scx: val, ..self }
        } else if addr == 0xFF45 {
            PpuView {
                lyc: val,
                stat: if self.lcd_on() { stat_with(self.stat, self.mode, self.ly, val) } else { self.stat },
                ..self
            }
        } else if addr == 0xFF46 {
            PpuView { dma: val, ..self }
        } else if addr == 0xFF47 {
            PpuView { bgp: val, ..self }
        } else if addr == 0xFF48 {
            PpuView { obp0: val, ..self }
        } else if addr == 0xFF49 {
            PpuView { obp1: val, ..self }
        } else if addr == 0xFF4A {
            PpuView { wy: val, ..self }
        } else if addr == 0xFF4B {
            PpuView { wx: val, ..self }
        } else {
            self
        }
    }
}

/// The picture processing unit: VRAM, OAM, the LCD registers, the mode
/// machine, and the frame it draws as one palette-mapped shade (0-3) per pixel.
pub struct Ppu {
    pub vram: Vec<u8>,
    pub oam: Vec<u8>,
    pub buffer: Vec<u8>,
    pub lcdc: Lcdc,
    pub stat: Stat,
    pub scy: u8,
    pub scx: u8,
    pub ly: u8,
    pub lyc: u8,
    pub dma: u8,
    pub bgp: u8,
    pub obp0: u8,
    pub obp1: u8,
    pub wy: u8,
    pub wx: u8,
    pub mode: PpuMode,
    /// T-cycles left in the current mode.
    pub clock: u32,
    /// A frame was completed since the flag was last taken.
    pub updated: bool,
}

impl View for Ppu {
    type V = PpuView;

    open spec fn view(&self) -> PpuView {
        PpuView {
            vram: self.vram@,
            oam: self.oam@,
            buffer: self.buffer@,
            lcdc: self.lcdc.data,
            stat: self.stat.data,
            scy: self.scy,
            scx: self.scx,
            ly: self.ly,
            lyc: self.lyc,
            dma: self.dma,
            bgp: self.bgp,
            obp0: self.obp0,
            obp1: self.obp1,
            wy: self.wy,
            wx: self.wx,
            mode: self.mode,
            clock: self.clock,
            updated: self.updated,
        }
    }
}

/// What drawing and timing leave alone: memory and the CPU-written registers.
pub open spec fn same_config(a: PpuView, b: PpuView) -> bool {
    &&& a.vram == b.vram
    &&& a.oam == b.oam
    &&& a.lcdc == b.lcdc
    &&& a.scy == b.scy
    &&& a.scx == b.scx
    &&& a.lyc == b.lyc
    &&& a.dma == b.dma
    &&& a.bgp == b.bgp
    &&& a.obp0 == b.obp0
    &&& a.obp1 == b.obp1
    &&& a.wy == b.wy
    &&& a.wx == b.wx
}

pub proof fn lemma_raised_refl(d: u8)
    ensures
        raised_within(d, d, 0x03),
{
    assert(d & d == d && d | 3u8 == d | 3u8) by (bit_vector);
}

pub proof fn lemma_raised_trans(a: u8, b: u8, c: u8)
    requires
        raised_within(a, b, 0x03),
        raised_within(b, c, 0x03),
    ensures
        raised_within(a, c, 0x03),
{
    assert(c & a == a && c | 3u8 == a | 3u8) by (bit_vector)
        requires
            b & a == a && b | 3u8 == a | 3u8,
            c & b == b && c | 3u8 == b | 3u8,
    ;
}

/// `after` is the PPU, and `if1` the Interrupt Flag register, once `ticks`
/// T-cycles have passed from `before` and `if0`.
pub open spec fn ppu_stepped(before: PpuView, after: PpuView, if0: u8, if1: u8, ticks: u32) -> bool {
    &&& same_config(after, before)
    &&& !before.lcd_on() ==> after == before && if1 == if0
    &&& before.lcd_on() ==> after.frame_pos() == (before.frame_pos() + ticks) % (FRAME_CYCLES as int)
    &&& before.lcd_on() ==> after.stat_shows()
    &&& before.lcd_on() ==> ((if1 & 0x01 != 0) == ((if0 & 0x01 != 0) || vblank_entered(before.frame_pos(), ticks as int)))
    &&& before.lcd_on() ==> after.updated == (before.updated || vblank_entered(before.frame_pos(), ticks as int))
    &&& raised_within(if0, if1, 0x03)
}

/// The frame position at which VBlank begins: line 144, 144 * 456.
pub const VBLANK_POS: u32 = 65664;

/// Moving `ticks` T-cycles on from frame position `pos` passes the start of
/// VBlank.
pub open spec fn vblank_entered(pos: int, ticks: int) -> bool {
    ticks >= if pos < VBLANK_POS { VBLANK_POS - pos } else { VBLANK_POS + FRAME_CYCLES - pos }
}

/// A step of `s` T-cycles within the current mode passes the start of
/// VBlank exactly when it ends HBlank of line 143.
proof fn lemma_vblank_step(v: PpuView, p0: int, c: int, s: int)
    requires
        v.timing_wf(),
        0 <= p0 < FRAME_CYCLES,
        0 <= c,
        v.frame_pos() == (p0 + c) % (FRAME_CYCLES as int),
        0 < s <= v.clock,
    ensures
        vblank_entered(p0, c + s) == (vblank_entered(p0, c) || (s == v.clock && v.mode == PpuMode::HBlank
            && v.ly == 143)),
{
    let f = FRAME_CYCLES as int;
    let m = VBLANK_POS as int;
    let d = if p0 < m { m - p0 } else { m + f - p0 };
    if c < d {
        let x = p0 + c;
        if x < f {
            vstd::arithmetic::div_mod::lemma_small_mod(x as nat, f as nat);
        } else {
            assert(x % f == x - f) by (nonlinear_arith)
                requires
                    f <= x < 2 * f,
                    f == 70224,
            ;
        }
    }
}

/// Where in the frame the current mode ends.
pub open spec fn end_pos(v: PpuView) -> int {
    v.ly as int * 456 + mode_end(v.mode)
}

/// Within a frame, the position fixes the line, the mode and the countdown.
pub proof fn lemma_frame_pos_unique(a: PpuView, b: PpuView)
    requires
        a.timing_wf(),
        b.timing_wf(),
        a.frame_pos() == b.frame_pos(),
    ensures
        a.ly == b.ly,
        a.mode == b.mode,
        a.clock == b.clock,
{
    let oa = mode_end(a.mode) - a.clock as int;
    let ob = mode_end(b.mode) - b.clock as int;
    assert(0 <= oa < 456 && 0 <= ob < 456);
    let la = a.ly as int;
    let lb = b.ly as int;
    assert(la == lb) by (nonlinear_arith)
        requires
            la * 456 + oa == lb * 456 + ob,
            0 <= oa < 456,
            0 <= ob < 456,
    ;
}

/// A running PPU takes a whole frame of 70224 T-cycles to come back to the
/// same line, mode and countdown; the frame starts with OAM scan on line 0.
pub proof fn lemma_frame_cycle(before: PpuView, after: PpuView)
    requires
        before.timing_wf(),
        after.timing_wf(),
        after.frame_pos() == (before.frame_pos() + FRAME_CYCLES) % (FRAME_CYCLES as int),
    ensures
        after.ly == before.ly,
        after.mode == before.mode,
        after.clock == before.clock,
        before.frame_pos() == 0 ==> before.ly == 0 && before.mode == PpuMode::AccessOAM
            && before.clock == ACCESS_OAM_CYCLES,
{
    assert(0 <= before.frame_pos() < FRAME_CYCLES);
    assert((before.frame_pos() + FRAME_CYCLES) % (FRAME_CYCLES as int) == before.frame_pos());
    lemma_frame_pos_unique(before, after);
    if before.frame_pos() == 0 {
        let start = PpuView { ly: 0, mode: PpuMode::AccessOAM, clock: ACCESS_OAM_CYCLES, ..before };
        lemma_frame_pos_unique(before, start);
    }
}

impl Ppu {
    /// A PPU at power-up: LCD off, memory and registers zero, the mode machine
    /// at the start of a frame.
    pub fn new() -> (r: Ppu)
        ensures
            r@.wf(),
            r@.vram == Seq::new(VRAM_SIZE as nat, |i: int| 0u8),
            r@.oam == Seq::new(OAM_SIZE as nat, |i: int| 0u8),
            r@.lcdc == 0 && r@.stat == 0 && r@.ly == 0 && r@.lyc == 0,
            r@.scy == 0 && r@.scx == 0 && r@.wy == 0 && r@.wx == 0,
            r@.bgp == 0 && r@.obp0 == 0 && r@.obp1 == 0 && r@.dma == 0,
            r@.mode == PpuMode::AccessOAM && r@.clock == ACCESS_OAM_CYCLES,
            !r@.updated,
    {
        assert(0u8 & 0x80u8 == 0) by (bit_vector);
        Ppu {
            vram: zeroed(VRAM_SIZE),
            oam: zeroed(OAM_SIZE),
            buffer: zeroed(SCREEN_PIXELS),
            lcdc: Lcdc::new(),
            stat: Stat::new(),
            scy: 0,
            scx: 0,
            ly: 0,
            lyc: 0,
            dma: 0,
            bgp: 0,
            obp0: 0,
            obp1: 0,
            wy: 0,
            wx: 0,
            mode: PpuMode::AccessOAM,
            clock: ACCESS_OAM_CYCLES,
            updated: false,
        }
    }

    fn vram_blocked(&self) -> (r: bool)
        ensures
            r == self@.vram_blocked(),
    {
        self.lcdc.lcd_display_enable() && self.mode == PpuMode::AccessVRAM
    }

    fn oam_blocked(&self) -> (r: bool)
        ensures
            r == self@.oam_blocked(),
    {
        self.lcdc.lcd_display_enable() && (self.mode == PpuMode::AccessOAM || self.mode
            == PpuMode::AccessVRAM)
    }

    pub fn read8(&self, addr: u16) -> (r: u8)
        ensures
            r == self@.read(addr),
    {
        if 0x8000 <= addr && addr <= 0x9FFF {
            if self.vram_blocked() {
                UNDEFINED_READ
            } else {
                read_or_open(&self.vram, (addr - 0x8000) as usize)
            }
        } else if 0xFE00 <= addr && addr <= 0xFE9F {
            if self.oam_blocked() {
                UNDEFINED_READ
            } else {
                read_or_open(&self.oam, (addr - 0xFE00) as usize)
            }
        } else if addr == 0xFF40 {
            self.lcdc.data
        } else if addr == 0xFF41 {
            self.stat.data | 0x80
        } else if addr == 0xFF42 {
            self.scy
        } else if addr == 0xFF43 {
            self.scx
        } else if addr == 0xFF44 {
            self.ly
        } else if addr == 0xFF45 {
            self.lyc
        } else if addr == 0xFF46 {
            self.dma
        } else if addr == 0xFF47 {
            self.bgp
        } else if addr == 0xFF48 {
            self.obp0
        } else if addr == 0xFF49 {
            self.obp1
        } else if addr == 0xFF4A {
            self.wy
        } else if addr == 0xFF4B {
            self.wx
        } else {
            UNDEFINED_READ
        }
    }

    pub fn write8(&mut self, addr: u16, val: u8)
        requires
            old(self)@.wf(),
        ensures
            final(self)@ == old(self)@.write(addr, val),
            final(self)@.wf(),
    {
        if 0x8000 <= addr && addr <= 0x9FFF {
            if !self.vram_blocked() {
                self.vram.set((addr - 0x8000) as usize, val);
            }
        } else if 0xFE00 <= addr && addr <= 0xFE9F {
            if !self.oam_blocked() {
                self.oam.set((addr - 0xFE00) as usize, val);
            }
        } else if addr == 0xFF40 {
            let was_on = self.lcdc.lcd_display_enable();
            self.lcdc.set(val);
            let is_on = self.lcdc.lcd_display_enable();
            if was_on != is_on {
                self.ly = 0;
                self.mode = PpuMode::AccessOAM;
                self.clock = ACCESS_OAM_CYCLES;
                let shown = if is_on { PpuMode::AccessOAM } else { PpuMode::HBlank };
                self.stat.update(shown, 0, self.lyc);
            }
            proof {
                let o = old(self).lcdc.data;
                assert(((o & 0x80) != (val & 0x80)) == ((o & 0x80 != 0) != (val & 0x80 != 0))) by (bit_vector);
            }
        } else if addr == 0xFF41 {
            self.stat.set(val);
        } else if addr == 0xFF42 {
            self.scy = val;
        } else if addr == 0xFF43 {
            self.scx = val;
        } else if addr == 0xFF45 {
            self.lyc = val;
            if self.lcdc.lcd_display_enable() {
                self.stat.update(self.mode, self.ly, self.lyc);
            }
        } else if addr == 0xFF46 {
            self.dma = val;
        } else if addr == 0xFF47 {
            self.bgp = val;
        } else if addr == 0xFF48 {
            self.obp0 = val;
        } else if addr == 0xFF49 {
            self.obp1 = val;
        } else if addr == 0xFF4A {
            self.wy = val;
        } else if addr == 0xFF4B {
            self.wx = val;
        }
    }

    /// Read a little-endian word.
    pub fn read16(&self, addr: u16) -> (r: u16)
        ensures
            r == word(self@.read(addr.wrapping_add(1)), self@.read(addr)),
    {
        let lo = self.read8(addr);
        let hi = self.read8(addr.wrapping_add(1));
        proof {
            lemma_word_join(hi, lo);
        }
        ((hi as u16) << 8) | (lo as u16)
    }

    /// Write a little-endian word, low byte first.
    pub fn write16(&mut self, addr: u16, val: u16)
        requires
            old(self)@.wf(),
        ensures
            final(self)@ == old(self)@.write(addr, lo_byte(val)).write(addr.wrapping_add(1), hi_byte(val)),
            final(self)@.wf(),
    {
        proof {
            lemma_word_split(val);
        }
        self.write8(addr, val as u8);
        self.write8(addr.wrapping_add(1), (val >> 8) as u8);
    }

    /// Request LCD-STAT.
    fn raise_stat(if_: &mut InterruptFlags)
        ensures
            raised_within(old(if_).data, final(if_).data, 0x03),
            final(if_).data & 0x01 == old(if_).data & 0x01,
    {
        if_.set(Flags::LCDStat);
        proof {
            let d = old(if_).data;
            assert((d | 2u8) & d == d && (d | 2u8) | 3u8 == d | 3u8 && (d | 2u8) & 1u8 == d & 1u8) by (bit_vector);
        }
    }

    /// After LY changes: report the comparison, and request LCD-STAT if LY
    /// equals LYC and that source is enabled.
    fn compare_ly(&mut self, if_: &mut InterruptFlags)
        ensures
            final(self)@ == (PpuView { stat: stat_with(old(self).stat.data, old(self).mode, old(self).ly, old(self).lyc), ..old(self)@ }),
            final(self)@.stat_shows(),
            raised_within(old(if_).data, final(if_).data, 0x03),
            final(if_).data & 0x01 == old(if_).data & 0x01,
    {
        proof {
            lemma_raised_refl(if_.data);
        }
        self.stat.update(self.mode, self.ly, self.lyc);
        if self.ly == self.lyc && self.stat.lyc_ly_stat_interrupt_enable() {
            Ppu::raise_stat(if_);
        }
    }

    /// The current mode has run out: enter the next one. Leaving drawing
    /// draws the line; entering VBlank requests VBlank and marks the frame
    /// complete; entering a mode whose STAT source is enabled requests LCD-STAT.
    fn next_mode(&mut self, if_: &mut InterruptFlags)
        requires
            old(self)@.vram.len() == VRAM_SIZE,
            old(self)@.oam.len() == OAM_SIZE,
            old(self)@.buffer.len() == SCREEN_PIXELS,
            old(self)@.ly <= 153,
            old(self)@.ly < 144 <==> old(self)@.mode != PpuMode::VBlank,
            old(self)@.clock == 0,
        ensures
            final(self)@.wf(),
            same_config(final(self)@, old(self)@),
            final(self)@.frame_pos() == end_pos(old(self)@) % (FRAME_CYCLES as int),
            raised_within(old(if_).data, final(if_).data, 0x03),
            (final(if_).data & 0x01 != 0) == ((old(if_).data & 0x01 != 0) || (old(self).mode == PpuMode::HBlank
                && old(self).ly == 143)),
            final(self).updated == (old(self).updated || (old(self).mode == PpuMode::HBlank && old(self).ly
                == 143)),
    {
        let ghost if0 = if_.data;
        proof {
            lemma_raised_refl(if0);
        }
        match self.mode {
            PpuMode::AccessOAM => {
                self.mode = PpuMode::AccessVRAM;
                self.clock = ACCESS_VRAM_CYCLES;
                self.stat.update(self.mode, self.ly, self.lyc);
            },
            PpuMode::AccessVRAM => {
                self.mode = PpuMode::HBlank;
                self.clock = HBLANK_CYCLES;
                self.render_line();
                self.stat.update(self.mode, self.ly, self.lyc);
                if self.stat.mode_0_stat_interrupt_enable() {
                    Ppu::raise_stat(if_);
                }
            },
            PpuMode::HBlank => {
                self.ly = self.ly + 1;
                if self.ly == 144 {
                    self.mode = PpuMode::VBlank;
                    self.clock = LINE_CYCLES;
                    self.updated = true;
                    if_.set(Flags::VBlank);
                    proof {
                        assert((if0 | 1u8) & if0 == if0 && (if0 | 1u8) | 3u8 == if0 | 3u8 && (if0 | 1u8) & 1u8 == 1u8) by (bit_vector);
                    }
                    self.stat.update(self.mode, self.ly, self.lyc);
                    if self.stat.mode_1_stat_interrupt_enable() {
                        let ghost mid = if_.data;
                        Ppu::raise_stat(if_);
                        proof {
                            lemma_raised_trans(if0, mid, if_.data);
                        }
                    }
                } else {
                    self.mode = PpuMode::AccessOAM;
                    self.clock = ACCESS_OAM_CYCLES;
                    self.stat.update(self.mode, self.ly, self.lyc);
                    if self.stat.mode_2_stat_interrupt_enable() {
                        Ppu::raise_stat(if_);
                    }
                }
                let ghost mid = if_.data;
                self.compare_ly(if_);
                proof {
                    lemma_raised_trans(if0, mid, if_.data);
                }
            },
            PpuMode::VBlank => {
                if self.ly == 153 {
                    self.ly = 0;
                    self.mode = PpuMode::AccessOAM;
                    self.clock = ACCESS_OAM_CYCLES;
                    self.stat.update(self.mode, self.ly, self.lyc);
                    if self.stat.mode_2_stat_interrupt_enable() {
                        Ppu::raise_stat(if_);
                    }
                } else {
                    self.ly = self.ly + 1;
                    self.clock = LINE_CYCLES;
                }
                let ghost mid = if_.data;
                self.compare_ly(if_);
                proof {
                    lemma_raised_trans(if0, mid, if_.data);
                }
            },
        }
    }

    /// Advance the PPU by `ticks` T-cycles. With the LCD off nothing happens.
    /// With it on, the mode machine moves `ticks` further through the frame,
    /// drawing lines and requesting VBlank and LCD-STAT as it goes. The PPU
    /// never stalls the CPU, so it adds no cycles: the result is 0.
    pub fn cycle(&mut self, ticks: u32, if_: &mut InterruptFlags) -> (r: u32)
        requires
            old(self)@.wf(),
        ensures
            r == 0,
            final(self)@.wf(),
            ppu_stepped(old(self)@, final(self)@, old(if_).data, final(if_).data, ticks),
    {
        proof {
            lemma_raised_refl(if_.data);
        }
        if !self.lcdc.lcd_display_enable() {
            return 0;
        }
        let ghost pos0 = self@.frame_pos();
        let ghost if0 = if_.data;
        proof {
            assert(!vblank_entered(pos0, 0));
        }
        let mut remaining = ticks;
        while remaining > 0
            invariant
                remaining <= ticks,
                self@.wf(),
                same_config(self@, old(self)@),
                self@.frame_pos() == (pos0 + (ticks - remaining)) % (FRAME_CYCLES as int),
                raised_within(if0, if_.data, 0x03),
                0 <= pos0 < FRAME_CYCLES,
                (if_.data & 0x01 != 0) == ((if0 & 0x01 != 0) || vblank_entered(pos0, (ticks - remaining) as int)),
                self.updated == (old(self).updated || vblank_entered(pos0, (ticks - remaining) as int)),
                self@.lcd_on(),
            decreases remaining,
        {
            proof {
                let s = if remaining < self.clock { remaining } else { self.clock };
                lemma_vblank_step(self@, pos0, ticks - remaining, s as int);
            }
            if remaining < self.clock {
                self.clock = self.clock - remaining;
                remaining = 0;
            } else {
                let ghost p = self@.frame_pos();
                let c = self.clock;
                remaining = remaining - c;
                self.clock = 0;
                let ghost mid = if_.data;
                self.next_mode(if_);
                proof {
                    lemma_raised_trans(if0, mid, if_.data);
                    vstd::arithmetic::div_mod::lemma_add_mod_noop(pos0 + (ticks - remaining - c), c as int, FRAME_CYCLES as int);
                    vstd::arithmetic::div_mod::lemma_small_mod(c as nat, FRAME_CYCLES as nat);
                }
            }
        }
        0
    }
}

} // verus!
