use vstd::prelude::*;
use crate::cartridge::{Cartridge, CartridgeView};
use crate::cpu::interrupts::InterruptFlags;
use crate::cpu::registers::{hi_byte, lemma_word_join, lemma_word_split, lo_byte, word};
use crate::ppu::{ppu_stepped, Ppu, PpuView};
use crate::timer::{timer_stepped, Timer};

verus! {

pub const WRAM_BANK_SIZE: usize = 0x1000;
pub const IO_SIZE: usize = 0x80;
pub const HRAM_SIZE: usize = 0x7F;
/// The I/O register whose non-zero value unmaps the boot ROM.
pub const BOOT_OFF: usize = 0x50;
/// What the prohibited range FEA0-FEFF reads as.
pub const PROHIBITED_READ: u8 = 0x00;

/// The whole address space, as the contracts see it.
pub struct MmuView {
    pub cart: CartridgeView,
    pub timer: Timer,
    pub ppu: PpuView,
    pub wram0: Seq<u8>,
    pub wramx: Seq<u8>,
    pub io: Seq<u8>,
    pub if_: u8,
    pub hram: Seq<u8>,
    pub ie: u8,
    pub boot_rom: Seq<u8>,
    pub serial: Seq<u8>,
}

/// Addresses whose byte is plain storage: work RAM and its echo, high RAM,
/// and IE.
pub open spec fn is_plain_ram(addr: u16) -> bool {
    (0xC000 <= addr <= 0xFDFF) || (0xFF80 <= addr)
}

impl MmuView {
    pub open spec fn wf(self) -> bool {
        &&& self.cart.wf()
        &&& self.timer.wf()
        &&& self.ppu.wf()
        &&& self.wram0.len() == WRAM_BANK_SIZE
        &&& self.wramx.len() == WRAM_BANK_SIZE
        &&& self.io.len() == IO_SIZE
        &&& self.hram.len() == HRAM_SIZE
    }

    /// The boot ROM answers at 0000-00FF until FF50 is written non-zero.
    pub open spec fn boot_mapped(self, addr: u16) -> bool {
        addr <= 0xFF && self.io[BOOT_OFF as int] == 0 && addr < self.boot_rom.len()
    }

    /// What a read of `addr` returns.
    pub open spec fn read(self, addr: u16) -> u8 {
        if self.boot_mapped(addr) {
            self.boot_rom[addr as int]
        } else if addr <= 0x7FFF || (0xA000 <= addr <= 0xBFFF) {
            self.cart.read(addr)
        } else if addr <= 0x9FFF || (0xFE00 <= addr <= 0xFE9F) || (0xFF40 <= addr <= 0xFF4B) {
            self.ppu.read(addr)
        } else if (0xC000 <= addr <= 0xCFFF) || (0xE000 <= addr <= 0xEFFF) {
            self.wram0[addr as int % 0x1000]
        } else if addr <= 0xFDFF {
            self.wramx[addr as int % 0x1000]
        } else if addr <= 0xFEFF {
            PROHIBITED_READ
        } else if addr == 0xFF0F {
            self.if_
        } else if 0xFF04 <= addr <= 0xFF07 {
            self.timer.reg(addr)
        } else if addr <= 0xFF7F {
            self.io[addr - 0xFF00]
        } else if addr <= 0xFFFE {
            self.hram[addr - 0xFF80]
        } else {
            self.ie
        }
    }

    /// The address space after a write of `val` to `addr`. ROM and the
    /// prohibited range ignore writes; writing 0x81 to FF02 sends the byte
    /// in FF01 out of the serial port.
    pub open spec fn write(self, addr: u16, val: u8) -> MmuView {
        if addr <= 0x7FFF || (0xA000 <= addr <= 0xBFFF) {
            MmuView { cart: self.cart.write(addr, val), ..self }
        } else if addr <= 0x9FFF || (0xFE00 <= addr <= 0xFE9F) || (0xFF40 <= addr <= 0xFF4B) {
            MmuView { ppu: self.ppu.write(addr, val), ..self }
        } else if (0xC000 <= addr <= 0xCFFF) || (0xE000 <= addr <= 0xEFFF) {
            MmuView { wram0: self.wram0.update(addr as int % 0x1000, val), ..self }
        } else if addr <= 0xFDFF {
            MmuView { wramx: self.wramx.update(addr as int % 0x1000, val), ..self }
        } else if addr <= 0xFEFF {
            self
        } else if addr == 0xFF0F {
            MmuView { if_: val, ..self }
        } else if 0xFF04 <= addr <= 0xFF07 {
            MmuView { timer: self.timer.write_spec(addr, val), ..self }
        } else if addr == 0xFF02 && val == 0x81 {
            MmuView { io: self.io.update(2, val), serial: self.serial.push(self.io[1]), ..self }
        } else if addr <= 0xFF7F {
            MmuView { io: self.io.update(addr - 0xFF00, val), ..self }
        } else if addr <= 0xFFFE {
            MmuView { hram: self.hram.update(addr - 0xFF80, val), ..self }
        } else {
            MmuView { ie: val, ..self }
        }
    }

    /// A little-endian word: the low byte at `addr`, the high byte after it.
    pub open spec fn read16(self, addr: u16) -> u16 {
        word(self.read(addr.wrapping_add(1)), self.read(addr))
    }

    /// Two byte writes, low byte first.
    pub open spec fn write16(self, addr: u16, val: u16) -> MmuView {
        self.write(addr, lo_byte(val)).write(addr.wrapping_add(1), hi_byte(val))
    }
}

/// `after` is the address space once `ticks` T-cycles have passed for the
/// timer and then the PPU; memory, registers outside them and the serial
/// output stay as they were.
pub open spec fn mmu_stepped(before: MmuView, after: MmuView, ticks: u32) -> bool {
    &&& after.cart == before.cart
    &&& after.wram0 == before.wram0
    &&& after.wramx == before.wramx
    &&& after.io == before.io
    &&& after.hram == before.hram
    &&& after.ie == before.ie
    &&& after.boot_rom == before.boot_rom
    &&& after.serial == before.serial
    &&& exists|if_mid: u8|
        timer_stepped(before.timer, after.timer, before.if_, if_mid, ticks) && #[trigger] ppu_stepped(
            before.ppu,
            after.ppu,
            if_mid,
            after.if_,
            ticks,
        )
}

/// Relies on rand's `random::<u8>`: a byte from the thread's generator; nothing
/// is known of its value.
#[verifier::external_body]
fn random_byte() -> u8 {
    rand::random::<u8>()
}

/// `n` bytes of noise, as RAM holds at power-up.
fn noise(n: usize) -> (r: Vec<u8>)
    ensures
        r@.len() == n,
{
    let mut v: Vec<u8> = Vec::new();
    while v.len() < n
        invariant
            v.len() <= n,
        decreases n - v.len(),
    {
        v.push(random_byte());
    }
    v
}

/// The memory map: it routes each address to the cartridge, the PPU, the
/// timer, work and high RAM, or the I/O registers.
pub struct Mmu {
    pub cartridge: Cartridge,
    pub timer: Timer,
    pub ppu: Ppu,
    pub wram0: Vec<u8>,
    pub wramx: Vec<u8>,
    pub io: Vec<u8>,
    pub if_: InterruptFlags,
    pub hram: Vec<u8>,
    pub ie: u8,
    pub boot_rom: Vec<u8>,
    /// Bytes sent out of the serial port and not yet taken.
    pub serial: Vec<u8>,
}

impl View for Mmu {
    type V = MmuView;

    open spec fn view(&self) -> MmuView {
        MmuView {
            cart: self.cartridge@,
            timer: self.timer,
            ppu: self.ppu@,
            wram0: self.wram0@,
            wramx: self.wramx@,
            io: self.io@,
            if_: self.if_.data,
            hram: self.hram@,
            ie: self.ie,
            boot_rom: self.boot_rom@,
            serial: self.serial@,
        }
    }
}

impl Mmu {
    /// The memory map around a cartridge. Work and high RAM start as noise.
    /// Without a boot ROM the registers start as the boot ROM leaves them:
    /// the boot ROM unmapped, the LCD on (LCDC 0x91) and BGP 0xFC.
    pub fn new(cartridge: Cartridge, boot_rom: Vec<u8>) -> (r: Mmu)
        requires
            cartridge@.wf(),
        ensures
            r@.wf(),
            r@.cart == cartridge@,
            r@.boot_rom == boot_rom@,
            r@.if_ == 0 && r@.ie == 0,
            r@.serial == Seq::<u8>::empty(),
            boot_rom@.len() == 0 ==> r@.io[BOOT_OFF as int] == 1 && r@.ppu.lcdc == 0x91 && r@.ppu.bgp == 0xFC,
            boot_rom@.len() > 0 ==> r@.io[BOOT_OFF as int] == 0 && r@.ppu.lcdc == 0,
            r@.ppu.ly == 0,
    {
        let mut io = crate::memory::zeroed(IO_SIZE);
        let mut ppu = Ppu::new();
        if boot_rom.len() == 0 {
            io.set(BOOT_OFF, 1);
            ppu.write8(0xFF40, 0x91);
            ppu.write8(0xFF47, 0xFC);
        }
        Mmu {
            cartridge,
            timer: Timer::new(),
            ppu,
            wram0: noise(WRAM_BANK_SIZE),
            wramx: noise(WRAM_BANK_SIZE),
            io,
            if_: InterruptFlags::new(),
            hram: noise(HRAM_SIZE),
            ie: 0,
            boot_rom,
            serial: Vec::new(),
        }
    }

    /// Read a byte.
    pub fn read8(&self, addr: u16) -> (r: u8)
        requires
            self@.wf(),
        ensures
            r == self@.read(addr),
    {
        if addr <= 0xFF && self.io[BOOT_OFF] == 0 && (addr as usize) < self.boot_rom.len() {
            self.boot_rom[addr as usize]
        } else if addr <= 0x7FFF || (0xA000 <= addr && addr <= 0xBFFF) {
            self.cartridge.read8(addr)
        } else if addr <= 0x9FFF || (0xFE00 <= addr && addr <= 0xFE9F) || (0xFF40 <= addr && addr <= 0xFF4B) {
            self.ppu.read8(addr)
        } else if (0xC000 <= addr && addr <= 0xCFFF) || (0xE000 <= addr && addr <= 0xEFFF) {
            self.wram0[(addr % 0x1000) as usize]
        } else if addr <= 0xFDFF {
            self.wramx[(addr % 0x1000) as usize]
        } else if addr <= 0xFEFF {
            PROHIBITED_READ
        } else if addr == 0xFF0F {
            self.if_.data
        } else if 0xFF04 <= addr && addr <= 0xFF07 {
            self.timer.get(addr)
        } else if addr <= 0xFF7F {
            self.io[(addr - 0xFF00) as usize]
        } else if addr <= 0xFFFE {
            self.hram[(addr - 0xFF80) as usize]
        } else {
            self.ie
        }
    }

    /// Write a byte.
    pub fn write8(&mut self, addr: u16, val: u8)
        requires
            old(self)@.wf(),
        ensures
            final(self)@ == old(self)@.write(addr, val),
            final(self)@.wf(),
    {
        if addr <= 0x7FFF || (0xA000 <= addr && addr <= 0xBFFF) {
            self.cartridge.write8(addr, val);
        } else if addr <= 0x9FFF || (0xFE00 <= addr && addr <= 0xFE9F) || (0xFF40 <= addr && addr <= 0xFF4B) {
            self.ppu.write8(addr, val);
        } else if (0xC000 <= addr && addr <= 0xCFFF) || (0xE000 <= addr && addr <= 0xEFFF) {
            self.wram0.set((addr % 0x1000) as usize, val);
        } else if addr <= 0xFDFF {
            self.wramx.set((addr % 0x1000) as usize, val);
        } else if addr <= 0xFEFF {
        } else if addr == 0xFF0F {
            self.if_.data = val;
        } else if 0xFF04 <= addr && addr <= 0xFF07 {
            self.timer.set(addr, val);
        } else if addr == 0xFF02 && val == 0x81 {
            let out = self.io[1];
            self.io.set(2, val);
            self.serial.push(out);
        } else if addr <= 0xFF7F {
            self.io.set((addr - 0xFF00) as usize, val);
        } else if addr <= 0xFFFE {
            self.hram.set((addr - 0xFF80) as usize, val);
        } else {
            self.ie = val;
        }
    }

    /// Read a little-endian word.
    pub fn read16(&self, addr: u16) -> (r: u16)
        requires
            self@.wf(),
        ensures
            r == self@.read16(addr),
    {
        let lo = self.read8(addr);
        let hi = self.read8(addr.wrapping_add(1));
        proof {
            lemma_word_join(hi, lo);
        }
        ((hi as u16) << 8) | (lo as u16)
    }

    /// Write a little-endian word, low byte first.
    pub fn write16(&mut self, addr: u16, val: u16)
        requires
            old(self)@.wf(),
        ensures
            final(self)@ == old(self)@.write16(addr, val),
            final(self)@.wf(),
    {
        proof {
            lemma_word_split(val);
        }
        self.write8(addr, val as u8);
        self.write8(addr.wrapping_add(1), (val >> 8) as u8);
    }

    /// Let `ticks` T-cycles pass for the timer and the PPU. Returns the
    /// cycles consumed: the PPU adds none.
    pub fn cycle(&mut self, ticks: u32) -> (r: u32)
        requires
            old(self)@.wf(),
        ensures
            final(self)@.wf(),
            r == ticks,
            mmu_stepped(old(self)@, final(self)@, ticks),
    {
        let ghost if0 = self.if_.data;
        self.timer.cycle(ticks, &mut self.if_);
        let ghost if1 = self.if_.data;
        let gpu_ticks = self.ppu.cycle(ticks, &mut self.if_);
        proof {
            assert(timer_stepped(old(self)@.timer, self@.timer, if0, if1, ticks));
            assert(ppu_stepped(old(self)@.ppu, self@.ppu, if1, self.if_.data, ticks));
            assert(self@.cart == old(self)@.cart);
            assert(self@.io == old(self)@.io);
            assert(self@.if_ == self.if_.data);
        }
        ticks + gpu_ticks
    }

    /// The game title from the cartridge header.
    pub fn rom_title(&self) -> (r: String)
        ensures
            r@ == self@.cart.title(),
    {
        self.cartridge.title()
    }

    /// Whether a frame was completed since the last call; the flag is taken.
    pub fn ppu_updated(&mut self) -> (r: bool)
        ensures
            r == old(self)@.ppu.updated,
            final(self)@ == (MmuView { ppu: PpuView { updated: false, ..old(self)@.ppu }, ..old(self)@ }),
    {
        let r = self.ppu.updated;
        self.ppu.updated = false;
        r
    }

    /// The frame buffer: 160x144 shades (0-3), row by row.
    pub fn ppu_get_buffer(&self) -> (r: &Vec<u8>)
        ensures
            r@ == self@.ppu.buffer,
    {
        &self.ppu.buffer
    }

    /// The bytes sent out of the serial port since the last call.
    pub fn take_serial(&mut self) -> (r: Vec<u8>)
        ensures
            r@ == old(self)@.serial,
            final(self)@ == (MmuView { serial: Seq::<u8>::empty(), ..old(self)@ }),
    {
        let mut out: Vec<u8> = Vec::new();
        std::mem::swap(&mut out, &mut self.serial);
        out
    }
}

/// A word written to plain RAM reads back unchanged, and it is stored as two
/// bytes, the low one at `addr` and the high one after it.
pub proof fn lemma_write16_read16(m: MmuView, addr: u16, val: u16)
    requires
        m.wf(),
        is_plain_ram(addr),
        is_plain_ram(addr.wrapping_add(1)),
    ensures
        m.write16(addr, val).read16(addr) == val,
        m.write16(addr, val) == m.write(addr, lo_byte(val)).write(addr.wrapping_add(1), hi_byte(val)),
        m.write16(addr, val).read(addr) == lo_byte(val),
        m.write16(addr, val).read(addr.wrapping_add(1)) == hi_byte(val),
{
    let a1 = addr.wrapping_add(1);
    let m1 = m.write(addr, lo_byte(val));
    let m2 = m1.write(a1, hi_byte(val));
    assert(a1 == (addr + 1) % 0x10000);
    assert(!m.boot_mapped(addr) && !m1.boot_mapped(a1) && !m2.boot_mapped(addr) && !m2.boot_mapped(a1));
    assert(m2.read(a1) == hi_byte(val));
    assert(m1.read(addr) == lo_byte(val));
    assert(m2.read(addr) == lo_byte(val));
    crate::cpu::registers::lemma_word_split(val);
}

} // verus!
