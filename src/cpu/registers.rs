use vstd::prelude::*;

verus! {

/// A byte made of a high byte and a low byte, as the CPU pairs its registers.
pub open spec fn word(hi: u8, lo: u8) -> u16 {
    (hi as int * 256 + lo as int) as u16
}

/// The high byte of a word.
pub open spec fn hi_byte(w: u16) -> u8 {
    (w as int / 256) as u8
}

/// The low byte of a word.
pub open spec fn lo_byte(w: u16) -> u8 {
    (w as int % 256) as u8
}

/// The flags register: Zero in bit 7, Subtract in bit 6, Half-Carry in bit 5,
/// Carry in bit 4, and the low nibble always zero.
pub open spec fn flags_byte(z: bool, n: bool, h: bool, c: bool) -> u8 {
    ((if z { 0x80int } else { 0 }) + (if n { 0x40int } else { 0 }) + (if h { 0x20int } else { 0 })
        + (if c { 0x10int } else { 0 })) as u8
}

pub proof fn lemma_word_split(w: u16)
    ensures
        word(hi_byte(w), lo_byte(w)) == w,
        (w >> 8u16) as u8 == hi_byte(w),
        w as u8 == lo_byte(w),
{
    assert((w >> 8u16) == w / 256) by (bit_vector);
    assert(w as u8 == w % 256) by (bit_vector);
}

pub proof fn lemma_word_join(hi: u8, lo: u8)
    ensures
        ((hi as u16) << 8u16) | (lo as u16) == word(hi, lo),
        hi_byte(word(hi, lo)) == hi,
        lo_byte(word(hi, lo)) == lo,
{
    assert(((hi as u16) << 8u16) | (lo as u16) == hi as u16 * 256 + lo as u16) by (bit_vector);
}

/// An 8-bit register of the CPU.
#[derive(PartialEq, Eq, Structural, Clone, Copy, Debug)]
pub enum Reg8 {
    A,
    B,
    C,
    D,
    E,
    F,
    H,
    L,
}

/// A 16-bit register, or a pair of 8-bit registers read as one word.
#[derive(PartialEq, Eq, Structural, Clone, Copy, Debug)]
pub enum Reg16 {
    AF,
    BC,
    DE,
    HL,
    SP,
    PC,
}

/// The CPU registers. The flags register F is held as its four flags, so its
/// low nibble reads as zero whatever was written to it.
pub struct Registers {
    pub a: u8,
    pub b: u8,
    pub c: u8,
    pub d: u8,
    pub e: u8,
    pub h: u8,
    pub l: u8,
    pub zf: bool,
    pub nf: bool,
    pub hf: bool,
    pub cf: bool,
    pub sp: u16,
    pub pc: u16,
}

impl Registers {
    pub open spec fn f(self) -> u8 {
        flags_byte(self.zf, self.nf, self.hf, self.cf)
    }

    /// The value of an 8-bit register.
    pub open spec fn get8(self, r: Reg8) -> u8 {
        match r {
            Reg8::A => self.a,
            Reg8::B => self.b,
            Reg8::C => self.c,
            Reg8::D => self.d,
            Reg8::E => self.e,
            Reg8::F => self.f(),
            Reg8::H => self.h,
            Reg8::L => self.l,
        }
    }

    /// The value of a 16-bit register; pairs are big-endian (B high, C low).
    pub open spec fn get16(self, r: Reg16) -> u16 {
        match r {
            Reg16::AF => word(self.a, self.f()),
            Reg16::BC => word(self.b, self.c),
            Reg16::DE => word(self.d, self.e),
            Reg16::HL => word(self.h, self.l),
            Reg16::SP => self.sp,
            Reg16::PC => self.pc,
        }
    }

    /// The registers with the flags set from the top nibble of `v`.
    pub open spec fn with_f(self, v: u8) -> Registers {
        Registers {
            zf: v & 0x80 != 0,
            nf: v & 0x40 != 0,
            hf: v & 0x20 != 0,
            cf: v & 0x10 != 0,
            ..self
        }
    }

    /// The registers after writing `v` to the 8-bit register `r`.
    pub open spec fn set8(self, r: Reg8, v: u8) -> Registers {
        match r {
            Reg8::A => Registers { a: v, ..self },
            Reg8::B => Registers { b: v, ..self },
            Reg8::C => Registers { c: v, ..self },
            Reg8::D => Registers { d: v, ..self },
            Reg8::E => Registers { e: v, ..self },
            Reg8::F => self.with_f(v),
            Reg8::H => Registers { h: v, ..self },
            Reg8::L => Registers { l: v, ..self },
        }
    }

    /// The registers after writing `v` to the 16-bit register `r`.
    pub open spec fn set16(self, r: Reg16, v: u16) -> Registers {
        match r {
            Reg16::AF => Registers { a: hi_byte(v), ..self }.with_f(lo_byte(v)),
            Reg16::BC => Registers { b: hi_byte(v), c: lo_byte(v), ..self },
            Reg16::DE => Registers { d: hi_byte(v), e: lo_byte(v), ..self },
            Reg16::HL => Registers { h: hi_byte(v), l: lo_byte(v), ..self },
            Reg16::SP => Registers { sp: v, ..self },
            Reg16::PC => Registers { pc: v, ..self },
        }
    }

    /// All registers zero.
    pub open spec fn new_spec() -> Registers {
        Registers {
            a: 0,
            b: 0,
            c: 0,
            d: 0,
            e: 0,
            h: 0,
            l: 0,
            zf: false,
            nf: false,
            hf: false,
            cf: false,
            sp: 0,
            pc: 0,
        }
    }

    /// The registers as the DMG boot ROM leaves them.
    pub open spec fn post_boot() -> Registers {
        Registers {
            a: 0x01,
            b: 0x00,
            c: 0x13,
            d: 0x00,
            e: 0xD8,
            h: 0x01,
            l: 0x4D,
            zf: true,
            nf: false,
            hf: true,
            cf: true,
            sp: 0xFFFE,
            pc: 0x0100,
        }
    }

    /// All registers zero, as the CPU powers up before the boot ROM runs.
    pub fn new() -> (r: Registers)
        ensures
            r == Registers::new_spec(),
    {
        Registers {
            a: 0,
            b: 0,
            c: 0,
            d: 0,
            e: 0,
            h: 0,
            l: 0,
            zf: false,
            nf: false,
            hf: false,
            cf: false,
            sp: 0,
            pc: 0,
        }
    }

    fn flags(&self) -> (r: u8)
        ensures
            r == self.f(),
    {
        let z: u8 = if self.zf { 0x80 } else { 0 };
        let n: u8 = if self.nf { 0x40 } else { 0 };
        let h: u8 = if self.hf { 0x20 } else { 0 };
        let c: u8 = if self.cf { 0x10 } else { 0 };
        z + n + h + c
    }

    /// Read an 8-bit register.
    pub fn read8(&self, reg: Reg8) -> (r: u8)
        ensures
            r == self.get8(reg),
    {
        match reg {
            Reg8::A => self.a,
            Reg8::B => self.b,
            Reg8::C => self.c,
            Reg8::D => self.d,
            Reg8::E => self.e,
            Reg8::F => self.flags(),
            Reg8::H => self.h,
            Reg8::L => self.l,
        }
    }

    /// Write an 8-bit register; a write to F keeps only its top nibble.
    pub fn write8(&mut self, reg: Reg8, val: u8)
        ensures
            *final(self) == old(self).set8(reg, val),
    {
        match reg {
            Reg8::A => self.a = val,
            Reg8::B => self.b = val,
            Reg8::C => self.c = val,
            Reg8::D => self.d = val,
            Reg8::E => self.e = val,
            Reg8::F => {
                self.zf = val & 0x80 != 0;
                self.nf = val & 0x40 != 0;
                self.hf = val & 0x20 != 0;
                self.cf = val & 0x10 != 0;
            },
            Reg8::H => self.h = val,
            Reg8::L => self.l = val,
        }
    }

    /// Read a 16-bit register.
    pub fn read16(&self, reg: Reg16) -> (r: u16)
        ensures
            r == self.get16(reg),
    {
        match reg {
            Reg16::AF => {
                let f = self.flags();
                proof {
                    lemma_word_join(self.a, f);
                }
                ((self.a as u16) << 8) | (f as u16)
            },
            Reg16::BC => {
                proof {
                    lemma_word_join(self.b, self.c);
                }
                ((self.b as u16) << 8) | (self.c as u16)
            },
            Reg16::DE => {
                proof {
                    lemma_word_join(self.d, self.e);
                }
                ((self.d as u16) << 8) | (self.e as u16)
            },
            Reg16::HL => {
                proof {
                    lemma_word_join(self.h, self.l);
                }
                ((self.h as u16) << 8) | (self.l as u16)
            },
            Reg16::SP => self.sp,
            Reg16::PC => self.pc,
        }
    }

    /// Write a 16-bit register; the high byte goes to the first register of a pair.
    pub fn write16(&mut self, reg: Reg16, val: u16)
        ensures
            *final(self) == old(self).set16(reg, val),
    {
        proof {
            lemma_word_split(val);
        }
        let hi = (val >> 8) as u8;
        let lo = val as u8;
        match reg {
            Reg16::AF => {
                self.a = hi;
                self.write8(Reg8::F, lo);
            },
            Reg16::BC => {
                self.b = hi;
                self.c = lo;
            },
            Reg16::DE => {
                self.d = hi;
                self.e = lo;
            },
            Reg16::HL => {
                self.h = hi;
                self.l = lo;
            },
            Reg16::SP => self.sp = val,
            Reg16::PC => self.pc = val,
        }
    }

    /// The Zero flag.
    pub fn zf(&self) -> (r: bool)
        ensures
            r == self.zf,
    {
        self.zf
    }

    /// The Subtract flag.
    pub fn nf(&self) -> (r: bool)
        ensures
            r == self.nf,
    {
        self.nf
    }

    /// The Half-Carry flag.
    pub fn hf(&self) -> (r: bool)
        ensures
            r == self.hf,
    {
        self.hf
    }

    /// The Carry flag.
    pub fn cf(&self) -> (r: bool)
        ensures
            r == self.cf,
    {
        self.cf
    }

    pub fn set_zf(&mut self, v: bool)
        ensures
            *final(self) == (Registers { zf: v, ..*old(self) }),
    {
        self.zf = v;
    }

    pub fn set_nf(&mut self, v: bool)
        ensures
            *final(self) == (Registers { nf: v, ..*old(self) }),
    {
        self.nf = v;
    }

    pub fn set_hf(&mut self, v: bool)
        ensures
            *final(self) == (Registers { hf: v, ..*old(self) }),
    {
        self.hf = v;
    }

    pub fn set_cf(&mut self, v: bool)
        ensures
            *final(self) == (Registers { cf: v, ..*old(self) }),
    {
        self.cf = v;
    }

    /// Advance the program counter, wrapping at 0x10000.
    pub fn inc_pc(&mut self, inc: u16)
        ensures
            *final(self) == (Registers { pc: ((old(self).pc + inc) % 0x10000) as u16, ..*old(self) }),
    {
        self.pc = self.pc.wrapping_add(inc);
    }
}

} // verus!
