use vstd::prelude::*;
use super::Cpu;
use super::alu::{
    adc8, add16, add8, alu_group, and8, bit_set, cp8, daa, dec8, dec8_flags, inc8, inc8_flags,
    logic_flags, or8, pow2_8, cb_carry, cb_shift, res_bit, rl, rlc, rr, rrc, sbc8, set_bit, shift_flags, sla, sra, srl,
    sub8, sub_flags, swap, xor8,
};
use super::opcodes::{cb_cycles, cb_opcode, is_conditional, op_cycles, opcode, taken_cycles};
use super::registers::{word, Reg16, Reg8, Registers};

verus! {

/// The register an operand index names (0-7: B, C, D, E, H, L, (HL), A);
/// index 6 names memory at HL instead.
pub open spec fn reg_of(idx: u8) -> Reg8 {
    if idx == 0 {
        Reg8::B
    } else if idx == 1 {
        Reg8::C
    } else if idx == 2 {
        Reg8::D
    } else if idx == 3 {
        Reg8::E
    } else if idx == 4 {
        Reg8::H
    } else if idx == 5 {
        Reg8::L
    } else {
        Reg8::A
    }
}

/// The condition of a conditional instruction, from bits 3-4: NZ, Z, NC, C.
pub open spec fn cond_holds(op: u8, r: Registers) -> bool {
    let k = (op / 8) % 4;
    if k == 0 {
        !r.zf
    } else if k == 1 {
        r.zf
    } else if k == 2 {
        !r.cf
    } else {
        r.cf
    }
}

/// The T-cycles an instruction takes from the state `c` in which its opcode
/// has just been fetched.
pub open spec fn instr_cycles(op: u8, c: Cpu) -> u32 {
    if op == 0xCB {
        cb_cycles(c.mmu@.read(c.reg.pc))
    } else if is_conditional(op) && cond_holds(op, c.reg) {
        taken_cycles(op)
    } else {
        op_cycles(op)
    }
}

/// The 16-bit register bits 4-5 of an opcode name: BC, DE, HL, then SP,
/// or AF for PUSH and POP.
pub open spec fn pair_of(k: u8, af: bool) -> Reg16 {
    if k == 0 {
        Reg16::BC
    } else if k == 1 {
        Reg16::DE
    } else if k == 2 {
        Reg16::HL
    } else if af {
        Reg16::AF
    } else {
        Reg16::SP
    }
}

/// `c` with PC moved on by `n`.
pub open spec fn skip(c: Cpu, n: int) -> Cpu {
    Cpu { reg: Registers { pc: add_wrap(c.reg.pc, n), ..c.reg }, ..c }
}

/// What the control-flow, stack, immediate and interrupt-enable instructions
/// do: `after` is the state once opcode `op`, fetched in state `c` (PC just
/// past the opcode), has run.
pub open spec fn executed(c: Cpu, after: Cpu, op: u8) -> bool {
    executed_low(c, after, op) && executed_high(c, after, op)
}

/// Whether the condition of `op` holds in `c`; unconditional opcodes always go.
pub open spec fn taken(op: u8, c: Cpu) -> bool {
    !is_conditional(op) || cond_holds(op, c.reg)
}

/// `executed` for opcodes 00-3F.
pub open spec fn executed_low(c: Cpu, after: Cpu, op: u8) -> bool {
    let pc = c.reg.pc;
    let y = (op / 8) % 8;
    let p = (op / 16) % 4;
    let taken = taken(op, c);
    &&& (op == 0x00 ==> after == c)
    &&& (op < 0x40 && op % 16 == 1 ==> after == (Cpu {
        reg: skip(c, 2).reg.set16(pair_of(p, false), c.mmu@.read16(pc)),
        ..c
    }))
    &&& (op < 0x40 && op % 8 == 6 && y != 6 ==> after == (Cpu {
        reg: skip(c, 1).reg.set8(reg_of(y), c.mmu@.read(pc)),
        ..c
    }))
    &&& (op < 0x40 && op % 8 == 4 && y != 6 ==> after == (Cpu {
        reg: inc8_flags(c.reg, c.operand(y)).set8(reg_of(y), inc8(c.operand(y))),
        ..c
    }))
    &&& (op < 0x40 && op % 8 == 5 && y != 6 ==> after == (Cpu {
        reg: dec8_flags(c.reg, c.operand(y)).set8(reg_of(y), dec8(c.operand(y))),
        ..c
    }))
    &&& (op < 0x40 && op % 16 == 9 ==> after == (Cpu {
        reg: add16(c.reg, c.reg.get16(pair_of(p, false))),
        ..c
    }))
    &&& (op < 0x40 && op % 16 == 3 ==> after == (Cpu {
        reg: c.reg.set16(pair_of(p, false), add_wrap(c.reg.get16(pair_of(p, false)), 1)),
        ..c
    }))
    &&& (op < 0x40 && op % 16 == 0x0B ==> after == (Cpu {
        reg: c.reg.set16(pair_of(p, false), add_wrap(c.reg.get16(pair_of(p, false)), -1)),
        ..c
    }))
    &&& (op == 0x27 ==> after == (Cpu { reg: daa(c.reg), ..c }))
    &&& (op == 0x2F ==> after == (Cpu { reg: Registers { a: !c.reg.a, nf: true, hf: true, ..c.reg }, ..c }))
    &&& (op == 0x07 ==> after == (Cpu {
        reg: Registers { a: rlc(c.reg.a), zf: false, ..shift_flags(c.reg, rlc(c.reg.a), c.reg.a >= 0x80) },
        ..c
    }))
    &&& (op == 0x0F ==> after == (Cpu {
        reg: Registers { a: rrc(c.reg.a), zf: false, ..shift_flags(c.reg, rrc(c.reg.a), c.reg.a % 2 == 1) },
        ..c
    }))
    &&& (op == 0x17 ==> after == (Cpu {
        reg: Registers { a: rl(c.reg.a, c.reg.cf), zf: false, ..shift_flags(c.reg, rl(c.reg.a, c.reg.cf), c.reg.a >= 0x80) },
        ..c
    }))
    &&& (op == 0x1F ==> after == (Cpu {
        reg: Registers { a: rr(c.reg.a, c.reg.cf), zf: false, ..shift_flags(c.reg, rr(c.reg.a, c.reg.cf), c.reg.a % 2 == 1) },
        ..c
    }))
    &&& (op == 0x37 ==> after == (Cpu { reg: Registers { nf: false, hf: false, cf: true, ..c.reg }, ..c }))
    &&& (op == 0x3F ==> after == (Cpu { reg: Registers { nf: false, hf: false, cf: !c.reg.cf, ..c.reg }, ..c }))
    &&& (op == 0x18 || op == 0x20 || op == 0x28 || op == 0x30 || op == 0x38 ==> after == (Cpu {
        reg: Registers {
            pc: if taken { add_wrap(add_wrap(pc, 1), signed(c.mmu@.read(pc))) } else { add_wrap(pc, 1) },
            ..c.reg
        },
        ..c
    }))
}

/// `executed` for opcodes C0-FF.
pub open spec fn executed_high(c: Cpu, after: Cpu, op: u8) -> bool {
    let pc = c.reg.pc;
    let sp = c.reg.sp;
    let y = (op / 8) % 8;
    let p = (op / 16) % 4;
    let taken = taken(op, c);
    let pushed = add_wrap(sp, -2);
    &&& (op == 0xC3 || op == 0xC2 || op == 0xCA || op == 0xD2 || op == 0xDA ==> after == (Cpu {
        reg: Registers { pc: if taken { c.mmu@.read16(pc) } else { add_wrap(pc, 2) }, ..c.reg },
        ..c
    }))
    &&& (op == 0xCD || op == 0xC4 || op == 0xCC || op == 0xD4 || op == 0xDC ==> if taken {
        &&& after.reg == (Registers { pc: c.mmu@.read16(pc), sp: pushed, ..c.reg })
        &&& after.mmu@ == c.mmu@.write16(pushed, add_wrap(pc, 2))
        &&& after.same_control(c)
    } else {
        after == skip(c, 2)
    })
    &&& (op == 0xC9 || op == 0xC0 || op == 0xC8 || op == 0xD0 || op == 0xD8 ==> if taken {
        after == (Cpu {
            reg: Registers { pc: c.mmu@.read16(sp), sp: add_wrap(sp, 2), ..c.reg },
            ..c
        })
    } else {
        after == c
    })
    &&& (op == 0xD9 ==> after == (Cpu {
        reg: Registers { pc: c.mmu@.read16(sp), sp: add_wrap(sp, 2), ..c.reg },
        ime: true,
        ..c
    }))
    &&& (op >= 0xC0 && op % 16 == 5 ==> {
        &&& after.reg == (Registers { sp: pushed, ..c.reg })
        &&& after.mmu@ == c.mmu@.write16(pushed, c.reg.get16(pair_of(p, true)))
        &&& after.same_control(c)
    })
    &&& (op >= 0xC0 && op % 16 == 1 ==> after == (Cpu {
        reg: Registers { sp: add_wrap(sp, 2), ..c.reg }.set16(pair_of(p, true), c.mmu@.read16(sp)),
        ..c
    }))
    &&& (op >= 0xC0 && op % 8 == 6 ==> after == (Cpu {
        reg: alu_group(y, skip(c, 1).reg, c.mmu@.read(pc)),
        ..c
    }))
    &&& (op >= 0xC0 && op % 8 == 7 ==> {
        &&& after.reg == (Registers { pc: (y * 8) as u16, sp: pushed, ..c.reg })
        &&& after.mmu@ == c.mmu@.write16(pushed, pc)
        &&& after.same_control(c)
    })
    &&& (op == 0xE0 ==> {
        &&& after.reg == skip(c, 1).reg
        &&& after.mmu@ == c.mmu@.write((0xFF00 + c.mmu@.read(pc)) as u16, c.reg.a)
        &&& after.same_control(c)
    })
    &&& (op == 0xF0 ==> after == (Cpu {
        reg: Registers { a: c.mmu@.read((0xFF00 + c.mmu@.read(pc)) as u16), ..skip(c, 1).reg },
        ..c
    }))
    &&& (op == 0xE9 ==> after == (Cpu { reg: Registers { pc: word(c.reg.h, c.reg.l), ..c.reg }, ..c }))
    &&& (op == 0xF9 ==> after == (Cpu { reg: Registers { sp: word(c.reg.h, c.reg.l), ..c.reg }, ..c }))
    &&& (op == 0xCB ==> cb_done(skip(c, 1), after, c.mmu@.read(pc)))
    &&& (op == 0xF3 ==> after == (Cpu { ime: false, ei_pending: false, ..c }))
    &&& (op == 0xFB ==> after == (Cpu { ei_pending: true, ..c }))
}

/// `a + b` modulo 0x10000.
pub open spec fn add_wrap(a: u16, b: int) -> u16 {
    ((a as int + b + 0x20000) % 0x10000) as u16
}

/// `b` read as a signed byte.
pub open spec fn signed(b: u8) -> int {
    if b < 128 {
        b as int
    } else {
        b as int - 256
    }
}

/// The value CB opcode `op` computes from the state `c`: the operand
/// rotated or shifted, tested (and kept), or with a bit cleared or set.
pub open spec fn cb_result(c: Cpu, op: u8) -> u8 {
    let v = c.operand(op % 8);
    let y = (op / 8) % 8;
    if op < 0x40 {
        cb_shift(y, v, c.reg.cf)
    } else if op < 0x80 {
        v
    } else if op < 0xC0 {
        res_bit(v, y)
    } else {
        set_bit(v, y)
    }
}

/// The registers after CB opcode `op`, before its result is written back.
pub open spec fn cb_flags(c: Cpu, op: u8) -> Registers {
    let v = c.operand(op % 8);
    let y = (op / 8) % 8;
    if op < 0x40 {
        shift_flags(c.reg, cb_result(c, op), cb_carry(y, v))
    } else if op < 0x80 {
        Registers { zf: !bit_set(v, y), nf: false, hf: true, ..c.reg }
    } else {
        c.reg
    }
}

/// `after` is `before` with CB opcode `op` executed: BIT only sets flags;
/// the others write their result back to the operand.
pub open spec fn cb_done(before: Cpu, after: Cpu, op: u8) -> bool {
    let z = op % 8;
    &&& after.same_control(before)
    &&& (0x40 <= op < 0x80 ==> after == (Cpu { reg: cb_flags(before, op), ..before }))
    &&& ((op < 0x40 || op >= 0x80) && z != 6 ==> after == (Cpu {
        reg: cb_flags(before, op).set8(reg_of(z), cb_result(before, op)),
        ..before
    }))
    &&& ((op < 0x40 || op >= 0x80) && z == 6 ==> after.reg == cb_flags(before, op)
        && after.mmu@ == before.mmu@.write(word(before.reg.h, before.reg.l), cb_result(before, op)))
}

impl Cpu {
    /// The value of operand `idx`.
    pub open spec fn operand(self, idx: u8) -> u8 {
        if idx == 6 {
            self.mmu@.read(word(self.reg.h, self.reg.l))
        } else {
            self.reg.get8(reg_of(idx))
        }
    }

    /// `self` and `other` agree on IME, HALT and a pending EI.
    pub open spec fn same_control(self, other: Cpu) -> bool {
        self.ime == other.ime && self.halt == other.halt && self.ei_pending == other.ei_pending
    }

    /// Fetch the byte at PC and advance PC.
    pub fn imm8(&mut self) -> (r: u8)
        requires
            old(self).wf(),
        ensures
            r == old(self).mmu@.read(old(self).reg.pc),
            *final(self) == (Cpu { reg: Registers { pc: add_wrap(old(self).reg.pc, 1), ..old(self).reg }, ..*old(self) }),
    {
        let val = self.mmu.read8(self.reg.pc);
        self.reg.inc_pc(1);
        val
    }

    /// Fetch the little-endian word at PC and advance PC past it.
    pub fn imm16(&mut self) -> (r: u16)
        requires
            old(self).wf(),
        ensures
            r == old(self).mmu@.read16(old(self).reg.pc),
            *final(self) == (Cpu { reg: Registers { pc: add_wrap(old(self).reg.pc, 2), ..old(self).reg }, ..*old(self) }),
    {
        let val = self.mmu.read16(self.reg.pc);
        self.reg.inc_pc(2);
        val
    }

    /// Store a byte in memory.
    pub fn ld8(&mut self, dst: u16, val: u8)
        requires
            old(self).wf(),
        ensures
            final(self).wf(),
            final(self).mmu@ == old(self).mmu@.write(dst, val),
            final(self).reg == old(self).reg,
            final(self).same_control(*old(self)),
    {
        self.mmu.write8(dst, val);
    }

    /// Load a byte into a register.
    pub fn ldr8(&mut self, dst: Reg8, val: u8)
        ensures
            *final(self) == (Cpu { reg: old(self).reg.set8(dst, val), ..*old(self) }),
    {
        self.reg.write8(dst, val);
    }

    /// Store a word in memory, low byte first.
    pub fn ld16(&mut self, dst: u16, val: u16)
        requires
            old(self).wf(),
        ensures
            final(self).wf(),
            final(self).mmu@ == old(self).mmu@.write16(dst, val),
            final(self).reg == old(self).reg,
            final(self).same_control(*old(self)),
    {
        self.mmu.write16(dst, val);
    }

    /// Load a word into a 16-bit register.
    pub fn ldr16(&mut self, dst: Reg16, val: u16)
        ensures
            *final(self) == (Cpu { reg: old(self).reg.set16(dst, val), ..*old(self) }),
    {
        self.reg.write16(dst, val);
    }

    /// Push a word: SP goes down by two and the word is stored there.
    pub fn stack_push(&mut self, val: u16)
        requires
            old(self).wf(),
        ensures
            final(self).wf(),
            final(self).reg == (Registers { sp: add_wrap(old(self).reg.sp, -2), ..old(self).reg }),
            final(self).mmu@ == old(self).mmu@.write16(add_wrap(old(self).reg.sp, -2), val),
            final(self).same_control(*old(self)),
    {
        self.reg.sp = self.reg.sp.wrapping_sub(2);
        let sp = self.reg.sp;
        self.mmu.write16(sp, val);
    }

    /// Pop a word: read it at SP, then SP goes up by two.
    pub fn stack_pop(&mut self) -> (r: u16)
        requires
            old(self).wf(),
        ensures
            r == old(self).mmu@.read16(old(self).reg.sp),
            *final(self) == (Cpu { reg: Registers { sp: add_wrap(old(self).reg.sp, 2), ..old(self).reg }, ..*old(self) }),
    {
        let val = self.mmu.read16(self.reg.sp);
        self.reg.sp = self.reg.sp.wrapping_add(2);
        val
    }

    /// Read operand `idx` (B, C, D, E, H, L, (HL), A).
    pub fn read_operand(&self, idx: u8) -> (r: u8)
        requires
            self.wf(),
            idx < 8,
        ensures
            r == self.operand(idx),
    {
        match idx {
            0 => self.reg.b,
            1 => self.reg.c,
            2 => self.reg.d,
            3 => self.reg.e,
            4 => self.reg.h,
            5 => self.reg.l,
            6 => {
                let hl = self.reg.read16(Reg16::HL);
                self.mmu.read8(hl)
            },
            _ => self.reg.a,
        }
    }

    /// Write operand `idx` (B, C, D, E, H, L, (HL), A).
    pub fn write_operand(&mut self, idx: u8, val: u8)
        requires
            old(self).wf(),
            idx < 8,
        ensures
            final(self).wf(),
            final(self).same_control(*old(self)),
            idx == 6 ==> final(self).reg == old(self).reg && final(self).mmu@ == old(self).mmu@.write(
                word(old(self).reg.h, old(self).reg.l),
                val,
            ),
            idx != 6 ==> *final(self) == (Cpu { reg: old(self).reg.set8(reg_of(idx), val), ..*old(self) }),
    {
        match idx {
            0 => self.reg.b = val,
            1 => self.reg.c = val,
            2 => self.reg.d = val,
            3 => self.reg.e = val,
            4 => self.reg.h = val,
            5 => self.reg.l = val,
            6 => {
                let hl = self.reg.read16(Reg16::HL);
                self.mmu.write8(hl, val);
            },
            _ => self.reg.a = val,
        }
    }

    /// Whether the condition of conditional opcode `op` holds.
    fn cond(&self, op: u8) -> (r: bool)
        ensures
            r == cond_holds(op, self.reg),
    {
        let k = (op / 8) % 4;
        if k == 0 {
            !self.reg.zf
        } else if k == 1 {
            self.reg.zf
        } else if k == 2 {
            !self.reg.cf
        } else {
            self.reg.cf
        }
    }

    /// The 16-bit register that bits 4-5 of an opcode name: BC, DE, HL, then
    /// SP, or AF for PUSH and POP.
    fn pair(k: u8, af: bool) -> (r: Reg16)
        requires
            k < 4,
        ensures
            r == pair_of(k, af),
    {
        if k == 0 {
            Reg16::BC
        } else if k == 1 {
            Reg16::DE
        } else if k == 2 {
            Reg16::HL
        } else if af {
            Reg16::AF
        } else {
            Reg16::SP
        }
    }

    /// SP plus a signed byte, with the flags of ADD SP, e8 and LD HL, SP+e8:
    /// Z and N clear, H and C from the unsigned addition of the low byte.
    fn sp_plus_e8(&mut self, e: u8) -> (r: u16)
        ensures
            r == add_wrap(old(self).reg.sp, signed(e)),
            *final(self) == (Cpu {
                reg: Registers {
                    zf: false,
                    nf: false,
                    hf: (old(self).reg.sp % 16) + (e % 16) > 15,
                    cf: (old(self).reg.sp % 256) + e as int > 255,
                    ..old(self).reg
                },
                ..*old(self)
            }),
    {
        let sp = self.reg.sp;
        self.reg.zf = false;
        self.reg.nf = false;
        self.reg.hf = (sp % 16) + (e as u16 % 16) > 15;
        self.reg.cf = (sp % 256) + e as u16 > 255;
        if e < 128 {
            sp.wrapping_add(e as u16)
        } else {
            sp.wrapping_sub(256 - e as u16)
        }
    }

    /// Relative jump by the signed byte `e`.
    fn jump_relative(&mut self, e: u8)
        ensures
            *final(self) == (Cpu { reg: Registers { pc: add_wrap(old(self).reg.pc, signed(e)), ..old(self).reg }, ..*old(self) }),
    {
        if e < 128 {
            self.reg.pc = self.reg.pc.wrapping_add(e as u16);
        } else {
            self.reg.pc = self.reg.pc.wrapping_sub(256 - e as u16);
        }
    }

    /// Opcodes 00-3F: immediates, 16-bit arithmetic, INC/DEC, relative
    /// jumps, rotates of A and the flag instructions.
    /// Opcodes 00-3F: immediates, 16-bit arithmetic, INC/DEC, relative
    /// jumps, rotates of A and the flag instructions.
    fn exec_block0(&mut self, op: u8) -> (r: u32)
        requires
            old(self).wf(),
            op < 0x40,
        ensures
            final(self).wf(),
            r == instr_cycles(op, *old(self)),
            executed_low(*old(self), *final(self), op),
    {
        let low = op % 8;
        if op == 0x00 || op == 0x08 || op == 0x10 || op == 0x18 || low == 0 || low == 7 {
            self.exec_block0_flow(op)
        } else {
            self.exec_block0_data(op)
        }
    }

    /// NOP, STOP, LD (a16),SP, the relative jumps, the rotates of A, DAA,
    /// CPL, SCF and CCF.
    #[verifier::rlimit(60)]
    fn exec_block0_flow(&mut self, op: u8) -> (r: u32)
        requires
            old(self).wf(),
            op < 0x40,
            op == 0x00 || op == 0x08 || op == 0x10 || op == 0x18 || op % 8 == 0 || op % 8 == 7,
        ensures
            final(self).wf(),
            r == instr_cycles(op, *old(self)),
            executed_low(*old(self), *final(self), op),
    {
        let cycles = opcode(op).cycles;
        let low = op % 8;
        let y = (op / 8) % 8;
        if op == 0x00 {
        } else if op == 0x10 {
            // STOP takes a padding byte.
            let _ = self.imm8();
        } else if op == 0x08 {
            let addr = self.imm16();
            let sp = self.reg.sp;
            self.ld16(addr, sp);
        } else if op == 0x18 {
            let e = self.imm8();
            self.jump_relative(e);
        } else if low == 0 {
            let taken = self.cond(op);
            let e = self.imm8();
            if taken {
                self.jump_relative(e);
                return 12;
            }
        } else if y < 4 {
            let a = self.reg.a;
            let res = if y == 0 {
                self.alu_rlc(a)
            } else if y == 1 {
                self.alu_rrc(a)
            } else if y == 2 {
                self.alu_rl(a)
            } else {
                self.alu_rr(a)
            };
            self.reg.a = res;
            self.reg.zf = false;
        } else if y == 4 {
            self.alu_daa();
        } else if y == 5 {
            self.alu_cpl();
        } else if y == 6 {
            self.alu_scf();
        } else {
            self.alu_ccf();
        }
        cycles
    }

    /// LD rr,d16, ADD HL,rr, loads through (BC), (DE), (HL+) and (HL-),
    /// 16-bit INC and DEC, 8-bit INC and DEC, and LD r,d8.
    fn exec_block0_data(&mut self, op: u8) -> (r: u32)
        requires
            old(self).wf(),
            op < 0x40,
            1 <= op % 8 <= 6,
            op != 0x08 && op != 0x10 && op != 0x18,
        ensures
            final(self).wf(),
            r == instr_cycles(op, *old(self)),
            executed_low(*old(self), *final(self), op),
    {
        let low = op % 8;
        if low == 1 || low == 3 {
            self.exec_wide(op)
        } else if low == 2 {
            self.exec_indirect(op)
        } else {
            self.exec_byte(op)
        }
    }

    /// LD rr,d16, ADD HL,rr, INC rr and DEC rr.
    fn exec_wide(&mut self, op: u8) -> (r: u32)
        requires
            old(self).wf(),
            op < 0x40,
            op % 8 == 1 || op % 8 == 3,
        ensures
            final(self).wf(),
            r == instr_cycles(op, *old(self)),
            executed_low(*old(self), *final(self), op),
    {
        if op % 8 == 1 {
            self.exec_wide_load(op)
        } else {
            self.exec_wide_step(op)
        }
    }

    /// LD rr,d16 and ADD HL,rr.
    #[verifier::rlimit(60)]
    fn exec_wide_load(&mut self, op: u8) -> (r: u32)
        requires
            old(self).wf(),
            op < 0x40,
            op % 8 == 1,
        ensures
            final(self).wf(),
            r == instr_cycles(op, *old(self)),
            executed_low(*old(self), *final(self), op),
    {
        let cycles = opcode(op).cycles;
        let r16 = Cpu::pair((op / 16) % 4, false);
        if op % 16 == 1 {
            let val = self.imm16();
            self.ldr16(r16, val);
        } else {
            let val = self.reg.read16(r16);
            self.alu_add16(val);
        }
        cycles
    }

    /// INC rr and DEC rr.
    #[verifier::rlimit(60)]
    fn exec_wide_step(&mut self, op: u8) -> (r: u32)
        requires
            old(self).wf(),
            op < 0x40,
            op % 8 == 3,
        ensures
            final(self).wf(),
            r == instr_cycles(op, *old(self)),
            executed_low(*old(self), *final(self), op),
    {
        let cycles = opcode(op).cycles;
        let r16 = Cpu::pair((op / 16) % 4, false);
        let v = self.reg.read16(r16);
        if op % 16 == 3 {
            self.reg.write16(r16, v.wrapping_add(1));
        } else {
            self.reg.write16(r16, v.wrapping_sub(1));
        }
        cycles
    }

    /// Loads between A and (BC), (DE), (HL+) and (HL-).
    #[verifier::rlimit(60)]
    fn exec_indirect(&mut self, op: u8) -> (r: u32)
        requires
            old(self).wf(),
            op < 0x40,
            op % 8 == 2,
        ensures
            final(self).wf(),
            r == instr_cycles(op, *old(self)),
            executed_low(*old(self), *final(self), op),
    {
        let cycles = opcode(op).cycles;
        let p = (op / 16) % 4;
        let addr = if p == 0 {
            self.reg.read16(Reg16::BC)
        } else if p == 1 {
            self.reg.read16(Reg16::DE)
        } else {
            self.reg.read16(Reg16::HL)
        };
        if op % 16 == 2 {
            let a = self.reg.a;
            self.ld8(addr, a);
        } else {
            let v = self.mmu.read8(addr);
            self.reg.a = v;
        }
        if p == 2 {
            self.reg.write16(Reg16::HL, addr.wrapping_add(1));
        } else if p == 3 {
            self.reg.write16(Reg16::HL, addr.wrapping_sub(1));
        }
        cycles
    }

    /// INC r, DEC r and LD r,d8, on a register or (HL).
    #[verifier::rlimit(60)]
    fn exec_byte(&mut self, op: u8) -> (r: u32)
        requires
            old(self).wf(),
            op < 0x40,
            4 <= op % 8 <= 6,
        ensures
            final(self).wf(),
            r == instr_cycles(op, *old(self)),
            executed_low(*old(self), *final(self), op),
    {
        let cycles = opcode(op).cycles;
        let low = op % 8;
        let y = (op / 8) % 8;
        if low == 4 {
            let v = self.read_operand(y);
            let res = self.alu_inc8(v);
            self.write_operand(y, res);
        } else if low == 5 {
            let v = self.read_operand(y);
            let res = self.alu_dec8(v);
            self.write_operand(y, res);
        } else {
            let v = self.imm8();
            self.write_operand(y, v);
        }
        cycles
    }

    /// Opcodes 40-7F: LD between registers and (HL), and HALT at 76.
    fn exec_block1(&mut self, op: u8) -> (r: u32)
        requires
            old(self).wf(),
            0x40 <= op < 0x80,
        ensures
            final(self).wf(),
            r == instr_cycles(op, *old(self)),
            op == 0x76 ==> *final(self) == (Cpu { halt: true, ..*old(self) }),
            op != 0x76 && (op / 8) % 8 != 6 ==> *final(self) == (Cpu {
                reg: old(self).reg.set8(reg_of((op / 8) % 8), old(self).operand(op % 8)),
                ..*old(self)
            }),
            op != 0x76 && (op / 8) % 8 == 6 ==> final(self).reg == old(self).reg
                && final(self).same_control(*old(self))
                && final(self).mmu@ == old(self).mmu@.write(word(old(self).reg.h, old(self).reg.l), old(self).operand(op % 8)),
    {
        let cycles = opcode(op).cycles;
        if op == 0x76 {
            self.halt = true;
        } else {
            let v = self.read_operand(op % 8);
            self.write_operand((op / 8) % 8, v);
        }
        cycles
    }

    /// Opcodes 80-BF: ADD, ADC, SUB, SBC, AND, XOR, OR and CP of A with an operand.
    fn exec_block2(&mut self, op: u8) -> (r: u32)
        requires
            old(self).wf(),
            0x80 <= op < 0xC0,
        ensures
            final(self).wf(),
            r == instr_cycles(op, *old(self)),
            *final(self) == (Cpu { reg: alu_group((op / 8) % 8, old(self).reg, old(self).operand(op % 8)), ..*old(self) }),
    {
        let cycles = opcode(op).cycles;
        let v = self.read_operand(op % 8);
        self.alu_op((op / 8) % 8, v);
        cycles
    }

    /// RET, RETI and the conditional returns.
    fn exec_returns(&mut self, op: u8) -> (r: u32)
        requires
            old(self).wf(),
            op == 0xC0 || op == 0xC8 || op == 0xD0 || op == 0xD8 || op == 0xC9 || op == 0xD9,
        ensures
            final(self).wf(),
            r == instr_cycles(op, *old(self)),
            executed_high(*old(self), *final(self), op),
    {
        let cycles = opcode(op).cycles;
        if op == 0xC9 {
            let addr = self.stack_pop();
            self.reg.pc = addr;
        } else if op == 0xD9 {
            let addr = self.stack_pop();
            self.reg.pc = addr;
            self.ime = true;
        } else if self.cond(op) {
            let addr = self.stack_pop();
            self.reg.pc = addr;
            return 20;
        }
        cycles
    }

    /// LDH (a8),A and LDH A,(a8): loads between A and FF00 + an immediate.
    #[verifier::rlimit(60)]
    fn exec_high_page(&mut self, op: u8) -> (r: u32)
        requires
            old(self).wf(),
            op == 0xE0 || op == 0xF0,
        ensures
            final(self).wf(),
            r == instr_cycles(op, *old(self)),
            executed_high(*old(self), *final(self), op),
    {
        let cycles = opcode(op).cycles;
        let n = self.imm8();
        if op == 0xE0 {
            let a = self.reg.a;
            self.ld8(0xFF00 + n as u16, a);
        } else {
            self.reg.a = self.mmu.read8(0xFF00 + n as u16);
        }
        cycles
    }

    /// ADD SP,e8 and LD HL,SP+e8.
    #[verifier::rlimit(60)]
    fn exec_sp_offset(&mut self, op: u8) -> (r: u32)
        requires
            old(self).wf(),
            op == 0xE8 || op == 0xF8,
        ensures
            final(self).wf(),
            r == instr_cycles(op, *old(self)),
            executed_high(*old(self), *final(self), op),
    {
        let cycles = opcode(op).cycles;
        let e = self.imm8();
        let v = self.sp_plus_e8(e);
        if op == 0xE8 {
            self.reg.sp = v;
        } else {
            self.reg.write16(Reg16::HL, v);
        }
        cycles
    }

    /// POP HL, POP AF, JP (HL) and LD SP,HL.
    #[verifier::rlimit(60)]
    fn exec_block3_stack(&mut self, op: u8) -> (r: u32)
        requires
            old(self).wf(),
            op == 0xE1 || op == 0xF1 || op == 0xE9 || op == 0xF9,
        ensures
            final(self).wf(),
            r == instr_cycles(op, *old(self)),
            executed_high(*old(self), *final(self), op),
    {
        let cycles = opcode(op).cycles;
        if op == 0xE9 {
            self.reg.pc = self.reg.read16(Reg16::HL);
        } else if op == 0xF9 {
            self.reg.sp = self.reg.read16(Reg16::HL);
        } else {
            let v = self.stack_pop();
            self.reg.write16(Cpu::pair((op / 16) % 4, true), v);
        }
        cycles
    }

    /// POP BC and POP DE.
    fn exec_pop(&mut self, op: u8) -> (r: u32)
        requires
            old(self).wf(),
            op == 0xC1 || op == 0xD1,
        ensures
            final(self).wf(),
            r == instr_cycles(op, *old(self)),
            executed_high(*old(self), *final(self), op),
    {
        let cycles = opcode(op).cycles;
        let v = self.stack_pop();
        self.reg.write16(Cpu::pair((op / 16) % 4, true), v);
        cycles
    }

    /// Opcodes C0-FF with low bits 2-3: JP, loads through (C) and (a16),
    /// DI, EI and the CB prefix.
    #[verifier::rlimit(60)]
    fn exec_block3_jumps(&mut self, op: u8) -> (r: u32)
        requires
            old(self).wf(),
            0xC0 <= op,
            2 <= op % 8 <= 3,
        ensures
            final(self).wf(),
            r == instr_cycles(op, *old(self)),
            executed_high(*old(self), *final(self), op),
    {
        let cycles = opcode(op).cycles;
        let low = op % 8;
        let y = (op / 8) % 8;
        if low == 2 {
            if y < 4 {
                let taken = self.cond(op);
                let addr = self.imm16();
                if taken {
                    self.reg.pc = addr;
                    return 16;
                }
            } else if op == 0xE2 {
                let a = self.reg.a;
                self.ld8(0xFF00 + self.reg.c as u16, a);
            } else if op == 0xF2 {
                self.reg.a = self.mmu.read8(0xFF00 + self.reg.c as u16);
            } else if op == 0xEA {
                let addr = self.imm16();
                let a = self.reg.a;
                self.ld8(addr, a);
            } else {
                let addr = self.imm16();
                self.reg.a = self.mmu.read8(addr);
            }
        } else if op == 0xC3 {
            let addr = self.imm16();
            self.reg.pc = addr;
        } else if op == 0xCB {
            let cb = self.imm8();
            return self.cb_op_execute(cb);
        } else if op == 0xF3 {
            self.ime = false;
            self.ei_pending = false;
        } else if op == 0xFB {
            self.ei_pending = true;
        }
        cycles
    }

    /// Opcodes C0-FF with low bits 4-5: CALL and PUSH.
    #[verifier::rlimit(60)]
    fn exec_block3_calls(&mut self, op: u8) -> (r: u32)
        requires
            old(self).wf(),
            0xC0 <= op,
            4 <= op % 8 <= 5,
        ensures
            final(self).wf(),
            r == instr_cycles(op, *old(self)),
            executed_high(*old(self), *final(self), op),
    {
        let cycles = opcode(op).cycles;
        let low = op % 8;
        let y = (op / 8) % 8;
        let p = (op / 16) % 4;
        if low == 4 {
            if y < 4 {
                let taken = self.cond(op);
                let addr = self.imm16();
                if taken {
                    let pc = self.reg.pc;
                    self.stack_push(pc);
                    self.reg.pc = addr;
                    return 24;
                }
            }
        } else if op % 16 == 5 {
            let v = self.reg.read16(Cpu::pair(p, true));
            self.stack_push(v);
        } else if op == 0xCD {
            let addr = self.imm16();
            let pc = self.reg.pc;
            self.stack_push(pc);
            self.reg.pc = addr;
        }
        cycles
    }

    /// Opcodes C0-FF with low bits 6-7: ALU with an immediate, and RST.
    fn exec_block3_immediate(&mut self, op: u8) -> (r: u32)
        requires
            old(self).wf(),
            0xC0 <= op,
            op % 8 >= 6,
        ensures
            final(self).wf(),
            r == instr_cycles(op, *old(self)),
            executed_high(*old(self), *final(self), op),
    {
        let cycles = opcode(op).cycles;
        let y = (op / 8) % 8;
        if op % 8 == 6 {
            let v = self.imm8();
            self.alu_op(y, v);
        } else {
            let pc = self.reg.pc;
            self.stack_push(pc);
            self.reg.pc = y as u16 * 8;
        }
        cycles
    }

    /// Execute the instruction whose opcode `op` has just been fetched;
    /// returns its T-cycles. A taken jump sets PC itself; every other
    /// instruction leaves PC past its operands.
    pub fn op_execute(&mut self, op: u8) -> (r: u32)
        requires
            old(self).wf(),
        ensures
            final(self).wf(),
            r == instr_cycles(op, *old(self)),
            executed(*old(self), *final(self), op),
            op == 0x00 ==> *final(self) == *old(self),
            op == 0x76 ==> *final(self) == (Cpu { halt: true, ..*old(self) }),
            0x40 <= op < 0x80 && op != 0x76 && (op / 8) % 8 != 6 ==> *final(self) == (Cpu {
                reg: old(self).reg.set8(reg_of((op / 8) % 8), old(self).operand(op % 8)),
                ..*old(self)
            }),
            0x80 <= op < 0xC0 ==> *final(self) == (Cpu {
                reg: alu_group((op / 8) % 8, old(self).reg, old(self).operand(op % 8)),
                ..*old(self)
            }),
    {
        if op < 0x40 {
            self.exec_block0(op)
        } else if op < 0x80 {
            self.exec_block1(op)
        } else if op < 0xC0 {
            self.exec_block2(op)
        } else if op == 0xC0 || op == 0xC8 || op == 0xD0 || op == 0xD8 || op == 0xC9 || op == 0xD9 {
            self.exec_returns(op)
        } else if op == 0xC1 || op == 0xD1 {
            self.exec_pop(op)
        } else if op == 0xE0 || op == 0xF0 {
            self.exec_high_page(op)
        } else if op == 0xE8 || op == 0xF8 {
            self.exec_sp_offset(op)
        } else if op % 8 <= 1 {
            self.exec_block3_stack(op)
        } else if op % 8 <= 3 {
            self.exec_block3_jumps(op)
        } else if op % 8 <= 5 {
            self.exec_block3_calls(op)
        } else {
            self.exec_block3_immediate(op)
        }
    }

    /// CB 00-3F: a rotate or shift of an operand, written back.
    fn cb_shift_op(&mut self, op: u8)
        requires
            old(self).wf(),
            op < 0x40,
        ensures
            final(self).wf(),
            cb_done(*old(self), *final(self), op),
    {
        let z = op % 8;
        let y = (op / 8) % 8;
        let v = self.read_operand(z);
        let res = if y == 0 {
            self.alu_rlc(v)
        } else if y == 1 {
            self.alu_rrc(v)
        } else if y == 2 {
            self.alu_rl(v)
        } else if y == 3 {
            self.alu_rr(v)
        } else if y == 4 {
            self.alu_sla(v)
        } else if y == 5 {
            self.alu_sra(v)
        } else if y == 6 {
            self.alu_swap(v)
        } else {
            self.alu_srl(v)
        };
        self.write_operand(z, res);
    }

    /// CB 80-FF: RES or SET of a bit of an operand, written back.
    fn cb_res_set(&mut self, op: u8)
        requires
            old(self).wf(),
            0x80 <= op,
        ensures
            final(self).wf(),
            cb_done(*old(self), *final(self), op),
    {
        let z = op % 8;
        let y = (op / 8) % 8;
        let v = self.read_operand(z);
        let res = if op < 0xC0 {
            self.alu_res(y, v)
        } else {
            self.alu_set(y, v)
        };
        self.write_operand(z, res);
    }

    /// Execute CB-prefixed opcode `op` on operand `op % 8`; returns its
    /// T-cycles, the prefix included.
    pub fn cb_op_execute(&mut self, op: u8) -> (r: u32)
        requires
            old(self).wf(),
        ensures
            final(self).wf(),
            r == cb_cycles(op),
            cb_done(*old(self), *final(self), op),
    {
        let cycles = cb_opcode(op).cycles;
        if op < 0x40 {
            self.cb_shift_op(op);
        } else if op < 0x80 {
            let v = self.read_operand(op % 8);
            self.alu_bit((op / 8) % 8, v);
        } else {
            self.cb_res_set(op);
        }
        cycles
    }

    /// ADD A, val. Carry is set iff the sum exceeds 0xFF, Half-Carry iff the
    /// low nibbles' sum exceeds 0xF, Zero iff the wrapped sum is 0.
    pub fn alu_add8(&mut self, val: u8)
        ensures
            *final(self) == (Cpu { reg: add8(old(self).reg, val), ..*old(self) }),
            final(self).reg.cf == (old(self).reg.a as int + val as int > 0xFF),
            final(self).reg.hf == ((old(self).reg.a & 0x0F) as int + (val & 0x0F) as int > 0x0F),
            final(self).reg.zf == ((old(self).reg.a as int + val as int) % 256 == 0),
            final(self).reg.a == (old(self).reg.a as int + val as int) % 256,
    {
        let a = self.reg.a;
        let sum: u16 = a as u16 + val as u16;
        let result = (sum % 256) as u8;
        self.reg.zf = result == 0;
        self.reg.nf = false;
        proof {
            lemma_masks();
        }
        self.reg.hf = (a & 0x0F) + (val & 0x0F) > 0x0F;
        self.reg.cf = sum > 0xFF;
        self.reg.a = result;
    }

    /// ADC A, val: add with the Carry flag as carry-in.
    pub fn alu_adc8(&mut self, val: u8)
        ensures
            *final(self) == (Cpu { reg: adc8(old(self).reg, val), ..*old(self) }),
    {
        let a = self.reg.a;
        let c: u8 = if self.reg.cf { 1 } else { 0 };
        let sum: u16 = a as u16 + val as u16 + c as u16;
        let result = (sum % 256) as u8;
        self.reg.zf = result == 0;
        self.reg.nf = false;
        proof {
            lemma_masks();
        }
        self.reg.hf = (a & 0x0F) + (val & 0x0F) + c > 0x0F;
        self.reg.cf = sum > 0xFF;
        self.reg.a = result;
    }

    fn sub_with(&mut self, val: u8, c: u8, keep: bool)
        requires
            c <= 1,
        ensures
            *final(self) == (Cpu { reg: sub_flags(old(self).reg, val, c as int, keep), ..*old(self) }),
    {
        let a = self.reg.a;
        let diff: i16 = a as i16 - val as i16 - c as i16;
        let result = ((diff + 512) % 256) as u8;
        self.reg.zf = result == 0;
        self.reg.nf = true;
        proof {
            lemma_masks();
        }
        self.reg.hf = (a & 0x0F) < (val & 0x0F) + c;
        self.reg.cf = diff < 0;
        if !keep {
            self.reg.a = result;
        }
    }

    /// SUB A, val.
    pub fn alu_sub8(&mut self, val: u8)
        ensures
            *final(self) == (Cpu { reg: sub8(old(self).reg, val), ..*old(self) }),
    {
        self.sub_with(val, 0, false);
    }

    /// SBC A, val: subtract with the Carry flag as borrow-in.
    pub fn alu_sbc8(&mut self, val: u8)
        ensures
            *final(self) == (Cpu { reg: sbc8(old(self).reg, val), ..*old(self) }),
    {
        let c: u8 = if self.reg.cf { 1 } else { 0 };
        self.sub_with(val, c, false);
    }

    /// CP A, val: the flags of A - val; A is kept. Carry is set iff A < val.
    pub fn alu_cp8(&mut self, val: u8)
        ensures
            *final(self) == (Cpu { reg: cp8(old(self).reg, val), ..*old(self) }),
            final(self).reg.cf == (old(self).reg.a < val),
            final(self).reg.zf == (old(self).reg.a == val),
    {
        self.sub_with(val, 0, true);
    }

    fn logic(&mut self, result: u8, h: bool)
        ensures
            *final(self) == (Cpu { reg: logic_flags(old(self).reg, result, h), ..*old(self) }),
    {
        self.reg.zf = result == 0;
        self.reg.nf = false;
        self.reg.hf = h;
        self.reg.cf = false;
        self.reg.a = result;
    }

    /// AND A, val.
    pub fn alu_and8(&mut self, val: u8)
        ensures
            *final(self) == (Cpu { reg: and8(old(self).reg, val), ..*old(self) }),
    {
        let r = self.reg.a & val;
        self.logic(r, true);
    }

    /// XOR A, val.
    pub fn alu_xor8(&mut self, val: u8)
        ensures
            *final(self) == (Cpu { reg: xor8(old(self).reg, val), ..*old(self) }),
    {
        let r = self.reg.a ^ val;
        self.logic(r, false);
    }

    /// OR A, val.
    pub fn alu_or8(&mut self, val: u8)
        ensures
            *final(self) == (Cpu { reg: or8(old(self).reg, val), ..*old(self) }),
    {
        let r = self.reg.a | val;
        self.logic(r, false);
    }

    /// The ALU operation of group `k` on A and `val`.
    pub fn alu_op(&mut self, k: u8, val: u8)
        requires
            k < 8,
        ensures
            *final(self) == (Cpu { reg: alu_group(k, old(self).reg, val), ..*old(self) }),
    {
        if k == 0 {
            self.alu_add8(val);
        } else if k == 1 {
            self.alu_adc8(val);
        } else if k == 2 {
            self.alu_sub8(val);
        } else if k == 3 {
            self.alu_sbc8(val);
        } else if k == 4 {
            self.alu_and8(val);
        } else if k == 5 {
            self.alu_xor8(val);
        } else if k == 6 {
            self.alu_or8(val);
        } else {
            self.alu_cp8(val);
        }
    }

    /// INC of a value: returns it plus one, wrapping; sets Z, N and H.
    pub fn alu_inc8(&mut self, val: u8) -> (r: u8)
        ensures
            r == inc8(val),
            *final(self) == (Cpu { reg: inc8_flags(old(self).reg, val), ..*old(self) }),
    {
        let result = val.wrapping_add(1);
        self.reg.zf = result == 0;
        self.reg.nf = false;
        proof {
            lemma_masks();
        }
        self.reg.hf = (val & 0x0F) + 1 > 0x0F;
        result
    }

    /// DEC of a value: returns it minus one, wrapping; sets Z, N and H.
    pub fn alu_dec8(&mut self, val: u8) -> (r: u8)
        ensures
            r == dec8(val),
            *final(self) == (Cpu { reg: dec8_flags(old(self).reg, val), ..*old(self) }),
    {
        let result = val.wrapping_sub(1);
        self.reg.zf = result == 0;
        self.reg.nf = true;
        self.reg.hf = (val & 0x0F) == 0;
        result
    }

    /// ADD HL, val.
    pub fn alu_add16(&mut self, val: u16)
        ensures
            *final(self) == (Cpu { reg: add16(old(self).reg, val), ..*old(self) }),
    {
        let hl = self.reg.read16(Reg16::HL);
        let sum: u32 = hl as u32 + val as u32;
        let result = (sum % 0x10000) as u16;
        self.reg.nf = false;
        proof {
            lemma_masks();
        }
        self.reg.hf = (hl & 0x0FFF) + (val & 0x0FFF) > 0x0FFF;
        self.reg.cf = sum > 0xFFFF;
        self.reg.h = (result / 256) as u8;
        self.reg.l = (result % 256) as u8;
    }

    /// DAA. After a subtraction with Half-Carry set and Carry clear it takes
    /// exactly 0x06 from A; it always clears Half-Carry.
    pub fn alu_daa(&mut self)
        ensures
            *final(self) == (Cpu { reg: daa(old(self).reg), ..*old(self) }),
            !final(self).reg.hf,
            old(self).reg.nf && old(self).reg.hf && !old(self).reg.cf ==> final(self).reg.a == (
            old(self).reg.a as int + 256 - 6) % 256 && !final(self).reg.cf,
    {
        let a = self.reg.a;
        let mut adjust: u8 = 0;
        if self.reg.hf || (!self.reg.nf && (a & 0x0F) > 0x09) {
            adjust = adjust + 0x06;
        }
        if self.reg.cf || (!self.reg.nf && a > 0x99) {
            adjust = adjust + 0x60;
            self.reg.cf = true;
        }
        let result = if self.reg.nf {
            ((a as u16 + 256 - adjust as u16) % 256) as u8
        } else {
            ((a as u16 + adjust as u16) % 256) as u8
        };
        self.reg.zf = result == 0;
        self.reg.hf = false;
        self.reg.a = result;
    }

    /// CPL: A = !A; sets N and H.
    pub fn alu_cpl(&mut self)
        ensures
            *final(self) == (Cpu { reg: Registers { a: !old(self).reg.a, nf: true, hf: true, ..old(self).reg }, ..*old(self) }),
    {
        self.reg.a = !self.reg.a;
        self.reg.nf = true;
        self.reg.hf = true;
    }

    /// SCF: set Carry; clear N and H.
    pub fn alu_scf(&mut self)
        ensures
            *final(self) == (Cpu { reg: Registers { nf: false, hf: false, cf: true, ..old(self).reg }, ..*old(self) }),
    {
        self.reg.nf = false;
        self.reg.hf = false;
        self.reg.cf = true;
    }

    /// CCF: complement Carry; clear N and H.
    pub fn alu_ccf(&mut self)
        ensures
            *final(self) == (Cpu { reg: Registers { nf: false, hf: false, cf: !old(self).reg.cf, ..old(self).reg }, ..*old(self) }),
    {
        self.reg.nf = false;
        self.reg.hf = false;
        self.reg.cf = !self.reg.cf;
    }

    /// Flags after a rotate or shift: Z from the result, N and H clear, C as given.
    pub fn alu_sr_flags(&mut self, val: u8, carry: bool)
        ensures
            *final(self) == (Cpu { reg: shift_flags(old(self).reg, val, carry), ..*old(self) }),
    {
        self.reg.zf = val == 0;
        self.reg.nf = false;
        self.reg.hf = false;
        self.reg.cf = carry;
    }

    pub fn alu_rlc(&mut self, val: u8) -> (r: u8)
        ensures
            r == rlc(val),
            *final(self) == (Cpu { reg: shift_flags(old(self).reg, rlc(val), val >= 0x80), ..*old(self) }),
    {
        let result = ((val as u16 * 2) % 256 + val as u16 / 128) as u8;
        self.alu_sr_flags(result, val >= 0x80);
        result
    }

    pub fn alu_rl(&mut self, val: u8) -> (r: u8)
        ensures
            r == rl(val, old(self).reg.cf),
            *final(self) == (Cpu { reg: shift_flags(old(self).reg, rl(val, old(self).reg.cf), val >= 0x80), ..*old(self) }),
    {
        let c: u16 = if self.reg.cf { 1 } else { 0 };
        let result = ((val as u16 * 2) % 256 + c) as u8;
        self.alu_sr_flags(result, val >= 0x80);
        result
    }

    pub fn alu_rrc(&mut self, val: u8) -> (r: u8)
        ensures
            r == rrc(val),
            *final(self) == (Cpu { reg: shift_flags(old(self).reg, rrc(val), val % 2 == 1), ..*old(self) }),
    {
        let result = (val as u16 / 2 + (val as u16 % 2) * 128) as u8;
        self.alu_sr_flags(result, val % 2 == 1);
        result
    }

    pub fn alu_rr(&mut self, val: u8) -> (r: u8)
        ensures
            r == rr(val, old(self).reg.cf),
            *final(self) == (Cpu { reg: shift_flags(old(self).reg, rr(val, old(self).reg.cf), val % 2 == 1), ..*old(self) }),
    {
        let c: u16 = if self.reg.cf { 128 } else { 0 };
        let result = (val as u16 / 2 + c) as u8;
        self.alu_sr_flags(result, val % 2 == 1);
        result
    }

    pub fn alu_sla(&mut self, val: u8) -> (r: u8)
        ensures
            r == sla(val),
            *final(self) == (Cpu { reg: shift_flags(old(self).reg, sla(val), val >= 0x80), ..*old(self) }),
    {
        let result = ((val as u16 * 2) % 256) as u8;
        self.alu_sr_flags(result, val >= 0x80);
        result
    }

    pub fn alu_sra(&mut self, val: u8) -> (r: u8)
        ensures
            r == sra(val),
            *final(self) == (Cpu { reg: shift_flags(old(self).reg, sra(val), val % 2 == 1), ..*old(self) }),
    {
        let result = (val / 2 + (val / 128) * 128) as u8;
        self.alu_sr_flags(result, val % 2 == 1);
        result
    }

    pub fn alu_srl(&mut self, val: u8) -> (r: u8)
        ensures
            r == srl(val),
            *final(self) == (Cpu { reg: shift_flags(old(self).reg, srl(val), val % 2 == 1), ..*old(self) }),
    {
        let result = val / 2;
        self.alu_sr_flags(result, val % 2 == 1);
        result
    }

    /// SWAP: exchange the nibbles; Z from the value, N, H and C clear.
    pub fn alu_swap(&mut self, val: u8) -> (r: u8)
        ensures
            r == swap(val),
            *final(self) == (Cpu { reg: shift_flags(old(self).reg, swap(val), false), ..*old(self) }),
    {
        let result = ((val % 16) * 16 + val / 16) as u8;
        self.alu_sr_flags(result, false);
        result
    }

    /// BIT b, r: Z iff bit `b` of `r` is clear; N clear, H set.
    pub fn alu_bit(&mut self, b: u8, r: u8)
        requires
            b < 8,
        ensures
            *final(self) == (Cpu { reg: Registers { zf: !bit_set(r, b), nf: false, hf: true, ..old(self).reg }, ..*old(self) }),
    {
        let p = pow2(b);
        self.reg.zf = (r / p) % 2 == 0;
        self.reg.nf = false;
        self.reg.hf = true;
    }

    /// RES b, r: `r` with bit `b` cleared.
    pub fn alu_res(&self, b: u8, r: u8) -> (res: u8)
        requires
            b < 8,
        ensures
            res == res_bit(r, b),
    {
        let p = pow2(b);
        if (r / p) % 2 == 1 { r - p } else { r }
    }

    /// SET b, r: `r` with bit `b` set.
    pub fn alu_set(&self, b: u8, r: u8) -> (res: u8)
        requires
            b < 8,
        ensures
            res == set_bit(r, b),
    {
        let p = pow2(b);
        if (r / p) % 2 == 1 { r } else { r + p }
    }
}

proof fn lemma_masks()
    ensures
        forall|x: u8| #[trigger] (x & 0x0F) <= 0x0F,
        forall|x: u16| #[trigger] (x & 0x0FFF) <= 0x0FFF,
{
    assert(forall|x: u8| #[trigger] (x & 0x0F) <= 0x0F) by (bit_vector);
    assert(forall|x: u16| #[trigger] (x & 0x0FFF) <= 0x0FFF) by (bit_vector);
}

fn pow2(b: u8) -> (r: u8)
    requires
        b < 8,
    ensures
        r as int == pow2_8(b),
        r >= 1,
{
    if b == 0 {
        1
    } else if b == 1 {
        2
    } else if b == 2 {
        4
    } else if b == 3 {
        8
    } else if b == 4 {
        16
    } else if b == 5 {
        32
    } else if b == 6 {
        64
    } else {
        128
    }
}

} // verus!
