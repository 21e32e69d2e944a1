pub mod alu;
pub mod execute;
pub mod interrupts;
pub mod opcodes;
pub mod registers;

use vstd::prelude::*;
use crate::mmu::Mmu;
use self::execute::{add_wrap, executed, instr_cycles};
use crate::mmu::mmu_stepped;
use self::registers::Registers;

verus! {

/// The SM83 CPU, owning the memory map it runs against.
pub struct Cpu {
    pub reg: Registers,
    pub mmu: Mmu,
    /// Interrupt Master Enable.
    pub ime: bool,
    /// Set by HALT until an interrupt is pending.
    pub halt: bool,
    /// EI was executed: IME is set after the instruction that follows it.
    pub ei_pending: bool,
}

/// The pending interrupt with the highest priority in `t`: its bit index.
pub open spec fn lowest_pending(t: u8) -> u8 {
    if t & 0x01 != 0 {
        0
    } else if t & 0x02 != 0 {
        1
    } else if t & 0x04 != 0 {
        2
    } else if t & 0x08 != 0 {
        3
    } else {
        4
    }
}

/// The IF bit of interrupt `i`.
pub open spec fn irq_bit(i: u8) -> u8 {
    if i == 0 {
        0x01
    } else if i == 1 {
        0x02
    } else if i == 2 {
        0x04
    } else if i == 3 {
        0x08
    } else {
        0x10
    }
}

/// The interrupts that are both requested and enabled.
pub open spec fn triggered(c: Cpu) -> u8 {
    c.mmu@.read(0xFFFF) & c.mmu@.read(0xFF0F) & 0x1F
}

/// Interrupts are due and IME lets one be serviced.
pub open spec fn services(c: Cpu) -> bool {
    c.ime && triggered(c) != 0
}

/// The CPU part of a step from `before`: `mid` is the state once an interrupt
/// was serviced, or the CPU idled in HALT, or one instruction ran; `t` is its
/// T-cycles. An instruction runs as `executed` says; if EI preceded it (and
/// it did not cancel EI), IME is set after it.
pub open spec fn run_step(before: Cpu, mid: Cpu, t: u32) -> bool {
    let i = lowest_pending(triggered(before));
    let sp = add_wrap(before.reg.sp, -2);
    if services(before) {
        &&& t == 16
        &&& !mid.ime && !mid.halt
        &&& mid.ei_pending == before.ei_pending
        &&& mid.reg == (Registers { sp, pc: (0x40 + 8 * i) as u16, ..before.reg })
        &&& mid.mmu@ == before.mmu@.write(0xFF0F, before.mmu@.read(0xFF0F) & !irq_bit(i)).write16(
            sp,
            before.reg.pc,
        )
    } else if before.halt && triggered(before) == 0 {
        t == 1 && mid == before
    } else {
        let s = (Cpu { halt: false, ..before }).fetched();
        let op = before.mmu@.read(before.reg.pc);
        &&& t == instr_cycles(op, s)
        &&& exists|ex: Cpu|
            #[trigger] executed(s, ex, op) && ex.wf() && mid == (if before.ei_pending && ex.ei_pending {
                Cpu { ime: true, ei_pending: false, ..ex }
            } else {
                ex
            })
    }
}

/// One `Cpu::cycle` from `before` to `after` taking `t` T-cycles: the CPU
/// part of the step, then the timer and PPU run for those cycles.
pub open spec fn stepped(before: Cpu, after: Cpu, t: u32) -> bool {
    exists|mid: Cpu|
        #[trigger] run_step(before, mid, t) && mid.wf() && after.reg == mid.reg && after.same_control(mid)
            && mmu_stepped(mid.mmu@, after.mmu@, t)
}

impl Cpu {
    pub open spec fn wf(self) -> bool {
        self.mmu@.wf()
    }

    /// The state after fetching the opcode at PC.
    pub open spec fn fetched(self) -> Cpu {
        Cpu { reg: Registers { pc: add_wrap(self.reg.pc, 1), ..self.reg }, ..self }
    }

    /// Fetch the opcode at PC.
    pub fn fetch(&mut self) -> (r: u8)
        requires
            old(self).wf(),
        ensures
            r == old(self).mmu@.read(old(self).reg.pc),
            *final(self) == old(self).fetched(),
    {
        self.imm8()
    }

    /// Service the highest-priority pending interrupt, if IME allows; returns
    /// the T-cycles this took. A pending interrupt ends HALT even with IME
    /// clear. Servicing clears IME and the interrupt's IF bit, pushes PC and
    /// jumps to 0x40 + 8 * the interrupt's bit.
    pub fn handle_interrupts(&mut self) -> (r: u32)
        requires
            old(self).wf(),
        ensures
            final(self).wf(),
            (!old(self).halt && !old(self).ime) || triggered(*old(self)) == 0 ==> r == 0 && *final(self)
                == *old(self),
            old(self).halt && !old(self).ime && triggered(*old(self)) != 0 ==> r == 0 && *final(self)
                == (Cpu { halt: false, ..*old(self) }),
            old(self).ime && triggered(*old(self)) != 0 ==> {
                let i = lowest_pending(triggered(*old(self)));
                let sp = add_wrap(old(self).reg.sp, -2);
                &&& r == 16
                &&& !final(self).ime && !final(self).halt
                &&& final(self).ei_pending == old(self).ei_pending
                &&& final(self).reg == (Registers { sp, pc: (0x40 + 8 * i) as u16, ..old(self).reg })
                &&& final(self).mmu@ == old(self).mmu@.write(
                    0xFF0F,
                    old(self).mmu@.read(0xFF0F) & !irq_bit(i),
                ).write16(sp, old(self).reg.pc)
            },
    {
        if !self.halt && !self.ime {
            return 0;
        }
        let ie = self.mmu.read8(0xFFFF);
        let if_ = self.mmu.read8(0xFF0F);
        let pending = ie & if_ & 0x1F;
        if pending == 0 {
            return 0;
        }
        self.halt = false;
        if !self.ime {
            return 0;
        }
        self.ime = false;
        let i: u8 = if pending & 0x01 != 0 {
            0
        } else if pending & 0x02 != 0 {
            1
        } else if pending & 0x04 != 0 {
            2
        } else if pending & 0x08 != 0 {
            3
        } else {
            4
        };
        let bit: u8 = if i == 0 {
            0x01
        } else if i == 1 {
            0x02
        } else if i == 2 {
            0x04
        } else if i == 3 {
            0x08
        } else {
            0x10
        };
        self.mmu.write8(0xFF0F, if_ & !bit);
        let pc = self.reg.pc;
        self.stack_push(pc);
        self.reg.pc = 0x40 + 8 * i as u16;
        16
    }

    /// Power up against a memory map. With a boot ROM mapped the CPU starts
    /// at 0 with every register clear; without one it starts at 0x0100 with
    /// the registers the boot ROM leaves (AF 01B0, BC 0013, DE 00D8,
    /// HL 014D, SP FFFE).
    pub fn power_on(mmu: Mmu) -> (r: Cpu)
        requires
            mmu@.wf(),
        ensures
            r.wf(),
            r.mmu == mmu,
            !r.ime && !r.halt && !r.ei_pending,
            mmu@.boot_rom.len() > 0 ==> r.reg == Registers::new_spec(),
            mmu@.boot_rom.len() == 0 ==> r.reg == Registers::post_boot(),
    {
        let reg = if mmu.boot_rom.len() > 0 {
            Registers::new()
        } else {
            Registers {
                a: 0x01,
                b: 0x00,
                c: 0x13,
                d: 0x00,
                e: 0xD8,
                h: 0x01,
                l: 0x4D,
                zf: true,
                nf: false,
                hf: true,
                cf: true,
                sp: 0xFFFE,
                pc: 0x0100,
            }
        };
        Cpu { reg, mmu, ime: false, halt: false, ei_pending: false }
    }

    /// Run one step: service the highest-priority pending interrupt if IME
    /// allows (a pending interrupt also ends HALT); otherwise, unless halted,
    /// fetch and execute one instruction, an EI before it taking effect once
    /// it is done. Then let the timer and PPU catch up. Returns the T-cycles
    /// of the step: 16 for an interrupt, 1 while halted, else the
    /// instruction's.
    pub fn cycle(&mut self) -> (r: u32)
        requires
            old(self).wf(),
        ensures
            final(self).wf(),
            stepped(*old(self), *final(self), r),
    {
        let ghost start = *self;
        let mut ticks = self.handle_interrupts();
        if ticks == 0 {
            if !self.halt {
                let ghost unhalted = *self;
                let enable = self.ei_pending;
                let op = self.fetch();
                let ghost fetched = *self;
                ticks = self.op_execute(op);
                let ghost ex = *self;
                if enable && self.ei_pending {
                    self.ime = true;
                    self.ei_pending = false;
                }
                proof {
                    assert(unhalted == (Cpu { halt: false, ..start }));
                    assert(fetched == (Cpu { halt: false, ..start }).fetched());
                    assert(executed(fetched, ex, op) && ex.wf());
                }
            } else {
                ticks = 1;
            }
        }
        let ghost mid = *self;
        let r = self.mmu.cycle(ticks);
        proof {
            assert(run_step(start, mid, ticks));
        }
        r
    }
}

} // verus!
