pub mod clock;

use vstd::prelude::*;
use crate::cpu::interrupts::{flag_mask, Flags, InterruptFlags};
use self::clock::Clock;

verus! {

/// The number of CPU cycles per TIMA increment for the clock select of TAC.
pub open spec fn tima_period(tac: u8) -> u32 {
    if tac % 4 == 0 {
        1024
    } else if tac % 4 == 1 {
        16
    } else if tac % 4 == 2 {
        64
    } else {
        256
    }
}

/// TIMA after `k` increments: past 0xFF it reloads from TMA.
pub open spec fn tima_after(tima: u8, tma: u8, k: nat) -> u8
    decreases k,
{
    if k == 0 {
        tima
    } else {
        let t = tima_after(tima, tma, (k - 1) as nat);
        if t == 0xFF {
            tma
        } else {
            (t + 1) as u8
        }
    }
}

/// Whether any of `k` increments of TIMA overflows.
pub open spec fn tima_overflows(tima: u8, tma: u8, k: nat) -> bool
    decreases k,
{
    if k == 0 {
        false
    } else {
        tima_overflows(tima, tma, (k - 1) as nat) || tima_after(tima, tma, (k - 1) as nat) == 0xFF
    }
}

/// `after` is the timer, and `if1` the Interrupt Flag register, once
/// `cycles` CPU cycles have passed from `before` and `if0`.
pub open spec fn timer_stepped(before: Timer, after: Timer, if0: u8, if1: u8, cycles: u32) -> bool {
    &&& after.tma == before.tma
    &&& after.tac == before.tac
    &&& after.div == (before.div + (before.div_clock.n + cycles) / 256) % 256
    &&& after.div_clock.n == (before.div_clock.n + cycles) % 256
    &&& before.tac & 0x04 == 0 ==> after.tima == before.tima && after.tima_clock == before.tima_clock
        && if1 == if0
    &&& before.tac & 0x04 != 0 ==> {
        let k = ((before.tima_clock.n + cycles) / (before.tima_clock.period as int)) as nat;
        &&& after.tima == tima_after(before.tima, before.tma, k)
        &&& after.tima_clock.n == (before.tima_clock.n + cycles) % (before.tima_clock.period as int)
        &&& if1 == if tima_overflows(before.tima, before.tma, k) {
            if0 | flag_mask(Flags::Timer)
        } else {
            if0
        }
    }
}

/// The timer: DIV counts every 256 cycles; TIMA counts at the rate TAC selects
/// while TAC's bit 2 is set, and on overflow reloads from TMA and requests the
/// Timer interrupt.
pub struct Timer {
    pub div: u8,
    pub tima: u8,
    pub tma: u8,
    pub tac: u8,
    pub div_clock: Clock,
    pub tima_clock: Clock,
}

impl Timer {
    pub open spec fn wf(self) -> bool {
        &&& self.div_clock.wf()
        &&& self.div_clock.period == 256
        &&& self.tima_clock.wf()
        &&& self.tima_clock.period == tima_period(self.tac)
    }

    /// The value of the register at `a` (0xFF04 to 0xFF07).
    pub open spec fn reg(self, a: u16) -> u8 {
        if a == 0xFF04 {
            self.div
        } else if a == 0xFF05 {
            self.tima
        } else if a == 0xFF06 {
            self.tma
        } else {
            self.tac
        }
    }

    /// The timer after a CPU write of `v` to `a` (0xFF04 to 0xFF07).
    pub open spec fn write_spec(self, a: u16, v: u8) -> Timer {
        if a == 0xFF04 {
            Timer { div: 0, div_clock: Clock { n: 0, ..self.div_clock }, ..self }
        } else if a == 0xFF05 {
            Timer { tima: v, ..self }
        } else if a == 0xFF06 {
            Timer { tma: v, ..self }
        } else if self.tac % 4 == v % 4 {
            Timer { tac: v, ..self }
        } else {
            Timer {
                tac: v,
                tima: if self.tac & 0x04 != 0 { self.tma } else { self.tima },
                tima_clock: Clock { period: tima_period(v), n: 0 },
                ..self
            }
        }
    }

    pub fn new() -> (r: Timer)
        ensures
            r.wf(),
            r.div == 0 && r.tima == 0 && r.tma == 0 && r.tac == 0,
            r.div_clock.n == 0 && r.tima_clock.n == 0,
    {
        Timer {
            div: 0,
            tima: 0,
            tma: 0,
            tac: 0,
            div_clock: Clock::new(256),
            tima_clock: Clock::new(1024),
        }
    }

    /// Read DIV, TIMA, TMA or TAC.
    pub fn get(&self, a: u16) -> (r: u8)
        requires
            0xFF04 <= a <= 0xFF07,
        ensures
            r == self.reg(a),
    {
        if a == 0xFF04 {
            self.div
        } else if a == 0xFF05 {
            self.tima
        } else if a == 0xFF06 {
            self.tma
        } else {
            self.tac
        }
    }

    /// Write DIV, TIMA, TMA or TAC. Any write to DIV clears it. A write to TAC
    /// that changes the clock select restarts the TIMA divider at the new rate,
    /// and if the timer was running reloads TIMA from TMA.
    pub fn set(&mut self, a: u16, v: u8)
        requires
            old(self).wf(),
            0xFF04 <= a <= 0xFF07,
        ensures
            final(self).wf(),
            *final(self) == old(self).write_spec(a, v),
    {
        if a == 0xFF04 {
            self.div = 0;
            self.div_clock.n = 0;
        } else if a == 0xFF05 {
            self.tima = v;
        } else if a == 0xFF06 {
            self.tma = v;
        } else {
            if self.tac % 4 != v % 4 {
                let period: u32 = if v % 4 == 0 {
                    1024
                } else if v % 4 == 1 {
                    16
                } else if v % 4 == 2 {
                    64
                } else {
                    256
                };
                self.tima_clock = Clock::new(period);
                if self.tac & 0x04 != 0 {
                    self.tima = self.tma;
                }
            }
            self.tac = v;
        }
    }

    /// Advance the timer by `cycles` CPU cycles.
    pub fn cycle(&mut self, cycles: u32, if_: &mut InterruptFlags)
        requires
            old(self).wf(),
        ensures
            final(self).wf(),
            timer_stepped(*old(self), *final(self), old(if_).data, final(if_).data, cycles),
    {
        let d = self.div_clock.cycle(cycles);
        self.div = self.div.wrapping_add((d % 256) as u8);
        if (self.tac & 0x04) != 0x00 {
            let n = self.tima_clock.cycle(cycles);
            let ghost tima0 = self.tima;
            let ghost if0 = if_.data;
            let ghost snap = *self;
            let mut i: u32 = 0;
            while i < n
                invariant
                    i <= n,
                    self.tac == snap.tac && self.div == snap.div,
                    self.div_clock == snap.div_clock && self.tima_clock == snap.tima_clock,
                    self.tma == old(self).tma,
                    self.tima == tima_after(tima0, self.tma, i as nat),
                    if_.data == if tima_overflows(tima0, self.tma, i as nat) {
                        if0 | flag_mask(Flags::Timer)
                    } else {
                        if0
                    },
                decreases n - i,
            {
                let ghost before = if_.data;
                if self.tima == 0xFF {
                    self.tima = self.tma;
                    if_.set(Flags::Timer);
                    proof {
                        assert((if0 | 4u8) | 4u8 == if0 | 4u8) by (bit_vector);
                    }
                } else {
                    self.tima = self.tima + 1;
                }
                i = i + 1;
            }
        }
    }
}

} // verus!
