use vstd::prelude::*;

verus! {

/// A divider: it counts elapsed cycles and ticks once every `period` of them.
pub struct Clock {
    pub period: u32,
    pub n: u32,
}

impl Clock {
    /// A clock's accumulator stays below its period.
    pub open spec fn wf(self) -> bool {
        0 < self.period && self.n < self.period
    }

    pub fn new(period: u32) -> (r: Clock)
        requires
            period > 0,
        ensures
            r.period == period,
            r.n == 0,
            r.wf(),
    {
        Clock { period, n: 0x00 }
    }

    /// Account for `cycles` more cycles; returns how many ticks they complete.
    pub fn cycle(&mut self, cycles: u32) -> (r: u32)
        requires
            old(self).wf(),
        ensures
            final(self).wf(),
            final(self).period == old(self).period,
            r == (old(self).n + cycles) / (old(self).period as int),
            final(self).n == (old(self).n + cycles) % (old(self).period as int),
    {
        let total: u64 = self.n as u64 + cycles as u64;
        let p: u64 = self.period as u64;
        let ticks: u64 = total / p;
        let rest: u64 = total % p;
        assert(ticks * p <= total) by (nonlinear_arith)
            requires
                ticks == total / p,
                p > 0,
        ;
        if p == 1 {
            assert(ticks == total) by (nonlinear_arith)
                requires
                    ticks == total / p,
                    p == 1,
            ;
        } else {
            assert(ticks * 2 <= ticks * p) by (nonlinear_arith)
                requires
                    p >= 2,
            ;
        }
        assert(rest < p) by (nonlinear_arith)
            requires
                rest == total % p,
                p > 0,
        ;
        self.n = rest as u32;
        ticks as u32
    }
}

} // verus!
