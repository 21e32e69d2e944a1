use vstd::prelude::*;
use crate::cartridge::{cartridge_of, Cartridge, CartridgeError, CartridgeView};
use crate::cpu::{stepped, Cpu};
use crate::cpu::registers::Registers;
use crate::mmu::Mmu;

verus! {

/// The Game Boy: the CPU and everything it drives.
pub struct GameBoy {
    pub cpu: Cpu,
}

impl GameBoy {
    pub open spec fn wf(self) -> bool {
        self.cpu.wf()
    }

    /// Power up with a ROM image and no boot ROM: the cartridge is made of
    /// the image, and the CPU starts at 0x0100 as the boot ROM would leave it.
    pub fn power_on(rom: Vec<u8>) -> (r: Result<GameBoy, CartridgeError>)
        ensures
            match r {
                Ok(gb) => {
                    &&& gb.wf()
                    &&& cartridge_of(rom@) == Ok::<CartridgeView, CartridgeError>(gb.cpu.mmu@.cart)
                    &&& gb.cpu.reg == Registers::post_boot()
                    &&& !gb.cpu.ime && !gb.cpu.halt
                },
                Err(e) => cartridge_of(rom@) == Err::<CartridgeView, CartridgeError>(e),
            },
    {
        match Cartridge::new(rom) {
            Ok(cart) => {
                let mmu = Mmu::new(cart, Vec::new());
                Ok(GameBoy { cpu: Cpu::power_on(mmu) })
            },
            Err(e) => Err(e),
        }
    }

    /// Step the CPU until at least `budget` T-cycles have passed; returns
    /// how many did. The final state is reached from the initial one by
    /// successive `Cpu::cycle` steps whose T-cycles add up to the result.
    pub fn run_ticks(&mut self, budget: u32) -> (r: u64)
        requires
            old(self).wf(),
        ensures
            final(self).wf(),
            r >= budget,
            r < budget as int + 64,
            exists|tr: Seq<Cpu>, ts: Seq<u32>|
                #[trigger] steps(tr, ts) && tr[0] == old(self).cpu && tr.last() == final(self).cpu
                    && sum_ticks(ts) == r,
    {
        let mut ticks: u64 = 0;
        let ghost mut tr: Seq<Cpu> = seq![self.cpu];
        let ghost mut ts: Seq<u32> = Seq::empty();
        while ticks < budget as u64
            invariant
                self.wf(),
                ticks < budget as int + 64,
                steps(tr, ts),
                tr[0] == old(self).cpu,
                tr.last() == self.cpu,
                sum_ticks(ts) == ticks,
            decreases budget as int + 64 - ticks,
        {
            let t = self.cpu.cycle();
            proof {
                let tr2 = tr.push(self.cpu);
                let ts2 = ts.push(t);
                assert(ts2.drop_last() =~= ts);
                assert forall|i: int| 0 <= i < ts2.len() implies stepped(tr2[i], tr2[i + 1], ts2[i]) by {
                    if i < ts.len() {
                        assert(tr2[i] == tr[i] && tr2[i + 1] == tr[i + 1] && ts2[i] == ts[i]);
                    }
                }
                tr = tr2;
                ts = ts2;
            }
            ticks = ticks + t as u64;
        }
        proof {
            assert(steps(tr, ts) && tr[0] == old(self).cpu && tr.last() == self.cpu && sum_ticks(ts) == ticks);
        }
        ticks
    }
}

/// `tr` is a run of `Cpu::cycle` steps: each state follows from the one
/// before it in `ts[i]` T-cycles.
pub open spec fn steps(tr: Seq<Cpu>, ts: Seq<u32>) -> bool {
    &&& tr.len() == ts.len() + 1
    &&& forall|i: int| 0 <= i < ts.len() ==> #[trigger] stepped(tr[i], tr[i + 1], ts[i])
}

/// The total of a sequence of T-cycle counts.
pub open spec fn sum_ticks(ts: Seq<u32>) -> int
    decreases ts.len(),
{
    if ts.len() == 0 {
        0
    } else {
        sum_ticks(ts.drop_last()) + ts.last()
    }
}

} // verus!
