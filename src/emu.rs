use vstd::prelude::*;

use crate::bus::Bus;
use crate::cartridge::Cartridge;
use crate::cpu::{stepped, DecodeError, CPU, CYCLE_LIMIT};
use crate::utils::Opts;

verus! {

/// t-cycles of one frame: 154 lines of 456.
pub const CYCLES_1_FRAME: u64 = 70224;

/// `run` is a sequence of successful steps from `start`, each begun within
/// one frame of t-cycles from `start`.
pub open spec fn frame_run(run: Seq<CPU>, start: CPU) -> bool {
    &&& run.len() >= 1
    &&& run[0] == start
    &&& forall|i: int|
        0 <= i < run.len() - 1 ==> #[trigger] stepped(
            run[i + 1],
            run[i],
            Ok::<u64, DecodeError>((run[i + 1].cycles - run[i].cycles) as u64),
        )
    &&& forall|i: int| 0 <= i < run.len() - 1 ==> #[trigger] run[i].cycles - start.cycles
        <= CYCLES_1_FRAME
}

/// The emulation session: the CPU with its bus, and the driver options.
pub struct EmuContext {
    pub cpu: CPU,
    pub opts: Opts,
}

impl EmuContext {
    pub fn new(cart: Cartridge, opts: Opts) -> (r: Self)
        requires
            cart.wf(),
        ensures
            r.cpu.wf(),
            r.cpu.cycles == 0,
            r.cpu.bus.cartridge == cart,
            r.opts == opts,
    {
        EmuContext { cpu: CPU::new(Bus::new(cart)), opts }
    }

    /// Runs one CPU step; returns the t-cycles it took.
    pub fn step(&mut self) -> (r: Result<u64, DecodeError>)
        requires
            old(self).cpu.wf(),
            old(self).cpu.cycles <= CYCLE_LIMIT,
        ensures
            final(self).cpu.wf(),
            old(self).cpu.cycles + 4 <= final(self).cpu.cycles <= old(self).cpu.cycles + 32,
            r.is_ok() ==> r.unwrap() == final(self).cpu.cycles - old(self).cpu.cycles,
            stepped(final(self).cpu, old(self).cpu, r),
            final(self).opts == old(self).opts,
    {
        self.cpu.step()
    }

    /// Steps until more than one frame of t-cycles has passed; returns the
    /// t-cycles spent, or the first decode error.
    pub fn run_frame(&mut self) -> (r: Result<u64, DecodeError>)
        requires
            old(self).cpu.wf(),
            old(self).cpu.cycles <= CYCLE_LIMIT - CYCLES_1_FRAME - 32,
        ensures
            final(self).cpu.wf(),
            final(self).opts == old(self).opts,
            exists|run: Seq<CPU>|
                {
                    &&& frame_run(run, old(self).cpu)
                    &&& r.is_ok() ==> {
                        &&& run.last() == final(self).cpu
                        &&& r.unwrap() == final(self).cpu.cycles - old(self).cpu.cycles
                        &&& CYCLES_1_FRAME < r.unwrap() <= CYCLES_1_FRAME + 32
                    }
                    &&& r.is_err() ==> {
                        &&& run.last().cycles - old(self).cpu.cycles <= CYCLES_1_FRAME
                        &&& stepped(final(self).cpu, run.last(), r)
                    }
                },
    {
        let start = self.cpu.cycles;
        let mut elapsed: u64 = 0;
        let ghost mut run: Seq<CPU> = seq![self.cpu];
        while elapsed <= CYCLES_1_FRAME
            invariant
                self.cpu.wf(),
                elapsed == self.cpu.cycles - start,
                elapsed <= CYCLES_1_FRAME + 32,
                start <= CYCLE_LIMIT - CYCLES_1_FRAME - 32,
                self.opts == old(self).opts,
                start == old(self).cpu.cycles,
                frame_run(run, old(self).cpu),
                run.last() == self.cpu,
            decreases CYCLES_1_FRAME + 32 - elapsed,
        {
            let ghost before = self.cpu;
            match self.step() {
                Ok(n) => {
                    elapsed = elapsed + n;
                    proof {
                        let run2 = run.push(self.cpu);
                        assert(run2.len() == run.len() + 1);
                        assert forall|i: int| 0 <= i < run2.len() - 1 implies #[trigger] stepped(
                            run2[i + 1],
                            run2[i],
                            Ok::<u64, DecodeError>((run2[i + 1].cycles - run2[i].cycles) as u64),
                        ) by {
                            if i < run.len() - 1 {
                                assert(run2[i + 1] == run[i + 1]);
                                assert(run2[i] == run[i]);
                            } else {
                                assert(run2[i] == before);
                                assert(run2[i + 1] == self.cpu);
                            }
                        }
                        assert forall|i: int| 0 <= i < run2.len() - 1 implies #[trigger] run2[i].cycles
                            - start <= CYCLES_1_FRAME by {
                            if i < run.len() - 1 {
                                assert(run2[i] == run[i]);
                            }
                        }
                        run = run2;
                    }
                },
                Err(e) => {
                    return Err(e);
                },
            }
        }
        Ok(elapsed)
    }
}

} // verus!
