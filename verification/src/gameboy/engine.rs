//! The engine: the owner of processor and bus, and the two ways to drive
//! them, by the step and by the picture.

use vstd::prelude::*;
use crate::gameboy::cpu::{cycle_cost, cycled, Cpu};
use crate::gameboy::mmu::{progressed, Mmu, MmuView};
use crate::gameboy::operations::semantics::{state, Machine};
use crate::gameboy::operations::DecodeError;
use crate::gameboy::rom::Rom;

verus! {

/// The machine.
pub struct Gameboy {
    pub mmu: Mmu,
    pub cpu: Cpu,
}

/// The state after `n` steps of the processor.
pub open spec fn cycled_n(m: Machine, n: nat) -> Machine
    decreases n,
{
    if n == 0 {
        m
    } else {
        cycled(cycled_n(m, (n - 1) as nat))
    }
}

/// The state with no picture waiting for the display.
pub open spec fn emptied(m: Machine) -> Machine {
    Machine { mem: MmuView { frame: None, ..m.mem }, ..m }
}

/// Whether the first `n` steps from `start` all succeed and bring no
/// picture.
pub open spec fn quiet(start: Machine, n: nat) -> bool {
    forall|k: nat|
        k < n ==> (#[trigger] cycled_n(start, k)).mem.frame is None && cycle_cost(
            cycled_n(start, k),
        ) is Ok
}

/// Whether `end` and `res` are how the machine runs up to the next
/// picture from `start`: `n` steps bring no picture and the step after
/// them either brings one, which is handed out, or fails, with the error
/// reported.
pub open spec fn ran_frame(
    start: Machine,
    n: nat,
    end: Machine,
    res: Result<Seq<u32>, DecodeError>,
) -> bool {
    let last = cycled_n(start, n);
    let then = cycled(last);
    &&& quiet(start, n)
    &&& last.mem.frame is None
    &&& match res {
        Ok(pixels) => cycle_cost(last) is Ok && then.mem.frame == Some(pixels) && end == emptied(
            then,
        ),
        Err(error) => cycle_cost(last) == Err::<u8, DecodeError>(error) && end == then,
    }
}

/// The outcome `res` with the picture as a sequence of pixels.
pub open spec fn outcome_view(res: Result<Vec<u32>, DecodeError>) -> Result<Seq<u32>, DecodeError> {
    match res {
        Ok(pixels) => Ok(pixels@),
        Err(error) => Err(error),
    }
}

impl View for Gameboy {
    type V = Machine;

    open spec fn view(&self) -> Machine {
        state(&self.cpu, &self.mmu)
    }
}

impl Gameboy {
    /// The machine at power-on, with the cartridge `rom` in its slot.
    pub fn new(rom: Rom) -> (gameboy: Gameboy)
        ensures
            gameboy@ == (Machine { cpu: Cpu::initial(), mem: Mmu::initial(rom@) }),
    {
        Gameboy { cpu: Cpu::new(), mmu: Mmu::new(rom) }
    }

    /// Does one step of the processor and returns the T-states that it
    /// took.
    pub fn step(&mut self) -> (res: Result<u8, DecodeError>)
        ensures
            final(self)@ == cycled(old(self)@),
            res == cycle_cost(old(self)@),
    {
        self.cpu.cycle(&mut self.mmu)
    }

    /// Steps the machine until the picture unit has finished a picture,
    /// and hands that picture out. A picture that was waiting before is
    /// dropped first. Stops at the first step that fails.
    pub fn run_frame(&mut self) -> (res: Result<Vec<u32>, DecodeError>)
        ensures
            exists|n: nat| ran_frame(emptied(old(self)@), n, final(self)@, outcome_view(res)),
    {
        let _ = self.mmu.take_frame();
        let ghost start = self@;
        let ghost mut n: nat = 0;
        assert(start == emptied(old(self)@));
        self.mmu.well_formed();
        loop
            invariant
                start == emptied(old(self)@),
                self@ == cycled_n(start, n),
                quiet(start, n),
                self@.mem.frame is None,
                self.mmu@.wf(),
            decreases self.mmu@.ppu.cycles_to_frame(),
        {
            let ghost last = self@;
            let ghost before = self.mmu@;
            match self.cpu.cycle(&mut self.mmu) {
                Ok(_) => {},
                Err(error) => {
                    assert(cycled_n(start, n) == last);
                    assert(ran_frame(start, n, self@, outcome_view(Err(error))));
                    return Err(error);
                },
            }
            let ghost then = self@;
            assert(then == cycled(last));
            assert(progressed(before, then.mem));
            self.mmu.well_formed();
            match self.mmu.take_frame() {
                Some(pixels) => {
                    assert(self@ == emptied(then));
                    assert(then.mem.frame == Some(pixels@));
                    assert(ran_frame(start, n, self@, outcome_view(Ok(pixels))));
                    return Ok(pixels);
                },
                None => {
                    proof {
                        assert(then.mem.frame is None);
                        assert(self@.mem == then.mem);
                        assert(self@ == then);
                        assert(cycled_n(start, n + 1) == cycled(cycled_n(start, n)));
                        assert(quiet(start, n + 1)) by {
                            assert forall|k: nat| k < n + 1 implies (#[trigger] cycled_n(
                                start,
                                k,
                            )).mem.frame is None && cycle_cost(cycled_n(start, k)) is Ok by {
                                if k == n {
                                    assert(cycled_n(start, k) == last);
                                }
                            }
                        }
                        n = n + 1;
                    }
                },
            }
        }
    }
}

} // verus!
