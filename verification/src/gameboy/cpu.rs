//! The processor: the register file and run state, the fetch of opcodes
//! and immediate operands, the stack, and the service of interrupts.

use vstd::prelude::*;
use crate::bitty::{bit_at, lemma_join_bytes, lemma_split_word, with_bit, word_of, BitFlags};
use crate::gameboy::mmu::{lemma_ticks_progress, progressed, Mmu, MmuView};
use crate::gameboy::operations::execute::{execute, takes_branch};
use crate::gameboy::operations::semantics::{cycles_of, run, state, Machine};
use crate::gameboy::operations::{decode, get_operation, DecodeError, Instr, Operation};
use crate::gameboy::registers::Registers;

verus! {

/// Whether the processor is executing instructions.
#[derive(Clone, Copy, Debug, PartialEq, Eq, Structural)]
pub enum RunState {
    /// Fetching and executing.
    Running,
    /// After `HALT`: waiting for an interrupt that is both requested and
    /// enabled.
    Halted,
    /// After `STOP`: waiting for the joypad.
    Stopped,
}

/// The processor.
#[derive(Clone, Copy, Debug, PartialEq, Eq, Structural)]
pub struct Cpu {
    pub regs: Registers,
    /// The cost in T-states of the last instruction.
    pub counter: u8,
    pub state: RunState,
    /// Whether `EI` has been executed and the interrupt master enable is
    /// to be set once the instruction after it is done.
    pub ime_pending: bool,
}

/// The code of the instruction at the program counter: the byte there, or,
/// where that byte is the prefix 0xCB, the prefix and the byte after it.
pub open spec fn code_at(m: Machine) -> u16 {
    let first = m.mem.read(m.cpu.regs.pc);
    if first == 0xCB {
        word_of(0xCB, m.mem.read(m.cpu.regs.pc.wrapping_add(1)))
    } else {
        first as u16
    }
}

/// The state after the opcode at the program counter is fetched: the
/// program counter is past the opcode, one byte on or two with a prefix.
pub open spec fn fetched(m: Machine) -> Machine {
    if m.mem.read(m.cpu.regs.pc) == 0xCB {
        m.skip(2)
    } else {
        m.skip(1)
    }
}

/// The number, 0 to 4, of the lowest bit that is set in `pending`, a byte
/// with one of its low five bits set.
pub open spec fn lowest_pending(pending: u8) -> u8 {
    if bit_at(pending, 0) == 1 {
        0
    } else if bit_at(pending, 1) == 1 {
        1
    } else if bit_at(pending, 2) == 1 {
        2
    } else if bit_at(pending, 3) == 1 {
        3
    } else {
        4
    }
}

/// The address of the handler of interrupt `k`: 0x40 for the vertical
/// blank, then 0x48, 0x50, 0x58 and 0x60.
pub open spec fn vector(k: u8) -> u16 {
    (0x40 + 8 * k) as u16
}

/// Whether an interrupt is serviced from the state `m`: the master enable
/// is on and an interrupt is both requested and enabled.
pub open spec fn interrupts(m: Machine) -> bool {
    m.mem.ime && m.mem.pending() != 0
}

/// The state after the check for interrupts. Where one is serviced, the
/// lowest of those pending is taken: its request is cleared, the master
/// enable is switched off, the program counter is pushed and execution
/// goes on, running, at the handler.
pub open spec fn serviced(m: Machine) -> Machine {
    if interrupts(m) {
        let k = lowest_pending(m.mem.pending());
        let flags = with_bit(m.mem.interrupt_flags(), k as int, 0) as u8;
        let entered = Machine {
            cpu: Cpu { state: RunState::Running, ..m.cpu },
            mem: MmuView { ime: false, ..m.mem.with_interrupt_flags(flags) },
        };
        entered.push16(m.cpu.regs.pc).with_pc(vector(k))
    } else {
        m
    }
}

/// The state after the check for a wake-up: a halted processor runs again
/// once an interrupt is both requested and enabled, whatever the master
/// enable says; a stopped one once the joypad requests its interrupt.
pub open spec fn woken(m: Machine) -> Machine {
    let wake = match m.cpu.state {
        RunState::Running => false,
        RunState::Halted => m.mem.pending() != 0,
        RunState::Stopped => bit_at(m.mem.interrupt_flags(), 4) == 1,
    };
    if wake {
        Machine { cpu: Cpu { state: RunState::Running, ..m.cpu }, ..m }
    } else {
        m
    }
}

/// The state after `n` machine cycles have passed on the bus.
pub open spec fn ticked(m: Machine, n: nat) -> Machine {
    Machine { mem: m.mem.ticks(n), ..m }
}

/// The state after a delayed `EI` has come due: where an enable was on its
/// way before the instruction (`due`) and still is after it, the master
/// enable is switched on.
pub open spec fn enabled(due: bool, m: Machine) -> Machine {
    if due && m.cpu.ime_pending {
        Machine {
            cpu: Cpu { ime_pending: false, ..m.cpu },
            mem: MmuView { ime: true, ..m.mem },
        }
    } else {
        m
    }
}

/// The state with the cost of the last instruction recorded.
pub open spec fn counted(m: Machine, cycles: u8) -> Machine {
    Machine { cpu: Cpu { counter: cycles, ..m.cpu }, ..m }
}

/// The state after the instruction `instr` at the program counter is
/// carried out in full from `before`: fetched and executed; the bus
/// advanced by one machine cycle for every four T-states of its cost; a
/// delayed `EI` made effective; interrupts checked.
pub open spec fn completed(before: Machine, instr: Instr) -> Machine {
    let cycles = cycles_of(instr, before.cpu.regs.flags);
    let ran = run(instr, fetched(before));
    serviced(counted(enabled(before.cpu.ime_pending, ticked(ran, (cycles / 4) as nat)), cycles))
}

/// The state after a halted or stopped processor has let one machine
/// cycle pass: the bus advances, the processor wakes if what it waits for
/// has come, and interrupts are checked.
pub open spec fn idled(before: Machine) -> Machine {
    serviced(counted(woken(ticked(before, 1)), 4))
}

/// The state after one step of the processor. A running processor carries
/// out the instruction at the program counter; if the code there names no
/// instruction, the step ends with the opcode fetched and nothing else
/// done. A halted or stopped processor idles.
#[verifier::opaque]
pub open spec fn cycled(before: Machine) -> Machine {
    match before.cpu.state {
        RunState::Running => match decode(code_at(before)) {
            Some(instr) => completed(before, instr),
            None => fetched(before),
        },
        _ => idled(before),
    }
}

/// What one step of the processor reports: the T-states that it took, or
/// the code that could not be decoded.
#[verifier::opaque]
pub open spec fn cycle_cost(before: Machine) -> Result<u8, DecodeError> {
    match before.cpu.state {
        RunState::Running => match decode(code_at(before)) {
            Some(instr) => Ok(cycles_of(instr, before.cpu.regs.flags)),
            None => Err(DecodeError { code: code_at(before) }),
        },
        _ => Ok(4u8),
    }
}

/// [`cycled`] and [`cycle_cost`], which are opaque, written out.
pub proof fn lemma_cycled(before: Machine)
    ensures
        before.cpu.state is Running ==> (match decode(code_at(before)) {
            Some(instr) => cycled(before) == completed(before, instr) && cycle_cost(before) == Ok::<
                u8,
                DecodeError,
            >(cycles_of(instr, before.cpu.regs.flags)),
            None => cycled(before) == fetched(before) && cycle_cost(before) == Err::<
                u8,
                DecodeError,
            >(DecodeError { code: code_at(before) }),
        }),
        !(before.cpu.state is Running) ==> cycled(before) == idled(before) && cycle_cost(before)
            == Ok::<u8, DecodeError>(4u8),
{
    reveal(cycled);
    reveal(cycle_cost);
}

/// Every instruction that the decoder gives is well formed and costs
/// between 4 and 24 T-states, taken branch included.
pub proof fn lemma_decoded(code: u16)
    ensures
        decode(code) matches Some(instr) ==> instr.well_formed() && 4 <= instr.base_cycles()
            && instr.base_cycles() + instr.taken_cycles() <= 24,
{
}

impl Cpu {
    /// The processor after reset.
    pub open spec fn initial() -> Cpu {
        Cpu {
            regs: Registers::initial(),
            counter: 0,
            state: RunState::Running,
            ime_pending: false,
        }
    }

    pub fn new() -> (cpu: Cpu)
        ensures
            cpu == Cpu::initial(),
    {
        Cpu { regs: Registers::new(), counter: 0, state: RunState::Running, ime_pending: false }
    }

    /// Fetches the opcode at the program counter and decodes it. The
    /// program counter ends up past the opcode, whether or not the code
    /// names an instruction.
    pub fn get_operation(&mut self, mmu: &Mmu) -> (res: Result<Operation, DecodeError>)
        ensures
            state(final(self), mmu) == fetched(state(old(self), mmu)),
            match decode(code_at(state(old(self), mmu))) {
                Some(instr) => res is Ok && res->Ok_0.describes(instr),
                None => res == Err::<Operation, DecodeError>(
                    DecodeError { code: code_at(state(old(self), mmu)) },
                ),
            },
    {
        let code = self.fetch(mmu);
        get_operation(code)
    }

    /// Fetches the code of the instruction at the program counter: one
    /// byte, or two with the prefix 0xCB.
    pub fn fetch(&mut self, mmu: &Mmu) -> (code: u16)
        ensures
            code == code_at(state(old(self), mmu)),
            state(final(self), mmu) == fetched(state(old(self), mmu)),
    {
        let first = self.immediate_u8_pc(mmu);
        if first == 0xCB {
            let second = self.immediate_u8_pc(mmu);
            proof {
                lemma_join_bytes(0xCB, second);
            }
            (0xCBu16 << 8) | second as u16
        } else {
            first as u16
        }
    }

    /// The word that follows the opcode at the program counter, low byte
    /// first. The program counter stays where it is.
    pub fn immediate_u16(&self, mmu: &Mmu) -> (word: u16)
        ensures
            word == mmu@.read16(self.regs.pc.wrapping_add(1)),
    {
        mmu.read_u16(self.regs.pc.wrapping_add(1))
    }

    /// The byte that follows the opcode at the program counter. The
    /// program counter stays where it is.
    pub fn immediate_u8(&self, mmu: &Mmu) -> (byte: u8)
        ensures
            byte == mmu@.read(self.regs.pc.wrapping_add(1)),
    {
        mmu.read(self.regs.pc.wrapping_add(1))
    }

    /// Reads the byte at the program counter and moves the counter past
    /// it.
    pub fn immediate_u8_pc(&mut self, mmu: &Mmu) -> (byte: u8)
        ensures
            byte == state(old(self), mmu).imm8(),
            state(final(self), mmu) == state(old(self), mmu).skip(1),
    {
        let res = mmu.read(self.regs.pc);
        self.regs.pc = self.regs.pc.wrapping_add(1);
        res
    }

    /// Reads the word at the program counter, low byte first, and moves
    /// the counter past it.
    pub fn immediate_u16_pc(&mut self, mmu: &Mmu) -> (word: u16)
        ensures
            word == state(old(self), mmu).imm16(),
            state(final(self), mmu) == state(old(self), mmu).skip(2),
    {
        let res = mmu.read_u16(self.regs.pc);
        self.regs.pc = self.regs.pc.wrapping_add(2);
        res
    }

    /// Pops a byte: reads where the stack pointer points, then moves the
    /// pointer up by one.
    pub fn stack_pop_u8(&mut self, mmu: &mut Mmu) -> (byte: u8)
        ensures
            byte == state(old(self), old(mmu)).top8(),
            state(final(self), final(mmu)) == state(old(self), old(mmu)).release(1),
            final(mmu)@.timing() == old(mmu)@.timing(),
    {
        let byte = mmu.read(self.regs.sp);
        self.regs.sp = self.regs.sp.wrapping_add(1);
        byte
    }

    /// Pushes a byte: moves the stack pointer down by one, then writes
    /// where it points.
    pub fn stack_push_u8(&mut self, val: u8, mmu: &mut Mmu)
        ensures
            state(final(self), final(mmu)) == state(old(self), old(mmu)).push8(val),
            final(mmu)@.timing() == old(mmu)@.timing(),
    {
        self.regs.sp = self.regs.sp.wrapping_sub(1);
        mmu.write(self.regs.sp, val);
    }

    /// Pops a word: the low byte first, then the high byte.
    pub fn stack_pop_u16(&mut self, mmu: &mut Mmu) -> (word: u16)
        ensures
            word == state(old(self), old(mmu)).top16(),
            state(final(self), final(mmu)) == state(old(self), old(mmu)).release(2),
            final(mmu)@.timing() == old(mmu)@.timing(),
    {
        let lo = self.stack_pop_u8(mmu);
        let hi = self.stack_pop_u8(mmu);
        proof {
            lemma_join_bytes(hi, lo);
        }
        ((hi as u16) << 8) | lo as u16
    }

    /// Pushes a word: the high byte first, then the low byte, which ends
    /// up at the new stack pointer.
    pub fn stack_push_u16(&mut self, val: u16, mmu: &mut Mmu)
        ensures
            state(final(self), final(mmu)) == state(old(self), old(mmu)).push16(val),
            final(mmu)@.timing() == old(mmu)@.timing(),
    {
        proof {
            lemma_split_word(val);
        }
        self.stack_push_u8((val >> 8) as u8, mmu);
        self.stack_push_u8((val & 0xFF) as u8, mmu);
    }

    /// Lets `n` machine cycles pass on the bus.
    fn pass(mmu: &mut Mmu, n: u8)
        ensures
            final(mmu)@ == old(mmu)@.ticks(n as nat),
            final(mmu)@.wf(),
            n >= 1 ==> progressed(old(mmu)@, final(mmu)@),
    {
        mmu.well_formed();
        proof {
            if n >= 1 {
                lemma_ticks_progress(mmu@, n as nat);
            }
        }
        let mut i: u8 = 0;
        while i < n
            invariant
                i <= n,
                mmu@ == old(mmu)@.ticks(i as nat),
                mmu@.wf(),
            decreases n - i,
        {
            mmu.step();
            i += 1;
        }
    }

    /// Carries out the instruction at the program counter.
    fn run_instruction(&mut self, mmu: &mut Mmu) -> (res: Result<u8, DecodeError>)
        requires
            old(self).state is Running,
        ensures
            state(final(self), final(mmu)) == cycled(state(old(self), old(mmu))),
            res == cycle_cost(state(old(self), old(mmu))),
            res is Ok ==> progressed(old(mmu)@, final(mmu)@),
    {
        let due = self.ime_pending;
        let flags = self.regs.flags;
        proof {
            reveal(cycled);
            reveal(cycle_cost);
            lemma_decoded(code_at(state(self, mmu)));
        }
        let operation = match self.get_operation(mmu) {
            Ok(operation) => operation,
            Err(error) => {
                return Err(error);
            },
        };
        let taken = takes_branch(operation.action, &flags);
        execute(operation.action, self, mmu);
        let cycles: u8 = if taken {
            match operation.action {
                Instr::JpCond(_) => operation.cycles + 4,
                Instr::JrCond(_) => operation.cycles + 4,
                _ => operation.cycles + 12,
            }
        } else {
            operation.cycles
        };
        Cpu::pass(mmu, cycles / 4);
        if due && self.ime_pending {
            mmu.set_ime(true);
            self.ime_pending = false;
        }
        self.counter = cycles;
        self.handle_interrupts(mmu);
        Ok(cycles)
    }

    /// Lets one machine cycle pass in a halted or stopped processor.
    fn idle(&mut self, mmu: &mut Mmu)
        ensures
            state(final(self), final(mmu)) == idled(state(old(self), old(mmu))),
            progressed(old(mmu)@, final(mmu)@),
    {
        Cpu::pass(mmu, 1);
        self.wake(mmu);
        self.counter = 4;
        self.handle_interrupts(mmu);
    }

    /// Does one step: a running processor carries out the instruction at
    /// the program counter, a halted or stopped one lets a machine cycle
    /// pass. Returns the T-states that the step took, for the caller to keep
    /// time by. Fails on a code that names no instruction; the opcode has
    /// then been fetched and nothing else has happened.
    pub fn cycle(&mut self, mmu: &mut Mmu) -> (res: Result<u8, DecodeError>)
        ensures
            state(final(self), final(mmu)) == cycled(state(old(self), old(mmu))),
            res == cycle_cost(state(old(self), old(mmu))),
            res is Ok ==> progressed(old(mmu)@, final(mmu)@),
    {
        proof {
            reveal(cycled);
            reveal(cycle_cost);
        }
        match self.state {
            RunState::Running => self.run_instruction(mmu),
            _ => {
                self.idle(mmu);
                Ok(4)
            },
        }
    }

    /// Wakes a halted or stopped processor when what it waits for has
    /// come.
    pub fn wake(&mut self, mmu: &Mmu)
        ensures
            state(final(self), mmu) == woken(state(old(self), mmu)),
    {
        let wake = match self.state {
            RunState::Running => false,
            RunState::Halted => (mmu.interrupt_enable() & mmu.interrupt_flags() & 0x1F) != 0,
            RunState::Stopped => mmu.interrupt_flags().get_bit(4) == 1,
        };
        if wake {
            self.state = RunState::Running;
        }
    }

    /// Services the lowest pending interrupt, if the master enable is on
    /// and there is one.
    pub fn handle_interrupts(&mut self, mmu: &mut Mmu)
        ensures
            state(final(self), final(mmu)) == serviced(state(old(self), old(mmu))),
            final(mmu)@.timing() == old(mmu)@.timing(),
    {
        let requested = mmu.interrupt_flags();
        let pending = mmu.interrupt_enable() & requested & 0x1F;
        if mmu.ime() && pending != 0 {
            let k: u8 = if pending.get_bit(0) == 1 {
                0
            } else if pending.get_bit(1) == 1 {
                1
            } else if pending.get_bit(2) == 1 {
                2
            } else if pending.get_bit(3) == 1 {
                3
            } else {
                4
            };
            let mut flags = requested;
            flags.set_bit(k as usize, 0);
            mmu.set_interrupt_flags(flags);
            mmu.set_ime(false);
            self.state = RunState::Running;
            let pc = self.regs.pc;
            self.stack_push_u16(pc, mmu);
            self.regs.pc = 0x40 + 8 * (k as u16);
        }
    }
}

} // verus!
