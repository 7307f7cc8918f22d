//! The state of a debugging session and the decisions that a front-end
//! leaves to it: what a command changes, when a breakpoint stops the run,
//! and what the views of registers and memory show.

use vstd::prelude::*;
use crate::debugger::command::{Command, SetType, ShowType};
use crate::text::{append, chars_of, hex2, hex4, push_hex2, push_hex4, string_of};
use crate::gameboy::cpu::{cycle_cost, cycled};
use crate::gameboy::engine::{cycled_n, Gameboy};
use crate::gameboy::mmu::{Mmu, MmuView};
use crate::gameboy::operations::DecodeError;
use crate::gameboy::registers::{FlagRegister, Registers};

verus! {

/// The number of bytes in a row of a memory dump.
pub const MEM_DISPLAY_WIDTH: u16 = 16;

/// What the debugger does next.
#[derive(Clone, Copy, Debug, PartialEq, Eq, Structural)]
pub enum DebugMode {
    Quitting,
    Running,
    Restarting,
    Stepping,
    /// Waiting at the prompt.
    Repl,
}

/// What the front-end is to print after a command.
#[derive(Clone, Copy, Debug, PartialEq, Eq, Structural)]
pub enum Output {
    Nothing,
    Help,
    Registers,
    Tracepoints,
    /// The memory from the first address to the second.
    Memory(u16, u16),
    /// The byte that was put into memory: the address and the value.
    Poked(u16, u8),
}

/// The state of a session.
pub struct Session {
    pub breakpoints: Vec<usize>,
    pub mode: DebugMode,
    /// The number of instructions that `step` runs.
    pub step_distance: u32,
}

/// The state of a session as plain values.
pub struct SessionView {
    pub breakpoints: Seq<usize>,
    pub mode: DebugMode,
    pub step_distance: u32,
}

impl View for Session {
    type V = SessionView;

    open spec fn view(&self) -> SessionView {
        SessionView {
            breakpoints: self.breakpoints@,
            mode: self.mode,
            step_distance: self.step_distance,
        }
    }
}

impl SessionView {
    /// The session after `command`. `step N` sets the distance and starts
    /// stepping; `restart`, `resume` and `quit` set the mode; `set bp` adds
    /// a breakpoint; everything else leaves the session alone.
    pub open spec fn after(self, command: Command) -> SessionView {
        match command {
            Command::Step(dist) => SessionView {
                step_distance: dist,
                mode: DebugMode::Stepping,
                ..self
            },
            Command::Restart => SessionView { mode: DebugMode::Restarting, ..self },
            Command::Resume => SessionView { mode: DebugMode::Running, ..self },
            Command::Quit => SessionView { mode: DebugMode::Quitting, ..self },
            Command::Assign(SetType::Breakpoint(at)) => SessionView {
                breakpoints: self.breakpoints.push(at),
                ..self
            },
            _ => self,
        }
    }

    /// The session after the processor has arrived at `pc`: at a
    /// breakpoint it goes back to the prompt.
    pub open spec fn arrived(self, pc: usize) -> SessionView {
        if self.breakpoints.contains(pc) {
            SessionView { mode: DebugMode::Repl, ..self }
        } else {
            self
        }
    }
}

/// What `command` gives to print. A `set mem` is reported with the address
/// as the bus takes it, its low 16 bits.
pub open spec fn output_of(command: Command) -> Output {
    match command {
        Command::Show(ShowType::Registers) => Output::Registers,
        Command::Show(ShowType::Tracepoints) => Output::Tracepoints,
        Command::Show(ShowType::Memory(low, high)) => Output::Memory(low, high),
        Command::Assign(SetType::Memory(loc, val)) => Output::Poked((loc % 0x1_0000) as u16, val),
        Command::Help => Output::Help,
        _ => Output::Nothing,
    }
}

/// The bus after `command`: `set mem` writes a byte, nothing else touches
/// it.
pub open spec fn poked(m: MmuView, command: Command) -> MmuView {
    match command {
        Command::Assign(SetType::Memory(loc, val)) => m.write((loc % 0x1_0000) as u16, val),
        _ => m,
    }
}

impl Session {
    /// A session at the prompt, without breakpoints, that steps ten
    /// instructions at a time.
    pub fn new() -> (session: Session)
        ensures
            session@ == (SessionView {
                breakpoints: Seq::<usize>::empty(),
                mode: DebugMode::Repl,
                step_distance: 10,
            }),
    {
        Session { breakpoints: Vec::new(), mode: DebugMode::Repl, step_distance: 10 }
    }

    /// Carries out `command` on the session and on the bus, and says what
    /// there is to print.
    pub fn handle_command(&mut self, command: Command, mmu: &mut Mmu) -> (output: Output)
        ensures
            final(self)@ == old(self)@.after(command),
            final(mmu)@ == poked(old(mmu)@, command),
            output == output_of(command),
    {
        match command {
            Command::Step(dist) => {
                self.step_distance = dist;
                self.mode = DebugMode::Stepping;
                Output::Nothing
            },
            Command::Restart => {
                self.mode = DebugMode::Restarting;
                Output::Nothing
            },
            Command::Resume => {
                self.mode = DebugMode::Running;
                Output::Nothing
            },
            Command::Quit => {
                self.mode = DebugMode::Quitting;
                Output::Nothing
            },
            Command::Show(showtype) => match showtype {
                ShowType::Registers => Output::Registers,
                ShowType::Tracepoints => Output::Tracepoints,
                ShowType::Memory(low, hi) => Output::Memory(low, hi),
            },
            Command::Assign(settype) => match settype {
                SetType::Breakpoint(val) => {
                    self.breakpoints.push(val);
                    Output::Nothing
                },
                SetType::Memory(loc, val) => {
                    let addr = (loc % 0x1_0000) as u16;
                    mmu.write(addr, val);
                    Output::Poked(addr, val)
                },
            },
            Command::Help => Output::Help,
        }
    }

    /// Goes back to the prompt if `pc` is a breakpoint.
    pub fn check_breakpoints(&mut self, pc: usize)
        ensures
            final(self)@ == old(self)@.arrived(pc),
    {
        let mut i: usize = 0;
        while i < self.breakpoints.len()
            invariant
                *self == *old(self),
                i <= self.breakpoints@.len(),
                forall|k: int| 0 <= k < i ==> self.breakpoints@[k] != pc,
            decreases self.breakpoints@.len() - i,
        {
            if self.breakpoints[i] == pc {
                self.mode = DebugMode::Repl;
                return ;
            }
            i += 1;
        }
    }

    /// Runs one instruction and looks for a breakpoint where the processor
    /// arrives.
    pub fn cycle(&mut self, gameboy: &mut Gameboy) -> (res: Result<u8, DecodeError>)
        ensures
            final(gameboy)@ == cycled(old(gameboy)@),
            res == cycle_cost(old(gameboy)@),
            final(self)@ == old(self)@.arrived(final(gameboy)@.cpu.regs.pc as usize),
    {
        let res = gameboy.step();
        self.check_breakpoints(gameboy.cpu.regs.pc as usize);
        res
    }

    /// Runs as many instructions as the step distance says, or up to the
    /// first that fails, and goes back to the prompt. Returns the number
    /// of instructions that ran.
    pub fn step(&mut self, gameboy: &mut Gameboy) -> (count: u32)
        ensures
            count <= old(self).step_distance,
            final(gameboy)@ == cycled_n(old(gameboy)@, count as nat),
            final(self)@.mode == DebugMode::Repl,
            final(self)@.breakpoints == old(self)@.breakpoints,
            final(self)@.step_distance == old(self)@.step_distance,
            forall|k: nat| k + 1 < count ==> cycle_cost(#[trigger] cycled_n(old(gameboy)@, k)) is Ok,
            count < old(self).step_distance ==> count >= 1 && cycle_cost(
                cycled_n(old(gameboy)@, (count - 1) as nat),
            ) is Err,
    {
        let mut count: u32 = 0;
        let ghost start = gameboy@;
        while count < self.step_distance
            invariant
                start == old(gameboy)@,
                count <= self.step_distance,
                self@.breakpoints == old(self)@.breakpoints,
                self@.step_distance == old(self)@.step_distance,
                gameboy@ == cycled_n(start, count as nat),
                forall|k: nat| k < count ==> cycle_cost(#[trigger] cycled_n(start, k)) is Ok,
            decreases self.step_distance - count,
        {
            let res = self.cycle(gameboy);
            count += 1;
            assert(cycled_n(start, count as nat) == cycled(cycled_n(start, (count - 1) as nat)));
            if res.is_err() {
                self.mode = DebugMode::Repl;
                return count;
            }
        }
        self.mode = DebugMode::Repl;
        count
    }
}

/// The first address of the row of a memory dump that holds `at`.
pub open spec fn row_start(at: u16) -> int {
    (at as int / 16) * 16
}

/// The bytes `from` to `from + n - 1` as the bus reads them, two
/// hexadecimal digits each, with a space between one and the next.
pub open spec fn bytes_text(m: MmuView, from: int, n: nat) -> Seq<char>
    decreases n,
{
    if n == 0 {
        Seq::<char>::empty()
    } else if n == 1 {
        hex2(m.read(from as u16))
    } else {
        bytes_text(m, from, (n - 1) as nat) + seq![' '] + hex2(m.read((from + n - 1) as u16))
    }
}

/// The row of a memory dump that starts at `from`: the address, then its
/// sixteen bytes.
pub open spec fn row_text(m: MmuView, from: int) -> Seq<char> {
    "0x"@ + hex4(from as u16) + " | "@ + bytes_text(m, from, 16)
}

/// The number of rows of the dump of the memory from `low` to `high`:
/// the rows from the one that holds `low` to the one that holds `high`.
pub open spec fn row_count(low: u16, high: u16) -> int {
    if row_start(high) >= row_start(low) {
        (row_start(high) - row_start(low)) / 16 + 1
    } else {
        0
    }
}

/// The row of a memory dump that starts at `from`.
pub fn memory_row(mmu: &Mmu, from: u16) -> (row: String)
    requires
        from <= 0xFFF0,
    ensures
        row@ == row_text(mmu@, from as int),
{
    let mut text: Vec<char> = Vec::new();
    append(&mut text, &chars_of("0x"));
    push_hex4(&mut text, from);
    append(&mut text, &chars_of(" | "));
    let ghost head = text@;
    let mut i: u16 = 0;
    while i < 16
        invariant
            i <= 16,
            from <= 0xFFF0,
            head == "0x"@ + hex4(from) + " | "@,
            text@ == head + bytes_text(mmu@, from as int, i as nat),
        decreases 16 - i,
    {
        if i > 0 {
            text.push(' ');
        }
        push_hex2(&mut text, mmu.read(from + i));
        assert(text@ =~= head + bytes_text(mmu@, from as int, (i + 1) as nat));
        i += 1;
    }
    string_of(&text)
}

/// The rows of the dump of the memory from `low` to `high`, each sixteen
/// bytes from an address that is a multiple of sixteen. Nothing where
/// `high` lies in a row before that of `low`.
pub fn memory_rows(mmu: &Mmu, low: u16, hi: u16) -> (rows: Vec<String>)
    ensures
        rows@.len() == row_count(low, hi),
        forall|i: int|
            0 <= i < rows@.len() ==> (#[trigger] rows@[i])@ == row_text(
                mmu@,
                row_start(low) + 16 * i,
            ),
{
    let l: u16 = low / MEM_DISPLAY_WIDTH * MEM_DISPLAY_WIDTH;
    let h: u16 = hi / MEM_DISPLAY_WIDTH * MEM_DISPLAY_WIDTH;
    let mut rows: Vec<String> = Vec::new();
    if h < l {
        return rows;
    }
    let count: u16 = (h - l) / 16 + 1;
    let mut i: u16 = 0;
    while i < count
        invariant
            l == row_start(low),
            h == row_start(hi),
            l <= h,
            count == (h - l) / 16 + 1,
            i <= count,
            rows@.len() == i,
            forall|k: int|
                0 <= k < i ==> (#[trigger] rows@[k])@ == row_text(mmu@, row_start(low) + 16 * k),
        decreases count - i,
    {
        rows.push(memory_row(mmu, l + 16 * i));
        i += 1;
    }
    rows
}

/// The flag `b` as the digit 0 or 1.
pub open spec fn flag_char(b: bool) -> char {
    if b {
        '1'
    } else {
        '0'
    }
}

/// The line of a register pair: the two registers and the pair.
pub open spec fn pair_line(high: char, low: char, h: u8, l: u8, pair: u16) -> Seq<char> {
    seq![high] + ": "@ + hex2(h) + " | "@ + seq![low] + ": "@ + hex2(l) + " || "@ + seq![
        high,
        low,
    ] + ": "@ + hex4(pair)
}

/// The line of the two address registers.
pub open spec fn address_line(regs: Registers) -> Seq<char> {
    "  PC: "@ + hex4(regs.pc) + " | SP: "@ + hex4(regs.sp)
}

/// The line of the flags.
pub open spec fn flags_line(flags: FlagRegister) -> Seq<char> {
    "Z: "@ + seq![flag_char(flags.z)] + " | N: "@ + seq![flag_char(flags.n)] + " | H: "@ + seq![
        flag_char(flags.h),
    ] + " | C: "@ + seq![flag_char(flags.c)]
}

/// The view of the registers, line by line: a heading, the four pairs, a
/// heading, the address registers, a heading, the flags.
pub open spec fn registers_text(regs: Registers) -> Seq<Seq<char>> {
    seq![
        "-----8-bit Registers-----"@,
        pair_line('B', 'C', regs.b, regs.c, regs.spec_bc()),
        pair_line('D', 'E', regs.d, regs.e, regs.spec_de()),
        pair_line('H', 'L', regs.h, regs.l, regs.spec_hl()),
        pair_line('A', 'F', regs.a, regs.flags.byte(), regs.spec_af()),
        "----Address Registers----"@,
        address_line(regs),
        "----------Flags----------"@,
        flags_line(regs.flags),
    ]
}

/// Writes the line of a register pair.
fn write_pair(high: char, low: char, h: u8, l: u8, pair: u16) -> (line: String)
    ensures
        line@ == pair_line(high, low, h, l, pair),
{
    let mut text: Vec<char> = Vec::new();
    text.push(high);
    append(&mut text, &chars_of(": "));
    push_hex2(&mut text, h);
    append(&mut text, &chars_of(" | "));
    text.push(low);
    append(&mut text, &chars_of(": "));
    push_hex2(&mut text, l);
    append(&mut text, &chars_of(" || "));
    text.push(high);
    text.push(low);
    append(&mut text, &chars_of(": "));
    push_hex4(&mut text, pair);
    assert(text@ =~= pair_line(high, low, h, l, pair));
    string_of(&text)
}

/// The digit for a flag.
fn flag_digit(b: bool) -> (c: char)
    ensures
        c == flag_char(b),
{
    if b {
        '1'
    } else {
        '0'
    }
}

/// The view of the registers, line by line.
pub fn registers_report(regs: &Registers) -> (lines: Vec<String>)
    ensures
        lines@.len() == 9,
        forall|i: int| 0 <= i < 9 ==> (#[trigger] lines@[i])@ == registers_text(*regs)[i],
{
    let mut lines: Vec<String> = Vec::new();
    lines.push(string_of(&chars_of("-----8-bit Registers-----")));
    lines.push(write_pair('B', 'C', regs.b, regs.c, regs.bc()));
    lines.push(write_pair('D', 'E', regs.d, regs.e, regs.de()));
    lines.push(write_pair('H', 'L', regs.h, regs.l, regs.hl()));
    lines.push(write_pair('A', 'F', regs.a, regs.flags.as_u8(), regs.af()));
    lines.push(string_of(&chars_of("----Address Registers----")));
    let mut text: Vec<char> = Vec::new();
    append(&mut text, &chars_of("  PC: "));
    push_hex4(&mut text, regs.pc);
    append(&mut text, &chars_of(" | SP: "));
    push_hex4(&mut text, regs.sp);
    assert(text@ =~= address_line(*regs));
    lines.push(string_of(&text));
    lines.push(string_of(&chars_of("----------Flags----------")));
    let mut text: Vec<char> = Vec::new();
    append(&mut text, &chars_of("Z: "));
    text.push(flag_digit(regs.flags.z));
    append(&mut text, &chars_of(" | N: "));
    text.push(flag_digit(regs.flags.n));
    append(&mut text, &chars_of(" | H: "));
    text.push(flag_digit(regs.flags.h));
    append(&mut text, &chars_of(" | C: "));
    text.push(flag_digit(regs.flags.c));
    assert(text@ =~= flags_line(regs.flags));
    lines.push(string_of(&text));
    lines
}

} // verus!
