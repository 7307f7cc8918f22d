//! The disassembler: the text of an instruction, and the listing of a
//! whole cartridge image.

use vstd::prelude::*;
use crate::bitty::{lemma_join_bytes, word_of};
use crate::text::{
    append, chars_of, fill, filled, hex2, hex4, push_hex2, push_hex4, push_signed, signed_decimal,
    string_of,
};
use crate::gameboy::cpu::Cpu;
use crate::gameboy::mmu::Mmu;
use crate::gameboy::operations::{decode, get_operation, Instr, Operation, ValueMode};
use crate::gameboy::rom::{BusError, Rom};

verus! {

/// How a listing marks the place of an operand of the kind `mode`.
pub open spec fn placeholder(mode: ValueMode) -> Seq<char> {
    match mode {
        ValueMode::A8 | ValueMode::D8 => "{$2}"@,
        ValueMode::A8Hi => "{$2h}"@,
        ValueMode::A16 | ValueMode::D16 => "{$4}"@,
        ValueMode::R8 => "{r}"@,
        ValueMode::Implied => Seq::<char>::empty(),
    }
}

/// The text of `instr` in a listing: its mnemonic template with the slot
/// replaced by the placeholder for its kind of operand.
pub open spec fn listed(instr: Instr) -> Seq<char> {
    filled(instr.template(), placeholder(instr.mode()))
}

/// The number of operand bytes of `instr`.
pub open spec fn operand_size(instr: Instr) -> u8 {
    instr.mode().operand_bytes() as u8
}

/// The placeholder for an operand of the kind `mode`.
fn placeholder_for(mode: ValueMode) -> (mark: &'static str)
    ensures
        mark@ == placeholder(mode),
{
    match mode {
        ValueMode::A8 => "{$2}",
        ValueMode::D8 => "{$2}",
        ValueMode::A8Hi => "{$2h}",
        ValueMode::A16 => "{$4}",
        ValueMode::D16 => "{$4}",
        ValueMode::R8 => "{r}",
        ValueMode::Implied => {
            proof {
                reveal_strlit("");
                assert(""@ =~= Seq::<char>::empty());
            }
            ""
        },
    }
}

/// The number of bytes that an operand of the kind `mode` takes.
pub fn operand_bytes_of(mode: ValueMode) -> (n: u8)
    ensures
        n == mode.operand_bytes(),
{
    match mode {
        ValueMode::Implied => 0,
        ValueMode::D16 => 2,
        ValueMode::A16 => 2,
        _ => 1,
    }
}

/// The text of the instruction that `code` names, with a placeholder for
/// its operand, and the number of bytes of that operand. Nothing for a
/// code that names no instruction.
pub fn disassemble_code(code: u16) -> (res: Option<(String, u8)>)
    ensures
        match decode(code) {
            Some(instr) => res matches Some((text, size)) && text@ == listed(instr) && size
                == operand_size(instr),
            None => res is None,
        },
{
    match get_operation(code) {
        Ok(operation) => {
            let template = chars_of(operation.dis);
            let mark = chars_of(placeholder_for(operation.mode));
            let text = fill(&template, &mark);
            Some((string_of(&text), operand_bytes_of(operation.mode)))
        },
        Err(_) => None,
    }
}

/// An operand of the kind `mode` as it is written, from the byte `lo`
/// that follows the opcode and the byte `hi` after that: an 8-bit value as
/// `$` and two hexadecimal digits, a 16-bit value or address as `$` and
/// four, an offset into the high page as the address that it stands for,
/// a displacement as a signed decimal number.
pub open spec fn operand_text(mode: ValueMode, lo: u8, hi: u8) -> Seq<char> {
    match mode {
        ValueMode::A8 | ValueMode::D8 => seq!['$'] + hex2(lo),
        ValueMode::A8Hi => seq!['$'] + hex4(word_of(0xFF, lo)),
        ValueMode::A16 | ValueMode::D16 => seq!['$'] + hex4(word_of(hi, lo)),
        ValueMode::R8 => signed_decimal(lo),
        ValueMode::Implied => Seq::<char>::empty(),
    }
}

/// Writes an operand of the kind `mode`.
pub fn format_operand(mode: ValueMode, lo: u8, hi: u8) -> (text: Vec<char>)
    ensures
        text@ == operand_text(mode, lo, hi),
{
    let mut text: Vec<char> = Vec::new();
    match mode {
        ValueMode::A8 | ValueMode::D8 => {
            text.push('$');
            push_hex2(&mut text, lo);
        },
        ValueMode::A8Hi => {
            text.push('$');
            push_hex4(&mut text, 0xFF00 + lo as u16);
        },
        ValueMode::A16 | ValueMode::D16 => {
            proof {
                lemma_join_bytes(hi, lo);
            }
            text.push('$');
            push_hex4(&mut text, ((hi as u16) << 8) | lo as u16);
        },
        ValueMode::R8 => {
            push_signed(&mut text, lo);
        },
        ValueMode::Implied => {},
    }
    assert(text@ =~= operand_text(mode, lo, hi));
    text
}

impl Operation {
    /// The text of the instruction whose opcode the program counter points
    /// at: the mnemonic template with the operand that follows the opcode
    /// in memory written into its slot.
    pub fn disassemble(&self, cpu: &Cpu, mmu: &Mmu) -> (text: String)
        ensures
            text@ == filled(
                self.dis@,
                operand_text(
                    self.mode,
                    mmu@.read(cpu.regs.pc.wrapping_add(1)),
                    mmu@.read(cpu.regs.pc.wrapping_add(2)),
                ),
            ),
    {
        let lo = mmu.read(cpu.regs.pc.wrapping_add(1));
        let hi = mmu.read(cpu.regs.pc.wrapping_add(2));
        let value = format_operand(self.mode, lo, hi);
        let template = chars_of(self.dis);
        let text = fill(&template, &value);
        string_of(&text)
    }
}

/// One instruction of a listing.
pub struct Inst {
    /// The code of the instruction.
    pub code: u16,
    /// The bytes of its operand, as they follow the opcode.
    pub values: Vec<u8>,
    /// Its text, with a placeholder for the operand.
    pub dis: String,
    /// Where its opcode starts.
    pub loc: usize,
}

/// One instruction of a listing as plain values.
pub struct InstView {
    pub code: u16,
    pub values: Seq<u8>,
    pub dis: Seq<char>,
    pub loc: int,
}

impl View for Inst {
    type V = InstView;

    open spec fn view(&self) -> InstView {
        InstView { code: self.code, values: self.values@, dis: self.dis@, loc: self.loc as int }
    }
}

/// Byte `i` of `values`, or zero where there is none.
pub open spec fn byte_or_zero(values: Seq<u8>, i: int) -> u8 {
    if 0 <= i < values.len() {
        values[i]
    } else {
        0
    }
}

/// The column of operand bytes in a line of a listing: the first two
/// bytes, as far as there are any, in hexadecimal, ten characters wide.
pub open spec fn byte_column(values: Seq<u8>) -> Seq<char> {
    if values.len() == 0 {
        "          "@
    } else if values.len() == 1 {
        hex2(values[0]) + "        "@
    } else {
        hex2(values[0]) + " "@ + hex2(values[1]) + "     "@
    }
}

impl InstView {
    /// The text of the instruction with its operand written out; for a
    /// code that names no instruction, the text as it is.
    pub open spec fn text(self) -> Seq<char> {
        match decode(self.code) {
            Some(instr) => filled(
                instr.template(),
                operand_text(instr.mode(), byte_or_zero(self.values, 0), byte_or_zero(self.values, 1)),
            ),
            None => self.dis,
        }
    }

    /// The line of the listing: the low 16 bits of the address in
    /// hexadecimal, the operand bytes, and the text.
    pub open spec fn line(self) -> Seq<char> {
        hex4((self.loc % 0x1_0000) as u16) + " | "@ + byte_column(self.values) + self.text()
    }
}

impl Inst {
    pub fn new(code: u16, loc: usize, dis: String, values: Vec<u8>) -> (inst: Inst)
        ensures
            inst@ == (InstView { code, values: values@, dis: dis@, loc: loc as int }),
    {
        Inst { code, values, dis, loc }
    }

    /// The line of the listing for this instruction.
    pub fn render(&self) -> (line: String)
        ensures
            line@ == self@.line(),
    {
        let mut line: Vec<char> = Vec::new();
        push_hex4(&mut line, (self.loc % 0x1_0000) as u16);
        append(&mut line, &chars_of(" | "));
        if self.values.len() == 0 {
            append(&mut line, &chars_of("          "));
        } else if self.values.len() == 1 {
            push_hex2(&mut line, self.values[0]);
            append(&mut line, &chars_of("        "));
        } else {
            push_hex2(&mut line, self.values[0]);
            append(&mut line, &chars_of(" "));
            push_hex2(&mut line, self.values[1]);
            append(&mut line, &chars_of("     "));
        }
        assert(line@ =~= hex4((self.loc % 0x1_0000) as u16) + " | "@ + byte_column(self@.values));
        match get_operation(self.code) {
            Ok(operation) => {
                let lo = if self.values.len() > 0 {
                    self.values[0]
                } else {
                    0
                };
                let hi = if self.values.len() > 1 {
                    self.values[1]
                } else {
                    0
                };
                let value = format_operand(operation.mode, lo, hi);
                let text = fill(&chars_of(operation.dis), &value);
                append(&mut line, &text);
            },
            Err(_) => {
                append(&mut line, &chars_of(self.dis.as_str()));
            },
        }
        assert(line@ =~= self@.line());
        string_of(&line)
    }
}

/// The code that starts at `pc` in `rom`: one byte, or the prefix 0xCB and
/// the byte after it.
pub open spec fn code_of(rom: Seq<u8>, pc: int) -> u16 {
    if rom[pc] == 0xCB {
        word_of(0xCB, rom[pc + 1])
    } else {
        rom[pc] as u16
    }
}

/// The number of bytes of the opcode that starts at `pc` in `rom`.
pub open spec fn opcode_size(rom: Seq<u8>, pc: int) -> int {
    if rom[pc] == 0xCB {
        2
    } else {
        1
    }
}

/// The number of bytes that the listing consumes at `pc`: the opcode and,
/// where the code names an instruction, its operand.
pub open spec fn consumed(rom: Seq<u8>, pc: int) -> int {
    opcode_size(rom, pc) + match decode(code_of(rom, pc)) {
        Some(instr) => instr.mode().operand_bytes(),
        None => 0,
    }
}

/// Whether the listing from `pc` runs off the end of `rom` in the middle
/// of an instruction.
pub open spec fn truncated(rom: Seq<u8>, pc: int) -> bool
    decreases rom.len() - pc,
{
    if pc < 0 || pc >= rom.len() {
        false
    } else if pc + consumed(rom, pc) > rom.len() {
        true
    } else {
        truncated(rom, pc + consumed(rom, pc))
    }
}

/// The listing of `rom` from `pc` on: the instructions in the order of
/// their addresses. Codes that name no instruction are passed over.
pub open spec fn listing(rom: Seq<u8>, pc: int) -> Seq<InstView>
    decreases rom.len() - pc,
{
    if pc < 0 || pc >= rom.len() || pc + consumed(rom, pc) > rom.len() {
        Seq::<InstView>::empty()
    } else {
        let rest = listing(rom, pc + consumed(rom, pc));
        match decode(code_of(rom, pc)) {
            Some(instr) => seq![
                InstView {
                    code: code_of(rom, pc),
                    values: rom.subrange(pc + opcode_size(rom, pc), pc + consumed(rom, pc)),
                    dis: listed(instr),
                    loc: pc,
                },
            ] + rest,
            None => rest,
        }
    }
}

/// A listing.
pub struct Disassembly {
    /// The instructions in the order of their addresses.
    pub instructions: Vec<Inst>,
}

impl Disassembly {
    /// The instructions as plain values.
    pub open spec fn entries(&self) -> Seq<InstView> {
        Seq::new(self.instructions@.len(), |i: int| self.instructions@[i]@)
    }

    /// The lines of the listing, one for each instruction.
    pub fn lines(&self) -> (lines: Vec<String>)
        ensures
            lines@.len() == self.instructions@.len(),
            forall|i: int| 0 <= i < lines@.len() ==> (#[trigger] lines@[i])@ == self.entries()[i].line(),
    {
        let mut lines: Vec<String> = Vec::new();
        let mut i: usize = 0;
        while i < self.instructions.len()
            invariant
                i <= self.instructions@.len(),
                lines@.len() == i,
                forall|k: int| 0 <= k < i ==> (#[trigger] lines@[k])@ == self.entries()[k].line(),
            decreases self.instructions@.len() - i,
        {
            lines.push(self.instructions[i].render());
            i += 1;
        }
        lines
    }
}

/// A reader that walks through a cartridge image and lists its
/// instructions.
pub struct Disassembler {
    rom: Rom,
    pc: usize,
}

impl Disassembler {
    /// The image that is read.
    pub closed spec fn rom(&self) -> Seq<u8> {
        self.rom@
    }

    /// The position of the reader.
    pub closed spec fn position(&self) -> int {
        self.pc as int
    }

    pub fn new(rom: Rom) -> (reader: Disassembler)
        ensures
            reader.rom() == rom@,
            reader.position() == 0,
    {
        Disassembler { rom, pc: 0 }
    }

    /// Reads the byte at the position and moves on by one. Fails at the
    /// end of the image.
    fn read_byte(&mut self) -> (res: Result<u8, BusError>)
        ensures
            final(self).rom() == old(self).rom(),
            old(self).position() < old(self).rom().len() ==> res == Ok::<u8, BusError>(
                old(self).rom()[old(self).position()],
            ) && final(self).position() == old(self).position() + 1,
            old(self).position() >= old(self).rom().len() ==> res == Err::<u8, BusError>(
                BusError { address: old(self).position() as usize },
            ) && final(self).position() == old(self).position(),
    {
        if self.pc < self.rom.size() {
            let byte = self.rom.read_raw(self.pc)?;
            self.pc += 1;
            Ok(byte)
        } else {
            Err(BusError { address: self.pc })
        }
    }

    /// Reads the code at the position: one byte, or two with the prefix.
    fn next_code(&mut self) -> (res: Result<u16, BusError>)
        requires
            old(self).position() <= old(self).rom().len(),
        ensures
            final(self).rom() == old(self).rom(),
            old(self).position() + opcode_size(old(self).rom(), old(self).position()) <= old(
                self,
            ).rom().len() ==> res == Ok::<u16, BusError>(
                code_of(old(self).rom(), old(self).position()),
            ) && final(self).position() == old(self).position() + opcode_size(
                old(self).rom(),
                old(self).position(),
            ),
            old(self).position() + opcode_size(old(self).rom(), old(self).position()) > old(
                self,
            ).rom().len() ==> res == Err::<u16, BusError>(
                BusError { address: old(self).rom().len() as usize },
            ) && final(self).position() == old(self).rom().len(),
            final(self).position() <= final(self).rom().len(),
            final(self).position() >= old(self).position(),
    {
        let first = self.read_byte()?;
        if first == 0xCB {
            let second = self.read_byte()?;
            proof {
                lemma_join_bytes(0xCB, second);
            }
            Ok((0xCBu16 << 8) | second as u16)
        } else {
            Ok(first as u16)
        }
    }

    /// Lists the image from the position to its end, where it leaves the
    /// position. Fails if the image ends in the middle of an instruction,
    /// with the end of the image as the address of the failure.
    pub fn disassemble(&mut self) -> (res: Result<Disassembly, BusError>)
        ensures
            final(self).rom() == old(self).rom(),
            !truncated(old(self).rom(), old(self).position()) ==> res is Ok && res->Ok_0.entries()
                == listing(old(self).rom(), old(self).position()),
            truncated(old(self).rom(), old(self).position()) ==> res == Err::<
                Disassembly,
                BusError,
            >(BusError { address: old(self).rom().len() as usize }),
            old(self).position() <= old(self).rom().len() ==> final(self).position() == old(
                self,
            ).rom().len(),
            old(self).position() > old(self).rom().len() ==> final(self).position() == old(
                self,
            ).position(),
    {
        let mut instructions: Vec<Inst> = Vec::new();
        let ghost rom = self.rom();
        let ghost start = self.position();
        let size = self.rom.size();
        while self.pc < size
            invariant
                rom == self.rom(),
                rom == old(self).rom(),
                start == old(self).position(),
                size == rom.len(),
                start <= self.position(),
                self.position() <= rom.len() || self.position() == start,
                truncated(rom, start) == truncated(rom, self.position()),
                listing(rom, start) == Seq::new(
                    instructions@.len(),
                    |i: int| instructions@[i]@,
                ) + listing(rom, self.position()),
            decreases rom.len() - self.position(),
        {
            let orig_pc = self.pc;
            let ghost done = Seq::new(instructions@.len(), |i: int| instructions@[i]@);
            let code = self.next_code()?;
            let (dis, bytes) = match disassemble_code(code) {
                Some(val) => val,
                None => {
                    proof {
                        assert(listing(rom, orig_pc as int) == listing(
                            rom,
                            orig_pc + consumed(rom, orig_pc as int),
                        ));
                    }
                    continue ;
                },
            };
            let mut values: Vec<u8> = Vec::new();
            let mut i: u8 = 0;
            let ghost from = self.position();
            while i < bytes
                invariant
                    rom == self.rom(),
                    rom == old(self).rom(),
                    start == old(self).position(),
                    i <= bytes,
                    0 <= orig_pc < rom.len(),
                    truncated(rom, start) == truncated(rom, orig_pc as int),
                    from + bytes == orig_pc + consumed(rom, orig_pc as int),
                    self.position() == from + i,
                    0 <= from <= self.position() <= rom.len(),
                    values@ == rom.subrange(from, from + i),
                decreases bytes - i,
            {
                let b = self.read_byte()?;
                values.push(b);
                assert(values@ =~= rom.subrange(from, from + i + 1));
                i += 1;
            }
            let inst = Inst::new(code, orig_pc, dis, values);
            instructions.push(inst);
            proof {
                let now = Seq::new(instructions@.len(), |i: int| instructions@[i]@);
                assert(now =~= done + seq![inst@]);
                assert(listing(rom, orig_pc as int) == seq![inst@] + listing(
                    rom,
                    self.position(),
                ));
                assert(now + listing(rom, self.position()) =~= done + (seq![inst@] + listing(
                    rom,
                    self.position(),
                )));
            }
        }
        Ok(Disassembly { instructions })
    }
}

} // verus!
