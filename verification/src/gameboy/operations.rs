//! The instruction set: what each opcode is, what it costs and how it is
//! written, and the decoder that maps a code to its descriptor.
//!
//! A code is 16 bits wide. For the base page the high byte is 0x00 and the
//! low byte is the opcode; for the prefixed page the high byte is 0xCB and
//! the low byte is the opcode that follows the prefix. Within a page an
//! opcode is read as three fields, `xx yyy zzz` in binary: the instruction
//! family, and up to two operands taken from fixed lists.

use vstd::prelude::*;

pub mod alu;
pub mod base;
pub mod execute;
pub mod laws;
pub mod prefixed;
pub mod semantics;
pub mod table;

verus! {

/// An 8-bit register that an instruction can name.
#[derive(Clone, Copy, Debug, PartialEq, Eq, Structural)]
pub enum Reg8 {
    B,
    C,
    D,
    E,
    H,
    L,
    A,
}

/// An 8-bit operand: a register, or the byte in memory that HL points to.
#[derive(Clone, Copy, Debug, PartialEq, Eq, Structural)]
pub enum Operand8 {
    Reg(Reg8),
    HlInd,
}

/// A 16-bit register for loads and arithmetic.
#[derive(Clone, Copy, Debug, PartialEq, Eq, Structural)]
pub enum Reg16 {
    BC,
    DE,
    HL,
    SP,
}

/// A register pair that can be pushed and popped.
#[derive(Clone, Copy, Debug, PartialEq, Eq, Structural)]
pub enum StackPair {
    BC,
    DE,
    HL,
    AF,
}

/// An address taken from a register pair, for loads between A and memory.
/// With `HLInc` and `HLDec`, HL is moved by one after the access.
#[derive(Clone, Copy, Debug, PartialEq, Eq, Structural)]
pub enum Indirect {
    BC,
    DE,
    HLInc,
    HLDec,
}

/// A branch condition on the Z or the C flag.
#[derive(Clone, Copy, Debug, PartialEq, Eq, Structural)]
pub enum Cond {
    NZ,
    Z,
    NC,
    C,
}

/// The eight arithmetic and logic operations on the accumulator.
#[derive(Clone, Copy, Debug, PartialEq, Eq, Structural)]
pub enum AluOp {
    Add,
    Adc,
    Sub,
    Sbc,
    And,
    Xor,
    Or,
    Cp,
}

/// The eight rotates and shifts of the prefixed page.
#[derive(Clone, Copy, Debug, PartialEq, Eq, Structural)]
pub enum RotOp {
    Rlc,
    Rrc,
    Rl,
    Rr,
    Sla,
    Sra,
    Swap,
    Srl,
}

/// What an instruction does, with its operands.
#[derive(Clone, Copy, Debug, PartialEq, Eq, Structural)]
pub enum Instr {
    Nop,
    Stop,
    Halt,
    Di,
    Ei,
    /// `LD dst, src` between registers and `(HL)`.
    Ld(Operand8, Operand8),
    /// `LD dst, d8`.
    LdImm(Operand8),
    /// `LD A, (rr)`.
    LdAFrom(Indirect),
    /// `LD (rr), A`.
    LdToInd(Indirect),
    /// `LD A, (a16)`.
    LdAFromA16,
    /// `LD (a16), A`.
    LdA16FromA,
    /// `LDH A, (a8)`: from 0xFF00 + a8.
    LdhAFromA8,
    /// `LDH (a8), A`: to 0xFF00 + a8.
    LdhA8FromA,
    /// `LD A, (C)`: from 0xFF00 + C.
    LdAFromC,
    /// `LD (C), A`: to 0xFF00 + C.
    LdCFromA,
    /// `LD rr, d16`.
    Ld16Imm(Reg16),
    /// `LD (a16), SP`.
    LdA16Sp,
    /// `LD SP, HL`.
    LdSpHl,
    /// `LD HL, SP+r8`.
    LdHlSpR8,
    /// An operation on A with a register or `(HL)`.
    Alu(AluOp, Operand8),
    /// An operation on A with an immediate byte.
    AluImm(AluOp),
    Inc(Operand8),
    Dec(Operand8),
    Inc16(Reg16),
    Dec16(Reg16),
    /// `ADD HL, rr`.
    AddHl(Reg16),
    /// `ADD SP, r8`.
    AddSpR8,
    Rlca,
    Rrca,
    Rla,
    Rra,
    Daa,
    Cpl,
    Scf,
    Ccf,
    /// A rotate or shift of the prefixed page.
    Rot(RotOp, Operand8),
    /// `BIT n, r`.
    TestBit(u8, Operand8),
    /// `RES n, r`.
    ResBit(u8, Operand8),
    /// `SET n, r`.
    SetBit(u8, Operand8),
    Jp,
    JpCond(Cond),
    JpHl,
    Jr,
    JrCond(Cond),
    Call,
    CallCond(Cond),
    Ret,
    RetCond(Cond),
    Reti,
    /// `RST n`: a call to the fixed address `n`.
    Rst(u8),
    Push(StackPair),
    Pop(StackPair),
}

/// The kind of immediate operand that follows an opcode.
#[derive(Clone, Copy, Debug, PartialEq, Eq, Structural)]
pub enum ValueMode {
    /// An 8-bit address.
    A8,
    /// An 8-bit offset into the page at 0xFF00.
    A8Hi,
    /// A 16-bit address.
    A16,
    /// An 8-bit value.
    D8,
    /// A 16-bit value.
    D16,
    /// A signed 8-bit displacement.
    R8,
    /// No operand: the opcode says it all.
    Implied,
}

/// The failure of the decoder: `code` names no instruction.
#[derive(Clone, Copy, Debug, PartialEq, Eq, Structural)]
pub struct DecodeError {
    pub code: u16,
}

/// Entry `i` of the operand list `B, C, D, E, H, L, (HL), A`.
pub open spec fn operand_at(i: int) -> Operand8 {
    if i == 0 {
        Operand8::Reg(Reg8::B)
    } else if i == 1 {
        Operand8::Reg(Reg8::C)
    } else if i == 2 {
        Operand8::Reg(Reg8::D)
    } else if i == 3 {
        Operand8::Reg(Reg8::E)
    } else if i == 4 {
        Operand8::Reg(Reg8::H)
    } else if i == 5 {
        Operand8::Reg(Reg8::L)
    } else if i == 6 {
        Operand8::HlInd
    } else {
        Operand8::Reg(Reg8::A)
    }
}

/// Entry `p` of the pair list `BC, DE, HL, SP`.
pub open spec fn reg16_at(p: int) -> Reg16 {
    if p == 0 {
        Reg16::BC
    } else if p == 1 {
        Reg16::DE
    } else if p == 2 {
        Reg16::HL
    } else {
        Reg16::SP
    }
}

/// Entry `p` of the pair list `BC, DE, HL, AF`.
pub open spec fn stack_pair_at(p: int) -> StackPair {
    if p == 0 {
        StackPair::BC
    } else if p == 1 {
        StackPair::DE
    } else if p == 2 {
        StackPair::HL
    } else {
        StackPair::AF
    }
}

/// Entry `p` of the address list `(BC), (DE), (HL+), (HL-)`.
pub open spec fn indirect_at(p: int) -> Indirect {
    if p == 0 {
        Indirect::BC
    } else if p == 1 {
        Indirect::DE
    } else if p == 2 {
        Indirect::HLInc
    } else {
        Indirect::HLDec
    }
}

/// Entry `i` of the condition list `NZ, Z, NC, C`.
pub open spec fn cond_at(i: int) -> Cond {
    if i == 0 {
        Cond::NZ
    } else if i == 1 {
        Cond::Z
    } else if i == 2 {
        Cond::NC
    } else {
        Cond::C
    }
}

/// Entry `y` of the list `ADD, ADC, SUB, SBC, AND, XOR, OR, CP`.
pub open spec fn alu_at(y: int) -> AluOp {
    if y == 0 {
        AluOp::Add
    } else if y == 1 {
        AluOp::Adc
    } else if y == 2 {
        AluOp::Sub
    } else if y == 3 {
        AluOp::Sbc
    } else if y == 4 {
        AluOp::And
    } else if y == 5 {
        AluOp::Xor
    } else if y == 6 {
        AluOp::Or
    } else {
        AluOp::Cp
    }
}

/// Entry `y` of the list `RLC, RRC, RL, RR, SLA, SRA, SWAP, SRL`.
pub open spec fn rot_at(y: int) -> RotOp {
    if y == 0 {
        RotOp::Rlc
    } else if y == 1 {
        RotOp::Rrc
    } else if y == 2 {
        RotOp::Rl
    } else if y == 3 {
        RotOp::Rr
    } else if y == 4 {
        RotOp::Sla
    } else if y == 5 {
        RotOp::Sra
    } else if y == 6 {
        RotOp::Swap
    } else {
        RotOp::Srl
    }
}

/// The instructions of family 0 for the fields `y` and `z`.
pub open spec fn decode_low(y: int, z: int) -> Instr {
    let p = y / 2;
    let q = y % 2;
    if z == 0 {
        if y == 0 {
            Instr::Nop
        } else if y == 1 {
            Instr::LdA16Sp
        } else if y == 2 {
            Instr::Stop
        } else if y == 3 {
            Instr::Jr
        } else {
            Instr::JrCond(cond_at(y - 4))
        }
    } else if z == 1 {
        if q == 0 {
            Instr::Ld16Imm(reg16_at(p))
        } else {
            Instr::AddHl(reg16_at(p))
        }
    } else if z == 2 {
        if q == 0 {
            Instr::LdToInd(indirect_at(p))
        } else {
            Instr::LdAFrom(indirect_at(p))
        }
    } else if z == 3 {
        if q == 0 {
            Instr::Inc16(reg16_at(p))
        } else {
            Instr::Dec16(reg16_at(p))
        }
    } else if z == 4 {
        Instr::Inc(operand_at(y))
    } else if z == 5 {
        Instr::Dec(operand_at(y))
    } else if z == 6 {
        Instr::LdImm(operand_at(y))
    } else if y == 0 {
        Instr::Rlca
    } else if y == 1 {
        Instr::Rrca
    } else if y == 2 {
        Instr::Rla
    } else if y == 3 {
        Instr::Rra
    } else if y == 4 {
        Instr::Daa
    } else if y == 5 {
        Instr::Cpl
    } else if y == 6 {
        Instr::Scf
    } else {
        Instr::Ccf
    }
}

/// The instructions of family 3 for the fields `y` and `z`, where there is
/// one: eleven opcodes of this family are illegal, and one is the prefix.
pub open spec fn decode_high(y: int, z: int) -> Option<Instr> {
    let p = y / 2;
    let q = y % 2;
    if z == 0 {
        if y < 4 {
            Some(Instr::RetCond(cond_at(y)))
        } else if y == 4 {
            Some(Instr::LdhA8FromA)
        } else if y == 5 {
            Some(Instr::AddSpR8)
        } else if y == 6 {
            Some(Instr::LdhAFromA8)
        } else {
            Some(Instr::LdHlSpR8)
        }
    } else if z == 1 {
        if q == 0 {
            Some(Instr::Pop(stack_pair_at(p)))
        } else if p == 0 {
            Some(Instr::Ret)
        } else if p == 1 {
            Some(Instr::Reti)
        } else if p == 2 {
            Some(Instr::JpHl)
        } else {
            Some(Instr::LdSpHl)
        }
    } else if z == 2 {
        if y < 4 {
            Some(Instr::JpCond(cond_at(y)))
        } else if y == 4 {
            Some(Instr::LdCFromA)
        } else if y == 5 {
            Some(Instr::LdA16FromA)
        } else if y == 6 {
            Some(Instr::LdAFromC)
        } else {
            Some(Instr::LdAFromA16)
        }
    } else if z == 3 {
        if y == 0 {
            Some(Instr::Jp)
        } else if y == 6 {
            Some(Instr::Di)
        } else if y == 7 {
            Some(Instr::Ei)
        } else {
            None
        }
    } else if z == 4 {
        if y < 4 {
            Some(Instr::CallCond(cond_at(y)))
        } else {
            None
        }
    } else if z == 5 {
        if q == 0 {
            Some(Instr::Push(stack_pair_at(p)))
        } else if p == 0 {
            Some(Instr::Call)
        } else {
            None
        }
    } else if z == 6 {
        Some(Instr::AluImm(alu_at(y)))
    } else {
        Some(Instr::Rst((y * 8) as u8))
    }
}

/// The instruction that the base-page opcode `op` (0 to 255) names.
pub open spec fn decode_base(op: int) -> Option<Instr> {
    let x = op / 64;
    let y = (op / 8) % 8;
    let z = op % 8;
    if x == 0 {
        Some(decode_low(y, z))
    } else if x == 1 {
        if op == 0x76 {
            Some(Instr::Halt)
        } else {
            Some(Instr::Ld(operand_at(y), operand_at(z)))
        }
    } else if x == 2 {
        Some(Instr::Alu(alu_at(y), operand_at(z)))
    } else {
        decode_high(y, z)
    }
}

/// The instruction that the prefixed-page opcode `op` (0 to 255) names.
pub open spec fn decode_prefixed(op: int) -> Instr {
    let x = op / 64;
    let y = (op / 8) % 8;
    let z = op % 8;
    if x == 0 {
        Instr::Rot(rot_at(y), operand_at(z))
    } else if x == 1 {
        Instr::TestBit(y as u8, operand_at(z))
    } else if x == 2 {
        Instr::ResBit(y as u8, operand_at(z))
    } else {
        Instr::SetBit(y as u8, operand_at(z))
    }
}

/// The instruction that `code` names, if any.
pub open spec fn decode(code: u16) -> Option<Instr> {
    if code / 256 == 0x00 {
        decode_base((code % 256) as int)
    } else if code / 256 == 0xCB {
        Some(decode_prefixed((code % 256) as int))
    } else {
        None
    }
}

impl Operand8 {
    /// Whether this operand is the byte at `(HL)` rather than a register.
    pub open spec fn in_memory(self) -> bool {
        self is HlInd
    }

    /// The operand as it is written.
    pub open spec fn name(self) -> Seq<char> {
        match self {
            Operand8::Reg(Reg8::B) => "B"@,
            Operand8::Reg(Reg8::C) => "C"@,
            Operand8::Reg(Reg8::D) => "D"@,
            Operand8::Reg(Reg8::E) => "E"@,
            Operand8::Reg(Reg8::H) => "H"@,
            Operand8::Reg(Reg8::L) => "L"@,
            Operand8::Reg(Reg8::A) => "A"@,
            Operand8::HlInd => "(HL)"@,
        }
    }
}

impl Reg16 {
    /// The pair as it is written.
    pub open spec fn name(self) -> Seq<char> {
        match self {
            Reg16::BC => "BC"@,
            Reg16::DE => "DE"@,
            Reg16::HL => "HL"@,
            Reg16::SP => "SP"@,
        }
    }
}

impl StackPair {
    /// The pair as it is written.
    pub open spec fn name(self) -> Seq<char> {
        match self {
            StackPair::BC => "BC"@,
            StackPair::DE => "DE"@,
            StackPair::HL => "HL"@,
            StackPair::AF => "AF"@,
        }
    }
}

impl Indirect {
    /// The address as it is written.
    pub open spec fn name(self) -> Seq<char> {
        match self {
            Indirect::BC => "(BC)"@,
            Indirect::DE => "(DE)"@,
            Indirect::HLInc => "(HL+)"@,
            Indirect::HLDec => "(HL-)"@,
        }
    }
}

impl Cond {
    /// The condition as it is written.
    pub open spec fn name(self) -> Seq<char> {
        match self {
            Cond::NZ => "NZ"@,
            Cond::Z => "Z"@,
            Cond::NC => "NC"@,
            Cond::C => "C"@,
        }
    }
}

impl AluOp {
    /// The operation as it is written, up to its operand. Additions and
    /// subtractions with carry name the accumulator, as does `ADD`.
    pub open spec fn name(self) -> Seq<char> {
        match self {
            AluOp::Add => "ADD A, "@,
            AluOp::Adc => "ADC A, "@,
            AluOp::Sub => "SUB "@,
            AluOp::Sbc => "SBC A, "@,
            AluOp::And => "AND "@,
            AluOp::Xor => "XOR "@,
            AluOp::Or => "OR "@,
            AluOp::Cp => "CP "@,
        }
    }
}

impl RotOp {
    /// The operation as it is written, up to its operand.
    pub open spec fn name(self) -> Seq<char> {
        match self {
            RotOp::Rlc => "RLC "@,
            RotOp::Rrc => "RRC "@,
            RotOp::Rl => "RL "@,
            RotOp::Rr => "RR "@,
            RotOp::Sla => "SLA "@,
            RotOp::Sra => "SRA "@,
            RotOp::Swap => "SWAP "@,
            RotOp::Srl => "SRL "@,
        }
    }
}

/// The digit for a bit number 0 to 7.
pub open spec fn bit_digit(n: u8) -> Seq<char> {
    if n == 0 {
        "0"@
    } else if n == 1 {
        "1"@
    } else if n == 2 {
        "2"@
    } else if n == 3 {
        "3"@
    } else if n == 4 {
        "4"@
    } else if n == 5 {
        "5"@
    } else if n == 6 {
        "6"@
    } else {
        "7"@
    }
}

/// The way the target of `RST` is written: two hex digits and `H`.
pub open spec fn rst_target(n: u8) -> Seq<char> {
    if n == 0x00 {
        "00H"@
    } else if n == 0x08 {
        "08H"@
    } else if n == 0x10 {
        "10H"@
    } else if n == 0x18 {
        "18H"@
    } else if n == 0x20 {
        "20H"@
    } else if n == 0x28 {
        "28H"@
    } else if n == 0x30 {
        "30H"@
    } else {
        "38H"@
    }
}

impl Instr {
    /// The kind of immediate operand that follows the opcode.
    pub open spec fn mode(self) -> ValueMode {
        match self {
            Instr::LdImm(_) | Instr::AluImm(_) => ValueMode::D8,
            Instr::Ld16Imm(_) => ValueMode::D16,
            Instr::LdhAFromA8 | Instr::LdhA8FromA => ValueMode::A8Hi,
            Instr::LdAFromA16 | Instr::LdA16FromA | Instr::LdA16Sp | Instr::Jp | Instr::JpCond(
                _,
            ) | Instr::Call | Instr::CallCond(_) => ValueMode::A16,
            Instr::Jr | Instr::JrCond(_) | Instr::AddSpR8 | Instr::LdHlSpR8 => ValueMode::R8,
            _ => ValueMode::Implied,
        }
    }

    /// Whether the instruction belongs to the prefixed page, so that its
    /// opcode takes two bytes.
    pub open spec fn prefixed(self) -> bool {
        match self {
            Instr::Rot(_, _) | Instr::TestBit(_, _) | Instr::ResBit(_, _) | Instr::SetBit(
                _,
                _,
            ) => true,
            _ => false,
        }
    }

    /// Whether the instruction sets the program counter to a target:
    /// jumps, calls, returns and restarts, conditional or not.
    pub open spec fn is_branch(self) -> bool {
        match self {
            Instr::Jp | Instr::JpCond(_) | Instr::JpHl | Instr::Jr | Instr::JrCond(_)
            | Instr::Call | Instr::CallCond(_) | Instr::Ret | Instr::RetCond(_) | Instr::Reti
            | Instr::Rst(_) => true,
            _ => false,
        }
    }

    /// The length of the instruction in bytes: opcode and operand.
    pub open spec fn length(self) -> int {
        (if self.prefixed() {
            2int
        } else {
            1int
        }) + self.mode().operand_bytes()
    }

    /// The cost in T-states when no branch is taken.
    pub open spec fn base_cycles(self) -> u8 {
        match self {
            Instr::Nop | Instr::Stop | Instr::Halt | Instr::Di | Instr::Ei => 4,
            Instr::Ld(dst, src) => if dst.in_memory() || src.in_memory() {
                8
            } else {
                4
            },
            Instr::LdImm(dst) => if dst.in_memory() {
                12
            } else {
                8
            },
            Instr::LdAFrom(_) | Instr::LdToInd(_) | Instr::LdAFromC | Instr::LdCFromA => 8,
            Instr::LdAFromA16 | Instr::LdA16FromA => 16,
            Instr::LdhAFromA8 | Instr::LdhA8FromA => 12,
            Instr::Ld16Imm(_) => 12,
            Instr::LdA16Sp => 20,
            Instr::LdSpHl => 8,
            Instr::LdHlSpR8 => 12,
            Instr::Alu(_, src) => if src.in_memory() {
                8
            } else {
                4
            },
            Instr::AluImm(_) => 8,
            Instr::Inc(r) | Instr::Dec(r) => if r.in_memory() {
                12
            } else {
                4
            },
            Instr::Inc16(_) | Instr::Dec16(_) | Instr::AddHl(_) => 8,
            Instr::AddSpR8 => 16,
            Instr::Rlca | Instr::Rrca | Instr::Rla | Instr::Rra | Instr::Daa | Instr::Cpl
            | Instr::Scf | Instr::Ccf => 4,
            Instr::Rot(_, r) | Instr::ResBit(_, r) | Instr::SetBit(_, r) => if r.in_memory() {
                16
            } else {
                8
            },
            Instr::TestBit(_, r) => if r.in_memory() {
                12
            } else {
                8
            },
            Instr::Jp => 16,
            Instr::JpCond(_) => 12,
            Instr::JpHl => 4,
            Instr::Jr => 12,
            Instr::JrCond(_) => 8,
            Instr::Call => 24,
            Instr::CallCond(_) => 12,
            Instr::Ret | Instr::Reti => 16,
            Instr::RetCond(_) => 8,
            Instr::Rst(_) => 16,
            Instr::Push(_) => 16,
            Instr::Pop(_) => 12,
        }
    }

    /// What a conditional branch costs on top of [`Instr::base_cycles`]
    /// when it is taken; zero for every other instruction.
    pub open spec fn taken_cycles(self) -> u8 {
        match self {
            Instr::JpCond(_) | Instr::JrCond(_) => 4,
            Instr::CallCond(_) | Instr::RetCond(_) => 12,
            _ => 0,
        }
    }

    /// The text before the operand slot; for an instruction without an
    /// immediate operand, the whole text.
    pub open spec fn prefix(self) -> Seq<char> {
        match self {
            Instr::Nop => "NOP"@,
            Instr::Stop => "STOP 0"@,
            Instr::Halt => "HALT"@,
            Instr::Di => "DI"@,
            Instr::Ei => "EI"@,
            Instr::Ld(dst, src) => "LD "@ + dst.name() + ", "@ + src.name(),
            Instr::LdImm(dst) => "LD "@ + dst.name() + ", "@,
            Instr::LdAFrom(ind) => "LD A, "@ + ind.name(),
            Instr::LdToInd(ind) => "LD "@ + ind.name() + ", A"@,
            Instr::LdAFromA16 => "LD A, ("@,
            Instr::LdA16FromA => "LD ("@,
            Instr::LdhAFromA8 => "LDH A, ("@,
            Instr::LdhA8FromA => "LDH ("@,
            Instr::LdAFromC => "LD A, (C)"@,
            Instr::LdCFromA => "LD (C), A"@,
            Instr::Ld16Imm(rr) => "LD "@ + rr.name() + ", "@,
            Instr::LdA16Sp => "LD ("@,
            Instr::LdSpHl => "LD SP, HL"@,
            Instr::LdHlSpR8 => "LD HL, SP+"@,
            Instr::Alu(op, src) => op.name() + src.name(),
            Instr::AluImm(op) => op.name(),
            Instr::Inc(r) => "INC "@ + r.name(),
            Instr::Dec(r) => "DEC "@ + r.name(),
            Instr::Inc16(rr) => "INC "@ + rr.name(),
            Instr::Dec16(rr) => "DEC "@ + rr.name(),
            Instr::AddHl(rr) => "ADD HL, "@ + rr.name(),
            Instr::AddSpR8 => "ADD SP, "@,
            Instr::Rlca => "RLCA"@,
            Instr::Rrca => "RRCA"@,
            Instr::Rla => "RLA"@,
            Instr::Rra => "RRA"@,
            Instr::Daa => "DAA"@,
            Instr::Cpl => "CPL"@,
            Instr::Scf => "SCF"@,
            Instr::Ccf => "CCF"@,
            Instr::Rot(op, r) => op.name() + r.name(),
            Instr::TestBit(n, r) => "BIT "@ + bit_digit(n) + ", "@ + r.name(),
            Instr::ResBit(n, r) => "RES "@ + bit_digit(n) + ", "@ + r.name(),
            Instr::SetBit(n, r) => "SET "@ + bit_digit(n) + ", "@ + r.name(),
            Instr::Jp => "JP "@,
            Instr::JpCond(cc) => "JP "@ + cc.name() + ", "@,
            Instr::JpHl => "JP (HL)"@,
            Instr::Jr => "JR "@,
            Instr::JrCond(cc) => "JR "@ + cc.name() + ", "@,
            Instr::Call => "CALL "@,
            Instr::CallCond(cc) => "CALL "@ + cc.name() + ", "@,
            Instr::Ret => "RET"@,
            Instr::RetCond(cc) => "RET "@ + cc.name(),
            Instr::Reti => "RETI"@,
            Instr::Rst(n) => "RST "@ + rst_target(n),
            Instr::Push(rr) => "PUSH "@ + rr.name(),
            Instr::Pop(rr) => "POP "@ + rr.name(),
        }
    }

    /// The text after the operand slot.
    pub open spec fn suffix(self) -> Seq<char> {
        match self {
            Instr::LdAFromA16 | Instr::LdhAFromA8 => ")"@,
            Instr::LdA16FromA | Instr::LdhA8FromA => "), A"@,
            Instr::LdA16Sp => "), SP"@,
            _ => Seq::<char>::empty(),
        }
    }

    /// The mnemonic template: the text of the instruction, with `{}` in
    /// the place of the immediate operand where there is one.
    pub open spec fn template(self) -> Seq<char> {
        if self.mode() is Implied {
            self.prefix()
        } else {
            self.prefix() + "{}"@ + self.suffix()
        }
    }
}

impl ValueMode {
    /// The number of bytes that the operand takes after the opcode.
    pub open spec fn operand_bytes(self) -> int {
        match self {
            ValueMode::Implied => 0,
            ValueMode::D16 | ValueMode::A16 => 2,
            _ => 1,
        }
    }
}

/// The descriptor of one instruction.
#[derive(Clone, Copy, Debug)]
pub struct Operation {
    /// The mnemonic template, with `{}` for the immediate operand.
    pub dis: &'static str,
    /// What the instruction does.
    pub action: Instr,
    /// The cost in T-states when no branch is taken.
    pub cycles: u8,
    /// The kind of immediate operand.
    pub mode: ValueMode,
}

impl Operation {
    /// Whether this is the descriptor of `instr`: its action, its base
    /// cost, its operand mode and its mnemonic template.
    pub open spec fn describes(self, instr: Instr) -> bool {
        &&& self.action == instr
        &&& self.cycles == instr.base_cycles()
        &&& self.mode == instr.mode()
        &&& self.dis@ == instr.template()
    }

    pub fn new(action: Instr, cycles: u8, dis: &'static str, mode: ValueMode) -> (op: Operation)
        ensures
            op.action == action,
            op.cycles == cycles,
            op.dis == dis,
            op.mode == mode,
    {
        Operation { action, cycles, dis, mode }
    }
}

/// Decodes `code`. Succeeds exactly on the codes that name an instruction,
/// with that instruction's descriptor; every other code is reported back in
/// the error.
pub fn get_operation(code: u16) -> (res: Result<Operation, DecodeError>)
    ensures
        match decode(code) {
            Some(instr) => res is Ok && res->Ok_0.describes(instr),
            None => res == Err::<Operation, DecodeError>(DecodeError { code }),
        },
{
    let prefix = code >> 8;
    let opcode = code & 0x00FF;
    proof {
        crate::bitty::lemma_split_word(code);
    }
    match prefix {
        0x00 => match table::base_page(opcode as u8) {
            Some(op) => Ok(op),
            None => Err(DecodeError { code }),
        },
        0xCB => Ok(table::prefixed_page(opcode as u8)),
        _ => Err(DecodeError { code }),
    }
}

} // verus!
