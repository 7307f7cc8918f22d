//! The two opcode pages as tables: one row per opcode, holding the action,
//! the base cost in T-states, the mnemonic template and the operand mode.
//! Every row is checked against the reading of the opcode by its fields.

use vstd::prelude::*;
use crate::gameboy::operations::{
    decode_base, decode_prefixed, AluOp, Cond, Indirect, Instr, Operand8, Operation, Reg16, Reg8,
    RotOp, StackPair, ValueMode,
};

verus! {

/// Base page, opcodes 0x00 to 0x0F.
fn base_00(op: u8) -> (res: Option<Operation>)
    requires
        0x00 <= op <= 0x0F,
    ensures
        match decode_base(op as int) {
            Some(instr) => res is Some && res->Some_0.describes(instr),
            None => res is None,
        },
{
    match op {
        0x00 => {
            Some(Operation::new(Instr::Nop, 4, "NOP", ValueMode::Implied))
        },
        0x01 => {
            proof {
                reveal_strlit("LD BC, {}");
                reveal_strlit("LD ");
                reveal_strlit("BC");
                reveal_strlit(", ");
                reveal_strlit("{}");
                assert("LD BC, {}"@ =~= "LD "@ + "BC"@ + ", "@ + "{}"@);
            }
            Some(Operation::new(Instr::Ld16Imm(Reg16::BC), 12, "LD BC, {}", ValueMode::D16))
        },
        0x02 => {
            proof {
                reveal_strlit("LD (BC), A");
                reveal_strlit("LD ");
                reveal_strlit("(BC)");
                reveal_strlit(", A");
                assert("LD (BC), A"@ =~= "LD "@ + "(BC)"@ + ", A"@);
            }
            Some(Operation::new(
                Instr::LdToInd(Indirect::BC),
                8,
                "LD (BC), A",
                ValueMode::Implied,
            ))
        },
        0x03 => {
            proof {
                reveal_strlit("INC BC");
                reveal_strlit("INC ");
                reveal_strlit("BC");
                assert("INC BC"@ =~= "INC "@ + "BC"@);
            }
            Some(Operation::new(Instr::Inc16(Reg16::BC), 8, "INC BC", ValueMode::Implied))
        },
        0x04 => {
            proof {
                reveal_strlit("INC B");
                reveal_strlit("INC ");
                reveal_strlit("B");
                assert("INC B"@ =~= "INC "@ + "B"@);
            }
            Some(Operation::new(
                Instr::Inc(Operand8::Reg(Reg8::B)),
                4,
                "INC B",
                ValueMode::Implied,
            ))
        },
        0x05 => {
            proof {
                reveal_strlit("DEC B");
                reveal_strlit("DEC ");
                reveal_strlit("B");
                assert("DEC B"@ =~= "DEC "@ + "B"@);
            }
            Some(Operation::new(
                Instr::Dec(Operand8::Reg(Reg8::B)),
                4,
                "DEC B",
                ValueMode::Implied,
            ))
        },
        0x06 => {
            proof {
                reveal_strlit("LD B, {}");
                reveal_strlit("LD ");
                reveal_strlit("B");
                reveal_strlit(", ");
                reveal_strlit("{}");
                assert("LD B, {}"@ =~= "LD "@ + "B"@ + ", "@ + "{}"@);
            }
            Some(Operation::new(
                Instr::LdImm(Operand8::Reg(Reg8::B)),
                8,
                "LD B, {}",
                ValueMode::D8,
            ))
        },
        0x07 => {
            Some(Operation::new(Instr::Rlca, 4, "RLCA", ValueMode::Implied))
        },
        0x08 => {
            proof {
                reveal_strlit("LD ({}), SP");
                reveal_strlit("LD (");
                reveal_strlit("{}");
                reveal_strlit("), SP");
                assert("LD ({}), SP"@ =~= "LD ("@ + "{}"@ + "), SP"@);
            }
            Some(Operation::new(Instr::LdA16Sp, 20, "LD ({}), SP", ValueMode::A16))
        },
        0x09 => {
            proof {
                reveal_strlit("ADD HL, BC");
                reveal_strlit("ADD HL, ");
                reveal_strlit("BC");
                assert("ADD HL, BC"@ =~= "ADD HL, "@ + "BC"@);
            }
            Some(Operation::new(Instr::AddHl(Reg16::BC), 8, "ADD HL, BC", ValueMode::Implied))
        },
        0x0A => {
            proof {
                reveal_strlit("LD A, (BC)");
                reveal_strlit("LD A, ");
                reveal_strlit("(BC)");
                assert("LD A, (BC)"@ =~= "LD A, "@ + "(BC)"@);
            }
            Some(Operation::new(
                Instr::LdAFrom(Indirect::BC),
                8,
                "LD A, (BC)",
                ValueMode::Implied,
            ))
        },
        0x0B => {
            proof {
                reveal_strlit("DEC BC");
                reveal_strlit("DEC ");
                reveal_strlit("BC");
                assert("DEC BC"@ =~= "DEC "@ + "BC"@);
            }
            Some(Operation::new(Instr::Dec16(Reg16::BC), 8, "DEC BC", ValueMode::Implied))
        },
        0x0C => {
            proof {
                reveal_strlit("INC C");
                reveal_strlit("INC ");
                reveal_strlit("C");
                assert("INC C"@ =~= "INC "@ + "C"@);
            }
            Some(Operation::new(
                Instr::Inc(Operand8::Reg(Reg8::C)),
                4,
                "INC C",
                ValueMode::Implied,
            ))
        },
        0x0D => {
            proof {
                reveal_strlit("DEC C");
                reveal_strlit("DEC ");
                reveal_strlit("C");
                assert("DEC C"@ =~= "DEC "@ + "C"@);
            }
            Some(Operation::new(
                Instr::Dec(Operand8::Reg(Reg8::C)),
                4,
                "DEC C",
                ValueMode::Implied,
            ))
        },
        0x0E => {
            proof {
                reveal_strlit("LD C, {}");
                reveal_strlit("LD ");
                reveal_strlit("C");
                reveal_strlit(", ");
                reveal_strlit("{}");
                assert("LD C, {}"@ =~= "LD "@ + "C"@ + ", "@ + "{}"@);
            }
            Some(Operation::new(
                Instr::LdImm(Operand8::Reg(Reg8::C)),
                8,
                "LD C, {}",
                ValueMode::D8,
            ))
        },
        _ => {
            Some(Operation::new(Instr::Rrca, 4, "RRCA", ValueMode::Implied))
        },
    }
}

/// Base page, opcodes 0x10 to 0x1F.
fn base_10(op: u8) -> (res: Option<Operation>)
    requires
        0x10 <= op <= 0x1F,
    ensures
        match decode_base(op as int) {
            Some(instr) => res is Some && res->Some_0.describes(instr),
            None => res is None,
        },
{
    match op {
        0x10 => {
            Some(Operation::new(Instr::Stop, 4, "STOP 0", ValueMode::Implied))
        },
        0x11 => {
            proof {
                reveal_strlit("LD DE, {}");
                reveal_strlit("LD ");
                reveal_strlit("DE");
                reveal_strlit(", ");
                reveal_strlit("{}");
                assert("LD DE, {}"@ =~= "LD "@ + "DE"@ + ", "@ + "{}"@);
            }
            Some(Operation::new(Instr::Ld16Imm(Reg16::DE), 12, "LD DE, {}", ValueMode::D16))
        },
        0x12 => {
            proof {
                reveal_strlit("LD (DE), A");
                reveal_strlit("LD ");
                reveal_strlit("(DE)");
                reveal_strlit(", A");
                assert("LD (DE), A"@ =~= "LD "@ + "(DE)"@ + ", A"@);
            }
            Some(Operation::new(
                Instr::LdToInd(Indirect::DE),
                8,
                "LD (DE), A",
                ValueMode::Implied,
            ))
        },
        0x13 => {
            proof {
                reveal_strlit("INC DE");
                reveal_strlit("INC ");
                reveal_strlit("DE");
                assert("INC DE"@ =~= "INC "@ + "DE"@);
            }
            Some(Operation::new(Instr::Inc16(Reg16::DE), 8, "INC DE", ValueMode::Implied))
        },
        0x14 => {
            proof {
                reveal_strlit("INC D");
                reveal_strlit("INC ");
                reveal_strlit("D");
                assert("INC D"@ =~= "INC "@ + "D"@);
            }
            Some(Operation::new(
                Instr::Inc(Operand8::Reg(Reg8::D)),
                4,
                "INC D",
                ValueMode::Implied,
            ))
        },
        0x15 => {
            proof {
                reveal_strlit("DEC D");
                reveal_strlit("DEC ");
                reveal_strlit("D");
                assert("DEC D"@ =~= "DEC "@ + "D"@);
            }
            Some(Operation::new(
                Instr::Dec(Operand8::Reg(Reg8::D)),
                4,
                "DEC D",
                ValueMode::Implied,
            ))
        },
        0x16 => {
            proof {
                reveal_strlit("LD D, {}");
                reveal_strlit("LD ");
                reveal_strlit("D");
                reveal_strlit(", ");
                reveal_strlit("{}");
                assert("LD D, {}"@ =~= "LD "@ + "D"@ + ", "@ + "{}"@);
            }
            Some(Operation::new(
                Instr::LdImm(Operand8::Reg(Reg8::D)),
                8,
                "LD D, {}",
                ValueMode::D8,
            ))
        },
        0x17 => {
            Some(Operation::new(Instr::Rla, 4, "RLA", ValueMode::Implied))
        },
        0x18 => {
            proof {
                reveal_strlit("JR {}");
                reveal_strlit("JR ");
                reveal_strlit("{}");
                assert("JR {}"@ =~= "JR "@ + "{}"@);
            }
            Some(Operation::new(Instr::Jr, 12, "JR {}", ValueMode::R8))
        },
        0x19 => {
            proof {
                reveal_strlit("ADD HL, DE");
                reveal_strlit("ADD HL, ");
                reveal_strlit("DE");
                assert("ADD HL, DE"@ =~= "ADD HL, "@ + "DE"@);
            }
            Some(Operation::new(Instr::AddHl(Reg16::DE), 8, "ADD HL, DE", ValueMode::Implied))
        },
        0x1A => {
            proof {
                reveal_strlit("LD A, (DE)");
                reveal_strlit("LD A, ");
                reveal_strlit("(DE)");
                assert("LD A, (DE)"@ =~= "LD A, "@ + "(DE)"@);
            }
            Some(Operation::new(
                Instr::LdAFrom(Indirect::DE),
                8,
                "LD A, (DE)",
                ValueMode::Implied,
            ))
        },
        0x1B => {
            proof {
                reveal_strlit("DEC DE");
                reveal_strlit("DEC ");
                reveal_strlit("DE");
                assert("DEC DE"@ =~= "DEC "@ + "DE"@);
            }
            Some(Operation::new(Instr::Dec16(Reg16::DE), 8, "DEC DE", ValueMode::Implied))
        },
        0x1C => {
            proof {
                reveal_strlit("INC E");
                reveal_strlit("INC ");
                reveal_strlit("E");
                assert("INC E"@ =~= "INC "@ + "E"@);
            }
            Some(Operation::new(
                Instr::Inc(Operand8::Reg(Reg8::E)),
                4,
                "INC E",
                ValueMode::Implied,
            ))
        },
        0x1D => {
            proof {
                reveal_strlit("DEC E");
                reveal_strlit("DEC ");
                reveal_strlit("E");
                assert("DEC E"@ =~= "DEC "@ + "E"@);
            }
            Some(Operation::new(
                Instr::Dec(Operand8::Reg(Reg8::E)),
                4,
                "DEC E",
                ValueMode::Implied,
            ))
        },
        0x1E => {
            proof {
                reveal_strlit("LD E, {}");
                reveal_strlit("LD ");
                reveal_strlit("E");
                reveal_strlit(", ");
                reveal_strlit("{}");
                assert("LD E, {}"@ =~= "LD "@ + "E"@ + ", "@ + "{}"@);
            }
            Some(Operation::new(
                Instr::LdImm(Operand8::Reg(Reg8::E)),
                8,
                "LD E, {}",
                ValueMode::D8,
            ))
        },
        _ => {
            Some(Operation::new(Instr::Rra, 4, "RRA", ValueMode::Implied))
        },
    }
}

/// Base page, opcodes 0x20 to 0x2F.
fn base_20(op: u8) -> (res: Option<Operation>)
    requires
        0x20 <= op <= 0x2F,
    ensures
        match decode_base(op as int) {
            Some(instr) => res is Some && res->Some_0.describes(instr),
            None => res is None,
        },
{
    match op {
        0x20 => {
            proof {
                reveal_strlit("JR NZ, {}");
                reveal_strlit("JR ");
                reveal_strlit("NZ");
                reveal_strlit(", ");
                reveal_strlit("{}");
                assert("JR NZ, {}"@ =~= "JR "@ + "NZ"@ + ", "@ + "{}"@);
            }
            Some(Operation::new(Instr::JrCond(Cond::NZ), 8, "JR NZ, {}", ValueMode::R8))
        },
        0x21 => {
            proof {
                reveal_strlit("LD HL, {}");
                reveal_strlit("LD ");
                reveal_strlit("HL");
                reveal_strlit(", ");
                reveal_strlit("{}");
                assert("LD HL, {}"@ =~= "LD "@ + "HL"@ + ", "@ + "{}"@);
            }
            Some(Operation::new(Instr::Ld16Imm(Reg16::HL), 12, "LD HL, {}", ValueMode::D16))
        },
        0x22 => {
            proof {
                reveal_strlit("LD (HL+), A");
                reveal_strlit("LD ");
                reveal_strlit("(HL+)");
                reveal_strlit(", A");
                assert("LD (HL+), A"@ =~= "LD "@ + "(HL+)"@ + ", A"@);
            }
            Some(Operation::new(
                Instr::LdToInd(Indirect::HLInc),
                8,
                "LD (HL+), A",
                ValueMode::Implied,
            ))
        },
        0x23 => {
            proof {
                reveal_strlit("INC HL");
                reveal_strlit("INC ");
                reveal_strlit("HL");
                assert("INC HL"@ =~= "INC "@ + "HL"@);
            }
            Some(Operation::new(Instr::Inc16(Reg16::HL), 8, "INC HL", ValueMode::Implied))
        },
        0x24 => {
            proof {
                reveal_strlit("INC H");
                reveal_strlit("INC ");
                reveal_strlit("H");
                assert("INC H"@ =~= "INC "@ + "H"@);
            }
            Some(Operation::new(
                Instr::Inc(Operand8::Reg(Reg8::H)),
                4,
                "INC H",
                ValueMode::Implied,
            ))
        },
        0x25 => {
            proof {
                reveal_strlit("DEC H");
                reveal_strlit("DEC ");
                reveal_strlit("H");
                assert("DEC H"@ =~= "DEC "@ + "H"@);
            }
            Some(Operation::new(
                Instr::Dec(Operand8::Reg(Reg8::H)),
                4,
                "DEC H",
                ValueMode::Implied,
            ))
        },
        0x26 => {
            proof {
                reveal_strlit("LD H, {}");
                reveal_strlit("LD ");
                reveal_strlit("H");
                reveal_strlit(", ");
                reveal_strlit("{}");
                assert("LD H, {}"@ =~= "LD "@ + "H"@ + ", "@ + "{}"@);
            }
            Some(Operation::new(
                Instr::LdImm(Operand8::Reg(Reg8::H)),
                8,
                "LD H, {}",
                ValueMode::D8,
            ))
        },
        0x27 => {
            Some(Operation::new(Instr::Daa, 4, "DAA", ValueMode::Implied))
        },
        0x28 => {
            proof {
                reveal_strlit("JR Z, {}");
                reveal_strlit("JR ");
                reveal_strlit("Z");
                reveal_strlit(", ");
                reveal_strlit("{}");
                assert("JR Z, {}"@ =~= "JR "@ + "Z"@ + ", "@ + "{}"@);
            }
            Some(Operation::new(Instr::JrCond(Cond::Z), 8, "JR Z, {}", ValueMode::R8))
        },
        0x29 => {
            proof {
                reveal_strlit("ADD HL, HL");
                reveal_strlit("ADD HL, ");
                reveal_strlit("HL");
                assert("ADD HL, HL"@ =~= "ADD HL, "@ + "HL"@);
            }
            Some(Operation::new(Instr::AddHl(Reg16::HL), 8, "ADD HL, HL", ValueMode::Implied))
        },
        0x2A => {
            proof {
                reveal_strlit("LD A, (HL+)");
                reveal_strlit("LD A, ");
                reveal_strlit("(HL+)");
                assert("LD A, (HL+)"@ =~= "LD A, "@ + "(HL+)"@);
            }
            Some(Operation::new(
                Instr::LdAFrom(Indirect::HLInc),
                8,
                "LD A, (HL+)",
                ValueMode::Implied,
            ))
        },
        0x2B => {
            proof {
                reveal_strlit("DEC HL");
                reveal_strlit("DEC ");
                reveal_strlit("HL");
                assert("DEC HL"@ =~= "DEC "@ + "HL"@);
            }
            Some(Operation::new(Instr::Dec16(Reg16::HL), 8, "DEC HL", ValueMode::Implied))
        },
        0x2C => {
            proof {
                reveal_strlit("INC L");
                reveal_strlit("INC ");
                reveal_strlit("L");
                assert("INC L"@ =~= "INC "@ + "L"@);
            }
            Some(Operation::new(
                Instr::Inc(Operand8::Reg(Reg8::L)),
                4,
                "INC L",
                ValueMode::Implied,
            ))
        },
        0x2D => {
            proof {
                reveal_strlit("DEC L");
                reveal_strlit("DEC ");
                reveal_strlit("L");
                assert("DEC L"@ =~= "DEC "@ + "L"@);
            }
            Some(Operation::new(
                Instr::Dec(Operand8::Reg(Reg8::L)),
                4,
                "DEC L",
                ValueMode::Implied,
            ))
        },
        0x2E => {
            proof {
                reveal_strlit("LD L, {}");
                reveal_strlit("LD ");
                reveal_strlit("L");
                reveal_strlit(", ");
                reveal_strlit("{}");
                assert("LD L, {}"@ =~= "LD "@ + "L"@ + ", "@ + "{}"@);
            }
            Some(Operation::new(
                Instr::LdImm(Operand8::Reg(Reg8::L)),
                8,
                "LD L, {}",
                ValueMode::D8,
            ))
        },
        _ => {
            Some(Operation::new(Instr::Cpl, 4, "CPL", ValueMode::Implied))
        },
    }
}

/// Base page, opcodes 0x30 to 0x3F.
fn base_30(op: u8) -> (res: Option<Operation>)
    requires
        0x30 <= op <= 0x3F,
    ensures
        match decode_base(op as int) {
            Some(instr) => res is Some && res->Some_0.describes(instr),
            None => res is None,
        },
{
    match op {
        0x30 => {
            proof {
                reveal_strlit("JR NC, {}");
                reveal_strlit("JR ");
                reveal_strlit("NC");
                reveal_strlit(", ");
                reveal_strlit("{}");
                assert("JR NC, {}"@ =~= "JR "@ + "NC"@ + ", "@ + "{}"@);
            }
            Some(Operation::new(Instr::JrCond(Cond::NC), 8, "JR NC, {}", ValueMode::R8))
        },
        0x31 => {
            proof {
                reveal_strlit("LD SP, {}");
                reveal_strlit("LD ");
                reveal_strlit("SP");
                reveal_strlit(", ");
                reveal_strlit("{}");
                assert("LD SP, {}"@ =~= "LD "@ + "SP"@ + ", "@ + "{}"@);
            }
            Some(Operation::new(Instr::Ld16Imm(Reg16::SP), 12, "LD SP, {}", ValueMode::D16))
        },
        0x32 => {
            proof {
                reveal_strlit("LD (HL-), A");
                reveal_strlit("LD ");
                reveal_strlit("(HL-)");
                reveal_strlit(", A");
                assert("LD (HL-), A"@ =~= "LD "@ + "(HL-)"@ + ", A"@);
            }
            Some(Operation::new(
                Instr::LdToInd(Indirect::HLDec),
                8,
                "LD (HL-), A",
                ValueMode::Implied,
            ))
        },
        0x33 => {
            proof {
                reveal_strlit("INC SP");
                reveal_strlit("INC ");
                reveal_strlit("SP");
                assert("INC SP"@ =~= "INC "@ + "SP"@);
            }
            Some(Operation::new(Instr::Inc16(Reg16::SP), 8, "INC SP", ValueMode::Implied))
        },
        0x34 => {
            proof {
                reveal_strlit("INC (HL)");
                reveal_strlit("INC ");
                reveal_strlit("(HL)");
                assert("INC (HL)"@ =~= "INC "@ + "(HL)"@);
            }
            Some(Operation::new(Instr::Inc(Operand8::HlInd), 12, "INC (HL)", ValueMode::Implied))
        },
        0x35 => {
            proof {
                reveal_strlit("DEC (HL)");
                reveal_strlit("DEC ");
                reveal_strlit("(HL)");
                assert("DEC (HL)"@ =~= "DEC "@ + "(HL)"@);
            }
            Some(Operation::new(Instr::Dec(Operand8::HlInd), 12, "DEC (HL)", ValueMode::Implied))
        },
        0x36 => {
            proof {
                reveal_strlit("LD (HL), {}");
                reveal_strlit("LD ");
                reveal_strlit("(HL)");
                reveal_strlit(", ");
                reveal_strlit("{}");
                assert("LD (HL), {}"@ =~= "LD "@ + "(HL)"@ + ", "@ + "{}"@);
            }
            Some(Operation::new(Instr::LdImm(Operand8::HlInd), 12, "LD (HL), {}", ValueMode::D8))
        },
        0x37 => {
            Some(Operation::new(Instr::Scf, 4, "SCF", ValueMode::Implied))
        },
        0x38 => {
            proof {
                reveal_strlit("JR C, {}");
                reveal_strlit("JR ");
                reveal_strlit("C");
                reveal_strlit(", ");
                reveal_strlit("{}");
                assert("JR C, {}"@ =~= "JR "@ + "C"@ + ", "@ + "{}"@);
            }
            Some(Operation::new(Instr::JrCond(Cond::C), 8, "JR C, {}", ValueMode::R8))
        },
        0x39 => {
            proof {
                reveal_strlit("ADD HL, SP");
                reveal_strlit("ADD HL, ");
                reveal_strlit("SP");
                assert("ADD HL, SP"@ =~= "ADD HL, "@ + "SP"@);
            }
            Some(Operation::new(Instr::AddHl(Reg16::SP), 8, "ADD HL, SP", ValueMode::Implied))
        },
        0x3A => {
            proof {
                reveal_strlit("LD A, (HL-)");
                reveal_strlit("LD A, ");
                reveal_strlit("(HL-)");
                assert("LD A, (HL-)"@ =~= "LD A, "@ + "(HL-)"@);
            }
            Some(Operation::new(
                Instr::LdAFrom(Indirect::HLDec),
                8,
                "LD A, (HL-)",
                ValueMode::Implied,
            ))
        },
        0x3B => {
            proof {
                reveal_strlit("DEC SP");
                reveal_strlit("DEC ");
                reveal_strlit("SP");
                assert("DEC SP"@ =~= "DEC "@ + "SP"@);
            }
            Some(Operation::new(Instr::Dec16(Reg16::SP), 8, "DEC SP", ValueMode::Implied))
        },
        0x3C => {
            proof {
                reveal_strlit("INC A");
                reveal_strlit("INC ");
                reveal_strlit("A");
                assert("INC A"@ =~= "INC "@ + "A"@);
            }
            Some(Operation::new(
                Instr::Inc(Operand8::Reg(Reg8::A)),
                4,
                "INC A",
                ValueMode::Implied,
            ))
        },
        0x3D => {
            proof {
                reveal_strlit("DEC A");
                reveal_strlit("DEC ");
                reveal_strlit("A");
                assert("DEC A"@ =~= "DEC "@ + "A"@);
            }
            Some(Operation::new(
                Instr::Dec(Operand8::Reg(Reg8::A)),
                4,
                "DEC A",
                ValueMode::Implied,
            ))
        },
        0x3E => {
            proof {
                reveal_strlit("LD A, {}");
                reveal_strlit("LD ");
                reveal_strlit("A");
                reveal_strlit(", ");
                reveal_strlit("{}");
                assert("LD A, {}"@ =~= "LD "@ + "A"@ + ", "@ + "{}"@);
            }
            Some(Operation::new(
                Instr::LdImm(Operand8::Reg(Reg8::A)),
                8,
                "LD A, {}",
                ValueMode::D8,
            ))
        },
        _ => {
            Some(Operation::new(Instr::Ccf, 4, "CCF", ValueMode::Implied))
        },
    }
}

/// Base page, opcodes 0x40 to 0x4F.
fn base_40(op: u8) -> (res: Option<Operation>)
    requires
        0x40 <= op <= 0x4F,
    ensures
        match decode_base(op as int) {
            Some(instr) => res is Some && res->Some_0.describes(instr),
            None => res is None,
        },
{
    match op {
        0x40 => {
            proof {
                reveal_strlit("LD B, B");
                reveal_strlit("LD ");
                reveal_strlit("B");
                reveal_strlit(", ");
                assert("LD B, B"@ =~= "LD "@ + "B"@ + ", "@ + "B"@);
            }
            Some(Operation::new(
                Instr::Ld(Operand8::Reg(Reg8::B), Operand8::Reg(Reg8::B)),
                4,
                "LD B, B",
                ValueMode::Implied,
            ))
        },
        0x41 => {
            proof {
                reveal_strlit("LD B, C");
                reveal_strlit("LD ");
                reveal_strlit("B");
                reveal_strlit(", ");
                reveal_strlit("C");
                assert("LD B, C"@ =~= "LD "@ + "B"@ + ", "@ + "C"@);
            }
            Some(Operation::new(
                Instr::Ld(Operand8::Reg(Reg8::B), Operand8::Reg(Reg8::C)),
                4,
                "LD B, C",
                ValueMode::Implied,
            ))
        },
        0x42 => {
            proof {
                reveal_strlit("LD B, D");
                reveal_strlit("LD ");
                reveal_strlit("B");
                reveal_strlit(", ");
                reveal_strlit("D");
                assert("LD B, D"@ =~= "LD "@ + "B"@ + ", "@ + "D"@);
            }
            Some(Operation::new(
                Instr::Ld(Operand8::Reg(Reg8::B), Operand8::Reg(Reg8::D)),
                4,
                "LD B, D",
                ValueMode::Implied,
            ))
        },
        0x43 => {
            proof {
                reveal_strlit("LD B, E");
                reveal_strlit("LD ");
                reveal_strlit("B");
                reveal_strlit(", ");
                reveal_strlit("E");
                assert("LD B, E"@ =~= "LD "@ + "B"@ + ", "@ + "E"@);
            }
            Some(Operation::new(
                Instr::Ld(Operand8::Reg(Reg8::B), Operand8::Reg(Reg8::E)),
                4,
                "LD B, E",
                ValueMode::Implied,
            ))
        },
        0x44 => {
            proof {
                reveal_strlit("LD B, H");
                reveal_strlit("LD ");
                reveal_strlit("B");
                reveal_strlit(", ");
                reveal_strlit("H");
                assert("LD B, H"@ =~= "LD "@ + "B"@ + ", "@ + "H"@);
            }
            Some(Operation::new(
                Instr::Ld(Operand8::Reg(Reg8::B), Operand8::Reg(Reg8::H)),
                4,
                "LD B, H",
                ValueMode::Implied,
            ))
        },
        0x45 => {
            proof {
                reveal_strlit("LD B, L");
                reveal_strlit("LD ");
                reveal_strlit("B");
                reveal_strlit(", ");
                reveal_strlit("L");
                assert("LD B, L"@ =~= "LD "@ + "B"@ + ", "@ + "L"@);
            }
            Some(Operation::new(
                Instr::Ld(Operand8::Reg(Reg8::B), Operand8::Reg(Reg8::L)),
                4,
                "LD B, L",
                ValueMode::Implied,
            ))
        },
        0x46 => {
            proof {
                reveal_strlit("LD B, (HL)");
                reveal_strlit("LD ");
                reveal_strlit("B");
                reveal_strlit(", ");
                reveal_strlit("(HL)");
                assert("LD B, (HL)"@ =~= "LD "@ + "B"@ + ", "@ + "(HL)"@);
            }
            Some(Operation::new(
                Instr::Ld(Operand8::Reg(Reg8::B), Operand8::HlInd),
                8,
                "LD B, (HL)",
                ValueMode::Implied,
            ))
        },
        0x47 => {
            proof {
                reveal_strlit("LD B, A");
                reveal_strlit("LD ");
                reveal_strlit("B");
                reveal_strlit(", ");
                reveal_strlit("A");
                assert("LD B, A"@ =~= "LD "@ + "B"@ + ", "@ + "A"@);
            }
            Some(Operation::new(
                Instr::Ld(Operand8::Reg(Reg8::B), Operand8::Reg(Reg8::A)),
                4,
                "LD B, A",
                ValueMode::Implied,
            ))
        },
        0x48 => {
            proof {
                reveal_strlit("LD C, B");
                reveal_strlit("LD ");
                reveal_strlit("C");
                reveal_strlit(", ");
                reveal_strlit("B");
                assert("LD C, B"@ =~= "LD "@ + "C"@ + ", "@ + "B"@);
            }
            Some(Operation::new(
                Instr::Ld(Operand8::Reg(Reg8::C), Operand8::Reg(Reg8::B)),
                4,
                "LD C, B",
                ValueMode::Implied,
            ))
        },
        0x49 => {
            proof {
                reveal_strlit("LD C, C");
                reveal_strlit("LD ");
                reveal_strlit("C");
                reveal_strlit(", ");
                assert("LD C, C"@ =~= "LD "@ + "C"@ + ", "@ + "C"@);
            }
            Some(Operation::new(
                Instr::Ld(Operand8::Reg(Reg8::C), Operand8::Reg(Reg8::C)),
                4,
                "LD C, C",
                ValueMode::Implied,
            ))
        },
        0x4A => {
            proof {
                reveal_strlit("LD C, D");
                reveal_strlit("LD ");
                reveal_strlit("C");
                reveal_strlit(", ");
                reveal_strlit("D");
                assert("LD C, D"@ =~= "LD "@ + "C"@ + ", "@ + "D"@);
            }
            Some(Operation::new(
                Instr::Ld(Operand8::Reg(Reg8::C), Operand8::Reg(Reg8::D)),
                4,
                "LD C, D",
                ValueMode::Implied,
            ))
        },
        0x4B => {
            proof {
                reveal_strlit("LD C, E");
                reveal_strlit("LD ");
                reveal_strlit("C");
                reveal_strlit(", ");
                reveal_strlit("E");
                assert("LD C, E"@ =~= "LD "@ + "C"@ + ", "@ + "E"@);
            }
            Some(Operation::new(
                Instr::Ld(Operand8::Reg(Reg8::C), Operand8::Reg(Reg8::E)),
                4,
                "LD C, E",
                ValueMode::Implied,
            ))
        },
        0x4C => {
            proof {
                reveal_strlit("LD C, H");
                reveal_strlit("LD ");
                reveal_strlit("C");
                reveal_strlit(", ");
                reveal_strlit("H");
                assert("LD C, H"@ =~= "LD "@ + "C"@ + ", "@ + "H"@);
            }
            Some(Operation::new(
                Instr::Ld(Operand8::Reg(Reg8::C), Operand8::Reg(Reg8::H)),
                4,
                "LD C, H",
                ValueMode::Implied,
            ))
        },
        0x4D => {
            proof {
                reveal_strlit("LD C, L");
                reveal_strlit("LD ");
                reveal_strlit("C");
                reveal_strlit(", ");
                reveal_strlit("L");
                assert("LD C, L"@ =~= "LD "@ + "C"@ + ", "@ + "L"@);
            }
            Some(Operation::new(
                Instr::Ld(Operand8::Reg(Reg8::C), Operand8::Reg(Reg8::L)),
                4,
                "LD C, L",
                ValueMode::Implied,
            ))
        },
        0x4E => {
            proof {
                reveal_strlit("LD C, (HL)");
                reveal_strlit("LD ");
                reveal_strlit("C");
                reveal_strlit(", ");
                reveal_strlit("(HL)");
                assert("LD C, (HL)"@ =~= "LD "@ + "C"@ + ", "@ + "(HL)"@);
            }
            Some(Operation::new(
                Instr::Ld(Operand8::Reg(Reg8::C), Operand8::HlInd),
                8,
                "LD C, (HL)",
                ValueMode::Implied,
            ))
        },
        _ => {
            proof {
                reveal_strlit("LD C, A");
                reveal_strlit("LD ");
                reveal_strlit("C");
                reveal_strlit(", ");
                reveal_strlit("A");
                assert("LD C, A"@ =~= "LD "@ + "C"@ + ", "@ + "A"@);
            }
            Some(Operation::new(
                Instr::Ld(Operand8::Reg(Reg8::C), Operand8::Reg(Reg8::A)),
                4,
                "LD C, A",
                ValueMode::Implied,
            ))
        },
    }
}

/// Base page, opcodes 0x50 to 0x5F.
fn base_50(op: u8) -> (res: Option<Operation>)
    requires
        0x50 <= op <= 0x5F,
    ensures
        match decode_base(op as int) {
            Some(instr) => res is Some && res->Some_0.describes(instr),
            None => res is None,
        },
{
    match op {
        0x50 => {
            proof {
                reveal_strlit("LD D, B");
                reveal_strlit("LD ");
                reveal_strlit("D");
                reveal_strlit(", ");
                reveal_strlit("B");
                assert("LD D, B"@ =~= "LD "@ + "D"@ + ", "@ + "B"@);
            }
            Some(Operation::new(
                Instr::Ld(Operand8::Reg(Reg8::D), Operand8::Reg(Reg8::B)),
                4,
                "LD D, B",
                ValueMode::Implied,
            ))
        },
        0x51 => {
            proof {
                reveal_strlit("LD D, C");
                reveal_strlit("LD ");
                reveal_strlit("D");
                reveal_strlit(", ");
                reveal_strlit("C");
                assert("LD D, C"@ =~= "LD "@ + "D"@ + ", "@ + "C"@);
            }
            Some(Operation::new(
                Instr::Ld(Operand8::Reg(Reg8::D), Operand8::Reg(Reg8::C)),
                4,
                "LD D, C",
                ValueMode::Implied,
            ))
        },
        0x52 => {
            proof {
                reveal_strlit("LD D, D");
                reveal_strlit("LD ");
                reveal_strlit("D");
                reveal_strlit(", ");
                assert("LD D, D"@ =~= "LD "@ + "D"@ + ", "@ + "D"@);
            }
            Some(Operation::new(
                Instr::Ld(Operand8::Reg(Reg8::D), Operand8::Reg(Reg8::D)),
                4,
                "LD D, D",
                ValueMode::Implied,
            ))
        },
        0x53 => {
            proof {
                reveal_strlit("LD D, E");
                reveal_strlit("LD ");
                reveal_strlit("D");
                reveal_strlit(", ");
                reveal_strlit("E");
                assert("LD D, E"@ =~= "LD "@ + "D"@ + ", "@ + "E"@);
            }
            Some(Operation::new(
                Instr::Ld(Operand8::Reg(Reg8::D), Operand8::Reg(Reg8::E)),
                4,
                "LD D, E",
                ValueMode::Implied,
            ))
        },
        0x54 => {
            proof {
                reveal_strlit("LD D, H");
                reveal_strlit("LD ");
                reveal_strlit("D");
                reveal_strlit(", ");
                reveal_strlit("H");
                assert("LD D, H"@ =~= "LD "@ + "D"@ + ", "@ + "H"@);
            }
            Some(Operation::new(
                Instr::Ld(Operand8::Reg(Reg8::D), Operand8::Reg(Reg8::H)),
                4,
                "LD D, H",
                ValueMode::Implied,
            ))
        },
        0x55 => {
            proof {
                reveal_strlit("LD D, L");
                reveal_strlit("LD ");
                reveal_strlit("D");
                reveal_strlit(", ");
                reveal_strlit("L");
                assert("LD D, L"@ =~= "LD "@ + "D"@ + ", "@ + "L"@);
            }
            Some(Operation::new(
                Instr::Ld(Operand8::Reg(Reg8::D), Operand8::Reg(Reg8::L)),
                4,
                "LD D, L",
                ValueMode::Implied,
            ))
        },
        0x56 => {
            proof {
                reveal_strlit("LD D, (HL)");
                reveal_strlit("LD ");
                reveal_strlit("D");
                reveal_strlit(", ");
                reveal_strlit("(HL)");
                assert("LD D, (HL)"@ =~= "LD "@ + "D"@ + ", "@ + "(HL)"@);
            }
            Some(Operation::new(
                Instr::Ld(Operand8::Reg(Reg8::D), Operand8::HlInd),
                8,
                "LD D, (HL)",
                ValueMode::Implied,
            ))
        },
        0x57 => {
            proof {
                reveal_strlit("LD D, A");
                reveal_strlit("LD ");
                reveal_strlit("D");
                reveal_strlit(", ");
                reveal_strlit("A");
                assert("LD D, A"@ =~= "LD "@ + "D"@ + ", "@ + "A"@);
            }
            Some(Operation::new(
                Instr::Ld(Operand8::Reg(Reg8::D), Operand8::Reg(Reg8::A)),
                4,
                "LD D, A",
                ValueMode::Implied,
            ))
        },
        0x58 => {
            proof {
                reveal_strlit("LD E, B");
                reveal_strlit("LD ");
                reveal_strlit("E");
                reveal_strlit(", ");
                reveal_strlit("B");
                assert("LD E, B"@ =~= "LD "@ + "E"@ + ", "@ + "B"@);
            }
            Some(Operation::new(
                Instr::Ld(Operand8::Reg(Reg8::E), Operand8::Reg(Reg8::B)),
                4,
                "LD E, B",
                ValueMode::Implied,
            ))
        },
        0x59 => {
            proof {
                reveal_strlit("LD E, C");
                reveal_strlit("LD ");
                reveal_strlit("E");
                reveal_strlit(", ");
                reveal_strlit("C");
                assert("LD E, C"@ =~= "LD "@ + "E"@ + ", "@ + "C"@);
            }
            Some(Operation::new(
                Instr::Ld(Operand8::Reg(Reg8::E), Operand8::Reg(Reg8::C)),
                4,
                "LD E, C",
                ValueMode::Implied,
            ))
        },
        0x5A => {
            proof {
                reveal_strlit("LD E, D");
                reveal_strlit("LD ");
                reveal_strlit("E");
                reveal_strlit(", ");
                reveal_strlit("D");
                assert("LD E, D"@ =~= "LD "@ + "E"@ + ", "@ + "D"@);
            }
            Some(Operation::new(
                Instr::Ld(Operand8::Reg(Reg8::E), Operand8::Reg(Reg8::D)),
                4,
                "LD E, D",
                ValueMode::Implied,
            ))
        },
        0x5B => {
            proof {
                reveal_strlit("LD E, E");
                reveal_strlit("LD ");
                reveal_strlit("E");
                reveal_strlit(", ");
                assert("LD E, E"@ =~= "LD "@ + "E"@ + ", "@ + "E"@);
            }
            Some(Operation::new(
                Instr::Ld(Operand8::Reg(Reg8::E), Operand8::Reg(Reg8::E)),
                4,
                "LD E, E",
                ValueMode::Implied,
            ))
        },
        0x5C => {
            proof {
                reveal_strlit("LD E, H");
                reveal_strlit("LD ");
                reveal_strlit("E");
                reveal_strlit(", ");
                reveal_strlit("H");
                assert("LD E, H"@ =~= "LD "@ + "E"@ + ", "@ + "H"@);
            }
            Some(Operation::new(
                Instr::Ld(Operand8::Reg(Reg8::E), Operand8::Reg(Reg8::H)),
                4,
                "LD E, H",
                ValueMode::Implied,
            ))
        },
        0x5D => {
            proof {
                reveal_strlit("LD E, L");
                reveal_strlit("LD ");
                reveal_strlit("E");
                reveal_strlit(", ");
                reveal_strlit("L");
                assert("LD E, L"@ =~= "LD "@ + "E"@ + ", "@ + "L"@);
            }
            Some(Operation::new(
                Instr::Ld(Operand8::Reg(Reg8::E), Operand8::Reg(Reg8::L)),
                4,
                "LD E, L",
                ValueMode::Implied,
            ))
        },
        0x5E => {
            proof {
                reveal_strlit("LD E, (HL)");
                reveal_strlit("LD ");
                reveal_strlit("E");
                reveal_strlit(", ");
                reveal_strlit("(HL)");
                assert("LD E, (HL)"@ =~= "LD "@ + "E"@ + ", "@ + "(HL)"@);
            }
            Some(Operation::new(
                Instr::Ld(Operand8::Reg(Reg8::E), Operand8::HlInd),
                8,
                "LD E, (HL)",
                ValueMode::Implied,
            ))
        },
        _ => {
            proof {
                reveal_strlit("LD E, A");
                reveal_strlit("LD ");
                reveal_strlit("E");
                reveal_strlit(", ");
                reveal_strlit("A");
                assert("LD E, A"@ =~= "LD "@ + "E"@ + ", "@ + "A"@);
            }
            Some(Operation::new(
                Instr::Ld(Operand8::Reg(Reg8::E), Operand8::Reg(Reg8::A)),
                4,
                "LD E, A",
                ValueMode::Implied,
            ))
        },
    }
}

/// Base page, opcodes 0x60 to 0x6F.
fn base_60(op: u8) -> (res: Option<Operation>)
    requires
        0x60 <= op <= 0x6F,
    ensures
        match decode_base(op as int) {
            Some(instr) => res is Some && res->Some_0.describes(instr),
            None => res is None,
        },
{
    match op {
        0x60 => {
            proof {
                reveal_strlit("LD H, B");
                reveal_strlit("LD ");
                reveal_strlit("H");
                reveal_strlit(", ");
                reveal_strlit("B");
                assert("LD H, B"@ =~= "LD "@ + "H"@ + ", "@ + "B"@);
            }
            Some(Operation::new(
                Instr::Ld(Operand8::Reg(Reg8::H), Operand8::Reg(Reg8::B)),
                4,
                "LD H, B",
                ValueMode::Implied,
            ))
        },
        0x61 => {
            proof {
                reveal_strlit("LD H, C");
                reveal_strlit("LD ");
                reveal_strlit("H");
                reveal_strlit(", ");
                reveal_strlit("C");
                assert("LD H, C"@ =~= "LD "@ + "H"@ + ", "@ + "C"@);
            }
            Some(Operation::new(
                Instr::Ld(Operand8::Reg(Reg8::H), Operand8::Reg(Reg8::C)),
                4,
                "LD H, C",
                ValueMode::Implied,
            ))
        },
        0x62 => {
            proof {
                reveal_strlit("LD H, D");
                reveal_strlit("LD ");
                reveal_strlit("H");
                reveal_strlit(", ");
                reveal_strlit("D");
                assert("LD H, D"@ =~= "LD "@ + "H"@ + ", "@ + "D"@);
            }
            Some(Operation::new(
                Instr::Ld(Operand8::Reg(Reg8::H), Operand8::Reg(Reg8::D)),
                4,
                "LD H, D",
                ValueMode::Implied,
            ))
        },
        0x63 => {
            proof {
                reveal_strlit("LD H, E");
                reveal_strlit("LD ");
                reveal_strlit("H");
                reveal_strlit(", ");
                reveal_strlit("E");
                assert("LD H, E"@ =~= "LD "@ + "H"@ + ", "@ + "E"@);
            }
            Some(Operation::new(
                Instr::Ld(Operand8::Reg(Reg8::H), Operand8::Reg(Reg8::E)),
                4,
                "LD H, E",
                ValueMode::Implied,
            ))
        },
        0x64 => {
            proof {
                reveal_strlit("LD H, H");
                reveal_strlit("LD ");
                reveal_strlit("H");
                reveal_strlit(", ");
                assert("LD H, H"@ =~= "LD "@ + "H"@ + ", "@ + "H"@);
            }
            Some(Operation::new(
                Instr::Ld(Operand8::Reg(Reg8::H), Operand8::Reg(Reg8::H)),
                4,
                "LD H, H",
                ValueMode::Implied,
            ))
        },
        0x65 => {
            proof {
                reveal_strlit("LD H, L");
                reveal_strlit("LD ");
                reveal_strlit("H");
                reveal_strlit(", ");
                reveal_strlit("L");
                assert("LD H, L"@ =~= "LD "@ + "H"@ + ", "@ + "L"@);
            }
            Some(Operation::new(
                Instr::Ld(Operand8::Reg(Reg8::H), Operand8::Reg(Reg8::L)),
                4,
                "LD H, L",
                ValueMode::Implied,
            ))
        },
        0x66 => {
            proof {
                reveal_strlit("LD H, (HL)");
                reveal_strlit("LD ");
                reveal_strlit("H");
                reveal_strlit(", ");
                reveal_strlit("(HL)");
                assert("LD H, (HL)"@ =~= "LD "@ + "H"@ + ", "@ + "(HL)"@);
            }
            Some(Operation::new(
                Instr::Ld(Operand8::Reg(Reg8::H), Operand8::HlInd),
                8,
                "LD H, (HL)",
                ValueMode::Implied,
            ))
        },
        0x67 => {
            proof {
                reveal_strlit("LD H, A");
                reveal_strlit("LD ");
                reveal_strlit("H");
                reveal_strlit(", ");
                reveal_strlit("A");
                assert("LD H, A"@ =~= "LD "@ + "H"@ + ", "@ + "A"@);
            }
            Some(Operation::new(
                Instr::Ld(Operand8::Reg(Reg8::H), Operand8::Reg(Reg8::A)),
                4,
                "LD H, A",
                ValueMode::Implied,
            ))
        },
        0x68 => {
            proof {
                reveal_strlit("LD L, B");
                reveal_strlit("LD ");
                reveal_strlit("L");
                reveal_strlit(", ");
                reveal_strlit("B");
                assert("LD L, B"@ =~= "LD "@ + "L"@ + ", "@ + "B"@);
            }
            Some(Operation::new(
                Instr::Ld(Operand8::Reg(Reg8::L), Operand8::Reg(Reg8::B)),
                4,
                "LD L, B",
                ValueMode::Implied,
            ))
        },
        0x69 => {
            proof {
                reveal_strlit("LD L, C");
                reveal_strlit("LD ");
                reveal_strlit("L");
                reveal_strlit(", ");
                reveal_strlit("C");
                assert("LD L, C"@ =~= "LD "@ + "L"@ + ", "@ + "C"@);
            }
            Some(Operation::new(
                Instr::Ld(Operand8::Reg(Reg8::L), Operand8::Reg(Reg8::C)),
                4,
                "LD L, C",
                ValueMode::Implied,
            ))
        },
        0x6A => {
            proof {
                reveal_strlit("LD L, D");
                reveal_strlit("LD ");
                reveal_strlit("L");
                reveal_strlit(", ");
                reveal_strlit("D");
                assert("LD L, D"@ =~= "LD "@ + "L"@ + ", "@ + "D"@);
            }
            Some(Operation::new(
                Instr::Ld(Operand8::Reg(Reg8::L), Operand8::Reg(Reg8::D)),
                4,
                "LD L, D",
                ValueMode::Implied,
            ))
        },
        0x6B => {
            proof {
                reveal_strlit("LD L, E");
                reveal_strlit("LD ");
                reveal_strlit("L");
                reveal_strlit(", ");
                reveal_strlit("E");
                assert("LD L, E"@ =~= "LD "@ + "L"@ + ", "@ + "E"@);
            }
            Some(Operation::new(
                Instr::Ld(Operand8::Reg(Reg8::L), Operand8::Reg(Reg8::E)),
                4,
                "LD L, E",
                ValueMode::Implied,
            ))
        },
        0x6C => {
            proof {
                reveal_strlit("LD L, H");
                reveal_strlit("LD ");
                reveal_strlit("L");
                reveal_strlit(", ");
                reveal_strlit("H");
                assert("LD L, H"@ =~= "LD "@ + "L"@ + ", "@ + "H"@);
            }
            Some(Operation::new(
                Instr::Ld(Operand8::Reg(Reg8::L), Operand8::Reg(Reg8::H)),
                4,
                "LD L, H",
                ValueMode::Implied,
            ))
        },
        0x6D => {
            proof {
                reveal_strlit("LD L, L");
                reveal_strlit("LD ");
                reveal_strlit("L");
                reveal_strlit(", ");
                assert("LD L, L"@ =~= "LD "@ + "L"@ + ", "@ + "L"@);
            }
            Some(Operation::new(
                Instr::Ld(Operand8::Reg(Reg8::L), Operand8::Reg(Reg8::L)),
                4,
                "LD L, L",
                ValueMode::Implied,
            ))
        },
        0x6E => {
            proof {
                reveal_strlit("LD L, (HL)");
                reveal_strlit("LD ");
                reveal_strlit("L");
                reveal_strlit(", ");
                reveal_strlit("(HL)");
                assert("LD L, (HL)"@ =~= "LD "@ + "L"@ + ", "@ + "(HL)"@);
            }
            Some(Operation::new(
                Instr::Ld(Operand8::Reg(Reg8::L), Operand8::HlInd),
                8,
                "LD L, (HL)",
                ValueMode::Implied,
            ))
        },
        _ => {
            proof {
                reveal_strlit("LD L, A");
                reveal_strlit("LD ");
                reveal_strlit("L");
                reveal_strlit(", ");
                reveal_strlit("A");
                assert("LD L, A"@ =~= "LD "@ + "L"@ + ", "@ + "A"@);
            }
            Some(Operation::new(
                Instr::Ld(Operand8::Reg(Reg8::L), Operand8::Reg(Reg8::A)),
                4,
                "LD L, A",
                ValueMode::Implied,
            ))
        },
    }
}

/// Base page, opcodes 0x70 to 0x7F.
fn base_70(op: u8) -> (res: Option<Operation>)
    requires
        0x70 <= op <= 0x7F,
    ensures
        match decode_base(op as int) {
            Some(instr) => res is Some && res->Some_0.describes(instr),
            None => res is None,
        },
{
    match op {
        0x70 => {
            proof {
                reveal_strlit("LD (HL), B");
                reveal_strlit("LD ");
                reveal_strlit("(HL)");
                reveal_strlit(", ");
                reveal_strlit("B");
                assert("LD (HL), B"@ =~= "LD "@ + "(HL)"@ + ", "@ + "B"@);
            }
            Some(Operation::new(
                Instr::Ld(Operand8::HlInd, Operand8::Reg(Reg8::B)),
                8,
                "LD (HL), B",
                ValueMode::Implied,
            ))
        },
        0x71 => {
            proof {
                reveal_strlit("LD (HL), C");
                reveal_strlit("LD ");
                reveal_strlit("(HL)");
                reveal_strlit(", ");
                reveal_strlit("C");
                assert("LD (HL), C"@ =~= "LD "@ + "(HL)"@ + ", "@ + "C"@);
            }
            Some(Operation::new(
                Instr::Ld(Operand8::HlInd, Operand8::Reg(Reg8::C)),
                8,
                "LD (HL), C",
                ValueMode::Implied,
            ))
        },
        0x72 => {
            proof {
                reveal_strlit("LD (HL), D");
                reveal_strlit("LD ");
                reveal_strlit("(HL)");
                reveal_strlit(", ");
                reveal_strlit("D");
                assert("LD (HL), D"@ =~= "LD "@ + "(HL)"@ + ", "@ + "D"@);
            }
            Some(Operation::new(
                Instr::Ld(Operand8::HlInd, Operand8::Reg(Reg8::D)),
                8,
                "LD (HL), D",
                ValueMode::Implied,
            ))
        },
        0x73 => {
            proof {
                reveal_strlit("LD (HL), E");
                reveal_strlit("LD ");
                reveal_strlit("(HL)");
                reveal_strlit(", ");
                reveal_strlit("E");
                assert("LD (HL), E"@ =~= "LD "@ + "(HL)"@ + ", "@ + "E"@);
            }
            Some(Operation::new(
                Instr::Ld(Operand8::HlInd, Operand8::Reg(Reg8::E)),
                8,
                "LD (HL), E",
                ValueMode::Implied,
            ))
        },
        0x74 => {
            proof {
                reveal_strlit("LD (HL), H");
                reveal_strlit("LD ");
                reveal_strlit("(HL)");
                reveal_strlit(", ");
                reveal_strlit("H");
                assert("LD (HL), H"@ =~= "LD "@ + "(HL)"@ + ", "@ + "H"@);
            }
            Some(Operation::new(
                Instr::Ld(Operand8::HlInd, Operand8::Reg(Reg8::H)),
                8,
                "LD (HL), H",
                ValueMode::Implied,
            ))
        },
        0x75 => {
            proof {
                reveal_strlit("LD (HL), L");
                reveal_strlit("LD ");
                reveal_strlit("(HL)");
                reveal_strlit(", ");
                reveal_strlit("L");
                assert("LD (HL), L"@ =~= "LD "@ + "(HL)"@ + ", "@ + "L"@);
            }
            Some(Operation::new(
                Instr::Ld(Operand8::HlInd, Operand8::Reg(Reg8::L)),
                8,
                "LD (HL), L",
                ValueMode::Implied,
            ))
        },
        0x76 => {
            Some(Operation::new(Instr::Halt, 4, "HALT", ValueMode::Implied))
        },
        0x77 => {
            proof {
                reveal_strlit("LD (HL), A");
                reveal_strlit("LD ");
                reveal_strlit("(HL)");
                reveal_strlit(", ");
                reveal_strlit("A");
                assert("LD (HL), A"@ =~= "LD "@ + "(HL)"@ + ", "@ + "A"@);
            }
            Some(Operation::new(
                Instr::Ld(Operand8::HlInd, Operand8::Reg(Reg8::A)),
                8,
                "LD (HL), A",
                ValueMode::Implied,
            ))
        },
        0x78 => {
            proof {
                reveal_strlit("LD A, B");
                reveal_strlit("LD ");
                reveal_strlit("A");
                reveal_strlit(", ");
                reveal_strlit("B");
                assert("LD A, B"@ =~= "LD "@ + "A"@ + ", "@ + "B"@);
            }
            Some(Operation::new(
                Instr::Ld(Operand8::Reg(Reg8::A), Operand8::Reg(Reg8::B)),
                4,
                "LD A, B",
                ValueMode::Implied,
            ))
        },
        0x79 => {
            proof {
                reveal_strlit("LD A, C");
                reveal_strlit("LD ");
                reveal_strlit("A");
                reveal_strlit(", ");
                reveal_strlit("C");
                assert("LD A, C"@ =~= "LD "@ + "A"@ + ", "@ + "C"@);
            }
            Some(Operation::new(
                Instr::Ld(Operand8::Reg(Reg8::A), Operand8::Reg(Reg8::C)),
                4,
                "LD A, C",
                ValueMode::Implied,
            ))
        },
        0x7A => {
            proof {
                reveal_strlit("LD A, D");
                reveal_strlit("LD ");
                reveal_strlit("A");
                reveal_strlit(", ");
                reveal_strlit("D");
                assert("LD A, D"@ =~= "LD "@ + "A"@ + ", "@ + "D"@);
            }
            Some(Operation::new(
                Instr::Ld(Operand8::Reg(Reg8::A), Operand8::Reg(Reg8::D)),
                4,
                "LD A, D",
                ValueMode::Implied,
            ))
        },
        0x7B => {
            proof {
                reveal_strlit("LD A, E");
                reveal_strlit("LD ");
                reveal_strlit("A");
                reveal_strlit(", ");
                reveal_strlit("E");
                assert("LD A, E"@ =~= "LD "@ + "A"@ + ", "@ + "E"@);
            }
            Some(Operation::new(
                Instr::Ld(Operand8::Reg(Reg8::A), Operand8::Reg(Reg8::E)),
                4,
                "LD A, E",
                ValueMode::Implied,
            ))
        },
        0x7C => {
            proof {
                reveal_strlit("LD A, H");
                reveal_strlit("LD ");
                reveal_strlit("A");
                reveal_strlit(", ");
                reveal_strlit("H");
                assert("LD A, H"@ =~= "LD "@ + "A"@ + ", "@ + "H"@);
            }
            Some(Operation::new(
                Instr::Ld(Operand8::Reg(Reg8::A), Operand8::Reg(Reg8::H)),
                4,
                "LD A, H",
                ValueMode::Implied,
            ))
        },
        0x7D => {
            proof {
                reveal_strlit("LD A, L");
                reveal_strlit("LD ");
                reveal_strlit("A");
                reveal_strlit(", ");
                reveal_strlit("L");
                assert("LD A, L"@ =~= "LD "@ + "A"@ + ", "@ + "L"@);
            }
            Some(Operation::new(
                Instr::Ld(Operand8::Reg(Reg8::A), Operand8::Reg(Reg8::L)),
                4,
                "LD A, L",
                ValueMode::Implied,
            ))
        },
        0x7E => {
            proof {
                reveal_strlit("LD A, (HL)");
                reveal_strlit("LD ");
                reveal_strlit("A");
                reveal_strlit(", ");
                reveal_strlit("(HL)");
                assert("LD A, (HL)"@ =~= "LD "@ + "A"@ + ", "@ + "(HL)"@);
            }
            Some(Operation::new(
                Instr::Ld(Operand8::Reg(Reg8::A), Operand8::HlInd),
                8,
                "LD A, (HL)",
                ValueMode::Implied,
            ))
        },
        _ => {
            proof {
                reveal_strlit("LD A, A");
                reveal_strlit("LD ");
                reveal_strlit("A");
                reveal_strlit(", ");
                assert("LD A, A"@ =~= "LD "@ + "A"@ + ", "@ + "A"@);
            }
            Some(Operation::new(
                Instr::Ld(Operand8::Reg(Reg8::A), Operand8::Reg(Reg8::A)),
                4,
                "LD A, A",
                ValueMode::Implied,
            ))
        },
    }
}

/// Base page, opcodes 0x80 to 0x8F.
fn base_80(op: u8) -> (res: Option<Operation>)
    requires
        0x80 <= op <= 0x8F,
    ensures
        match decode_base(op as int) {
            Some(instr) => res is Some && res->Some_0.describes(instr),
            None => res is None,
        },
{
    match op {
        0x80 => {
            proof {
                reveal_strlit("ADD A, B");
                reveal_strlit("ADD A, ");
                reveal_strlit("B");
                assert("ADD A, B"@ =~= "ADD A, "@ + "B"@);
            }
            Some(Operation::new(
                Instr::Alu(AluOp::Add, Operand8::Reg(Reg8::B)),
                4,
                "ADD A, B",
                ValueMode::Implied,
            ))
        },
        0x81 => {
            proof {
                reveal_strlit("ADD A, C");
                reveal_strlit("ADD A, ");
                reveal_strlit("C");
                assert("ADD A, C"@ =~= "ADD A, "@ + "C"@);
            }
            Some(Operation::new(
                Instr::Alu(AluOp::Add, Operand8::Reg(Reg8::C)),
                4,
                "ADD A, C",
                ValueMode::Implied,
            ))
        },
        0x82 => {
            proof {
                reveal_strlit("ADD A, D");
                reveal_strlit("ADD A, ");
                reveal_strlit("D");
                assert("ADD A, D"@ =~= "ADD A, "@ + "D"@);
            }
            Some(Operation::new(
                Instr::Alu(AluOp::Add, Operand8::Reg(Reg8::D)),
                4,
                "ADD A, D",
                ValueMode::Implied,
            ))
        },
        0x83 => {
            proof {
                reveal_strlit("ADD A, E");
                reveal_strlit("ADD A, ");
                reveal_strlit("E");
                assert("ADD A, E"@ =~= "ADD A, "@ + "E"@);
            }
            Some(Operation::new(
                Instr::Alu(AluOp::Add, Operand8::Reg(Reg8::E)),
                4,
                "ADD A, E",
                ValueMode::Implied,
            ))
        },
        0x84 => {
            proof {
                reveal_strlit("ADD A, H");
                reveal_strlit("ADD A, ");
                reveal_strlit("H");
                assert("ADD A, H"@ =~= "ADD A, "@ + "H"@);
            }
            Some(Operation::new(
                Instr::Alu(AluOp::Add, Operand8::Reg(Reg8::H)),
                4,
                "ADD A, H",
                ValueMode::Implied,
            ))
        },
        0x85 => {
            proof {
                reveal_strlit("ADD A, L");
                reveal_strlit("ADD A, ");
                reveal_strlit("L");
                assert("ADD A, L"@ =~= "ADD A, "@ + "L"@);
            }
            Some(Operation::new(
                Instr::Alu(AluOp::Add, Operand8::Reg(Reg8::L)),
                4,
                "ADD A, L",
                ValueMode::Implied,
            ))
        },
        0x86 => {
            proof {
                reveal_strlit("ADD A, (HL)");
                reveal_strlit("ADD A, ");
                reveal_strlit("(HL)");
                assert("ADD A, (HL)"@ =~= "ADD A, "@ + "(HL)"@);
            }
            Some(Operation::new(
                Instr::Alu(AluOp::Add, Operand8::HlInd),
                8,
                "ADD A, (HL)",
                ValueMode::Implied,
            ))
        },
        0x87 => {
            proof {
                reveal_strlit("ADD A, A");
                reveal_strlit("ADD A, ");
                reveal_strlit("A");
                assert("ADD A, A"@ =~= "ADD A, "@ + "A"@);
            }
            Some(Operation::new(
                Instr::Alu(AluOp::Add, Operand8::Reg(Reg8::A)),
                4,
                "ADD A, A",
                ValueMode::Implied,
            ))
        },
        0x88 => {
            proof {
                reveal_strlit("ADC A, B");
                reveal_strlit("ADC A, ");
                reveal_strlit("B");
                assert("ADC A, B"@ =~= "ADC A, "@ + "B"@);
            }
            Some(Operation::new(
                Instr::Alu(AluOp::Adc, Operand8::Reg(Reg8::B)),
                4,
                "ADC A, B",
                ValueMode::Implied,
            ))
        },
        0x89 => {
            proof {
                reveal_strlit("ADC A, C");
                reveal_strlit("ADC A, ");
                reveal_strlit("C");
                assert("ADC A, C"@ =~= "ADC A, "@ + "C"@);
            }
            Some(Operation::new(
                Instr::Alu(AluOp::Adc, Operand8::Reg(Reg8::C)),
                4,
                "ADC A, C",
                ValueMode::Implied,
            ))
        },
        0x8A => {
            proof {
                reveal_strlit("ADC A, D");
                reveal_strlit("ADC A, ");
                reveal_strlit("D");
                assert("ADC A, D"@ =~= "ADC A, "@ + "D"@);
            }
            Some(Operation::new(
                Instr::Alu(AluOp::Adc, Operand8::Reg(Reg8::D)),
                4,
                "ADC A, D",
                ValueMode::Implied,
            ))
        },
        0x8B => {
            proof {
                reveal_strlit("ADC A, E");
                reveal_strlit("ADC A, ");
                reveal_strlit("E");
                assert("ADC A, E"@ =~= "ADC A, "@ + "E"@);
            }
            Some(Operation::new(
                Instr::Alu(AluOp::Adc, Operand8::Reg(Reg8::E)),
                4,
                "ADC A, E",
                ValueMode::Implied,
            ))
        },
        0x8C => {
            proof {
                reveal_strlit("ADC A, H");
                reveal_strlit("ADC A, ");
                reveal_strlit("H");
                assert("ADC A, H"@ =~= "ADC A, "@ + "H"@);
            }
            Some(Operation::new(
                Instr::Alu(AluOp::Adc, Operand8::Reg(Reg8::H)),
                4,
                "ADC A, H",
                ValueMode::Implied,
            ))
        },
        0x8D => {
            proof {
                reveal_strlit("ADC A, L");
                reveal_strlit("ADC A, ");
                reveal_strlit("L");
                assert("ADC A, L"@ =~= "ADC A, "@ + "L"@);
            }
            Some(Operation::new(
                Instr::Alu(AluOp::Adc, Operand8::Reg(Reg8::L)),
                4,
                "ADC A, L",
                ValueMode::Implied,
            ))
        },
        0x8E => {
            proof {
                reveal_strlit("ADC A, (HL)");
                reveal_strlit("ADC A, ");
                reveal_strlit("(HL)");
                assert("ADC A, (HL)"@ =~= "ADC A, "@ + "(HL)"@);
            }
            Some(Operation::new(
                Instr::Alu(AluOp::Adc, Operand8::HlInd),
                8,
                "ADC A, (HL)",
                ValueMode::Implied,
            ))
        },
        _ => {
            proof {
                reveal_strlit("ADC A, A");
                reveal_strlit("ADC A, ");
                reveal_strlit("A");
                assert("ADC A, A"@ =~= "ADC A, "@ + "A"@);
            }
            Some(Operation::new(
                Instr::Alu(AluOp::Adc, Operand8::Reg(Reg8::A)),
                4,
                "ADC A, A",
                ValueMode::Implied,
            ))
        },
    }
}

/// Base page, opcodes 0x90 to 0x9F.
fn base_90(op: u8) -> (res: Option<Operation>)
    requires
        0x90 <= op <= 0x9F,
    ensures
        match decode_base(op as int) {
            Some(instr) => res is Some && res->Some_0.describes(instr),
            None => res is None,
        },
{
    match op {
        0x90 => {
            proof {
                reveal_strlit("SUB B");
                reveal_strlit("SUB ");
                reveal_strlit("B");
                assert("SUB B"@ =~= "SUB "@ + "B"@);
            }
            Some(Operation::new(
                Instr::Alu(AluOp::Sub, Operand8::Reg(Reg8::B)),
                4,
                "SUB B",
                ValueMode::Implied,
            ))
        },
        0x91 => {
            proof {
                reveal_strlit("SUB C");
                reveal_strlit("SUB ");
                reveal_strlit("C");
                assert("SUB C"@ =~= "SUB "@ + "C"@);
            }
            Some(Operation::new(
                Instr::Alu(AluOp::Sub, Operand8::Reg(Reg8::C)),
                4,
                "SUB C",
                ValueMode::Implied,
            ))
        },
        0x92 => {
            proof {
                reveal_strlit("SUB D");
                reveal_strlit("SUB ");
                reveal_strlit("D");
                assert("SUB D"@ =~= "SUB "@ + "D"@);
            }
            Some(Operation::new(
                Instr::Alu(AluOp::Sub, Operand8::Reg(Reg8::D)),
                4,
                "SUB D",
                ValueMode::Implied,
            ))
        },
        0x93 => {
            proof {
                reveal_strlit("SUB E");
                reveal_strlit("SUB ");
                reveal_strlit("E");
                assert("SUB E"@ =~= "SUB "@ + "E"@);
            }
            Some(Operation::new(
                Instr::Alu(AluOp::Sub, Operand8::Reg(Reg8::E)),
                4,
                "SUB E",
                ValueMode::Implied,
            ))
        },
        0x94 => {
            proof {
                reveal_strlit("SUB H");
                reveal_strlit("SUB ");
                reveal_strlit("H");
                assert("SUB H"@ =~= "SUB "@ + "H"@);
            }
            Some(Operation::new(
                Instr::Alu(AluOp::Sub, Operand8::Reg(Reg8::H)),
                4,
                "SUB H",
                ValueMode::Implied,
            ))
        },
        0x95 => {
            proof {
                reveal_strlit("SUB L");
                reveal_strlit("SUB ");
                reveal_strlit("L");
                assert("SUB L"@ =~= "SUB "@ + "L"@);
            }
            Some(Operation::new(
                Instr::Alu(AluOp::Sub, Operand8::Reg(Reg8::L)),
                4,
                "SUB L",
                ValueMode::Implied,
            ))
        },
        0x96 => {
            proof {
                reveal_strlit("SUB (HL)");
                reveal_strlit("SUB ");
                reveal_strlit("(HL)");
                assert("SUB (HL)"@ =~= "SUB "@ + "(HL)"@);
            }
            Some(Operation::new(
                Instr::Alu(AluOp::Sub, Operand8::HlInd),
                8,
                "SUB (HL)",
                ValueMode::Implied,
            ))
        },
        0x97 => {
            proof {
                reveal_strlit("SUB A");
                reveal_strlit("SUB ");
                reveal_strlit("A");
                assert("SUB A"@ =~= "SUB "@ + "A"@);
            }
            Some(Operation::new(
                Instr::Alu(AluOp::Sub, Operand8::Reg(Reg8::A)),
                4,
                "SUB A",
                ValueMode::Implied,
            ))
        },
        0x98 => {
            proof {
                reveal_strlit("SBC A, B");
                reveal_strlit("SBC A, ");
                reveal_strlit("B");
                assert("SBC A, B"@ =~= "SBC A, "@ + "B"@);
            }
            Some(Operation::new(
                Instr::Alu(AluOp::Sbc, Operand8::Reg(Reg8::B)),
                4,
                "SBC A, B",
                ValueMode::Implied,
            ))
        },
        0x99 => {
            proof {
                reveal_strlit("SBC A, C");
                reveal_strlit("SBC A, ");
                reveal_strlit("C");
                assert("SBC A, C"@ =~= "SBC A, "@ + "C"@);
            }
            Some(Operation::new(
                Instr::Alu(AluOp::Sbc, Operand8::Reg(Reg8::C)),
                4,
                "SBC A, C",
                ValueMode::Implied,
            ))
        },
        0x9A => {
            proof {
                reveal_strlit("SBC A, D");
                reveal_strlit("SBC A, ");
                reveal_strlit("D");
                assert("SBC A, D"@ =~= "SBC A, "@ + "D"@);
            }
            Some(Operation::new(
                Instr::Alu(AluOp::Sbc, Operand8::Reg(Reg8::D)),
                4,
                "SBC A, D",
                ValueMode::Implied,
            ))
        },
        0x9B => {
            proof {
                reveal_strlit("SBC A, E");
                reveal_strlit("SBC A, ");
                reveal_strlit("E");
                assert("SBC A, E"@ =~= "SBC A, "@ + "E"@);
            }
            Some(Operation::new(
                Instr::Alu(AluOp::Sbc, Operand8::Reg(Reg8::E)),
                4,
                "SBC A, E",
                ValueMode::Implied,
            ))
        },
        0x9C => {
            proof {
                reveal_strlit("SBC A, H");
                reveal_strlit("SBC A, ");
                reveal_strlit("H");
                assert("SBC A, H"@ =~= "SBC A, "@ + "H"@);
            }
            Some(Operation::new(
                Instr::Alu(AluOp::Sbc, Operand8::Reg(Reg8::H)),
                4,
                "SBC A, H",
                ValueMode::Implied,
            ))
        },
        0x9D => {
            proof {
                reveal_strlit("SBC A, L");
                reveal_strlit("SBC A, ");
                reveal_strlit("L");
                assert("SBC A, L"@ =~= "SBC A, "@ + "L"@);
            }
            Some(Operation::new(
                Instr::Alu(AluOp::Sbc, Operand8::Reg(Reg8::L)),
                4,
                "SBC A, L",
                ValueMode::Implied,
            ))
        },
        0x9E => {
            proof {
                reveal_strlit("SBC A, (HL)");
                reveal_strlit("SBC A, ");
                reveal_strlit("(HL)");
                assert("SBC A, (HL)"@ =~= "SBC A, "@ + "(HL)"@);
            }
            Some(Operation::new(
                Instr::Alu(AluOp::Sbc, Operand8::HlInd),
                8,
                "SBC A, (HL)",
                ValueMode::Implied,
            ))
        },
        _ => {
            proof {
                reveal_strlit("SBC A, A");
                reveal_strlit("SBC A, ");
                reveal_strlit("A");
                assert("SBC A, A"@ =~= "SBC A, "@ + "A"@);
            }
            Some(Operation::new(
                Instr::Alu(AluOp::Sbc, Operand8::Reg(Reg8::A)),
                4,
                "SBC A, A",
                ValueMode::Implied,
            ))
        },
    }
}

/// Base page, opcodes 0xA0 to 0xAF.
fn base_a0(op: u8) -> (res: Option<Operation>)
    requires
        0xA0 <= op <= 0xAF,
    ensures
        match decode_base(op as int) {
            Some(instr) => res is Some && res->Some_0.describes(instr),
            None => res is None,
        },
{
    match op {
        0xA0 => {
            proof {
                reveal_strlit("AND B");
                reveal_strlit("AND ");
                reveal_strlit("B");
                assert("AND B"@ =~= "AND "@ + "B"@);
            }
            Some(Operation::new(
                Instr::Alu(AluOp::And, Operand8::Reg(Reg8::B)),
                4,
                "AND B",
                ValueMode::Implied,
            ))
        },
        0xA1 => {
            proof {
                reveal_strlit("AND C");
                reveal_strlit("AND ");
                reveal_strlit("C");
                assert("AND C"@ =~= "AND "@ + "C"@);
            }
            Some(Operation::new(
                Instr::Alu(AluOp::And, Operand8::Reg(Reg8::C)),
                4,
                "AND C",
                ValueMode::Implied,
            ))
        },
        0xA2 => {
            proof {
                reveal_strlit("AND D");
                reveal_strlit("AND ");
                reveal_strlit("D");
                assert("AND D"@ =~= "AND "@ + "D"@);
            }
            Some(Operation::new(
                Instr::Alu(AluOp::And, Operand8::Reg(Reg8::D)),
                4,
                "AND D",
                ValueMode::Implied,
            ))
        },
        0xA3 => {
            proof {
                reveal_strlit("AND E");
                reveal_strlit("AND ");
                reveal_strlit("E");
                assert("AND E"@ =~= "AND "@ + "E"@);
            }
            Some(Operation::new(
                Instr::Alu(AluOp::And, Operand8::Reg(Reg8::E)),
                4,
                "AND E",
                ValueMode::Implied,
            ))
        },
        0xA4 => {
            proof {
                reveal_strlit("AND H");
                reveal_strlit("AND ");
                reveal_strlit("H");
                assert("AND H"@ =~= "AND "@ + "H"@);
            }
            Some(Operation::new(
                Instr::Alu(AluOp::And, Operand8::Reg(Reg8::H)),
                4,
                "AND H",
                ValueMode::Implied,
            ))
        },
        0xA5 => {
            proof {
                reveal_strlit("AND L");
                reveal_strlit("AND ");
                reveal_strlit("L");
                assert("AND L"@ =~= "AND "@ + "L"@);
            }
            Some(Operation::new(
                Instr::Alu(AluOp::And, Operand8::Reg(Reg8::L)),
                4,
                "AND L",
                ValueMode::Implied,
            ))
        },
        0xA6 => {
            proof {
                reveal_strlit("AND (HL)");
                reveal_strlit("AND ");
                reveal_strlit("(HL)");
                assert("AND (HL)"@ =~= "AND "@ + "(HL)"@);
            }
            Some(Operation::new(
                Instr::Alu(AluOp::And, Operand8::HlInd),
                8,
                "AND (HL)",
                ValueMode::Implied,
            ))
        },
        0xA7 => {
            proof {
                reveal_strlit("AND A");
                reveal_strlit("AND ");
                reveal_strlit("A");
                assert("AND A"@ =~= "AND "@ + "A"@);
            }
            Some(Operation::new(
                Instr::Alu(AluOp::And, Operand8::Reg(Reg8::A)),
                4,
                "AND A",
                ValueMode::Implied,
            ))
        },
        0xA8 => {
            proof {
                reveal_strlit("XOR B");
                reveal_strlit("XOR ");
                reveal_strlit("B");
                assert("XOR B"@ =~= "XOR "@ + "B"@);
            }
            Some(Operation::new(
                Instr::Alu(AluOp::Xor, Operand8::Reg(Reg8::B)),
                4,
                "XOR B",
                ValueMode::Implied,
            ))
        },
        0xA9 => {
            proof {
                reveal_strlit("XOR C");
                reveal_strlit("XOR ");
                reveal_strlit("C");
                assert("XOR C"@ =~= "XOR "@ + "C"@);
            }
            Some(Operation::new(
                Instr::Alu(AluOp::Xor, Operand8::Reg(Reg8::C)),
                4,
                "XOR C",
                ValueMode::Implied,
            ))
        },
        0xAA => {
            proof {
                reveal_strlit("XOR D");
                reveal_strlit("XOR ");
                reveal_strlit("D");
                assert("XOR D"@ =~= "XOR "@ + "D"@);
            }
            Some(Operation::new(
                Instr::Alu(AluOp::Xor, Operand8::Reg(Reg8::D)),
                4,
                "XOR D",
                ValueMode::Implied,
            ))
        },
        0xAB => {
            proof {
                reveal_strlit("XOR E");
                reveal_strlit("XOR ");
                reveal_strlit("E");
                assert("XOR E"@ =~= "XOR "@ + "E"@);
            }
            Some(Operation::new(
                Instr::Alu(AluOp::Xor, Operand8::Reg(Reg8::E)),
                4,
                "XOR E",
                ValueMode::Implied,
            ))
        },
        0xAC => {
            proof {
                reveal_strlit("XOR H");
                reveal_strlit("XOR ");
                reveal_strlit("H");
                assert("XOR H"@ =~= "XOR "@ + "H"@);
            }
            Some(Operation::new(
                Instr::Alu(AluOp::Xor, Operand8::Reg(Reg8::H)),
                4,
                "XOR H",
                ValueMode::Implied,
            ))
        },
        0xAD => {
            proof {
                reveal_strlit("XOR L");
                reveal_strlit("XOR ");
                reveal_strlit("L");
                assert("XOR L"@ =~= "XOR "@ + "L"@);
            }
            Some(Operation::new(
                Instr::Alu(AluOp::Xor, Operand8::Reg(Reg8::L)),
                4,
                "XOR L",
                ValueMode::Implied,
            ))
        },
        0xAE => {
            proof {
                reveal_strlit("XOR (HL)");
                reveal_strlit("XOR ");
                reveal_strlit("(HL)");
                assert("XOR (HL)"@ =~= "XOR "@ + "(HL)"@);
            }
            Some(Operation::new(
                Instr::Alu(AluOp::Xor, Operand8::HlInd),
                8,
                "XOR (HL)",
                ValueMode::Implied,
            ))
        },
        _ => {
            proof {
                reveal_strlit("XOR A");
                reveal_strlit("XOR ");
                reveal_strlit("A");
                assert("XOR A"@ =~= "XOR "@ + "A"@);
            }
            Some(Operation::new(
                Instr::Alu(AluOp::Xor, Operand8::Reg(Reg8::A)),
                4,
                "XOR A",
                ValueMode::Implied,
            ))
        },
    }
}

/// Base page, opcodes 0xB0 to 0xBF.
fn base_b0(op: u8) -> (res: Option<Operation>)
    requires
        0xB0 <= op <= 0xBF,
    ensures
        match decode_base(op as int) {
            Some(instr) => res is Some && res->Some_0.describes(instr),
            None => res is None,
        },
{
    match op {
        0xB0 => {
            proof {
                reveal_strlit("OR B");
                reveal_strlit("OR ");
                reveal_strlit("B");
                assert("OR B"@ =~= "OR "@ + "B"@);
            }
            Some(Operation::new(
                Instr::Alu(AluOp::Or, Operand8::Reg(Reg8::B)),
                4,
                "OR B",
                ValueMode::Implied,
            ))
        },
        0xB1 => {
            proof {
                reveal_strlit("OR C");
                reveal_strlit("OR ");
                reveal_strlit("C");
                assert("OR C"@ =~= "OR "@ + "C"@);
            }
            Some(Operation::new(
                Instr::Alu(AluOp::Or, Operand8::Reg(Reg8::C)),
                4,
                "OR C",
                ValueMode::Implied,
            ))
        },
        0xB2 => {
            proof {
                reveal_strlit("OR D");
                reveal_strlit("OR ");
                reveal_strlit("D");
                assert("OR D"@ =~= "OR "@ + "D"@);
            }
            Some(Operation::new(
                Instr::Alu(AluOp::Or, Operand8::Reg(Reg8::D)),
                4,
                "OR D",
                ValueMode::Implied,
            ))
        },
        0xB3 => {
            proof {
                reveal_strlit("OR E");
                reveal_strlit("OR ");
                reveal_strlit("E");
                assert("OR E"@ =~= "OR "@ + "E"@);
            }
            Some(Operation::new(
                Instr::Alu(AluOp::Or, Operand8::Reg(Reg8::E)),
                4,
                "OR E",
                ValueMode::Implied,
            ))
        },
        0xB4 => {
            proof {
                reveal_strlit("OR H");
                reveal_strlit("OR ");
                reveal_strlit("H");
                assert("OR H"@ =~= "OR "@ + "H"@);
            }
            Some(Operation::new(
                Instr::Alu(AluOp::Or, Operand8::Reg(Reg8::H)),
                4,
                "OR H",
                ValueMode::Implied,
            ))
        },
        0xB5 => {
            proof {
                reveal_strlit("OR L");
                reveal_strlit("OR ");
                reveal_strlit("L");
                assert("OR L"@ =~= "OR "@ + "L"@);
            }
            Some(Operation::new(
                Instr::Alu(AluOp::Or, Operand8::Reg(Reg8::L)),
                4,
                "OR L",
                ValueMode::Implied,
            ))
        },
        0xB6 => {
            proof {
                reveal_strlit("OR (HL)");
                reveal_strlit("OR ");
                reveal_strlit("(HL)");
                assert("OR (HL)"@ =~= "OR "@ + "(HL)"@);
            }
            Some(Operation::new(
                Instr::Alu(AluOp::Or, Operand8::HlInd),
                8,
                "OR (HL)",
                ValueMode::Implied,
            ))
        },
        0xB7 => {
            proof {
                reveal_strlit("OR A");
                reveal_strlit("OR ");
                reveal_strlit("A");
                assert("OR A"@ =~= "OR "@ + "A"@);
            }
            Some(Operation::new(
                Instr::Alu(AluOp::Or, Operand8::Reg(Reg8::A)),
                4,
                "OR A",
                ValueMode::Implied,
            ))
        },
        0xB8 => {
            proof {
                reveal_strlit("CP B");
                reveal_strlit("CP ");
                reveal_strlit("B");
                assert("CP B"@ =~= "CP "@ + "B"@);
            }
            Some(Operation::new(
                Instr::Alu(AluOp::Cp, Operand8::Reg(Reg8::B)),
                4,
                "CP B",
                ValueMode::Implied,
            ))
        },
        0xB9 => {
            proof {
                reveal_strlit("CP C");
                reveal_strlit("CP ");
                reveal_strlit("C");
                assert("CP C"@ =~= "CP "@ + "C"@);
            }
            Some(Operation::new(
                Instr::Alu(AluOp::Cp, Operand8::Reg(Reg8::C)),
                4,
                "CP C",
                ValueMode::Implied,
            ))
        },
        0xBA => {
            proof {
                reveal_strlit("CP D");
                reveal_strlit("CP ");
                reveal_strlit("D");
                assert("CP D"@ =~= "CP "@ + "D"@);
            }
            Some(Operation::new(
                Instr::Alu(AluOp::Cp, Operand8::Reg(Reg8::D)),
                4,
                "CP D",
                ValueMode::Implied,
            ))
        },
        0xBB => {
            proof {
                reveal_strlit("CP E");
                reveal_strlit("CP ");
                reveal_strlit("E");
                assert("CP E"@ =~= "CP "@ + "E"@);
            }
            Some(Operation::new(
                Instr::Alu(AluOp::Cp, Operand8::Reg(Reg8::E)),
                4,
                "CP E",
                ValueMode::Implied,
            ))
        },
        0xBC => {
            proof {
                reveal_strlit("CP H");
                reveal_strlit("CP ");
                reveal_strlit("H");
                assert("CP H"@ =~= "CP "@ + "H"@);
            }
            Some(Operation::new(
                Instr::Alu(AluOp::Cp, Operand8::Reg(Reg8::H)),
                4,
                "CP H",
                ValueMode::Implied,
            ))
        },
        0xBD => {
            proof {
                reveal_strlit("CP L");
                reveal_strlit("CP ");
                reveal_strlit("L");
                assert("CP L"@ =~= "CP "@ + "L"@);
            }
            Some(Operation::new(
                Instr::Alu(AluOp::Cp, Operand8::Reg(Reg8::L)),
                4,
                "CP L",
                ValueMode::Implied,
            ))
        },
        0xBE => {
            proof {
                reveal_strlit("CP (HL)");
                reveal_strlit("CP ");
                reveal_strlit("(HL)");
                assert("CP (HL)"@ =~= "CP "@ + "(HL)"@);
            }
            Some(Operation::new(
                Instr::Alu(AluOp::Cp, Operand8::HlInd),
                8,
                "CP (HL)",
                ValueMode::Implied,
            ))
        },
        _ => {
            proof {
                reveal_strlit("CP A");
                reveal_strlit("CP ");
                reveal_strlit("A");
                assert("CP A"@ =~= "CP "@ + "A"@);
            }
            Some(Operation::new(
                Instr::Alu(AluOp::Cp, Operand8::Reg(Reg8::A)),
                4,
                "CP A",
                ValueMode::Implied,
            ))
        },
    }
}

/// Base page, opcodes 0xC0 to 0xCF.
fn base_c0(op: u8) -> (res: Option<Operation>)
    requires
        0xC0 <= op <= 0xCF,
    ensures
        match decode_base(op as int) {
            Some(instr) => res is Some && res->Some_0.describes(instr),
            None => res is None,
        },
{
    match op {
        0xC0 => {
            proof {
                reveal_strlit("RET NZ");
                reveal_strlit("RET ");
                reveal_strlit("NZ");
                assert("RET NZ"@ =~= "RET "@ + "NZ"@);
            }
            Some(Operation::new(Instr::RetCond(Cond::NZ), 8, "RET NZ", ValueMode::Implied))
        },
        0xC1 => {
            proof {
                reveal_strlit("POP BC");
                reveal_strlit("POP ");
                reveal_strlit("BC");
                assert("POP BC"@ =~= "POP "@ + "BC"@);
            }
            Some(Operation::new(Instr::Pop(StackPair::BC), 12, "POP BC", ValueMode::Implied))
        },
        0xC2 => {
            proof {
                reveal_strlit("JP NZ, {}");
                reveal_strlit("JP ");
                reveal_strlit("NZ");
                reveal_strlit(", ");
                reveal_strlit("{}");
                assert("JP NZ, {}"@ =~= "JP "@ + "NZ"@ + ", "@ + "{}"@);
            }
            Some(Operation::new(Instr::JpCond(Cond::NZ), 12, "JP NZ, {}", ValueMode::A16))
        },
        0xC3 => {
            proof {
                reveal_strlit("JP {}");
                reveal_strlit("JP ");
                reveal_strlit("{}");
                assert("JP {}"@ =~= "JP "@ + "{}"@);
            }
            Some(Operation::new(Instr::Jp, 16, "JP {}", ValueMode::A16))
        },
        0xC4 => {
            proof {
                reveal_strlit("CALL NZ, {}");
                reveal_strlit("CALL ");
                reveal_strlit("NZ");
                reveal_strlit(", ");
                reveal_strlit("{}");
                assert("CALL NZ, {}"@ =~= "CALL "@ + "NZ"@ + ", "@ + "{}"@);
            }
            Some(Operation::new(Instr::CallCond(Cond::NZ), 12, "CALL NZ, {}", ValueMode::A16))
        },
        0xC5 => {
            proof {
                reveal_strlit("PUSH BC");
                reveal_strlit("PUSH ");
                reveal_strlit("BC");
                assert("PUSH BC"@ =~= "PUSH "@ + "BC"@);
            }
            Some(Operation::new(Instr::Push(StackPair::BC), 16, "PUSH BC", ValueMode::Implied))
        },
        0xC6 => {
            proof {
                reveal_strlit("ADD A, {}");
                reveal_strlit("ADD A, ");
                reveal_strlit("{}");
                assert("ADD A, {}"@ =~= "ADD A, "@ + "{}"@);
            }
            Some(Operation::new(Instr::AluImm(AluOp::Add), 8, "ADD A, {}", ValueMode::D8))
        },
        0xC7 => {
            proof {
                reveal_strlit("RST 00H");
                reveal_strlit("RST ");
                reveal_strlit("00H");
                assert("RST 00H"@ =~= "RST "@ + "00H"@);
            }
            Some(Operation::new(Instr::Rst(0x00), 16, "RST 00H", ValueMode::Implied))
        },
        0xC8 => {
            proof {
                reveal_strlit("RET Z");
                reveal_strlit("RET ");
                reveal_strlit("Z");
                assert("RET Z"@ =~= "RET "@ + "Z"@);
            }
            Some(Operation::new(Instr::RetCond(Cond::Z), 8, "RET Z", ValueMode::Implied))
        },
        0xC9 => {
            Some(Operation::new(Instr::Ret, 16, "RET", ValueMode::Implied))
        },
        0xCA => {
            proof {
                reveal_strlit("JP Z, {}");
                reveal_strlit("JP ");
                reveal_strlit("Z");
                reveal_strlit(", ");
                reveal_strlit("{}");
                assert("JP Z, {}"@ =~= "JP "@ + "Z"@ + ", "@ + "{}"@);
            }
            Some(Operation::new(Instr::JpCond(Cond::Z), 12, "JP Z, {}", ValueMode::A16))
        },
        0xCC => {
            proof {
                reveal_strlit("CALL Z, {}");
                reveal_strlit("CALL ");
                reveal_strlit("Z");
                reveal_strlit(", ");
                reveal_strlit("{}");
                assert("CALL Z, {}"@ =~= "CALL "@ + "Z"@ + ", "@ + "{}"@);
            }
            Some(Operation::new(Instr::CallCond(Cond::Z), 12, "CALL Z, {}", ValueMode::A16))
        },
        0xCD => {
            proof {
                reveal_strlit("CALL {}");
                reveal_strlit("CALL ");
                reveal_strlit("{}");
                assert("CALL {}"@ =~= "CALL "@ + "{}"@);
            }
            Some(Operation::new(Instr::Call, 24, "CALL {}", ValueMode::A16))
        },
        0xCE => {
            proof {
                reveal_strlit("ADC A, {}");
                reveal_strlit("ADC A, ");
                reveal_strlit("{}");
                assert("ADC A, {}"@ =~= "ADC A, "@ + "{}"@);
            }
            Some(Operation::new(Instr::AluImm(AluOp::Adc), 8, "ADC A, {}", ValueMode::D8))
        },
        0xCF => {
            proof {
                reveal_strlit("RST 08H");
                reveal_strlit("RST ");
                reveal_strlit("08H");
                assert("RST 08H"@ =~= "RST "@ + "08H"@);
            }
            Some(Operation::new(Instr::Rst(0x08), 16, "RST 08H", ValueMode::Implied))
        },
        _ => None,
    }
}

/// Base page, opcodes 0xD0 to 0xDF.
fn base_d0(op: u8) -> (res: Option<Operation>)
    requires
        0xD0 <= op <= 0xDF,
    ensures
        match decode_base(op as int) {
            Some(instr) => res is Some && res->Some_0.describes(instr),
            None => res is None,
        },
{
    match op {
        0xD0 => {
            proof {
                reveal_strlit("RET NC");
                reveal_strlit("RET ");
                reveal_strlit("NC");
                assert("RET NC"@ =~= "RET "@ + "NC"@);
            }
            Some(Operation::new(Instr::RetCond(Cond::NC), 8, "RET NC", ValueMode::Implied))
        },
        0xD1 => {
            proof {
                reveal_strlit("POP DE");
                reveal_strlit("POP ");
                reveal_strlit("DE");
                assert("POP DE"@ =~= "POP "@ + "DE"@);
            }
            Some(Operation::new(Instr::Pop(StackPair::DE), 12, "POP DE", ValueMode::Implied))
        },
        0xD2 => {
            proof {
                reveal_strlit("JP NC, {}");
                reveal_strlit("JP ");
                reveal_strlit("NC");
                reveal_strlit(", ");
                reveal_strlit("{}");
                assert("JP NC, {}"@ =~= "JP "@ + "NC"@ + ", "@ + "{}"@);
            }
            Some(Operation::new(Instr::JpCond(Cond::NC), 12, "JP NC, {}", ValueMode::A16))
        },
        0xD4 => {
            proof {
                reveal_strlit("CALL NC, {}");
                reveal_strlit("CALL ");
                reveal_strlit("NC");
                reveal_strlit(", ");
                reveal_strlit("{}");
                assert("CALL NC, {}"@ =~= "CALL "@ + "NC"@ + ", "@ + "{}"@);
            }
            Some(Operation::new(Instr::CallCond(Cond::NC), 12, "CALL NC, {}", ValueMode::A16))
        },
        0xD5 => {
            proof {
                reveal_strlit("PUSH DE");
                reveal_strlit("PUSH ");
                reveal_strlit("DE");
                assert("PUSH DE"@ =~= "PUSH "@ + "DE"@);
            }
            Some(Operation::new(Instr::Push(StackPair::DE), 16, "PUSH DE", ValueMode::Implied))
        },
        0xD6 => {
            proof {
                reveal_strlit("SUB {}");
                reveal_strlit("SUB ");
                reveal_strlit("{}");
                assert("SUB {}"@ =~= "SUB "@ + "{}"@);
            }
            Some(Operation::new(Instr::AluImm(AluOp::Sub), 8, "SUB {}", ValueMode::D8))
        },
        0xD7 => {
            proof {
                reveal_strlit("RST 10H");
                reveal_strlit("RST ");
                reveal_strlit("10H");
                assert("RST 10H"@ =~= "RST "@ + "10H"@);
            }
            Some(Operation::new(Instr::Rst(0x10), 16, "RST 10H", ValueMode::Implied))
        },
        0xD8 => {
            proof {
                reveal_strlit("RET C");
                reveal_strlit("RET ");
                reveal_strlit("C");
                assert("RET C"@ =~= "RET "@ + "C"@);
            }
            Some(Operation::new(Instr::RetCond(Cond::C), 8, "RET C", ValueMode::Implied))
        },
        0xD9 => {
            Some(Operation::new(Instr::Reti, 16, "RETI", ValueMode::Implied))
        },
        0xDA => {
            proof {
                reveal_strlit("JP C, {}");
                reveal_strlit("JP ");
                reveal_strlit("C");
                reveal_strlit(", ");
                reveal_strlit("{}");
                assert("JP C, {}"@ =~= "JP "@ + "C"@ + ", "@ + "{}"@);
            }
            Some(Operation::new(Instr::JpCond(Cond::C), 12, "JP C, {}", ValueMode::A16))
        },
        0xDC => {
            proof {
                reveal_strlit("CALL C, {}");
                reveal_strlit("CALL ");
                reveal_strlit("C");
                reveal_strlit(", ");
                reveal_strlit("{}");
                assert("CALL C, {}"@ =~= "CALL "@ + "C"@ + ", "@ + "{}"@);
            }
            Some(Operation::new(Instr::CallCond(Cond::C), 12, "CALL C, {}", ValueMode::A16))
        },
        0xDE => {
            proof {
                reveal_strlit("SBC A, {}");
                reveal_strlit("SBC A, ");
                reveal_strlit("{}");
                assert("SBC A, {}"@ =~= "SBC A, "@ + "{}"@);
            }
            Some(Operation::new(Instr::AluImm(AluOp::Sbc), 8, "SBC A, {}", ValueMode::D8))
        },
        0xDF => {
            proof {
                reveal_strlit("RST 18H");
                reveal_strlit("RST ");
                reveal_strlit("18H");
                assert("RST 18H"@ =~= "RST "@ + "18H"@);
            }
            Some(Operation::new(Instr::Rst(0x18), 16, "RST 18H", ValueMode::Implied))
        },
        _ => None,
    }
}

/// Base page, opcodes 0xE0 to 0xEF.
fn base_e0(op: u8) -> (res: Option<Operation>)
    requires
        0xE0 <= op <= 0xEF,
    ensures
        match decode_base(op as int) {
            Some(instr) => res is Some && res->Some_0.describes(instr),
            None => res is None,
        },
{
    match op {
        0xE0 => {
            proof {
                reveal_strlit("LDH ({}), A");
                reveal_strlit("LDH (");
                reveal_strlit("{}");
                reveal_strlit("), A");
                assert("LDH ({}), A"@ =~= "LDH ("@ + "{}"@ + "), A"@);
            }
            Some(Operation::new(Instr::LdhA8FromA, 12, "LDH ({}), A", ValueMode::A8Hi))
        },
        0xE1 => {
            proof {
                reveal_strlit("POP HL");
                reveal_strlit("POP ");
                reveal_strlit("HL");
                assert("POP HL"@ =~= "POP "@ + "HL"@);
            }
            Some(Operation::new(Instr::Pop(StackPair::HL), 12, "POP HL", ValueMode::Implied))
        },
        0xE2 => {
            Some(Operation::new(Instr::LdCFromA, 8, "LD (C), A", ValueMode::Implied))
        },
        0xE5 => {
            proof {
                reveal_strlit("PUSH HL");
                reveal_strlit("PUSH ");
                reveal_strlit("HL");
                assert("PUSH HL"@ =~= "PUSH "@ + "HL"@);
            }
            Some(Operation::new(Instr::Push(StackPair::HL), 16, "PUSH HL", ValueMode::Implied))
        },
        0xE6 => {
            proof {
                reveal_strlit("AND {}");
                reveal_strlit("AND ");
                reveal_strlit("{}");
                assert("AND {}"@ =~= "AND "@ + "{}"@);
            }
            Some(Operation::new(Instr::AluImm(AluOp::And), 8, "AND {}", ValueMode::D8))
        },
        0xE7 => {
            proof {
                reveal_strlit("RST 20H");
                reveal_strlit("RST ");
                reveal_strlit("20H");
                assert("RST 20H"@ =~= "RST "@ + "20H"@);
            }
            Some(Operation::new(Instr::Rst(0x20), 16, "RST 20H", ValueMode::Implied))
        },
        0xE8 => {
            proof {
                reveal_strlit("ADD SP, {}");
                reveal_strlit("ADD SP, ");
                reveal_strlit("{}");
                assert("ADD SP, {}"@ =~= "ADD SP, "@ + "{}"@);
            }
            Some(Operation::new(Instr::AddSpR8, 16, "ADD SP, {}", ValueMode::R8))
        },
        0xE9 => {
            Some(Operation::new(Instr::JpHl, 4, "JP (HL)", ValueMode::Implied))
        },
        0xEA => {
            proof {
                reveal_strlit("LD ({}), A");
                reveal_strlit("LD (");
                reveal_strlit("{}");
                reveal_strlit("), A");
                assert("LD ({}), A"@ =~= "LD ("@ + "{}"@ + "), A"@);
            }
            Some(Operation::new(Instr::LdA16FromA, 16, "LD ({}), A", ValueMode::A16))
        },
        0xEE => {
            proof {
                reveal_strlit("XOR {}");
                reveal_strlit("XOR ");
                reveal_strlit("{}");
                assert("XOR {}"@ =~= "XOR "@ + "{}"@);
            }
            Some(Operation::new(Instr::AluImm(AluOp::Xor), 8, "XOR {}", ValueMode::D8))
        },
        0xEF => {
            proof {
                reveal_strlit("RST 28H");
                reveal_strlit("RST ");
                reveal_strlit("28H");
                assert("RST 28H"@ =~= "RST "@ + "28H"@);
            }
            Some(Operation::new(Instr::Rst(0x28), 16, "RST 28H", ValueMode::Implied))
        },
        _ => None,
    }
}

/// Base page, opcodes 0xF0 to 0xFF.
fn base_f0(op: u8) -> (res: Option<Operation>)
    requires
        0xF0 <= op <= 0xFF,
    ensures
        match decode_base(op as int) {
            Some(instr) => res is Some && res->Some_0.describes(instr),
            None => res is None,
        },
{
    match op {
        0xF0 => {
            proof {
                reveal_strlit("LDH A, ({})");
                reveal_strlit("LDH A, (");
                reveal_strlit("{}");
                reveal_strlit(")");
                assert("LDH A, ({})"@ =~= "LDH A, ("@ + "{}"@ + ")"@);
            }
            Some(Operation::new(Instr::LdhAFromA8, 12, "LDH A, ({})", ValueMode::A8Hi))
        },
        0xF1 => {
            proof {
                reveal_strlit("POP AF");
                reveal_strlit("POP ");
                reveal_strlit("AF");
                assert("POP AF"@ =~= "POP "@ + "AF"@);
            }
            Some(Operation::new(Instr::Pop(StackPair::AF), 12, "POP AF", ValueMode::Implied))
        },
        0xF2 => {
            Some(Operation::new(Instr::LdAFromC, 8, "LD A, (C)", ValueMode::Implied))
        },
        0xF3 => {
            Some(Operation::new(Instr::Di, 4, "DI", ValueMode::Implied))
        },
        0xF5 => {
            proof {
                reveal_strlit("PUSH AF");
                reveal_strlit("PUSH ");
                reveal_strlit("AF");
                assert("PUSH AF"@ =~= "PUSH "@ + "AF"@);
            }
            Some(Operation::new(Instr::Push(StackPair::AF), 16, "PUSH AF", ValueMode::Implied))
        },
        0xF6 => {
            proof {
                reveal_strlit("OR {}");
                reveal_strlit("OR ");
                reveal_strlit("{}");
                assert("OR {}"@ =~= "OR "@ + "{}"@);
            }
            Some(Operation::new(Instr::AluImm(AluOp::Or), 8, "OR {}", ValueMode::D8))
        },
        0xF7 => {
            proof {
                reveal_strlit("RST 30H");
                reveal_strlit("RST ");
                reveal_strlit("30H");
                assert("RST 30H"@ =~= "RST "@ + "30H"@);
            }
            Some(Operation::new(Instr::Rst(0x30), 16, "RST 30H", ValueMode::Implied))
        },
        0xF8 => {
            proof {
                reveal_strlit("LD HL, SP+{}");
                reveal_strlit("LD HL, SP+");
                reveal_strlit("{}");
                assert("LD HL, SP+{}"@ =~= "LD HL, SP+"@ + "{}"@);
            }
            Some(Operation::new(Instr::LdHlSpR8, 12, "LD HL, SP+{}", ValueMode::R8))
        },
        0xF9 => {
            Some(Operation::new(Instr::LdSpHl, 8, "LD SP, HL", ValueMode::Implied))
        },
        0xFA => {
            proof {
                reveal_strlit("LD A, ({})");
                reveal_strlit("LD A, (");
                reveal_strlit("{}");
                reveal_strlit(")");
                assert("LD A, ({})"@ =~= "LD A, ("@ + "{}"@ + ")"@);
            }
            Some(Operation::new(Instr::LdAFromA16, 16, "LD A, ({})", ValueMode::A16))
        },
        0xFB => {
            Some(Operation::new(Instr::Ei, 4, "EI", ValueMode::Implied))
        },
        0xFE => {
            proof {
                reveal_strlit("CP {}");
                reveal_strlit("CP ");
                reveal_strlit("{}");
                assert("CP {}"@ =~= "CP "@ + "{}"@);
            }
            Some(Operation::new(Instr::AluImm(AluOp::Cp), 8, "CP {}", ValueMode::D8))
        },
        0xFF => {
            proof {
                reveal_strlit("RST 38H");
                reveal_strlit("RST ");
                reveal_strlit("38H");
                assert("RST 38H"@ =~= "RST "@ + "38H"@);
            }
            Some(Operation::new(Instr::Rst(0x38), 16, "RST 38H", ValueMode::Implied))
        },
        _ => None,
    }
}

/// Prefixed page, opcodes 0x00 to 0x0F.
fn prefixed_00(op: u8) -> (res: Operation)
    requires
        0x00 <= op <= 0x0F,
    ensures
        res.describes(decode_prefixed(op as int)),
{
    match op {
        0x00 => {
            proof {
                reveal_strlit("RLC B");
                reveal_strlit("RLC ");
                reveal_strlit("B");
                assert("RLC B"@ =~= "RLC "@ + "B"@);
            }
            Operation::new(
                Instr::Rot(RotOp::Rlc, Operand8::Reg(Reg8::B)),
                8,
                "RLC B",
                ValueMode::Implied,
            )
        },
        0x01 => {
            proof {
                reveal_strlit("RLC C");
                reveal_strlit("RLC ");
                reveal_strlit("C");
                assert("RLC C"@ =~= "RLC "@ + "C"@);
            }
            Operation::new(
                Instr::Rot(RotOp::Rlc, Operand8::Reg(Reg8::C)),
                8,
                "RLC C",
                ValueMode::Implied,
            )
        },
        0x02 => {
            proof {
                reveal_strlit("RLC D");
                reveal_strlit("RLC ");
                reveal_strlit("D");
                assert("RLC D"@ =~= "RLC "@ + "D"@);
            }
            Operation::new(
                Instr::Rot(RotOp::Rlc, Operand8::Reg(Reg8::D)),
                8,
                "RLC D",
                ValueMode::Implied,
            )
        },
        0x03 => {
            proof {
                reveal_strlit("RLC E");
                reveal_strlit("RLC ");
                reveal_strlit("E");
                assert("RLC E"@ =~= "RLC "@ + "E"@);
            }
            Operation::new(
                Instr::Rot(RotOp::Rlc, Operand8::Reg(Reg8::E)),
                8,
                "RLC E",
                ValueMode::Implied,
            )
        },
        0x04 => {
            proof {
                reveal_strlit("RLC H");
                reveal_strlit("RLC ");
                reveal_strlit("H");
                assert("RLC H"@ =~= "RLC "@ + "H"@);
            }
            Operation::new(
                Instr::Rot(RotOp::Rlc, Operand8::Reg(Reg8::H)),
                8,
                "RLC H",
                ValueMode::Implied,
            )
        },
        0x05 => {
            proof {
                reveal_strlit("RLC L");
                reveal_strlit("RLC ");
                reveal_strlit("L");
                assert("RLC L"@ =~= "RLC "@ + "L"@);
            }
            Operation::new(
                Instr::Rot(RotOp::Rlc, Operand8::Reg(Reg8::L)),
                8,
                "RLC L",
                ValueMode::Implied,
            )
        },
        0x06 => {
            proof {
                reveal_strlit("RLC (HL)");
                reveal_strlit("RLC ");
                reveal_strlit("(HL)");
                assert("RLC (HL)"@ =~= "RLC "@ + "(HL)"@);
            }
            Operation::new(
                Instr::Rot(RotOp::Rlc, Operand8::HlInd),
                16,
                "RLC (HL)",
                ValueMode::Implied,
            )
        },
        0x07 => {
            proof {
                reveal_strlit("RLC A");
                reveal_strlit("RLC ");
                reveal_strlit("A");
                assert("RLC A"@ =~= "RLC "@ + "A"@);
            }
            Operation::new(
                Instr::Rot(RotOp::Rlc, Operand8::Reg(Reg8::A)),
                8,
                "RLC A",
                ValueMode::Implied,
            )
        },
        0x08 => {
            proof {
                reveal_strlit("RRC B");
                reveal_strlit("RRC ");
                reveal_strlit("B");
                assert("RRC B"@ =~= "RRC "@ + "B"@);
            }
            Operation::new(
                Instr::Rot(RotOp::Rrc, Operand8::Reg(Reg8::B)),
                8,
                "RRC B",
                ValueMode::Implied,
            )
        },
        0x09 => {
            proof {
                reveal_strlit("RRC C");
                reveal_strlit("RRC ");
                reveal_strlit("C");
                assert("RRC C"@ =~= "RRC "@ + "C"@);
            }
            Operation::new(
                Instr::Rot(RotOp::Rrc, Operand8::Reg(Reg8::C)),
                8,
                "RRC C",
                ValueMode::Implied,
            )
        },
        0x0A => {
            proof {
                reveal_strlit("RRC D");
                reveal_strlit("RRC ");
                reveal_strlit("D");
                assert("RRC D"@ =~= "RRC "@ + "D"@);
            }
            Operation::new(
                Instr::Rot(RotOp::Rrc, Operand8::Reg(Reg8::D)),
                8,
                "RRC D",
                ValueMode::Implied,
            )
        },
        0x0B => {
            proof {
                reveal_strlit("RRC E");
                reveal_strlit("RRC ");
                reveal_strlit("E");
                assert("RRC E"@ =~= "RRC "@ + "E"@);
            }
            Operation::new(
                Instr::Rot(RotOp::Rrc, Operand8::Reg(Reg8::E)),
                8,
                "RRC E",
                ValueMode::Implied,
            )
        },
        0x0C => {
            proof {
                reveal_strlit("RRC H");
                reveal_strlit("RRC ");
                reveal_strlit("H");
                assert("RRC H"@ =~= "RRC "@ + "H"@);
            }
            Operation::new(
                Instr::Rot(RotOp::Rrc, Operand8::Reg(Reg8::H)),
                8,
                "RRC H",
                ValueMode::Implied,
            )
        },
        0x0D => {
            proof {
                reveal_strlit("RRC L");
                reveal_strlit("RRC ");
                reveal_strlit("L");
                assert("RRC L"@ =~= "RRC "@ + "L"@);
            }
            Operation::new(
                Instr::Rot(RotOp::Rrc, Operand8::Reg(Reg8::L)),
                8,
                "RRC L",
                ValueMode::Implied,
            )
        },
        0x0E => {
            proof {
                reveal_strlit("RRC (HL)");
                reveal_strlit("RRC ");
                reveal_strlit("(HL)");
                assert("RRC (HL)"@ =~= "RRC "@ + "(HL)"@);
            }
            Operation::new(
                Instr::Rot(RotOp::Rrc, Operand8::HlInd),
                16,
                "RRC (HL)",
                ValueMode::Implied,
            )
        },
        _ => {
            proof {
                reveal_strlit("RRC A");
                reveal_strlit("RRC ");
                reveal_strlit("A");
                assert("RRC A"@ =~= "RRC "@ + "A"@);
            }
            Operation::new(
                Instr::Rot(RotOp::Rrc, Operand8::Reg(Reg8::A)),
                8,
                "RRC A",
                ValueMode::Implied,
            )
        },
    }
}

/// Prefixed page, opcodes 0x10 to 0x1F.
fn prefixed_10(op: u8) -> (res: Operation)
    requires
        0x10 <= op <= 0x1F,
    ensures
        res.describes(decode_prefixed(op as int)),
{
    match op {
        0x10 => {
            proof {
                reveal_strlit("RL B");
                reveal_strlit("RL ");
                reveal_strlit("B");
                assert("RL B"@ =~= "RL "@ + "B"@);
            }
            Operation::new(
                Instr::Rot(RotOp::Rl, Operand8::Reg(Reg8::B)),
                8,
                "RL B",
                ValueMode::Implied,
            )
        },
        0x11 => {
            proof {
                reveal_strlit("RL C");
                reveal_strlit("RL ");
                reveal_strlit("C");
                assert("RL C"@ =~= "RL "@ + "C"@);
            }
            Operation::new(
                Instr::Rot(RotOp::Rl, Operand8::Reg(Reg8::C)),
                8,
                "RL C",
                ValueMode::Implied,
            )
        },
        0x12 => {
            proof {
                reveal_strlit("RL D");
                reveal_strlit("RL ");
                reveal_strlit("D");
                assert("RL D"@ =~= "RL "@ + "D"@);
            }
            Operation::new(
                Instr::Rot(RotOp::Rl, Operand8::Reg(Reg8::D)),
                8,
                "RL D",
                ValueMode::Implied,
            )
        },
        0x13 => {
            proof {
                reveal_strlit("RL E");
                reveal_strlit("RL ");
                reveal_strlit("E");
                assert("RL E"@ =~= "RL "@ + "E"@);
            }
            Operation::new(
                Instr::Rot(RotOp::Rl, Operand8::Reg(Reg8::E)),
                8,
                "RL E",
                ValueMode::Implied,
            )
        },
        0x14 => {
            proof {
                reveal_strlit("RL H");
                reveal_strlit("RL ");
                reveal_strlit("H");
                assert("RL H"@ =~= "RL "@ + "H"@);
            }
            Operation::new(
                Instr::Rot(RotOp::Rl, Operand8::Reg(Reg8::H)),
                8,
                "RL H",
                ValueMode::Implied,
            )
        },
        0x15 => {
            proof {
                reveal_strlit("RL L");
                reveal_strlit("RL ");
                reveal_strlit("L");
                assert("RL L"@ =~= "RL "@ + "L"@);
            }
            Operation::new(
                Instr::Rot(RotOp::Rl, Operand8::Reg(Reg8::L)),
                8,
                "RL L",
                ValueMode::Implied,
            )
        },
        0x16 => {
            proof {
                reveal_strlit("RL (HL)");
                reveal_strlit("RL ");
                reveal_strlit("(HL)");
                assert("RL (HL)"@ =~= "RL "@ + "(HL)"@);
            }
            Operation::new(
                Instr::Rot(RotOp::Rl, Operand8::HlInd),
                16,
                "RL (HL)",
                ValueMode::Implied,
            )
        },
        0x17 => {
            proof {
                reveal_strlit("RL A");
                reveal_strlit("RL ");
                reveal_strlit("A");
                assert("RL A"@ =~= "RL "@ + "A"@);
            }
            Operation::new(
                Instr::Rot(RotOp::Rl, Operand8::Reg(Reg8::A)),
                8,
                "RL A",
                ValueMode::Implied,
            )
        },
        0x18 => {
            proof {
                reveal_strlit("RR B");
                reveal_strlit("RR ");
                reveal_strlit("B");
                assert("RR B"@ =~= "RR "@ + "B"@);
            }
            Operation::new(
                Instr::Rot(RotOp::Rr, Operand8::Reg(Reg8::B)),
                8,
                "RR B",
                ValueMode::Implied,
            )
        },
        0x19 => {
            proof {
                reveal_strlit("RR C");
                reveal_strlit("RR ");
                reveal_strlit("C");
                assert("RR C"@ =~= "RR "@ + "C"@);
            }
            Operation::new(
                Instr::Rot(RotOp::Rr, Operand8::Reg(Reg8::C)),
                8,
                "RR C",
                ValueMode::Implied,
            )
        },
        0x1A => {
            proof {
                reveal_strlit("RR D");
                reveal_strlit("RR ");
                reveal_strlit("D");
                assert("RR D"@ =~= "RR "@ + "D"@);
            }
            Operation::new(
                Instr::Rot(RotOp::Rr, Operand8::Reg(Reg8::D)),
                8,
                "RR D",
                ValueMode::Implied,
            )
        },
        0x1B => {
            proof {
                reveal_strlit("RR E");
                reveal_strlit("RR ");
                reveal_strlit("E");
                assert("RR E"@ =~= "RR "@ + "E"@);
            }
            Operation::new(
                Instr::Rot(RotOp::Rr, Operand8::Reg(Reg8::E)),
                8,
                "RR E",
                ValueMode::Implied,
            )
        },
        0x1C => {
            proof {
                reveal_strlit("RR H");
                reveal_strlit("RR ");
                reveal_strlit("H");
                assert("RR H"@ =~= "RR "@ + "H"@);
            }
            Operation::new(
                Instr::Rot(RotOp::Rr, Operand8::Reg(Reg8::H)),
                8,
                "RR H",
                ValueMode::Implied,
            )
        },
        0x1D => {
            proof {
                reveal_strlit("RR L");
                reveal_strlit("RR ");
                reveal_strlit("L");
                assert("RR L"@ =~= "RR "@ + "L"@);
            }
            Operation::new(
                Instr::Rot(RotOp::Rr, Operand8::Reg(Reg8::L)),
                8,
                "RR L",
                ValueMode::Implied,
            )
        },
        0x1E => {
            proof {
                reveal_strlit("RR (HL)");
                reveal_strlit("RR ");
                reveal_strlit("(HL)");
                assert("RR (HL)"@ =~= "RR "@ + "(HL)"@);
            }
            Operation::new(
                Instr::Rot(RotOp::Rr, Operand8::HlInd),
                16,
                "RR (HL)",
                ValueMode::Implied,
            )
        },
        _ => {
            proof {
                reveal_strlit("RR A");
                reveal_strlit("RR ");
                reveal_strlit("A");
                assert("RR A"@ =~= "RR "@ + "A"@);
            }
            Operation::new(
                Instr::Rot(RotOp::Rr, Operand8::Reg(Reg8::A)),
                8,
                "RR A",
                ValueMode::Implied,
            )
        },
    }
}

/// Prefixed page, opcodes 0x20 to 0x2F.
fn prefixed_20(op: u8) -> (res: Operation)
    requires
        0x20 <= op <= 0x2F,
    ensures
        res.describes(decode_prefixed(op as int)),
{
    match op {
        0x20 => {
            proof {
                reveal_strlit("SLA B");
                reveal_strlit("SLA ");
                reveal_strlit("B");
                assert("SLA B"@ =~= "SLA "@ + "B"@);
            }
            Operation::new(
                Instr::Rot(RotOp::Sla, Operand8::Reg(Reg8::B)),
                8,
                "SLA B",
                ValueMode::Implied,
            )
        },
        0x21 => {
            proof {
                reveal_strlit("SLA C");
                reveal_strlit("SLA ");
                reveal_strlit("C");
                assert("SLA C"@ =~= "SLA "@ + "C"@);
            }
            Operation::new(
                Instr::Rot(RotOp::Sla, Operand8::Reg(Reg8::C)),
                8,
                "SLA C",
                ValueMode::Implied,
            )
        },
        0x22 => {
            proof {
                reveal_strlit("SLA D");
                reveal_strlit("SLA ");
                reveal_strlit("D");
                assert("SLA D"@ =~= "SLA "@ + "D"@);
            }
            Operation::new(
                Instr::Rot(RotOp::Sla, Operand8::Reg(Reg8::D)),
                8,
                "SLA D",
                ValueMode::Implied,
            )
        },
        0x23 => {
            proof {
                reveal_strlit("SLA E");
                reveal_strlit("SLA ");
                reveal_strlit("E");
                assert("SLA E"@ =~= "SLA "@ + "E"@);
            }
            Operation::new(
                Instr::Rot(RotOp::Sla, Operand8::Reg(Reg8::E)),
                8,
                "SLA E",
                ValueMode::Implied,
            )
        },
        0x24 => {
            proof {
                reveal_strlit("SLA H");
                reveal_strlit("SLA ");
                reveal_strlit("H");
                assert("SLA H"@ =~= "SLA "@ + "H"@);
            }
            Operation::new(
                Instr::Rot(RotOp::Sla, Operand8::Reg(Reg8::H)),
                8,
                "SLA H",
                ValueMode::Implied,
            )
        },
        0x25 => {
            proof {
                reveal_strlit("SLA L");
                reveal_strlit("SLA ");
                reveal_strlit("L");
                assert("SLA L"@ =~= "SLA "@ + "L"@);
            }
            Operation::new(
                Instr::Rot(RotOp::Sla, Operand8::Reg(Reg8::L)),
                8,
                "SLA L",
                ValueMode::Implied,
            )
        },
        0x26 => {
            proof {
                reveal_strlit("SLA (HL)");
                reveal_strlit("SLA ");
                reveal_strlit("(HL)");
                assert("SLA (HL)"@ =~= "SLA "@ + "(HL)"@);
            }
            Operation::new(
                Instr::Rot(RotOp::Sla, Operand8::HlInd),
                16,
                "SLA (HL)",
                ValueMode::Implied,
            )
        },
        0x27 => {
            proof {
                reveal_strlit("SLA A");
                reveal_strlit("SLA ");
                reveal_strlit("A");
                assert("SLA A"@ =~= "SLA "@ + "A"@);
            }
            Operation::new(
                Instr::Rot(RotOp::Sla, Operand8::Reg(Reg8::A)),
                8,
                "SLA A",
                ValueMode::Implied,
            )
        },
        0x28 => {
            proof {
                reveal_strlit("SRA B");
                reveal_strlit("SRA ");
                reveal_strlit("B");
                assert("SRA B"@ =~= "SRA "@ + "B"@);
            }
            Operation::new(
                Instr::Rot(RotOp::Sra, Operand8::Reg(Reg8::B)),
                8,
                "SRA B",
                ValueMode::Implied,
            )
        },
        0x29 => {
            proof {
                reveal_strlit("SRA C");
                reveal_strlit("SRA ");
                reveal_strlit("C");
                assert("SRA C"@ =~= "SRA "@ + "C"@);
            }
            Operation::new(
                Instr::Rot(RotOp::Sra, Operand8::Reg(Reg8::C)),
                8,
                "SRA C",
                ValueMode::Implied,
            )
        },
        0x2A => {
            proof {
                reveal_strlit("SRA D");
                reveal_strlit("SRA ");
                reveal_strlit("D");
                assert("SRA D"@ =~= "SRA "@ + "D"@);
            }
            Operation::new(
                Instr::Rot(RotOp::Sra, Operand8::Reg(Reg8::D)),
                8,
                "SRA D",
                ValueMode::Implied,
            )
        },
        0x2B => {
            proof {
                reveal_strlit("SRA E");
                reveal_strlit("SRA ");
                reveal_strlit("E");
                assert("SRA E"@ =~= "SRA "@ + "E"@);
            }
            Operation::new(
                Instr::Rot(RotOp::Sra, Operand8::Reg(Reg8::E)),
                8,
                "SRA E",
                ValueMode::Implied,
            )
        },
        0x2C => {
            proof {
                reveal_strlit("SRA H");
                reveal_strlit("SRA ");
                reveal_strlit("H");
                assert("SRA H"@ =~= "SRA "@ + "H"@);
            }
            Operation::new(
                Instr::Rot(RotOp::Sra, Operand8::Reg(Reg8::H)),
                8,
                "SRA H",
                ValueMode::Implied,
            )
        },
        0x2D => {
            proof {
                reveal_strlit("SRA L");
                reveal_strlit("SRA ");
                reveal_strlit("L");
                assert("SRA L"@ =~= "SRA "@ + "L"@);
            }
            Operation::new(
                Instr::Rot(RotOp::Sra, Operand8::Reg(Reg8::L)),
                8,
                "SRA L",
                ValueMode::Implied,
            )
        },
        0x2E => {
            proof {
                reveal_strlit("SRA (HL)");
                reveal_strlit("SRA ");
                reveal_strlit("(HL)");
                assert("SRA (HL)"@ =~= "SRA "@ + "(HL)"@);
            }
            Operation::new(
                Instr::Rot(RotOp::Sra, Operand8::HlInd),
                16,
                "SRA (HL)",
                ValueMode::Implied,
            )
        },
        _ => {
            proof {
                reveal_strlit("SRA A");
                reveal_strlit("SRA ");
                reveal_strlit("A");
                assert("SRA A"@ =~= "SRA "@ + "A"@);
            }
            Operation::new(
                Instr::Rot(RotOp::Sra, Operand8::Reg(Reg8::A)),
                8,
                "SRA A",
                ValueMode::Implied,
            )
        },
    }
}

/// Prefixed page, opcodes 0x30 to 0x3F.
fn prefixed_30(op: u8) -> (res: Operation)
    requires
        0x30 <= op <= 0x3F,
    ensures
        res.describes(decode_prefixed(op as int)),
{
    match op {
        0x30 => {
            proof {
                reveal_strlit("SWAP B");
                reveal_strlit("SWAP ");
                reveal_strlit("B");
                assert("SWAP B"@ =~= "SWAP "@ + "B"@);
            }
            Operation::new(
                Instr::Rot(RotOp::Swap, Operand8::Reg(Reg8::B)),
                8,
                "SWAP B",
                ValueMode::Implied,
            )
        },
        0x31 => {
            proof {
                reveal_strlit("SWAP C");
                reveal_strlit("SWAP ");
                reveal_strlit("C");
                assert("SWAP C"@ =~= "SWAP "@ + "C"@);
            }
            Operation::new(
                Instr::Rot(RotOp::Swap, Operand8::Reg(Reg8::C)),
                8,
                "SWAP C",
                ValueMode::Implied,
            )
        },
        0x32 => {
            proof {
                reveal_strlit("SWAP D");
                reveal_strlit("SWAP ");
                reveal_strlit("D");
                assert("SWAP D"@ =~= "SWAP "@ + "D"@);
            }
            Operation::new(
                Instr::Rot(RotOp::Swap, Operand8::Reg(Reg8::D)),
                8,
                "SWAP D",
                ValueMode::Implied,
            )
        },
        0x33 => {
            proof {
                reveal_strlit("SWAP E");
                reveal_strlit("SWAP ");
                reveal_strlit("E");
                assert("SWAP E"@ =~= "SWAP "@ + "E"@);
            }
            Operation::new(
                Instr::Rot(RotOp::Swap, Operand8::Reg(Reg8::E)),
                8,
                "SWAP E",
                ValueMode::Implied,
            )
        },
        0x34 => {
            proof {
                reveal_strlit("SWAP H");
                reveal_strlit("SWAP ");
                reveal_strlit("H");
                assert("SWAP H"@ =~= "SWAP "@ + "H"@);
            }
            Operation::new(
                Instr::Rot(RotOp::Swap, Operand8::Reg(Reg8::H)),
                8,
                "SWAP H",
                ValueMode::Implied,
            )
        },
        0x35 => {
            proof {
                reveal_strlit("SWAP L");
                reveal_strlit("SWAP ");
                reveal_strlit("L");
                assert("SWAP L"@ =~= "SWAP "@ + "L"@);
            }
            Operation::new(
                Instr::Rot(RotOp::Swap, Operand8::Reg(Reg8::L)),
                8,
                "SWAP L",
                ValueMode::Implied,
            )
        },
        0x36 => {
            proof {
                reveal_strlit("SWAP (HL)");
                reveal_strlit("SWAP ");
                reveal_strlit("(HL)");
                assert("SWAP (HL)"@ =~= "SWAP "@ + "(HL)"@);
            }
            Operation::new(
                Instr::Rot(RotOp::Swap, Operand8::HlInd),
                16,
                "SWAP (HL)",
                ValueMode::Implied,
            )
        },
        0x37 => {
            proof {
                reveal_strlit("SWAP A");
                reveal_strlit("SWAP ");
                reveal_strlit("A");
                assert("SWAP A"@ =~= "SWAP "@ + "A"@);
            }
            Operation::new(
                Instr::Rot(RotOp::Swap, Operand8::Reg(Reg8::A)),
                8,
                "SWAP A",
                ValueMode::Implied,
            )
        },
        0x38 => {
            proof {
                reveal_strlit("SRL B");
                reveal_strlit("SRL ");
                reveal_strlit("B");
                assert("SRL B"@ =~= "SRL "@ + "B"@);
            }
            Operation::new(
                Instr::Rot(RotOp::Srl, Operand8::Reg(Reg8::B)),
                8,
                "SRL B",
                ValueMode::Implied,
            )
        },
        0x39 => {
            proof {
                reveal_strlit("SRL C");
                reveal_strlit("SRL ");
                reveal_strlit("C");
                assert("SRL C"@ =~= "SRL "@ + "C"@);
            }
            Operation::new(
                Instr::Rot(RotOp::Srl, Operand8::Reg(Reg8::C)),
                8,
                "SRL C",
                ValueMode::Implied,
            )
        },
        0x3A => {
            proof {
                reveal_strlit("SRL D");
                reveal_strlit("SRL ");
                reveal_strlit("D");
                assert("SRL D"@ =~= "SRL "@ + "D"@);
            }
            Operation::new(
                Instr::Rot(RotOp::Srl, Operand8::Reg(Reg8::D)),
                8,
                "SRL D",
                ValueMode::Implied,
            )
        },
        0x3B => {
            proof {
                reveal_strlit("SRL E");
                reveal_strlit("SRL ");
                reveal_strlit("E");
                assert("SRL E"@ =~= "SRL "@ + "E"@);
            }
            Operation::new(
                Instr::Rot(RotOp::Srl, Operand8::Reg(Reg8::E)),
                8,
                "SRL E",
                ValueMode::Implied,
            )
        },
        0x3C => {
            proof {
                reveal_strlit("SRL H");
                reveal_strlit("SRL ");
                reveal_strlit("H");
                assert("SRL H"@ =~= "SRL "@ + "H"@);
            }
            Operation::new(
                Instr::Rot(RotOp::Srl, Operand8::Reg(Reg8::H)),
                8,
                "SRL H",
                ValueMode::Implied,
            )
        },
        0x3D => {
            proof {
                reveal_strlit("SRL L");
                reveal_strlit("SRL ");
                reveal_strlit("L");
                assert("SRL L"@ =~= "SRL "@ + "L"@);
            }
            Operation::new(
                Instr::Rot(RotOp::Srl, Operand8::Reg(Reg8::L)),
                8,
                "SRL L",
                ValueMode::Implied,
            )
        },
        0x3E => {
            proof {
                reveal_strlit("SRL (HL)");
                reveal_strlit("SRL ");
                reveal_strlit("(HL)");
                assert("SRL (HL)"@ =~= "SRL "@ + "(HL)"@);
            }
            Operation::new(
                Instr::Rot(RotOp::Srl, Operand8::HlInd),
                16,
                "SRL (HL)",
                ValueMode::Implied,
            )
        },
        _ => {
            proof {
                reveal_strlit("SRL A");
                reveal_strlit("SRL ");
                reveal_strlit("A");
                assert("SRL A"@ =~= "SRL "@ + "A"@);
            }
            Operation::new(
                Instr::Rot(RotOp::Srl, Operand8::Reg(Reg8::A)),
                8,
                "SRL A",
                ValueMode::Implied,
            )
        },
    }
}

/// Prefixed page, opcodes 0x40 to 0x4F.
fn prefixed_40(op: u8) -> (res: Operation)
    requires
        0x40 <= op <= 0x4F,
    ensures
        res.describes(decode_prefixed(op as int)),
{
    match op {
        0x40 => {
            proof {
                reveal_strlit("BIT 0, B");
                reveal_strlit("BIT ");
                reveal_strlit("0");
                reveal_strlit(", ");
                reveal_strlit("B");
                assert("BIT 0, B"@ =~= "BIT "@ + "0"@ + ", "@ + "B"@);
            }
            Operation::new(
                Instr::TestBit(0, Operand8::Reg(Reg8::B)),
                8,
                "BIT 0, B",
                ValueMode::Implied,
            )
        },
        0x41 => {
            proof {
                reveal_strlit("BIT 0, C");
                reveal_strlit("BIT ");
                reveal_strlit("0");
                reveal_strlit(", ");
                reveal_strlit("C");
                assert("BIT 0, C"@ =~= "BIT "@ + "0"@ + ", "@ + "C"@);
            }
            Operation::new(
                Instr::TestBit(0, Operand8::Reg(Reg8::C)),
                8,
                "BIT 0, C",
                ValueMode::Implied,
            )
        },
        0x42 => {
            proof {
                reveal_strlit("BIT 0, D");
                reveal_strlit("BIT ");
                reveal_strlit("0");
                reveal_strlit(", ");
                reveal_strlit("D");
                assert("BIT 0, D"@ =~= "BIT "@ + "0"@ + ", "@ + "D"@);
            }
            Operation::new(
                Instr::TestBit(0, Operand8::Reg(Reg8::D)),
                8,
                "BIT 0, D",
                ValueMode::Implied,
            )
        },
        0x43 => {
            proof {
                reveal_strlit("BIT 0, E");
                reveal_strlit("BIT ");
                reveal_strlit("0");
                reveal_strlit(", ");
                reveal_strlit("E");
                assert("BIT 0, E"@ =~= "BIT "@ + "0"@ + ", "@ + "E"@);
            }
            Operation::new(
                Instr::TestBit(0, Operand8::Reg(Reg8::E)),
                8,
                "BIT 0, E",
                ValueMode::Implied,
            )
        },
        0x44 => {
            proof {
                reveal_strlit("BIT 0, H");
                reveal_strlit("BIT ");
                reveal_strlit("0");
                reveal_strlit(", ");
                reveal_strlit("H");
                assert("BIT 0, H"@ =~= "BIT "@ + "0"@ + ", "@ + "H"@);
            }
            Operation::new(
                Instr::TestBit(0, Operand8::Reg(Reg8::H)),
                8,
                "BIT 0, H",
                ValueMode::Implied,
            )
        },
        0x45 => {
            proof {
                reveal_strlit("BIT 0, L");
                reveal_strlit("BIT ");
                reveal_strlit("0");
                reveal_strlit(", ");
                reveal_strlit("L");
                assert("BIT 0, L"@ =~= "BIT "@ + "0"@ + ", "@ + "L"@);
            }
            Operation::new(
                Instr::TestBit(0, Operand8::Reg(Reg8::L)),
                8,
                "BIT 0, L",
                ValueMode::Implied,
            )
        },
        0x46 => {
            proof {
                reveal_strlit("BIT 0, (HL)");
                reveal_strlit("BIT ");
                reveal_strlit("0");
                reveal_strlit(", ");
                reveal_strlit("(HL)");
                assert("BIT 0, (HL)"@ =~= "BIT "@ + "0"@ + ", "@ + "(HL)"@);
            }
            Operation::new(
                Instr::TestBit(0, Operand8::HlInd),
                12,
                "BIT 0, (HL)",
                ValueMode::Implied,
            )
        },
        0x47 => {
            proof {
                reveal_strlit("BIT 0, A");
                reveal_strlit("BIT ");
                reveal_strlit("0");
                reveal_strlit(", ");
                reveal_strlit("A");
                assert("BIT 0, A"@ =~= "BIT "@ + "0"@ + ", "@ + "A"@);
            }
            Operation::new(
                Instr::TestBit(0, Operand8::Reg(Reg8::A)),
                8,
                "BIT 0, A",
                ValueMode::Implied,
            )
        },
        0x48 => {
            proof {
                reveal_strlit("BIT 1, B");
                reveal_strlit("BIT ");
                reveal_strlit("1");
                reveal_strlit(", ");
                reveal_strlit("B");
                assert("BIT 1, B"@ =~= "BIT "@ + "1"@ + ", "@ + "B"@);
            }
            Operation::new(
                Instr::TestBit(1, Operand8::Reg(Reg8::B)),
                8,
                "BIT 1, B",
                ValueMode::Implied,
            )
        },
        0x49 => {
            proof {
                reveal_strlit("BIT 1, C");
                reveal_strlit("BIT ");
                reveal_strlit("1");
                reveal_strlit(", ");
                reveal_strlit("C");
                assert("BIT 1, C"@ =~= "BIT "@ + "1"@ + ", "@ + "C"@);
            }
            Operation::new(
                Instr::TestBit(1, Operand8::Reg(Reg8::C)),
                8,
                "BIT 1, C",
                ValueMode::Implied,
            )
        },
        0x4A => {
            proof {
                reveal_strlit("BIT 1, D");
                reveal_strlit("BIT ");
                reveal_strlit("1");
                reveal_strlit(", ");
                reveal_strlit("D");
                assert("BIT 1, D"@ =~= "BIT "@ + "1"@ + ", "@ + "D"@);
            }
            Operation::new(
                Instr::TestBit(1, Operand8::Reg(Reg8::D)),
                8,
                "BIT 1, D",
                ValueMode::Implied,
            )
        },
        0x4B => {
            proof {
                reveal_strlit("BIT 1, E");
                reveal_strlit("BIT ");
                reveal_strlit("1");
                reveal_strlit(", ");
                reveal_strlit("E");
                assert("BIT 1, E"@ =~= "BIT "@ + "1"@ + ", "@ + "E"@);
            }
            Operation::new(
                Instr::TestBit(1, Operand8::Reg(Reg8::E)),
                8,
                "BIT 1, E",
                ValueMode::Implied,
            )
        },
        0x4C => {
            proof {
                reveal_strlit("BIT 1, H");
                reveal_strlit("BIT ");
                reveal_strlit("1");
                reveal_strlit(", ");
                reveal_strlit("H");
                assert("BIT 1, H"@ =~= "BIT "@ + "1"@ + ", "@ + "H"@);
            }
            Operation::new(
                Instr::TestBit(1, Operand8::Reg(Reg8::H)),
                8,
                "BIT 1, H",
                ValueMode::Implied,
            )
        },
        0x4D => {
            proof {
                reveal_strlit("BIT 1, L");
                reveal_strlit("BIT ");
                reveal_strlit("1");
                reveal_strlit(", ");
                reveal_strlit("L");
                assert("BIT 1, L"@ =~= "BIT "@ + "1"@ + ", "@ + "L"@);
            }
            Operation::new(
                Instr::TestBit(1, Operand8::Reg(Reg8::L)),
                8,
                "BIT 1, L",
                ValueMode::Implied,
            )
        },
        0x4E => {
            proof {
                reveal_strlit("BIT 1, (HL)");
                reveal_strlit("BIT ");
                reveal_strlit("1");
                reveal_strlit(", ");
                reveal_strlit("(HL)");
                assert("BIT 1, (HL)"@ =~= "BIT "@ + "1"@ + ", "@ + "(HL)"@);
            }
            Operation::new(
                Instr::TestBit(1, Operand8::HlInd),
                12,
                "BIT 1, (HL)",
                ValueMode::Implied,
            )
        },
        _ => {
            proof {
                reveal_strlit("BIT 1, A");
                reveal_strlit("BIT ");
                reveal_strlit("1");
                reveal_strlit(", ");
                reveal_strlit("A");
                assert("BIT 1, A"@ =~= "BIT "@ + "1"@ + ", "@ + "A"@);
            }
            Operation::new(
                Instr::TestBit(1, Operand8::Reg(Reg8::A)),
                8,
                "BIT 1, A",
                ValueMode::Implied,
            )
        },
    }
}

/// Prefixed page, opcodes 0x50 to 0x5F.
fn prefixed_50(op: u8) -> (res: Operation)
    requires
        0x50 <= op <= 0x5F,
    ensures
        res.describes(decode_prefixed(op as int)),
{
    match op {
        0x50 => {
            proof {
                reveal_strlit("BIT 2, B");
                reveal_strlit("BIT ");
                reveal_strlit("2");
                reveal_strlit(", ");
                reveal_strlit("B");
                assert("BIT 2, B"@ =~= "BIT "@ + "2"@ + ", "@ + "B"@);
            }
            Operation::new(
                Instr::TestBit(2, Operand8::Reg(Reg8::B)),
                8,
                "BIT 2, B",
                ValueMode::Implied,
            )
        },
        0x51 => {
            proof {
                reveal_strlit("BIT 2, C");
                reveal_strlit("BIT ");
                reveal_strlit("2");
                reveal_strlit(", ");
                reveal_strlit("C");
                assert("BIT 2, C"@ =~= "BIT "@ + "2"@ + ", "@ + "C"@);
            }
            Operation::new(
                Instr::TestBit(2, Operand8::Reg(Reg8::C)),
                8,
                "BIT 2, C",
                ValueMode::Implied,
            )
        },
        0x52 => {
            proof {
                reveal_strlit("BIT 2, D");
                reveal_strlit("BIT ");
                reveal_strlit("2");
                reveal_strlit(", ");
                reveal_strlit("D");
                assert("BIT 2, D"@ =~= "BIT "@ + "2"@ + ", "@ + "D"@);
            }
            Operation::new(
                Instr::TestBit(2, Operand8::Reg(Reg8::D)),
                8,
                "BIT 2, D",
                ValueMode::Implied,
            )
        },
        0x53 => {
            proof {
                reveal_strlit("BIT 2, E");
                reveal_strlit("BIT ");
                reveal_strlit("2");
                reveal_strlit(", ");
                reveal_strlit("E");
                assert("BIT 2, E"@ =~= "BIT "@ + "2"@ + ", "@ + "E"@);
            }
            Operation::new(
                Instr::TestBit(2, Operand8::Reg(Reg8::E)),
                8,
                "BIT 2, E",
                ValueMode::Implied,
            )
        },
        0x54 => {
            proof {
                reveal_strlit("BIT 2, H");
                reveal_strlit("BIT ");
                reveal_strlit("2");
                reveal_strlit(", ");
                reveal_strlit("H");
                assert("BIT 2, H"@ =~= "BIT "@ + "2"@ + ", "@ + "H"@);
            }
            Operation::new(
                Instr::TestBit(2, Operand8::Reg(Reg8::H)),
                8,
                "BIT 2, H",
                ValueMode::Implied,
            )
        },
        0x55 => {
            proof {
                reveal_strlit("BIT 2, L");
                reveal_strlit("BIT ");
                reveal_strlit("2");
                reveal_strlit(", ");
                reveal_strlit("L");
                assert("BIT 2, L"@ =~= "BIT "@ + "2"@ + ", "@ + "L"@);
            }
            Operation::new(
                Instr::TestBit(2, Operand8::Reg(Reg8::L)),
                8,
                "BIT 2, L",
                ValueMode::Implied,
            )
        },
        0x56 => {
            proof {
                reveal_strlit("BIT 2, (HL)");
                reveal_strlit("BIT ");
                reveal_strlit("2");
                reveal_strlit(", ");
                reveal_strlit("(HL)");
                assert("BIT 2, (HL)"@ =~= "BIT "@ + "2"@ + ", "@ + "(HL)"@);
            }
            Operation::new(
                Instr::TestBit(2, Operand8::HlInd),
                12,
                "BIT 2, (HL)",
                ValueMode::Implied,
            )
        },
        0x57 => {
            proof {
                reveal_strlit("BIT 2, A");
                reveal_strlit("BIT ");
                reveal_strlit("2");
                reveal_strlit(", ");
                reveal_strlit("A");
                assert("BIT 2, A"@ =~= "BIT "@ + "2"@ + ", "@ + "A"@);
            }
            Operation::new(
                Instr::TestBit(2, Operand8::Reg(Reg8::A)),
                8,
                "BIT 2, A",
                ValueMode::Implied,
            )
        },
        0x58 => {
            proof {
                reveal_strlit("BIT 3, B");
                reveal_strlit("BIT ");
                reveal_strlit("3");
                reveal_strlit(", ");
                reveal_strlit("B");
                assert("BIT 3, B"@ =~= "BIT "@ + "3"@ + ", "@ + "B"@);
            }
            Operation::new(
                Instr::TestBit(3, Operand8::Reg(Reg8::B)),
                8,
                "BIT 3, B",
                ValueMode::Implied,
            )
        },
        0x59 => {
            proof {
                reveal_strlit("BIT 3, C");
                reveal_strlit("BIT ");
                reveal_strlit("3");
                reveal_strlit(", ");
                reveal_strlit("C");
                assert("BIT 3, C"@ =~= "BIT "@ + "3"@ + ", "@ + "C"@);
            }
            Operation::new(
                Instr::TestBit(3, Operand8::Reg(Reg8::C)),
                8,
                "BIT 3, C",
                ValueMode::Implied,
            )
        },
        0x5A => {
            proof {
                reveal_strlit("BIT 3, D");
                reveal_strlit("BIT ");
                reveal_strlit("3");
                reveal_strlit(", ");
                reveal_strlit("D");
                assert("BIT 3, D"@ =~= "BIT "@ + "3"@ + ", "@ + "D"@);
            }
            Operation::new(
                Instr::TestBit(3, Operand8::Reg(Reg8::D)),
                8,
                "BIT 3, D",
                ValueMode::Implied,
            )
        },
        0x5B => {
            proof {
                reveal_strlit("BIT 3, E");
                reveal_strlit("BIT ");
                reveal_strlit("3");
                reveal_strlit(", ");
                reveal_strlit("E");
                assert("BIT 3, E"@ =~= "BIT "@ + "3"@ + ", "@ + "E"@);
            }
            Operation::new(
                Instr::TestBit(3, Operand8::Reg(Reg8::E)),
                8,
                "BIT 3, E",
                ValueMode::Implied,
            )
        },
        0x5C => {
            proof {
                reveal_strlit("BIT 3, H");
                reveal_strlit("BIT ");
                reveal_strlit("3");
                reveal_strlit(", ");
                reveal_strlit("H");
                assert("BIT 3, H"@ =~= "BIT "@ + "3"@ + ", "@ + "H"@);
            }
            Operation::new(
                Instr::TestBit(3, Operand8::Reg(Reg8::H)),
                8,
                "BIT 3, H",
                ValueMode::Implied,
            )
        },
        0x5D => {
            proof {
                reveal_strlit("BIT 3, L");
                reveal_strlit("BIT ");
                reveal_strlit("3");
                reveal_strlit(", ");
                reveal_strlit("L");
                assert("BIT 3, L"@ =~= "BIT "@ + "3"@ + ", "@ + "L"@);
            }
            Operation::new(
                Instr::TestBit(3, Operand8::Reg(Reg8::L)),
                8,
                "BIT 3, L",
                ValueMode::Implied,
            )
        },
        0x5E => {
            proof {
                reveal_strlit("BIT 3, (HL)");
                reveal_strlit("BIT ");
                reveal_strlit("3");
                reveal_strlit(", ");
                reveal_strlit("(HL)");
                assert("BIT 3, (HL)"@ =~= "BIT "@ + "3"@ + ", "@ + "(HL)"@);
            }
            Operation::new(
                Instr::TestBit(3, Operand8::HlInd),
                12,
                "BIT 3, (HL)",
                ValueMode::Implied,
            )
        },
        _ => {
            proof {
                reveal_strlit("BIT 3, A");
                reveal_strlit("BIT ");
                reveal_strlit("3");
                reveal_strlit(", ");
                reveal_strlit("A");
                assert("BIT 3, A"@ =~= "BIT "@ + "3"@ + ", "@ + "A"@);
            }
            Operation::new(
                Instr::TestBit(3, Operand8::Reg(Reg8::A)),
                8,
                "BIT 3, A",
                ValueMode::Implied,
            )
        },
    }
}

/// Prefixed page, opcodes 0x60 to 0x6F.
fn prefixed_60(op: u8) -> (res: Operation)
    requires
        0x60 <= op <= 0x6F,
    ensures
        res.describes(decode_prefixed(op as int)),
{
    match op {
        0x60 => {
            proof {
                reveal_strlit("BIT 4, B");
                reveal_strlit("BIT ");
                reveal_strlit("4");
                reveal_strlit(", ");
                reveal_strlit("B");
                assert("BIT 4, B"@ =~= "BIT "@ + "4"@ + ", "@ + "B"@);
            }
            Operation::new(
                Instr::TestBit(4, Operand8::Reg(Reg8::B)),
                8,
                "BIT 4, B",
                ValueMode::Implied,
            )
        },
        0x61 => {
            proof {
                reveal_strlit("BIT 4, C");
                reveal_strlit("BIT ");
                reveal_strlit("4");
                reveal_strlit(", ");
                reveal_strlit("C");
                assert("BIT 4, C"@ =~= "BIT "@ + "4"@ + ", "@ + "C"@);
            }
            Operation::new(
                Instr::TestBit(4, Operand8::Reg(Reg8::C)),
                8,
                "BIT 4, C",
                ValueMode::Implied,
            )
        },
        0x62 => {
            proof {
                reveal_strlit("BIT 4, D");
                reveal_strlit("BIT ");
                reveal_strlit("4");
                reveal_strlit(", ");
                reveal_strlit("D");
                assert("BIT 4, D"@ =~= "BIT "@ + "4"@ + ", "@ + "D"@);
            }
            Operation::new(
                Instr::TestBit(4, Operand8::Reg(Reg8::D)),
                8,
                "BIT 4, D",
                ValueMode::Implied,
            )
        },
        0x63 => {
            proof {
                reveal_strlit("BIT 4, E");
                reveal_strlit("BIT ");
                reveal_strlit("4");
                reveal_strlit(", ");
                reveal_strlit("E");
                assert("BIT 4, E"@ =~= "BIT "@ + "4"@ + ", "@ + "E"@);
            }
            Operation::new(
                Instr::TestBit(4, Operand8::Reg(Reg8::E)),
                8,
                "BIT 4, E",
                ValueMode::Implied,
            )
        },
        0x64 => {
            proof {
                reveal_strlit("BIT 4, H");
                reveal_strlit("BIT ");
                reveal_strlit("4");
                reveal_strlit(", ");
                reveal_strlit("H");
                assert("BIT 4, H"@ =~= "BIT "@ + "4"@ + ", "@ + "H"@);
            }
            Operation::new(
                Instr::TestBit(4, Operand8::Reg(Reg8::H)),
                8,
                "BIT 4, H",
                ValueMode::Implied,
            )
        },
        0x65 => {
            proof {
                reveal_strlit("BIT 4, L");
                reveal_strlit("BIT ");
                reveal_strlit("4");
                reveal_strlit(", ");
                reveal_strlit("L");
                assert("BIT 4, L"@ =~= "BIT "@ + "4"@ + ", "@ + "L"@);
            }
            Operation::new(
                Instr::TestBit(4, Operand8::Reg(Reg8::L)),
                8,
                "BIT 4, L",
                ValueMode::Implied,
            )
        },
        0x66 => {
            proof {
                reveal_strlit("BIT 4, (HL)");
                reveal_strlit("BIT ");
                reveal_strlit("4");
                reveal_strlit(", ");
                reveal_strlit("(HL)");
                assert("BIT 4, (HL)"@ =~= "BIT "@ + "4"@ + ", "@ + "(HL)"@);
            }
            Operation::new(
                Instr::TestBit(4, Operand8::HlInd),
                12,
                "BIT 4, (HL)",
                ValueMode::Implied,
            )
        },
        0x67 => {
            proof {
                reveal_strlit("BIT 4, A");
                reveal_strlit("BIT ");
                reveal_strlit("4");
                reveal_strlit(", ");
                reveal_strlit("A");
                assert("BIT 4, A"@ =~= "BIT "@ + "4"@ + ", "@ + "A"@);
            }
            Operation::new(
                Instr::TestBit(4, Operand8::Reg(Reg8::A)),
                8,
                "BIT 4, A",
                ValueMode::Implied,
            )
        },
        0x68 => {
            proof {
                reveal_strlit("BIT 5, B");
                reveal_strlit("BIT ");
                reveal_strlit("5");
                reveal_strlit(", ");
                reveal_strlit("B");
                assert("BIT 5, B"@ =~= "BIT "@ + "5"@ + ", "@ + "B"@);
            }
            Operation::new(
                Instr::TestBit(5, Operand8::Reg(Reg8::B)),
                8,
                "BIT 5, B",
                ValueMode::Implied,
            )
        },
        0x69 => {
            proof {
                reveal_strlit("BIT 5, C");
                reveal_strlit("BIT ");
                reveal_strlit("5");
                reveal_strlit(", ");
                reveal_strlit("C");
                assert("BIT 5, C"@ =~= "BIT "@ + "5"@ + ", "@ + "C"@);
            }
            Operation::new(
                Instr::TestBit(5, Operand8::Reg(Reg8::C)),
                8,
                "BIT 5, C",
                ValueMode::Implied,
            )
        },
        0x6A => {
            proof {
                reveal_strlit("BIT 5, D");
                reveal_strlit("BIT ");
                reveal_strlit("5");
                reveal_strlit(", ");
                reveal_strlit("D");
                assert("BIT 5, D"@ =~= "BIT "@ + "5"@ + ", "@ + "D"@);
            }
            Operation::new(
                Instr::TestBit(5, Operand8::Reg(Reg8::D)),
                8,
                "BIT 5, D",
                ValueMode::Implied,
            )
        },
        0x6B => {
            proof {
                reveal_strlit("BIT 5, E");
                reveal_strlit("BIT ");
                reveal_strlit("5");
                reveal_strlit(", ");
                reveal_strlit("E");
                assert("BIT 5, E"@ =~= "BIT "@ + "5"@ + ", "@ + "E"@);
            }
            Operation::new(
                Instr::TestBit(5, Operand8::Reg(Reg8::E)),
                8,
                "BIT 5, E",
                ValueMode::Implied,
            )
        },
        0x6C => {
            proof {
                reveal_strlit("BIT 5, H");
                reveal_strlit("BIT ");
                reveal_strlit("5");
                reveal_strlit(", ");
                reveal_strlit("H");
                assert("BIT 5, H"@ =~= "BIT "@ + "5"@ + ", "@ + "H"@);
            }
            Operation::new(
                Instr::TestBit(5, Operand8::Reg(Reg8::H)),
                8,
                "BIT 5, H",
                ValueMode::Implied,
            )
        },
        0x6D => {
            proof {
                reveal_strlit("BIT 5, L");
                reveal_strlit("BIT ");
                reveal_strlit("5");
                reveal_strlit(", ");
                reveal_strlit("L");
                assert("BIT 5, L"@ =~= "BIT "@ + "5"@ + ", "@ + "L"@);
            }
            Operation::new(
                Instr::TestBit(5, Operand8::Reg(Reg8::L)),
                8,
                "BIT 5, L",
                ValueMode::Implied,
            )
        },
        0x6E => {
            proof {
                reveal_strlit("BIT 5, (HL)");
                reveal_strlit("BIT ");
                reveal_strlit("5");
                reveal_strlit(", ");
                reveal_strlit("(HL)");
                assert("BIT 5, (HL)"@ =~= "BIT "@ + "5"@ + ", "@ + "(HL)"@);
            }
            Operation::new(
                Instr::TestBit(5, Operand8::HlInd),
                12,
                "BIT 5, (HL)",
                ValueMode::Implied,
            )
        },
        _ => {
            proof {
                reveal_strlit("BIT 5, A");
                reveal_strlit("BIT ");
                reveal_strlit("5");
                reveal_strlit(", ");
                reveal_strlit("A");
                assert("BIT 5, A"@ =~= "BIT "@ + "5"@ + ", "@ + "A"@);
            }
            Operation::new(
                Instr::TestBit(5, Operand8::Reg(Reg8::A)),
                8,
                "BIT 5, A",
                ValueMode::Implied,
            )
        },
    }
}

/// Prefixed page, opcodes 0x70 to 0x7F.
fn prefixed_70(op: u8) -> (res: Operation)
    requires
        0x70 <= op <= 0x7F,
    ensures
        res.describes(decode_prefixed(op as int)),
{
    match op {
        0x70 => {
            proof {
                reveal_strlit("BIT 6, B");
                reveal_strlit("BIT ");
                reveal_strlit("6");
                reveal_strlit(", ");
                reveal_strlit("B");
                assert("BIT 6, B"@ =~= "BIT "@ + "6"@ + ", "@ + "B"@);
            }
            Operation::new(
                Instr::TestBit(6, Operand8::Reg(Reg8::B)),
                8,
                "BIT 6, B",
                ValueMode::Implied,
            )
        },
        0x71 => {
            proof {
                reveal_strlit("BIT 6, C");
                reveal_strlit("BIT ");
                reveal_strlit("6");
                reveal_strlit(", ");
                reveal_strlit("C");
                assert("BIT 6, C"@ =~= "BIT "@ + "6"@ + ", "@ + "C"@);
            }
            Operation::new(
                Instr::TestBit(6, Operand8::Reg(Reg8::C)),
                8,
                "BIT 6, C",
                ValueMode::Implied,
            )
        },
        0x72 => {
            proof {
                reveal_strlit("BIT 6, D");
                reveal_strlit("BIT ");
                reveal_strlit("6");
                reveal_strlit(", ");
                reveal_strlit("D");
                assert("BIT 6, D"@ =~= "BIT "@ + "6"@ + ", "@ + "D"@);
            }
            Operation::new(
                Instr::TestBit(6, Operand8::Reg(Reg8::D)),
                8,
                "BIT 6, D",
                ValueMode::Implied,
            )
        },
        0x73 => {
            proof {
                reveal_strlit("BIT 6, E");
                reveal_strlit("BIT ");
                reveal_strlit("6");
                reveal_strlit(", ");
                reveal_strlit("E");
                assert("BIT 6, E"@ =~= "BIT "@ + "6"@ + ", "@ + "E"@);
            }
            Operation::new(
                Instr::TestBit(6, Operand8::Reg(Reg8::E)),
                8,
                "BIT 6, E",
                ValueMode::Implied,
            )
        },
        0x74 => {
            proof {
                reveal_strlit("BIT 6, H");
                reveal_strlit("BIT ");
                reveal_strlit("6");
                reveal_strlit(", ");
                reveal_strlit("H");
                assert("BIT 6, H"@ =~= "BIT "@ + "6"@ + ", "@ + "H"@);
            }
            Operation::new(
                Instr::TestBit(6, Operand8::Reg(Reg8::H)),
                8,
                "BIT 6, H",
                ValueMode::Implied,
            )
        },
        0x75 => {
            proof {
                reveal_strlit("BIT 6, L");
                reveal_strlit("BIT ");
                reveal_strlit("6");
                reveal_strlit(", ");
                reveal_strlit("L");
                assert("BIT 6, L"@ =~= "BIT "@ + "6"@ + ", "@ + "L"@);
            }
            Operation::new(
                Instr::TestBit(6, Operand8::Reg(Reg8::L)),
                8,
                "BIT 6, L",
                ValueMode::Implied,
            )
        },
        0x76 => {
            proof {
                reveal_strlit("BIT 6, (HL)");
                reveal_strlit("BIT ");
                reveal_strlit("6");
                reveal_strlit(", ");
                reveal_strlit("(HL)");
                assert("BIT 6, (HL)"@ =~= "BIT "@ + "6"@ + ", "@ + "(HL)"@);
            }
            Operation::new(
                Instr::TestBit(6, Operand8::HlInd),
                12,
                "BIT 6, (HL)",
                ValueMode::Implied,
            )
        },
        0x77 => {
            proof {
                reveal_strlit("BIT 6, A");
                reveal_strlit("BIT ");
                reveal_strlit("6");
                reveal_strlit(", ");
                reveal_strlit("A");
                assert("BIT 6, A"@ =~= "BIT "@ + "6"@ + ", "@ + "A"@);
            }
            Operation::new(
                Instr::TestBit(6, Operand8::Reg(Reg8::A)),
                8,
                "BIT 6, A",
                ValueMode::Implied,
            )
        },
        0x78 => {
            proof {
                reveal_strlit("BIT 7, B");
                reveal_strlit("BIT ");
                reveal_strlit("7");
                reveal_strlit(", ");
                reveal_strlit("B");
                assert("BIT 7, B"@ =~= "BIT "@ + "7"@ + ", "@ + "B"@);
            }
            Operation::new(
                Instr::TestBit(7, Operand8::Reg(Reg8::B)),
                8,
                "BIT 7, B",
                ValueMode::Implied,
            )
        },
        0x79 => {
            proof {
                reveal_strlit("BIT 7, C");
                reveal_strlit("BIT ");
                reveal_strlit("7");
                reveal_strlit(", ");
                reveal_strlit("C");
                assert("BIT 7, C"@ =~= "BIT "@ + "7"@ + ", "@ + "C"@);
            }
            Operation::new(
                Instr::TestBit(7, Operand8::Reg(Reg8::C)),
                8,
                "BIT 7, C",
                ValueMode::Implied,
            )
        },
        0x7A => {
            proof {
                reveal_strlit("BIT 7, D");
                reveal_strlit("BIT ");
                reveal_strlit("7");
                reveal_strlit(", ");
                reveal_strlit("D");
                assert("BIT 7, D"@ =~= "BIT "@ + "7"@ + ", "@ + "D"@);
            }
            Operation::new(
                Instr::TestBit(7, Operand8::Reg(Reg8::D)),
                8,
                "BIT 7, D",
                ValueMode::Implied,
            )
        },
        0x7B => {
            proof {
                reveal_strlit("BIT 7, E");
                reveal_strlit("BIT ");
                reveal_strlit("7");
                reveal_strlit(", ");
                reveal_strlit("E");
                assert("BIT 7, E"@ =~= "BIT "@ + "7"@ + ", "@ + "E"@);
            }
            Operation::new(
                Instr::TestBit(7, Operand8::Reg(Reg8::E)),
                8,
                "BIT 7, E",
                ValueMode::Implied,
            )
        },
        0x7C => {
            proof {
                reveal_strlit("BIT 7, H");
                reveal_strlit("BIT ");
                reveal_strlit("7");
                reveal_strlit(", ");
                reveal_strlit("H");
                assert("BIT 7, H"@ =~= "BIT "@ + "7"@ + ", "@ + "H"@);
            }
            Operation::new(
                Instr::TestBit(7, Operand8::Reg(Reg8::H)),
                8,
                "BIT 7, H",
                ValueMode::Implied,
            )
        },
        0x7D => {
            proof {
                reveal_strlit("BIT 7, L");
                reveal_strlit("BIT ");
                reveal_strlit("7");
                reveal_strlit(", ");
                reveal_strlit("L");
                assert("BIT 7, L"@ =~= "BIT "@ + "7"@ + ", "@ + "L"@);
            }
            Operation::new(
                Instr::TestBit(7, Operand8::Reg(Reg8::L)),
                8,
                "BIT 7, L",
                ValueMode::Implied,
            )
        },
        0x7E => {
            proof {
                reveal_strlit("BIT 7, (HL)");
                reveal_strlit("BIT ");
                reveal_strlit("7");
                reveal_strlit(", ");
                reveal_strlit("(HL)");
                assert("BIT 7, (HL)"@ =~= "BIT "@ + "7"@ + ", "@ + "(HL)"@);
            }
            Operation::new(
                Instr::TestBit(7, Operand8::HlInd),
                12,
                "BIT 7, (HL)",
                ValueMode::Implied,
            )
        },
        _ => {
            proof {
                reveal_strlit("BIT 7, A");
                reveal_strlit("BIT ");
                reveal_strlit("7");
                reveal_strlit(", ");
                reveal_strlit("A");
                assert("BIT 7, A"@ =~= "BIT "@ + "7"@ + ", "@ + "A"@);
            }
            Operation::new(
                Instr::TestBit(7, Operand8::Reg(Reg8::A)),
                8,
                "BIT 7, A",
                ValueMode::Implied,
            )
        },
    }
}

/// Prefixed page, opcodes 0x80 to 0x8F.
fn prefixed_80(op: u8) -> (res: Operation)
    requires
        0x80 <= op <= 0x8F,
    ensures
        res.describes(decode_prefixed(op as int)),
{
    match op {
        0x80 => {
            proof {
                reveal_strlit("RES 0, B");
                reveal_strlit("RES ");
                reveal_strlit("0");
                reveal_strlit(", ");
                reveal_strlit("B");
                assert("RES 0, B"@ =~= "RES "@ + "0"@ + ", "@ + "B"@);
            }
            Operation::new(
                Instr::ResBit(0, Operand8::Reg(Reg8::B)),
                8,
                "RES 0, B",
                ValueMode::Implied,
            )
        },
        0x81 => {
            proof {
                reveal_strlit("RES 0, C");
                reveal_strlit("RES ");
                reveal_strlit("0");
                reveal_strlit(", ");
                reveal_strlit("C");
                assert("RES 0, C"@ =~= "RES "@ + "0"@ + ", "@ + "C"@);
            }
            Operation::new(
                Instr::ResBit(0, Operand8::Reg(Reg8::C)),
                8,
                "RES 0, C",
                ValueMode::Implied,
            )
        },
        0x82 => {
            proof {
                reveal_strlit("RES 0, D");
                reveal_strlit("RES ");
                reveal_strlit("0");
                reveal_strlit(", ");
                reveal_strlit("D");
                assert("RES 0, D"@ =~= "RES "@ + "0"@ + ", "@ + "D"@);
            }
            Operation::new(
                Instr::ResBit(0, Operand8::Reg(Reg8::D)),
                8,
                "RES 0, D",
                ValueMode::Implied,
            )
        },
        0x83 => {
            proof {
                reveal_strlit("RES 0, E");
                reveal_strlit("RES ");
                reveal_strlit("0");
                reveal_strlit(", ");
                reveal_strlit("E");
                assert("RES 0, E"@ =~= "RES "@ + "0"@ + ", "@ + "E"@);
            }
            Operation::new(
                Instr::ResBit(0, Operand8::Reg(Reg8::E)),
                8,
                "RES 0, E",
                ValueMode::Implied,
            )
        },
        0x84 => {
            proof {
                reveal_strlit("RES 0, H");
                reveal_strlit("RES ");
                reveal_strlit("0");
                reveal_strlit(", ");
                reveal_strlit("H");
                assert("RES 0, H"@ =~= "RES "@ + "0"@ + ", "@ + "H"@);
            }
            Operation::new(
                Instr::ResBit(0, Operand8::Reg(Reg8::H)),
                8,
                "RES 0, H",
                ValueMode::Implied,
            )
        },
        0x85 => {
            proof {
                reveal_strlit("RES 0, L");
                reveal_strlit("RES ");
                reveal_strlit("0");
                reveal_strlit(", ");
                reveal_strlit("L");
                assert("RES 0, L"@ =~= "RES "@ + "0"@ + ", "@ + "L"@);
            }
            Operation::new(
                Instr::ResBit(0, Operand8::Reg(Reg8::L)),
                8,
                "RES 0, L",
                ValueMode::Implied,
            )
        },
        0x86 => {
            proof {
                reveal_strlit("RES 0, (HL)");
                reveal_strlit("RES ");
                reveal_strlit("0");
                reveal_strlit(", ");
                reveal_strlit("(HL)");
                assert("RES 0, (HL)"@ =~= "RES "@ + "0"@ + ", "@ + "(HL)"@);
            }
            Operation::new(
                Instr::ResBit(0, Operand8::HlInd),
                16,
                "RES 0, (HL)",
                ValueMode::Implied,
            )
        },
        0x87 => {
            proof {
                reveal_strlit("RES 0, A");
                reveal_strlit("RES ");
                reveal_strlit("0");
                reveal_strlit(", ");
                reveal_strlit("A");
                assert("RES 0, A"@ =~= "RES "@ + "0"@ + ", "@ + "A"@);
            }
            Operation::new(
                Instr::ResBit(0, Operand8::Reg(Reg8::A)),
                8,
                "RES 0, A",
                ValueMode::Implied,
            )
        },
        0x88 => {
            proof {
                reveal_strlit("RES 1, B");
                reveal_strlit("RES ");
                reveal_strlit("1");
                reveal_strlit(", ");
                reveal_strlit("B");
                assert("RES 1, B"@ =~= "RES "@ + "1"@ + ", "@ + "B"@);
            }
            Operation::new(
                Instr::ResBit(1, Operand8::Reg(Reg8::B)),
                8,
                "RES 1, B",
                ValueMode::Implied,
            )
        },
        0x89 => {
            proof {
                reveal_strlit("RES 1, C");
                reveal_strlit("RES ");
                reveal_strlit("1");
                reveal_strlit(", ");
                reveal_strlit("C");
                assert("RES 1, C"@ =~= "RES "@ + "1"@ + ", "@ + "C"@);
            }
            Operation::new(
                Instr::ResBit(1, Operand8::Reg(Reg8::C)),
                8,
                "RES 1, C",
                ValueMode::Implied,
            )
        },
        0x8A => {
            proof {
                reveal_strlit("RES 1, D");
                reveal_strlit("RES ");
                reveal_strlit("1");
                reveal_strlit(", ");
                reveal_strlit("D");
                assert("RES 1, D"@ =~= "RES "@ + "1"@ + ", "@ + "D"@);
            }
            Operation::new(
                Instr::ResBit(1, Operand8::Reg(Reg8::D)),
                8,
                "RES 1, D",
                ValueMode::Implied,
            )
        },
        0x8B => {
            proof {
                reveal_strlit("RES 1, E");
                reveal_strlit("RES ");
                reveal_strlit("1");
                reveal_strlit(", ");
                reveal_strlit("E");
                assert("RES 1, E"@ =~= "RES "@ + "1"@ + ", "@ + "E"@);
            }
            Operation::new(
                Instr::ResBit(1, Operand8::Reg(Reg8::E)),
                8,
                "RES 1, E",
                ValueMode::Implied,
            )
        },
        0x8C => {
            proof {
                reveal_strlit("RES 1, H");
                reveal_strlit("RES ");
                reveal_strlit("1");
                reveal_strlit(", ");
                reveal_strlit("H");
                assert("RES 1, H"@ =~= "RES "@ + "1"@ + ", "@ + "H"@);
            }
            Operation::new(
                Instr::ResBit(1, Operand8::Reg(Reg8::H)),
                8,
                "RES 1, H",
                ValueMode::Implied,
            )
        },
        0x8D => {
            proof {
                reveal_strlit("RES 1, L");
                reveal_strlit("RES ");
                reveal_strlit("1");
                reveal_strlit(", ");
                reveal_strlit("L");
                assert("RES 1, L"@ =~= "RES "@ + "1"@ + ", "@ + "L"@);
            }
            Operation::new(
                Instr::ResBit(1, Operand8::Reg(Reg8::L)),
                8,
                "RES 1, L",
                ValueMode::Implied,
            )
        },
        0x8E => {
            proof {
                reveal_strlit("RES 1, (HL)");
                reveal_strlit("RES ");
                reveal_strlit("1");
                reveal_strlit(", ");
                reveal_strlit("(HL)");
                assert("RES 1, (HL)"@ =~= "RES "@ + "1"@ + ", "@ + "(HL)"@);
            }
            Operation::new(
                Instr::ResBit(1, Operand8::HlInd),
                16,
                "RES 1, (HL)",
                ValueMode::Implied,
            )
        },
        _ => {
            proof {
                reveal_strlit("RES 1, A");
                reveal_strlit("RES ");
                reveal_strlit("1");
                reveal_strlit(", ");
                reveal_strlit("A");
                assert("RES 1, A"@ =~= "RES "@ + "1"@ + ", "@ + "A"@);
            }
            Operation::new(
                Instr::ResBit(1, Operand8::Reg(Reg8::A)),
                8,
                "RES 1, A",
                ValueMode::Implied,
            )
        },
    }
}

/// Prefixed page, opcodes 0x90 to 0x9F.
fn prefixed_90(op: u8) -> (res: Operation)
    requires
        0x90 <= op <= 0x9F,
    ensures
        res.describes(decode_prefixed(op as int)),
{
    match op {
        0x90 => {
            proof {
                reveal_strlit("RES 2, B");
                reveal_strlit("RES ");
                reveal_strlit("2");
                reveal_strlit(", ");
                reveal_strlit("B");
                assert("RES 2, B"@ =~= "RES "@ + "2"@ + ", "@ + "B"@);
            }
            Operation::new(
                Instr::ResBit(2, Operand8::Reg(Reg8::B)),
                8,
                "RES 2, B",
                ValueMode::Implied,
            )
        },
        0x91 => {
            proof {
                reveal_strlit("RES 2, C");
                reveal_strlit("RES ");
                reveal_strlit("2");
                reveal_strlit(", ");
                reveal_strlit("C");
                assert("RES 2, C"@ =~= "RES "@ + "2"@ + ", "@ + "C"@);
            }
            Operation::new(
                Instr::ResBit(2, Operand8::Reg(Reg8::C)),
                8,
                "RES 2, C",
                ValueMode::Implied,
            )
        },
        0x92 => {
            proof {
                reveal_strlit("RES 2, D");
                reveal_strlit("RES ");
                reveal_strlit("2");
                reveal_strlit(", ");
                reveal_strlit("D");
                assert("RES 2, D"@ =~= "RES "@ + "2"@ + ", "@ + "D"@);
            }
            Operation::new(
                Instr::ResBit(2, Operand8::Reg(Reg8::D)),
                8,
                "RES 2, D",
                ValueMode::Implied,
            )
        },
        0x93 => {
            proof {
                reveal_strlit("RES 2, E");
                reveal_strlit("RES ");
                reveal_strlit("2");
                reveal_strlit(", ");
                reveal_strlit("E");
                assert("RES 2, E"@ =~= "RES "@ + "2"@ + ", "@ + "E"@);
            }
            Operation::new(
                Instr::ResBit(2, Operand8::Reg(Reg8::E)),
                8,
                "RES 2, E",
                ValueMode::Implied,
            )
        },
        0x94 => {
            proof {
                reveal_strlit("RES 2, H");
                reveal_strlit("RES ");
                reveal_strlit("2");
                reveal_strlit(", ");
                reveal_strlit("H");
                assert("RES 2, H"@ =~= "RES "@ + "2"@ + ", "@ + "H"@);
            }
            Operation::new(
                Instr::ResBit(2, Operand8::Reg(Reg8::H)),
                8,
                "RES 2, H",
                ValueMode::Implied,
            )
        },
        0x95 => {
            proof {
                reveal_strlit("RES 2, L");
                reveal_strlit("RES ");
                reveal_strlit("2");
                reveal_strlit(", ");
                reveal_strlit("L");
                assert("RES 2, L"@ =~= "RES "@ + "2"@ + ", "@ + "L"@);
            }
            Operation::new(
                Instr::ResBit(2, Operand8::Reg(Reg8::L)),
                8,
                "RES 2, L",
                ValueMode::Implied,
            )
        },
        0x96 => {
            proof {
                reveal_strlit("RES 2, (HL)");
                reveal_strlit("RES ");
                reveal_strlit("2");
                reveal_strlit(", ");
                reveal_strlit("(HL)");
                assert("RES 2, (HL)"@ =~= "RES "@ + "2"@ + ", "@ + "(HL)"@);
            }
            Operation::new(
                Instr::ResBit(2, Operand8::HlInd),
                16,
                "RES 2, (HL)",
                ValueMode::Implied,
            )
        },
        0x97 => {
            proof {
                reveal_strlit("RES 2, A");
                reveal_strlit("RES ");
                reveal_strlit("2");
                reveal_strlit(", ");
                reveal_strlit("A");
                assert("RES 2, A"@ =~= "RES "@ + "2"@ + ", "@ + "A"@);
            }
            Operation::new(
                Instr::ResBit(2, Operand8::Reg(Reg8::A)),
                8,
                "RES 2, A",
                ValueMode::Implied,
            )
        },
        0x98 => {
            proof {
                reveal_strlit("RES 3, B");
                reveal_strlit("RES ");
                reveal_strlit("3");
                reveal_strlit(", ");
                reveal_strlit("B");
                assert("RES 3, B"@ =~= "RES "@ + "3"@ + ", "@ + "B"@);
            }
            Operation::new(
                Instr::ResBit(3, Operand8::Reg(Reg8::B)),
                8,
                "RES 3, B",
                ValueMode::Implied,
            )
        },
        0x99 => {
            proof {
                reveal_strlit("RES 3, C");
                reveal_strlit("RES ");
                reveal_strlit("3");
                reveal_strlit(", ");
                reveal_strlit("C");
                assert("RES 3, C"@ =~= "RES "@ + "3"@ + ", "@ + "C"@);
            }
            Operation::new(
                Instr::ResBit(3, Operand8::Reg(Reg8::C)),
                8,
                "RES 3, C",
                ValueMode::Implied,
            )
        },
        0x9A => {
            proof {
                reveal_strlit("RES 3, D");
                reveal_strlit("RES ");
                reveal_strlit("3");
                reveal_strlit(", ");
                reveal_strlit("D");
                assert("RES 3, D"@ =~= "RES "@ + "3"@ + ", "@ + "D"@);
            }
            Operation::new(
                Instr::ResBit(3, Operand8::Reg(Reg8::D)),
                8,
                "RES 3, D",
                ValueMode::Implied,
            )
        },
        0x9B => {
            proof {
                reveal_strlit("RES 3, E");
                reveal_strlit("RES ");
                reveal_strlit("3");
                reveal_strlit(", ");
                reveal_strlit("E");
                assert("RES 3, E"@ =~= "RES "@ + "3"@ + ", "@ + "E"@);
            }
            Operation::new(
                Instr::ResBit(3, Operand8::Reg(Reg8::E)),
                8,
                "RES 3, E",
                ValueMode::Implied,
            )
        },
        0x9C => {
            proof {
                reveal_strlit("RES 3, H");
                reveal_strlit("RES ");
                reveal_strlit("3");
                reveal_strlit(", ");
                reveal_strlit("H");
                assert("RES 3, H"@ =~= "RES "@ + "3"@ + ", "@ + "H"@);
            }
            Operation::new(
                Instr::ResBit(3, Operand8::Reg(Reg8::H)),
                8,
                "RES 3, H",
                ValueMode::Implied,
            )
        },
        0x9D => {
            proof {
                reveal_strlit("RES 3, L");
                reveal_strlit("RES ");
                reveal_strlit("3");
                reveal_strlit(", ");
                reveal_strlit("L");
                assert("RES 3, L"@ =~= "RES "@ + "3"@ + ", "@ + "L"@);
            }
            Operation::new(
                Instr::ResBit(3, Operand8::Reg(Reg8::L)),
                8,
                "RES 3, L",
                ValueMode::Implied,
            )
        },
        0x9E => {
            proof {
                reveal_strlit("RES 3, (HL)");
                reveal_strlit("RES ");
                reveal_strlit("3");
                reveal_strlit(", ");
                reveal_strlit("(HL)");
                assert("RES 3, (HL)"@ =~= "RES "@ + "3"@ + ", "@ + "(HL)"@);
            }
            Operation::new(
                Instr::ResBit(3, Operand8::HlInd),
                16,
                "RES 3, (HL)",
                ValueMode::Implied,
            )
        },
        _ => {
            proof {
                reveal_strlit("RES 3, A");
                reveal_strlit("RES ");
                reveal_strlit("3");
                reveal_strlit(", ");
                reveal_strlit("A");
                assert("RES 3, A"@ =~= "RES "@ + "3"@ + ", "@ + "A"@);
            }
            Operation::new(
                Instr::ResBit(3, Operand8::Reg(Reg8::A)),
                8,
                "RES 3, A",
                ValueMode::Implied,
            )
        },
    }
}

/// Prefixed page, opcodes 0xA0 to 0xAF.
fn prefixed_a0(op: u8) -> (res: Operation)
    requires
        0xA0 <= op <= 0xAF,
    ensures
        res.describes(decode_prefixed(op as int)),
{
    match op {
        0xA0 => {
            proof {
                reveal_strlit("RES 4, B");
                reveal_strlit("RES ");
                reveal_strlit("4");
                reveal_strlit(", ");
                reveal_strlit("B");
                assert("RES 4, B"@ =~= "RES "@ + "4"@ + ", "@ + "B"@);
            }
            Operation::new(
                Instr::ResBit(4, Operand8::Reg(Reg8::B)),
                8,
                "RES 4, B",
                ValueMode::Implied,
            )
        },
        0xA1 => {
            proof {
                reveal_strlit("RES 4, C");
                reveal_strlit("RES ");
                reveal_strlit("4");
                reveal_strlit(", ");
                reveal_strlit("C");
                assert("RES 4, C"@ =~= "RES "@ + "4"@ + ", "@ + "C"@);
            }
            Operation::new(
                Instr::ResBit(4, Operand8::Reg(Reg8::C)),
                8,
                "RES 4, C",
                ValueMode::Implied,
            )
        },
        0xA2 => {
            proof {
                reveal_strlit("RES 4, D");
                reveal_strlit("RES ");
                reveal_strlit("4");
                reveal_strlit(", ");
                reveal_strlit("D");
                assert("RES 4, D"@ =~= "RES "@ + "4"@ + ", "@ + "D"@);
            }
            Operation::new(
                Instr::ResBit(4, Operand8::Reg(Reg8::D)),
                8,
                "RES 4, D",
                ValueMode::Implied,
            )
        },
        0xA3 => {
            proof {
                reveal_strlit("RES 4, E");
                reveal_strlit("RES ");
                reveal_strlit("4");
                reveal_strlit(", ");
                reveal_strlit("E");
                assert("RES 4, E"@ =~= "RES "@ + "4"@ + ", "@ + "E"@);
            }
            Operation::new(
                Instr::ResBit(4, Operand8::Reg(Reg8::E)),
                8,
                "RES 4, E",
                ValueMode::Implied,
            )
        },
        0xA4 => {
            proof {
                reveal_strlit("RES 4, H");
                reveal_strlit("RES ");
                reveal_strlit("4");
                reveal_strlit(", ");
                reveal_strlit("H");
                assert("RES 4, H"@ =~= "RES "@ + "4"@ + ", "@ + "H"@);
            }
            Operation::new(
                Instr::ResBit(4, Operand8::Reg(Reg8::H)),
                8,
                "RES 4, H",
                ValueMode::Implied,
            )
        },
        0xA5 => {
            proof {
                reveal_strlit("RES 4, L");
                reveal_strlit("RES ");
                reveal_strlit("4");
                reveal_strlit(", ");
                reveal_strlit("L");
                assert("RES 4, L"@ =~= "RES "@ + "4"@ + ", "@ + "L"@);
            }
            Operation::new(
                Instr::ResBit(4, Operand8::Reg(Reg8::L)),
                8,
                "RES 4, L",
                ValueMode::Implied,
            )
        },
        0xA6 => {
            proof {
                reveal_strlit("RES 4, (HL)");
                reveal_strlit("RES ");
                reveal_strlit("4");
                reveal_strlit(", ");
                reveal_strlit("(HL)");
                assert("RES 4, (HL)"@ =~= "RES "@ + "4"@ + ", "@ + "(HL)"@);
            }
            Operation::new(
                Instr::ResBit(4, Operand8::HlInd),
                16,
                "RES 4, (HL)",
                ValueMode::Implied,
            )
        },
        0xA7 => {
            proof {
                reveal_strlit("RES 4, A");
                reveal_strlit("RES ");
                reveal_strlit("4");
                reveal_strlit(", ");
                reveal_strlit("A");
                assert("RES 4, A"@ =~= "RES "@ + "4"@ + ", "@ + "A"@);
            }
            Operation::new(
                Instr::ResBit(4, Operand8::Reg(Reg8::A)),
                8,
                "RES 4, A",
                ValueMode::Implied,
            )
        },
        0xA8 => {
            proof {
                reveal_strlit("RES 5, B");
                reveal_strlit("RES ");
                reveal_strlit("5");
                reveal_strlit(", ");
                reveal_strlit("B");
                assert("RES 5, B"@ =~= "RES "@ + "5"@ + ", "@ + "B"@);
            }
            Operation::new(
                Instr::ResBit(5, Operand8::Reg(Reg8::B)),
                8,
                "RES 5, B",
                ValueMode::Implied,
            )
        },
        0xA9 => {
            proof {
                reveal_strlit("RES 5, C");
                reveal_strlit("RES ");
                reveal_strlit("5");
                reveal_strlit(", ");
                reveal_strlit("C");
                assert("RES 5, C"@ =~= "RES "@ + "5"@ + ", "@ + "C"@);
            }
            Operation::new(
                Instr::ResBit(5, Operand8::Reg(Reg8::C)),
                8,
                "RES 5, C",
                ValueMode::Implied,
            )
        },
        0xAA => {
            proof {
                reveal_strlit("RES 5, D");
                reveal_strlit("RES ");
                reveal_strlit("5");
                reveal_strlit(", ");
                reveal_strlit("D");
                assert("RES 5, D"@ =~= "RES "@ + "5"@ + ", "@ + "D"@);
            }
            Operation::new(
                Instr::ResBit(5, Operand8::Reg(Reg8::D)),
                8,
                "RES 5, D",
                ValueMode::Implied,
            )
        },
        0xAB => {
            proof {
                reveal_strlit("RES 5, E");
                reveal_strlit("RES ");
                reveal_strlit("5");
                reveal_strlit(", ");
                reveal_strlit("E");
                assert("RES 5, E"@ =~= "RES "@ + "5"@ + ", "@ + "E"@);
            }
            Operation::new(
                Instr::ResBit(5, Operand8::Reg(Reg8::E)),
                8,
                "RES 5, E",
                ValueMode::Implied,
            )
        },
        0xAC => {
            proof {
                reveal_strlit("RES 5, H");
                reveal_strlit("RES ");
                reveal_strlit("5");
                reveal_strlit(", ");
                reveal_strlit("H");
                assert("RES 5, H"@ =~= "RES "@ + "5"@ + ", "@ + "H"@);
            }
            Operation::new(
                Instr::ResBit(5, Operand8::Reg(Reg8::H)),
                8,
                "RES 5, H",
                ValueMode::Implied,
            )
        },
        0xAD => {
            proof {
                reveal_strlit("RES 5, L");
                reveal_strlit("RES ");
                reveal_strlit("5");
                reveal_strlit(", ");
                reveal_strlit("L");
                assert("RES 5, L"@ =~= "RES "@ + "5"@ + ", "@ + "L"@);
            }
            Operation::new(
                Instr::ResBit(5, Operand8::Reg(Reg8::L)),
                8,
                "RES 5, L",
                ValueMode::Implied,
            )
        },
        0xAE => {
            proof {
                reveal_strlit("RES 5, (HL)");
                reveal_strlit("RES ");
                reveal_strlit("5");
                reveal_strlit(", ");
                reveal_strlit("(HL)");
                assert("RES 5, (HL)"@ =~= "RES "@ + "5"@ + ", "@ + "(HL)"@);
            }
            Operation::new(
                Instr::ResBit(5, Operand8::HlInd),
                16,
                "RES 5, (HL)",
                ValueMode::Implied,
            )
        },
        _ => {
            proof {
                reveal_strlit("RES 5, A");
                reveal_strlit("RES ");
                reveal_strlit("5");
                reveal_strlit(", ");
                reveal_strlit("A");
                assert("RES 5, A"@ =~= "RES "@ + "5"@ + ", "@ + "A"@);
            }
            Operation::new(
                Instr::ResBit(5, Operand8::Reg(Reg8::A)),
                8,
                "RES 5, A",
                ValueMode::Implied,
            )
        },
    }
}

/// Prefixed page, opcodes 0xB0 to 0xBF.
fn prefixed_b0(op: u8) -> (res: Operation)
    requires
        0xB0 <= op <= 0xBF,
    ensures
        res.describes(decode_prefixed(op as int)),
{
    match op {
        0xB0 => {
            proof {
                reveal_strlit("RES 6, B");
                reveal_strlit("RES ");
                reveal_strlit("6");
                reveal_strlit(", ");
                reveal_strlit("B");
                assert("RES 6, B"@ =~= "RES "@ + "6"@ + ", "@ + "B"@);
            }
            Operation::new(
                Instr::ResBit(6, Operand8::Reg(Reg8::B)),
                8,
                "RES 6, B",
                ValueMode::Implied,
            )
        },
        0xB1 => {
            proof {
                reveal_strlit("RES 6, C");
                reveal_strlit("RES ");
                reveal_strlit("6");
                reveal_strlit(", ");
                reveal_strlit("C");
                assert("RES 6, C"@ =~= "RES "@ + "6"@ + ", "@ + "C"@);
            }
            Operation::new(
                Instr::ResBit(6, Operand8::Reg(Reg8::C)),
                8,
                "RES 6, C",
                ValueMode::Implied,
            )
        },
        0xB2 => {
            proof {
                reveal_strlit("RES 6, D");
                reveal_strlit("RES ");
                reveal_strlit("6");
                reveal_strlit(", ");
                reveal_strlit("D");
                assert("RES 6, D"@ =~= "RES "@ + "6"@ + ", "@ + "D"@);
            }
            Operation::new(
                Instr::ResBit(6, Operand8::Reg(Reg8::D)),
                8,
                "RES 6, D",
                ValueMode::Implied,
            )
        },
        0xB3 => {
            proof {
                reveal_strlit("RES 6, E");
                reveal_strlit("RES ");
                reveal_strlit("6");
                reveal_strlit(", ");
                reveal_strlit("E");
                assert("RES 6, E"@ =~= "RES "@ + "6"@ + ", "@ + "E"@);
            }
            Operation::new(
                Instr::ResBit(6, Operand8::Reg(Reg8::E)),
                8,
                "RES 6, E",
                ValueMode::Implied,
            )
        },
        0xB4 => {
            proof {
                reveal_strlit("RES 6, H");
                reveal_strlit("RES ");
                reveal_strlit("6");
                reveal_strlit(", ");
                reveal_strlit("H");
                assert("RES 6, H"@ =~= "RES "@ + "6"@ + ", "@ + "H"@);
            }
            Operation::new(
                Instr::ResBit(6, Operand8::Reg(Reg8::H)),
                8,
                "RES 6, H",
                ValueMode::Implied,
            )
        },
        0xB5 => {
            proof {
                reveal_strlit("RES 6, L");
                reveal_strlit("RES ");
                reveal_strlit("6");
                reveal_strlit(", ");
                reveal_strlit("L");
                assert("RES 6, L"@ =~= "RES "@ + "6"@ + ", "@ + "L"@);
            }
            Operation::new(
                Instr::ResBit(6, Operand8::Reg(Reg8::L)),
                8,
                "RES 6, L",
                ValueMode::Implied,
            )
        },
        0xB6 => {
            proof {
                reveal_strlit("RES 6, (HL)");
                reveal_strlit("RES ");
                reveal_strlit("6");
                reveal_strlit(", ");
                reveal_strlit("(HL)");
                assert("RES 6, (HL)"@ =~= "RES "@ + "6"@ + ", "@ + "(HL)"@);
            }
            Operation::new(
                Instr::ResBit(6, Operand8::HlInd),
                16,
                "RES 6, (HL)",
                ValueMode::Implied,
            )
        },
        0xB7 => {
            proof {
                reveal_strlit("RES 6, A");
                reveal_strlit("RES ");
                reveal_strlit("6");
                reveal_strlit(", ");
                reveal_strlit("A");
                assert("RES 6, A"@ =~= "RES "@ + "6"@ + ", "@ + "A"@);
            }
            Operation::new(
                Instr::ResBit(6, Operand8::Reg(Reg8::A)),
                8,
                "RES 6, A",
                ValueMode::Implied,
            )
        },
        0xB8 => {
            proof {
                reveal_strlit("RES 7, B");
                reveal_strlit("RES ");
                reveal_strlit("7");
                reveal_strlit(", ");
                reveal_strlit("B");
                assert("RES 7, B"@ =~= "RES "@ + "7"@ + ", "@ + "B"@);
            }
            Operation::new(
                Instr::ResBit(7, Operand8::Reg(Reg8::B)),
                8,
                "RES 7, B",
                ValueMode::Implied,
            )
        },
        0xB9 => {
            proof {
                reveal_strlit("RES 7, C");
                reveal_strlit("RES ");
                reveal_strlit("7");
                reveal_strlit(", ");
                reveal_strlit("C");
                assert("RES 7, C"@ =~= "RES "@ + "7"@ + ", "@ + "C"@);
            }
            Operation::new(
                Instr::ResBit(7, Operand8::Reg(Reg8::C)),
                8,
                "RES 7, C",
                ValueMode::Implied,
            )
        },
        0xBA => {
            proof {
                reveal_strlit("RES 7, D");
                reveal_strlit("RES ");
                reveal_strlit("7");
                reveal_strlit(", ");
                reveal_strlit("D");
                assert("RES 7, D"@ =~= "RES "@ + "7"@ + ", "@ + "D"@);
            }
            Operation::new(
                Instr::ResBit(7, Operand8::Reg(Reg8::D)),
                8,
                "RES 7, D",
                ValueMode::Implied,
            )
        },
        0xBB => {
            proof {
                reveal_strlit("RES 7, E");
                reveal_strlit("RES ");
                reveal_strlit("7");
                reveal_strlit(", ");
                reveal_strlit("E");
                assert("RES 7, E"@ =~= "RES "@ + "7"@ + ", "@ + "E"@);
            }
            Operation::new(
                Instr::ResBit(7, Operand8::Reg(Reg8::E)),
                8,
                "RES 7, E",
                ValueMode::Implied,
            )
        },
        0xBC => {
            proof {
                reveal_strlit("RES 7, H");
                reveal_strlit("RES ");
                reveal_strlit("7");
                reveal_strlit(", ");
                reveal_strlit("H");
                assert("RES 7, H"@ =~= "RES "@ + "7"@ + ", "@ + "H"@);
            }
            Operation::new(
                Instr::ResBit(7, Operand8::Reg(Reg8::H)),
                8,
                "RES 7, H",
                ValueMode::Implied,
            )
        },
        0xBD => {
            proof {
                reveal_strlit("RES 7, L");
                reveal_strlit("RES ");
                reveal_strlit("7");
                reveal_strlit(", ");
                reveal_strlit("L");
                assert("RES 7, L"@ =~= "RES "@ + "7"@ + ", "@ + "L"@);
            }
            Operation::new(
                Instr::ResBit(7, Operand8::Reg(Reg8::L)),
                8,
                "RES 7, L",
                ValueMode::Implied,
            )
        },
        0xBE => {
            proof {
                reveal_strlit("RES 7, (HL)");
                reveal_strlit("RES ");
                reveal_strlit("7");
                reveal_strlit(", ");
                reveal_strlit("(HL)");
                assert("RES 7, (HL)"@ =~= "RES "@ + "7"@ + ", "@ + "(HL)"@);
            }
            Operation::new(
                Instr::ResBit(7, Operand8::HlInd),
                16,
                "RES 7, (HL)",
                ValueMode::Implied,
            )
        },
        _ => {
            proof {
                reveal_strlit("RES 7, A");
                reveal_strlit("RES ");
                reveal_strlit("7");
                reveal_strlit(", ");
                reveal_strlit("A");
                assert("RES 7, A"@ =~= "RES "@ + "7"@ + ", "@ + "A"@);
            }
            Operation::new(
                Instr::ResBit(7, Operand8::Reg(Reg8::A)),
                8,
                "RES 7, A",
                ValueMode::Implied,
            )
        },
    }
}

/// Prefixed page, opcodes 0xC0 to 0xCF.
fn prefixed_c0(op: u8) -> (res: Operation)
    requires
        0xC0 <= op <= 0xCF,
    ensures
        res.describes(decode_prefixed(op as int)),
{
    match op {
        0xC0 => {
            proof {
                reveal_strlit("SET 0, B");
                reveal_strlit("SET ");
                reveal_strlit("0");
                reveal_strlit(", ");
                reveal_strlit("B");
                assert("SET 0, B"@ =~= "SET "@ + "0"@ + ", "@ + "B"@);
            }
            Operation::new(
                Instr::SetBit(0, Operand8::Reg(Reg8::B)),
                8,
                "SET 0, B",
                ValueMode::Implied,
            )
        },
        0xC1 => {
            proof {
                reveal_strlit("SET 0, C");
                reveal_strlit("SET ");
                reveal_strlit("0");
                reveal_strlit(", ");
                reveal_strlit("C");
                assert("SET 0, C"@ =~= "SET "@ + "0"@ + ", "@ + "C"@);
            }
            Operation::new(
                Instr::SetBit(0, Operand8::Reg(Reg8::C)),
                8,
                "SET 0, C",
                ValueMode::Implied,
            )
        },
        0xC2 => {
            proof {
                reveal_strlit("SET 0, D");
                reveal_strlit("SET ");
                reveal_strlit("0");
                reveal_strlit(", ");
                reveal_strlit("D");
                assert("SET 0, D"@ =~= "SET "@ + "0"@ + ", "@ + "D"@);
            }
            Operation::new(
                Instr::SetBit(0, Operand8::Reg(Reg8::D)),
                8,
                "SET 0, D",
                ValueMode::Implied,
            )
        },
        0xC3 => {
            proof {
                reveal_strlit("SET 0, E");
                reveal_strlit("SET ");
                reveal_strlit("0");
                reveal_strlit(", ");
                reveal_strlit("E");
                assert("SET 0, E"@ =~= "SET "@ + "0"@ + ", "@ + "E"@);
            }
            Operation::new(
                Instr::SetBit(0, Operand8::Reg(Reg8::E)),
                8,
                "SET 0, E",
                ValueMode::Implied,
            )
        },
        0xC4 => {
            proof {
                reveal_strlit("SET 0, H");
                reveal_strlit("SET ");
                reveal_strlit("0");
                reveal_strlit(", ");
                reveal_strlit("H");
                assert("SET 0, H"@ =~= "SET "@ + "0"@ + ", "@ + "H"@);
            }
            Operation::new(
                Instr::SetBit(0, Operand8::Reg(Reg8::H)),
                8,
                "SET 0, H",
                ValueMode::Implied,
            )
        },
        0xC5 => {
            proof {
                reveal_strlit("SET 0, L");
                reveal_strlit("SET ");
                reveal_strlit("0");
                reveal_strlit(", ");
                reveal_strlit("L");
                assert("SET 0, L"@ =~= "SET "@ + "0"@ + ", "@ + "L"@);
            }
            Operation::new(
                Instr::SetBit(0, Operand8::Reg(Reg8::L)),
                8,
                "SET 0, L",
                ValueMode::Implied,
            )
        },
        0xC6 => {
            proof {
                reveal_strlit("SET 0, (HL)");
                reveal_strlit("SET ");
                reveal_strlit("0");
                reveal_strlit(", ");
                reveal_strlit("(HL)");
                assert("SET 0, (HL)"@ =~= "SET "@ + "0"@ + ", "@ + "(HL)"@);
            }
            Operation::new(
                Instr::SetBit(0, Operand8::HlInd),
                16,
                "SET 0, (HL)",
                ValueMode::Implied,
            )
        },
        0xC7 => {
            proof {
                reveal_strlit("SET 0, A");
                reveal_strlit("SET ");
                reveal_strlit("0");
                reveal_strlit(", ");
                reveal_strlit("A");
                assert("SET 0, A"@ =~= "SET "@ + "0"@ + ", "@ + "A"@);
            }
            Operation::new(
                Instr::SetBit(0, Operand8::Reg(Reg8::A)),
                8,
                "SET 0, A",
                ValueMode::Implied,
            )
        },
        0xC8 => {
            proof {
                reveal_strlit("SET 1, B");
                reveal_strlit("SET ");
                reveal_strlit("1");
                reveal_strlit(", ");
                reveal_strlit("B");
                assert("SET 1, B"@ =~= "SET "@ + "1"@ + ", "@ + "B"@);
            }
            Operation::new(
                Instr::SetBit(1, Operand8::Reg(Reg8::B)),
                8,
                "SET 1, B",
                ValueMode::Implied,
            )
        },
        0xC9 => {
            proof {
                reveal_strlit("SET 1, C");
                reveal_strlit("SET ");
                reveal_strlit("1");
                reveal_strlit(", ");
                reveal_strlit("C");
                assert("SET 1, C"@ =~= "SET "@ + "1"@ + ", "@ + "C"@);
            }
            Operation::new(
                Instr::SetBit(1, Operand8::Reg(Reg8::C)),
                8,
                "SET 1, C",
                ValueMode::Implied,
            )
        },
        0xCA => {
            proof {
                reveal_strlit("SET 1, D");
                reveal_strlit("SET ");
                reveal_strlit("1");
                reveal_strlit(", ");
                reveal_strlit("D");
                assert("SET 1, D"@ =~= "SET "@ + "1"@ + ", "@ + "D"@);
            }
            Operation::new(
                Instr::SetBit(1, Operand8::Reg(Reg8::D)),
                8,
                "SET 1, D",
                ValueMode::Implied,
            )
        },
        0xCB => {
            proof {
                reveal_strlit("SET 1, E");
                reveal_strlit("SET ");
                reveal_strlit("1");
                reveal_strlit(", ");
                reveal_strlit("E");
                assert("SET 1, E"@ =~= "SET "@ + "1"@ + ", "@ + "E"@);
            }
            Operation::new(
                Instr::SetBit(1, Operand8::Reg(Reg8::E)),
                8,
                "SET 1, E",
                ValueMode::Implied,
            )
        },
        0xCC => {
            proof {
                reveal_strlit("SET 1, H");
                reveal_strlit("SET ");
                reveal_strlit("1");
                reveal_strlit(", ");
                reveal_strlit("H");
                assert("SET 1, H"@ =~= "SET "@ + "1"@ + ", "@ + "H"@);
            }
            Operation::new(
                Instr::SetBit(1, Operand8::Reg(Reg8::H)),
                8,
                "SET 1, H",
                ValueMode::Implied,
            )
        },
        0xCD => {
            proof {
                reveal_strlit("SET 1, L");
                reveal_strlit("SET ");
                reveal_strlit("1");
                reveal_strlit(", ");
                reveal_strlit("L");
                assert("SET 1, L"@ =~= "SET "@ + "1"@ + ", "@ + "L"@);
            }
            Operation::new(
                Instr::SetBit(1, Operand8::Reg(Reg8::L)),
                8,
                "SET 1, L",
                ValueMode::Implied,
            )
        },
        0xCE => {
            proof {
                reveal_strlit("SET 1, (HL)");
                reveal_strlit("SET ");
                reveal_strlit("1");
                reveal_strlit(", ");
                reveal_strlit("(HL)");
                assert("SET 1, (HL)"@ =~= "SET "@ + "1"@ + ", "@ + "(HL)"@);
            }
            Operation::new(
                Instr::SetBit(1, Operand8::HlInd),
                16,
                "SET 1, (HL)",
                ValueMode::Implied,
            )
        },
        _ => {
            proof {
                reveal_strlit("SET 1, A");
                reveal_strlit("SET ");
                reveal_strlit("1");
                reveal_strlit(", ");
                reveal_strlit("A");
                assert("SET 1, A"@ =~= "SET "@ + "1"@ + ", "@ + "A"@);
            }
            Operation::new(
                Instr::SetBit(1, Operand8::Reg(Reg8::A)),
                8,
                "SET 1, A",
                ValueMode::Implied,
            )
        },
    }
}

/// Prefixed page, opcodes 0xD0 to 0xDF.
fn prefixed_d0(op: u8) -> (res: Operation)
    requires
        0xD0 <= op <= 0xDF,
    ensures
        res.describes(decode_prefixed(op as int)),
{
    match op {
        0xD0 => {
            proof {
                reveal_strlit("SET 2, B");
                reveal_strlit("SET ");
                reveal_strlit("2");
                reveal_strlit(", ");
                reveal_strlit("B");
                assert("SET 2, B"@ =~= "SET "@ + "2"@ + ", "@ + "B"@);
            }
            Operation::new(
                Instr::SetBit(2, Operand8::Reg(Reg8::B)),
                8,
                "SET 2, B",
                ValueMode::Implied,
            )
        },
        0xD1 => {
            proof {
                reveal_strlit("SET 2, C");
                reveal_strlit("SET ");
                reveal_strlit("2");
                reveal_strlit(", ");
                reveal_strlit("C");
                assert("SET 2, C"@ =~= "SET "@ + "2"@ + ", "@ + "C"@);
            }
            Operation::new(
                Instr::SetBit(2, Operand8::Reg(Reg8::C)),
                8,
                "SET 2, C",
                ValueMode::Implied,
            )
        },
        0xD2 => {
            proof {
                reveal_strlit("SET 2, D");
                reveal_strlit("SET ");
                reveal_strlit("2");
                reveal_strlit(", ");
                reveal_strlit("D");
                assert("SET 2, D"@ =~= "SET "@ + "2"@ + ", "@ + "D"@);
            }
            Operation::new(
                Instr::SetBit(2, Operand8::Reg(Reg8::D)),
                8,
                "SET 2, D",
                ValueMode::Implied,
            )
        },
        0xD3 => {
            proof {
                reveal_strlit("SET 2, E");
                reveal_strlit("SET ");
                reveal_strlit("2");
                reveal_strlit(", ");
                reveal_strlit("E");
                assert("SET 2, E"@ =~= "SET "@ + "2"@ + ", "@ + "E"@);
            }
            Operation::new(
                Instr::SetBit(2, Operand8::Reg(Reg8::E)),
                8,
                "SET 2, E",
                ValueMode::Implied,
            )
        },
        0xD4 => {
            proof {
                reveal_strlit("SET 2, H");
                reveal_strlit("SET ");
                reveal_strlit("2");
                reveal_strlit(", ");
                reveal_strlit("H");
                assert("SET 2, H"@ =~= "SET "@ + "2"@ + ", "@ + "H"@);
            }
            Operation::new(
                Instr::SetBit(2, Operand8::Reg(Reg8::H)),
                8,
                "SET 2, H",
                ValueMode::Implied,
            )
        },
        0xD5 => {
            proof {
                reveal_strlit("SET 2, L");
                reveal_strlit("SET ");
                reveal_strlit("2");
                reveal_strlit(", ");
                reveal_strlit("L");
                assert("SET 2, L"@ =~= "SET "@ + "2"@ + ", "@ + "L"@);
            }
            Operation::new(
                Instr::SetBit(2, Operand8::Reg(Reg8::L)),
                8,
                "SET 2, L",
                ValueMode::Implied,
            )
        },
        0xD6 => {
            proof {
                reveal_strlit("SET 2, (HL)");
                reveal_strlit("SET ");
                reveal_strlit("2");
                reveal_strlit(", ");
                reveal_strlit("(HL)");
                assert("SET 2, (HL)"@ =~= "SET "@ + "2"@ + ", "@ + "(HL)"@);
            }
            Operation::new(
                Instr::SetBit(2, Operand8::HlInd),
                16,
                "SET 2, (HL)",
                ValueMode::Implied,
            )
        },
        0xD7 => {
            proof {
                reveal_strlit("SET 2, A");
                reveal_strlit("SET ");
                reveal_strlit("2");
                reveal_strlit(", ");
                reveal_strlit("A");
                assert("SET 2, A"@ =~= "SET "@ + "2"@ + ", "@ + "A"@);
            }
            Operation::new(
                Instr::SetBit(2, Operand8::Reg(Reg8::A)),
                8,
                "SET 2, A",
                ValueMode::Implied,
            )
        },
        0xD8 => {
            proof {
                reveal_strlit("SET 3, B");
                reveal_strlit("SET ");
                reveal_strlit("3");
                reveal_strlit(", ");
                reveal_strlit("B");
                assert("SET 3, B"@ =~= "SET "@ + "3"@ + ", "@ + "B"@);
            }
            Operation::new(
                Instr::SetBit(3, Operand8::Reg(Reg8::B)),
                8,
                "SET 3, B",
                ValueMode::Implied,
            )
        },
        0xD9 => {
            proof {
                reveal_strlit("SET 3, C");
                reveal_strlit("SET ");
                reveal_strlit("3");
                reveal_strlit(", ");
                reveal_strlit("C");
                assert("SET 3, C"@ =~= "SET "@ + "3"@ + ", "@ + "C"@);
            }
            Operation::new(
                Instr::SetBit(3, Operand8::Reg(Reg8::C)),
                8,
                "SET 3, C",
                ValueMode::Implied,
            )
        },
        0xDA => {
            proof {
                reveal_strlit("SET 3, D");
                reveal_strlit("SET ");
                reveal_strlit("3");
                reveal_strlit(", ");
                reveal_strlit("D");
                assert("SET 3, D"@ =~= "SET "@ + "3"@ + ", "@ + "D"@);
            }
            Operation::new(
                Instr::SetBit(3, Operand8::Reg(Reg8::D)),
                8,
                "SET 3, D",
                ValueMode::Implied,
            )
        },
        0xDB => {
            proof {
                reveal_strlit("SET 3, E");
                reveal_strlit("SET ");
                reveal_strlit("3");
                reveal_strlit(", ");
                reveal_strlit("E");
                assert("SET 3, E"@ =~= "SET "@ + "3"@ + ", "@ + "E"@);
            }
            Operation::new(
                Instr::SetBit(3, Operand8::Reg(Reg8::E)),
                8,
                "SET 3, E",
                ValueMode::Implied,
            )
        },
        0xDC => {
            proof {
                reveal_strlit("SET 3, H");
                reveal_strlit("SET ");
                reveal_strlit("3");
                reveal_strlit(", ");
                reveal_strlit("H");
                assert("SET 3, H"@ =~= "SET "@ + "3"@ + ", "@ + "H"@);
            }
            Operation::new(
                Instr::SetBit(3, Operand8::Reg(Reg8::H)),
                8,
                "SET 3, H",
                ValueMode::Implied,
            )
        },
        0xDD => {
            proof {
                reveal_strlit("SET 3, L");
                reveal_strlit("SET ");
                reveal_strlit("3");
                reveal_strlit(", ");
                reveal_strlit("L");
                assert("SET 3, L"@ =~= "SET "@ + "3"@ + ", "@ + "L"@);
            }
            Operation::new(
                Instr::SetBit(3, Operand8::Reg(Reg8::L)),
                8,
                "SET 3, L",
                ValueMode::Implied,
            )
        },
        0xDE => {
            proof {
                reveal_strlit("SET 3, (HL)");
                reveal_strlit("SET ");
                reveal_strlit("3");
                reveal_strlit(", ");
                reveal_strlit("(HL)");
                assert("SET 3, (HL)"@ =~= "SET "@ + "3"@ + ", "@ + "(HL)"@);
            }
            Operation::new(
                Instr::SetBit(3, Operand8::HlInd),
                16,
                "SET 3, (HL)",
                ValueMode::Implied,
            )
        },
        _ => {
            proof {
                reveal_strlit("SET 3, A");
                reveal_strlit("SET ");
                reveal_strlit("3");
                reveal_strlit(", ");
                reveal_strlit("A");
                assert("SET 3, A"@ =~= "SET "@ + "3"@ + ", "@ + "A"@);
            }
            Operation::new(
                Instr::SetBit(3, Operand8::Reg(Reg8::A)),
                8,
                "SET 3, A",
                ValueMode::Implied,
            )
        },
    }
}

/// Prefixed page, opcodes 0xE0 to 0xEF.
fn prefixed_e0(op: u8) -> (res: Operation)
    requires
        0xE0 <= op <= 0xEF,
    ensures
        res.describes(decode_prefixed(op as int)),
{
    match op {
        0xE0 => {
            proof {
                reveal_strlit("SET 4, B");
                reveal_strlit("SET ");
                reveal_strlit("4");
                reveal_strlit(", ");
                reveal_strlit("B");
                assert("SET 4, B"@ =~= "SET "@ + "4"@ + ", "@ + "B"@);
            }
            Operation::new(
                Instr::SetBit(4, Operand8::Reg(Reg8::B)),
                8,
                "SET 4, B",
                ValueMode::Implied,
            )
        },
        0xE1 => {
            proof {
                reveal_strlit("SET 4, C");
                reveal_strlit("SET ");
                reveal_strlit("4");
                reveal_strlit(", ");
                reveal_strlit("C");
                assert("SET 4, C"@ =~= "SET "@ + "4"@ + ", "@ + "C"@);
            }
            Operation::new(
                Instr::SetBit(4, Operand8::Reg(Reg8::C)),
                8,
                "SET 4, C",
                ValueMode::Implied,
            )
        },
        0xE2 => {
            proof {
                reveal_strlit("SET 4, D");
                reveal_strlit("SET ");
                reveal_strlit("4");
                reveal_strlit(", ");
                reveal_strlit("D");
                assert("SET 4, D"@ =~= "SET "@ + "4"@ + ", "@ + "D"@);
            }
            Operation::new(
                Instr::SetBit(4, Operand8::Reg(Reg8::D)),
                8,
                "SET 4, D",
                ValueMode::Implied,
            )
        },
        0xE3 => {
            proof {
                reveal_strlit("SET 4, E");
                reveal_strlit("SET ");
                reveal_strlit("4");
                reveal_strlit(", ");
                reveal_strlit("E");
                assert("SET 4, E"@ =~= "SET "@ + "4"@ + ", "@ + "E"@);
            }
            Operation::new(
                Instr::SetBit(4, Operand8::Reg(Reg8::E)),
                8,
                "SET 4, E",
                ValueMode::Implied,
            )
        },
        0xE4 => {
            proof {
                reveal_strlit("SET 4, H");
                reveal_strlit("SET ");
                reveal_strlit("4");
                reveal_strlit(", ");
                reveal_strlit("H");
                assert("SET 4, H"@ =~= "SET "@ + "4"@ + ", "@ + "H"@);
            }
            Operation::new(
                Instr::SetBit(4, Operand8::Reg(Reg8::H)),
                8,
                "SET 4, H",
                ValueMode::Implied,
            )
        },
        0xE5 => {
            proof {
                reveal_strlit("SET 4, L");
                reveal_strlit("SET ");
                reveal_strlit("4");
                reveal_strlit(", ");
                reveal_strlit("L");
                assert("SET 4, L"@ =~= "SET "@ + "4"@ + ", "@ + "L"@);
            }
            Operation::new(
                Instr::SetBit(4, Operand8::Reg(Reg8::L)),
                8,
                "SET 4, L",
                ValueMode::Implied,
            )
        },
        0xE6 => {
            proof {
                reveal_strlit("SET 4, (HL)");
                reveal_strlit("SET ");
                reveal_strlit("4");
                reveal_strlit(", ");
                reveal_strlit("(HL)");
                assert("SET 4, (HL)"@ =~= "SET "@ + "4"@ + ", "@ + "(HL)"@);
            }
            Operation::new(
                Instr::SetBit(4, Operand8::HlInd),
                16,
                "SET 4, (HL)",
                ValueMode::Implied,
            )
        },
        0xE7 => {
            proof {
                reveal_strlit("SET 4, A");
                reveal_strlit("SET ");
                reveal_strlit("4");
                reveal_strlit(", ");
                reveal_strlit("A");
                assert("SET 4, A"@ =~= "SET "@ + "4"@ + ", "@ + "A"@);
            }
            Operation::new(
                Instr::SetBit(4, Operand8::Reg(Reg8::A)),
                8,
                "SET 4, A",
                ValueMode::Implied,
            )
        },
        0xE8 => {
            proof {
                reveal_strlit("SET 5, B");
                reveal_strlit("SET ");
                reveal_strlit("5");
                reveal_strlit(", ");
                reveal_strlit("B");
                assert("SET 5, B"@ =~= "SET "@ + "5"@ + ", "@ + "B"@);
            }
            Operation::new(
                Instr::SetBit(5, Operand8::Reg(Reg8::B)),
                8,
                "SET 5, B",
                ValueMode::Implied,
            )
        },
        0xE9 => {
            proof {
                reveal_strlit("SET 5, C");
                reveal_strlit("SET ");
                reveal_strlit("5");
                reveal_strlit(", ");
                reveal_strlit("C");
                assert("SET 5, C"@ =~= "SET "@ + "5"@ + ", "@ + "C"@);
            }
            Operation::new(
                Instr::SetBit(5, Operand8::Reg(Reg8::C)),
                8,
                "SET 5, C",
                ValueMode::Implied,
            )
        },
        0xEA => {
            proof {
                reveal_strlit("SET 5, D");
                reveal_strlit("SET ");
                reveal_strlit("5");
                reveal_strlit(", ");
                reveal_strlit("D");
                assert("SET 5, D"@ =~= "SET "@ + "5"@ + ", "@ + "D"@);
            }
            Operation::new(
                Instr::SetBit(5, Operand8::Reg(Reg8::D)),
                8,
                "SET 5, D",
                ValueMode::Implied,
            )
        },
        0xEB => {
            proof {
                reveal_strlit("SET 5, E");
                reveal_strlit("SET ");
                reveal_strlit("5");
                reveal_strlit(", ");
                reveal_strlit("E");
                assert("SET 5, E"@ =~= "SET "@ + "5"@ + ", "@ + "E"@);
            }
            Operation::new(
                Instr::SetBit(5, Operand8::Reg(Reg8::E)),
                8,
                "SET 5, E",
                ValueMode::Implied,
            )
        },
        0xEC => {
            proof {
                reveal_strlit("SET 5, H");
                reveal_strlit("SET ");
                reveal_strlit("5");
                reveal_strlit(", ");
                reveal_strlit("H");
                assert("SET 5, H"@ =~= "SET "@ + "5"@ + ", "@ + "H"@);
            }
            Operation::new(
                Instr::SetBit(5, Operand8::Reg(Reg8::H)),
                8,
                "SET 5, H",
                ValueMode::Implied,
            )
        },
        0xED => {
            proof {
                reveal_strlit("SET 5, L");
                reveal_strlit("SET ");
                reveal_strlit("5");
                reveal_strlit(", ");
                reveal_strlit("L");
                assert("SET 5, L"@ =~= "SET "@ + "5"@ + ", "@ + "L"@);
            }
            Operation::new(
                Instr::SetBit(5, Operand8::Reg(Reg8::L)),
                8,
                "SET 5, L",
                ValueMode::Implied,
            )
        },
        0xEE => {
            proof {
                reveal_strlit("SET 5, (HL)");
                reveal_strlit("SET ");
                reveal_strlit("5");
                reveal_strlit(", ");
                reveal_strlit("(HL)");
                assert("SET 5, (HL)"@ =~= "SET "@ + "5"@ + ", "@ + "(HL)"@);
            }
            Operation::new(
                Instr::SetBit(5, Operand8::HlInd),
                16,
                "SET 5, (HL)",
                ValueMode::Implied,
            )
        },
        _ => {
            proof {
                reveal_strlit("SET 5, A");
                reveal_strlit("SET ");
                reveal_strlit("5");
                reveal_strlit(", ");
                reveal_strlit("A");
                assert("SET 5, A"@ =~= "SET "@ + "5"@ + ", "@ + "A"@);
            }
            Operation::new(
                Instr::SetBit(5, Operand8::Reg(Reg8::A)),
                8,
                "SET 5, A",
                ValueMode::Implied,
            )
        },
    }
}

/// Prefixed page, opcodes 0xF0 to 0xFF.
fn prefixed_f0(op: u8) -> (res: Operation)
    requires
        0xF0 <= op <= 0xFF,
    ensures
        res.describes(decode_prefixed(op as int)),
{
    match op {
        0xF0 => {
            proof {
                reveal_strlit("SET 6, B");
                reveal_strlit("SET ");
                reveal_strlit("6");
                reveal_strlit(", ");
                reveal_strlit("B");
                assert("SET 6, B"@ =~= "SET "@ + "6"@ + ", "@ + "B"@);
            }
            Operation::new(
                Instr::SetBit(6, Operand8::Reg(Reg8::B)),
                8,
                "SET 6, B",
                ValueMode::Implied,
            )
        },
        0xF1 => {
            proof {
                reveal_strlit("SET 6, C");
                reveal_strlit("SET ");
                reveal_strlit("6");
                reveal_strlit(", ");
                reveal_strlit("C");
                assert("SET 6, C"@ =~= "SET "@ + "6"@ + ", "@ + "C"@);
            }
            Operation::new(
                Instr::SetBit(6, Operand8::Reg(Reg8::C)),
                8,
                "SET 6, C",
                ValueMode::Implied,
            )
        },
        0xF2 => {
            proof {
                reveal_strlit("SET 6, D");
                reveal_strlit("SET ");
                reveal_strlit("6");
                reveal_strlit(", ");
                reveal_strlit("D");
                assert("SET 6, D"@ =~= "SET "@ + "6"@ + ", "@ + "D"@);
            }
            Operation::new(
                Instr::SetBit(6, Operand8::Reg(Reg8::D)),
                8,
                "SET 6, D",
                ValueMode::Implied,
            )
        },
        0xF3 => {
            proof {
                reveal_strlit("SET 6, E");
                reveal_strlit("SET ");
                reveal_strlit("6");
                reveal_strlit(", ");
                reveal_strlit("E");
                assert("SET 6, E"@ =~= "SET "@ + "6"@ + ", "@ + "E"@);
            }
            Operation::new(
                Instr::SetBit(6, Operand8::Reg(Reg8::E)),
                8,
                "SET 6, E",
                ValueMode::Implied,
            )
        },
        0xF4 => {
            proof {
                reveal_strlit("SET 6, H");
                reveal_strlit("SET ");
                reveal_strlit("6");
                reveal_strlit(", ");
                reveal_strlit("H");
                assert("SET 6, H"@ =~= "SET "@ + "6"@ + ", "@ + "H"@);
            }
            Operation::new(
                Instr::SetBit(6, Operand8::Reg(Reg8::H)),
                8,
                "SET 6, H",
                ValueMode::Implied,
            )
        },
        0xF5 => {
            proof {
                reveal_strlit("SET 6, L");
                reveal_strlit("SET ");
                reveal_strlit("6");
                reveal_strlit(", ");
                reveal_strlit("L");
                assert("SET 6, L"@ =~= "SET "@ + "6"@ + ", "@ + "L"@);
            }
            Operation::new(
                Instr::SetBit(6, Operand8::Reg(Reg8::L)),
                8,
                "SET 6, L",
                ValueMode::Implied,
            )
        },
        0xF6 => {
            proof {
                reveal_strlit("SET 6, (HL)");
                reveal_strlit("SET ");
                reveal_strlit("6");
                reveal_strlit(", ");
                reveal_strlit("(HL)");
                assert("SET 6, (HL)"@ =~= "SET "@ + "6"@ + ", "@ + "(HL)"@);
            }
            Operation::new(
                Instr::SetBit(6, Operand8::HlInd),
                16,
                "SET 6, (HL)",
                ValueMode::Implied,
            )
        },
        0xF7 => {
            proof {
                reveal_strlit("SET 6, A");
                reveal_strlit("SET ");
                reveal_strlit("6");
                reveal_strlit(", ");
                reveal_strlit("A");
                assert("SET 6, A"@ =~= "SET "@ + "6"@ + ", "@ + "A"@);
            }
            Operation::new(
                Instr::SetBit(6, Operand8::Reg(Reg8::A)),
                8,
                "SET 6, A",
                ValueMode::Implied,
            )
        },
        0xF8 => {
            proof {
                reveal_strlit("SET 7, B");
                reveal_strlit("SET ");
                reveal_strlit("7");
                reveal_strlit(", ");
                reveal_strlit("B");
                assert("SET 7, B"@ =~= "SET "@ + "7"@ + ", "@ + "B"@);
            }
            Operation::new(
                Instr::SetBit(7, Operand8::Reg(Reg8::B)),
                8,
                "SET 7, B",
                ValueMode::Implied,
            )
        },
        0xF9 => {
            proof {
                reveal_strlit("SET 7, C");
                reveal_strlit("SET ");
                reveal_strlit("7");
                reveal_strlit(", ");
                reveal_strlit("C");
                assert("SET 7, C"@ =~= "SET "@ + "7"@ + ", "@ + "C"@);
            }
            Operation::new(
                Instr::SetBit(7, Operand8::Reg(Reg8::C)),
                8,
                "SET 7, C",
                ValueMode::Implied,
            )
        },
        0xFA => {
            proof {
                reveal_strlit("SET 7, D");
                reveal_strlit("SET ");
                reveal_strlit("7");
                reveal_strlit(", ");
                reveal_strlit("D");
                assert("SET 7, D"@ =~= "SET "@ + "7"@ + ", "@ + "D"@);
            }
            Operation::new(
                Instr::SetBit(7, Operand8::Reg(Reg8::D)),
                8,
                "SET 7, D",
                ValueMode::Implied,
            )
        },
        0xFB => {
            proof {
                reveal_strlit("SET 7, E");
                reveal_strlit("SET ");
                reveal_strlit("7");
                reveal_strlit(", ");
                reveal_strlit("E");
                assert("SET 7, E"@ =~= "SET "@ + "7"@ + ", "@ + "E"@);
            }
            Operation::new(
                Instr::SetBit(7, Operand8::Reg(Reg8::E)),
                8,
                "SET 7, E",
                ValueMode::Implied,
            )
        },
        0xFC => {
            proof {
                reveal_strlit("SET 7, H");
                reveal_strlit("SET ");
                reveal_strlit("7");
                reveal_strlit(", ");
                reveal_strlit("H");
                assert("SET 7, H"@ =~= "SET "@ + "7"@ + ", "@ + "H"@);
            }
            Operation::new(
                Instr::SetBit(7, Operand8::Reg(Reg8::H)),
                8,
                "SET 7, H",
                ValueMode::Implied,
            )
        },
        0xFD => {
            proof {
                reveal_strlit("SET 7, L");
                reveal_strlit("SET ");
                reveal_strlit("7");
                reveal_strlit(", ");
                reveal_strlit("L");
                assert("SET 7, L"@ =~= "SET "@ + "7"@ + ", "@ + "L"@);
            }
            Operation::new(
                Instr::SetBit(7, Operand8::Reg(Reg8::L)),
                8,
                "SET 7, L",
                ValueMode::Implied,
            )
        },
        0xFE => {
            proof {
                reveal_strlit("SET 7, (HL)");
                reveal_strlit("SET ");
                reveal_strlit("7");
                reveal_strlit(", ");
                reveal_strlit("(HL)");
                assert("SET 7, (HL)"@ =~= "SET "@ + "7"@ + ", "@ + "(HL)"@);
            }
            Operation::new(
                Instr::SetBit(7, Operand8::HlInd),
                16,
                "SET 7, (HL)",
                ValueMode::Implied,
            )
        },
        _ => {
            proof {
                reveal_strlit("SET 7, A");
                reveal_strlit("SET ");
                reveal_strlit("7");
                reveal_strlit(", ");
                reveal_strlit("A");
                assert("SET 7, A"@ =~= "SET "@ + "7"@ + ", "@ + "A"@);
            }
            Operation::new(
                Instr::SetBit(7, Operand8::Reg(Reg8::A)),
                8,
                "SET 7, A",
                ValueMode::Implied,
            )
        },
    }
}

/// The descriptor of the base-page opcode `op`, where it names an
/// instruction.
pub fn base_page(op: u8) -> (res: Option<Operation>)
    ensures
        match decode_base(op as int) {
            Some(instr) => res is Some && res->Some_0.describes(instr),
            None => res is None,
        },
{
    if op < 0x10 {
        base_00(op)
    } else if op < 0x20 {
        base_10(op)
    } else if op < 0x30 {
        base_20(op)
    } else if op < 0x40 {
        base_30(op)
    } else if op < 0x50 {
        base_40(op)
    } else if op < 0x60 {
        base_50(op)
    } else if op < 0x70 {
        base_60(op)
    } else if op < 0x80 {
        base_70(op)
    } else if op < 0x90 {
        base_80(op)
    } else if op < 0xA0 {
        base_90(op)
    } else if op < 0xB0 {
        base_a0(op)
    } else if op < 0xC0 {
        base_b0(op)
    } else if op < 0xD0 {
        base_c0(op)
    } else if op < 0xE0 {
        base_d0(op)
    } else if op < 0xF0 {
        base_e0(op)
    } else {
        base_f0(op)
    }
}

/// The descriptor of the prefixed-page opcode `op`.
pub fn prefixed_page(op: u8) -> (res: Operation)
    ensures
        res.describes(decode_prefixed(op as int)),
{
    if op < 0x10 {
        prefixed_00(op)
    } else if op < 0x20 {
        prefixed_10(op)
    } else if op < 0x30 {
        prefixed_20(op)
    } else if op < 0x40 {
        prefixed_30(op)
    } else if op < 0x50 {
        prefixed_40(op)
    } else if op < 0x60 {
        prefixed_50(op)
    } else if op < 0x70 {
        prefixed_60(op)
    } else if op < 0x80 {
        prefixed_70(op)
    } else if op < 0x90 {
        prefixed_80(op)
    } else if op < 0xA0 {
        prefixed_90(op)
    } else if op < 0xB0 {
        prefixed_a0(op)
    } else if op < 0xC0 {
        prefixed_b0(op)
    } else if op < 0xD0 {
        prefixed_c0(op)
    } else if op < 0xE0 {
        prefixed_d0(op)
    } else if op < 0xF0 {
        prefixed_e0(op)
    } else {
        prefixed_f0(op)
    }
}

} // verus!
