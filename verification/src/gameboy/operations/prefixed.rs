//! The instructions of the page behind the prefix 0xCB, one function for
//! each opcode. The function `cbxNN` does what the opcode 0xNN of that page
//! does once prefix and opcode have been fetched.

#![allow(non_snake_case)]

use vstd::prelude::*;
use crate::gameboy::cpu::Cpu;
use crate::gameboy::mmu::Mmu;
use crate::gameboy::operations::alu::{
    bit_x_n, cb_res, cb_rr, cb_set, rl_n, rlc_n, rrc_n, sla_n, sra_n, srl, swap,
};
use crate::gameboy::operations::semantics::{state, Machine};
use crate::gameboy::operations::{Operand8, Reg8, RotOp};

verus! {

/// `RLC B`.
pub fn cbx00(cpu: &mut Cpu, mmu: &mut Mmu)
    ensures
        state(final(cpu), final(mmu)) == state(old(cpu), old(mmu)).rot(
            RotOp::Rlc,
            Operand8::Reg(Reg8::B),
        ),
        final(mmu)@.timing() == old(mmu)@.timing(),
{
    proof {
        reveal(Machine::rot);
    }
    rlc_n(&mut cpu.regs.b, &mut cpu.regs.flags);
}

/// `RLC C`.
pub fn cbx01(cpu: &mut Cpu, mmu: &mut Mmu)
    ensures
        state(final(cpu), final(mmu)) == state(old(cpu), old(mmu)).rot(
            RotOp::Rlc,
            Operand8::Reg(Reg8::C),
        ),
        final(mmu)@.timing() == old(mmu)@.timing(),
{
    proof {
        reveal(Machine::rot);
    }
    rlc_n(&mut cpu.regs.c, &mut cpu.regs.flags);
}

/// `RLC D`.
pub fn cbx02(cpu: &mut Cpu, mmu: &mut Mmu)
    ensures
        state(final(cpu), final(mmu)) == state(old(cpu), old(mmu)).rot(
            RotOp::Rlc,
            Operand8::Reg(Reg8::D),
        ),
        final(mmu)@.timing() == old(mmu)@.timing(),
{
    proof {
        reveal(Machine::rot);
    }
    rlc_n(&mut cpu.regs.d, &mut cpu.regs.flags);
}

/// `RLC E`.
pub fn cbx03(cpu: &mut Cpu, mmu: &mut Mmu)
    ensures
        state(final(cpu), final(mmu)) == state(old(cpu), old(mmu)).rot(
            RotOp::Rlc,
            Operand8::Reg(Reg8::E),
        ),
        final(mmu)@.timing() == old(mmu)@.timing(),
{
    proof {
        reveal(Machine::rot);
    }
    rlc_n(&mut cpu.regs.e, &mut cpu.regs.flags);
}

/// `RLC H`.
pub fn cbx04(cpu: &mut Cpu, mmu: &mut Mmu)
    ensures
        state(final(cpu), final(mmu)) == state(old(cpu), old(mmu)).rot(
            RotOp::Rlc,
            Operand8::Reg(Reg8::H),
        ),
        final(mmu)@.timing() == old(mmu)@.timing(),
{
    proof {
        reveal(Machine::rot);
    }
    rlc_n(&mut cpu.regs.h, &mut cpu.regs.flags);
}

/// `RLC L`.
pub fn cbx05(cpu: &mut Cpu, mmu: &mut Mmu)
    ensures
        state(final(cpu), final(mmu)) == state(old(cpu), old(mmu)).rot(
            RotOp::Rlc,
            Operand8::Reg(Reg8::L),
        ),
        final(mmu)@.timing() == old(mmu)@.timing(),
{
    proof {
        reveal(Machine::rot);
    }
    rlc_n(&mut cpu.regs.l, &mut cpu.regs.flags);
}

/// `RLC (HL)`.
pub fn cbx06(cpu: &mut Cpu, mmu: &mut Mmu)
    ensures
        state(final(cpu), final(mmu)) == state(old(cpu), old(mmu)).rot(RotOp::Rlc, Operand8::HlInd),
        final(mmu)@.timing() == old(mmu)@.timing(),
{
    proof {
        reveal(Machine::rot);
    }
    let addr = cpu.regs.hl();
    let mut v = mmu.read(addr);
    rlc_n(&mut v, &mut cpu.regs.flags);
    mmu.write(addr, v);
}

/// `RLC A`.
pub fn cbx07(cpu: &mut Cpu, mmu: &mut Mmu)
    ensures
        state(final(cpu), final(mmu)) == state(old(cpu), old(mmu)).rot(
            RotOp::Rlc,
            Operand8::Reg(Reg8::A),
        ),
        final(mmu)@.timing() == old(mmu)@.timing(),
{
    proof {
        reveal(Machine::rot);
    }
    rlc_n(&mut cpu.regs.a, &mut cpu.regs.flags);
}

/// `RRC B`.
pub fn cbx08(cpu: &mut Cpu, mmu: &mut Mmu)
    ensures
        state(final(cpu), final(mmu)) == state(old(cpu), old(mmu)).rot(
            RotOp::Rrc,
            Operand8::Reg(Reg8::B),
        ),
        final(mmu)@.timing() == old(mmu)@.timing(),
{
    proof {
        reveal(Machine::rot);
    }
    rrc_n(&mut cpu.regs.b, &mut cpu.regs.flags);
}

/// `RRC C`.
pub fn cbx09(cpu: &mut Cpu, mmu: &mut Mmu)
    ensures
        state(final(cpu), final(mmu)) == state(old(cpu), old(mmu)).rot(
            RotOp::Rrc,
            Operand8::Reg(Reg8::C),
        ),
        final(mmu)@.timing() == old(mmu)@.timing(),
{
    proof {
        reveal(Machine::rot);
    }
    rrc_n(&mut cpu.regs.c, &mut cpu.regs.flags);
}

/// `RRC D`.
pub fn cbx0A(cpu: &mut Cpu, mmu: &mut Mmu)
    ensures
        state(final(cpu), final(mmu)) == state(old(cpu), old(mmu)).rot(
            RotOp::Rrc,
            Operand8::Reg(Reg8::D),
        ),
        final(mmu)@.timing() == old(mmu)@.timing(),
{
    proof {
        reveal(Machine::rot);
    }
    rrc_n(&mut cpu.regs.d, &mut cpu.regs.flags);
}

/// `RRC E`.
pub fn cbx0B(cpu: &mut Cpu, mmu: &mut Mmu)
    ensures
        state(final(cpu), final(mmu)) == state(old(cpu), old(mmu)).rot(
            RotOp::Rrc,
            Operand8::Reg(Reg8::E),
        ),
        final(mmu)@.timing() == old(mmu)@.timing(),
{
    proof {
        reveal(Machine::rot);
    }
    rrc_n(&mut cpu.regs.e, &mut cpu.regs.flags);
}

/// `RRC H`.
pub fn cbx0C(cpu: &mut Cpu, mmu: &mut Mmu)
    ensures
        state(final(cpu), final(mmu)) == state(old(cpu), old(mmu)).rot(
            RotOp::Rrc,
            Operand8::Reg(Reg8::H),
        ),
        final(mmu)@.timing() == old(mmu)@.timing(),
{
    proof {
        reveal(Machine::rot);
    }
    rrc_n(&mut cpu.regs.h, &mut cpu.regs.flags);
}

/// `RRC L`.
pub fn cbx0D(cpu: &mut Cpu, mmu: &mut Mmu)
    ensures
        state(final(cpu), final(mmu)) == state(old(cpu), old(mmu)).rot(
            RotOp::Rrc,
            Operand8::Reg(Reg8::L),
        ),
        final(mmu)@.timing() == old(mmu)@.timing(),
{
    proof {
        reveal(Machine::rot);
    }
    rrc_n(&mut cpu.regs.l, &mut cpu.regs.flags);
}

/// `RRC (HL)`.
pub fn cbx0E(cpu: &mut Cpu, mmu: &mut Mmu)
    ensures
        state(final(cpu), final(mmu)) == state(old(cpu), old(mmu)).rot(RotOp::Rrc, Operand8::HlInd),
        final(mmu)@.timing() == old(mmu)@.timing(),
{
    proof {
        reveal(Machine::rot);
    }
    let addr = cpu.regs.hl();
    let mut v = mmu.read(addr);
    rrc_n(&mut v, &mut cpu.regs.flags);
    mmu.write(addr, v);
}

/// `RRC A`.
pub fn cbx0F(cpu: &mut Cpu, mmu: &mut Mmu)
    ensures
        state(final(cpu), final(mmu)) == state(old(cpu), old(mmu)).rot(
            RotOp::Rrc,
            Operand8::Reg(Reg8::A),
        ),
        final(mmu)@.timing() == old(mmu)@.timing(),
{
    proof {
        reveal(Machine::rot);
    }
    rrc_n(&mut cpu.regs.a, &mut cpu.regs.flags);
}

/// `RL B`.
pub fn cbx10(cpu: &mut Cpu, mmu: &mut Mmu)
    ensures
        state(final(cpu), final(mmu)) == state(old(cpu), old(mmu)).rot(
            RotOp::Rl,
            Operand8::Reg(Reg8::B),
        ),
        final(mmu)@.timing() == old(mmu)@.timing(),
{
    proof {
        reveal(Machine::rot);
    }
    rl_n(&mut cpu.regs.b, &mut cpu.regs.flags);
}

/// `RL C`.
pub fn cbx11(cpu: &mut Cpu, mmu: &mut Mmu)
    ensures
        state(final(cpu), final(mmu)) == state(old(cpu), old(mmu)).rot(
            RotOp::Rl,
            Operand8::Reg(Reg8::C),
        ),
        final(mmu)@.timing() == old(mmu)@.timing(),
{
    proof {
        reveal(Machine::rot);
    }
    rl_n(&mut cpu.regs.c, &mut cpu.regs.flags);
}

/// `RL D`.
pub fn cbx12(cpu: &mut Cpu, mmu: &mut Mmu)
    ensures
        state(final(cpu), final(mmu)) == state(old(cpu), old(mmu)).rot(
            RotOp::Rl,
            Operand8::Reg(Reg8::D),
        ),
        final(mmu)@.timing() == old(mmu)@.timing(),
{
    proof {
        reveal(Machine::rot);
    }
    rl_n(&mut cpu.regs.d, &mut cpu.regs.flags);
}

/// `RL E`.
pub fn cbx13(cpu: &mut Cpu, mmu: &mut Mmu)
    ensures
        state(final(cpu), final(mmu)) == state(old(cpu), old(mmu)).rot(
            RotOp::Rl,
            Operand8::Reg(Reg8::E),
        ),
        final(mmu)@.timing() == old(mmu)@.timing(),
{
    proof {
        reveal(Machine::rot);
    }
    rl_n(&mut cpu.regs.e, &mut cpu.regs.flags);
}

/// `RL H`.
pub fn cbx14(cpu: &mut Cpu, mmu: &mut Mmu)
    ensures
        state(final(cpu), final(mmu)) == state(old(cpu), old(mmu)).rot(
            RotOp::Rl,
            Operand8::Reg(Reg8::H),
        ),
        final(mmu)@.timing() == old(mmu)@.timing(),
{
    proof {
        reveal(Machine::rot);
    }
    rl_n(&mut cpu.regs.h, &mut cpu.regs.flags);
}

/// `RL L`.
pub fn cbx15(cpu: &mut Cpu, mmu: &mut Mmu)
    ensures
        state(final(cpu), final(mmu)) == state(old(cpu), old(mmu)).rot(
            RotOp::Rl,
            Operand8::Reg(Reg8::L),
        ),
        final(mmu)@.timing() == old(mmu)@.timing(),
{
    proof {
        reveal(Machine::rot);
    }
    rl_n(&mut cpu.regs.l, &mut cpu.regs.flags);
}

/// `RL (HL)`.
pub fn cbx16(cpu: &mut Cpu, mmu: &mut Mmu)
    ensures
        state(final(cpu), final(mmu)) == state(old(cpu), old(mmu)).rot(RotOp::Rl, Operand8::HlInd),
        final(mmu)@.timing() == old(mmu)@.timing(),
{
    proof {
        reveal(Machine::rot);
    }
    let addr = cpu.regs.hl();
    let mut v = mmu.read(addr);
    rl_n(&mut v, &mut cpu.regs.flags);
    mmu.write(addr, v);
}

/// `RL A`.
pub fn cbx17(cpu: &mut Cpu, mmu: &mut Mmu)
    ensures
        state(final(cpu), final(mmu)) == state(old(cpu), old(mmu)).rot(
            RotOp::Rl,
            Operand8::Reg(Reg8::A),
        ),
        final(mmu)@.timing() == old(mmu)@.timing(),
{
    proof {
        reveal(Machine::rot);
    }
    rl_n(&mut cpu.regs.a, &mut cpu.regs.flags);
}

/// `RR B`.
pub fn cbx18(cpu: &mut Cpu, mmu: &mut Mmu)
    ensures
        state(final(cpu), final(mmu)) == state(old(cpu), old(mmu)).rot(
            RotOp::Rr,
            Operand8::Reg(Reg8::B),
        ),
        final(mmu)@.timing() == old(mmu)@.timing(),
{
    proof {
        reveal(Machine::rot);
    }
    cb_rr(&mut cpu.regs.b, &mut cpu.regs.flags);
}

/// `RR C`.
pub fn cbx19(cpu: &mut Cpu, mmu: &mut Mmu)
    ensures
        state(final(cpu), final(mmu)) == state(old(cpu), old(mmu)).rot(
            RotOp::Rr,
            Operand8::Reg(Reg8::C),
        ),
        final(mmu)@.timing() == old(mmu)@.timing(),
{
    proof {
        reveal(Machine::rot);
    }
    cb_rr(&mut cpu.regs.c, &mut cpu.regs.flags);
}

/// `RR D`.
pub fn cbx1A(cpu: &mut Cpu, mmu: &mut Mmu)
    ensures
        state(final(cpu), final(mmu)) == state(old(cpu), old(mmu)).rot(
            RotOp::Rr,
            Operand8::Reg(Reg8::D),
        ),
        final(mmu)@.timing() == old(mmu)@.timing(),
{
    proof {
        reveal(Machine::rot);
    }
    cb_rr(&mut cpu.regs.d, &mut cpu.regs.flags);
}

/// `RR E`.
pub fn cbx1B(cpu: &mut Cpu, mmu: &mut Mmu)
    ensures
        state(final(cpu), final(mmu)) == state(old(cpu), old(mmu)).rot(
            RotOp::Rr,
            Operand8::Reg(Reg8::E),
        ),
        final(mmu)@.timing() == old(mmu)@.timing(),
{
    proof {
        reveal(Machine::rot);
    }
    cb_rr(&mut cpu.regs.e, &mut cpu.regs.flags);
}

/// `RR H`.
pub fn cbx1C(cpu: &mut Cpu, mmu: &mut Mmu)
    ensures
        state(final(cpu), final(mmu)) == state(old(cpu), old(mmu)).rot(
            RotOp::Rr,
            Operand8::Reg(Reg8::H),
        ),
        final(mmu)@.timing() == old(mmu)@.timing(),
{
    proof {
        reveal(Machine::rot);
    }
    cb_rr(&mut cpu.regs.h, &mut cpu.regs.flags);
}

/// `RR L`.
pub fn cbx1D(cpu: &mut Cpu, mmu: &mut Mmu)
    ensures
        state(final(cpu), final(mmu)) == state(old(cpu), old(mmu)).rot(
            RotOp::Rr,
            Operand8::Reg(Reg8::L),
        ),
        final(mmu)@.timing() == old(mmu)@.timing(),
{
    proof {
        reveal(Machine::rot);
    }
    cb_rr(&mut cpu.regs.l, &mut cpu.regs.flags);
}

/// `RR (HL)`.
pub fn cbx1E(cpu: &mut Cpu, mmu: &mut Mmu)
    ensures
        state(final(cpu), final(mmu)) == state(old(cpu), old(mmu)).rot(RotOp::Rr, Operand8::HlInd),
        final(mmu)@.timing() == old(mmu)@.timing(),
{
    proof {
        reveal(Machine::rot);
    }
    let addr = cpu.regs.hl();
    let mut v = mmu.read(addr);
    cb_rr(&mut v, &mut cpu.regs.flags);
    mmu.write(addr, v);
}

/// `RR A`.
pub fn cbx1F(cpu: &mut Cpu, mmu: &mut Mmu)
    ensures
        state(final(cpu), final(mmu)) == state(old(cpu), old(mmu)).rot(
            RotOp::Rr,
            Operand8::Reg(Reg8::A),
        ),
        final(mmu)@.timing() == old(mmu)@.timing(),
{
    proof {
        reveal(Machine::rot);
    }
    cb_rr(&mut cpu.regs.a, &mut cpu.regs.flags);
}

/// `SLA B`.
pub fn cbx20(cpu: &mut Cpu, mmu: &mut Mmu)
    ensures
        state(final(cpu), final(mmu)) == state(old(cpu), old(mmu)).rot(
            RotOp::Sla,
            Operand8::Reg(Reg8::B),
        ),
        final(mmu)@.timing() == old(mmu)@.timing(),
{
    proof {
        reveal(Machine::rot);
    }
    sla_n(&mut cpu.regs.b, &mut cpu.regs.flags);
}

/// `SLA C`.
pub fn cbx21(cpu: &mut Cpu, mmu: &mut Mmu)
    ensures
        state(final(cpu), final(mmu)) == state(old(cpu), old(mmu)).rot(
            RotOp::Sla,
            Operand8::Reg(Reg8::C),
        ),
        final(mmu)@.timing() == old(mmu)@.timing(),
{
    proof {
        reveal(Machine::rot);
    }
    sla_n(&mut cpu.regs.c, &mut cpu.regs.flags);
}

/// `SLA D`.
pub fn cbx22(cpu: &mut Cpu, mmu: &mut Mmu)
    ensures
        state(final(cpu), final(mmu)) == state(old(cpu), old(mmu)).rot(
            RotOp::Sla,
            Operand8::Reg(Reg8::D),
        ),
        final(mmu)@.timing() == old(mmu)@.timing(),
{
    proof {
        reveal(Machine::rot);
    }
    sla_n(&mut cpu.regs.d, &mut cpu.regs.flags);
}

/// `SLA E`.
pub fn cbx23(cpu: &mut Cpu, mmu: &mut Mmu)
    ensures
        state(final(cpu), final(mmu)) == state(old(cpu), old(mmu)).rot(
            RotOp::Sla,
            Operand8::Reg(Reg8::E),
        ),
        final(mmu)@.timing() == old(mmu)@.timing(),
{
    proof {
        reveal(Machine::rot);
    }
    sla_n(&mut cpu.regs.e, &mut cpu.regs.flags);
}

/// `SLA H`.
pub fn cbx24(cpu: &mut Cpu, mmu: &mut Mmu)
    ensures
        state(final(cpu), final(mmu)) == state(old(cpu), old(mmu)).rot(
            RotOp::Sla,
            Operand8::Reg(Reg8::H),
        ),
        final(mmu)@.timing() == old(mmu)@.timing(),
{
    proof {
        reveal(Machine::rot);
    }
    sla_n(&mut cpu.regs.h, &mut cpu.regs.flags);
}

/// `SLA L`.
pub fn cbx25(cpu: &mut Cpu, mmu: &mut Mmu)
    ensures
        state(final(cpu), final(mmu)) == state(old(cpu), old(mmu)).rot(
            RotOp::Sla,
            Operand8::Reg(Reg8::L),
        ),
        final(mmu)@.timing() == old(mmu)@.timing(),
{
    proof {
        reveal(Machine::rot);
    }
    sla_n(&mut cpu.regs.l, &mut cpu.regs.flags);
}

/// `SLA (HL)`.
pub fn cbx26(cpu: &mut Cpu, mmu: &mut Mmu)
    ensures
        state(final(cpu), final(mmu)) == state(old(cpu), old(mmu)).rot(RotOp::Sla, Operand8::HlInd),
        final(mmu)@.timing() == old(mmu)@.timing(),
{
    proof {
        reveal(Machine::rot);
    }
    let addr = cpu.regs.hl();
    let mut v = mmu.read(addr);
    sla_n(&mut v, &mut cpu.regs.flags);
    mmu.write(addr, v);
}

/// `SLA A`.
pub fn cbx27(cpu: &mut Cpu, mmu: &mut Mmu)
    ensures
        state(final(cpu), final(mmu)) == state(old(cpu), old(mmu)).rot(
            RotOp::Sla,
            Operand8::Reg(Reg8::A),
        ),
        final(mmu)@.timing() == old(mmu)@.timing(),
{
    proof {
        reveal(Machine::rot);
    }
    sla_n(&mut cpu.regs.a, &mut cpu.regs.flags);
}

/// `SRA B`.
pub fn cbx28(cpu: &mut Cpu, mmu: &mut Mmu)
    ensures
        state(final(cpu), final(mmu)) == state(old(cpu), old(mmu)).rot(
            RotOp::Sra,
            Operand8::Reg(Reg8::B),
        ),
        final(mmu)@.timing() == old(mmu)@.timing(),
{
    proof {
        reveal(Machine::rot);
    }
    sra_n(&mut cpu.regs.b, &mut cpu.regs.flags);
}

/// `SRA C`.
pub fn cbx29(cpu: &mut Cpu, mmu: &mut Mmu)
    ensures
        state(final(cpu), final(mmu)) == state(old(cpu), old(mmu)).rot(
            RotOp::Sra,
            Operand8::Reg(Reg8::C),
        ),
        final(mmu)@.timing() == old(mmu)@.timing(),
{
    proof {
        reveal(Machine::rot);
    }
    sra_n(&mut cpu.regs.c, &mut cpu.regs.flags);
}

/// `SRA D`.
pub fn cbx2A(cpu: &mut Cpu, mmu: &mut Mmu)
    ensures
        state(final(cpu), final(mmu)) == state(old(cpu), old(mmu)).rot(
            RotOp::Sra,
            Operand8::Reg(Reg8::D),
        ),
        final(mmu)@.timing() == old(mmu)@.timing(),
{
    proof {
        reveal(Machine::rot);
    }
    sra_n(&mut cpu.regs.d, &mut cpu.regs.flags);
}

/// `SRA E`.
pub fn cbx2B(cpu: &mut Cpu, mmu: &mut Mmu)
    ensures
        state(final(cpu), final(mmu)) == state(old(cpu), old(mmu)).rot(
            RotOp::Sra,
            Operand8::Reg(Reg8::E),
        ),
        final(mmu)@.timing() == old(mmu)@.timing(),
{
    proof {
        reveal(Machine::rot);
    }
    sra_n(&mut cpu.regs.e, &mut cpu.regs.flags);
}

/// `SRA H`.
pub fn cbx2C(cpu: &mut Cpu, mmu: &mut Mmu)
    ensures
        state(final(cpu), final(mmu)) == state(old(cpu), old(mmu)).rot(
            RotOp::Sra,
            Operand8::Reg(Reg8::H),
        ),
        final(mmu)@.timing() == old(mmu)@.timing(),
{
    proof {
        reveal(Machine::rot);
    }
    sra_n(&mut cpu.regs.h, &mut cpu.regs.flags);
}

/// `SRA L`.
pub fn cbx2D(cpu: &mut Cpu, mmu: &mut Mmu)
    ensures
        state(final(cpu), final(mmu)) == state(old(cpu), old(mmu)).rot(
            RotOp::Sra,
            Operand8::Reg(Reg8::L),
        ),
        final(mmu)@.timing() == old(mmu)@.timing(),
{
    proof {
        reveal(Machine::rot);
    }
    sra_n(&mut cpu.regs.l, &mut cpu.regs.flags);
}

/// `SRA (HL)`.
pub fn cbx2E(cpu: &mut Cpu, mmu: &mut Mmu)
    ensures
        state(final(cpu), final(mmu)) == state(old(cpu), old(mmu)).rot(RotOp::Sra, Operand8::HlInd),
        final(mmu)@.timing() == old(mmu)@.timing(),
{
    proof {
        reveal(Machine::rot);
    }
    let addr = cpu.regs.hl();
    let mut v = mmu.read(addr);
    sra_n(&mut v, &mut cpu.regs.flags);
    mmu.write(addr, v);
}

/// `SRA A`.
pub fn cbx2F(cpu: &mut Cpu, mmu: &mut Mmu)
    ensures
        state(final(cpu), final(mmu)) == state(old(cpu), old(mmu)).rot(
            RotOp::Sra,
            Operand8::Reg(Reg8::A),
        ),
        final(mmu)@.timing() == old(mmu)@.timing(),
{
    proof {
        reveal(Machine::rot);
    }
    sra_n(&mut cpu.regs.a, &mut cpu.regs.flags);
}

/// `SWAP B`.
pub fn cbx30(cpu: &mut Cpu, mmu: &mut Mmu)
    ensures
        state(final(cpu), final(mmu)) == state(old(cpu), old(mmu)).rot(
            RotOp::Swap,
            Operand8::Reg(Reg8::B),
        ),
        final(mmu)@.timing() == old(mmu)@.timing(),
{
    proof {
        reveal(Machine::rot);
    }
    swap(&mut cpu.regs.b, &mut cpu.regs.flags);
}

/// `SWAP C`.
pub fn cbx31(cpu: &mut Cpu, mmu: &mut Mmu)
    ensures
        state(final(cpu), final(mmu)) == state(old(cpu), old(mmu)).rot(
            RotOp::Swap,
            Operand8::Reg(Reg8::C),
        ),
        final(mmu)@.timing() == old(mmu)@.timing(),
{
    proof {
        reveal(Machine::rot);
    }
    swap(&mut cpu.regs.c, &mut cpu.regs.flags);
}

/// `SWAP D`.
pub fn cbx32(cpu: &mut Cpu, mmu: &mut Mmu)
    ensures
        state(final(cpu), final(mmu)) == state(old(cpu), old(mmu)).rot(
            RotOp::Swap,
            Operand8::Reg(Reg8::D),
        ),
        final(mmu)@.timing() == old(mmu)@.timing(),
{
    proof {
        reveal(Machine::rot);
    }
    swap(&mut cpu.regs.d, &mut cpu.regs.flags);
}

/// `SWAP E`.
pub fn cbx33(cpu: &mut Cpu, mmu: &mut Mmu)
    ensures
        state(final(cpu), final(mmu)) == state(old(cpu), old(mmu)).rot(
            RotOp::Swap,
            Operand8::Reg(Reg8::E),
        ),
        final(mmu)@.timing() == old(mmu)@.timing(),
{
    proof {
        reveal(Machine::rot);
    }
    swap(&mut cpu.regs.e, &mut cpu.regs.flags);
}

/// `SWAP H`.
pub fn cbx34(cpu: &mut Cpu, mmu: &mut Mmu)
    ensures
        state(final(cpu), final(mmu)) == state(old(cpu), old(mmu)).rot(
            RotOp::Swap,
            Operand8::Reg(Reg8::H),
        ),
        final(mmu)@.timing() == old(mmu)@.timing(),
{
    proof {
        reveal(Machine::rot);
    }
    swap(&mut cpu.regs.h, &mut cpu.regs.flags);
}

/// `SWAP L`.
pub fn cbx35(cpu: &mut Cpu, mmu: &mut Mmu)
    ensures
        state(final(cpu), final(mmu)) == state(old(cpu), old(mmu)).rot(
            RotOp::Swap,
            Operand8::Reg(Reg8::L),
        ),
        final(mmu)@.timing() == old(mmu)@.timing(),
{
    proof {
        reveal(Machine::rot);
    }
    swap(&mut cpu.regs.l, &mut cpu.regs.flags);
}

/// `SWAP (HL)`.
pub fn cbx36(cpu: &mut Cpu, mmu: &mut Mmu)
    ensures
        state(final(cpu), final(mmu)) == state(old(cpu), old(mmu)).rot(
            RotOp::Swap,
            Operand8::HlInd,
        ),
        final(mmu)@.timing() == old(mmu)@.timing(),
{
    proof {
        reveal(Machine::rot);
    }
    let addr = cpu.regs.hl();
    let mut v = mmu.read(addr);
    swap(&mut v, &mut cpu.regs.flags);
    mmu.write(addr, v);
}

/// `SWAP A`.
pub fn cbx37(cpu: &mut Cpu, mmu: &mut Mmu)
    ensures
        state(final(cpu), final(mmu)) == state(old(cpu), old(mmu)).rot(
            RotOp::Swap,
            Operand8::Reg(Reg8::A),
        ),
        final(mmu)@.timing() == old(mmu)@.timing(),
{
    proof {
        reveal(Machine::rot);
    }
    swap(&mut cpu.regs.a, &mut cpu.regs.flags);
}

/// `SRL B`.
pub fn cbx38(cpu: &mut Cpu, mmu: &mut Mmu)
    ensures
        state(final(cpu), final(mmu)) == state(old(cpu), old(mmu)).rot(
            RotOp::Srl,
            Operand8::Reg(Reg8::B),
        ),
        final(mmu)@.timing() == old(mmu)@.timing(),
{
    proof {
        reveal(Machine::rot);
    }
    srl(&mut cpu.regs.b, &mut cpu.regs.flags);
}

/// `SRL C`.
pub fn cbx39(cpu: &mut Cpu, mmu: &mut Mmu)
    ensures
        state(final(cpu), final(mmu)) == state(old(cpu), old(mmu)).rot(
            RotOp::Srl,
            Operand8::Reg(Reg8::C),
        ),
        final(mmu)@.timing() == old(mmu)@.timing(),
{
    proof {
        reveal(Machine::rot);
    }
    srl(&mut cpu.regs.c, &mut cpu.regs.flags);
}

/// `SRL D`.
pub fn cbx3A(cpu: &mut Cpu, mmu: &mut Mmu)
    ensures
        state(final(cpu), final(mmu)) == state(old(cpu), old(mmu)).rot(
            RotOp::Srl,
            Operand8::Reg(Reg8::D),
        ),
        final(mmu)@.timing() == old(mmu)@.timing(),
{
    proof {
        reveal(Machine::rot);
    }
    srl(&mut cpu.regs.d, &mut cpu.regs.flags);
}

/// `SRL E`.
pub fn cbx3B(cpu: &mut Cpu, mmu: &mut Mmu)
    ensures
        state(final(cpu), final(mmu)) == state(old(cpu), old(mmu)).rot(
            RotOp::Srl,
            Operand8::Reg(Reg8::E),
        ),
        final(mmu)@.timing() == old(mmu)@.timing(),
{
    proof {
        reveal(Machine::rot);
    }
    srl(&mut cpu.regs.e, &mut cpu.regs.flags);
}

/// `SRL H`.
pub fn cbx3C(cpu: &mut Cpu, mmu: &mut Mmu)
    ensures
        state(final(cpu), final(mmu)) == state(old(cpu), old(mmu)).rot(
            RotOp::Srl,
            Operand8::Reg(Reg8::H),
        ),
        final(mmu)@.timing() == old(mmu)@.timing(),
{
    proof {
        reveal(Machine::rot);
    }
    srl(&mut cpu.regs.h, &mut cpu.regs.flags);
}

/// `SRL L`.
pub fn cbx3D(cpu: &mut Cpu, mmu: &mut Mmu)
    ensures
        state(final(cpu), final(mmu)) == state(old(cpu), old(mmu)).rot(
            RotOp::Srl,
            Operand8::Reg(Reg8::L),
        ),
        final(mmu)@.timing() == old(mmu)@.timing(),
{
    proof {
        reveal(Machine::rot);
    }
    srl(&mut cpu.regs.l, &mut cpu.regs.flags);
}

/// `SRL (HL)`.
pub fn cbx3E(cpu: &mut Cpu, mmu: &mut Mmu)
    ensures
        state(final(cpu), final(mmu)) == state(old(cpu), old(mmu)).rot(RotOp::Srl, Operand8::HlInd),
        final(mmu)@.timing() == old(mmu)@.timing(),
{
    proof {
        reveal(Machine::rot);
    }
    let addr = cpu.regs.hl();
    let mut v = mmu.read(addr);
    srl(&mut v, &mut cpu.regs.flags);
    mmu.write(addr, v);
}

/// `SRL A`.
pub fn cbx3F(cpu: &mut Cpu, mmu: &mut Mmu)
    ensures
        state(final(cpu), final(mmu)) == state(old(cpu), old(mmu)).rot(
            RotOp::Srl,
            Operand8::Reg(Reg8::A),
        ),
        final(mmu)@.timing() == old(mmu)@.timing(),
{
    proof {
        reveal(Machine::rot);
    }
    srl(&mut cpu.regs.a, &mut cpu.regs.flags);
}

/// `BIT 0, B`.
pub fn cbx40(cpu: &mut Cpu, mmu: &mut Mmu)
    ensures
        state(final(cpu), final(mmu)) == state(old(cpu), old(mmu)).test_bit(
            0,
            Operand8::Reg(Reg8::B),
        ),
        final(mmu)@.timing() == old(mmu)@.timing(),
{
    proof {
        reveal(Machine::test_bit);
    }
    bit_x_n(0, &mut cpu.regs.b, &mut cpu.regs.flags);
}

/// `BIT 0, C`.
pub fn cbx41(cpu: &mut Cpu, mmu: &mut Mmu)
    ensures
        state(final(cpu), final(mmu)) == state(old(cpu), old(mmu)).test_bit(
            0,
            Operand8::Reg(Reg8::C),
        ),
        final(mmu)@.timing() == old(mmu)@.timing(),
{
    proof {
        reveal(Machine::test_bit);
    }
    bit_x_n(0, &mut cpu.regs.c, &mut cpu.regs.flags);
}

/// `BIT 0, D`.
pub fn cbx42(cpu: &mut Cpu, mmu: &mut Mmu)
    ensures
        state(final(cpu), final(mmu)) == state(old(cpu), old(mmu)).test_bit(
            0,
            Operand8::Reg(Reg8::D),
        ),
        final(mmu)@.timing() == old(mmu)@.timing(),
{
    proof {
        reveal(Machine::test_bit);
    }
    bit_x_n(0, &mut cpu.regs.d, &mut cpu.regs.flags);
}

/// `BIT 0, E`.
pub fn cbx43(cpu: &mut Cpu, mmu: &mut Mmu)
    ensures
        state(final(cpu), final(mmu)) == state(old(cpu), old(mmu)).test_bit(
            0,
            Operand8::Reg(Reg8::E),
        ),
        final(mmu)@.timing() == old(mmu)@.timing(),
{
    proof {
        reveal(Machine::test_bit);
    }
    bit_x_n(0, &mut cpu.regs.e, &mut cpu.regs.flags);
}

/// `BIT 0, H`.
pub fn cbx44(cpu: &mut Cpu, mmu: &mut Mmu)
    ensures
        state(final(cpu), final(mmu)) == state(old(cpu), old(mmu)).test_bit(
            0,
            Operand8::Reg(Reg8::H),
        ),
        final(mmu)@.timing() == old(mmu)@.timing(),
{
    proof {
        reveal(Machine::test_bit);
    }
    bit_x_n(0, &mut cpu.regs.h, &mut cpu.regs.flags);
}

/// `BIT 0, L`.
pub fn cbx45(cpu: &mut Cpu, mmu: &mut Mmu)
    ensures
        state(final(cpu), final(mmu)) == state(old(cpu), old(mmu)).test_bit(
            0,
            Operand8::Reg(Reg8::L),
        ),
        final(mmu)@.timing() == old(mmu)@.timing(),
{
    proof {
        reveal(Machine::test_bit);
    }
    bit_x_n(0, &mut cpu.regs.l, &mut cpu.regs.flags);
}

/// `BIT 0, (HL)`.
pub fn cbx46(cpu: &mut Cpu, mmu: &mut Mmu)
    ensures
        state(final(cpu), final(mmu)) == state(old(cpu), old(mmu)).test_bit(0, Operand8::HlInd),
        final(mmu)@.timing() == old(mmu)@.timing(),
{
    proof {
        reveal(Machine::test_bit);
    }
    let mut v = mmu.read(cpu.regs.hl());
    bit_x_n(0, &mut v, &mut cpu.regs.flags);
}

/// `BIT 0, A`.
pub fn cbx47(cpu: &mut Cpu, mmu: &mut Mmu)
    ensures
        state(final(cpu), final(mmu)) == state(old(cpu), old(mmu)).test_bit(
            0,
            Operand8::Reg(Reg8::A),
        ),
        final(mmu)@.timing() == old(mmu)@.timing(),
{
    proof {
        reveal(Machine::test_bit);
    }
    bit_x_n(0, &mut cpu.regs.a, &mut cpu.regs.flags);
}

/// `BIT 1, B`.
pub fn cbx48(cpu: &mut Cpu, mmu: &mut Mmu)
    ensures
        state(final(cpu), final(mmu)) == state(old(cpu), old(mmu)).test_bit(
            1,
            Operand8::Reg(Reg8::B),
        ),
        final(mmu)@.timing() == old(mmu)@.timing(),
{
    proof {
        reveal(Machine::test_bit);
    }
    bit_x_n(1, &mut cpu.regs.b, &mut cpu.regs.flags);
}

/// `BIT 1, C`.
pub fn cbx49(cpu: &mut Cpu, mmu: &mut Mmu)
    ensures
        state(final(cpu), final(mmu)) == state(old(cpu), old(mmu)).test_bit(
            1,
            Operand8::Reg(Reg8::C),
        ),
        final(mmu)@.timing() == old(mmu)@.timing(),
{
    proof {
        reveal(Machine::test_bit);
    }
    bit_x_n(1, &mut cpu.regs.c, &mut cpu.regs.flags);
}

/// `BIT 1, D`.
pub fn cbx4A(cpu: &mut Cpu, mmu: &mut Mmu)
    ensures
        state(final(cpu), final(mmu)) == state(old(cpu), old(mmu)).test_bit(
            1,
            Operand8::Reg(Reg8::D),
        ),
        final(mmu)@.timing() == old(mmu)@.timing(),
{
    proof {
        reveal(Machine::test_bit);
    }
    bit_x_n(1, &mut cpu.regs.d, &mut cpu.regs.flags);
}

/// `BIT 1, E`.
pub fn cbx4B(cpu: &mut Cpu, mmu: &mut Mmu)
    ensures
        state(final(cpu), final(mmu)) == state(old(cpu), old(mmu)).test_bit(
            1,
            Operand8::Reg(Reg8::E),
        ),
        final(mmu)@.timing() == old(mmu)@.timing(),
{
    proof {
        reveal(Machine::test_bit);
    }
    bit_x_n(1, &mut cpu.regs.e, &mut cpu.regs.flags);
}

/// `BIT 1, H`.
pub fn cbx4C(cpu: &mut Cpu, mmu: &mut Mmu)
    ensures
        state(final(cpu), final(mmu)) == state(old(cpu), old(mmu)).test_bit(
            1,
            Operand8::Reg(Reg8::H),
        ),
        final(mmu)@.timing() == old(mmu)@.timing(),
{
    proof {
        reveal(Machine::test_bit);
    }
    bit_x_n(1, &mut cpu.regs.h, &mut cpu.regs.flags);
}

/// `BIT 1, L`.
pub fn cbx4D(cpu: &mut Cpu, mmu: &mut Mmu)
    ensures
        state(final(cpu), final(mmu)) == state(old(cpu), old(mmu)).test_bit(
            1,
            Operand8::Reg(Reg8::L),
        ),
        final(mmu)@.timing() == old(mmu)@.timing(),
{
    proof {
        reveal(Machine::test_bit);
    }
    bit_x_n(1, &mut cpu.regs.l, &mut cpu.regs.flags);
}

/// `BIT 1, (HL)`.
pub fn cbx4E(cpu: &mut Cpu, mmu: &mut Mmu)
    ensures
        state(final(cpu), final(mmu)) == state(old(cpu), old(mmu)).test_bit(1, Operand8::HlInd),
        final(mmu)@.timing() == old(mmu)@.timing(),
{
    proof {
        reveal(Machine::test_bit);
    }
    let mut v = mmu.read(cpu.regs.hl());
    bit_x_n(1, &mut v, &mut cpu.regs.flags);
}

/// `BIT 1, A`.
pub fn cbx4F(cpu: &mut Cpu, mmu: &mut Mmu)
    ensures
        state(final(cpu), final(mmu)) == state(old(cpu), old(mmu)).test_bit(
            1,
            Operand8::Reg(Reg8::A),
        ),
        final(mmu)@.timing() == old(mmu)@.timing(),
{
    proof {
        reveal(Machine::test_bit);
    }
    bit_x_n(1, &mut cpu.regs.a, &mut cpu.regs.flags);
}

/// `BIT 2, B`.
pub fn cbx50(cpu: &mut Cpu, mmu: &mut Mmu)
    ensures
        state(final(cpu), final(mmu)) == state(old(cpu), old(mmu)).test_bit(
            2,
            Operand8::Reg(Reg8::B),
        ),
        final(mmu)@.timing() == old(mmu)@.timing(),
{
    proof {
        reveal(Machine::test_bit);
    }
    bit_x_n(2, &mut cpu.regs.b, &mut cpu.regs.flags);
}

/// `BIT 2, C`.
pub fn cbx51(cpu: &mut Cpu, mmu: &mut Mmu)
    ensures
        state(final(cpu), final(mmu)) == state(old(cpu), old(mmu)).test_bit(
            2,
            Operand8::Reg(Reg8::C),
        ),
        final(mmu)@.timing() == old(mmu)@.timing(),
{
    proof {
        reveal(Machine::test_bit);
    }
    bit_x_n(2, &mut cpu.regs.c, &mut cpu.regs.flags);
}

/// `BIT 2, D`.
pub fn cbx52(cpu: &mut Cpu, mmu: &mut Mmu)
    ensures
        state(final(cpu), final(mmu)) == state(old(cpu), old(mmu)).test_bit(
            2,
            Operand8::Reg(Reg8::D),
        ),
        final(mmu)@.timing() == old(mmu)@.timing(),
{
    proof {
        reveal(Machine::test_bit);
    }
    bit_x_n(2, &mut cpu.regs.d, &mut cpu.regs.flags);
}

/// `BIT 2, E`.
pub fn cbx53(cpu: &mut Cpu, mmu: &mut Mmu)
    ensures
        state(final(cpu), final(mmu)) == state(old(cpu), old(mmu)).test_bit(
            2,
            Operand8::Reg(Reg8::E),
        ),
        final(mmu)@.timing() == old(mmu)@.timing(),
{
    proof {
        reveal(Machine::test_bit);
    }
    bit_x_n(2, &mut cpu.regs.e, &mut cpu.regs.flags);
}

/// `BIT 2, H`.
pub fn cbx54(cpu: &mut Cpu, mmu: &mut Mmu)
    ensures
        state(final(cpu), final(mmu)) == state(old(cpu), old(mmu)).test_bit(
            2,
            Operand8::Reg(Reg8::H),
        ),
        final(mmu)@.timing() == old(mmu)@.timing(),
{
    proof {
        reveal(Machine::test_bit);
    }
    bit_x_n(2, &mut cpu.regs.h, &mut cpu.regs.flags);
}

/// `BIT 2, L`.
pub fn cbx55(cpu: &mut Cpu, mmu: &mut Mmu)
    ensures
        state(final(cpu), final(mmu)) == state(old(cpu), old(mmu)).test_bit(
            2,
            Operand8::Reg(Reg8::L),
        ),
        final(mmu)@.timing() == old(mmu)@.timing(),
{
    proof {
        reveal(Machine::test_bit);
    }
    bit_x_n(2, &mut cpu.regs.l, &mut cpu.regs.flags);
}

/// `BIT 2, (HL)`.
pub fn cbx56(cpu: &mut Cpu, mmu: &mut Mmu)
    ensures
        state(final(cpu), final(mmu)) == state(old(cpu), old(mmu)).test_bit(2, Operand8::HlInd),
        final(mmu)@.timing() == old(mmu)@.timing(),
{
    proof {
        reveal(Machine::test_bit);
    }
    let mut v = mmu.read(cpu.regs.hl());
    bit_x_n(2, &mut v, &mut cpu.regs.flags);
}

/// `BIT 2, A`.
pub fn cbx57(cpu: &mut Cpu, mmu: &mut Mmu)
    ensures
        state(final(cpu), final(mmu)) == state(old(cpu), old(mmu)).test_bit(
            2,
            Operand8::Reg(Reg8::A),
        ),
        final(mmu)@.timing() == old(mmu)@.timing(),
{
    proof {
        reveal(Machine::test_bit);
    }
    bit_x_n(2, &mut cpu.regs.a, &mut cpu.regs.flags);
}

/// `BIT 3, B`.
pub fn cbx58(cpu: &mut Cpu, mmu: &mut Mmu)
    ensures
        state(final(cpu), final(mmu)) == state(old(cpu), old(mmu)).test_bit(
            3,
            Operand8::Reg(Reg8::B),
        ),
        final(mmu)@.timing() == old(mmu)@.timing(),
{
    proof {
        reveal(Machine::test_bit);
    }
    bit_x_n(3, &mut cpu.regs.b, &mut cpu.regs.flags);
}

/// `BIT 3, C`.
pub fn cbx59(cpu: &mut Cpu, mmu: &mut Mmu)
    ensures
        state(final(cpu), final(mmu)) == state(old(cpu), old(mmu)).test_bit(
            3,
            Operand8::Reg(Reg8::C),
        ),
        final(mmu)@.timing() == old(mmu)@.timing(),
{
    proof {
        reveal(Machine::test_bit);
    }
    bit_x_n(3, &mut cpu.regs.c, &mut cpu.regs.flags);
}

/// `BIT 3, D`.
pub fn cbx5A(cpu: &mut Cpu, mmu: &mut Mmu)
    ensures
        state(final(cpu), final(mmu)) == state(old(cpu), old(mmu)).test_bit(
            3,
            Operand8::Reg(Reg8::D),
        ),
        final(mmu)@.timing() == old(mmu)@.timing(),
{
    proof {
        reveal(Machine::test_bit);
    }
    bit_x_n(3, &mut cpu.regs.d, &mut cpu.regs.flags);
}

/// `BIT 3, E`.
pub fn cbx5B(cpu: &mut Cpu, mmu: &mut Mmu)
    ensures
        state(final(cpu), final(mmu)) == state(old(cpu), old(mmu)).test_bit(
            3,
            Operand8::Reg(Reg8::E),
        ),
        final(mmu)@.timing() == old(mmu)@.timing(),
{
    proof {
        reveal(Machine::test_bit);
    }
    bit_x_n(3, &mut cpu.regs.e, &mut cpu.regs.flags);
}

/// `BIT 3, H`.
pub fn cbx5C(cpu: &mut Cpu, mmu: &mut Mmu)
    ensures
        state(final(cpu), final(mmu)) == state(old(cpu), old(mmu)).test_bit(
            3,
            Operand8::Reg(Reg8::H),
        ),
        final(mmu)@.timing() == old(mmu)@.timing(),
{
    proof {
        reveal(Machine::test_bit);
    }
    bit_x_n(3, &mut cpu.regs.h, &mut cpu.regs.flags);
}

/// `BIT 3, L`.
pub fn cbx5D(cpu: &mut Cpu, mmu: &mut Mmu)
    ensures
        state(final(cpu), final(mmu)) == state(old(cpu), old(mmu)).test_bit(
            3,
            Operand8::Reg(Reg8::L),
        ),
        final(mmu)@.timing() == old(mmu)@.timing(),
{
    proof {
        reveal(Machine::test_bit);
    }
    bit_x_n(3, &mut cpu.regs.l, &mut cpu.regs.flags);
}

/// `BIT 3, (HL)`.
pub fn cbx5E(cpu: &mut Cpu, mmu: &mut Mmu)
    ensures
        state(final(cpu), final(mmu)) == state(old(cpu), old(mmu)).test_bit(3, Operand8::HlInd),
        final(mmu)@.timing() == old(mmu)@.timing(),
{
    proof {
        reveal(Machine::test_bit);
    }
    let mut v = mmu.read(cpu.regs.hl());
    bit_x_n(3, &mut v, &mut cpu.regs.flags);
}

/// `BIT 3, A`.
pub fn cbx5F(cpu: &mut Cpu, mmu: &mut Mmu)
    ensures
        state(final(cpu), final(mmu)) == state(old(cpu), old(mmu)).test_bit(
            3,
            Operand8::Reg(Reg8::A),
        ),
        final(mmu)@.timing() == old(mmu)@.timing(),
{
    proof {
        reveal(Machine::test_bit);
    }
    bit_x_n(3, &mut cpu.regs.a, &mut cpu.regs.flags);
}

/// `BIT 4, B`.
pub fn cbx60(cpu: &mut Cpu, mmu: &mut Mmu)
    ensures
        state(final(cpu), final(mmu)) == state(old(cpu), old(mmu)).test_bit(
            4,
            Operand8::Reg(Reg8::B),
        ),
        final(mmu)@.timing() == old(mmu)@.timing(),
{
    proof {
        reveal(Machine::test_bit);
    }
    bit_x_n(4, &mut cpu.regs.b, &mut cpu.regs.flags);
}

/// `BIT 4, C`.
pub fn cbx61(cpu: &mut Cpu, mmu: &mut Mmu)
    ensures
        state(final(cpu), final(mmu)) == state(old(cpu), old(mmu)).test_bit(
            4,
            Operand8::Reg(Reg8::C),
        ),
        final(mmu)@.timing() == old(mmu)@.timing(),
{
    proof {
        reveal(Machine::test_bit);
    }
    bit_x_n(4, &mut cpu.regs.c, &mut cpu.regs.flags);
}

/// `BIT 4, D`.
pub fn cbx62(cpu: &mut Cpu, mmu: &mut Mmu)
    ensures
        state(final(cpu), final(mmu)) == state(old(cpu), old(mmu)).test_bit(
            4,
            Operand8::Reg(Reg8::D),
        ),
        final(mmu)@.timing() == old(mmu)@.timing(),
{
    proof {
        reveal(Machine::test_bit);
    }
    bit_x_n(4, &mut cpu.regs.d, &mut cpu.regs.flags);
}

/// `BIT 4, E`.
pub fn cbx63(cpu: &mut Cpu, mmu: &mut Mmu)
    ensures
        state(final(cpu), final(mmu)) == state(old(cpu), old(mmu)).test_bit(
            4,
            Operand8::Reg(Reg8::E),
        ),
        final(mmu)@.timing() == old(mmu)@.timing(),
{
    proof {
        reveal(Machine::test_bit);
    }
    bit_x_n(4, &mut cpu.regs.e, &mut cpu.regs.flags);
}

/// `BIT 4, H`.
pub fn cbx64(cpu: &mut Cpu, mmu: &mut Mmu)
    ensures
        state(final(cpu), final(mmu)) == state(old(cpu), old(mmu)).test_bit(
            4,
            Operand8::Reg(Reg8::H),
        ),
        final(mmu)@.timing() == old(mmu)@.timing(),
{
    proof {
        reveal(Machine::test_bit);
    }
    bit_x_n(4, &mut cpu.regs.h, &mut cpu.regs.flags);
}

/// `BIT 4, L`.
pub fn cbx65(cpu: &mut Cpu, mmu: &mut Mmu)
    ensures
        state(final(cpu), final(mmu)) == state(old(cpu), old(mmu)).test_bit(
            4,
            Operand8::Reg(Reg8::L),
        ),
        final(mmu)@.timing() == old(mmu)@.timing(),
{
    proof {
        reveal(Machine::test_bit);
    }
    bit_x_n(4, &mut cpu.regs.l, &mut cpu.regs.flags);
}

/// `BIT 4, (HL)`.
pub fn cbx66(cpu: &mut Cpu, mmu: &mut Mmu)
    ensures
        state(final(cpu), final(mmu)) == state(old(cpu), old(mmu)).test_bit(4, Operand8::HlInd),
        final(mmu)@.timing() == old(mmu)@.timing(),
{
    proof {
        reveal(Machine::test_bit);
    }
    let mut v = mmu.read(cpu.regs.hl());
    bit_x_n(4, &mut v, &mut cpu.regs.flags);
}

/// `BIT 4, A`.
pub fn cbx67(cpu: &mut Cpu, mmu: &mut Mmu)
    ensures
        state(final(cpu), final(mmu)) == state(old(cpu), old(mmu)).test_bit(
            4,
            Operand8::Reg(Reg8::A),
        ),
        final(mmu)@.timing() == old(mmu)@.timing(),
{
    proof {
        reveal(Machine::test_bit);
    }
    bit_x_n(4, &mut cpu.regs.a, &mut cpu.regs.flags);
}

/// `BIT 5, B`.
pub fn cbx68(cpu: &mut Cpu, mmu: &mut Mmu)
    ensures
        state(final(cpu), final(mmu)) == state(old(cpu), old(mmu)).test_bit(
            5,
            Operand8::Reg(Reg8::B),
        ),
        final(mmu)@.timing() == old(mmu)@.timing(),
{
    proof {
        reveal(Machine::test_bit);
    }
    bit_x_n(5, &mut cpu.regs.b, &mut cpu.regs.flags);
}

/// `BIT 5, C`.
pub fn cbx69(cpu: &mut Cpu, mmu: &mut Mmu)
    ensures
        state(final(cpu), final(mmu)) == state(old(cpu), old(mmu)).test_bit(
            5,
            Operand8::Reg(Reg8::C),
        ),
        final(mmu)@.timing() == old(mmu)@.timing(),
{
    proof {
        reveal(Machine::test_bit);
    }
    bit_x_n(5, &mut cpu.regs.c, &mut cpu.regs.flags);
}

/// `BIT 5, D`.
pub fn cbx6A(cpu: &mut Cpu, mmu: &mut Mmu)
    ensures
        state(final(cpu), final(mmu)) == state(old(cpu), old(mmu)).test_bit(
            5,
            Operand8::Reg(Reg8::D),
        ),
        final(mmu)@.timing() == old(mmu)@.timing(),
{
    proof {
        reveal(Machine::test_bit);
    }
    bit_x_n(5, &mut cpu.regs.d, &mut cpu.regs.flags);
}

/// `BIT 5, E`.
pub fn cbx6B(cpu: &mut Cpu, mmu: &mut Mmu)
    ensures
        state(final(cpu), final(mmu)) == state(old(cpu), old(mmu)).test_bit(
            5,
            Operand8::Reg(Reg8::E),
        ),
        final(mmu)@.timing() == old(mmu)@.timing(),
{
    proof {
        reveal(Machine::test_bit);
    }
    bit_x_n(5, &mut cpu.regs.e, &mut cpu.regs.flags);
}

/// `BIT 5, H`.
pub fn cbx6C(cpu: &mut Cpu, mmu: &mut Mmu)
    ensures
        state(final(cpu), final(mmu)) == state(old(cpu), old(mmu)).test_bit(
            5,
            Operand8::Reg(Reg8::H),
        ),
        final(mmu)@.timing() == old(mmu)@.timing(),
{
    proof {
        reveal(Machine::test_bit);
    }
    bit_x_n(5, &mut cpu.regs.h, &mut cpu.regs.flags);
}

/// `BIT 5, L`.
pub fn cbx6D(cpu: &mut Cpu, mmu: &mut Mmu)
    ensures
        state(final(cpu), final(mmu)) == state(old(cpu), old(mmu)).test_bit(
            5,
            Operand8::Reg(Reg8::L),
        ),
        final(mmu)@.timing() == old(mmu)@.timing(),
{
    proof {
        reveal(Machine::test_bit);
    }
    bit_x_n(5, &mut cpu.regs.l, &mut cpu.regs.flags);
}

/// `BIT 5, (HL)`.
pub fn cbx6E(cpu: &mut Cpu, mmu: &mut Mmu)
    ensures
        state(final(cpu), final(mmu)) == state(old(cpu), old(mmu)).test_bit(5, Operand8::HlInd),
        final(mmu)@.timing() == old(mmu)@.timing(),
{
    proof {
        reveal(Machine::test_bit);
    }
    let mut v = mmu.read(cpu.regs.hl());
    bit_x_n(5, &mut v, &mut cpu.regs.flags);
}

/// `BIT 5, A`.
pub fn cbx6F(cpu: &mut Cpu, mmu: &mut Mmu)
    ensures
        state(final(cpu), final(mmu)) == state(old(cpu), old(mmu)).test_bit(
            5,
            Operand8::Reg(Reg8::A),
        ),
        final(mmu)@.timing() == old(mmu)@.timing(),
{
    proof {
        reveal(Machine::test_bit);
    }
    bit_x_n(5, &mut cpu.regs.a, &mut cpu.regs.flags);
}

/// `BIT 6, B`.
pub fn cbx70(cpu: &mut Cpu, mmu: &mut Mmu)
    ensures
        state(final(cpu), final(mmu)) == state(old(cpu), old(mmu)).test_bit(
            6,
            Operand8::Reg(Reg8::B),
        ),
        final(mmu)@.timing() == old(mmu)@.timing(),
{
    proof {
        reveal(Machine::test_bit);
    }
    bit_x_n(6, &mut cpu.regs.b, &mut cpu.regs.flags);
}

/// `BIT 6, C`.
pub fn cbx71(cpu: &mut Cpu, mmu: &mut Mmu)
    ensures
        state(final(cpu), final(mmu)) == state(old(cpu), old(mmu)).test_bit(
            6,
            Operand8::Reg(Reg8::C),
        ),
        final(mmu)@.timing() == old(mmu)@.timing(),
{
    proof {
        reveal(Machine::test_bit);
    }
    bit_x_n(6, &mut cpu.regs.c, &mut cpu.regs.flags);
}

/// `BIT 6, D`.
pub fn cbx72(cpu: &mut Cpu, mmu: &mut Mmu)
    ensures
        state(final(cpu), final(mmu)) == state(old(cpu), old(mmu)).test_bit(
            6,
            Operand8::Reg(Reg8::D),
        ),
        final(mmu)@.timing() == old(mmu)@.timing(),
{
    proof {
        reveal(Machine::test_bit);
    }
    bit_x_n(6, &mut cpu.regs.d, &mut cpu.regs.flags);
}

/// `BIT 6, E`.
pub fn cbx73(cpu: &mut Cpu, mmu: &mut Mmu)
    ensures
        state(final(cpu), final(mmu)) == state(old(cpu), old(mmu)).test_bit(
            6,
            Operand8::Reg(Reg8::E),
        ),
        final(mmu)@.timing() == old(mmu)@.timing(),
{
    proof {
        reveal(Machine::test_bit);
    }
    bit_x_n(6, &mut cpu.regs.e, &mut cpu.regs.flags);
}

/// `BIT 6, H`.
pub fn cbx74(cpu: &mut Cpu, mmu: &mut Mmu)
    ensures
        state(final(cpu), final(mmu)) == state(old(cpu), old(mmu)).test_bit(
            6,
            Operand8::Reg(Reg8::H),
        ),
        final(mmu)@.timing() == old(mmu)@.timing(),
{
    proof {
        reveal(Machine::test_bit);
    }
    bit_x_n(6, &mut cpu.regs.h, &mut cpu.regs.flags);
}

/// `BIT 6, L`.
pub fn cbx75(cpu: &mut Cpu, mmu: &mut Mmu)
    ensures
        state(final(cpu), final(mmu)) == state(old(cpu), old(mmu)).test_bit(
            6,
            Operand8::Reg(Reg8::L),
        ),
        final(mmu)@.timing() == old(mmu)@.timing(),
{
    proof {
        reveal(Machine::test_bit);
    }
    bit_x_n(6, &mut cpu.regs.l, &mut cpu.regs.flags);
}

/// `BIT 6, (HL)`.
pub fn cbx76(cpu: &mut Cpu, mmu: &mut Mmu)
    ensures
        state(final(cpu), final(mmu)) == state(old(cpu), old(mmu)).test_bit(6, Operand8::HlInd),
        final(mmu)@.timing() == old(mmu)@.timing(),
{
    proof {
        reveal(Machine::test_bit);
    }
    let mut v = mmu.read(cpu.regs.hl());
    bit_x_n(6, &mut v, &mut cpu.regs.flags);
}

/// `BIT 6, A`.
pub fn cbx77(cpu: &mut Cpu, mmu: &mut Mmu)
    ensures
        state(final(cpu), final(mmu)) == state(old(cpu), old(mmu)).test_bit(
            6,
            Operand8::Reg(Reg8::A),
        ),
        final(mmu)@.timing() == old(mmu)@.timing(),
{
    proof {
        reveal(Machine::test_bit);
    }
    bit_x_n(6, &mut cpu.regs.a, &mut cpu.regs.flags);
}

/// `BIT 7, B`.
pub fn cbx78(cpu: &mut Cpu, mmu: &mut Mmu)
    ensures
        state(final(cpu), final(mmu)) == state(old(cpu), old(mmu)).test_bit(
            7,
            Operand8::Reg(Reg8::B),
        ),
        final(mmu)@.timing() == old(mmu)@.timing(),
{
    proof {
        reveal(Machine::test_bit);
    }
    bit_x_n(7, &mut cpu.regs.b, &mut cpu.regs.flags);
}

/// `BIT 7, C`.
pub fn cbx79(cpu: &mut Cpu, mmu: &mut Mmu)
    ensures
        state(final(cpu), final(mmu)) == state(old(cpu), old(mmu)).test_bit(
            7,
            Operand8::Reg(Reg8::C),
        ),
        final(mmu)@.timing() == old(mmu)@.timing(),
{
    proof {
        reveal(Machine::test_bit);
    }
    bit_x_n(7, &mut cpu.regs.c, &mut cpu.regs.flags);
}

/// `BIT 7, D`.
pub fn cbx7A(cpu: &mut Cpu, mmu: &mut Mmu)
    ensures
        state(final(cpu), final(mmu)) == state(old(cpu), old(mmu)).test_bit(
            7,
            Operand8::Reg(Reg8::D),
        ),
        final(mmu)@.timing() == old(mmu)@.timing(),
{
    proof {
        reveal(Machine::test_bit);
    }
    bit_x_n(7, &mut cpu.regs.d, &mut cpu.regs.flags);
}

/// `BIT 7, E`.
pub fn cbx7B(cpu: &mut Cpu, mmu: &mut Mmu)
    ensures
        state(final(cpu), final(mmu)) == state(old(cpu), old(mmu)).test_bit(
            7,
            Operand8::Reg(Reg8::E),
        ),
        final(mmu)@.timing() == old(mmu)@.timing(),
{
    proof {
        reveal(Machine::test_bit);
    }
    bit_x_n(7, &mut cpu.regs.e, &mut cpu.regs.flags);
}

/// `BIT 7, H`.
pub fn cbx7C(cpu: &mut Cpu, mmu: &mut Mmu)
    ensures
        state(final(cpu), final(mmu)) == state(old(cpu), old(mmu)).test_bit(
            7,
            Operand8::Reg(Reg8::H),
        ),
        final(mmu)@.timing() == old(mmu)@.timing(),
{
    proof {
        reveal(Machine::test_bit);
    }
    bit_x_n(7, &mut cpu.regs.h, &mut cpu.regs.flags);
}

/// `BIT 7, L`.
pub fn cbx7D(cpu: &mut Cpu, mmu: &mut Mmu)
    ensures
        state(final(cpu), final(mmu)) == state(old(cpu), old(mmu)).test_bit(
            7,
            Operand8::Reg(Reg8::L),
        ),
        final(mmu)@.timing() == old(mmu)@.timing(),
{
    proof {
        reveal(Machine::test_bit);
    }
    bit_x_n(7, &mut cpu.regs.l, &mut cpu.regs.flags);
}

/// `BIT 7, (HL)`.
pub fn cbx7E(cpu: &mut Cpu, mmu: &mut Mmu)
    ensures
        state(final(cpu), final(mmu)) == state(old(cpu), old(mmu)).test_bit(7, Operand8::HlInd),
        final(mmu)@.timing() == old(mmu)@.timing(),
{
    proof {
        reveal(Machine::test_bit);
    }
    let mut v = mmu.read(cpu.regs.hl());
    bit_x_n(7, &mut v, &mut cpu.regs.flags);
}

/// `BIT 7, A`.
pub fn cbx7F(cpu: &mut Cpu, mmu: &mut Mmu)
    ensures
        state(final(cpu), final(mmu)) == state(old(cpu), old(mmu)).test_bit(
            7,
            Operand8::Reg(Reg8::A),
        ),
        final(mmu)@.timing() == old(mmu)@.timing(),
{
    proof {
        reveal(Machine::test_bit);
    }
    bit_x_n(7, &mut cpu.regs.a, &mut cpu.regs.flags);
}

/// `RES 0, B`.
pub fn cbx80(cpu: &mut Cpu, mmu: &mut Mmu)
    ensures
        state(final(cpu), final(mmu)) == state(old(cpu), old(mmu)).res_bit(
            0,
            Operand8::Reg(Reg8::B),
        ),
        final(mmu)@.timing() == old(mmu)@.timing(),
{
    proof {
        reveal(Machine::res_bit);
    }
    cb_res(&mut cpu.regs.b, 0);
}

/// `RES 0, C`.
pub fn cbx81(cpu: &mut Cpu, mmu: &mut Mmu)
    ensures
        state(final(cpu), final(mmu)) == state(old(cpu), old(mmu)).res_bit(
            0,
            Operand8::Reg(Reg8::C),
        ),
        final(mmu)@.timing() == old(mmu)@.timing(),
{
    proof {
        reveal(Machine::res_bit);
    }
    cb_res(&mut cpu.regs.c, 0);
}

/// `RES 0, D`.
pub fn cbx82(cpu: &mut Cpu, mmu: &mut Mmu)
    ensures
        state(final(cpu), final(mmu)) == state(old(cpu), old(mmu)).res_bit(
            0,
            Operand8::Reg(Reg8::D),
        ),
        final(mmu)@.timing() == old(mmu)@.timing(),
{
    proof {
        reveal(Machine::res_bit);
    }
    cb_res(&mut cpu.regs.d, 0);
}

/// `RES 0, E`.
pub fn cbx83(cpu: &mut Cpu, mmu: &mut Mmu)
    ensures
        state(final(cpu), final(mmu)) == state(old(cpu), old(mmu)).res_bit(
            0,
            Operand8::Reg(Reg8::E),
        ),
        final(mmu)@.timing() == old(mmu)@.timing(),
{
    proof {
        reveal(Machine::res_bit);
    }
    cb_res(&mut cpu.regs.e, 0);
}

/// `RES 0, H`.
pub fn cbx84(cpu: &mut Cpu, mmu: &mut Mmu)
    ensures
        state(final(cpu), final(mmu)) == state(old(cpu), old(mmu)).res_bit(
            0,
            Operand8::Reg(Reg8::H),
        ),
        final(mmu)@.timing() == old(mmu)@.timing(),
{
    proof {
        reveal(Machine::res_bit);
    }
    cb_res(&mut cpu.regs.h, 0);
}

/// `RES 0, L`.
pub fn cbx85(cpu: &mut Cpu, mmu: &mut Mmu)
    ensures
        state(final(cpu), final(mmu)) == state(old(cpu), old(mmu)).res_bit(
            0,
            Operand8::Reg(Reg8::L),
        ),
        final(mmu)@.timing() == old(mmu)@.timing(),
{
    proof {
        reveal(Machine::res_bit);
    }
    cb_res(&mut cpu.regs.l, 0);
}

/// `RES 0, (HL)`.
pub fn cbx86(cpu: &mut Cpu, mmu: &mut Mmu)
    ensures
        state(final(cpu), final(mmu)) == state(old(cpu), old(mmu)).res_bit(0, Operand8::HlInd),
        final(mmu)@.timing() == old(mmu)@.timing(),
{
    proof {
        reveal(Machine::res_bit);
    }
    let addr = cpu.regs.hl();
    let mut v = mmu.read(addr);
    cb_res(&mut v, 0);
    mmu.write(addr, v);
}

/// `RES 0, A`.
pub fn cbx87(cpu: &mut Cpu, mmu: &mut Mmu)
    ensures
        state(final(cpu), final(mmu)) == state(old(cpu), old(mmu)).res_bit(
            0,
            Operand8::Reg(Reg8::A),
        ),
        final(mmu)@.timing() == old(mmu)@.timing(),
{
    proof {
        reveal(Machine::res_bit);
    }
    cb_res(&mut cpu.regs.a, 0);
}

/// `RES 1, B`.
pub fn cbx88(cpu: &mut Cpu, mmu: &mut Mmu)
    ensures
        state(final(cpu), final(mmu)) == state(old(cpu), old(mmu)).res_bit(
            1,
            Operand8::Reg(Reg8::B),
        ),
        final(mmu)@.timing() == old(mmu)@.timing(),
{
    proof {
        reveal(Machine::res_bit);
    }
    cb_res(&mut cpu.regs.b, 1);
}

/// `RES 1, C`.
pub fn cbx89(cpu: &mut Cpu, mmu: &mut Mmu)
    ensures
        state(final(cpu), final(mmu)) == state(old(cpu), old(mmu)).res_bit(
            1,
            Operand8::Reg(Reg8::C),
        ),
        final(mmu)@.timing() == old(mmu)@.timing(),
{
    proof {
        reveal(Machine::res_bit);
    }
    cb_res(&mut cpu.regs.c, 1);
}

/// `RES 1, D`.
pub fn cbx8A(cpu: &mut Cpu, mmu: &mut Mmu)
    ensures
        state(final(cpu), final(mmu)) == state(old(cpu), old(mmu)).res_bit(
            1,
            Operand8::Reg(Reg8::D),
        ),
        final(mmu)@.timing() == old(mmu)@.timing(),
{
    proof {
        reveal(Machine::res_bit);
    }
    cb_res(&mut cpu.regs.d, 1);
}

/// `RES 1, E`.
pub fn cbx8B(cpu: &mut Cpu, mmu: &mut Mmu)
    ensures
        state(final(cpu), final(mmu)) == state(old(cpu), old(mmu)).res_bit(
            1,
            Operand8::Reg(Reg8::E),
        ),
        final(mmu)@.timing() == old(mmu)@.timing(),
{
    proof {
        reveal(Machine::res_bit);
    }
    cb_res(&mut cpu.regs.e, 1);
}

/// `RES 1, H`.
pub fn cbx8C(cpu: &mut Cpu, mmu: &mut Mmu)
    ensures
        state(final(cpu), final(mmu)) == state(old(cpu), old(mmu)).res_bit(
            1,
            Operand8::Reg(Reg8::H),
        ),
        final(mmu)@.timing() == old(mmu)@.timing(),
{
    proof {
        reveal(Machine::res_bit);
    }
    cb_res(&mut cpu.regs.h, 1);
}

/// `RES 1, L`.
pub fn cbx8D(cpu: &mut Cpu, mmu: &mut Mmu)
    ensures
        state(final(cpu), final(mmu)) == state(old(cpu), old(mmu)).res_bit(
            1,
            Operand8::Reg(Reg8::L),
        ),
        final(mmu)@.timing() == old(mmu)@.timing(),
{
    proof {
        reveal(Machine::res_bit);
    }
    cb_res(&mut cpu.regs.l, 1);
}

/// `RES 1, (HL)`.
pub fn cbx8E(cpu: &mut Cpu, mmu: &mut Mmu)
    ensures
        state(final(cpu), final(mmu)) == state(old(cpu), old(mmu)).res_bit(1, Operand8::HlInd),
        final(mmu)@.timing() == old(mmu)@.timing(),
{
    proof {
        reveal(Machine::res_bit);
    }
    let addr = cpu.regs.hl();
    let mut v = mmu.read(addr);
    cb_res(&mut v, 1);
    mmu.write(addr, v);
}

/// `RES 1, A`.
pub fn cbx8F(cpu: &mut Cpu, mmu: &mut Mmu)
    ensures
        state(final(cpu), final(mmu)) == state(old(cpu), old(mmu)).res_bit(
            1,
            Operand8::Reg(Reg8::A),
        ),
        final(mmu)@.timing() == old(mmu)@.timing(),
{
    proof {
        reveal(Machine::res_bit);
    }
    cb_res(&mut cpu.regs.a, 1);
}

/// `RES 2, B`.
pub fn cbx90(cpu: &mut Cpu, mmu: &mut Mmu)
    ensures
        state(final(cpu), final(mmu)) == state(old(cpu), old(mmu)).res_bit(
            2,
            Operand8::Reg(Reg8::B),
        ),
        final(mmu)@.timing() == old(mmu)@.timing(),
{
    proof {
        reveal(Machine::res_bit);
    }
    cb_res(&mut cpu.regs.b, 2);
}

/// `RES 2, C`.
pub fn cbx91(cpu: &mut Cpu, mmu: &mut Mmu)
    ensures
        state(final(cpu), final(mmu)) == state(old(cpu), old(mmu)).res_bit(
            2,
            Operand8::Reg(Reg8::C),
        ),
        final(mmu)@.timing() == old(mmu)@.timing(),
{
    proof {
        reveal(Machine::res_bit);
    }
    cb_res(&mut cpu.regs.c, 2);
}

/// `RES 2, D`.
pub fn cbx92(cpu: &mut Cpu, mmu: &mut Mmu)
    ensures
        state(final(cpu), final(mmu)) == state(old(cpu), old(mmu)).res_bit(
            2,
            Operand8::Reg(Reg8::D),
        ),
        final(mmu)@.timing() == old(mmu)@.timing(),
{
    proof {
        reveal(Machine::res_bit);
    }
    cb_res(&mut cpu.regs.d, 2);
}

/// `RES 2, E`.
pub fn cbx93(cpu: &mut Cpu, mmu: &mut Mmu)
    ensures
        state(final(cpu), final(mmu)) == state(old(cpu), old(mmu)).res_bit(
            2,
            Operand8::Reg(Reg8::E),
        ),
        final(mmu)@.timing() == old(mmu)@.timing(),
{
    proof {
        reveal(Machine::res_bit);
    }
    cb_res(&mut cpu.regs.e, 2);
}

/// `RES 2, H`.
pub fn cbx94(cpu: &mut Cpu, mmu: &mut Mmu)
    ensures
        state(final(cpu), final(mmu)) == state(old(cpu), old(mmu)).res_bit(
            2,
            Operand8::Reg(Reg8::H),
        ),
        final(mmu)@.timing() == old(mmu)@.timing(),
{
    proof {
        reveal(Machine::res_bit);
    }
    cb_res(&mut cpu.regs.h, 2);
}

/// `RES 2, L`.
pub fn cbx95(cpu: &mut Cpu, mmu: &mut Mmu)
    ensures
        state(final(cpu), final(mmu)) == state(old(cpu), old(mmu)).res_bit(
            2,
            Operand8::Reg(Reg8::L),
        ),
        final(mmu)@.timing() == old(mmu)@.timing(),
{
    proof {
        reveal(Machine::res_bit);
    }
    cb_res(&mut cpu.regs.l, 2);
}

/// `RES 2, (HL)`.
pub fn cbx96(cpu: &mut Cpu, mmu: &mut Mmu)
    ensures
        state(final(cpu), final(mmu)) == state(old(cpu), old(mmu)).res_bit(2, Operand8::HlInd),
        final(mmu)@.timing() == old(mmu)@.timing(),
{
    proof {
        reveal(Machine::res_bit);
    }
    let addr = cpu.regs.hl();
    let mut v = mmu.read(addr);
    cb_res(&mut v, 2);
    mmu.write(addr, v);
}

/// `RES 2, A`.
pub fn cbx97(cpu: &mut Cpu, mmu: &mut Mmu)
    ensures
        state(final(cpu), final(mmu)) == state(old(cpu), old(mmu)).res_bit(
            2,
            Operand8::Reg(Reg8::A),
        ),
        final(mmu)@.timing() == old(mmu)@.timing(),
{
    proof {
        reveal(Machine::res_bit);
    }
    cb_res(&mut cpu.regs.a, 2);
}

/// `RES 3, B`.
pub fn cbx98(cpu: &mut Cpu, mmu: &mut Mmu)
    ensures
        state(final(cpu), final(mmu)) == state(old(cpu), old(mmu)).res_bit(
            3,
            Operand8::Reg(Reg8::B),
        ),
        final(mmu)@.timing() == old(mmu)@.timing(),
{
    proof {
        reveal(Machine::res_bit);
    }
    cb_res(&mut cpu.regs.b, 3);
}

/// `RES 3, C`.
pub fn cbx99(cpu: &mut Cpu, mmu: &mut Mmu)
    ensures
        state(final(cpu), final(mmu)) == state(old(cpu), old(mmu)).res_bit(
            3,
            Operand8::Reg(Reg8::C),
        ),
        final(mmu)@.timing() == old(mmu)@.timing(),
{
    proof {
        reveal(Machine::res_bit);
    }
    cb_res(&mut cpu.regs.c, 3);
}

/// `RES 3, D`.
pub fn cbx9A(cpu: &mut Cpu, mmu: &mut Mmu)
    ensures
        state(final(cpu), final(mmu)) == state(old(cpu), old(mmu)).res_bit(
            3,
            Operand8::Reg(Reg8::D),
        ),
        final(mmu)@.timing() == old(mmu)@.timing(),
{
    proof {
        reveal(Machine::res_bit);
    }
    cb_res(&mut cpu.regs.d, 3);
}

/// `RES 3, E`.
pub fn cbx9B(cpu: &mut Cpu, mmu: &mut Mmu)
    ensures
        state(final(cpu), final(mmu)) == state(old(cpu), old(mmu)).res_bit(
            3,
            Operand8::Reg(Reg8::E),
        ),
        final(mmu)@.timing() == old(mmu)@.timing(),
{
    proof {
        reveal(Machine::res_bit);
    }
    cb_res(&mut cpu.regs.e, 3);
}

/// `RES 3, H`.
pub fn cbx9C(cpu: &mut Cpu, mmu: &mut Mmu)
    ensures
        state(final(cpu), final(mmu)) == state(old(cpu), old(mmu)).res_bit(
            3,
            Operand8::Reg(Reg8::H),
        ),
        final(mmu)@.timing() == old(mmu)@.timing(),
{
    proof {
        reveal(Machine::res_bit);
    }
    cb_res(&mut cpu.regs.h, 3);
}

/// `RES 3, L`.
pub fn cbx9D(cpu: &mut Cpu, mmu: &mut Mmu)
    ensures
        state(final(cpu), final(mmu)) == state(old(cpu), old(mmu)).res_bit(
            3,
            Operand8::Reg(Reg8::L),
        ),
        final(mmu)@.timing() == old(mmu)@.timing(),
{
    proof {
        reveal(Machine::res_bit);
    }
    cb_res(&mut cpu.regs.l, 3);
}

/// `RES 3, (HL)`.
pub fn cbx9E(cpu: &mut Cpu, mmu: &mut Mmu)
    ensures
        state(final(cpu), final(mmu)) == state(old(cpu), old(mmu)).res_bit(3, Operand8::HlInd),
        final(mmu)@.timing() == old(mmu)@.timing(),
{
    proof {
        reveal(Machine::res_bit);
    }
    let addr = cpu.regs.hl();
    let mut v = mmu.read(addr);
    cb_res(&mut v, 3);
    mmu.write(addr, v);
}

/// `RES 3, A`.
pub fn cbx9F(cpu: &mut Cpu, mmu: &mut Mmu)
    ensures
        state(final(cpu), final(mmu)) == state(old(cpu), old(mmu)).res_bit(
            3,
            Operand8::Reg(Reg8::A),
        ),
        final(mmu)@.timing() == old(mmu)@.timing(),
{
    proof {
        reveal(Machine::res_bit);
    }
    cb_res(&mut cpu.regs.a, 3);
}

/// `RES 4, B`.
pub fn cbxA0(cpu: &mut Cpu, mmu: &mut Mmu)
    ensures
        state(final(cpu), final(mmu)) == state(old(cpu), old(mmu)).res_bit(
            4,
            Operand8::Reg(Reg8::B),
        ),
        final(mmu)@.timing() == old(mmu)@.timing(),
{
    proof {
        reveal(Machine::res_bit);
    }
    cb_res(&mut cpu.regs.b, 4);
}

/// `RES 4, C`.
pub fn cbxA1(cpu: &mut Cpu, mmu: &mut Mmu)
    ensures
        state(final(cpu), final(mmu)) == state(old(cpu), old(mmu)).res_bit(
            4,
            Operand8::Reg(Reg8::C),
        ),
        final(mmu)@.timing() == old(mmu)@.timing(),
{
    proof {
        reveal(Machine::res_bit);
    }
    cb_res(&mut cpu.regs.c, 4);
}

/// `RES 4, D`.
pub fn cbxA2(cpu: &mut Cpu, mmu: &mut Mmu)
    ensures
        state(final(cpu), final(mmu)) == state(old(cpu), old(mmu)).res_bit(
            4,
            Operand8::Reg(Reg8::D),
        ),
        final(mmu)@.timing() == old(mmu)@.timing(),
{
    proof {
        reveal(Machine::res_bit);
    }
    cb_res(&mut cpu.regs.d, 4);
}

/// `RES 4, E`.
pub fn cbxA3(cpu: &mut Cpu, mmu: &mut Mmu)
    ensures
        state(final(cpu), final(mmu)) == state(old(cpu), old(mmu)).res_bit(
            4,
            Operand8::Reg(Reg8::E),
        ),
        final(mmu)@.timing() == old(mmu)@.timing(),
{
    proof {
        reveal(Machine::res_bit);
    }
    cb_res(&mut cpu.regs.e, 4);
}

/// `RES 4, H`.
pub fn cbxA4(cpu: &mut Cpu, mmu: &mut Mmu)
    ensures
        state(final(cpu), final(mmu)) == state(old(cpu), old(mmu)).res_bit(
            4,
            Operand8::Reg(Reg8::H),
        ),
        final(mmu)@.timing() == old(mmu)@.timing(),
{
    proof {
        reveal(Machine::res_bit);
    }
    cb_res(&mut cpu.regs.h, 4);
}

/// `RES 4, L`.
pub fn cbxA5(cpu: &mut Cpu, mmu: &mut Mmu)
    ensures
        state(final(cpu), final(mmu)) == state(old(cpu), old(mmu)).res_bit(
            4,
            Operand8::Reg(Reg8::L),
        ),
        final(mmu)@.timing() == old(mmu)@.timing(),
{
    proof {
        reveal(Machine::res_bit);
    }
    cb_res(&mut cpu.regs.l, 4);
}

/// `RES 4, (HL)`.
pub fn cbxA6(cpu: &mut Cpu, mmu: &mut Mmu)
    ensures
        state(final(cpu), final(mmu)) == state(old(cpu), old(mmu)).res_bit(4, Operand8::HlInd),
        final(mmu)@.timing() == old(mmu)@.timing(),
{
    proof {
        reveal(Machine::res_bit);
    }
    let addr = cpu.regs.hl();
    let mut v = mmu.read(addr);
    cb_res(&mut v, 4);
    mmu.write(addr, v);
}

/// `RES 4, A`.
pub fn cbxA7(cpu: &mut Cpu, mmu: &mut Mmu)
    ensures
        state(final(cpu), final(mmu)) == state(old(cpu), old(mmu)).res_bit(
            4,
            Operand8::Reg(Reg8::A),
        ),
        final(mmu)@.timing() == old(mmu)@.timing(),
{
    proof {
        reveal(Machine::res_bit);
    }
    cb_res(&mut cpu.regs.a, 4);
}

/// `RES 5, B`.
pub fn cbxA8(cpu: &mut Cpu, mmu: &mut Mmu)
    ensures
        state(final(cpu), final(mmu)) == state(old(cpu), old(mmu)).res_bit(
            5,
            Operand8::Reg(Reg8::B),
        ),
        final(mmu)@.timing() == old(mmu)@.timing(),
{
    proof {
        reveal(Machine::res_bit);
    }
    cb_res(&mut cpu.regs.b, 5);
}

/// `RES 5, C`.
pub fn cbxA9(cpu: &mut Cpu, mmu: &mut Mmu)
    ensures
        state(final(cpu), final(mmu)) == state(old(cpu), old(mmu)).res_bit(
            5,
            Operand8::Reg(Reg8::C),
        ),
        final(mmu)@.timing() == old(mmu)@.timing(),
{
    proof {
        reveal(Machine::res_bit);
    }
    cb_res(&mut cpu.regs.c, 5);
}

/// `RES 5, D`.
pub fn cbxAA(cpu: &mut Cpu, mmu: &mut Mmu)
    ensures
        state(final(cpu), final(mmu)) == state(old(cpu), old(mmu)).res_bit(
            5,
            Operand8::Reg(Reg8::D),
        ),
        final(mmu)@.timing() == old(mmu)@.timing(),
{
    proof {
        reveal(Machine::res_bit);
    }
    cb_res(&mut cpu.regs.d, 5);
}

/// `RES 5, E`.
pub fn cbxAB(cpu: &mut Cpu, mmu: &mut Mmu)
    ensures
        state(final(cpu), final(mmu)) == state(old(cpu), old(mmu)).res_bit(
            5,
            Operand8::Reg(Reg8::E),
        ),
        final(mmu)@.timing() == old(mmu)@.timing(),
{
    proof {
        reveal(Machine::res_bit);
    }
    cb_res(&mut cpu.regs.e, 5);
}

/// `RES 5, H`.
pub fn cbxAC(cpu: &mut Cpu, mmu: &mut Mmu)
    ensures
        state(final(cpu), final(mmu)) == state(old(cpu), old(mmu)).res_bit(
            5,
            Operand8::Reg(Reg8::H),
        ),
        final(mmu)@.timing() == old(mmu)@.timing(),
{
    proof {
        reveal(Machine::res_bit);
    }
    cb_res(&mut cpu.regs.h, 5);
}

/// `RES 5, L`.
pub fn cbxAD(cpu: &mut Cpu, mmu: &mut Mmu)
    ensures
        state(final(cpu), final(mmu)) == state(old(cpu), old(mmu)).res_bit(
            5,
            Operand8::Reg(Reg8::L),
        ),
        final(mmu)@.timing() == old(mmu)@.timing(),
{
    proof {
        reveal(Machine::res_bit);
    }
    cb_res(&mut cpu.regs.l, 5);
}

/// `RES 5, (HL)`.
pub fn cbxAE(cpu: &mut Cpu, mmu: &mut Mmu)
    ensures
        state(final(cpu), final(mmu)) == state(old(cpu), old(mmu)).res_bit(5, Operand8::HlInd),
        final(mmu)@.timing() == old(mmu)@.timing(),
{
    proof {
        reveal(Machine::res_bit);
    }
    let addr = cpu.regs.hl();
    let mut v = mmu.read(addr);
    cb_res(&mut v, 5);
    mmu.write(addr, v);
}

/// `RES 5, A`.
pub fn cbxAF(cpu: &mut Cpu, mmu: &mut Mmu)
    ensures
        state(final(cpu), final(mmu)) == state(old(cpu), old(mmu)).res_bit(
            5,
            Operand8::Reg(Reg8::A),
        ),
        final(mmu)@.timing() == old(mmu)@.timing(),
{
    proof {
        reveal(Machine::res_bit);
    }
    cb_res(&mut cpu.regs.a, 5);
}

/// `RES 6, B`.
pub fn cbxB0(cpu: &mut Cpu, mmu: &mut Mmu)
    ensures
        state(final(cpu), final(mmu)) == state(old(cpu), old(mmu)).res_bit(
            6,
            Operand8::Reg(Reg8::B),
        ),
        final(mmu)@.timing() == old(mmu)@.timing(),
{
    proof {
        reveal(Machine::res_bit);
    }
    cb_res(&mut cpu.regs.b, 6);
}

/// `RES 6, C`.
pub fn cbxB1(cpu: &mut Cpu, mmu: &mut Mmu)
    ensures
        state(final(cpu), final(mmu)) == state(old(cpu), old(mmu)).res_bit(
            6,
            Operand8::Reg(Reg8::C),
        ),
        final(mmu)@.timing() == old(mmu)@.timing(),
{
    proof {
        reveal(Machine::res_bit);
    }
    cb_res(&mut cpu.regs.c, 6);
}

/// `RES 6, D`.
pub fn cbxB2(cpu: &mut Cpu, mmu: &mut Mmu)
    ensures
        state(final(cpu), final(mmu)) == state(old(cpu), old(mmu)).res_bit(
            6,
            Operand8::Reg(Reg8::D),
        ),
        final(mmu)@.timing() == old(mmu)@.timing(),
{
    proof {
        reveal(Machine::res_bit);
    }
    cb_res(&mut cpu.regs.d, 6);
}

/// `RES 6, E`.
pub fn cbxB3(cpu: &mut Cpu, mmu: &mut Mmu)
    ensures
        state(final(cpu), final(mmu)) == state(old(cpu), old(mmu)).res_bit(
            6,
            Operand8::Reg(Reg8::E),
        ),
        final(mmu)@.timing() == old(mmu)@.timing(),
{
    proof {
        reveal(Machine::res_bit);
    }
    cb_res(&mut cpu.regs.e, 6);
}

/// `RES 6, H`.
pub fn cbxB4(cpu: &mut Cpu, mmu: &mut Mmu)
    ensures
        state(final(cpu), final(mmu)) == state(old(cpu), old(mmu)).res_bit(
            6,
            Operand8::Reg(Reg8::H),
        ),
        final(mmu)@.timing() == old(mmu)@.timing(),
{
    proof {
        reveal(Machine::res_bit);
    }
    cb_res(&mut cpu.regs.h, 6);
}

/// `RES 6, L`.
pub fn cbxB5(cpu: &mut Cpu, mmu: &mut Mmu)
    ensures
        state(final(cpu), final(mmu)) == state(old(cpu), old(mmu)).res_bit(
            6,
            Operand8::Reg(Reg8::L),
        ),
        final(mmu)@.timing() == old(mmu)@.timing(),
{
    proof {
        reveal(Machine::res_bit);
    }
    cb_res(&mut cpu.regs.l, 6);
}

/// `RES 6, (HL)`.
pub fn cbxB6(cpu: &mut Cpu, mmu: &mut Mmu)
    ensures
        state(final(cpu), final(mmu)) == state(old(cpu), old(mmu)).res_bit(6, Operand8::HlInd),
        final(mmu)@.timing() == old(mmu)@.timing(),
{
    proof {
        reveal(Machine::res_bit);
    }
    let addr = cpu.regs.hl();
    let mut v = mmu.read(addr);
    cb_res(&mut v, 6);
    mmu.write(addr, v);
}

/// `RES 6, A`.
pub fn cbxB7(cpu: &mut Cpu, mmu: &mut Mmu)
    ensures
        state(final(cpu), final(mmu)) == state(old(cpu), old(mmu)).res_bit(
            6,
            Operand8::Reg(Reg8::A),
        ),
        final(mmu)@.timing() == old(mmu)@.timing(),
{
    proof {
        reveal(Machine::res_bit);
    }
    cb_res(&mut cpu.regs.a, 6);
}

/// `RES 7, B`.
pub fn cbxB8(cpu: &mut Cpu, mmu: &mut Mmu)
    ensures
        state(final(cpu), final(mmu)) == state(old(cpu), old(mmu)).res_bit(
            7,
            Operand8::Reg(Reg8::B),
        ),
        final(mmu)@.timing() == old(mmu)@.timing(),
{
    proof {
        reveal(Machine::res_bit);
    }
    cb_res(&mut cpu.regs.b, 7);
}

/// `RES 7, C`.
pub fn cbxB9(cpu: &mut Cpu, mmu: &mut Mmu)
    ensures
        state(final(cpu), final(mmu)) == state(old(cpu), old(mmu)).res_bit(
            7,
            Operand8::Reg(Reg8::C),
        ),
        final(mmu)@.timing() == old(mmu)@.timing(),
{
    proof {
        reveal(Machine::res_bit);
    }
    cb_res(&mut cpu.regs.c, 7);
}

/// `RES 7, D`.
pub fn cbxBA(cpu: &mut Cpu, mmu: &mut Mmu)
    ensures
        state(final(cpu), final(mmu)) == state(old(cpu), old(mmu)).res_bit(
            7,
            Operand8::Reg(Reg8::D),
        ),
        final(mmu)@.timing() == old(mmu)@.timing(),
{
    proof {
        reveal(Machine::res_bit);
    }
    cb_res(&mut cpu.regs.d, 7);
}

/// `RES 7, E`.
pub fn cbxBB(cpu: &mut Cpu, mmu: &mut Mmu)
    ensures
        state(final(cpu), final(mmu)) == state(old(cpu), old(mmu)).res_bit(
            7,
            Operand8::Reg(Reg8::E),
        ),
        final(mmu)@.timing() == old(mmu)@.timing(),
{
    proof {
        reveal(Machine::res_bit);
    }
    cb_res(&mut cpu.regs.e, 7);
}

/// `RES 7, H`.
pub fn cbxBC(cpu: &mut Cpu, mmu: &mut Mmu)
    ensures
        state(final(cpu), final(mmu)) == state(old(cpu), old(mmu)).res_bit(
            7,
            Operand8::Reg(Reg8::H),
        ),
        final(mmu)@.timing() == old(mmu)@.timing(),
{
    proof {
        reveal(Machine::res_bit);
    }
    cb_res(&mut cpu.regs.h, 7);
}

/// `RES 7, L`.
pub fn cbxBD(cpu: &mut Cpu, mmu: &mut Mmu)
    ensures
        state(final(cpu), final(mmu)) == state(old(cpu), old(mmu)).res_bit(
            7,
            Operand8::Reg(Reg8::L),
        ),
        final(mmu)@.timing() == old(mmu)@.timing(),
{
    proof {
        reveal(Machine::res_bit);
    }
    cb_res(&mut cpu.regs.l, 7);
}

/// `RES 7, (HL)`.
pub fn cbxBE(cpu: &mut Cpu, mmu: &mut Mmu)
    ensures
        state(final(cpu), final(mmu)) == state(old(cpu), old(mmu)).res_bit(7, Operand8::HlInd),
        final(mmu)@.timing() == old(mmu)@.timing(),
{
    proof {
        reveal(Machine::res_bit);
    }
    let addr = cpu.regs.hl();
    let mut v = mmu.read(addr);
    cb_res(&mut v, 7);
    mmu.write(addr, v);
}

/// `RES 7, A`.
pub fn cbxBF(cpu: &mut Cpu, mmu: &mut Mmu)
    ensures
        state(final(cpu), final(mmu)) == state(old(cpu), old(mmu)).res_bit(
            7,
            Operand8::Reg(Reg8::A),
        ),
        final(mmu)@.timing() == old(mmu)@.timing(),
{
    proof {
        reveal(Machine::res_bit);
    }
    cb_res(&mut cpu.regs.a, 7);
}

/// `SET 0, B`.
pub fn cbxC0(cpu: &mut Cpu, mmu: &mut Mmu)
    ensures
        state(final(cpu), final(mmu)) == state(old(cpu), old(mmu)).set_bit(
            0,
            Operand8::Reg(Reg8::B),
        ),
        final(mmu)@.timing() == old(mmu)@.timing(),
{
    proof {
        reveal(Machine::set_bit);
    }
    cb_set(&mut cpu.regs.b, 0);
}

/// `SET 0, C`.
pub fn cbxC1(cpu: &mut Cpu, mmu: &mut Mmu)
    ensures
        state(final(cpu), final(mmu)) == state(old(cpu), old(mmu)).set_bit(
            0,
            Operand8::Reg(Reg8::C),
        ),
        final(mmu)@.timing() == old(mmu)@.timing(),
{
    proof {
        reveal(Machine::set_bit);
    }
    cb_set(&mut cpu.regs.c, 0);
}

/// `SET 0, D`.
pub fn cbxC2(cpu: &mut Cpu, mmu: &mut Mmu)
    ensures
        state(final(cpu), final(mmu)) == state(old(cpu), old(mmu)).set_bit(
            0,
            Operand8::Reg(Reg8::D),
        ),
        final(mmu)@.timing() == old(mmu)@.timing(),
{
    proof {
        reveal(Machine::set_bit);
    }
    cb_set(&mut cpu.regs.d, 0);
}

/// `SET 0, E`.
pub fn cbxC3(cpu: &mut Cpu, mmu: &mut Mmu)
    ensures
        state(final(cpu), final(mmu)) == state(old(cpu), old(mmu)).set_bit(
            0,
            Operand8::Reg(Reg8::E),
        ),
        final(mmu)@.timing() == old(mmu)@.timing(),
{
    proof {
        reveal(Machine::set_bit);
    }
    cb_set(&mut cpu.regs.e, 0);
}

/// `SET 0, H`.
pub fn cbxC4(cpu: &mut Cpu, mmu: &mut Mmu)
    ensures
        state(final(cpu), final(mmu)) == state(old(cpu), old(mmu)).set_bit(
            0,
            Operand8::Reg(Reg8::H),
        ),
        final(mmu)@.timing() == old(mmu)@.timing(),
{
    proof {
        reveal(Machine::set_bit);
    }
    cb_set(&mut cpu.regs.h, 0);
}

/// `SET 0, L`.
pub fn cbxC5(cpu: &mut Cpu, mmu: &mut Mmu)
    ensures
        state(final(cpu), final(mmu)) == state(old(cpu), old(mmu)).set_bit(
            0,
            Operand8::Reg(Reg8::L),
        ),
        final(mmu)@.timing() == old(mmu)@.timing(),
{
    proof {
        reveal(Machine::set_bit);
    }
    cb_set(&mut cpu.regs.l, 0);
}

/// `SET 0, (HL)`.
pub fn cbxC6(cpu: &mut Cpu, mmu: &mut Mmu)
    ensures
        state(final(cpu), final(mmu)) == state(old(cpu), old(mmu)).set_bit(0, Operand8::HlInd),
        final(mmu)@.timing() == old(mmu)@.timing(),
{
    proof {
        reveal(Machine::set_bit);
    }
    let addr = cpu.regs.hl();
    let mut v = mmu.read(addr);
    cb_set(&mut v, 0);
    mmu.write(addr, v);
}

/// `SET 0, A`.
pub fn cbxC7(cpu: &mut Cpu, mmu: &mut Mmu)
    ensures
        state(final(cpu), final(mmu)) == state(old(cpu), old(mmu)).set_bit(
            0,
            Operand8::Reg(Reg8::A),
        ),
        final(mmu)@.timing() == old(mmu)@.timing(),
{
    proof {
        reveal(Machine::set_bit);
    }
    cb_set(&mut cpu.regs.a, 0);
}

/// `SET 1, B`.
pub fn cbxC8(cpu: &mut Cpu, mmu: &mut Mmu)
    ensures
        state(final(cpu), final(mmu)) == state(old(cpu), old(mmu)).set_bit(
            1,
            Operand8::Reg(Reg8::B),
        ),
        final(mmu)@.timing() == old(mmu)@.timing(),
{
    proof {
        reveal(Machine::set_bit);
    }
    cb_set(&mut cpu.regs.b, 1);
}

/// `SET 1, C`.
pub fn cbxC9(cpu: &mut Cpu, mmu: &mut Mmu)
    ensures
        state(final(cpu), final(mmu)) == state(old(cpu), old(mmu)).set_bit(
            1,
            Operand8::Reg(Reg8::C),
        ),
        final(mmu)@.timing() == old(mmu)@.timing(),
{
    proof {
        reveal(Machine::set_bit);
    }
    cb_set(&mut cpu.regs.c, 1);
}

/// `SET 1, D`.
pub fn cbxCA(cpu: &mut Cpu, mmu: &mut Mmu)
    ensures
        state(final(cpu), final(mmu)) == state(old(cpu), old(mmu)).set_bit(
            1,
            Operand8::Reg(Reg8::D),
        ),
        final(mmu)@.timing() == old(mmu)@.timing(),
{
    proof {
        reveal(Machine::set_bit);
    }
    cb_set(&mut cpu.regs.d, 1);
}

/// `SET 1, E`.
pub fn cbxCB(cpu: &mut Cpu, mmu: &mut Mmu)
    ensures
        state(final(cpu), final(mmu)) == state(old(cpu), old(mmu)).set_bit(
            1,
            Operand8::Reg(Reg8::E),
        ),
        final(mmu)@.timing() == old(mmu)@.timing(),
{
    proof {
        reveal(Machine::set_bit);
    }
    cb_set(&mut cpu.regs.e, 1);
}

/// `SET 1, H`.
pub fn cbxCC(cpu: &mut Cpu, mmu: &mut Mmu)
    ensures
        state(final(cpu), final(mmu)) == state(old(cpu), old(mmu)).set_bit(
            1,
            Operand8::Reg(Reg8::H),
        ),
        final(mmu)@.timing() == old(mmu)@.timing(),
{
    proof {
        reveal(Machine::set_bit);
    }
    cb_set(&mut cpu.regs.h, 1);
}

/// `SET 1, L`.
pub fn cbxCD(cpu: &mut Cpu, mmu: &mut Mmu)
    ensures
        state(final(cpu), final(mmu)) == state(old(cpu), old(mmu)).set_bit(
            1,
            Operand8::Reg(Reg8::L),
        ),
        final(mmu)@.timing() == old(mmu)@.timing(),
{
    proof {
        reveal(Machine::set_bit);
    }
    cb_set(&mut cpu.regs.l, 1);
}

/// `SET 1, (HL)`.
pub fn cbxCE(cpu: &mut Cpu, mmu: &mut Mmu)
    ensures
        state(final(cpu), final(mmu)) == state(old(cpu), old(mmu)).set_bit(1, Operand8::HlInd),
        final(mmu)@.timing() == old(mmu)@.timing(),
{
    proof {
        reveal(Machine::set_bit);
    }
    let addr = cpu.regs.hl();
    let mut v = mmu.read(addr);
    cb_set(&mut v, 1);
    mmu.write(addr, v);
}

/// `SET 1, A`.
pub fn cbxCF(cpu: &mut Cpu, mmu: &mut Mmu)
    ensures
        state(final(cpu), final(mmu)) == state(old(cpu), old(mmu)).set_bit(
            1,
            Operand8::Reg(Reg8::A),
        ),
        final(mmu)@.timing() == old(mmu)@.timing(),
{
    proof {
        reveal(Machine::set_bit);
    }
    cb_set(&mut cpu.regs.a, 1);
}

/// `SET 2, B`.
pub fn cbxD0(cpu: &mut Cpu, mmu: &mut Mmu)
    ensures
        state(final(cpu), final(mmu)) == state(old(cpu), old(mmu)).set_bit(
            2,
            Operand8::Reg(Reg8::B),
        ),
        final(mmu)@.timing() == old(mmu)@.timing(),
{
    proof {
        reveal(Machine::set_bit);
    }
    cb_set(&mut cpu.regs.b, 2);
}

/// `SET 2, C`.
pub fn cbxD1(cpu: &mut Cpu, mmu: &mut Mmu)
    ensures
        state(final(cpu), final(mmu)) == state(old(cpu), old(mmu)).set_bit(
            2,
            Operand8::Reg(Reg8::C),
        ),
        final(mmu)@.timing() == old(mmu)@.timing(),
{
    proof {
        reveal(Machine::set_bit);
    }
    cb_set(&mut cpu.regs.c, 2);
}

/// `SET 2, D`.
pub fn cbxD2(cpu: &mut Cpu, mmu: &mut Mmu)
    ensures
        state(final(cpu), final(mmu)) == state(old(cpu), old(mmu)).set_bit(
            2,
            Operand8::Reg(Reg8::D),
        ),
        final(mmu)@.timing() == old(mmu)@.timing(),
{
    proof {
        reveal(Machine::set_bit);
    }
    cb_set(&mut cpu.regs.d, 2);
}

/// `SET 2, E`.
pub fn cbxD3(cpu: &mut Cpu, mmu: &mut Mmu)
    ensures
        state(final(cpu), final(mmu)) == state(old(cpu), old(mmu)).set_bit(
            2,
            Operand8::Reg(Reg8::E),
        ),
        final(mmu)@.timing() == old(mmu)@.timing(),
{
    proof {
        reveal(Machine::set_bit);
    }
    cb_set(&mut cpu.regs.e, 2);
}

/// `SET 2, H`.
pub fn cbxD4(cpu: &mut Cpu, mmu: &mut Mmu)
    ensures
        state(final(cpu), final(mmu)) == state(old(cpu), old(mmu)).set_bit(
            2,
            Operand8::Reg(Reg8::H),
        ),
        final(mmu)@.timing() == old(mmu)@.timing(),
{
    proof {
        reveal(Machine::set_bit);
    }
    cb_set(&mut cpu.regs.h, 2);
}

/// `SET 2, L`.
pub fn cbxD5(cpu: &mut Cpu, mmu: &mut Mmu)
    ensures
        state(final(cpu), final(mmu)) == state(old(cpu), old(mmu)).set_bit(
            2,
            Operand8::Reg(Reg8::L),
        ),
        final(mmu)@.timing() == old(mmu)@.timing(),
{
    proof {
        reveal(Machine::set_bit);
    }
    cb_set(&mut cpu.regs.l, 2);
}

/// `SET 2, (HL)`.
pub fn cbxD6(cpu: &mut Cpu, mmu: &mut Mmu)
    ensures
        state(final(cpu), final(mmu)) == state(old(cpu), old(mmu)).set_bit(2, Operand8::HlInd),
        final(mmu)@.timing() == old(mmu)@.timing(),
{
    proof {
        reveal(Machine::set_bit);
    }
    let addr = cpu.regs.hl();
    let mut v = mmu.read(addr);
    cb_set(&mut v, 2);
    mmu.write(addr, v);
}

/// `SET 2, A`.
pub fn cbxD7(cpu: &mut Cpu, mmu: &mut Mmu)
    ensures
        state(final(cpu), final(mmu)) == state(old(cpu), old(mmu)).set_bit(
            2,
            Operand8::Reg(Reg8::A),
        ),
        final(mmu)@.timing() == old(mmu)@.timing(),
{
    proof {
        reveal(Machine::set_bit);
    }
    cb_set(&mut cpu.regs.a, 2);
}

/// `SET 3, B`.
pub fn cbxD8(cpu: &mut Cpu, mmu: &mut Mmu)
    ensures
        state(final(cpu), final(mmu)) == state(old(cpu), old(mmu)).set_bit(
            3,
            Operand8::Reg(Reg8::B),
        ),
        final(mmu)@.timing() == old(mmu)@.timing(),
{
    proof {
        reveal(Machine::set_bit);
    }
    cb_set(&mut cpu.regs.b, 3);
}

/// `SET 3, C`.
pub fn cbxD9(cpu: &mut Cpu, mmu: &mut Mmu)
    ensures
        state(final(cpu), final(mmu)) == state(old(cpu), old(mmu)).set_bit(
            3,
            Operand8::Reg(Reg8::C),
        ),
        final(mmu)@.timing() == old(mmu)@.timing(),
{
    proof {
        reveal(Machine::set_bit);
    }
    cb_set(&mut cpu.regs.c, 3);
}

/// `SET 3, D`.
pub fn cbxDA(cpu: &mut Cpu, mmu: &mut Mmu)
    ensures
        state(final(cpu), final(mmu)) == state(old(cpu), old(mmu)).set_bit(
            3,
            Operand8::Reg(Reg8::D),
        ),
        final(mmu)@.timing() == old(mmu)@.timing(),
{
    proof {
        reveal(Machine::set_bit);
    }
    cb_set(&mut cpu.regs.d, 3);
}

/// `SET 3, E`.
pub fn cbxDB(cpu: &mut Cpu, mmu: &mut Mmu)
    ensures
        state(final(cpu), final(mmu)) == state(old(cpu), old(mmu)).set_bit(
            3,
            Operand8::Reg(Reg8::E),
        ),
        final(mmu)@.timing() == old(mmu)@.timing(),
{
    proof {
        reveal(Machine::set_bit);
    }
    cb_set(&mut cpu.regs.e, 3);
}

/// `SET 3, H`.
pub fn cbxDC(cpu: &mut Cpu, mmu: &mut Mmu)
    ensures
        state(final(cpu), final(mmu)) == state(old(cpu), old(mmu)).set_bit(
            3,
            Operand8::Reg(Reg8::H),
        ),
        final(mmu)@.timing() == old(mmu)@.timing(),
{
    proof {
        reveal(Machine::set_bit);
    }
    cb_set(&mut cpu.regs.h, 3);
}

/// `SET 3, L`.
pub fn cbxDD(cpu: &mut Cpu, mmu: &mut Mmu)
    ensures
        state(final(cpu), final(mmu)) == state(old(cpu), old(mmu)).set_bit(
            3,
            Operand8::Reg(Reg8::L),
        ),
        final(mmu)@.timing() == old(mmu)@.timing(),
{
    proof {
        reveal(Machine::set_bit);
    }
    cb_set(&mut cpu.regs.l, 3);
}

/// `SET 3, (HL)`.
pub fn cbxDE(cpu: &mut Cpu, mmu: &mut Mmu)
    ensures
        state(final(cpu), final(mmu)) == state(old(cpu), old(mmu)).set_bit(3, Operand8::HlInd),
        final(mmu)@.timing() == old(mmu)@.timing(),
{
    proof {
        reveal(Machine::set_bit);
    }
    let addr = cpu.regs.hl();
    let mut v = mmu.read(addr);
    cb_set(&mut v, 3);
    mmu.write(addr, v);
}

/// `SET 3, A`.
pub fn cbxDF(cpu: &mut Cpu, mmu: &mut Mmu)
    ensures
        state(final(cpu), final(mmu)) == state(old(cpu), old(mmu)).set_bit(
            3,
            Operand8::Reg(Reg8::A),
        ),
        final(mmu)@.timing() == old(mmu)@.timing(),
{
    proof {
        reveal(Machine::set_bit);
    }
    cb_set(&mut cpu.regs.a, 3);
}

/// `SET 4, B`.
pub fn cbxE0(cpu: &mut Cpu, mmu: &mut Mmu)
    ensures
        state(final(cpu), final(mmu)) == state(old(cpu), old(mmu)).set_bit(
            4,
            Operand8::Reg(Reg8::B),
        ),
        final(mmu)@.timing() == old(mmu)@.timing(),
{
    proof {
        reveal(Machine::set_bit);
    }
    cb_set(&mut cpu.regs.b, 4);
}

/// `SET 4, C`.
pub fn cbxE1(cpu: &mut Cpu, mmu: &mut Mmu)
    ensures
        state(final(cpu), final(mmu)) == state(old(cpu), old(mmu)).set_bit(
            4,
            Operand8::Reg(Reg8::C),
        ),
        final(mmu)@.timing() == old(mmu)@.timing(),
{
    proof {
        reveal(Machine::set_bit);
    }
    cb_set(&mut cpu.regs.c, 4);
}

/// `SET 4, D`.
pub fn cbxE2(cpu: &mut Cpu, mmu: &mut Mmu)
    ensures
        state(final(cpu), final(mmu)) == state(old(cpu), old(mmu)).set_bit(
            4,
            Operand8::Reg(Reg8::D),
        ),
        final(mmu)@.timing() == old(mmu)@.timing(),
{
    proof {
        reveal(Machine::set_bit);
    }
    cb_set(&mut cpu.regs.d, 4);
}

/// `SET 4, E`.
pub fn cbxE3(cpu: &mut Cpu, mmu: &mut Mmu)
    ensures
        state(final(cpu), final(mmu)) == state(old(cpu), old(mmu)).set_bit(
            4,
            Operand8::Reg(Reg8::E),
        ),
        final(mmu)@.timing() == old(mmu)@.timing(),
{
    proof {
        reveal(Machine::set_bit);
    }
    cb_set(&mut cpu.regs.e, 4);
}

/// `SET 4, H`.
pub fn cbxE4(cpu: &mut Cpu, mmu: &mut Mmu)
    ensures
        state(final(cpu), final(mmu)) == state(old(cpu), old(mmu)).set_bit(
            4,
            Operand8::Reg(Reg8::H),
        ),
        final(mmu)@.timing() == old(mmu)@.timing(),
{
    proof {
        reveal(Machine::set_bit);
    }
    cb_set(&mut cpu.regs.h, 4);
}

/// `SET 4, L`.
pub fn cbxE5(cpu: &mut Cpu, mmu: &mut Mmu)
    ensures
        state(final(cpu), final(mmu)) == state(old(cpu), old(mmu)).set_bit(
            4,
            Operand8::Reg(Reg8::L),
        ),
        final(mmu)@.timing() == old(mmu)@.timing(),
{
    proof {
        reveal(Machine::set_bit);
    }
    cb_set(&mut cpu.regs.l, 4);
}

/// `SET 4, (HL)`.
pub fn cbxE6(cpu: &mut Cpu, mmu: &mut Mmu)
    ensures
        state(final(cpu), final(mmu)) == state(old(cpu), old(mmu)).set_bit(4, Operand8::HlInd),
        final(mmu)@.timing() == old(mmu)@.timing(),
{
    proof {
        reveal(Machine::set_bit);
    }
    let addr = cpu.regs.hl();
    let mut v = mmu.read(addr);
    cb_set(&mut v, 4);
    mmu.write(addr, v);
}

/// `SET 4, A`.
pub fn cbxE7(cpu: &mut Cpu, mmu: &mut Mmu)
    ensures
        state(final(cpu), final(mmu)) == state(old(cpu), old(mmu)).set_bit(
            4,
            Operand8::Reg(Reg8::A),
        ),
        final(mmu)@.timing() == old(mmu)@.timing(),
{
    proof {
        reveal(Machine::set_bit);
    }
    cb_set(&mut cpu.regs.a, 4);
}

/// `SET 5, B`.
pub fn cbxE8(cpu: &mut Cpu, mmu: &mut Mmu)
    ensures
        state(final(cpu), final(mmu)) == state(old(cpu), old(mmu)).set_bit(
            5,
            Operand8::Reg(Reg8::B),
        ),
        final(mmu)@.timing() == old(mmu)@.timing(),
{
    proof {
        reveal(Machine::set_bit);
    }
    cb_set(&mut cpu.regs.b, 5);
}

/// `SET 5, C`.
pub fn cbxE9(cpu: &mut Cpu, mmu: &mut Mmu)
    ensures
        state(final(cpu), final(mmu)) == state(old(cpu), old(mmu)).set_bit(
            5,
            Operand8::Reg(Reg8::C),
        ),
        final(mmu)@.timing() == old(mmu)@.timing(),
{
    proof {
        reveal(Machine::set_bit);
    }
    cb_set(&mut cpu.regs.c, 5);
}

/// `SET 5, D`.
pub fn cbxEA(cpu: &mut Cpu, mmu: &mut Mmu)
    ensures
        state(final(cpu), final(mmu)) == state(old(cpu), old(mmu)).set_bit(
            5,
            Operand8::Reg(Reg8::D),
        ),
        final(mmu)@.timing() == old(mmu)@.timing(),
{
    proof {
        reveal(Machine::set_bit);
    }
    cb_set(&mut cpu.regs.d, 5);
}

/// `SET 5, E`.
pub fn cbxEB(cpu: &mut Cpu, mmu: &mut Mmu)
    ensures
        state(final(cpu), final(mmu)) == state(old(cpu), old(mmu)).set_bit(
            5,
            Operand8::Reg(Reg8::E),
        ),
        final(mmu)@.timing() == old(mmu)@.timing(),
{
    proof {
        reveal(Machine::set_bit);
    }
    cb_set(&mut cpu.regs.e, 5);
}

/// `SET 5, H`.
pub fn cbxEC(cpu: &mut Cpu, mmu: &mut Mmu)
    ensures
        state(final(cpu), final(mmu)) == state(old(cpu), old(mmu)).set_bit(
            5,
            Operand8::Reg(Reg8::H),
        ),
        final(mmu)@.timing() == old(mmu)@.timing(),
{
    proof {
        reveal(Machine::set_bit);
    }
    cb_set(&mut cpu.regs.h, 5);
}

/// `SET 5, L`.
pub fn cbxED(cpu: &mut Cpu, mmu: &mut Mmu)
    ensures
        state(final(cpu), final(mmu)) == state(old(cpu), old(mmu)).set_bit(
            5,
            Operand8::Reg(Reg8::L),
        ),
        final(mmu)@.timing() == old(mmu)@.timing(),
{
    proof {
        reveal(Machine::set_bit);
    }
    cb_set(&mut cpu.regs.l, 5);
}

/// `SET 5, (HL)`.
pub fn cbxEE(cpu: &mut Cpu, mmu: &mut Mmu)
    ensures
        state(final(cpu), final(mmu)) == state(old(cpu), old(mmu)).set_bit(5, Operand8::HlInd),
        final(mmu)@.timing() == old(mmu)@.timing(),
{
    proof {
        reveal(Machine::set_bit);
    }
    let addr = cpu.regs.hl();
    let mut v = mmu.read(addr);
    cb_set(&mut v, 5);
    mmu.write(addr, v);
}

/// `SET 5, A`.
pub fn cbxEF(cpu: &mut Cpu, mmu: &mut Mmu)
    ensures
        state(final(cpu), final(mmu)) == state(old(cpu), old(mmu)).set_bit(
            5,
            Operand8::Reg(Reg8::A),
        ),
        final(mmu)@.timing() == old(mmu)@.timing(),
{
    proof {
        reveal(Machine::set_bit);
    }
    cb_set(&mut cpu.regs.a, 5);
}

/// `SET 6, B`.
pub fn cbxF0(cpu: &mut Cpu, mmu: &mut Mmu)
    ensures
        state(final(cpu), final(mmu)) == state(old(cpu), old(mmu)).set_bit(
            6,
            Operand8::Reg(Reg8::B),
        ),
        final(mmu)@.timing() == old(mmu)@.timing(),
{
    proof {
        reveal(Machine::set_bit);
    }
    cb_set(&mut cpu.regs.b, 6);
}

/// `SET 6, C`.
pub fn cbxF1(cpu: &mut Cpu, mmu: &mut Mmu)
    ensures
        state(final(cpu), final(mmu)) == state(old(cpu), old(mmu)).set_bit(
            6,
            Operand8::Reg(Reg8::C),
        ),
        final(mmu)@.timing() == old(mmu)@.timing(),
{
    proof {
        reveal(Machine::set_bit);
    }
    cb_set(&mut cpu.regs.c, 6);
}

/// `SET 6, D`.
pub fn cbxF2(cpu: &mut Cpu, mmu: &mut Mmu)
    ensures
        state(final(cpu), final(mmu)) == state(old(cpu), old(mmu)).set_bit(
            6,
            Operand8::Reg(Reg8::D),
        ),
        final(mmu)@.timing() == old(mmu)@.timing(),
{
    proof {
        reveal(Machine::set_bit);
    }
    cb_set(&mut cpu.regs.d, 6);
}

/// `SET 6, E`.
pub fn cbxF3(cpu: &mut Cpu, mmu: &mut Mmu)
    ensures
        state(final(cpu), final(mmu)) == state(old(cpu), old(mmu)).set_bit(
            6,
            Operand8::Reg(Reg8::E),
        ),
        final(mmu)@.timing() == old(mmu)@.timing(),
{
    proof {
        reveal(Machine::set_bit);
    }
    cb_set(&mut cpu.regs.e, 6);
}

/// `SET 6, H`.
pub fn cbxF4(cpu: &mut Cpu, mmu: &mut Mmu)
    ensures
        state(final(cpu), final(mmu)) == state(old(cpu), old(mmu)).set_bit(
            6,
            Operand8::Reg(Reg8::H),
        ),
        final(mmu)@.timing() == old(mmu)@.timing(),
{
    proof {
        reveal(Machine::set_bit);
    }
    cb_set(&mut cpu.regs.h, 6);
}

/// `SET 6, L`.
pub fn cbxF5(cpu: &mut Cpu, mmu: &mut Mmu)
    ensures
        state(final(cpu), final(mmu)) == state(old(cpu), old(mmu)).set_bit(
            6,
            Operand8::Reg(Reg8::L),
        ),
        final(mmu)@.timing() == old(mmu)@.timing(),
{
    proof {
        reveal(Machine::set_bit);
    }
    cb_set(&mut cpu.regs.l, 6);
}

/// `SET 6, (HL)`.
pub fn cbxF6(cpu: &mut Cpu, mmu: &mut Mmu)
    ensures
        state(final(cpu), final(mmu)) == state(old(cpu), old(mmu)).set_bit(6, Operand8::HlInd),
        final(mmu)@.timing() == old(mmu)@.timing(),
{
    proof {
        reveal(Machine::set_bit);
    }
    let addr = cpu.regs.hl();
    let mut v = mmu.read(addr);
    cb_set(&mut v, 6);
    mmu.write(addr, v);
}

/// `SET 6, A`.
pub fn cbxF7(cpu: &mut Cpu, mmu: &mut Mmu)
    ensures
        state(final(cpu), final(mmu)) == state(old(cpu), old(mmu)).set_bit(
            6,
            Operand8::Reg(Reg8::A),
        ),
        final(mmu)@.timing() == old(mmu)@.timing(),
{
    proof {
        reveal(Machine::set_bit);
    }
    cb_set(&mut cpu.regs.a, 6);
}

/// `SET 7, B`.
pub fn cbxF8(cpu: &mut Cpu, mmu: &mut Mmu)
    ensures
        state(final(cpu), final(mmu)) == state(old(cpu), old(mmu)).set_bit(
            7,
            Operand8::Reg(Reg8::B),
        ),
        final(mmu)@.timing() == old(mmu)@.timing(),
{
    proof {
        reveal(Machine::set_bit);
    }
    cb_set(&mut cpu.regs.b, 7);
}

/// `SET 7, C`.
pub fn cbxF9(cpu: &mut Cpu, mmu: &mut Mmu)
    ensures
        state(final(cpu), final(mmu)) == state(old(cpu), old(mmu)).set_bit(
            7,
            Operand8::Reg(Reg8::C),
        ),
        final(mmu)@.timing() == old(mmu)@.timing(),
{
    proof {
        reveal(Machine::set_bit);
    }
    cb_set(&mut cpu.regs.c, 7);
}

/// `SET 7, D`.
pub fn cbxFA(cpu: &mut Cpu, mmu: &mut Mmu)
    ensures
        state(final(cpu), final(mmu)) == state(old(cpu), old(mmu)).set_bit(
            7,
            Operand8::Reg(Reg8::D),
        ),
        final(mmu)@.timing() == old(mmu)@.timing(),
{
    proof {
        reveal(Machine::set_bit);
    }
    cb_set(&mut cpu.regs.d, 7);
}

/// `SET 7, E`.
pub fn cbxFB(cpu: &mut Cpu, mmu: &mut Mmu)
    ensures
        state(final(cpu), final(mmu)) == state(old(cpu), old(mmu)).set_bit(
            7,
            Operand8::Reg(Reg8::E),
        ),
        final(mmu)@.timing() == old(mmu)@.timing(),
{
    proof {
        reveal(Machine::set_bit);
    }
    cb_set(&mut cpu.regs.e, 7);
}

/// `SET 7, H`.
pub fn cbxFC(cpu: &mut Cpu, mmu: &mut Mmu)
    ensures
        state(final(cpu), final(mmu)) == state(old(cpu), old(mmu)).set_bit(
            7,
            Operand8::Reg(Reg8::H),
        ),
        final(mmu)@.timing() == old(mmu)@.timing(),
{
    proof {
        reveal(Machine::set_bit);
    }
    cb_set(&mut cpu.regs.h, 7);
}

/// `SET 7, L`.
pub fn cbxFD(cpu: &mut Cpu, mmu: &mut Mmu)
    ensures
        state(final(cpu), final(mmu)) == state(old(cpu), old(mmu)).set_bit(
            7,
            Operand8::Reg(Reg8::L),
        ),
        final(mmu)@.timing() == old(mmu)@.timing(),
{
    proof {
        reveal(Machine::set_bit);
    }
    cb_set(&mut cpu.regs.l, 7);
}

/// `SET 7, (HL)`.
pub fn cbxFE(cpu: &mut Cpu, mmu: &mut Mmu)
    ensures
        state(final(cpu), final(mmu)) == state(old(cpu), old(mmu)).set_bit(7, Operand8::HlInd),
        final(mmu)@.timing() == old(mmu)@.timing(),
{
    proof {
        reveal(Machine::set_bit);
    }
    let addr = cpu.regs.hl();
    let mut v = mmu.read(addr);
    cb_set(&mut v, 7);
    mmu.write(addr, v);
}

/// `SET 7, A`.
pub fn cbxFF(cpu: &mut Cpu, mmu: &mut Mmu)
    ensures
        state(final(cpu), final(mmu)) == state(old(cpu), old(mmu)).set_bit(
            7,
            Operand8::Reg(Reg8::A),
        ),
        final(mmu)@.timing() == old(mmu)@.timing(),
{
    proof {
        reveal(Machine::set_bit);
    }
    cb_set(&mut cpu.regs.a, 7);
}

} // verus!
