//! The instructions of the base page, one function for each opcode. The
//! function `opxNN` does what the opcode 0xNN does once the opcode has been
//! fetched.

#![allow(non_snake_case)]

use vstd::prelude::*;
use crate::gameboy::cpu::{Cpu, RunState};
use crate::gameboy::mmu::Mmu;
use crate::gameboy::operations::alu::{
    adc_a_x, add_a_x, add_hl, and_x, cb_rr, cp_x, dec_x, decimal_adjust, go_back, inc_x,
    jump_relative, ld_x_y, or_x, push_r16, restart, rl_n, rlc_n, rrc_n, sbc_a_x, sp_plus, sub_a_x,
    xor_a,
};
use crate::gameboy::operations::semantics::{state, Machine};
use crate::gameboy::operations::{AluOp, Cond, Indirect, Operand8, Reg16, Reg8, StackPair};

verus! {

/// `NOP`.
pub fn opx00(cpu: &mut Cpu, mmu: &mut Mmu)
    ensures
        state(final(cpu), final(mmu)) == state(old(cpu), old(mmu)).nop(),
        final(mmu)@.timing() == old(mmu)@.timing(),
{
    proof {
        reveal(Machine::nop);
    }
}

/// `LD BC, d16`.
pub fn opx01(cpu: &mut Cpu, mmu: &mut Mmu)
    ensures
        state(final(cpu), final(mmu)) == state(old(cpu), old(mmu)).ld16_imm(Reg16::BC),
        final(mmu)@.timing() == old(mmu)@.timing(),
{
    proof {
        reveal(Machine::ld16_imm);
    }
    let d16 = cpu.immediate_u16_pc(mmu);
    cpu.regs.set_bc(d16);
}

/// `LD (BC), A`.
pub fn opx02(cpu: &mut Cpu, mmu: &mut Mmu)
    ensures
        state(final(cpu), final(mmu)) == state(old(cpu), old(mmu)).ld_to_ind(Indirect::BC),
        final(mmu)@.timing() == old(mmu)@.timing(),
{
    proof {
        reveal(Machine::ld_to_ind);
    }
    let addr = cpu.regs.bc();
    mmu.write(addr, cpu.regs.a);
}

/// `INC BC`.
pub fn opx03(cpu: &mut Cpu, mmu: &mut Mmu)
    ensures
        state(final(cpu), final(mmu)) == state(old(cpu), old(mmu)).inc16(Reg16::BC),
        final(mmu)@.timing() == old(mmu)@.timing(),
{
    proof {
        reveal(Machine::inc16);
    }
    let v = cpu.regs.bc();
    cpu.regs.set_bc(v.wrapping_add(1));
}

/// `INC B`.
pub fn opx04(cpu: &mut Cpu, mmu: &mut Mmu)
    ensures
        state(final(cpu), final(mmu)) == state(old(cpu), old(mmu)).inc(Operand8::Reg(Reg8::B)),
        final(mmu)@.timing() == old(mmu)@.timing(),
{
    proof {
        reveal(Machine::inc);
    }
    inc_x(&mut cpu.regs.b, &mut cpu.regs.flags);
}

/// `DEC B`.
pub fn opx05(cpu: &mut Cpu, mmu: &mut Mmu)
    ensures
        state(final(cpu), final(mmu)) == state(old(cpu), old(mmu)).dec(Operand8::Reg(Reg8::B)),
        final(mmu)@.timing() == old(mmu)@.timing(),
{
    proof {
        reveal(Machine::dec);
    }
    dec_x(&mut cpu.regs.b, &mut cpu.regs.flags);
}

/// `LD B, d8`.
pub fn opx06(cpu: &mut Cpu, mmu: &mut Mmu)
    ensures
        state(final(cpu), final(mmu)) == state(old(cpu), old(mmu)).ld_imm(Operand8::Reg(Reg8::B)),
        final(mmu)@.timing() == old(mmu)@.timing(),
{
    proof {
        reveal(Machine::ld_imm);
    }
    let v = cpu.immediate_u8_pc(mmu);
    ld_x_y(&mut cpu.regs.b, v);
}

/// `RLCA`.
pub fn opx07(cpu: &mut Cpu, mmu: &mut Mmu)
    ensures
        state(final(cpu), final(mmu)) == state(old(cpu), old(mmu)).rlca(),
        final(mmu)@.timing() == old(mmu)@.timing(),
{
    proof {
        reveal(Machine::rlca);
    }
    rlc_n(&mut cpu.regs.a, &mut cpu.regs.flags);
    cpu.regs.flags.z = false;
}

/// `LD (a16), SP`.
pub fn opx08(cpu: &mut Cpu, mmu: &mut Mmu)
    ensures
        state(final(cpu), final(mmu)) == state(old(cpu), old(mmu)).ld_a16_sp(),
        final(mmu)@.timing() == old(mmu)@.timing(),
{
    proof {
        reveal(Machine::ld_a16_sp);
    }
    let addr = cpu.immediate_u16_pc(mmu);
    mmu.write_u16(addr, cpu.regs.sp);
}

/// `ADD HL, BC`.
pub fn opx09(cpu: &mut Cpu, mmu: &mut Mmu)
    ensures
        state(final(cpu), final(mmu)) == state(old(cpu), old(mmu)).add_hl(Reg16::BC),
        final(mmu)@.timing() == old(mmu)@.timing(),
{
    proof {
        reveal(Machine::add_hl);
    }
    let v = cpu.regs.bc();
    add_hl(cpu, v);
}

/// `LD A, (BC)`.
pub fn opx0A(cpu: &mut Cpu, mmu: &mut Mmu)
    ensures
        state(final(cpu), final(mmu)) == state(old(cpu), old(mmu)).ld_a_from(Indirect::BC),
        final(mmu)@.timing() == old(mmu)@.timing(),
{
    proof {
        reveal(Machine::ld_a_from);
    }
    let addr = cpu.regs.bc();
    let v = mmu.read(addr);
    ld_x_y(&mut cpu.regs.a, v);
}

/// `DEC BC`.
pub fn opx0B(cpu: &mut Cpu, mmu: &mut Mmu)
    ensures
        state(final(cpu), final(mmu)) == state(old(cpu), old(mmu)).dec16(Reg16::BC),
        final(mmu)@.timing() == old(mmu)@.timing(),
{
    proof {
        reveal(Machine::dec16);
    }
    let v = cpu.regs.bc();
    cpu.regs.set_bc(v.wrapping_sub(1));
}

/// `INC C`.
pub fn opx0C(cpu: &mut Cpu, mmu: &mut Mmu)
    ensures
        state(final(cpu), final(mmu)) == state(old(cpu), old(mmu)).inc(Operand8::Reg(Reg8::C)),
        final(mmu)@.timing() == old(mmu)@.timing(),
{
    proof {
        reveal(Machine::inc);
    }
    inc_x(&mut cpu.regs.c, &mut cpu.regs.flags);
}

/// `DEC C`.
pub fn opx0D(cpu: &mut Cpu, mmu: &mut Mmu)
    ensures
        state(final(cpu), final(mmu)) == state(old(cpu), old(mmu)).dec(Operand8::Reg(Reg8::C)),
        final(mmu)@.timing() == old(mmu)@.timing(),
{
    proof {
        reveal(Machine::dec);
    }
    dec_x(&mut cpu.regs.c, &mut cpu.regs.flags);
}

/// `LD C, d8`.
pub fn opx0E(cpu: &mut Cpu, mmu: &mut Mmu)
    ensures
        state(final(cpu), final(mmu)) == state(old(cpu), old(mmu)).ld_imm(Operand8::Reg(Reg8::C)),
        final(mmu)@.timing() == old(mmu)@.timing(),
{
    proof {
        reveal(Machine::ld_imm);
    }
    let v = cpu.immediate_u8_pc(mmu);
    ld_x_y(&mut cpu.regs.c, v);
}

/// `RRCA`.
pub fn opx0F(cpu: &mut Cpu, mmu: &mut Mmu)
    ensures
        state(final(cpu), final(mmu)) == state(old(cpu), old(mmu)).rrca(),
        final(mmu)@.timing() == old(mmu)@.timing(),
{
    proof {
        reveal(Machine::rrca);
    }
    rrc_n(&mut cpu.regs.a, &mut cpu.regs.flags);
    cpu.regs.flags.z = false;
}

/// `STOP 0`.
pub fn opx10(cpu: &mut Cpu, mmu: &mut Mmu)
    ensures
        state(final(cpu), final(mmu)) == state(old(cpu), old(mmu)).stop(),
        final(mmu)@.timing() == old(mmu)@.timing(),
{
    proof {
        reveal(Machine::stop);
    }
    cpu.state = RunState::Stopped;
}

/// `LD DE, d16`.
pub fn opx11(cpu: &mut Cpu, mmu: &mut Mmu)
    ensures
        state(final(cpu), final(mmu)) == state(old(cpu), old(mmu)).ld16_imm(Reg16::DE),
        final(mmu)@.timing() == old(mmu)@.timing(),
{
    proof {
        reveal(Machine::ld16_imm);
    }
    let d16 = cpu.immediate_u16_pc(mmu);
    cpu.regs.set_de(d16);
}

/// `LD (DE), A`.
pub fn opx12(cpu: &mut Cpu, mmu: &mut Mmu)
    ensures
        state(final(cpu), final(mmu)) == state(old(cpu), old(mmu)).ld_to_ind(Indirect::DE),
        final(mmu)@.timing() == old(mmu)@.timing(),
{
    proof {
        reveal(Machine::ld_to_ind);
    }
    let addr = cpu.regs.de();
    mmu.write(addr, cpu.regs.a);
}

/// `INC DE`.
pub fn opx13(cpu: &mut Cpu, mmu: &mut Mmu)
    ensures
        state(final(cpu), final(mmu)) == state(old(cpu), old(mmu)).inc16(Reg16::DE),
        final(mmu)@.timing() == old(mmu)@.timing(),
{
    proof {
        reveal(Machine::inc16);
    }
    let v = cpu.regs.de();
    cpu.regs.set_de(v.wrapping_add(1));
}

/// `INC D`.
pub fn opx14(cpu: &mut Cpu, mmu: &mut Mmu)
    ensures
        state(final(cpu), final(mmu)) == state(old(cpu), old(mmu)).inc(Operand8::Reg(Reg8::D)),
        final(mmu)@.timing() == old(mmu)@.timing(),
{
    proof {
        reveal(Machine::inc);
    }
    inc_x(&mut cpu.regs.d, &mut cpu.regs.flags);
}

/// `DEC D`.
pub fn opx15(cpu: &mut Cpu, mmu: &mut Mmu)
    ensures
        state(final(cpu), final(mmu)) == state(old(cpu), old(mmu)).dec(Operand8::Reg(Reg8::D)),
        final(mmu)@.timing() == old(mmu)@.timing(),
{
    proof {
        reveal(Machine::dec);
    }
    dec_x(&mut cpu.regs.d, &mut cpu.regs.flags);
}

/// `LD D, d8`.
pub fn opx16(cpu: &mut Cpu, mmu: &mut Mmu)
    ensures
        state(final(cpu), final(mmu)) == state(old(cpu), old(mmu)).ld_imm(Operand8::Reg(Reg8::D)),
        final(mmu)@.timing() == old(mmu)@.timing(),
{
    proof {
        reveal(Machine::ld_imm);
    }
    let v = cpu.immediate_u8_pc(mmu);
    ld_x_y(&mut cpu.regs.d, v);
}

/// `RLA`.
pub fn opx17(cpu: &mut Cpu, mmu: &mut Mmu)
    ensures
        state(final(cpu), final(mmu)) == state(old(cpu), old(mmu)).rla(),
        final(mmu)@.timing() == old(mmu)@.timing(),
{
    proof {
        reveal(Machine::rla);
    }
    rl_n(&mut cpu.regs.a, &mut cpu.regs.flags);
    cpu.regs.flags.z = false;
}

/// `JR r8`.
pub fn opx18(cpu: &mut Cpu, mmu: &mut Mmu)
    ensures
        state(final(cpu), final(mmu)) == state(old(cpu), old(mmu)).jr(),
        final(mmu)@.timing() == old(mmu)@.timing(),
{
    proof {
        reveal(Machine::jr);
    }
    let e = cpu.immediate_u8_pc(mmu);
    jump_relative(cpu, e);
}

/// `ADD HL, DE`.
pub fn opx19(cpu: &mut Cpu, mmu: &mut Mmu)
    ensures
        state(final(cpu), final(mmu)) == state(old(cpu), old(mmu)).add_hl(Reg16::DE),
        final(mmu)@.timing() == old(mmu)@.timing(),
{
    proof {
        reveal(Machine::add_hl);
    }
    let v = cpu.regs.de();
    add_hl(cpu, v);
}

/// `LD A, (DE)`.
pub fn opx1A(cpu: &mut Cpu, mmu: &mut Mmu)
    ensures
        state(final(cpu), final(mmu)) == state(old(cpu), old(mmu)).ld_a_from(Indirect::DE),
        final(mmu)@.timing() == old(mmu)@.timing(),
{
    proof {
        reveal(Machine::ld_a_from);
    }
    let addr = cpu.regs.de();
    let v = mmu.read(addr);
    ld_x_y(&mut cpu.regs.a, v);
}

/// `DEC DE`.
pub fn opx1B(cpu: &mut Cpu, mmu: &mut Mmu)
    ensures
        state(final(cpu), final(mmu)) == state(old(cpu), old(mmu)).dec16(Reg16::DE),
        final(mmu)@.timing() == old(mmu)@.timing(),
{
    proof {
        reveal(Machine::dec16);
    }
    let v = cpu.regs.de();
    cpu.regs.set_de(v.wrapping_sub(1));
}

/// `INC E`.
pub fn opx1C(cpu: &mut Cpu, mmu: &mut Mmu)
    ensures
        state(final(cpu), final(mmu)) == state(old(cpu), old(mmu)).inc(Operand8::Reg(Reg8::E)),
        final(mmu)@.timing() == old(mmu)@.timing(),
{
    proof {
        reveal(Machine::inc);
    }
    inc_x(&mut cpu.regs.e, &mut cpu.regs.flags);
}

/// `DEC E`.
pub fn opx1D(cpu: &mut Cpu, mmu: &mut Mmu)
    ensures
        state(final(cpu), final(mmu)) == state(old(cpu), old(mmu)).dec(Operand8::Reg(Reg8::E)),
        final(mmu)@.timing() == old(mmu)@.timing(),
{
    proof {
        reveal(Machine::dec);
    }
    dec_x(&mut cpu.regs.e, &mut cpu.regs.flags);
}

/// `LD E, d8`.
pub fn opx1E(cpu: &mut Cpu, mmu: &mut Mmu)
    ensures
        state(final(cpu), final(mmu)) == state(old(cpu), old(mmu)).ld_imm(Operand8::Reg(Reg8::E)),
        final(mmu)@.timing() == old(mmu)@.timing(),
{
    proof {
        reveal(Machine::ld_imm);
    }
    let v = cpu.immediate_u8_pc(mmu);
    ld_x_y(&mut cpu.regs.e, v);
}

/// `RRA`.
pub fn opx1F(cpu: &mut Cpu, mmu: &mut Mmu)
    ensures
        state(final(cpu), final(mmu)) == state(old(cpu), old(mmu)).rra(),
        final(mmu)@.timing() == old(mmu)@.timing(),
{
    proof {
        reveal(Machine::rra);
    }
    cb_rr(&mut cpu.regs.a, &mut cpu.regs.flags);
    cpu.regs.flags.z = false;
}

/// `JR NZ, r8`.
pub fn opx20(cpu: &mut Cpu, mmu: &mut Mmu)
    ensures
        state(final(cpu), final(mmu)) == state(old(cpu), old(mmu)).jr_cond(Cond::NZ),
        final(mmu)@.timing() == old(mmu)@.timing(),
{
    proof {
        reveal(Machine::jr_cond);
    }
    let e = cpu.immediate_u8_pc(mmu);
    if !cpu.regs.flags.z {
        jump_relative(cpu, e);
    }
}

/// `LD HL, d16`.
pub fn opx21(cpu: &mut Cpu, mmu: &mut Mmu)
    ensures
        state(final(cpu), final(mmu)) == state(old(cpu), old(mmu)).ld16_imm(Reg16::HL),
        final(mmu)@.timing() == old(mmu)@.timing(),
{
    proof {
        reveal(Machine::ld16_imm);
    }
    let d16 = cpu.immediate_u16_pc(mmu);
    cpu.regs.set_hl(d16);
}

/// `LD (HL+), A`.
pub fn opx22(cpu: &mut Cpu, mmu: &mut Mmu)
    ensures
        state(final(cpu), final(mmu)) == state(old(cpu), old(mmu)).ld_to_ind(Indirect::HLInc),
        final(mmu)@.timing() == old(mmu)@.timing(),
{
    proof {
        reveal(Machine::ld_to_ind);
    }
    let addr = cpu.regs.hl();
    mmu.write(addr, cpu.regs.a);
    cpu.regs.set_hl(addr.wrapping_add(1));
}

/// `INC HL`.
pub fn opx23(cpu: &mut Cpu, mmu: &mut Mmu)
    ensures
        state(final(cpu), final(mmu)) == state(old(cpu), old(mmu)).inc16(Reg16::HL),
        final(mmu)@.timing() == old(mmu)@.timing(),
{
    proof {
        reveal(Machine::inc16);
    }
    let v = cpu.regs.hl();
    cpu.regs.set_hl(v.wrapping_add(1));
}

/// `INC H`.
pub fn opx24(cpu: &mut Cpu, mmu: &mut Mmu)
    ensures
        state(final(cpu), final(mmu)) == state(old(cpu), old(mmu)).inc(Operand8::Reg(Reg8::H)),
        final(mmu)@.timing() == old(mmu)@.timing(),
{
    proof {
        reveal(Machine::inc);
    }
    inc_x(&mut cpu.regs.h, &mut cpu.regs.flags);
}

/// `DEC H`.
pub fn opx25(cpu: &mut Cpu, mmu: &mut Mmu)
    ensures
        state(final(cpu), final(mmu)) == state(old(cpu), old(mmu)).dec(Operand8::Reg(Reg8::H)),
        final(mmu)@.timing() == old(mmu)@.timing(),
{
    proof {
        reveal(Machine::dec);
    }
    dec_x(&mut cpu.regs.h, &mut cpu.regs.flags);
}

/// `LD H, d8`.
pub fn opx26(cpu: &mut Cpu, mmu: &mut Mmu)
    ensures
        state(final(cpu), final(mmu)) == state(old(cpu), old(mmu)).ld_imm(Operand8::Reg(Reg8::H)),
        final(mmu)@.timing() == old(mmu)@.timing(),
{
    proof {
        reveal(Machine::ld_imm);
    }
    let v = cpu.immediate_u8_pc(mmu);
    ld_x_y(&mut cpu.regs.h, v);
}

/// `DAA`.
pub fn opx27(cpu: &mut Cpu, mmu: &mut Mmu)
    ensures
        state(final(cpu), final(mmu)) == state(old(cpu), old(mmu)).daa(),
        final(mmu)@.timing() == old(mmu)@.timing(),
{
    proof {
        reveal(Machine::daa);
    }
    decimal_adjust(cpu);
}

/// `JR Z, r8`.
pub fn opx28(cpu: &mut Cpu, mmu: &mut Mmu)
    ensures
        state(final(cpu), final(mmu)) == state(old(cpu), old(mmu)).jr_cond(Cond::Z),
        final(mmu)@.timing() == old(mmu)@.timing(),
{
    proof {
        reveal(Machine::jr_cond);
    }
    let e = cpu.immediate_u8_pc(mmu);
    if cpu.regs.flags.z {
        jump_relative(cpu, e);
    }
}

/// `ADD HL, HL`.
pub fn opx29(cpu: &mut Cpu, mmu: &mut Mmu)
    ensures
        state(final(cpu), final(mmu)) == state(old(cpu), old(mmu)).add_hl(Reg16::HL),
        final(mmu)@.timing() == old(mmu)@.timing(),
{
    proof {
        reveal(Machine::add_hl);
    }
    let v = cpu.regs.hl();
    add_hl(cpu, v);
}

/// `LD A, (HL+)`.
pub fn opx2A(cpu: &mut Cpu, mmu: &mut Mmu)
    ensures
        state(final(cpu), final(mmu)) == state(old(cpu), old(mmu)).ld_a_from(Indirect::HLInc),
        final(mmu)@.timing() == old(mmu)@.timing(),
{
    proof {
        reveal(Machine::ld_a_from);
    }
    let addr = cpu.regs.hl();
    let v = mmu.read(addr);
    ld_x_y(&mut cpu.regs.a, v);
    cpu.regs.set_hl(addr.wrapping_add(1));
}

/// `DEC HL`.
pub fn opx2B(cpu: &mut Cpu, mmu: &mut Mmu)
    ensures
        state(final(cpu), final(mmu)) == state(old(cpu), old(mmu)).dec16(Reg16::HL),
        final(mmu)@.timing() == old(mmu)@.timing(),
{
    proof {
        reveal(Machine::dec16);
    }
    let v = cpu.regs.hl();
    cpu.regs.set_hl(v.wrapping_sub(1));
}

/// `INC L`.
pub fn opx2C(cpu: &mut Cpu, mmu: &mut Mmu)
    ensures
        state(final(cpu), final(mmu)) == state(old(cpu), old(mmu)).inc(Operand8::Reg(Reg8::L)),
        final(mmu)@.timing() == old(mmu)@.timing(),
{
    proof {
        reveal(Machine::inc);
    }
    inc_x(&mut cpu.regs.l, &mut cpu.regs.flags);
}

/// `DEC L`.
pub fn opx2D(cpu: &mut Cpu, mmu: &mut Mmu)
    ensures
        state(final(cpu), final(mmu)) == state(old(cpu), old(mmu)).dec(Operand8::Reg(Reg8::L)),
        final(mmu)@.timing() == old(mmu)@.timing(),
{
    proof {
        reveal(Machine::dec);
    }
    dec_x(&mut cpu.regs.l, &mut cpu.regs.flags);
}

/// `LD L, d8`.
pub fn opx2E(cpu: &mut Cpu, mmu: &mut Mmu)
    ensures
        state(final(cpu), final(mmu)) == state(old(cpu), old(mmu)).ld_imm(Operand8::Reg(Reg8::L)),
        final(mmu)@.timing() == old(mmu)@.timing(),
{
    proof {
        reveal(Machine::ld_imm);
    }
    let v = cpu.immediate_u8_pc(mmu);
    ld_x_y(&mut cpu.regs.l, v);
}

/// `CPL`.
pub fn opx2F(cpu: &mut Cpu, mmu: &mut Mmu)
    ensures
        state(final(cpu), final(mmu)) == state(old(cpu), old(mmu)).cpl(),
        final(mmu)@.timing() == old(mmu)@.timing(),
{
    proof {
        reveal(Machine::cpl);
    }
    cpu.regs.a = !cpu.regs.a;
    cpu.regs.flags.n = true;
    cpu.regs.flags.h = true;
}

/// `JR NC, r8`.
pub fn opx30(cpu: &mut Cpu, mmu: &mut Mmu)
    ensures
        state(final(cpu), final(mmu)) == state(old(cpu), old(mmu)).jr_cond(Cond::NC),
        final(mmu)@.timing() == old(mmu)@.timing(),
{
    proof {
        reveal(Machine::jr_cond);
    }
    let e = cpu.immediate_u8_pc(mmu);
    if !cpu.regs.flags.c {
        jump_relative(cpu, e);
    }
}

/// `LD SP, d16`.
pub fn opx31(cpu: &mut Cpu, mmu: &mut Mmu)
    ensures
        state(final(cpu), final(mmu)) == state(old(cpu), old(mmu)).ld16_imm(Reg16::SP),
        final(mmu)@.timing() == old(mmu)@.timing(),
{
    proof {
        reveal(Machine::ld16_imm);
    }
    let d16 = cpu.immediate_u16_pc(mmu);
    cpu.regs.sp = d16;
}

/// `LD (HL-), A`.
pub fn opx32(cpu: &mut Cpu, mmu: &mut Mmu)
    ensures
        state(final(cpu), final(mmu)) == state(old(cpu), old(mmu)).ld_to_ind(Indirect::HLDec),
        final(mmu)@.timing() == old(mmu)@.timing(),
{
    proof {
        reveal(Machine::ld_to_ind);
    }
    let addr = cpu.regs.hl();
    mmu.write(addr, cpu.regs.a);
    cpu.regs.set_hl(addr.wrapping_sub(1));
}

/// `INC SP`.
pub fn opx33(cpu: &mut Cpu, mmu: &mut Mmu)
    ensures
        state(final(cpu), final(mmu)) == state(old(cpu), old(mmu)).inc16(Reg16::SP),
        final(mmu)@.timing() == old(mmu)@.timing(),
{
    proof {
        reveal(Machine::inc16);
    }
    let v = cpu.regs.sp;
    cpu.regs.sp = v.wrapping_add(1);
}

/// `INC (HL)`.
pub fn opx34(cpu: &mut Cpu, mmu: &mut Mmu)
    ensures
        state(final(cpu), final(mmu)) == state(old(cpu), old(mmu)).inc(Operand8::HlInd),
        final(mmu)@.timing() == old(mmu)@.timing(),
{
    proof {
        reveal(Machine::inc);
    }
    let addr = cpu.regs.hl();
    let mut v = mmu.read(addr);
    inc_x(&mut v, &mut cpu.regs.flags);
    mmu.write(addr, v);
}

/// `DEC (HL)`.
pub fn opx35(cpu: &mut Cpu, mmu: &mut Mmu)
    ensures
        state(final(cpu), final(mmu)) == state(old(cpu), old(mmu)).dec(Operand8::HlInd),
        final(mmu)@.timing() == old(mmu)@.timing(),
{
    proof {
        reveal(Machine::dec);
    }
    let addr = cpu.regs.hl();
    let mut v = mmu.read(addr);
    dec_x(&mut v, &mut cpu.regs.flags);
    mmu.write(addr, v);
}

/// `LD (HL), d8`.
pub fn opx36(cpu: &mut Cpu, mmu: &mut Mmu)
    ensures
        state(final(cpu), final(mmu)) == state(old(cpu), old(mmu)).ld_imm(Operand8::HlInd),
        final(mmu)@.timing() == old(mmu)@.timing(),
{
    proof {
        reveal(Machine::ld_imm);
    }
    let addr = cpu.regs.hl();
    let d8 = cpu.immediate_u8_pc(mmu);
    mmu.write(addr, d8);
}

/// `SCF`.
pub fn opx37(cpu: &mut Cpu, mmu: &mut Mmu)
    ensures
        state(final(cpu), final(mmu)) == state(old(cpu), old(mmu)).scf(),
        final(mmu)@.timing() == old(mmu)@.timing(),
{
    proof {
        reveal(Machine::scf);
    }
    cpu.regs.flags.n = false;
    cpu.regs.flags.h = false;
    cpu.regs.flags.c = true;
}

/// `JR C, r8`.
pub fn opx38(cpu: &mut Cpu, mmu: &mut Mmu)
    ensures
        state(final(cpu), final(mmu)) == state(old(cpu), old(mmu)).jr_cond(Cond::C),
        final(mmu)@.timing() == old(mmu)@.timing(),
{
    proof {
        reveal(Machine::jr_cond);
    }
    let e = cpu.immediate_u8_pc(mmu);
    if cpu.regs.flags.c {
        jump_relative(cpu, e);
    }
}

/// `ADD HL, SP`.
pub fn opx39(cpu: &mut Cpu, mmu: &mut Mmu)
    ensures
        state(final(cpu), final(mmu)) == state(old(cpu), old(mmu)).add_hl(Reg16::SP),
        final(mmu)@.timing() == old(mmu)@.timing(),
{
    proof {
        reveal(Machine::add_hl);
    }
    let v = cpu.regs.sp;
    add_hl(cpu, v);
}

/// `LD A, (HL-)`.
pub fn opx3A(cpu: &mut Cpu, mmu: &mut Mmu)
    ensures
        state(final(cpu), final(mmu)) == state(old(cpu), old(mmu)).ld_a_from(Indirect::HLDec),
        final(mmu)@.timing() == old(mmu)@.timing(),
{
    proof {
        reveal(Machine::ld_a_from);
    }
    let addr = cpu.regs.hl();
    let v = mmu.read(addr);
    ld_x_y(&mut cpu.regs.a, v);
    cpu.regs.set_hl(addr.wrapping_sub(1));
}

/// `DEC SP`.
pub fn opx3B(cpu: &mut Cpu, mmu: &mut Mmu)
    ensures
        state(final(cpu), final(mmu)) == state(old(cpu), old(mmu)).dec16(Reg16::SP),
        final(mmu)@.timing() == old(mmu)@.timing(),
{
    proof {
        reveal(Machine::dec16);
    }
    let v = cpu.regs.sp;
    cpu.regs.sp = v.wrapping_sub(1);
}

/// `INC A`.
pub fn opx3C(cpu: &mut Cpu, mmu: &mut Mmu)
    ensures
        state(final(cpu), final(mmu)) == state(old(cpu), old(mmu)).inc(Operand8::Reg(Reg8::A)),
        final(mmu)@.timing() == old(mmu)@.timing(),
{
    proof {
        reveal(Machine::inc);
    }
    inc_x(&mut cpu.regs.a, &mut cpu.regs.flags);
}

/// `DEC A`.
pub fn opx3D(cpu: &mut Cpu, mmu: &mut Mmu)
    ensures
        state(final(cpu), final(mmu)) == state(old(cpu), old(mmu)).dec(Operand8::Reg(Reg8::A)),
        final(mmu)@.timing() == old(mmu)@.timing(),
{
    proof {
        reveal(Machine::dec);
    }
    dec_x(&mut cpu.regs.a, &mut cpu.regs.flags);
}

/// `LD A, d8`.
pub fn opx3E(cpu: &mut Cpu, mmu: &mut Mmu)
    ensures
        state(final(cpu), final(mmu)) == state(old(cpu), old(mmu)).ld_imm(Operand8::Reg(Reg8::A)),
        final(mmu)@.timing() == old(mmu)@.timing(),
{
    proof {
        reveal(Machine::ld_imm);
    }
    let v = cpu.immediate_u8_pc(mmu);
    ld_x_y(&mut cpu.regs.a, v);
}

/// `CCF`.
pub fn opx3F(cpu: &mut Cpu, mmu: &mut Mmu)
    ensures
        state(final(cpu), final(mmu)) == state(old(cpu), old(mmu)).ccf(),
        final(mmu)@.timing() == old(mmu)@.timing(),
{
    proof {
        reveal(Machine::ccf);
    }
    cpu.regs.flags.n = false;
    cpu.regs.flags.h = false;
    cpu.regs.flags.c = !cpu.regs.flags.c;
}

/// `LD B, B`.
pub fn opx40(cpu: &mut Cpu, mmu: &mut Mmu)
    ensures
        state(final(cpu), final(mmu)) == state(old(cpu), old(mmu)).ld(
            Operand8::Reg(Reg8::B),
            Operand8::Reg(Reg8::B),
        ),
        final(mmu)@.timing() == old(mmu)@.timing(),
{
    proof {
        reveal(Machine::ld);
    }
}

/// `LD B, C`.
pub fn opx41(cpu: &mut Cpu, mmu: &mut Mmu)
    ensures
        state(final(cpu), final(mmu)) == state(old(cpu), old(mmu)).ld(
            Operand8::Reg(Reg8::B),
            Operand8::Reg(Reg8::C),
        ),
        final(mmu)@.timing() == old(mmu)@.timing(),
{
    proof {
        reveal(Machine::ld);
    }
    ld_x_y(&mut cpu.regs.b, cpu.regs.c);
}

/// `LD B, D`.
pub fn opx42(cpu: &mut Cpu, mmu: &mut Mmu)
    ensures
        state(final(cpu), final(mmu)) == state(old(cpu), old(mmu)).ld(
            Operand8::Reg(Reg8::B),
            Operand8::Reg(Reg8::D),
        ),
        final(mmu)@.timing() == old(mmu)@.timing(),
{
    proof {
        reveal(Machine::ld);
    }
    ld_x_y(&mut cpu.regs.b, cpu.regs.d);
}

/// `LD B, E`.
pub fn opx43(cpu: &mut Cpu, mmu: &mut Mmu)
    ensures
        state(final(cpu), final(mmu)) == state(old(cpu), old(mmu)).ld(
            Operand8::Reg(Reg8::B),
            Operand8::Reg(Reg8::E),
        ),
        final(mmu)@.timing() == old(mmu)@.timing(),
{
    proof {
        reveal(Machine::ld);
    }
    ld_x_y(&mut cpu.regs.b, cpu.regs.e);
}

/// `LD B, H`.
pub fn opx44(cpu: &mut Cpu, mmu: &mut Mmu)
    ensures
        state(final(cpu), final(mmu)) == state(old(cpu), old(mmu)).ld(
            Operand8::Reg(Reg8::B),
            Operand8::Reg(Reg8::H),
        ),
        final(mmu)@.timing() == old(mmu)@.timing(),
{
    proof {
        reveal(Machine::ld);
    }
    ld_x_y(&mut cpu.regs.b, cpu.regs.h);
}

/// `LD B, L`.
pub fn opx45(cpu: &mut Cpu, mmu: &mut Mmu)
    ensures
        state(final(cpu), final(mmu)) == state(old(cpu), old(mmu)).ld(
            Operand8::Reg(Reg8::B),
            Operand8::Reg(Reg8::L),
        ),
        final(mmu)@.timing() == old(mmu)@.timing(),
{
    proof {
        reveal(Machine::ld);
    }
    ld_x_y(&mut cpu.regs.b, cpu.regs.l);
}

/// `LD B, (HL)`.
pub fn opx46(cpu: &mut Cpu, mmu: &mut Mmu)
    ensures
        state(final(cpu), final(mmu)) == state(old(cpu), old(mmu)).ld(
            Operand8::Reg(Reg8::B),
            Operand8::HlInd,
        ),
        final(mmu)@.timing() == old(mmu)@.timing(),
{
    proof {
        reveal(Machine::ld);
    }
    let v = mmu.read(cpu.regs.hl());
    ld_x_y(&mut cpu.regs.b, v);
}

/// `LD B, A`.
pub fn opx47(cpu: &mut Cpu, mmu: &mut Mmu)
    ensures
        state(final(cpu), final(mmu)) == state(old(cpu), old(mmu)).ld(
            Operand8::Reg(Reg8::B),
            Operand8::Reg(Reg8::A),
        ),
        final(mmu)@.timing() == old(mmu)@.timing(),
{
    proof {
        reveal(Machine::ld);
    }
    ld_x_y(&mut cpu.regs.b, cpu.regs.a);
}

/// `LD C, B`.
pub fn opx48(cpu: &mut Cpu, mmu: &mut Mmu)
    ensures
        state(final(cpu), final(mmu)) == state(old(cpu), old(mmu)).ld(
            Operand8::Reg(Reg8::C),
            Operand8::Reg(Reg8::B),
        ),
        final(mmu)@.timing() == old(mmu)@.timing(),
{
    proof {
        reveal(Machine::ld);
    }
    ld_x_y(&mut cpu.regs.c, cpu.regs.b);
}

/// `LD C, C`.
pub fn opx49(cpu: &mut Cpu, mmu: &mut Mmu)
    ensures
        state(final(cpu), final(mmu)) == state(old(cpu), old(mmu)).ld(
            Operand8::Reg(Reg8::C),
            Operand8::Reg(Reg8::C),
        ),
        final(mmu)@.timing() == old(mmu)@.timing(),
{
    proof {
        reveal(Machine::ld);
    }
}

/// `LD C, D`.
pub fn opx4A(cpu: &mut Cpu, mmu: &mut Mmu)
    ensures
        state(final(cpu), final(mmu)) == state(old(cpu), old(mmu)).ld(
            Operand8::Reg(Reg8::C),
            Operand8::Reg(Reg8::D),
        ),
        final(mmu)@.timing() == old(mmu)@.timing(),
{
    proof {
        reveal(Machine::ld);
    }
    ld_x_y(&mut cpu.regs.c, cpu.regs.d);
}

/// `LD C, E`.
pub fn opx4B(cpu: &mut Cpu, mmu: &mut Mmu)
    ensures
        state(final(cpu), final(mmu)) == state(old(cpu), old(mmu)).ld(
            Operand8::Reg(Reg8::C),
            Operand8::Reg(Reg8::E),
        ),
        final(mmu)@.timing() == old(mmu)@.timing(),
{
    proof {
        reveal(Machine::ld);
    }
    ld_x_y(&mut cpu.regs.c, cpu.regs.e);
}

/// `LD C, H`.
pub fn opx4C(cpu: &mut Cpu, mmu: &mut Mmu)
    ensures
        state(final(cpu), final(mmu)) == state(old(cpu), old(mmu)).ld(
            Operand8::Reg(Reg8::C),
            Operand8::Reg(Reg8::H),
        ),
        final(mmu)@.timing() == old(mmu)@.timing(),
{
    proof {
        reveal(Machine::ld);
    }
    ld_x_y(&mut cpu.regs.c, cpu.regs.h);
}

/// `LD C, L`.
pub fn opx4D(cpu: &mut Cpu, mmu: &mut Mmu)
    ensures
        state(final(cpu), final(mmu)) == state(old(cpu), old(mmu)).ld(
            Operand8::Reg(Reg8::C),
            Operand8::Reg(Reg8::L),
        ),
        final(mmu)@.timing() == old(mmu)@.timing(),
{
    proof {
        reveal(Machine::ld);
    }
    ld_x_y(&mut cpu.regs.c, cpu.regs.l);
}

/// `LD C, (HL)`.
pub fn opx4E(cpu: &mut Cpu, mmu: &mut Mmu)
    ensures
        state(final(cpu), final(mmu)) == state(old(cpu), old(mmu)).ld(
            Operand8::Reg(Reg8::C),
            Operand8::HlInd,
        ),
        final(mmu)@.timing() == old(mmu)@.timing(),
{
    proof {
        reveal(Machine::ld);
    }
    let v = mmu.read(cpu.regs.hl());
    ld_x_y(&mut cpu.regs.c, v);
}

/// `LD C, A`.
pub fn opx4F(cpu: &mut Cpu, mmu: &mut Mmu)
    ensures
        state(final(cpu), final(mmu)) == state(old(cpu), old(mmu)).ld(
            Operand8::Reg(Reg8::C),
            Operand8::Reg(Reg8::A),
        ),
        final(mmu)@.timing() == old(mmu)@.timing(),
{
    proof {
        reveal(Machine::ld);
    }
    ld_x_y(&mut cpu.regs.c, cpu.regs.a);
}

/// `LD D, B`.
pub fn opx50(cpu: &mut Cpu, mmu: &mut Mmu)
    ensures
        state(final(cpu), final(mmu)) == state(old(cpu), old(mmu)).ld(
            Operand8::Reg(Reg8::D),
            Operand8::Reg(Reg8::B),
        ),
        final(mmu)@.timing() == old(mmu)@.timing(),
{
    proof {
        reveal(Machine::ld);
    }
    ld_x_y(&mut cpu.regs.d, cpu.regs.b);
}

/// `LD D, C`.
pub fn opx51(cpu: &mut Cpu, mmu: &mut Mmu)
    ensures
        state(final(cpu), final(mmu)) == state(old(cpu), old(mmu)).ld(
            Operand8::Reg(Reg8::D),
            Operand8::Reg(Reg8::C),
        ),
        final(mmu)@.timing() == old(mmu)@.timing(),
{
    proof {
        reveal(Machine::ld);
    }
    ld_x_y(&mut cpu.regs.d, cpu.regs.c);
}

/// `LD D, D`.
pub fn opx52(cpu: &mut Cpu, mmu: &mut Mmu)
    ensures
        state(final(cpu), final(mmu)) == state(old(cpu), old(mmu)).ld(
            Operand8::Reg(Reg8::D),
            Operand8::Reg(Reg8::D),
        ),
        final(mmu)@.timing() == old(mmu)@.timing(),
{
    proof {
        reveal(Machine::ld);
    }
}

/// `LD D, E`.
pub fn opx53(cpu: &mut Cpu, mmu: &mut Mmu)
    ensures
        state(final(cpu), final(mmu)) == state(old(cpu), old(mmu)).ld(
            Operand8::Reg(Reg8::D),
            Operand8::Reg(Reg8::E),
        ),
        final(mmu)@.timing() == old(mmu)@.timing(),
{
    proof {
        reveal(Machine::ld);
    }
    ld_x_y(&mut cpu.regs.d, cpu.regs.e);
}

/// `LD D, H`.
pub fn opx54(cpu: &mut Cpu, mmu: &mut Mmu)
    ensures
        state(final(cpu), final(mmu)) == state(old(cpu), old(mmu)).ld(
            Operand8::Reg(Reg8::D),
            Operand8::Reg(Reg8::H),
        ),
        final(mmu)@.timing() == old(mmu)@.timing(),
{
    proof {
        reveal(Machine::ld);
    }
    ld_x_y(&mut cpu.regs.d, cpu.regs.h);
}

/// `LD D, L`.
pub fn opx55(cpu: &mut Cpu, mmu: &mut Mmu)
    ensures
        state(final(cpu), final(mmu)) == state(old(cpu), old(mmu)).ld(
            Operand8::Reg(Reg8::D),
            Operand8::Reg(Reg8::L),
        ),
        final(mmu)@.timing() == old(mmu)@.timing(),
{
    proof {
        reveal(Machine::ld);
    }
    ld_x_y(&mut cpu.regs.d, cpu.regs.l);
}

/// `LD D, (HL)`.
pub fn opx56(cpu: &mut Cpu, mmu: &mut Mmu)
    ensures
        state(final(cpu), final(mmu)) == state(old(cpu), old(mmu)).ld(
            Operand8::Reg(Reg8::D),
            Operand8::HlInd,
        ),
        final(mmu)@.timing() == old(mmu)@.timing(),
{
    proof {
        reveal(Machine::ld);
    }
    let v = mmu.read(cpu.regs.hl());
    ld_x_y(&mut cpu.regs.d, v);
}

/// `LD D, A`.
pub fn opx57(cpu: &mut Cpu, mmu: &mut Mmu)
    ensures
        state(final(cpu), final(mmu)) == state(old(cpu), old(mmu)).ld(
            Operand8::Reg(Reg8::D),
            Operand8::Reg(Reg8::A),
        ),
        final(mmu)@.timing() == old(mmu)@.timing(),
{
    proof {
        reveal(Machine::ld);
    }
    ld_x_y(&mut cpu.regs.d, cpu.regs.a);
}

/// `LD E, B`.
pub fn opx58(cpu: &mut Cpu, mmu: &mut Mmu)
    ensures
        state(final(cpu), final(mmu)) == state(old(cpu), old(mmu)).ld(
            Operand8::Reg(Reg8::E),
            Operand8::Reg(Reg8::B),
        ),
        final(mmu)@.timing() == old(mmu)@.timing(),
{
    proof {
        reveal(Machine::ld);
    }
    ld_x_y(&mut cpu.regs.e, cpu.regs.b);
}

/// `LD E, C`.
pub fn opx59(cpu: &mut Cpu, mmu: &mut Mmu)
    ensures
        state(final(cpu), final(mmu)) == state(old(cpu), old(mmu)).ld(
            Operand8::Reg(Reg8::E),
            Operand8::Reg(Reg8::C),
        ),
        final(mmu)@.timing() == old(mmu)@.timing(),
{
    proof {
        reveal(Machine::ld);
    }
    ld_x_y(&mut cpu.regs.e, cpu.regs.c);
}

/// `LD E, D`.
pub fn opx5A(cpu: &mut Cpu, mmu: &mut Mmu)
    ensures
        state(final(cpu), final(mmu)) == state(old(cpu), old(mmu)).ld(
            Operand8::Reg(Reg8::E),
            Operand8::Reg(Reg8::D),
        ),
        final(mmu)@.timing() == old(mmu)@.timing(),
{
    proof {
        reveal(Machine::ld);
    }
    ld_x_y(&mut cpu.regs.e, cpu.regs.d);
}

/// `LD E, E`.
pub fn opx5B(cpu: &mut Cpu, mmu: &mut Mmu)
    ensures
        state(final(cpu), final(mmu)) == state(old(cpu), old(mmu)).ld(
            Operand8::Reg(Reg8::E),
            Operand8::Reg(Reg8::E),
        ),
        final(mmu)@.timing() == old(mmu)@.timing(),
{
    proof {
        reveal(Machine::ld);
    }
}

/// `LD E, H`.
pub fn opx5C(cpu: &mut Cpu, mmu: &mut Mmu)
    ensures
        state(final(cpu), final(mmu)) == state(old(cpu), old(mmu)).ld(
            Operand8::Reg(Reg8::E),
            Operand8::Reg(Reg8::H),
        ),
        final(mmu)@.timing() == old(mmu)@.timing(),
{
    proof {
        reveal(Machine::ld);
    }
    ld_x_y(&mut cpu.regs.e, cpu.regs.h);
}

/// `LD E, L`.
pub fn opx5D(cpu: &mut Cpu, mmu: &mut Mmu)
    ensures
        state(final(cpu), final(mmu)) == state(old(cpu), old(mmu)).ld(
            Operand8::Reg(Reg8::E),
            Operand8::Reg(Reg8::L),
        ),
        final(mmu)@.timing() == old(mmu)@.timing(),
{
    proof {
        reveal(Machine::ld);
    }
    ld_x_y(&mut cpu.regs.e, cpu.regs.l);
}

/// `LD E, (HL)`.
pub fn opx5E(cpu: &mut Cpu, mmu: &mut Mmu)
    ensures
        state(final(cpu), final(mmu)) == state(old(cpu), old(mmu)).ld(
            Operand8::Reg(Reg8::E),
            Operand8::HlInd,
        ),
        final(mmu)@.timing() == old(mmu)@.timing(),
{
    proof {
        reveal(Machine::ld);
    }
    let v = mmu.read(cpu.regs.hl());
    ld_x_y(&mut cpu.regs.e, v);
}

/// `LD E, A`.
pub fn opx5F(cpu: &mut Cpu, mmu: &mut Mmu)
    ensures
        state(final(cpu), final(mmu)) == state(old(cpu), old(mmu)).ld(
            Operand8::Reg(Reg8::E),
            Operand8::Reg(Reg8::A),
        ),
        final(mmu)@.timing() == old(mmu)@.timing(),
{
    proof {
        reveal(Machine::ld);
    }
    ld_x_y(&mut cpu.regs.e, cpu.regs.a);
}

/// `LD H, B`.
pub fn opx60(cpu: &mut Cpu, mmu: &mut Mmu)
    ensures
        state(final(cpu), final(mmu)) == state(old(cpu), old(mmu)).ld(
            Operand8::Reg(Reg8::H),
            Operand8::Reg(Reg8::B),
        ),
        final(mmu)@.timing() == old(mmu)@.timing(),
{
    proof {
        reveal(Machine::ld);
    }
    ld_x_y(&mut cpu.regs.h, cpu.regs.b);
}

/// `LD H, C`.
pub fn opx61(cpu: &mut Cpu, mmu: &mut Mmu)
    ensures
        state(final(cpu), final(mmu)) == state(old(cpu), old(mmu)).ld(
            Operand8::Reg(Reg8::H),
            Operand8::Reg(Reg8::C),
        ),
        final(mmu)@.timing() == old(mmu)@.timing(),
{
    proof {
        reveal(Machine::ld);
    }
    ld_x_y(&mut cpu.regs.h, cpu.regs.c);
}

/// `LD H, D`.
pub fn opx62(cpu: &mut Cpu, mmu: &mut Mmu)
    ensures
        state(final(cpu), final(mmu)) == state(old(cpu), old(mmu)).ld(
            Operand8::Reg(Reg8::H),
            Operand8::Reg(Reg8::D),
        ),
        final(mmu)@.timing() == old(mmu)@.timing(),
{
    proof {
        reveal(Machine::ld);
    }
    ld_x_y(&mut cpu.regs.h, cpu.regs.d);
}

/// `LD H, E`.
pub fn opx63(cpu: &mut Cpu, mmu: &mut Mmu)
    ensures
        state(final(cpu), final(mmu)) == state(old(cpu), old(mmu)).ld(
            Operand8::Reg(Reg8::H),
            Operand8::Reg(Reg8::E),
        ),
        final(mmu)@.timing() == old(mmu)@.timing(),
{
    proof {
        reveal(Machine::ld);
    }
    ld_x_y(&mut cpu.regs.h, cpu.regs.e);
}

/// `LD H, H`.
pub fn opx64(cpu: &mut Cpu, mmu: &mut Mmu)
    ensures
        state(final(cpu), final(mmu)) == state(old(cpu), old(mmu)).ld(
            Operand8::Reg(Reg8::H),
            Operand8::Reg(Reg8::H),
        ),
        final(mmu)@.timing() == old(mmu)@.timing(),
{
    proof {
        reveal(Machine::ld);
    }
}

/// `LD H, L`.
pub fn opx65(cpu: &mut Cpu, mmu: &mut Mmu)
    ensures
        state(final(cpu), final(mmu)) == state(old(cpu), old(mmu)).ld(
            Operand8::Reg(Reg8::H),
            Operand8::Reg(Reg8::L),
        ),
        final(mmu)@.timing() == old(mmu)@.timing(),
{
    proof {
        reveal(Machine::ld);
    }
    ld_x_y(&mut cpu.regs.h, cpu.regs.l);
}

/// `LD H, (HL)`.
pub fn opx66(cpu: &mut Cpu, mmu: &mut Mmu)
    ensures
        state(final(cpu), final(mmu)) == state(old(cpu), old(mmu)).ld(
            Operand8::Reg(Reg8::H),
            Operand8::HlInd,
        ),
        final(mmu)@.timing() == old(mmu)@.timing(),
{
    proof {
        reveal(Machine::ld);
    }
    let v = mmu.read(cpu.regs.hl());
    ld_x_y(&mut cpu.regs.h, v);
}

/// `LD H, A`.
pub fn opx67(cpu: &mut Cpu, mmu: &mut Mmu)
    ensures
        state(final(cpu), final(mmu)) == state(old(cpu), old(mmu)).ld(
            Operand8::Reg(Reg8::H),
            Operand8::Reg(Reg8::A),
        ),
        final(mmu)@.timing() == old(mmu)@.timing(),
{
    proof {
        reveal(Machine::ld);
    }
    ld_x_y(&mut cpu.regs.h, cpu.regs.a);
}

/// `LD L, B`.
pub fn opx68(cpu: &mut Cpu, mmu: &mut Mmu)
    ensures
        state(final(cpu), final(mmu)) == state(old(cpu), old(mmu)).ld(
            Operand8::Reg(Reg8::L),
            Operand8::Reg(Reg8::B),
        ),
        final(mmu)@.timing() == old(mmu)@.timing(),
{
    proof {
        reveal(Machine::ld);
    }
    ld_x_y(&mut cpu.regs.l, cpu.regs.b);
}

/// `LD L, C`.
pub fn opx69(cpu: &mut Cpu, mmu: &mut Mmu)
    ensures
        state(final(cpu), final(mmu)) == state(old(cpu), old(mmu)).ld(
            Operand8::Reg(Reg8::L),
            Operand8::Reg(Reg8::C),
        ),
        final(mmu)@.timing() == old(mmu)@.timing(),
{
    proof {
        reveal(Machine::ld);
    }
    ld_x_y(&mut cpu.regs.l, cpu.regs.c);
}

/// `LD L, D`.
pub fn opx6A(cpu: &mut Cpu, mmu: &mut Mmu)
    ensures
        state(final(cpu), final(mmu)) == state(old(cpu), old(mmu)).ld(
            Operand8::Reg(Reg8::L),
            Operand8::Reg(Reg8::D),
        ),
        final(mmu)@.timing() == old(mmu)@.timing(),
{
    proof {
        reveal(Machine::ld);
    }
    ld_x_y(&mut cpu.regs.l, cpu.regs.d);
}

/// `LD L, E`.
pub fn opx6B(cpu: &mut Cpu, mmu: &mut Mmu)
    ensures
        state(final(cpu), final(mmu)) == state(old(cpu), old(mmu)).ld(
            Operand8::Reg(Reg8::L),
            Operand8::Reg(Reg8::E),
        ),
        final(mmu)@.timing() == old(mmu)@.timing(),
{
    proof {
        reveal(Machine::ld);
    }
    ld_x_y(&mut cpu.regs.l, cpu.regs.e);
}

/// `LD L, H`.
pub fn opx6C(cpu: &mut Cpu, mmu: &mut Mmu)
    ensures
        state(final(cpu), final(mmu)) == state(old(cpu), old(mmu)).ld(
            Operand8::Reg(Reg8::L),
            Operand8::Reg(Reg8::H),
        ),
        final(mmu)@.timing() == old(mmu)@.timing(),
{
    proof {
        reveal(Machine::ld);
    }
    ld_x_y(&mut cpu.regs.l, cpu.regs.h);
}

/// `LD L, L`.
pub fn opx6D(cpu: &mut Cpu, mmu: &mut Mmu)
    ensures
        state(final(cpu), final(mmu)) == state(old(cpu), old(mmu)).ld(
            Operand8::Reg(Reg8::L),
            Operand8::Reg(Reg8::L),
        ),
        final(mmu)@.timing() == old(mmu)@.timing(),
{
    proof {
        reveal(Machine::ld);
    }
}

/// `LD L, (HL)`.
pub fn opx6E(cpu: &mut Cpu, mmu: &mut Mmu)
    ensures
        state(final(cpu), final(mmu)) == state(old(cpu), old(mmu)).ld(
            Operand8::Reg(Reg8::L),
            Operand8::HlInd,
        ),
        final(mmu)@.timing() == old(mmu)@.timing(),
{
    proof {
        reveal(Machine::ld);
    }
    let v = mmu.read(cpu.regs.hl());
    ld_x_y(&mut cpu.regs.l, v);
}

/// `LD L, A`.
pub fn opx6F(cpu: &mut Cpu, mmu: &mut Mmu)
    ensures
        state(final(cpu), final(mmu)) == state(old(cpu), old(mmu)).ld(
            Operand8::Reg(Reg8::L),
            Operand8::Reg(Reg8::A),
        ),
        final(mmu)@.timing() == old(mmu)@.timing(),
{
    proof {
        reveal(Machine::ld);
    }
    ld_x_y(&mut cpu.regs.l, cpu.regs.a);
}

/// `LD (HL), B`.
pub fn opx70(cpu: &mut Cpu, mmu: &mut Mmu)
    ensures
        state(final(cpu), final(mmu)) == state(old(cpu), old(mmu)).ld(
            Operand8::HlInd,
            Operand8::Reg(Reg8::B),
        ),
        final(mmu)@.timing() == old(mmu)@.timing(),
{
    proof {
        reveal(Machine::ld);
    }
    let addr = cpu.regs.hl();
    mmu.write(addr, cpu.regs.b);
}

/// `LD (HL), C`.
pub fn opx71(cpu: &mut Cpu, mmu: &mut Mmu)
    ensures
        state(final(cpu), final(mmu)) == state(old(cpu), old(mmu)).ld(
            Operand8::HlInd,
            Operand8::Reg(Reg8::C),
        ),
        final(mmu)@.timing() == old(mmu)@.timing(),
{
    proof {
        reveal(Machine::ld);
    }
    let addr = cpu.regs.hl();
    mmu.write(addr, cpu.regs.c);
}

/// `LD (HL), D`.
pub fn opx72(cpu: &mut Cpu, mmu: &mut Mmu)
    ensures
        state(final(cpu), final(mmu)) == state(old(cpu), old(mmu)).ld(
            Operand8::HlInd,
            Operand8::Reg(Reg8::D),
        ),
        final(mmu)@.timing() == old(mmu)@.timing(),
{
    proof {
        reveal(Machine::ld);
    }
    let addr = cpu.regs.hl();
    mmu.write(addr, cpu.regs.d);
}

/// `LD (HL), E`.
pub fn opx73(cpu: &mut Cpu, mmu: &mut Mmu)
    ensures
        state(final(cpu), final(mmu)) == state(old(cpu), old(mmu)).ld(
            Operand8::HlInd,
            Operand8::Reg(Reg8::E),
        ),
        final(mmu)@.timing() == old(mmu)@.timing(),
{
    proof {
        reveal(Machine::ld);
    }
    let addr = cpu.regs.hl();
    mmu.write(addr, cpu.regs.e);
}

/// `LD (HL), H`.
pub fn opx74(cpu: &mut Cpu, mmu: &mut Mmu)
    ensures
        state(final(cpu), final(mmu)) == state(old(cpu), old(mmu)).ld(
            Operand8::HlInd,
            Operand8::Reg(Reg8::H),
        ),
        final(mmu)@.timing() == old(mmu)@.timing(),
{
    proof {
        reveal(Machine::ld);
    }
    let addr = cpu.regs.hl();
    mmu.write(addr, cpu.regs.h);
}

/// `LD (HL), L`.
pub fn opx75(cpu: &mut Cpu, mmu: &mut Mmu)
    ensures
        state(final(cpu), final(mmu)) == state(old(cpu), old(mmu)).ld(
            Operand8::HlInd,
            Operand8::Reg(Reg8::L),
        ),
        final(mmu)@.timing() == old(mmu)@.timing(),
{
    proof {
        reveal(Machine::ld);
    }
    let addr = cpu.regs.hl();
    mmu.write(addr, cpu.regs.l);
}

/// `HALT`.
pub fn opx76(cpu: &mut Cpu, mmu: &mut Mmu)
    ensures
        state(final(cpu), final(mmu)) == state(old(cpu), old(mmu)).halt(),
        final(mmu)@.timing() == old(mmu)@.timing(),
{
    proof {
        reveal(Machine::halt);
    }
    cpu.state = RunState::Halted;
}

/// `LD (HL), A`.
pub fn opx77(cpu: &mut Cpu, mmu: &mut Mmu)
    ensures
        state(final(cpu), final(mmu)) == state(old(cpu), old(mmu)).ld(
            Operand8::HlInd,
            Operand8::Reg(Reg8::A),
        ),
        final(mmu)@.timing() == old(mmu)@.timing(),
{
    proof {
        reveal(Machine::ld);
    }
    let addr = cpu.regs.hl();
    mmu.write(addr, cpu.regs.a);
}

/// `LD A, B`.
pub fn opx78(cpu: &mut Cpu, mmu: &mut Mmu)
    ensures
        state(final(cpu), final(mmu)) == state(old(cpu), old(mmu)).ld(
            Operand8::Reg(Reg8::A),
            Operand8::Reg(Reg8::B),
        ),
        final(mmu)@.timing() == old(mmu)@.timing(),
{
    proof {
        reveal(Machine::ld);
    }
    ld_x_y(&mut cpu.regs.a, cpu.regs.b);
}

/// `LD A, C`.
pub fn opx79(cpu: &mut Cpu, mmu: &mut Mmu)
    ensures
        state(final(cpu), final(mmu)) == state(old(cpu), old(mmu)).ld(
            Operand8::Reg(Reg8::A),
            Operand8::Reg(Reg8::C),
        ),
        final(mmu)@.timing() == old(mmu)@.timing(),
{
    proof {
        reveal(Machine::ld);
    }
    ld_x_y(&mut cpu.regs.a, cpu.regs.c);
}

/// `LD A, D`.
pub fn opx7A(cpu: &mut Cpu, mmu: &mut Mmu)
    ensures
        state(final(cpu), final(mmu)) == state(old(cpu), old(mmu)).ld(
            Operand8::Reg(Reg8::A),
            Operand8::Reg(Reg8::D),
        ),
        final(mmu)@.timing() == old(mmu)@.timing(),
{
    proof {
        reveal(Machine::ld);
    }
    ld_x_y(&mut cpu.regs.a, cpu.regs.d);
}

/// `LD A, E`.
pub fn opx7B(cpu: &mut Cpu, mmu: &mut Mmu)
    ensures
        state(final(cpu), final(mmu)) == state(old(cpu), old(mmu)).ld(
            Operand8::Reg(Reg8::A),
            Operand8::Reg(Reg8::E),
        ),
        final(mmu)@.timing() == old(mmu)@.timing(),
{
    proof {
        reveal(Machine::ld);
    }
    ld_x_y(&mut cpu.regs.a, cpu.regs.e);
}

/// `LD A, H`.
pub fn opx7C(cpu: &mut Cpu, mmu: &mut Mmu)
    ensures
        state(final(cpu), final(mmu)) == state(old(cpu), old(mmu)).ld(
            Operand8::Reg(Reg8::A),
            Operand8::Reg(Reg8::H),
        ),
        final(mmu)@.timing() == old(mmu)@.timing(),
{
    proof {
        reveal(Machine::ld);
    }
    ld_x_y(&mut cpu.regs.a, cpu.regs.h);
}

/// `LD A, L`.
pub fn opx7D(cpu: &mut Cpu, mmu: &mut Mmu)
    ensures
        state(final(cpu), final(mmu)) == state(old(cpu), old(mmu)).ld(
            Operand8::Reg(Reg8::A),
            Operand8::Reg(Reg8::L),
        ),
        final(mmu)@.timing() == old(mmu)@.timing(),
{
    proof {
        reveal(Machine::ld);
    }
    ld_x_y(&mut cpu.regs.a, cpu.regs.l);
}

/// `LD A, (HL)`.
pub fn opx7E(cpu: &mut Cpu, mmu: &mut Mmu)
    ensures
        state(final(cpu), final(mmu)) == state(old(cpu), old(mmu)).ld(
            Operand8::Reg(Reg8::A),
            Operand8::HlInd,
        ),
        final(mmu)@.timing() == old(mmu)@.timing(),
{
    proof {
        reveal(Machine::ld);
    }
    let v = mmu.read(cpu.regs.hl());
    ld_x_y(&mut cpu.regs.a, v);
}

/// `LD A, A`.
pub fn opx7F(cpu: &mut Cpu, mmu: &mut Mmu)
    ensures
        state(final(cpu), final(mmu)) == state(old(cpu), old(mmu)).ld(
            Operand8::Reg(Reg8::A),
            Operand8::Reg(Reg8::A),
        ),
        final(mmu)@.timing() == old(mmu)@.timing(),
{
    proof {
        reveal(Machine::ld);
    }
}

/// `ADD A, B`.
pub fn opx80(cpu: &mut Cpu, mmu: &mut Mmu)
    ensures
        state(final(cpu), final(mmu)) == state(old(cpu), old(mmu)).alu(
            AluOp::Add,
            Operand8::Reg(Reg8::B),
        ),
        final(mmu)@.timing() == old(mmu)@.timing(),
{
    proof {
        reveal(Machine::alu);
    }
    add_a_x(cpu.regs.b, cpu);
}

/// `ADD A, C`.
pub fn opx81(cpu: &mut Cpu, mmu: &mut Mmu)
    ensures
        state(final(cpu), final(mmu)) == state(old(cpu), old(mmu)).alu(
            AluOp::Add,
            Operand8::Reg(Reg8::C),
        ),
        final(mmu)@.timing() == old(mmu)@.timing(),
{
    proof {
        reveal(Machine::alu);
    }
    add_a_x(cpu.regs.c, cpu);
}

/// `ADD A, D`.
pub fn opx82(cpu: &mut Cpu, mmu: &mut Mmu)
    ensures
        state(final(cpu), final(mmu)) == state(old(cpu), old(mmu)).alu(
            AluOp::Add,
            Operand8::Reg(Reg8::D),
        ),
        final(mmu)@.timing() == old(mmu)@.timing(),
{
    proof {
        reveal(Machine::alu);
    }
    add_a_x(cpu.regs.d, cpu);
}

/// `ADD A, E`.
pub fn opx83(cpu: &mut Cpu, mmu: &mut Mmu)
    ensures
        state(final(cpu), final(mmu)) == state(old(cpu), old(mmu)).alu(
            AluOp::Add,
            Operand8::Reg(Reg8::E),
        ),
        final(mmu)@.timing() == old(mmu)@.timing(),
{
    proof {
        reveal(Machine::alu);
    }
    add_a_x(cpu.regs.e, cpu);
}

/// `ADD A, H`.
pub fn opx84(cpu: &mut Cpu, mmu: &mut Mmu)
    ensures
        state(final(cpu), final(mmu)) == state(old(cpu), old(mmu)).alu(
            AluOp::Add,
            Operand8::Reg(Reg8::H),
        ),
        final(mmu)@.timing() == old(mmu)@.timing(),
{
    proof {
        reveal(Machine::alu);
    }
    add_a_x(cpu.regs.h, cpu);
}

/// `ADD A, L`.
pub fn opx85(cpu: &mut Cpu, mmu: &mut Mmu)
    ensures
        state(final(cpu), final(mmu)) == state(old(cpu), old(mmu)).alu(
            AluOp::Add,
            Operand8::Reg(Reg8::L),
        ),
        final(mmu)@.timing() == old(mmu)@.timing(),
{
    proof {
        reveal(Machine::alu);
    }
    add_a_x(cpu.regs.l, cpu);
}

/// `ADD A, (HL)`.
pub fn opx86(cpu: &mut Cpu, mmu: &mut Mmu)
    ensures
        state(final(cpu), final(mmu)) == state(old(cpu), old(mmu)).alu(AluOp::Add, Operand8::HlInd),
        final(mmu)@.timing() == old(mmu)@.timing(),
{
    proof {
        reveal(Machine::alu);
    }
    let v = mmu.read(cpu.regs.hl());
    add_a_x(v, cpu);
}

/// `ADD A, A`.
pub fn opx87(cpu: &mut Cpu, mmu: &mut Mmu)
    ensures
        state(final(cpu), final(mmu)) == state(old(cpu), old(mmu)).alu(
            AluOp::Add,
            Operand8::Reg(Reg8::A),
        ),
        final(mmu)@.timing() == old(mmu)@.timing(),
{
    proof {
        reveal(Machine::alu);
    }
    add_a_x(cpu.regs.a, cpu);
}

/// `ADC A, B`.
pub fn opx88(cpu: &mut Cpu, mmu: &mut Mmu)
    ensures
        state(final(cpu), final(mmu)) == state(old(cpu), old(mmu)).alu(
            AluOp::Adc,
            Operand8::Reg(Reg8::B),
        ),
        final(mmu)@.timing() == old(mmu)@.timing(),
{
    proof {
        reveal(Machine::alu);
    }
    adc_a_x(cpu.regs.b, cpu);
}

/// `ADC A, C`.
pub fn opx89(cpu: &mut Cpu, mmu: &mut Mmu)
    ensures
        state(final(cpu), final(mmu)) == state(old(cpu), old(mmu)).alu(
            AluOp::Adc,
            Operand8::Reg(Reg8::C),
        ),
        final(mmu)@.timing() == old(mmu)@.timing(),
{
    proof {
        reveal(Machine::alu);
    }
    adc_a_x(cpu.regs.c, cpu);
}

/// `ADC A, D`.
pub fn opx8A(cpu: &mut Cpu, mmu: &mut Mmu)
    ensures
        state(final(cpu), final(mmu)) == state(old(cpu), old(mmu)).alu(
            AluOp::Adc,
            Operand8::Reg(Reg8::D),
        ),
        final(mmu)@.timing() == old(mmu)@.timing(),
{
    proof {
        reveal(Machine::alu);
    }
    adc_a_x(cpu.regs.d, cpu);
}

/// `ADC A, E`.
pub fn opx8B(cpu: &mut Cpu, mmu: &mut Mmu)
    ensures
        state(final(cpu), final(mmu)) == state(old(cpu), old(mmu)).alu(
            AluOp::Adc,
            Operand8::Reg(Reg8::E),
        ),
        final(mmu)@.timing() == old(mmu)@.timing(),
{
    proof {
        reveal(Machine::alu);
    }
    adc_a_x(cpu.regs.e, cpu);
}

/// `ADC A, H`.
pub fn opx8C(cpu: &mut Cpu, mmu: &mut Mmu)
    ensures
        state(final(cpu), final(mmu)) == state(old(cpu), old(mmu)).alu(
            AluOp::Adc,
            Operand8::Reg(Reg8::H),
        ),
        final(mmu)@.timing() == old(mmu)@.timing(),
{
    proof {
        reveal(Machine::alu);
    }
    adc_a_x(cpu.regs.h, cpu);
}

/// `ADC A, L`.
pub fn opx8D(cpu: &mut Cpu, mmu: &mut Mmu)
    ensures
        state(final(cpu), final(mmu)) == state(old(cpu), old(mmu)).alu(
            AluOp::Adc,
            Operand8::Reg(Reg8::L),
        ),
        final(mmu)@.timing() == old(mmu)@.timing(),
{
    proof {
        reveal(Machine::alu);
    }
    adc_a_x(cpu.regs.l, cpu);
}

/// `ADC A, (HL)`.
pub fn opx8E(cpu: &mut Cpu, mmu: &mut Mmu)
    ensures
        state(final(cpu), final(mmu)) == state(old(cpu), old(mmu)).alu(AluOp::Adc, Operand8::HlInd),
        final(mmu)@.timing() == old(mmu)@.timing(),
{
    proof {
        reveal(Machine::alu);
    }
    let v = mmu.read(cpu.regs.hl());
    adc_a_x(v, cpu);
}

/// `ADC A, A`.
pub fn opx8F(cpu: &mut Cpu, mmu: &mut Mmu)
    ensures
        state(final(cpu), final(mmu)) == state(old(cpu), old(mmu)).alu(
            AluOp::Adc,
            Operand8::Reg(Reg8::A),
        ),
        final(mmu)@.timing() == old(mmu)@.timing(),
{
    proof {
        reveal(Machine::alu);
    }
    adc_a_x(cpu.regs.a, cpu);
}

/// `SUB B`.
pub fn opx90(cpu: &mut Cpu, mmu: &mut Mmu)
    ensures
        state(final(cpu), final(mmu)) == state(old(cpu), old(mmu)).alu(
            AluOp::Sub,
            Operand8::Reg(Reg8::B),
        ),
        final(mmu)@.timing() == old(mmu)@.timing(),
{
    proof {
        reveal(Machine::alu);
    }
    sub_a_x(cpu.regs.b, cpu);
}

/// `SUB C`.
pub fn opx91(cpu: &mut Cpu, mmu: &mut Mmu)
    ensures
        state(final(cpu), final(mmu)) == state(old(cpu), old(mmu)).alu(
            AluOp::Sub,
            Operand8::Reg(Reg8::C),
        ),
        final(mmu)@.timing() == old(mmu)@.timing(),
{
    proof {
        reveal(Machine::alu);
    }
    sub_a_x(cpu.regs.c, cpu);
}

/// `SUB D`.
pub fn opx92(cpu: &mut Cpu, mmu: &mut Mmu)
    ensures
        state(final(cpu), final(mmu)) == state(old(cpu), old(mmu)).alu(
            AluOp::Sub,
            Operand8::Reg(Reg8::D),
        ),
        final(mmu)@.timing() == old(mmu)@.timing(),
{
    proof {
        reveal(Machine::alu);
    }
    sub_a_x(cpu.regs.d, cpu);
}

/// `SUB E`.
pub fn opx93(cpu: &mut Cpu, mmu: &mut Mmu)
    ensures
        state(final(cpu), final(mmu)) == state(old(cpu), old(mmu)).alu(
            AluOp::Sub,
            Operand8::Reg(Reg8::E),
        ),
        final(mmu)@.timing() == old(mmu)@.timing(),
{
    proof {
        reveal(Machine::alu);
    }
    sub_a_x(cpu.regs.e, cpu);
}

/// `SUB H`.
pub fn opx94(cpu: &mut Cpu, mmu: &mut Mmu)
    ensures
        state(final(cpu), final(mmu)) == state(old(cpu), old(mmu)).alu(
            AluOp::Sub,
            Operand8::Reg(Reg8::H),
        ),
        final(mmu)@.timing() == old(mmu)@.timing(),
{
    proof {
        reveal(Machine::alu);
    }
    sub_a_x(cpu.regs.h, cpu);
}

/// `SUB L`.
pub fn opx95(cpu: &mut Cpu, mmu: &mut Mmu)
    ensures
        state(final(cpu), final(mmu)) == state(old(cpu), old(mmu)).alu(
            AluOp::Sub,
            Operand8::Reg(Reg8::L),
        ),
        final(mmu)@.timing() == old(mmu)@.timing(),
{
    proof {
        reveal(Machine::alu);
    }
    sub_a_x(cpu.regs.l, cpu);
}

/// `SUB (HL)`.
pub fn opx96(cpu: &mut Cpu, mmu: &mut Mmu)
    ensures
        state(final(cpu), final(mmu)) == state(old(cpu), old(mmu)).alu(AluOp::Sub, Operand8::HlInd),
        final(mmu)@.timing() == old(mmu)@.timing(),
{
    proof {
        reveal(Machine::alu);
    }
    let v = mmu.read(cpu.regs.hl());
    sub_a_x(v, cpu);
}

/// `SUB A`.
pub fn opx97(cpu: &mut Cpu, mmu: &mut Mmu)
    ensures
        state(final(cpu), final(mmu)) == state(old(cpu), old(mmu)).alu(
            AluOp::Sub,
            Operand8::Reg(Reg8::A),
        ),
        final(mmu)@.timing() == old(mmu)@.timing(),
{
    proof {
        reveal(Machine::alu);
    }
    sub_a_x(cpu.regs.a, cpu);
}

/// `SBC A, B`.
pub fn opx98(cpu: &mut Cpu, mmu: &mut Mmu)
    ensures
        state(final(cpu), final(mmu)) == state(old(cpu), old(mmu)).alu(
            AluOp::Sbc,
            Operand8::Reg(Reg8::B),
        ),
        final(mmu)@.timing() == old(mmu)@.timing(),
{
    proof {
        reveal(Machine::alu);
    }
    sbc_a_x(cpu.regs.b, cpu);
}

/// `SBC A, C`.
pub fn opx99(cpu: &mut Cpu, mmu: &mut Mmu)
    ensures
        state(final(cpu), final(mmu)) == state(old(cpu), old(mmu)).alu(
            AluOp::Sbc,
            Operand8::Reg(Reg8::C),
        ),
        final(mmu)@.timing() == old(mmu)@.timing(),
{
    proof {
        reveal(Machine::alu);
    }
    sbc_a_x(cpu.regs.c, cpu);
}

/// `SBC A, D`.
pub fn opx9A(cpu: &mut Cpu, mmu: &mut Mmu)
    ensures
        state(final(cpu), final(mmu)) == state(old(cpu), old(mmu)).alu(
            AluOp::Sbc,
            Operand8::Reg(Reg8::D),
        ),
        final(mmu)@.timing() == old(mmu)@.timing(),
{
    proof {
        reveal(Machine::alu);
    }
    sbc_a_x(cpu.regs.d, cpu);
}

/// `SBC A, E`.
pub fn opx9B(cpu: &mut Cpu, mmu: &mut Mmu)
    ensures
        state(final(cpu), final(mmu)) == state(old(cpu), old(mmu)).alu(
            AluOp::Sbc,
            Operand8::Reg(Reg8::E),
        ),
        final(mmu)@.timing() == old(mmu)@.timing(),
{
    proof {
        reveal(Machine::alu);
    }
    sbc_a_x(cpu.regs.e, cpu);
}

/// `SBC A, H`.
pub fn opx9C(cpu: &mut Cpu, mmu: &mut Mmu)
    ensures
        state(final(cpu), final(mmu)) == state(old(cpu), old(mmu)).alu(
            AluOp::Sbc,
            Operand8::Reg(Reg8::H),
        ),
        final(mmu)@.timing() == old(mmu)@.timing(),
{
    proof {
        reveal(Machine::alu);
    }
    sbc_a_x(cpu.regs.h, cpu);
}

/// `SBC A, L`.
pub fn opx9D(cpu: &mut Cpu, mmu: &mut Mmu)
    ensures
        state(final(cpu), final(mmu)) == state(old(cpu), old(mmu)).alu(
            AluOp::Sbc,
            Operand8::Reg(Reg8::L),
        ),
        final(mmu)@.timing() == old(mmu)@.timing(),
{
    proof {
        reveal(Machine::alu);
    }
    sbc_a_x(cpu.regs.l, cpu);
}

/// `SBC A, (HL)`.
pub fn opx9E(cpu: &mut Cpu, mmu: &mut Mmu)
    ensures
        state(final(cpu), final(mmu)) == state(old(cpu), old(mmu)).alu(AluOp::Sbc, Operand8::HlInd),
        final(mmu)@.timing() == old(mmu)@.timing(),
{
    proof {
        reveal(Machine::alu);
    }
    let v = mmu.read(cpu.regs.hl());
    sbc_a_x(v, cpu);
}

/// `SBC A, A`.
pub fn opx9F(cpu: &mut Cpu, mmu: &mut Mmu)
    ensures
        state(final(cpu), final(mmu)) == state(old(cpu), old(mmu)).alu(
            AluOp::Sbc,
            Operand8::Reg(Reg8::A),
        ),
        final(mmu)@.timing() == old(mmu)@.timing(),
{
    proof {
        reveal(Machine::alu);
    }
    sbc_a_x(cpu.regs.a, cpu);
}

/// `AND B`.
pub fn opxA0(cpu: &mut Cpu, mmu: &mut Mmu)
    ensures
        state(final(cpu), final(mmu)) == state(old(cpu), old(mmu)).alu(
            AluOp::And,
            Operand8::Reg(Reg8::B),
        ),
        final(mmu)@.timing() == old(mmu)@.timing(),
{
    proof {
        reveal(Machine::alu);
    }
    and_x(cpu.regs.b, cpu);
}

/// `AND C`.
pub fn opxA1(cpu: &mut Cpu, mmu: &mut Mmu)
    ensures
        state(final(cpu), final(mmu)) == state(old(cpu), old(mmu)).alu(
            AluOp::And,
            Operand8::Reg(Reg8::C),
        ),
        final(mmu)@.timing() == old(mmu)@.timing(),
{
    proof {
        reveal(Machine::alu);
    }
    and_x(cpu.regs.c, cpu);
}

/// `AND D`.
pub fn opxA2(cpu: &mut Cpu, mmu: &mut Mmu)
    ensures
        state(final(cpu), final(mmu)) == state(old(cpu), old(mmu)).alu(
            AluOp::And,
            Operand8::Reg(Reg8::D),
        ),
        final(mmu)@.timing() == old(mmu)@.timing(),
{
    proof {
        reveal(Machine::alu);
    }
    and_x(cpu.regs.d, cpu);
}

/// `AND E`.
pub fn opxA3(cpu: &mut Cpu, mmu: &mut Mmu)
    ensures
        state(final(cpu), final(mmu)) == state(old(cpu), old(mmu)).alu(
            AluOp::And,
            Operand8::Reg(Reg8::E),
        ),
        final(mmu)@.timing() == old(mmu)@.timing(),
{
    proof {
        reveal(Machine::alu);
    }
    and_x(cpu.regs.e, cpu);
}

/// `AND H`.
pub fn opxA4(cpu: &mut Cpu, mmu: &mut Mmu)
    ensures
        state(final(cpu), final(mmu)) == state(old(cpu), old(mmu)).alu(
            AluOp::And,
            Operand8::Reg(Reg8::H),
        ),
        final(mmu)@.timing() == old(mmu)@.timing(),
{
    proof {
        reveal(Machine::alu);
    }
    and_x(cpu.regs.h, cpu);
}

/// `AND L`.
pub fn opxA5(cpu: &mut Cpu, mmu: &mut Mmu)
    ensures
        state(final(cpu), final(mmu)) == state(old(cpu), old(mmu)).alu(
            AluOp::And,
            Operand8::Reg(Reg8::L),
        ),
        final(mmu)@.timing() == old(mmu)@.timing(),
{
    proof {
        reveal(Machine::alu);
    }
    and_x(cpu.regs.l, cpu);
}

/// `AND (HL)`.
pub fn opxA6(cpu: &mut Cpu, mmu: &mut Mmu)
    ensures
        state(final(cpu), final(mmu)) == state(old(cpu), old(mmu)).alu(AluOp::And, Operand8::HlInd),
        final(mmu)@.timing() == old(mmu)@.timing(),
{
    proof {
        reveal(Machine::alu);
    }
    let v = mmu.read(cpu.regs.hl());
    and_x(v, cpu);
}

/// `AND A`.
pub fn opxA7(cpu: &mut Cpu, mmu: &mut Mmu)
    ensures
        state(final(cpu), final(mmu)) == state(old(cpu), old(mmu)).alu(
            AluOp::And,
            Operand8::Reg(Reg8::A),
        ),
        final(mmu)@.timing() == old(mmu)@.timing(),
{
    proof {
        reveal(Machine::alu);
    }
    and_x(cpu.regs.a, cpu);
}

/// `XOR B`.
pub fn opxA8(cpu: &mut Cpu, mmu: &mut Mmu)
    ensures
        state(final(cpu), final(mmu)) == state(old(cpu), old(mmu)).alu(
            AluOp::Xor,
            Operand8::Reg(Reg8::B),
        ),
        final(mmu)@.timing() == old(mmu)@.timing(),
{
    proof {
        reveal(Machine::alu);
    }
    xor_a(cpu.regs.b, cpu);
}

/// `XOR C`.
pub fn opxA9(cpu: &mut Cpu, mmu: &mut Mmu)
    ensures
        state(final(cpu), final(mmu)) == state(old(cpu), old(mmu)).alu(
            AluOp::Xor,
            Operand8::Reg(Reg8::C),
        ),
        final(mmu)@.timing() == old(mmu)@.timing(),
{
    proof {
        reveal(Machine::alu);
    }
    xor_a(cpu.regs.c, cpu);
}

/// `XOR D`.
pub fn opxAA(cpu: &mut Cpu, mmu: &mut Mmu)
    ensures
        state(final(cpu), final(mmu)) == state(old(cpu), old(mmu)).alu(
            AluOp::Xor,
            Operand8::Reg(Reg8::D),
        ),
        final(mmu)@.timing() == old(mmu)@.timing(),
{
    proof {
        reveal(Machine::alu);
    }
    xor_a(cpu.regs.d, cpu);
}

/// `XOR E`.
pub fn opxAB(cpu: &mut Cpu, mmu: &mut Mmu)
    ensures
        state(final(cpu), final(mmu)) == state(old(cpu), old(mmu)).alu(
            AluOp::Xor,
            Operand8::Reg(Reg8::E),
        ),
        final(mmu)@.timing() == old(mmu)@.timing(),
{
    proof {
        reveal(Machine::alu);
    }
    xor_a(cpu.regs.e, cpu);
}

/// `XOR H`.
pub fn opxAC(cpu: &mut Cpu, mmu: &mut Mmu)
    ensures
        state(final(cpu), final(mmu)) == state(old(cpu), old(mmu)).alu(
            AluOp::Xor,
            Operand8::Reg(Reg8::H),
        ),
        final(mmu)@.timing() == old(mmu)@.timing(),
{
    proof {
        reveal(Machine::alu);
    }
    xor_a(cpu.regs.h, cpu);
}

/// `XOR L`.
pub fn opxAD(cpu: &mut Cpu, mmu: &mut Mmu)
    ensures
        state(final(cpu), final(mmu)) == state(old(cpu), old(mmu)).alu(
            AluOp::Xor,
            Operand8::Reg(Reg8::L),
        ),
        final(mmu)@.timing() == old(mmu)@.timing(),
{
    proof {
        reveal(Machine::alu);
    }
    xor_a(cpu.regs.l, cpu);
}

/// `XOR (HL)`.
pub fn opxAE(cpu: &mut Cpu, mmu: &mut Mmu)
    ensures
        state(final(cpu), final(mmu)) == state(old(cpu), old(mmu)).alu(AluOp::Xor, Operand8::HlInd),
        final(mmu)@.timing() == old(mmu)@.timing(),
{
    proof {
        reveal(Machine::alu);
    }
    let v = mmu.read(cpu.regs.hl());
    xor_a(v, cpu);
}

/// `XOR A`.
pub fn opxAF(cpu: &mut Cpu, mmu: &mut Mmu)
    ensures
        state(final(cpu), final(mmu)) == state(old(cpu), old(mmu)).alu(
            AluOp::Xor,
            Operand8::Reg(Reg8::A),
        ),
        final(mmu)@.timing() == old(mmu)@.timing(),
{
    proof {
        reveal(Machine::alu);
    }
    xor_a(cpu.regs.a, cpu);
}

/// `OR B`.
pub fn opxB0(cpu: &mut Cpu, mmu: &mut Mmu)
    ensures
        state(final(cpu), final(mmu)) == state(old(cpu), old(mmu)).alu(
            AluOp::Or,
            Operand8::Reg(Reg8::B),
        ),
        final(mmu)@.timing() == old(mmu)@.timing(),
{
    proof {
        reveal(Machine::alu);
    }
    or_x(cpu.regs.b, cpu);
}

/// `OR C`.
pub fn opxB1(cpu: &mut Cpu, mmu: &mut Mmu)
    ensures
        state(final(cpu), final(mmu)) == state(old(cpu), old(mmu)).alu(
            AluOp::Or,
            Operand8::Reg(Reg8::C),
        ),
        final(mmu)@.timing() == old(mmu)@.timing(),
{
    proof {
        reveal(Machine::alu);
    }
    or_x(cpu.regs.c, cpu);
}

/// `OR D`.
pub fn opxB2(cpu: &mut Cpu, mmu: &mut Mmu)
    ensures
        state(final(cpu), final(mmu)) == state(old(cpu), old(mmu)).alu(
            AluOp::Or,
            Operand8::Reg(Reg8::D),
        ),
        final(mmu)@.timing() == old(mmu)@.timing(),
{
    proof {
        reveal(Machine::alu);
    }
    or_x(cpu.regs.d, cpu);
}

/// `OR E`.
pub fn opxB3(cpu: &mut Cpu, mmu: &mut Mmu)
    ensures
        state(final(cpu), final(mmu)) == state(old(cpu), old(mmu)).alu(
            AluOp::Or,
            Operand8::Reg(Reg8::E),
        ),
        final(mmu)@.timing() == old(mmu)@.timing(),
{
    proof {
        reveal(Machine::alu);
    }
    or_x(cpu.regs.e, cpu);
}

/// `OR H`.
pub fn opxB4(cpu: &mut Cpu, mmu: &mut Mmu)
    ensures
        state(final(cpu), final(mmu)) == state(old(cpu), old(mmu)).alu(
            AluOp::Or,
            Operand8::Reg(Reg8::H),
        ),
        final(mmu)@.timing() == old(mmu)@.timing(),
{
    proof {
        reveal(Machine::alu);
    }
    or_x(cpu.regs.h, cpu);
}

/// `OR L`.
pub fn opxB5(cpu: &mut Cpu, mmu: &mut Mmu)
    ensures
        state(final(cpu), final(mmu)) == state(old(cpu), old(mmu)).alu(
            AluOp::Or,
            Operand8::Reg(Reg8::L),
        ),
        final(mmu)@.timing() == old(mmu)@.timing(),
{
    proof {
        reveal(Machine::alu);
    }
    or_x(cpu.regs.l, cpu);
}

/// `OR (HL)`.
pub fn opxB6(cpu: &mut Cpu, mmu: &mut Mmu)
    ensures
        state(final(cpu), final(mmu)) == state(old(cpu), old(mmu)).alu(AluOp::Or, Operand8::HlInd),
        final(mmu)@.timing() == old(mmu)@.timing(),
{
    proof {
        reveal(Machine::alu);
    }
    let v = mmu.read(cpu.regs.hl());
    or_x(v, cpu);
}

/// `OR A`.
pub fn opxB7(cpu: &mut Cpu, mmu: &mut Mmu)
    ensures
        state(final(cpu), final(mmu)) == state(old(cpu), old(mmu)).alu(
            AluOp::Or,
            Operand8::Reg(Reg8::A),
        ),
        final(mmu)@.timing() == old(mmu)@.timing(),
{
    proof {
        reveal(Machine::alu);
    }
    or_x(cpu.regs.a, cpu);
}

/// `CP B`.
pub fn opxB8(cpu: &mut Cpu, mmu: &mut Mmu)
    ensures
        state(final(cpu), final(mmu)) == state(old(cpu), old(mmu)).alu(
            AluOp::Cp,
            Operand8::Reg(Reg8::B),
        ),
        final(mmu)@.timing() == old(mmu)@.timing(),
{
    proof {
        reveal(Machine::alu);
    }
    cp_x(cpu.regs.b, cpu);
}

/// `CP C`.
pub fn opxB9(cpu: &mut Cpu, mmu: &mut Mmu)
    ensures
        state(final(cpu), final(mmu)) == state(old(cpu), old(mmu)).alu(
            AluOp::Cp,
            Operand8::Reg(Reg8::C),
        ),
        final(mmu)@.timing() == old(mmu)@.timing(),
{
    proof {
        reveal(Machine::alu);
    }
    cp_x(cpu.regs.c, cpu);
}

/// `CP D`.
pub fn opxBA(cpu: &mut Cpu, mmu: &mut Mmu)
    ensures
        state(final(cpu), final(mmu)) == state(old(cpu), old(mmu)).alu(
            AluOp::Cp,
            Operand8::Reg(Reg8::D),
        ),
        final(mmu)@.timing() == old(mmu)@.timing(),
{
    proof {
        reveal(Machine::alu);
    }
    cp_x(cpu.regs.d, cpu);
}

/// `CP E`.
pub fn opxBB(cpu: &mut Cpu, mmu: &mut Mmu)
    ensures
        state(final(cpu), final(mmu)) == state(old(cpu), old(mmu)).alu(
            AluOp::Cp,
            Operand8::Reg(Reg8::E),
        ),
        final(mmu)@.timing() == old(mmu)@.timing(),
{
    proof {
        reveal(Machine::alu);
    }
    cp_x(cpu.regs.e, cpu);
}

/// `CP H`.
pub fn opxBC(cpu: &mut Cpu, mmu: &mut Mmu)
    ensures
        state(final(cpu), final(mmu)) == state(old(cpu), old(mmu)).alu(
            AluOp::Cp,
            Operand8::Reg(Reg8::H),
        ),
        final(mmu)@.timing() == old(mmu)@.timing(),
{
    proof {
        reveal(Machine::alu);
    }
    cp_x(cpu.regs.h, cpu);
}

/// `CP L`.
pub fn opxBD(cpu: &mut Cpu, mmu: &mut Mmu)
    ensures
        state(final(cpu), final(mmu)) == state(old(cpu), old(mmu)).alu(
            AluOp::Cp,
            Operand8::Reg(Reg8::L),
        ),
        final(mmu)@.timing() == old(mmu)@.timing(),
{
    proof {
        reveal(Machine::alu);
    }
    cp_x(cpu.regs.l, cpu);
}

/// `CP (HL)`.
pub fn opxBE(cpu: &mut Cpu, mmu: &mut Mmu)
    ensures
        state(final(cpu), final(mmu)) == state(old(cpu), old(mmu)).alu(AluOp::Cp, Operand8::HlInd),
        final(mmu)@.timing() == old(mmu)@.timing(),
{
    proof {
        reveal(Machine::alu);
    }
    let v = mmu.read(cpu.regs.hl());
    cp_x(v, cpu);
}

/// `CP A`.
pub fn opxBF(cpu: &mut Cpu, mmu: &mut Mmu)
    ensures
        state(final(cpu), final(mmu)) == state(old(cpu), old(mmu)).alu(
            AluOp::Cp,
            Operand8::Reg(Reg8::A),
        ),
        final(mmu)@.timing() == old(mmu)@.timing(),
{
    proof {
        reveal(Machine::alu);
    }
    cp_x(cpu.regs.a, cpu);
}

/// `RET NZ`.
pub fn opxC0(cpu: &mut Cpu, mmu: &mut Mmu)
    ensures
        state(final(cpu), final(mmu)) == state(old(cpu), old(mmu)).ret_cond(Cond::NZ),
        final(mmu)@.timing() == old(mmu)@.timing(),
{
    proof {
        reveal(Machine::ret_cond);
    }
    if !cpu.regs.flags.z {
        go_back(cpu, mmu);
    }
}

/// `POP BC`.
pub fn opxC1(cpu: &mut Cpu, mmu: &mut Mmu)
    ensures
        state(final(cpu), final(mmu)) == state(old(cpu), old(mmu)).pop(StackPair::BC),
        final(mmu)@.timing() == old(mmu)@.timing(),
{
    proof {
        reveal(Machine::pop);
    }
    let v = cpu.stack_pop_u16(mmu);
    cpu.regs.set_bc(v);
}

/// `JP NZ, a16`.
pub fn opxC2(cpu: &mut Cpu, mmu: &mut Mmu)
    ensures
        state(final(cpu), final(mmu)) == state(old(cpu), old(mmu)).jp_cond(Cond::NZ),
        final(mmu)@.timing() == old(mmu)@.timing(),
{
    proof {
        reveal(Machine::jp_cond);
    }
    let addr = cpu.immediate_u16_pc(mmu);
    if !cpu.regs.flags.z {
        cpu.regs.pc = addr;
    }
}

/// `JP a16`.
pub fn opxC3(cpu: &mut Cpu, mmu: &mut Mmu)
    ensures
        state(final(cpu), final(mmu)) == state(old(cpu), old(mmu)).jp(),
        final(mmu)@.timing() == old(mmu)@.timing(),
{
    proof {
        reveal(Machine::jp);
    }
    let addr = cpu.immediate_u16_pc(mmu);
    cpu.regs.pc = addr;
}

/// `CALL NZ, a16`.
pub fn opxC4(cpu: &mut Cpu, mmu: &mut Mmu)
    ensures
        state(final(cpu), final(mmu)) == state(old(cpu), old(mmu)).call_cond(Cond::NZ),
        final(mmu)@.timing() == old(mmu)@.timing(),
{
    proof {
        reveal(Machine::call_cond);
    }
    let a16 = cpu.immediate_u16_pc(mmu);
    if !cpu.regs.flags.z {
        restart(cpu, mmu, a16);
    }
}

/// `PUSH BC`.
pub fn opxC5(cpu: &mut Cpu, mmu: &mut Mmu)
    ensures
        state(final(cpu), final(mmu)) == state(old(cpu), old(mmu)).push(StackPair::BC),
        final(mmu)@.timing() == old(mmu)@.timing(),
{
    proof {
        reveal(Machine::push);
    }
    let v = cpu.regs.bc();
    push_r16(cpu, mmu, v);
}

/// `ADD A, d8`.
pub fn opxC6(cpu: &mut Cpu, mmu: &mut Mmu)
    ensures
        state(final(cpu), final(mmu)) == state(old(cpu), old(mmu)).alu_imm(AluOp::Add),
        final(mmu)@.timing() == old(mmu)@.timing(),
{
    proof {
        reveal(Machine::alu_imm);
    }
    let d8 = cpu.immediate_u8_pc(mmu);
    add_a_x(d8, cpu);
}

/// `RST 00H`.
pub fn opxC7(cpu: &mut Cpu, mmu: &mut Mmu)
    ensures
        state(final(cpu), final(mmu)) == state(old(cpu), old(mmu)).rst(0x00),
        final(mmu)@.timing() == old(mmu)@.timing(),
{
    proof {
        reveal(Machine::rst);
    }
    restart(cpu, mmu, 0x00);
}

/// `RET Z`.
pub fn opxC8(cpu: &mut Cpu, mmu: &mut Mmu)
    ensures
        state(final(cpu), final(mmu)) == state(old(cpu), old(mmu)).ret_cond(Cond::Z),
        final(mmu)@.timing() == old(mmu)@.timing(),
{
    proof {
        reveal(Machine::ret_cond);
    }
    if cpu.regs.flags.z {
        go_back(cpu, mmu);
    }
}

/// `RET`.
pub fn opxC9(cpu: &mut Cpu, mmu: &mut Mmu)
    ensures
        state(final(cpu), final(mmu)) == state(old(cpu), old(mmu)).ret(),
        final(mmu)@.timing() == old(mmu)@.timing(),
{
    proof {
        reveal(Machine::ret);
    }
    go_back(cpu, mmu);
}

/// `JP Z, a16`.
pub fn opxCA(cpu: &mut Cpu, mmu: &mut Mmu)
    ensures
        state(final(cpu), final(mmu)) == state(old(cpu), old(mmu)).jp_cond(Cond::Z),
        final(mmu)@.timing() == old(mmu)@.timing(),
{
    proof {
        reveal(Machine::jp_cond);
    }
    let addr = cpu.immediate_u16_pc(mmu);
    if cpu.regs.flags.z {
        cpu.regs.pc = addr;
    }
}

/// `CALL Z, a16`.
pub fn opxCC(cpu: &mut Cpu, mmu: &mut Mmu)
    ensures
        state(final(cpu), final(mmu)) == state(old(cpu), old(mmu)).call_cond(Cond::Z),
        final(mmu)@.timing() == old(mmu)@.timing(),
{
    proof {
        reveal(Machine::call_cond);
    }
    let a16 = cpu.immediate_u16_pc(mmu);
    if cpu.regs.flags.z {
        restart(cpu, mmu, a16);
    }
}

/// `CALL a16`.
pub fn opxCD(cpu: &mut Cpu, mmu: &mut Mmu)
    ensures
        state(final(cpu), final(mmu)) == state(old(cpu), old(mmu)).call(),
        final(mmu)@.timing() == old(mmu)@.timing(),
{
    proof {
        reveal(Machine::call);
    }
    let a16 = cpu.immediate_u16_pc(mmu);
    restart(cpu, mmu, a16);
}

/// `ADC A, d8`.
pub fn opxCE(cpu: &mut Cpu, mmu: &mut Mmu)
    ensures
        state(final(cpu), final(mmu)) == state(old(cpu), old(mmu)).alu_imm(AluOp::Adc),
        final(mmu)@.timing() == old(mmu)@.timing(),
{
    proof {
        reveal(Machine::alu_imm);
    }
    let d8 = cpu.immediate_u8_pc(mmu);
    adc_a_x(d8, cpu);
}

/// `RST 08H`.
pub fn opxCF(cpu: &mut Cpu, mmu: &mut Mmu)
    ensures
        state(final(cpu), final(mmu)) == state(old(cpu), old(mmu)).rst(0x08),
        final(mmu)@.timing() == old(mmu)@.timing(),
{
    proof {
        reveal(Machine::rst);
    }
    restart(cpu, mmu, 0x08);
}

/// `RET NC`.
pub fn opxD0(cpu: &mut Cpu, mmu: &mut Mmu)
    ensures
        state(final(cpu), final(mmu)) == state(old(cpu), old(mmu)).ret_cond(Cond::NC),
        final(mmu)@.timing() == old(mmu)@.timing(),
{
    proof {
        reveal(Machine::ret_cond);
    }
    if !cpu.regs.flags.c {
        go_back(cpu, mmu);
    }
}

/// `POP DE`.
pub fn opxD1(cpu: &mut Cpu, mmu: &mut Mmu)
    ensures
        state(final(cpu), final(mmu)) == state(old(cpu), old(mmu)).pop(StackPair::DE),
        final(mmu)@.timing() == old(mmu)@.timing(),
{
    proof {
        reveal(Machine::pop);
    }
    let v = cpu.stack_pop_u16(mmu);
    cpu.regs.set_de(v);
}

/// `JP NC, a16`.
pub fn opxD2(cpu: &mut Cpu, mmu: &mut Mmu)
    ensures
        state(final(cpu), final(mmu)) == state(old(cpu), old(mmu)).jp_cond(Cond::NC),
        final(mmu)@.timing() == old(mmu)@.timing(),
{
    proof {
        reveal(Machine::jp_cond);
    }
    let addr = cpu.immediate_u16_pc(mmu);
    if !cpu.regs.flags.c {
        cpu.regs.pc = addr;
    }
}

/// `CALL NC, a16`.
pub fn opxD4(cpu: &mut Cpu, mmu: &mut Mmu)
    ensures
        state(final(cpu), final(mmu)) == state(old(cpu), old(mmu)).call_cond(Cond::NC),
        final(mmu)@.timing() == old(mmu)@.timing(),
{
    proof {
        reveal(Machine::call_cond);
    }
    let a16 = cpu.immediate_u16_pc(mmu);
    if !cpu.regs.flags.c {
        restart(cpu, mmu, a16);
    }
}

/// `PUSH DE`.
pub fn opxD5(cpu: &mut Cpu, mmu: &mut Mmu)
    ensures
        state(final(cpu), final(mmu)) == state(old(cpu), old(mmu)).push(StackPair::DE),
        final(mmu)@.timing() == old(mmu)@.timing(),
{
    proof {
        reveal(Machine::push);
    }
    let v = cpu.regs.de();
    push_r16(cpu, mmu, v);
}

/// `SUB d8`.
pub fn opxD6(cpu: &mut Cpu, mmu: &mut Mmu)
    ensures
        state(final(cpu), final(mmu)) == state(old(cpu), old(mmu)).alu_imm(AluOp::Sub),
        final(mmu)@.timing() == old(mmu)@.timing(),
{
    proof {
        reveal(Machine::alu_imm);
    }
    let d8 = cpu.immediate_u8_pc(mmu);
    sub_a_x(d8, cpu);
}

/// `RST 10H`.
pub fn opxD7(cpu: &mut Cpu, mmu: &mut Mmu)
    ensures
        state(final(cpu), final(mmu)) == state(old(cpu), old(mmu)).rst(0x10),
        final(mmu)@.timing() == old(mmu)@.timing(),
{
    proof {
        reveal(Machine::rst);
    }
    restart(cpu, mmu, 0x10);
}

/// `RET C`.
pub fn opxD8(cpu: &mut Cpu, mmu: &mut Mmu)
    ensures
        state(final(cpu), final(mmu)) == state(old(cpu), old(mmu)).ret_cond(Cond::C),
        final(mmu)@.timing() == old(mmu)@.timing(),
{
    proof {
        reveal(Machine::ret_cond);
    }
    if cpu.regs.flags.c {
        go_back(cpu, mmu);
    }
}

/// `RETI`.
pub fn opxD9(cpu: &mut Cpu, mmu: &mut Mmu)
    ensures
        state(final(cpu), final(mmu)) == state(old(cpu), old(mmu)).reti(),
        final(mmu)@.timing() == old(mmu)@.timing(),
{
    proof {
        reveal(Machine::reti);
    }
    go_back(cpu, mmu);
    mmu.set_ime(true);
}

/// `JP C, a16`.
pub fn opxDA(cpu: &mut Cpu, mmu: &mut Mmu)
    ensures
        state(final(cpu), final(mmu)) == state(old(cpu), old(mmu)).jp_cond(Cond::C),
        final(mmu)@.timing() == old(mmu)@.timing(),
{
    proof {
        reveal(Machine::jp_cond);
    }
    let addr = cpu.immediate_u16_pc(mmu);
    if cpu.regs.flags.c {
        cpu.regs.pc = addr;
    }
}

/// `CALL C, a16`.
pub fn opxDC(cpu: &mut Cpu, mmu: &mut Mmu)
    ensures
        state(final(cpu), final(mmu)) == state(old(cpu), old(mmu)).call_cond(Cond::C),
        final(mmu)@.timing() == old(mmu)@.timing(),
{
    proof {
        reveal(Machine::call_cond);
    }
    let a16 = cpu.immediate_u16_pc(mmu);
    if cpu.regs.flags.c {
        restart(cpu, mmu, a16);
    }
}

/// `SBC A, d8`.
pub fn opxDE(cpu: &mut Cpu, mmu: &mut Mmu)
    ensures
        state(final(cpu), final(mmu)) == state(old(cpu), old(mmu)).alu_imm(AluOp::Sbc),
        final(mmu)@.timing() == old(mmu)@.timing(),
{
    proof {
        reveal(Machine::alu_imm);
    }
    let d8 = cpu.immediate_u8_pc(mmu);
    sbc_a_x(d8, cpu);
}

/// `RST 18H`.
pub fn opxDF(cpu: &mut Cpu, mmu: &mut Mmu)
    ensures
        state(final(cpu), final(mmu)) == state(old(cpu), old(mmu)).rst(0x18),
        final(mmu)@.timing() == old(mmu)@.timing(),
{
    proof {
        reveal(Machine::rst);
    }
    restart(cpu, mmu, 0x18);
}

/// `LDH (a8), A`.
pub fn opxE0(cpu: &mut Cpu, mmu: &mut Mmu)
    ensures
        state(final(cpu), final(mmu)) == state(old(cpu), old(mmu)).ldh_a8_from_a(),
        final(mmu)@.timing() == old(mmu)@.timing(),
{
    proof {
        reveal(Machine::ldh_a8_from_a);
    }
    let addr = 0xFF00 + cpu.immediate_u8_pc(mmu) as u16;
    mmu.write(addr, cpu.regs.a);
}

/// `POP HL`.
pub fn opxE1(cpu: &mut Cpu, mmu: &mut Mmu)
    ensures
        state(final(cpu), final(mmu)) == state(old(cpu), old(mmu)).pop(StackPair::HL),
        final(mmu)@.timing() == old(mmu)@.timing(),
{
    proof {
        reveal(Machine::pop);
    }
    let v = cpu.stack_pop_u16(mmu);
    cpu.regs.set_hl(v);
}

/// `LD (C), A`.
pub fn opxE2(cpu: &mut Cpu, mmu: &mut Mmu)
    ensures
        state(final(cpu), final(mmu)) == state(old(cpu), old(mmu)).ld_c_from_a(),
        final(mmu)@.timing() == old(mmu)@.timing(),
{
    proof {
        reveal(Machine::ld_c_from_a);
    }
    let addr = 0xFF00 + cpu.regs.c as u16;
    mmu.write(addr, cpu.regs.a);
}

/// `PUSH HL`.
pub fn opxE5(cpu: &mut Cpu, mmu: &mut Mmu)
    ensures
        state(final(cpu), final(mmu)) == state(old(cpu), old(mmu)).push(StackPair::HL),
        final(mmu)@.timing() == old(mmu)@.timing(),
{
    proof {
        reveal(Machine::push);
    }
    let v = cpu.regs.hl();
    push_r16(cpu, mmu, v);
}

/// `AND d8`.
pub fn opxE6(cpu: &mut Cpu, mmu: &mut Mmu)
    ensures
        state(final(cpu), final(mmu)) == state(old(cpu), old(mmu)).alu_imm(AluOp::And),
        final(mmu)@.timing() == old(mmu)@.timing(),
{
    proof {
        reveal(Machine::alu_imm);
    }
    let d8 = cpu.immediate_u8_pc(mmu);
    and_x(d8, cpu);
}

/// `RST 20H`.
pub fn opxE7(cpu: &mut Cpu, mmu: &mut Mmu)
    ensures
        state(final(cpu), final(mmu)) == state(old(cpu), old(mmu)).rst(0x20),
        final(mmu)@.timing() == old(mmu)@.timing(),
{
    proof {
        reveal(Machine::rst);
    }
    restart(cpu, mmu, 0x20);
}

/// `ADD SP, r8`.
pub fn opxE8(cpu: &mut Cpu, mmu: &mut Mmu)
    ensures
        state(final(cpu), final(mmu)) == state(old(cpu), old(mmu)).add_sp_r8(),
        final(mmu)@.timing() == old(mmu)@.timing(),
{
    proof {
        reveal(Machine::add_sp_r8);
    }
    let e = cpu.immediate_u8_pc(mmu);
    let sum = sp_plus(cpu, e);
    cpu.regs.sp = sum;
}

/// `JP (HL)`.
pub fn opxE9(cpu: &mut Cpu, mmu: &mut Mmu)
    ensures
        state(final(cpu), final(mmu)) == state(old(cpu), old(mmu)).jp_hl(),
        final(mmu)@.timing() == old(mmu)@.timing(),
{
    proof {
        reveal(Machine::jp_hl);
    }
    cpu.regs.pc = cpu.regs.hl();
}

/// `LD (a16), A`.
pub fn opxEA(cpu: &mut Cpu, mmu: &mut Mmu)
    ensures
        state(final(cpu), final(mmu)) == state(old(cpu), old(mmu)).ld_a16_from_a(),
        final(mmu)@.timing() == old(mmu)@.timing(),
{
    proof {
        reveal(Machine::ld_a16_from_a);
    }
    let addr = cpu.immediate_u16_pc(mmu);
    mmu.write(addr, cpu.regs.a);
}

/// `XOR d8`.
pub fn opxEE(cpu: &mut Cpu, mmu: &mut Mmu)
    ensures
        state(final(cpu), final(mmu)) == state(old(cpu), old(mmu)).alu_imm(AluOp::Xor),
        final(mmu)@.timing() == old(mmu)@.timing(),
{
    proof {
        reveal(Machine::alu_imm);
    }
    let d8 = cpu.immediate_u8_pc(mmu);
    xor_a(d8, cpu);
}

/// `RST 28H`.
pub fn opxEF(cpu: &mut Cpu, mmu: &mut Mmu)
    ensures
        state(final(cpu), final(mmu)) == state(old(cpu), old(mmu)).rst(0x28),
        final(mmu)@.timing() == old(mmu)@.timing(),
{
    proof {
        reveal(Machine::rst);
    }
    restart(cpu, mmu, 0x28);
}

/// `LDH A, (a8)`.
pub fn opxF0(cpu: &mut Cpu, mmu: &mut Mmu)
    ensures
        state(final(cpu), final(mmu)) == state(old(cpu), old(mmu)).ldh_a_from_a8(),
        final(mmu)@.timing() == old(mmu)@.timing(),
{
    proof {
        reveal(Machine::ldh_a_from_a8);
    }
    let addr = 0xFF00 + cpu.immediate_u8_pc(mmu) as u16;
    let v = mmu.read(addr);
    ld_x_y(&mut cpu.regs.a, v);
}

/// `POP AF`.
pub fn opxF1(cpu: &mut Cpu, mmu: &mut Mmu)
    ensures
        state(final(cpu), final(mmu)) == state(old(cpu), old(mmu)).pop(StackPair::AF),
        final(mmu)@.timing() == old(mmu)@.timing(),
{
    proof {
        reveal(Machine::pop);
    }
    let v = cpu.stack_pop_u16(mmu);
    cpu.regs.set_af(v);
}

/// `LD A, (C)`.
pub fn opxF2(cpu: &mut Cpu, mmu: &mut Mmu)
    ensures
        state(final(cpu), final(mmu)) == state(old(cpu), old(mmu)).ld_a_from_c(),
        final(mmu)@.timing() == old(mmu)@.timing(),
{
    proof {
        reveal(Machine::ld_a_from_c);
    }
    let addr = 0xFF00 + cpu.regs.c as u16;
    let v = mmu.read(addr);
    ld_x_y(&mut cpu.regs.a, v);
}

/// `DI`.
pub fn opxF3(cpu: &mut Cpu, mmu: &mut Mmu)
    ensures
        state(final(cpu), final(mmu)) == state(old(cpu), old(mmu)).di(),
        final(mmu)@.timing() == old(mmu)@.timing(),
{
    proof {
        reveal(Machine::di);
    }
    mmu.set_ime(false);
    cpu.ime_pending = false;
}

/// `PUSH AF`.
pub fn opxF5(cpu: &mut Cpu, mmu: &mut Mmu)
    ensures
        state(final(cpu), final(mmu)) == state(old(cpu), old(mmu)).push(StackPair::AF),
        final(mmu)@.timing() == old(mmu)@.timing(),
{
    proof {
        reveal(Machine::push);
    }
    let v = cpu.regs.af();
    push_r16(cpu, mmu, v);
}

/// `OR d8`.
pub fn opxF6(cpu: &mut Cpu, mmu: &mut Mmu)
    ensures
        state(final(cpu), final(mmu)) == state(old(cpu), old(mmu)).alu_imm(AluOp::Or),
        final(mmu)@.timing() == old(mmu)@.timing(),
{
    proof {
        reveal(Machine::alu_imm);
    }
    let d8 = cpu.immediate_u8_pc(mmu);
    or_x(d8, cpu);
}

/// `RST 30H`.
pub fn opxF7(cpu: &mut Cpu, mmu: &mut Mmu)
    ensures
        state(final(cpu), final(mmu)) == state(old(cpu), old(mmu)).rst(0x30),
        final(mmu)@.timing() == old(mmu)@.timing(),
{
    proof {
        reveal(Machine::rst);
    }
    restart(cpu, mmu, 0x30);
}

/// `LD HL, SP+r8`.
pub fn opxF8(cpu: &mut Cpu, mmu: &mut Mmu)
    ensures
        state(final(cpu), final(mmu)) == state(old(cpu), old(mmu)).ld_hl_sp_r8(),
        final(mmu)@.timing() == old(mmu)@.timing(),
{
    proof {
        reveal(Machine::ld_hl_sp_r8);
    }
    let e = cpu.immediate_u8_pc(mmu);
    let sum = sp_plus(cpu, e);
    cpu.regs.set_hl(sum);
}

/// `LD SP, HL`.
pub fn opxF9(cpu: &mut Cpu, mmu: &mut Mmu)
    ensures
        state(final(cpu), final(mmu)) == state(old(cpu), old(mmu)).ld_sp_hl(),
        final(mmu)@.timing() == old(mmu)@.timing(),
{
    proof {
        reveal(Machine::ld_sp_hl);
    }
    cpu.regs.sp = cpu.regs.hl();
}

/// `LD A, (a16)`.
pub fn opxFA(cpu: &mut Cpu, mmu: &mut Mmu)
    ensures
        state(final(cpu), final(mmu)) == state(old(cpu), old(mmu)).ld_a_from_a16(),
        final(mmu)@.timing() == old(mmu)@.timing(),
{
    proof {
        reveal(Machine::ld_a_from_a16);
    }
    let addr = cpu.immediate_u16_pc(mmu);
    let v = mmu.read(addr);
    ld_x_y(&mut cpu.regs.a, v);
}

/// `EI`.
pub fn opxFB(cpu: &mut Cpu, mmu: &mut Mmu)
    ensures
        state(final(cpu), final(mmu)) == state(old(cpu), old(mmu)).ei(),
        final(mmu)@.timing() == old(mmu)@.timing(),
{
    proof {
        reveal(Machine::ei);
    }
    cpu.ime_pending = true;
}

/// `CP d8`.
pub fn opxFE(cpu: &mut Cpu, mmu: &mut Mmu)
    ensures
        state(final(cpu), final(mmu)) == state(old(cpu), old(mmu)).alu_imm(AluOp::Cp),
        final(mmu)@.timing() == old(mmu)@.timing(),
{
    proof {
        reveal(Machine::alu_imm);
    }
    let d8 = cpu.immediate_u8_pc(mmu);
    cp_x(d8, cpu);
}

/// `RST 38H`.
pub fn opxFF(cpu: &mut Cpu, mmu: &mut Mmu)
    ensures
        state(final(cpu), final(mmu)) == state(old(cpu), old(mmu)).rst(0x38),
        final(mmu)@.timing() == old(mmu)@.timing(),
{
    proof {
        reveal(Machine::rst);
    }
    restart(cpu, mmu, 0x38);
}

} // verus!
