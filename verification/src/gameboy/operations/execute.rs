//! The execution of an instruction from its decoded form: operands are
//! taken from the instruction at run time.

use vstd::prelude::*;
use crate::gameboy::cpu::Cpu;
use crate::gameboy::mmu::Mmu;
use crate::gameboy::operations::alu::{
    adc_a_x, add_a_x, add_hl, and_x, bit_x_n, cb_res, cb_rr, cb_set, cp_x, dec_x, go_back, inc_x,
    jump_relative, or_x, push_r16, restart, rl_n, rlc_n, rrc_n, sbc_a_x, sla_n, sra_n, srl,
    sub_a_x, swap, xor_a,
};
use crate::gameboy::operations::base::{
    opx00, opx07, opx08, opx0F, opx10, opx17, opx18, opx1F, opx27, opx2F, opx37, opx3F, opx76,
    opxC3, opxC9, opxCD, opxD9, opxE0, opxE2, opxE8, opxE9, opxEA, opxF0, opxF2, opxF3, opxF8,
    opxF9, opxFA, opxFB,
};
use crate::gameboy::operations::semantics::{
    branch_taken, holds, lemma_run, run, state, Machine,
};
use crate::gameboy::operations::{
    AluOp, Cond, Indirect, Instr, Operand8, Reg16, Reg8, RotOp, StackPair,
};
use crate::gameboy::registers::{FlagRegister, Registers};

verus! {

impl Registers {
    /// The value of the register `r`.
    pub fn get(&self, r: Reg8) -> (v: u8)
        ensures
            v == self.reg(r),
    {
        match r {
            Reg8::B => self.b,
            Reg8::C => self.c,
            Reg8::D => self.d,
            Reg8::E => self.e,
            Reg8::H => self.h,
            Reg8::L => self.l,
            Reg8::A => self.a,
        }
    }

    /// Puts `v` into the register `r`.
    pub fn set(&mut self, r: Reg8, v: u8)
        ensures
            *final(self) == old(self).with_reg(r, v),
    {
        match r {
            Reg8::B => self.b = v,
            Reg8::C => self.c = v,
            Reg8::D => self.d = v,
            Reg8::E => self.e = v,
            Reg8::H => self.h = v,
            Reg8::L => self.l = v,
            Reg8::A => self.a = v,
        }
    }

    /// The value of the 16-bit register `rr`.
    pub fn get16(&self, rr: Reg16) -> (v: u16)
        ensures
            v == self.reg16(rr),
    {
        match rr {
            Reg16::BC => self.bc(),
            Reg16::DE => self.de(),
            Reg16::HL => self.hl(),
            Reg16::SP => self.sp,
        }
    }

    /// Puts `v` into the 16-bit register `rr`.
    pub fn set16(&mut self, rr: Reg16, v: u16)
        ensures
            *final(self) == old(self).with_reg16(rr, v),
    {
        match rr {
            Reg16::BC => self.set_bc(v),
            Reg16::DE => self.set_de(v),
            Reg16::HL => self.set_hl(v),
            Reg16::SP => self.sp = v,
        }
    }
}

/// Whether the condition `cc` holds of `flags`.
pub fn condition(cc: Cond, flags: &FlagRegister) -> (met: bool)
    ensures
        met == holds(cc, *flags),
{
    match cc {
        Cond::NZ => !flags.z,
        Cond::Z => flags.z,
        Cond::NC => !flags.c,
        Cond::C => flags.c,
    }
}

/// Whether `instr` is a conditional branch that the flags `flags` let
/// through.
pub fn takes_branch(instr: Instr, flags: &FlagRegister) -> (taken: bool)
    ensures
        taken == branch_taken(instr, *flags),
{
    match instr {
        Instr::JpCond(cc) => condition(cc, flags),
        Instr::JrCond(cc) => condition(cc, flags),
        Instr::CallCond(cc) => condition(cc, flags),
        Instr::RetCond(cc) => condition(cc, flags),
        _ => false,
    }
}

/// The value of the operand `op`.
pub fn read_operand(op: Operand8, cpu: &Cpu, mmu: &Mmu) -> (v: u8)
    ensures
        v == state(cpu, mmu).operand(op),
{
    match op {
        Operand8::Reg(r) => cpu.regs.get(r),
        Operand8::HlInd => mmu.read(cpu.regs.hl()),
    }
}

/// Puts `v` into the operand `op`.
pub fn write_operand(op: Operand8, v: u8, cpu: &mut Cpu, mmu: &mut Mmu)
    ensures
        state(final(cpu), final(mmu)) == state(old(cpu), old(mmu)).with_operand(op, v),
        final(mmu)@.timing() == old(mmu)@.timing(),
{
    match op {
        Operand8::Reg(r) => cpu.regs.set(r, v),
        Operand8::HlInd => mmu.write(cpu.regs.hl(), v),
    }
}

/// `LD dst, src`.
pub fn load(dst: Operand8, src: Operand8, cpu: &mut Cpu, mmu: &mut Mmu)
    ensures
        state(final(cpu), final(mmu)) == state(old(cpu), old(mmu)).ld(dst, src),
        final(mmu)@.timing() == old(mmu)@.timing(),
{
    proof {
        reveal(Machine::ld);
    }
    let v = read_operand(src, cpu, mmu);
    write_operand(dst, v, cpu, mmu);
}

/// `LD dst, d8`.
pub fn load_immediate(dst: Operand8, cpu: &mut Cpu, mmu: &mut Mmu)
    ensures
        state(final(cpu), final(mmu)) == state(old(cpu), old(mmu)).ld_imm(dst),
        final(mmu)@.timing() == old(mmu)@.timing(),
{
    proof {
        reveal(Machine::ld_imm);
    }
    let v = cpu.immediate_u8_pc(mmu);
    write_operand(dst, v, cpu, mmu);
}

/// The address that `ind` names.
fn indirect_address(ind: Indirect, cpu: &Cpu, mmu: &Mmu) -> (addr: u16)
    ensures
        addr == state(cpu, mmu).indirect(ind),
{
    match ind {
        Indirect::BC => cpu.regs.bc(),
        Indirect::DE => cpu.regs.de(),
        Indirect::HLInc => cpu.regs.hl(),
        Indirect::HLDec => cpu.regs.hl(),
    }
}

/// Moves HL by one where `ind` asks for it.
fn finish_indirect(ind: Indirect, cpu: &mut Cpu, mmu: &Mmu)
    ensures
        state(final(cpu), mmu) == state(old(cpu), mmu).after_indirect(ind),
{
    match ind {
        Indirect::BC => {},
        Indirect::DE => {},
        Indirect::HLInc => {
            let hl = cpu.regs.hl();
            cpu.regs.set_hl(hl.wrapping_add(1));
        },
        Indirect::HLDec => {
            let hl = cpu.regs.hl();
            cpu.regs.set_hl(hl.wrapping_sub(1));
        },
    }
}

/// `LD A, (rr)`.
pub fn load_a_from(ind: Indirect, cpu: &mut Cpu, mmu: &mut Mmu)
    ensures
        state(final(cpu), final(mmu)) == state(old(cpu), old(mmu)).ld_a_from(ind),
        final(mmu)@.timing() == old(mmu)@.timing(),
{
    proof {
        reveal(Machine::ld_a_from);
    }
    let addr = indirect_address(ind, cpu, mmu);
    cpu.regs.a = mmu.read(addr);
    finish_indirect(ind, cpu, mmu);
}

/// `LD (rr), A`.
pub fn store_a_to(ind: Indirect, cpu: &mut Cpu, mmu: &mut Mmu)
    ensures
        state(final(cpu), final(mmu)) == state(old(cpu), old(mmu)).ld_to_ind(ind),
        final(mmu)@.timing() == old(mmu)@.timing(),
{
    proof {
        reveal(Machine::ld_to_ind);
    }
    let addr = indirect_address(ind, cpu, mmu);
    mmu.write(addr, cpu.regs.a);
    finish_indirect(ind, cpu, mmu);
}

/// `LD rr, d16`.
pub fn load16_immediate(rr: Reg16, cpu: &mut Cpu, mmu: &mut Mmu)
    ensures
        state(final(cpu), final(mmu)) == state(old(cpu), old(mmu)).ld16_imm(rr),
        final(mmu)@.timing() == old(mmu)@.timing(),
{
    proof {
        reveal(Machine::ld16_imm);
    }
    let d16 = cpu.immediate_u16_pc(mmu);
    cpu.regs.set16(rr, d16);
}

/// The operation `op` on the accumulator with `v`.
pub fn accumulate(op: AluOp, v: u8, cpu: &mut Cpu)
    ensures
        *final(cpu) == old(cpu).with_outcome(
            crate::gameboy::operations::semantics::alu(
                op,
                old(cpu).regs.a,
                v,
                old(cpu).regs.flags,
            ),
        ),
{
    match op {
        AluOp::Add => add_a_x(v, cpu),
        AluOp::Adc => adc_a_x(v, cpu),
        AluOp::Sub => sub_a_x(v, cpu),
        AluOp::Sbc => sbc_a_x(v, cpu),
        AluOp::And => and_x(v, cpu),
        AluOp::Xor => xor_a(v, cpu),
        AluOp::Or => or_x(v, cpu),
        AluOp::Cp => cp_x(v, cpu),
    }
}

/// An operation on the accumulator with a register or `(HL)`.
pub fn arithmetic(op: AluOp, src: Operand8, cpu: &mut Cpu, mmu: &mut Mmu)
    ensures
        state(final(cpu), final(mmu)) == state(old(cpu), old(mmu)).alu(op, src),
        final(mmu)@.timing() == old(mmu)@.timing(),
{
    proof {
        reveal(Machine::alu);
    }
    let v = read_operand(src, cpu, mmu);
    accumulate(op, v, cpu);
}

/// An operation on the accumulator with an immediate byte.
pub fn arithmetic_immediate(op: AluOp, cpu: &mut Cpu, mmu: &mut Mmu)
    ensures
        state(final(cpu), final(mmu)) == state(old(cpu), old(mmu)).alu_imm(op),
        final(mmu)@.timing() == old(mmu)@.timing(),
{
    proof {
        reveal(Machine::alu_imm);
    }
    let v = cpu.immediate_u8_pc(mmu);
    accumulate(op, v, cpu);
}

/// `INC r`.
pub fn increment(r: Operand8, cpu: &mut Cpu, mmu: &mut Mmu)
    ensures
        state(final(cpu), final(mmu)) == state(old(cpu), old(mmu)).inc(r),
        final(mmu)@.timing() == old(mmu)@.timing(),
{
    proof {
        reveal(Machine::inc);
    }
    let mut v = read_operand(r, cpu, mmu);
    let mut flags = cpu.regs.flags;
    inc_x(&mut v, &mut flags);
    write_operand(r, v, cpu, mmu);
    cpu.regs.flags = flags;
}

/// `DEC r`.
pub fn decrement(r: Operand8, cpu: &mut Cpu, mmu: &mut Mmu)
    ensures
        state(final(cpu), final(mmu)) == state(old(cpu), old(mmu)).dec(r),
        final(mmu)@.timing() == old(mmu)@.timing(),
{
    proof {
        reveal(Machine::dec);
    }
    let mut v = read_operand(r, cpu, mmu);
    let mut flags = cpu.regs.flags;
    dec_x(&mut v, &mut flags);
    write_operand(r, v, cpu, mmu);
    cpu.regs.flags = flags;
}

/// `INC rr`.
pub fn increment16(rr: Reg16, cpu: &mut Cpu, mmu: &mut Mmu)
    ensures
        state(final(cpu), final(mmu)) == state(old(cpu), old(mmu)).inc16(rr),
        final(mmu)@.timing() == old(mmu)@.timing(),
{
    proof {
        reveal(Machine::inc16);
    }
    let v = cpu.regs.get16(rr);
    cpu.regs.set16(rr, v.wrapping_add(1));
}

/// `DEC rr`.
pub fn decrement16(rr: Reg16, cpu: &mut Cpu, mmu: &mut Mmu)
    ensures
        state(final(cpu), final(mmu)) == state(old(cpu), old(mmu)).dec16(rr),
        final(mmu)@.timing() == old(mmu)@.timing(),
{
    proof {
        reveal(Machine::dec16);
    }
    let v = cpu.regs.get16(rr);
    cpu.regs.set16(rr, v.wrapping_sub(1));
}

/// `ADD HL, rr`.
pub fn add_to_hl(rr: Reg16, cpu: &mut Cpu, mmu: &mut Mmu)
    ensures
        state(final(cpu), final(mmu)) == state(old(cpu), old(mmu)).add_hl(rr),
        final(mmu)@.timing() == old(mmu)@.timing(),
{
    proof {
        reveal(Machine::add_hl);
    }
    let v = cpu.regs.get16(rr);
    add_hl(cpu, v);
}

/// The rotate or shift `op` of `v`.
pub fn rotate_value(op: RotOp, v: &mut u8, flags: &mut FlagRegister)
    ensures
        (crate::gameboy::operations::semantics::Outcome { value: *final(v), flags: *final(flags) })
            == crate::gameboy::operations::semantics::rotated(op, *old(v), *old(flags)),
{
    match op {
        RotOp::Rlc => rlc_n(v, flags),
        RotOp::Rrc => rrc_n(v, flags),
        RotOp::Rl => rl_n(v, flags),
        RotOp::Rr => cb_rr(v, flags),
        RotOp::Sla => sla_n(v, flags),
        RotOp::Sra => sra_n(v, flags),
        RotOp::Swap => swap(v, flags),
        RotOp::Srl => srl(v, flags),
    }
}

/// A rotate or shift of the prefixed page.
pub fn rotate(op: RotOp, r: Operand8, cpu: &mut Cpu, mmu: &mut Mmu)
    ensures
        state(final(cpu), final(mmu)) == state(old(cpu), old(mmu)).rot(op, r),
        final(mmu)@.timing() == old(mmu)@.timing(),
{
    proof {
        reveal(Machine::rot);
    }
    let mut v = read_operand(r, cpu, mmu);
    let mut flags = cpu.regs.flags;
    rotate_value(op, &mut v, &mut flags);
    write_operand(r, v, cpu, mmu);
    cpu.regs.flags = flags;
}

/// `BIT n, r`.
pub fn test_bit(n: u8, r: Operand8, cpu: &mut Cpu, mmu: &mut Mmu)
    requires
        n < 8,
    ensures
        state(final(cpu), final(mmu)) == state(old(cpu), old(mmu)).test_bit(n, r),
        final(mmu)@.timing() == old(mmu)@.timing(),
{
    proof {
        reveal(Machine::test_bit);
    }
    let mut v = read_operand(r, cpu, mmu);
    bit_x_n(n as usize, &mut v, &mut cpu.regs.flags);
}

/// `RES n, r`.
pub fn reset_bit(n: u8, r: Operand8, cpu: &mut Cpu, mmu: &mut Mmu)
    requires
        n < 8,
    ensures
        state(final(cpu), final(mmu)) == state(old(cpu), old(mmu)).res_bit(n, r),
        final(mmu)@.timing() == old(mmu)@.timing(),
{
    proof {
        reveal(Machine::res_bit);
    }
    let mut v = read_operand(r, cpu, mmu);
    cb_res(&mut v, n as usize);
    write_operand(r, v, cpu, mmu);
}

/// `SET n, r`.
pub fn set_bit(n: u8, r: Operand8, cpu: &mut Cpu, mmu: &mut Mmu)
    requires
        n < 8,
    ensures
        state(final(cpu), final(mmu)) == state(old(cpu), old(mmu)).set_bit(n, r),
        final(mmu)@.timing() == old(mmu)@.timing(),
{
    proof {
        reveal(Machine::set_bit);
    }
    let mut v = read_operand(r, cpu, mmu);
    cb_set(&mut v, n as usize);
    write_operand(r, v, cpu, mmu);
}

/// `JP cc, a16`.
pub fn jump_if(cc: Cond, cpu: &mut Cpu, mmu: &mut Mmu)
    ensures
        state(final(cpu), final(mmu)) == state(old(cpu), old(mmu)).jp_cond(cc),
        final(mmu)@.timing() == old(mmu)@.timing(),
{
    proof {
        reveal(Machine::jp_cond);
    }
    let addr = cpu.immediate_u16_pc(mmu);
    if condition(cc, &cpu.regs.flags) {
        cpu.regs.pc = addr;
    }
}

/// `JR cc, r8`.
pub fn jump_relative_if(cc: Cond, cpu: &mut Cpu, mmu: &mut Mmu)
    ensures
        state(final(cpu), final(mmu)) == state(old(cpu), old(mmu)).jr_cond(cc),
        final(mmu)@.timing() == old(mmu)@.timing(),
{
    proof {
        reveal(Machine::jr_cond);
    }
    let e = cpu.immediate_u8_pc(mmu);
    if condition(cc, &cpu.regs.flags) {
        jump_relative(cpu, e);
    }
}

/// `CALL cc, a16`.
pub fn call_if(cc: Cond, cpu: &mut Cpu, mmu: &mut Mmu)
    ensures
        state(final(cpu), final(mmu)) == state(old(cpu), old(mmu)).call_cond(cc),
        final(mmu)@.timing() == old(mmu)@.timing(),
{
    proof {
        reveal(Machine::call_cond);
    }
    let a16 = cpu.immediate_u16_pc(mmu);
    if condition(cc, &cpu.regs.flags) {
        restart(cpu, mmu, a16);
    }
}

/// `RET cc`.
pub fn return_if(cc: Cond, cpu: &mut Cpu, mmu: &mut Mmu)
    ensures
        state(final(cpu), final(mmu)) == state(old(cpu), old(mmu)).ret_cond(cc),
        final(mmu)@.timing() == old(mmu)@.timing(),
{
    proof {
        reveal(Machine::ret_cond);
    }
    if condition(cc, &cpu.regs.flags) {
        go_back(cpu, mmu);
    }
}

/// `RST n`.
pub fn restart_at(n: u8, cpu: &mut Cpu, mmu: &mut Mmu)
    ensures
        state(final(cpu), final(mmu)) == state(old(cpu), old(mmu)).rst(n),
        final(mmu)@.timing() == old(mmu)@.timing(),
{
    proof {
        reveal(Machine::rst);
    }
    restart(cpu, mmu, n as u16);
}

/// `PUSH rr`.
pub fn push(rr: StackPair, cpu: &mut Cpu, mmu: &mut Mmu)
    ensures
        state(final(cpu), final(mmu)) == state(old(cpu), old(mmu)).push(rr),
        final(mmu)@.timing() == old(mmu)@.timing(),
{
    proof {
        reveal(Machine::push);
    }
    let v = match rr {
        StackPair::BC => cpu.regs.bc(),
        StackPair::DE => cpu.regs.de(),
        StackPair::HL => cpu.regs.hl(),
        StackPair::AF => cpu.regs.af(),
    };
    push_r16(cpu, mmu, v);
}

/// `POP rr`.
pub fn pop(rr: StackPair, cpu: &mut Cpu, mmu: &mut Mmu)
    ensures
        state(final(cpu), final(mmu)) == state(old(cpu), old(mmu)).pop(rr),
        final(mmu)@.timing() == old(mmu)@.timing(),
{
    proof {
        reveal(Machine::pop);
    }
    let v = cpu.stack_pop_u16(mmu);
    match rr {
        StackPair::BC => cpu.regs.set_bc(v),
        StackPair::DE => cpu.regs.set_de(v),
        StackPair::HL => cpu.regs.set_hl(v),
        StackPair::AF => cpu.regs.set_af(v),
    }
}

impl Instr {
    /// Whether the bit number of a bit instruction is one of 0 to 7. Every
    /// instruction that the decoder gives is well formed.
    pub open spec fn well_formed(self) -> bool {
        match self {
            Instr::TestBit(n, _) | Instr::ResBit(n, _) | Instr::SetBit(n, _) => n < 8,
            _ => true,
        }
    }
}

/// Executes `instr`, whose opcode has been fetched: the program counter
/// points at the byte after the opcode.
pub fn execute(instr: Instr, cpu: &mut Cpu, mmu: &mut Mmu)
    requires
        instr.well_formed(),
    ensures
        state(final(cpu), final(mmu)) == run(instr, state(old(cpu), old(mmu))),
        final(mmu)@.timing() == old(mmu)@.timing(),
{
    proof {
        lemma_run(instr, state(cpu, mmu));
    }
    match instr {
        Instr::Nop => opx00(cpu, mmu),
        Instr::Stop => opx10(cpu, mmu),
        Instr::Halt => opx76(cpu, mmu),
        Instr::Di => opxF3(cpu, mmu),
        Instr::Ei => opxFB(cpu, mmu),
        Instr::Ld(dst, src) => load(dst, src, cpu, mmu),
        Instr::LdImm(dst) => load_immediate(dst, cpu, mmu),
        Instr::LdAFrom(ind) => load_a_from(ind, cpu, mmu),
        Instr::LdToInd(ind) => store_a_to(ind, cpu, mmu),
        Instr::LdAFromA16 => opxFA(cpu, mmu),
        Instr::LdA16FromA => opxEA(cpu, mmu),
        Instr::LdhAFromA8 => opxF0(cpu, mmu),
        Instr::LdhA8FromA => opxE0(cpu, mmu),
        Instr::LdAFromC => opxF2(cpu, mmu),
        Instr::LdCFromA => opxE2(cpu, mmu),
        Instr::Ld16Imm(rr) => load16_immediate(rr, cpu, mmu),
        Instr::LdA16Sp => opx08(cpu, mmu),
        Instr::LdSpHl => opxF9(cpu, mmu),
        Instr::LdHlSpR8 => opxF8(cpu, mmu),
        Instr::Alu(op, src) => arithmetic(op, src, cpu, mmu),
        Instr::AluImm(op) => arithmetic_immediate(op, cpu, mmu),
        Instr::Inc(r) => increment(r, cpu, mmu),
        Instr::Dec(r) => decrement(r, cpu, mmu),
        Instr::Inc16(rr) => increment16(rr, cpu, mmu),
        Instr::Dec16(rr) => decrement16(rr, cpu, mmu),
        Instr::AddHl(rr) => add_to_hl(rr, cpu, mmu),
        Instr::AddSpR8 => opxE8(cpu, mmu),
        Instr::Rlca => opx07(cpu, mmu),
        Instr::Rrca => opx0F(cpu, mmu),
        Instr::Rla => opx17(cpu, mmu),
        Instr::Rra => opx1F(cpu, mmu),
        Instr::Daa => opx27(cpu, mmu),
        Instr::Cpl => opx2F(cpu, mmu),
        Instr::Scf => opx37(cpu, mmu),
        Instr::Ccf => opx3F(cpu, mmu),
        Instr::Rot(op, r) => rotate(op, r, cpu, mmu),
        Instr::TestBit(n, r) => test_bit(n, r, cpu, mmu),
        Instr::ResBit(n, r) => reset_bit(n, r, cpu, mmu),
        Instr::SetBit(n, r) => set_bit(n, r, cpu, mmu),
        Instr::Jp => opxC3(cpu, mmu),
        Instr::JpCond(cc) => jump_if(cc, cpu, mmu),
        Instr::JpHl => opxE9(cpu, mmu),
        Instr::Jr => opx18(cpu, mmu),
        Instr::JrCond(cc) => jump_relative_if(cc, cpu, mmu),
        Instr::Call => opxCD(cpu, mmu),
        Instr::CallCond(cc) => call_if(cc, cpu, mmu),
        Instr::Ret => opxC9(cpu, mmu),
        Instr::RetCond(cc) => return_if(cc, cpu, mmu),
        Instr::Reti => opxD9(cpu, mmu),
        Instr::Rst(n) => restart_at(n, cpu, mmu),
        Instr::Push(rr) => push(rr, cpu, mmu),
        Instr::Pop(rr) => pop(rr, cpu, mmu),
    }
}

} // verus!
