//! Laws of the instruction set: what holds of every instruction of a kind,
//! proved from the instruction semantics.

use vstd::prelude::*;
use crate::bitty::{high_byte, low_byte, word_of};
use crate::gameboy::cpu::{code_at, fetched};
use crate::gameboy::mmu::{is_ram, lemma_ram_write, lemma_write_wf};
use crate::gameboy::operations::semantics::{holds, lemma_run, run, Machine};
use crate::gameboy::operations::{
    decode, AluOp, Indirect, Instr, Operand8, Reg16, Reg8, RotOp, StackPair,
};

verus! {

proof fn lemma_pc_nop(m: Machine)
    ensures
        m.nop().cpu.regs.pc == m.cpu.regs.pc,
{
    reveal(Machine::nop);
}

proof fn lemma_pc_stop(m: Machine)
    ensures
        m.stop().cpu.regs.pc == m.cpu.regs.pc,
{
    reveal(Machine::stop);
}

proof fn lemma_pc_halt(m: Machine)
    ensures
        m.halt().cpu.regs.pc == m.cpu.regs.pc,
{
    reveal(Machine::halt);
}

proof fn lemma_pc_di(m: Machine)
    ensures
        m.di().cpu.regs.pc == m.cpu.regs.pc,
{
    reveal(Machine::di);
}

proof fn lemma_pc_ei(m: Machine)
    ensures
        m.ei().cpu.regs.pc == m.cpu.regs.pc,
{
    reveal(Machine::ei);
}

proof fn lemma_pc_ld(m: Machine, dst: Operand8, src: Operand8)
    ensures
        m.ld(dst, src).cpu.regs.pc == m.cpu.regs.pc,
{
    reveal(Machine::ld);
    match dst {
        Operand8::Reg(reg) => match reg {
            Reg8::B => {},
            Reg8::C => {},
            Reg8::D => {},
            Reg8::E => {},
            Reg8::H => {},
            Reg8::L => {},
            Reg8::A => {},
        },
        Operand8::HlInd => {},
    }
}

proof fn lemma_pc_ld_imm(m: Machine, dst: Operand8)
    ensures
        m.ld_imm(dst).cpu.regs.pc == m.cpu.regs.pc.wrapping_add(1),
{
    reveal(Machine::ld_imm);
    match dst {
        Operand8::Reg(reg) => match reg {
            Reg8::B => {},
            Reg8::C => {},
            Reg8::D => {},
            Reg8::E => {},
            Reg8::H => {},
            Reg8::L => {},
            Reg8::A => {},
        },
        Operand8::HlInd => {},
    }
}

proof fn lemma_pc_ld_a_from(m: Machine, ind: Indirect)
    ensures
        m.ld_a_from(ind).cpu.regs.pc == m.cpu.regs.pc,
{
    reveal(Machine::ld_a_from);
    match ind {
        Indirect::BC => {},
        Indirect::DE => {},
        Indirect::HLInc => {},
        Indirect::HLDec => {},
    }
}

proof fn lemma_pc_ld_to_ind(m: Machine, ind: Indirect)
    ensures
        m.ld_to_ind(ind).cpu.regs.pc == m.cpu.regs.pc,
{
    reveal(Machine::ld_to_ind);
    match ind {
        Indirect::BC => {},
        Indirect::DE => {},
        Indirect::HLInc => {},
        Indirect::HLDec => {},
    }
}

proof fn lemma_pc_ld_a_from_a16(m: Machine)
    ensures
        m.ld_a_from_a16().cpu.regs.pc == m.cpu.regs.pc.wrapping_add(2),
{
    reveal(Machine::ld_a_from_a16);
}

proof fn lemma_pc_ld_a16_from_a(m: Machine)
    ensures
        m.ld_a16_from_a().cpu.regs.pc == m.cpu.regs.pc.wrapping_add(2),
{
    reveal(Machine::ld_a16_from_a);
}

proof fn lemma_pc_ldh_a_from_a8(m: Machine)
    ensures
        m.ldh_a_from_a8().cpu.regs.pc == m.cpu.regs.pc.wrapping_add(1),
{
    reveal(Machine::ldh_a_from_a8);
}

proof fn lemma_pc_ldh_a8_from_a(m: Machine)
    ensures
        m.ldh_a8_from_a().cpu.regs.pc == m.cpu.regs.pc.wrapping_add(1),
{
    reveal(Machine::ldh_a8_from_a);
}

proof fn lemma_pc_ld_a_from_c(m: Machine)
    ensures
        m.ld_a_from_c().cpu.regs.pc == m.cpu.regs.pc,
{
    reveal(Machine::ld_a_from_c);
}

proof fn lemma_pc_ld_c_from_a(m: Machine)
    ensures
        m.ld_c_from_a().cpu.regs.pc == m.cpu.regs.pc,
{
    reveal(Machine::ld_c_from_a);
}

proof fn lemma_pc_ld16_imm(m: Machine, rr: Reg16)
    ensures
        m.ld16_imm(rr).cpu.regs.pc == m.cpu.regs.pc.wrapping_add(2),
{
    reveal(Machine::ld16_imm);
    match rr {
        Reg16::BC => {},
        Reg16::DE => {},
        Reg16::HL => {},
        Reg16::SP => {},
    }
}

proof fn lemma_pc_ld_a16_sp(m: Machine)
    ensures
        m.ld_a16_sp().cpu.regs.pc == m.cpu.regs.pc.wrapping_add(2),
{
    reveal(Machine::ld_a16_sp);
}

proof fn lemma_pc_ld_sp_hl(m: Machine)
    ensures
        m.ld_sp_hl().cpu.regs.pc == m.cpu.regs.pc,
{
    reveal(Machine::ld_sp_hl);
}

proof fn lemma_pc_ld_hl_sp_r8(m: Machine)
    ensures
        m.ld_hl_sp_r8().cpu.regs.pc == m.cpu.regs.pc.wrapping_add(1),
{
    reveal(Machine::ld_hl_sp_r8);
}

proof fn lemma_pc_alu(m: Machine, op: AluOp, src: Operand8)
    ensures
        m.alu(op, src).cpu.regs.pc == m.cpu.regs.pc,
{
    reveal(Machine::alu);
}

proof fn lemma_pc_alu_imm(m: Machine, op: AluOp)
    ensures
        m.alu_imm(op).cpu.regs.pc == m.cpu.regs.pc.wrapping_add(1),
{
    reveal(Machine::alu_imm);
}

proof fn lemma_pc_inc(m: Machine, r: Operand8)
    ensures
        m.inc(r).cpu.regs.pc == m.cpu.regs.pc,
{
    reveal(Machine::inc);
    match r {
        Operand8::Reg(reg) => match reg {
            Reg8::B => {},
            Reg8::C => {},
            Reg8::D => {},
            Reg8::E => {},
            Reg8::H => {},
            Reg8::L => {},
            Reg8::A => {},
        },
        Operand8::HlInd => {},
    }
}

proof fn lemma_pc_dec(m: Machine, r: Operand8)
    ensures
        m.dec(r).cpu.regs.pc == m.cpu.regs.pc,
{
    reveal(Machine::dec);
    match r {
        Operand8::Reg(reg) => match reg {
            Reg8::B => {},
            Reg8::C => {},
            Reg8::D => {},
            Reg8::E => {},
            Reg8::H => {},
            Reg8::L => {},
            Reg8::A => {},
        },
        Operand8::HlInd => {},
    }
}

proof fn lemma_pc_inc16(m: Machine, rr: Reg16)
    ensures
        m.inc16(rr).cpu.regs.pc == m.cpu.regs.pc,
{
    reveal(Machine::inc16);
    match rr {
        Reg16::BC => {},
        Reg16::DE => {},
        Reg16::HL => {},
        Reg16::SP => {},
    }
}

proof fn lemma_pc_dec16(m: Machine, rr: Reg16)
    ensures
        m.dec16(rr).cpu.regs.pc == m.cpu.regs.pc,
{
    reveal(Machine::dec16);
    match rr {
        Reg16::BC => {},
        Reg16::DE => {},
        Reg16::HL => {},
        Reg16::SP => {},
    }
}

proof fn lemma_pc_add_hl(m: Machine, rr: Reg16)
    ensures
        m.add_hl(rr).cpu.regs.pc == m.cpu.regs.pc,
{
    reveal(Machine::add_hl);
}

proof fn lemma_pc_add_sp_r8(m: Machine)
    ensures
        m.add_sp_r8().cpu.regs.pc == m.cpu.regs.pc.wrapping_add(1),
{
    reveal(Machine::add_sp_r8);
}

proof fn lemma_pc_rlca(m: Machine)
    ensures
        m.rlca().cpu.regs.pc == m.cpu.regs.pc,
{
    reveal(Machine::rlca);
}

proof fn lemma_pc_rrca(m: Machine)
    ensures
        m.rrca().cpu.regs.pc == m.cpu.regs.pc,
{
    reveal(Machine::rrca);
}

proof fn lemma_pc_rla(m: Machine)
    ensures
        m.rla().cpu.regs.pc == m.cpu.regs.pc,
{
    reveal(Machine::rla);
}

proof fn lemma_pc_rra(m: Machine)
    ensures
        m.rra().cpu.regs.pc == m.cpu.regs.pc,
{
    reveal(Machine::rra);
}

proof fn lemma_pc_daa(m: Machine)
    ensures
        m.daa().cpu.regs.pc == m.cpu.regs.pc,
{
    reveal(Machine::daa);
}

proof fn lemma_pc_cpl(m: Machine)
    ensures
        m.cpl().cpu.regs.pc == m.cpu.regs.pc,
{
    reveal(Machine::cpl);
}

proof fn lemma_pc_scf(m: Machine)
    ensures
        m.scf().cpu.regs.pc == m.cpu.regs.pc,
{
    reveal(Machine::scf);
}

proof fn lemma_pc_ccf(m: Machine)
    ensures
        m.ccf().cpu.regs.pc == m.cpu.regs.pc,
{
    reveal(Machine::ccf);
}

proof fn lemma_pc_rot(m: Machine, op: RotOp, r: Operand8)
    ensures
        m.rot(op, r).cpu.regs.pc == m.cpu.regs.pc,
{
    reveal(Machine::rot);
    match r {
        Operand8::Reg(reg) => match reg {
            Reg8::B => {},
            Reg8::C => {},
            Reg8::D => {},
            Reg8::E => {},
            Reg8::H => {},
            Reg8::L => {},
            Reg8::A => {},
        },
        Operand8::HlInd => {},
    }
}

proof fn lemma_pc_test_bit(m: Machine, n: u8, r: Operand8)
    ensures
        m.test_bit(n, r).cpu.regs.pc == m.cpu.regs.pc,
{
    reveal(Machine::test_bit);
}

proof fn lemma_pc_res_bit(m: Machine, n: u8, r: Operand8)
    ensures
        m.res_bit(n, r).cpu.regs.pc == m.cpu.regs.pc,
{
    reveal(Machine::res_bit);
    match r {
        Operand8::Reg(reg) => match reg {
            Reg8::B => {},
            Reg8::C => {},
            Reg8::D => {},
            Reg8::E => {},
            Reg8::H => {},
            Reg8::L => {},
            Reg8::A => {},
        },
        Operand8::HlInd => {},
    }
}

proof fn lemma_pc_set_bit(m: Machine, n: u8, r: Operand8)
    ensures
        m.set_bit(n, r).cpu.regs.pc == m.cpu.regs.pc,
{
    reveal(Machine::set_bit);
    match r {
        Operand8::Reg(reg) => match reg {
            Reg8::B => {},
            Reg8::C => {},
            Reg8::D => {},
            Reg8::E => {},
            Reg8::H => {},
            Reg8::L => {},
            Reg8::A => {},
        },
        Operand8::HlInd => {},
    }
}

proof fn lemma_pc_push(m: Machine, rr: StackPair)
    ensures
        m.push(rr).cpu.regs.pc == m.cpu.regs.pc,
{
    reveal(Machine::push);
}

proof fn lemma_pc_pop(m: Machine, rr: StackPair)
    ensures
        m.pop(rr).cpu.regs.pc == m.cpu.regs.pc,
{
    reveal(Machine::pop);
    match rr {
        StackPair::BC => {},
        StackPair::DE => {},
        StackPair::HL => {},
        StackPair::AF => {},
    }
}

/// An instruction that is no branch leaves the program counter behind its
/// operand: the execution moves the counter on by the length of the
/// operand and no further.
pub proof fn lemma_operand_consumed(instr: Instr, m: Machine)
    requires
        !instr.is_branch(),
    ensures
        run(instr, m).cpu.regs.pc == (m.cpu.regs.pc + instr.mode().operand_bytes()) % 0x1_0000,
{
    lemma_run(instr, m);
    lemma_pc_nop(m);
    lemma_pc_stop(m);
    lemma_pc_halt(m);
    lemma_pc_di(m);
    lemma_pc_ei(m);
    lemma_pc_ld(m, instr->Ld_0, instr->Ld_1);
    lemma_pc_ld_imm(m, instr->LdImm_0);
    lemma_pc_ld_a_from(m, instr->LdAFrom_0);
    lemma_pc_ld_to_ind(m, instr->LdToInd_0);
    lemma_pc_ld_a_from_a16(m);
    lemma_pc_ld_a16_from_a(m);
    lemma_pc_ldh_a_from_a8(m);
    lemma_pc_ldh_a8_from_a(m);
    lemma_pc_ld_a_from_c(m);
    lemma_pc_ld_c_from_a(m);
    lemma_pc_ld16_imm(m, instr->Ld16Imm_0);
    lemma_pc_ld_a16_sp(m);
    lemma_pc_ld_sp_hl(m);
    lemma_pc_ld_hl_sp_r8(m);
    lemma_pc_alu(m, instr->Alu_0, instr->Alu_1);
    lemma_pc_alu_imm(m, instr->AluImm_0);
    lemma_pc_inc(m, instr->Inc_0);
    lemma_pc_dec(m, instr->Dec_0);
    lemma_pc_inc16(m, instr->Inc16_0);
    lemma_pc_dec16(m, instr->Dec16_0);
    lemma_pc_add_hl(m, instr->AddHl_0);
    lemma_pc_add_sp_r8(m);
    lemma_pc_rlca(m);
    lemma_pc_rrca(m);
    lemma_pc_rla(m);
    lemma_pc_rra(m);
    lemma_pc_daa(m);
    lemma_pc_cpl(m);
    lemma_pc_scf(m);
    lemma_pc_ccf(m);
    lemma_pc_rot(m, instr->Rot_0, instr->Rot_1);
    lemma_pc_test_bit(m, instr->TestBit_0, instr->TestBit_1);
    lemma_pc_res_bit(m, instr->ResBit_0, instr->ResBit_1);
    lemma_pc_set_bit(m, instr->SetBit_0, instr->SetBit_1);
    lemma_pc_push(m, instr->Push_0);
    lemma_pc_pop(m, instr->Pop_0);
}

/// The opcode of a prefixed instruction takes two bytes, that of any other
/// instruction one.
pub proof fn lemma_opcode_length(m: Machine)
    ensures
        decode(code_at(m)) matches Some(instr) ==> fetched(m).cpu.regs.pc == (m.cpu.regs.pc + (
        if instr.prefixed() {
            2int
        } else {
            1int
        })) % 0x1_0000,
{
}

/// From fetch to completion, an instruction that is no branch moves the
/// program counter on by exactly its length: one to three bytes, modulo
/// the size of the address space.
pub proof fn lemma_pc_advances_by_length(before: Machine)
    ensures
        decode(code_at(before)) matches Some(instr) ==> !instr.is_branch() ==> run(
            instr,
            fetched(before),
        ).cpu.regs.pc == (before.cpu.regs.pc + instr.length()) % 0x1_0000 && 1 <= instr.length()
            <= 3,
{
    if let Some(instr) = decode(code_at(before)) {
        if !instr.is_branch() {
            lemma_opcode_length(before);
            lemma_operand_consumed(instr, fetched(before));
        }
    }
}

/// Whether the two bytes below the stack pointer `sp` are plain memory, so
/// that a word can be pushed there and read back.
pub open spec fn stack_room(sp: u16) -> bool {
    is_ram(sp.wrapping_sub(1)) && is_ram(sp.wrapping_sub(2))
}

/// A word that is pushed into plain memory is on top of the stack
/// afterwards, low byte at the stack pointer, and the stack pointer is two
/// below where it was.
pub proof fn lemma_push_then_top(m: Machine, v: u16)
    requires
        m.mem.wf(),
        stack_room(m.cpu.regs.sp),
    ensures
        m.push16(v).top16() == v,
        m.push16(v).mem.read(m.push16(v).cpu.regs.sp) == low_byte(v),
        m.push16(v).mem.read(m.push16(v).cpu.regs.sp.wrapping_add(1)) == high_byte(v),
        m.push16(v).cpu.regs.sp == m.cpu.regs.sp.wrapping_sub(2),
        m.push16(v).cpu.regs.pc == m.cpu.regs.pc,
        m.push16(v).mem.wf(),
{
    let sp1 = m.cpu.regs.sp.wrapping_sub(1);
    let sp2 = m.cpu.regs.sp.wrapping_sub(2);
    let first = m.push8(high_byte(v));
    lemma_write_wf(m.mem, sp1, high_byte(v));
    lemma_ram_write(m.mem, sp1, high_byte(v), sp1);
    lemma_write_wf(first.mem, sp2, low_byte(v));
    lemma_ram_write(first.mem, sp2, low_byte(v), sp1);
    assert(first.cpu.regs.sp == sp1);
    assert(sp1.wrapping_sub(1) == sp2);
    assert(sp2.wrapping_add(1) == sp1);
    assert(m.push16(v).mem == first.mem.write(sp2, low_byte(v)));
    assert(m.push16(v).mem.read(sp2) == low_byte(v));
    assert(m.push16(v).mem.read(sp1) == high_byte(v));
    assert(word_of(high_byte(v), low_byte(v)) == v);
}

/// Whether `instr` is a call that is taken from a state with the flags of
/// `m`: `CALL`, `RST`, or a conditional `CALL` whose condition holds.
pub open spec fn calls(instr: Instr, m: Machine) -> bool {
    match instr {
        Instr::Call | Instr::Rst(_) => true,
        Instr::CallCond(cc) => holds(cc, m.cpu.regs.flags),
        _ => false,
    }
}

/// The address that a call `instr` returns to, from the state `m` in which
/// its opcode has been fetched: the address after the instruction.
pub open spec fn return_address(instr: Instr, m: Machine) -> u16 {
    m.cpu.regs.pc.wrapping_add(instr.mode().operand_bytes() as u16)
}

/// A call leaves its return address on the stack and a return takes it
/// from there: after a taken `CALL` or an `RST` whose stack lies in plain
/// memory, the two bytes at the stack pointer are the return address, low
/// byte first; a `RET` from there puts the program counter at that address
/// and the stack pointer back where it was.
pub proof fn lemma_call_then_return(instr: Instr, m: Machine)
    requires
        m.mem.wf(),
        calls(instr, m),
        stack_room(m.cpu.regs.sp),
    ensures
        run(instr, m).mem.read(run(instr, m).cpu.regs.sp) == low_byte(return_address(instr, m)),
        run(instr, m).mem.read(run(instr, m).cpu.regs.sp.wrapping_add(1)) == high_byte(
            return_address(instr, m),
        ),
        run(Instr::Ret, run(instr, m)).cpu.regs.pc == return_address(instr, m),
        run(Instr::Ret, run(instr, m)).cpu.regs.sp == m.cpu.regs.sp,
{
    let called = run(instr, m);
    let back = return_address(instr, m);
    lemma_run(instr, m);
    lemma_run(Instr::Ret, called);
    reveal(Machine::call);
    reveal(Machine::call_cond);
    reveal(Machine::rst);
    reveal(Machine::ret);
    let at = match instr {
        Instr::Rst(_) => m,
        _ => m.skip(2),
    };
    lemma_push_then_top(at, back);
    assert(at.cpu.regs.pc == back);
    assert(called.cpu.regs.sp == m.cpu.regs.sp.wrapping_sub(2));
    assert(called.cpu.regs.sp.wrapping_add(2) == m.cpu.regs.sp);
}

/// `ADD A, B` followed by `SUB B` gives the accumulator its value back,
/// and sets Z if and only if that value is zero.
pub proof fn lemma_add_then_sub(m: Machine)
    ensures
        run(
            Instr::Alu(AluOp::Sub, Operand8::Reg(Reg8::B)),
            run(Instr::Alu(AluOp::Add, Operand8::Reg(Reg8::B)), m),
        ).cpu.regs.a == m.cpu.regs.a,
        run(
            Instr::Alu(AluOp::Sub, Operand8::Reg(Reg8::B)),
            run(Instr::Alu(AluOp::Add, Operand8::Reg(Reg8::B)), m),
        ).cpu.regs.flags.z == (m.cpu.regs.a == 0),
{
    let b = Operand8::Reg(Reg8::B);
    let added = run(Instr::Alu(AluOp::Add, b), m);
    lemma_run(Instr::Alu(AluOp::Add, b), m);
    lemma_run(Instr::Alu(AluOp::Sub, b), added);
    reveal(Machine::alu);
}

} // verus!
