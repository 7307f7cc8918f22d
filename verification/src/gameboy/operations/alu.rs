//! The arithmetic of the instruction set: carries, the operations on the
//! accumulator, increments, rotates, shifts and bit operations, and the
//! few steps that jumps and calls share. Each function computes one of the
//! functions of the instruction semantics.

use vstd::prelude::*;
use crate::bitty::{bit_value, with_bit, BitFlags};
use crate::gameboy::cpu::Cpu;
use crate::gameboy::mmu::Mmu;
use crate::gameboy::operations::semantics::{
    add16_flags, alu, bit_flags, daa, dec8, displaced, displaced_flags, inc8, rotated, state,
    Outcome,
};
use crate::gameboy::operations::{AluOp, RotOp};
use crate::gameboy::registers::{FlagRegister, Registers};

verus! {

impl Cpu {
    /// This processor with the accumulator and the flags of `out`.
    pub open spec fn with_outcome(self, out: Outcome) -> Cpu {
        Cpu { regs: Registers { a: out.value, flags: out.flags, ..self.regs }, ..self }
    }
}

/// The carry flag as the number 0 or 1.
fn carry_bit(carry: bool) -> (bit: u8)
    ensures
        bit == bit_value(carry),
        bit <= 1,
{
    if carry {
        1
    } else {
        0
    }
}

/// Whether `a + b` carries out of bit 11.
pub fn add_hc_u16(a: u16, b: u16) -> (hc: bool)
    ensures
        hc == (a % 4096 + b % 4096 > 4095),
{
    (a % 4096) + (b % 4096) > 4095
}

/// Whether `a + b` carries out of bit 3.
pub fn add_hc_u8(a: u8, b: u8) -> (hc: bool)
    ensures
        hc == (a % 16 + b % 16 > 15),
{
    (a % 16) + (b % 16) > 15
}

/// Whether `a + b` carries out of bit 15.
pub fn add_c_u16(a: u16, b: u16) -> (c: bool)
    ensures
        c == (a + b > 65535),
{
    let biga: u32 = a as u32;
    let bigb: u32 = b as u32;
    (biga + bigb) > 0xFFFF
}

/// Whether `a + b` carries out of bit 7.
pub fn add_c_u8(a: u8, b: u8) -> (c: bool)
    ensures
        c == (a + b > 255),
{
    let biga: u16 = a as u16;
    let bigb: u16 = b as u16;
    (biga + bigb) > 0xFF
}

/// Whether `a - b` borrows from bit 4.
pub fn sub_hc_u8(a: u8, b: u8) -> (hc: bool)
    ensures
        hc == (a % 16 < b % 16),
{
    (a % 16) < (b % 16)
}

/// Whether `a - b` borrows from bit 12.
pub fn sub_hc_u16(a: u16, b: u16) -> (hc: bool)
    ensures
        hc == (a % 4096 < b % 4096),
{
    (a % 4096) < (b % 4096)
}

/// Whether `a - b` borrows from bit 8.
pub fn sub_c_u8(a: u8, b: u8) -> (c: bool)
    ensures
        c == (a < b),
{
    a < b
}

/// `LD x, y`.
pub fn ld_x_y(regx: &mut u8, regy: u8)
    ensures
        *final(regx) == regy,
{
    *regx = regy
}

/// `ADD A, x`.
pub fn add_a_x(val: u8, cpu: &mut Cpu)
    ensures
        *final(cpu) == old(cpu).with_outcome(
            alu(AluOp::Add, old(cpu).regs.a, val, old(cpu).regs.flags),
        ),
{
    let c = add_c_u8(cpu.regs.a, val);
    let hc = add_hc_u8(cpu.regs.a, val);
    cpu.regs.flags.h = hc;
    cpu.regs.a = cpu.regs.a.wrapping_add(val);
    cpu.regs.flags.z = cpu.regs.a == 0;
    cpu.regs.flags.c = c;
    cpu.regs.flags.n = false;
}

/// `ADC A, x`.
pub fn adc_a_x(val: u8, cpu: &mut Cpu)
    ensures
        *final(cpu) == old(cpu).with_outcome(
            alu(AluOp::Adc, old(cpu).regs.a, val, old(cpu).regs.flags),
        ),
{
    let carry = carry_bit(cpu.regs.flags.c);
    let a = cpu.regs.a;
    let sum: u16 = a as u16 + val as u16 + carry as u16;
    cpu.regs.flags.h = (a % 16) + (val % 16) + carry > 15;
    cpu.regs.a = if sum > 0xFF {
        (sum - 256) as u8
    } else {
        sum as u8
    };
    cpu.regs.flags.z = cpu.regs.a == 0;
    cpu.regs.flags.c = sum > 0xFF;
    cpu.regs.flags.n = false;
}

/// `SUB x`.
pub fn sub_a_x(val: u8, cpu: &mut Cpu)
    ensures
        *final(cpu) == old(cpu).with_outcome(
            alu(AluOp::Sub, old(cpu).regs.a, val, old(cpu).regs.flags),
        ),
{
    let hc = sub_hc_u8(cpu.regs.a, val);
    let c = sub_c_u8(cpu.regs.a, val);
    cpu.regs.a = cpu.regs.a.wrapping_sub(val);
    cpu.regs.flags.z = cpu.regs.a == 0;
    cpu.regs.flags.n = true;
    cpu.regs.flags.h = hc;
    cpu.regs.flags.c = c;
}

/// `SBC A, x`.
pub fn sbc_a_x(val: u8, cpu: &mut Cpu)
    ensures
        *final(cpu) == old(cpu).with_outcome(
            alu(AluOp::Sbc, old(cpu).regs.a, val, old(cpu).regs.flags),
        ),
{
    let carry = carry_bit(cpu.regs.flags.c);
    let a = cpu.regs.a;
    let taken: u16 = val as u16 + carry as u16;
    cpu.regs.flags.h = (a % 16) < (val % 16) + carry;
    cpu.regs.flags.c = (a as u16) < taken;
    cpu.regs.a = if (a as u16) >= taken {
        (a as u16 - taken) as u8
    } else {
        (a as u16 + 256 - taken) as u8
    };
    cpu.regs.flags.z = cpu.regs.a == 0;
    cpu.regs.flags.n = true;
}

/// `CP x`.
pub fn cp_x(val: u8, cpu: &mut Cpu)
    ensures
        *final(cpu) == old(cpu).with_outcome(
            alu(AluOp::Cp, old(cpu).regs.a, val, old(cpu).regs.flags),
        ),
{
    let a = cpu.regs.a;
    let hc = sub_hc_u8(a, val);
    cpu.regs.flags.z = a == val;
    cpu.regs.flags.c = a < val;
    cpu.regs.flags.n = true;
    cpu.regs.flags.h = hc;
}

/// `AND x`.
pub fn and_x(val: u8, cpu: &mut Cpu)
    ensures
        *final(cpu) == old(cpu).with_outcome(
            alu(AluOp::And, old(cpu).regs.a, val, old(cpu).regs.flags),
        ),
{
    cpu.regs.a = cpu.regs.a & val;
    cpu.regs.flags.z = cpu.regs.a == 0;
    cpu.regs.flags.n = false;
    cpu.regs.flags.h = true;
    cpu.regs.flags.c = false;
}

/// `OR x`.
pub fn or_x(val: u8, cpu: &mut Cpu)
    ensures
        *final(cpu) == old(cpu).with_outcome(
            alu(AluOp::Or, old(cpu).regs.a, val, old(cpu).regs.flags),
        ),
{
    cpu.regs.a = cpu.regs.a | val;
    cpu.regs.flags.z = cpu.regs.a == 0;
    cpu.regs.flags.n = false;
    cpu.regs.flags.h = false;
    cpu.regs.flags.c = false;
}

/// `XOR x`.
pub fn xor_a(val: u8, cpu: &mut Cpu)
    ensures
        *final(cpu) == old(cpu).with_outcome(
            alu(AluOp::Xor, old(cpu).regs.a, val, old(cpu).regs.flags),
        ),
{
    cpu.regs.a = cpu.regs.a ^ val;
    cpu.regs.flags.z = cpu.regs.a == 0;
    cpu.regs.flags.n = false;
    cpu.regs.flags.h = false;
    cpu.regs.flags.c = false;
}

/// `INC x`.
pub fn inc_x(reg: &mut u8, flags: &mut FlagRegister)
    ensures
        (Outcome { value: *final(reg), flags: *final(flags) }) == inc8(*old(reg), *old(flags)),
{
    let hc = add_hc_u8(*reg, 1);
    *reg = reg.wrapping_add(1);
    flags.z = *reg == 0;
    flags.n = false;
    flags.h = hc;
}

/// `DEC x`.
pub fn dec_x(reg: &mut u8, flags: &mut FlagRegister)
    ensures
        (Outcome { value: *final(reg), flags: *final(flags) }) == dec8(*old(reg), *old(flags)),
{
    let hc = sub_hc_u8(*reg, 1);
    *reg = reg.wrapping_sub(1);
    flags.h = hc;
    flags.n = true;
    flags.z = *reg == 0;
}

/// `ADD HL, rr`.
pub fn add_hl(cpu: &mut Cpu, val: u16)
    ensures
        *final(cpu) == (Cpu {
            regs: Registers {
                flags: add16_flags(old(cpu).regs.spec_hl(), val, old(cpu).regs.flags),
                ..old(cpu).regs.with_hl(old(cpu).regs.spec_hl().wrapping_add(val))
            },
            ..*old(cpu)
        }),
{
    let hl = cpu.regs.hl();
    let hc = add_hc_u16(hl, val);
    let c = add_c_u16(hl, val);
    cpu.regs.set_hl(hl.wrapping_add(val));
    cpu.regs.flags.n = false;
    cpu.regs.flags.h = hc;
    cpu.regs.flags.c = c;
}

/// The stack pointer moved by the signed displacement `e`, and the flags
/// of that addition, which `ADD SP, r8` and `LD HL, SP+r8` share.
pub fn sp_plus(cpu: &mut Cpu, e: u8) -> (sum: u16)
    ensures
        sum == displaced(old(cpu).regs.sp, e),
        *final(cpu) == (Cpu {
            regs: Registers { flags: displaced_flags(old(cpu).regs.sp, e), ..old(cpu).regs },
            ..*old(cpu)
        }),
{
    let sp = cpu.regs.sp;
    cpu.regs.flags.z = false;
    cpu.regs.flags.n = false;
    cpu.regs.flags.h = (sp % 16) as u8 + e % 16 > 15;
    cpu.regs.flags.c = (sp % 256) + e as u16 > 255;
    if e < 128 {
        sp.wrapping_add(e as u16)
    } else {
        sp.wrapping_sub(256 - e as u16)
    }
}

/// Moves the program counter by the signed displacement `e`.
pub fn jump_relative(cpu: &mut Cpu, e: u8)
    ensures
        *final(cpu) == (Cpu {
            regs: Registers { pc: displaced(old(cpu).regs.pc, e), ..old(cpu).regs },
            ..*old(cpu)
        }),
{
    let pc = cpu.regs.pc;
    cpu.regs.pc = if e < 128 {
        pc.wrapping_add(e as u16)
    } else {
        pc.wrapping_sub(256 - e as u16)
    };
}

/// `RLC n`: rotate left; bit 7 goes to the carry and to bit 0.
pub fn rlc_n(reg: &mut u8, flags: &mut FlagRegister)
    ensures
        (Outcome { value: *final(reg), flags: *final(flags) }) == rotated(
            RotOp::Rlc,
            *old(reg),
            *old(flags),
        ),
{
    let v = *reg;
    *reg = (v << 1) | (v >> 7);
    flags.c = v.get_bit(7) == 1;
    flags.z = *reg == 0;
    flags.n = false;
    flags.h = false;
}

/// `RRC n`: rotate right; bit 0 goes to the carry and to bit 7.
pub fn rrc_n(reg: &mut u8, flags: &mut FlagRegister)
    ensures
        (Outcome { value: *final(reg), flags: *final(flags) }) == rotated(
            RotOp::Rrc,
            *old(reg),
            *old(flags),
        ),
{
    let v = *reg;
    *reg = (v >> 1) | (v << 7);
    flags.c = v.get_bit(0) == 1;
    flags.z = *reg == 0;
    flags.n = false;
    flags.h = false;
}

/// `RL n`: rotate left through the carry.
pub fn rl_n(reg: &mut u8, flags: &mut FlagRegister)
    ensures
        (Outcome { value: *final(reg), flags: *final(flags) }) == rotated(
            RotOp::Rl,
            *old(reg),
            *old(flags),
        ),
{
    let v = *reg;
    let carry = carry_bit(flags.c);
    *reg = (v << 1) | carry;
    flags.c = v.get_bit(7) == 1;
    flags.z = *reg == 0;
    flags.n = false;
    flags.h = false;
}

/// `RR n`: rotate right through the carry.
pub fn cb_rr(x: &mut u8, flags: &mut FlagRegister)
    ensures
        (Outcome { value: *final(x), flags: *final(flags) }) == rotated(
            RotOp::Rr,
            *old(x),
            *old(flags),
        ),
{
    let r = *x;
    let carry = carry_bit(flags.c);
    *x = (r >> 1) | (carry << 7);
    flags.c = r.get_bit(0) == 1;
    flags.z = *x == 0;
    flags.h = false;
    flags.n = false;
}

/// `SLA n`: shift left; bit 0 becomes 0.
pub fn sla_n(reg: &mut u8, flags: &mut FlagRegister)
    ensures
        (Outcome { value: *final(reg), flags: *final(flags) }) == rotated(
            RotOp::Sla,
            *old(reg),
            *old(flags),
        ),
{
    let v = *reg;
    *reg = v << 1;
    flags.c = v.get_bit(7) == 1;
    flags.z = *reg == 0;
    flags.n = false;
    flags.h = false;
}

/// `SRA n`: shift right; bit 7 keeps its value.
pub fn sra_n(reg: &mut u8, flags: &mut FlagRegister)
    ensures
        (Outcome { value: *final(reg), flags: *final(flags) }) == rotated(
            RotOp::Sra,
            *old(reg),
            *old(flags),
        ),
{
    let v = *reg;
    *reg = (v >> 1) | (v & 0x80);
    flags.c = v.get_bit(0) == 1;
    flags.z = *reg == 0;
    flags.n = false;
    flags.h = false;
}

/// `SWAP n`: exchange the two nibbles.
pub fn swap(reg: &mut u8, flags: &mut FlagRegister)
    ensures
        (Outcome { value: *final(reg), flags: *final(flags) }) == rotated(
            RotOp::Swap,
            *old(reg),
            *old(flags),
        ),
{
    *reg = (*reg << 4) | (*reg >> 4);
    flags.z = *reg == 0;
    flags.n = false;
    flags.h = false;
    flags.c = false;
}

/// `SRL n`: shift right; bit 7 becomes 0.
pub fn srl(reg: &mut u8, flags: &mut FlagRegister)
    ensures
        (Outcome { value: *final(reg), flags: *final(flags) }) == rotated(
            RotOp::Srl,
            *old(reg),
            *old(flags),
        ),
{
    let val = *reg;
    *reg = *reg >> 1;
    flags.z = *reg == 0;
    flags.c = val.get_bit(0) == 1;
    flags.n = false;
    flags.h = false;
}

/// `DAA`.
pub fn decimal_adjust(cpu: &mut Cpu)
    ensures
        *final(cpu) == old(cpu).with_outcome(daa(old(cpu).regs.a, old(cpu).regs.flags)),
{
    let a = cpu.regs.a;
    let flags = cpu.regs.flags;
    let high = if flags.n {
        flags.c
    } else {
        flags.c || a > 0x99
    };
    let low = if flags.n {
        flags.h
    } else {
        flags.h || a % 16 > 9
    };
    let mut fix: u8 = 0;
    if high {
        fix = fix + 0x60;
    }
    if low {
        fix = fix + 0x06;
    }
    let wide: u16 = if flags.n {
        a as u16 + 256 - fix as u16
    } else {
        a as u16 + fix as u16
    };
    let value: u8 = if wide > 0xFF {
        (wide - 256) as u8
    } else {
        wide as u8
    };
    cpu.regs.a = value;
    cpu.regs.flags.z = cpu.regs.a == 0;
    cpu.regs.flags.h = false;
    cpu.regs.flags.c = high;
}

/// `BIT x, n`.
pub fn bit_x_n(bit_no: usize, reg: &mut u8, flags: &mut FlagRegister)
    requires
        bit_no < 8,
    ensures
        *final(reg) == *old(reg),
        *final(flags) == bit_flags(bit_no as u8, *old(reg), *old(flags)),
{
    flags.z = reg.get_bit(bit_no) == 0;
    flags.n = false;
    flags.h = true;
}

/// `RES bit, n`.
pub fn cb_res(reg: &mut u8, bit: usize)
    requires
        bit < 8,
    ensures
        *final(reg) == with_bit(*old(reg), bit as int, 0),
{
    let mut r = *reg;
    r.set_bit(bit, 0);
    *reg = r;
}

/// `SET bit, n`.
pub fn cb_set(reg: &mut u8, bit: usize)
    requires
        bit < 8,
    ensures
        *final(reg) == with_bit(*old(reg), bit as int, 1),
{
    let mut r = *reg;
    r.set_bit(bit, 1);
    *reg = r;
}

/// Calls `addr`: pushes the program counter and jumps.
pub fn restart(cpu: &mut Cpu, mmu: &mut Mmu, addr: u16)
    ensures
        state(final(cpu), final(mmu)) == state(old(cpu), old(mmu)).call_if(true, addr),
        final(mmu)@.timing() == old(mmu)@.timing(),
{
    let pc = cpu.regs.pc;
    cpu.stack_push_u16(pc, mmu);
    cpu.regs.pc = addr;
}

/// Returns: pops the program counter.
pub fn go_back(cpu: &mut Cpu, mmu: &mut Mmu)
    ensures
        state(final(cpu), final(mmu)) == state(old(cpu), old(mmu)).return_if(true),
        final(mmu)@.timing() == old(mmu)@.timing(),
{
    let target = cpu.stack_pop_u16(mmu);
    cpu.regs.pc = target;
}

/// `PUSH rr`.
pub fn push_r16(cpu: &mut Cpu, mmu: &mut Mmu, val: u16)
    ensures
        state(final(cpu), final(mmu)) == state(old(cpu), old(mmu)).push16(val),
        final(mmu)@.timing() == old(mmu)@.timing(),
{
    cpu.stack_push_u16(val, mmu);
}

} // verus!
