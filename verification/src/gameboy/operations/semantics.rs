//! What each instruction does, as a function from the state of the machine
//! before it to the state after it.
//!
//! The state is the processor together with the bus, as plain values
//! ([`Machine`]). [`run`] gives the effect of an instruction whose opcode
//! has been fetched: the program counter points at the byte after the
//! opcode, where the immediate operand starts if there is one.
//! [`cycles_of`] gives what the instruction costs.
//!
//! [`run`] and the functions that say what one instruction does, such as
//! [`Machine::ld`], are opaque, so that a proof meets only the
//! instructions that it speaks of: `reveal` the one that is needed, and
//! use [`lemma_run`] to get from [`run`] to it.

use vstd::prelude::*;
use crate::bitty::{bit_at, high_byte, low_byte, with_bit, word_of};
use crate::gameboy::cpu::{Cpu, RunState};
use crate::gameboy::mmu::{Mmu, MmuView};
use crate::gameboy::operations::{
    AluOp, Cond, Indirect, Instr, Operand8, Reg16, Reg8, RotOp, StackPair,
};
use crate::gameboy::registers::{FlagRegister, Registers};

verus! {

/// The state of the machine: the processor and the bus.
pub struct Machine {
    pub cpu: Cpu,
    pub mem: MmuView,
}

/// The state that `cpu` and `mmu` are in together.
pub open spec fn state(cpu: &Cpu, mmu: &Mmu) -> Machine {
    Machine { cpu: *cpu, mem: mmu@ }
}

/// The result of an 8-bit operation: the value and the flags after it.
pub struct Outcome {
    pub value: u8,
    pub flags: FlagRegister,
}

/// `x` modulo 256, for an `x` that is less than 256 away from the range of
/// a byte.
pub open spec fn wrap8(x: int) -> u8 {
    if x < 0 {
        (x + 256) as u8
    } else if x > 255 {
        (x - 256) as u8
    } else {
        x as u8
    }
}

/// The carry flag as the number 0 or 1.
pub open spec fn carry_in(carry: bool) -> int {
    if carry {
        1
    } else {
        0
    }
}

/// `a + v + carry`: Z from the result, N clear, H the carry out of bit 3,
/// C the carry out of bit 7.
pub open spec fn add8(a: u8, v: u8, carry: int) -> Outcome {
    let sum = a as int + v as int + carry;
    Outcome {
        value: wrap8(sum),
        flags: FlagRegister {
            z: wrap8(sum) == 0,
            n: false,
            h: a as int % 16 + v as int % 16 + carry > 15,
            c: sum > 255,
        },
    }
}

/// `a - v - carry`: Z from the result, N set, H the borrow from bit 4,
/// C the borrow from bit 8.
pub open spec fn sub8(a: u8, v: u8, carry: int) -> Outcome {
    let diff = a as int - v as int - carry;
    Outcome {
        value: wrap8(diff),
        flags: FlagRegister {
            z: wrap8(diff) == 0,
            n: true,
            h: (a as int % 16) < v as int % 16 + carry,
            c: diff < 0,
        },
    }
}

/// The result of a bitwise operation: Z from the result, N and C clear,
/// H as given.
pub open spec fn logic8(value: u8, h: bool) -> Outcome {
    Outcome { value, flags: FlagRegister { z: value == 0, n: false, h, c: false } }
}

/// What the operation `op` makes of the accumulator `a` and the operand
/// `v`, given the flags before it. A comparison leaves the accumulator as
/// it was and sets the flags of the subtraction.
pub open spec fn alu(op: AluOp, a: u8, v: u8, flags: FlagRegister) -> Outcome {
    match op {
        AluOp::Add => add8(a, v, 0),
        AluOp::Adc => add8(a, v, carry_in(flags.c)),
        AluOp::Sub => sub8(a, v, 0),
        AluOp::Sbc => sub8(a, v, carry_in(flags.c)),
        AluOp::And => logic8(a & v, true),
        AluOp::Xor => logic8(a ^ v, false),
        AluOp::Or => logic8(a | v, false),
        AluOp::Cp => Outcome { value: a, flags: sub8(a, v, 0).flags },
    }
}

/// `v + 1`: Z from the result, N clear, H the carry out of bit 3, C kept.
pub open spec fn inc8(v: u8, flags: FlagRegister) -> Outcome {
    Outcome {
        value: v.wrapping_add(1),
        flags: FlagRegister { z: v == 255, n: false, h: v % 16 == 15, c: flags.c },
    }
}

/// `v - 1`: Z from the result, N set, H the borrow from bit 4, C kept.
pub open spec fn dec8(v: u8, flags: FlagRegister) -> Outcome {
    Outcome {
        value: v.wrapping_sub(1),
        flags: FlagRegister { z: v == 1, n: true, h: v % 16 == 0, c: flags.c },
    }
}

/// What the rotate or shift `op` makes of `v`. The bit that leaves goes to
/// C; N and H are cleared.
pub open spec fn rotated(op: RotOp, v: u8, flags: FlagRegister) -> Outcome {
    let value: u8 = match op {
        RotOp::Rlc => (v << 1) | (v >> 7),
        RotOp::Rrc => (v >> 1) | (v << 7),
        RotOp::Rl => (v << 1) | (carry_in(flags.c) as u8),
        RotOp::Rr => (v >> 1) | ((carry_in(flags.c) as u8) << 7),
        RotOp::Sla => v << 1,
        RotOp::Sra => (v >> 1) | (v & 0x80),
        RotOp::Swap => (v << 4) | (v >> 4),
        RotOp::Srl => v >> 1,
    };
    let carry = match op {
        RotOp::Rlc | RotOp::Rl | RotOp::Sla => bit_at(v, 7) == 1,
        RotOp::Rrc | RotOp::Rr | RotOp::Sra | RotOp::Srl => bit_at(v, 0) == 1,
        RotOp::Swap => false,
    };
    Outcome { value, flags: FlagRegister { z: value == 0, n: false, h: false, c: carry } }
}

/// The rotate `op` on the accumulator in its one-byte form (`RLCA`,
/// `RRCA`, `RLA`, `RRA`): as [`rotated`], but Z is always cleared.
pub open spec fn rotated_a(op: RotOp, v: u8, flags: FlagRegister) -> Outcome {
    let r = rotated(op, v, flags);
    Outcome { value: r.value, flags: FlagRegister { z: false, ..r.flags } }
}

/// The decimal adjustment of the accumulator after an addition or a
/// subtraction of two packed decimal numbers.
pub open spec fn daa(a: u8, flags: FlagRegister) -> Outcome {
    let high = if flags.n {
        flags.c
    } else {
        flags.c || a > 0x99
    };
    let low = if flags.n {
        flags.h
    } else {
        flags.h || a % 16 > 9
    };
    let fix = (if high {
        0x60int
    } else {
        0int
    }) + (if low {
        0x06int
    } else {
        0int
    });
    let total = if flags.n {
        a as int - fix
    } else {
        a as int + fix
    };
    let value = wrap8(total);
    Outcome { value, flags: FlagRegister { z: value == 0, n: flags.n, h: false, c: high } }
}

/// `BIT n`: Z is set when bit `n` of `v` is clear; N is cleared, H is set,
/// C is kept.
pub open spec fn bit_flags(n: u8, v: u8, flags: FlagRegister) -> FlagRegister {
    FlagRegister { z: bit_at(v, n as int) == 0, n: false, h: true, c: flags.c }
}

/// `hl + v`: N clear, H the carry out of bit 11, C the carry out of bit 15,
/// Z kept.
pub open spec fn add16_flags(hl: u16, v: u16, flags: FlagRegister) -> FlagRegister {
    FlagRegister {
        z: flags.z,
        n: false,
        h: hl as int % 4096 + v as int % 4096 > 4095,
        c: hl as int + v as int > 65535,
    }
}

/// `addr` moved by the signed displacement that the byte `e` encodes,
/// modulo 2^16.
pub open spec fn displaced(addr: u16, e: u8) -> u16 {
    if e < 128 {
        addr.wrapping_add(e as u16)
    } else {
        addr.wrapping_sub((256 - e) as u16)
    }
}

/// The flags of `sp + e` for a signed displacement `e`: Z and N clear,
/// H and C the carries of the addition of `e` to the low byte of `sp`.
pub open spec fn displaced_flags(sp: u16, e: u8) -> FlagRegister {
    FlagRegister {
        z: false,
        n: false,
        h: sp as int % 16 + e as int % 16 > 15,
        c: sp as int % 256 + e as int > 255,
    }
}

/// Whether the condition `cc` holds of `flags`.
pub open spec fn holds(cc: Cond, flags: FlagRegister) -> bool {
    match cc {
        Cond::NZ => !flags.z,
        Cond::Z => flags.z,
        Cond::NC => !flags.c,
        Cond::C => flags.c,
    }
}

impl Registers {
    /// The value of the register `r`.
    pub open spec fn reg(self, r: Reg8) -> u8 {
        match r {
            Reg8::B => self.b,
            Reg8::C => self.c,
            Reg8::D => self.d,
            Reg8::E => self.e,
            Reg8::H => self.h,
            Reg8::L => self.l,
            Reg8::A => self.a,
        }
    }

    /// These registers with `r` holding `v`.
    pub open spec fn with_reg(self, r: Reg8, v: u8) -> Registers {
        match r {
            Reg8::B => Registers { b: v, ..self },
            Reg8::C => Registers { c: v, ..self },
            Reg8::D => Registers { d: v, ..self },
            Reg8::E => Registers { e: v, ..self },
            Reg8::H => Registers { h: v, ..self },
            Reg8::L => Registers { l: v, ..self },
            Reg8::A => Registers { a: v, ..self },
        }
    }

    /// The value of the 16-bit register `rr`.
    pub open spec fn reg16(self, rr: Reg16) -> u16 {
        match rr {
            Reg16::BC => self.spec_bc(),
            Reg16::DE => self.spec_de(),
            Reg16::HL => self.spec_hl(),
            Reg16::SP => self.sp,
        }
    }

    /// These registers with `rr` holding `v`.
    pub open spec fn with_reg16(self, rr: Reg16, v: u16) -> Registers {
        match rr {
            Reg16::BC => self.with_bc(v),
            Reg16::DE => self.with_de(v),
            Reg16::HL => self.with_hl(v),
            Reg16::SP => Registers { sp: v, ..self },
        }
    }

    /// The value of the pair `rr` as it is pushed.
    pub open spec fn stack_pair(self, rr: StackPair) -> u16 {
        match rr {
            StackPair::BC => self.spec_bc(),
            StackPair::DE => self.spec_de(),
            StackPair::HL => self.spec_hl(),
            StackPair::AF => self.spec_af(),
        }
    }

    /// These registers after `v` is popped into the pair `rr`.
    pub open spec fn with_stack_pair(self, rr: StackPair, v: u16) -> Registers {
        match rr {
            StackPair::BC => self.with_bc(v),
            StackPair::DE => self.with_de(v),
            StackPair::HL => self.with_hl(v),
            StackPair::AF => self.with_af(v),
        }
    }
}

impl Machine {
    /// This state with the registers `regs`.
    pub open spec fn with_regs(self, regs: Registers) -> Machine {
        Machine { cpu: Cpu { regs, ..self.cpu }, ..self }
    }

    /// This state with the flags `flags`.
    pub open spec fn with_flags(self, flags: FlagRegister) -> Machine {
        self.with_regs(Registers { flags, ..self.cpu.regs })
    }

    /// This state with the program counter at `pc`.
    pub open spec fn with_pc(self, pc: u16) -> Machine {
        self.with_regs(Registers { pc, ..self.cpu.regs })
    }

    /// This state with the stack pointer at `sp`.
    pub open spec fn with_sp(self, sp: u16) -> Machine {
        self.with_regs(Registers { sp, ..self.cpu.regs })
    }

    /// This state with the accumulator holding `a`.
    pub open spec fn with_a(self, a: u8) -> Machine {
        self.with_regs(Registers { a, ..self.cpu.regs })
    }

    /// This state with the accumulator and the flags of `out`.
    pub open spec fn with_outcome(self, out: Outcome) -> Machine {
        self.with_regs(Registers { a: out.value, flags: out.flags, ..self.cpu.regs })
    }

    /// This state with HL holding `hl`.
    pub open spec fn with_hl(self, hl: u16) -> Machine {
        self.with_regs(self.cpu.regs.with_hl(hl))
    }

    /// This state after `byte` is written to `addr`.
    pub open spec fn store(self, addr: u16, byte: u8) -> Machine {
        Machine { mem: self.mem.write(addr, byte), ..self }
    }

    /// The byte at the program counter.
    pub open spec fn imm8(self) -> u8 {
        self.mem.read(self.cpu.regs.pc)
    }

    /// The word at the program counter, low byte first.
    pub open spec fn imm16(self) -> u16 {
        self.mem.read16(self.cpu.regs.pc)
    }

    /// This state with the program counter moved on by `n` bytes.
    pub open spec fn skip(self, n: u16) -> Machine {
        self.with_pc(self.cpu.regs.pc.wrapping_add(n))
    }

    /// The value of the operand `op`.
    pub open spec fn operand(self, op: Operand8) -> u8 {
        match op {
            Operand8::Reg(r) => self.cpu.regs.reg(r),
            Operand8::HlInd => self.mem.read(self.cpu.regs.spec_hl()),
        }
    }

    /// This state with the operand `op` holding `v`.
    pub open spec fn with_operand(self, op: Operand8, v: u8) -> Machine {
        match op {
            Operand8::Reg(r) => self.with_regs(self.cpu.regs.with_reg(r, v)),
            Operand8::HlInd => self.store(self.cpu.regs.spec_hl(), v),
        }
    }

    /// The address that `ind` names.
    pub open spec fn indirect(self, ind: Indirect) -> u16 {
        match ind {
            Indirect::BC => self.cpu.regs.spec_bc(),
            Indirect::DE => self.cpu.regs.spec_de(),
            Indirect::HLInc | Indirect::HLDec => self.cpu.regs.spec_hl(),
        }
    }

    /// This state after the access through `ind`: HL moved by one where
    /// `ind` asks for it.
    pub open spec fn after_indirect(self, ind: Indirect) -> Machine {
        match ind {
            Indirect::BC | Indirect::DE => self,
            Indirect::HLInc => self.with_hl(self.cpu.regs.spec_hl().wrapping_add(1)),
            Indirect::HLDec => self.with_hl(self.cpu.regs.spec_hl().wrapping_sub(1)),
        }
    }

    /// This state after the byte `v` is pushed: the stack pointer goes
    /// down by one, then the byte is written where it points.
    pub open spec fn push8(self, v: u8) -> Machine {
        let sp = self.cpu.regs.sp.wrapping_sub(1);
        self.with_sp(sp).store(sp, v)
    }

    /// This state after the word `v` is pushed: the high byte first, so
    /// that the low byte ends up at the new stack pointer.
    pub open spec fn push16(self, v: u16) -> Machine {
        self.push8(high_byte(v)).push8(low_byte(v))
    }

    /// The byte on top of the stack.
    pub open spec fn top8(self) -> u8 {
        self.mem.read(self.cpu.regs.sp)
    }

    /// The word on top of the stack: its low byte is at the stack pointer.
    pub open spec fn top16(self) -> u16 {
        self.mem.read16(self.cpu.regs.sp)
    }

    /// This state with `n` bytes dropped from the stack.
    pub open spec fn release(self, n: u16) -> Machine {
        self.with_sp(self.cpu.regs.sp.wrapping_add(n))
    }

    /// This state after a jump to `target` that is taken when `taken`.
    pub open spec fn jump_if(self, taken: bool, target: u16) -> Machine {
        if taken {
            self.with_pc(target)
        } else {
            self
        }
    }

    /// This state after a call of `target`, taken when `taken`, from an
    /// instruction that ends at the current program counter.
    pub open spec fn call_if(self, taken: bool, target: u16) -> Machine {
        if taken {
            self.push16(self.cpu.regs.pc).with_pc(target)
        } else {
            self
        }
    }

    /// This state after a return that is taken when `taken`.
    pub open spec fn return_if(self, taken: bool) -> Machine {
        if taken {
            self.release(2).with_pc(self.top16())
        } else {
            self
        }
    }
}

impl Machine {
    /// This state with the operand `op` holding `out.value` and the flags
    /// being `out.flags`.
    pub open spec fn updated(self, op: Operand8, out: Outcome) -> Machine {
        self.with_operand(op, out.value).with_flags(out.flags)
    }

    /// `NOP`: nothing changes.
    #[verifier::opaque]
    pub open spec fn nop(self) -> Machine {
        self
    }

    /// `STOP`: the processor stops until the joypad wakes it.
    #[verifier::opaque]
    pub open spec fn stop(self) -> Machine {
        Machine { cpu: Cpu { state: RunState::Stopped, ..self.cpu }, ..self }
    }

    /// `HALT`: the processor halts until an interrupt is pending.
    #[verifier::opaque]
    pub open spec fn halt(self) -> Machine {
        Machine { cpu: Cpu { state: RunState::Halted, ..self.cpu }, ..self }
    }

    /// `DI`: interrupts are disabled at once, and an enable that was on its way is
    /// dropped.
    #[verifier::opaque]
    pub open spec fn di(self) -> Machine {
        Machine {
            cpu: Cpu { ime_pending: false, ..self.cpu },
            mem: MmuView { ime: false, ..self.mem },
        }
    }

    /// `EI`: interrupts are to be enabled once the next instruction is done.
    #[verifier::opaque]
    pub open spec fn ei(self) -> Machine {
        Machine { cpu: Cpu { ime_pending: true, ..self.cpu }, ..self }
    }

    /// `LD dst, src`.
    #[verifier::opaque]
    pub open spec fn ld(self, dst: Operand8, src: Operand8) -> Machine {
        self.with_operand(dst, self.operand(src))
    }

    /// `LD dst, d8`.
    #[verifier::opaque]
    pub open spec fn ld_imm(self, dst: Operand8) -> Machine {
        self.skip(1).with_operand(dst, self.imm8())
    }

    /// `LD A, (rr)`.
    #[verifier::opaque]
    pub open spec fn ld_a_from(self, ind: Indirect) -> Machine {
        self.with_a(self.mem.read(self.indirect(ind))).after_indirect(ind)
    }

    /// `LD (rr), A`.
    #[verifier::opaque]
    pub open spec fn ld_to_ind(self, ind: Indirect) -> Machine {
        self.store(self.indirect(ind), self.cpu.regs.a).after_indirect(ind)
    }

    /// `LD A, (a16)`.
    #[verifier::opaque]
    pub open spec fn ld_a_from_a16(self) -> Machine {
        self.skip(2).with_a(self.mem.read(self.imm16()))
    }

    /// `LD (a16), A`.
    #[verifier::opaque]
    pub open spec fn ld_a16_from_a(self) -> Machine {
        self.skip(2).store(self.imm16(), self.cpu.regs.a)
    }

    /// `LDH A, (a8)`: from the address 0xFF00 + a8.
    #[verifier::opaque]
    pub open spec fn ldh_a_from_a8(self) -> Machine {
        self.skip(1).with_a(self.mem.read(word_of(0xFF, self.imm8())))
    }

    /// `LDH (a8), A`: to the address 0xFF00 + a8.
    #[verifier::opaque]
    pub open spec fn ldh_a8_from_a(self) -> Machine {
        self.skip(1).store(word_of(0xFF, self.imm8()), self.cpu.regs.a)
    }

    /// `LD A, (C)`: from the address 0xFF00 + C.
    #[verifier::opaque]
    pub open spec fn ld_a_from_c(self) -> Machine {
        self.with_a(self.mem.read(word_of(0xFF, self.cpu.regs.c)))
    }

    /// `LD (C), A`: to the address 0xFF00 + C.
    #[verifier::opaque]
    pub open spec fn ld_c_from_a(self) -> Machine {
        self.store(word_of(0xFF, self.cpu.regs.c), self.cpu.regs.a)
    }

    /// `LD rr, d16`.
    #[verifier::opaque]
    pub open spec fn ld16_imm(self, rr: Reg16) -> Machine {
        self.skip(2).with_regs(self.skip(2).cpu.regs.with_reg16(rr, self.imm16()))
    }

    /// `LD (a16), SP`: the stack pointer is stored, low byte first.
    #[verifier::opaque]
    pub open spec fn ld_a16_sp(self) -> Machine {
        Machine { mem: self.mem.write16(self.imm16(), self.cpu.regs.sp), ..self.skip(2) }
    }

    /// `LD SP, HL`.
    #[verifier::opaque]
    pub open spec fn ld_sp_hl(self) -> Machine {
        self.with_sp(self.cpu.regs.spec_hl())
    }

    /// `LD HL, SP+r8`.
    #[verifier::opaque]
    pub open spec fn ld_hl_sp_r8(self) -> Machine {
        self.skip(1).with_hl(displaced(self.cpu.regs.sp, self.imm8())).with_flags(
            displaced_flags(self.cpu.regs.sp, self.imm8()),
        )
    }

    /// An operation on the accumulator with a register or `(HL)`.
    #[verifier::opaque]
    pub open spec fn alu(self, op: AluOp, src: Operand8) -> Machine {
        self.with_outcome(alu(op, self.cpu.regs.a, self.operand(src), self.cpu.regs.flags))
    }

    /// An operation on the accumulator with an immediate byte.
    #[verifier::opaque]
    pub open spec fn alu_imm(self, op: AluOp) -> Machine {
        self.skip(1).with_outcome(alu(op, self.cpu.regs.a, self.imm8(), self.cpu.regs.flags))
    }

    /// `INC r`.
    #[verifier::opaque]
    pub open spec fn inc(self, r: Operand8) -> Machine {
        self.updated(r, inc8(self.operand(r), self.cpu.regs.flags))
    }

    /// `DEC r`.
    #[verifier::opaque]
    pub open spec fn dec(self, r: Operand8) -> Machine {
        self.updated(r, dec8(self.operand(r), self.cpu.regs.flags))
    }

    /// `INC rr`: no flag changes.
    #[verifier::opaque]
    pub open spec fn inc16(self, rr: Reg16) -> Machine {
        self.with_regs(self.cpu.regs.with_reg16(rr, self.cpu.regs.reg16(rr).wrapping_add(1)))
    }

    /// `DEC rr`: no flag changes.
    #[verifier::opaque]
    pub open spec fn dec16(self, rr: Reg16) -> Machine {
        self.with_regs(self.cpu.regs.with_reg16(rr, self.cpu.regs.reg16(rr).wrapping_sub(1)))
    }

    /// `ADD HL, rr`.
    #[verifier::opaque]
    pub open spec fn add_hl(self, rr: Reg16) -> Machine {
        self.with_hl(
            self.cpu.regs.spec_hl().wrapping_add(self.cpu.regs.reg16(rr)),
        ).with_flags(
            add16_flags(self.cpu.regs.spec_hl(), self.cpu.regs.reg16(rr), self.cpu.regs.flags),
        )
    }

    /// `ADD SP, r8`.
    #[verifier::opaque]
    pub open spec fn add_sp_r8(self) -> Machine {
        self.skip(1).with_sp(displaced(self.cpu.regs.sp, self.imm8())).with_flags(
            displaced_flags(self.cpu.regs.sp, self.imm8()),
        )
    }

    /// `RLCA`.
    #[verifier::opaque]
    pub open spec fn rlca(self) -> Machine {
        self.with_outcome(rotated_a(RotOp::Rlc, self.cpu.regs.a, self.cpu.regs.flags))
    }

    /// `RRCA`.
    #[verifier::opaque]
    pub open spec fn rrca(self) -> Machine {
        self.with_outcome(rotated_a(RotOp::Rrc, self.cpu.regs.a, self.cpu.regs.flags))
    }

    /// `RLA`.
    #[verifier::opaque]
    pub open spec fn rla(self) -> Machine {
        self.with_outcome(rotated_a(RotOp::Rl, self.cpu.regs.a, self.cpu.regs.flags))
    }

    /// `RRA`.
    #[verifier::opaque]
    pub open spec fn rra(self) -> Machine {
        self.with_outcome(rotated_a(RotOp::Rr, self.cpu.regs.a, self.cpu.regs.flags))
    }

    /// `DAA`.
    #[verifier::opaque]
    pub open spec fn daa(self) -> Machine {
        self.with_outcome(daa(self.cpu.regs.a, self.cpu.regs.flags))
    }

    /// `CPL`: the accumulator is complemented; N and H are set.
    #[verifier::opaque]
    pub open spec fn cpl(self) -> Machine {
        self.with_outcome(
            Outcome {
                value: !self.cpu.regs.a,
                flags: FlagRegister { n: true, h: true, ..self.cpu.regs.flags },
            },
        )
    }

    /// `SCF`: C is set; N and H are cleared.
    #[verifier::opaque]
    pub open spec fn scf(self) -> Machine {
        self.with_flags(FlagRegister { n: false, h: false, c: true, ..self.cpu.regs.flags })
    }

    /// `CCF`: C is inverted; N and H are cleared.
    #[verifier::opaque]
    pub open spec fn ccf(self) -> Machine {
        self.with_flags(
            FlagRegister { n: false, h: false, c: !self.cpu.regs.flags.c, ..self.cpu.regs.flags },
        )
    }

    /// A rotate or shift of the prefixed page.
    #[verifier::opaque]
    pub open spec fn rot(self, op: RotOp, r: Operand8) -> Machine {
        self.updated(r, rotated(op, self.operand(r), self.cpu.regs.flags))
    }

    /// `BIT n, r`.
    #[verifier::opaque]
    pub open spec fn test_bit(self, n: u8, r: Operand8) -> Machine {
        self.with_flags(bit_flags(n, self.operand(r), self.cpu.regs.flags))
    }

    /// `RES n, r`: no flag changes.
    #[verifier::opaque]
    pub open spec fn res_bit(self, n: u8, r: Operand8) -> Machine {
        self.with_operand(r, with_bit(self.operand(r), n as int, 0) as u8)
    }

    /// `SET n, r`: no flag changes.
    #[verifier::opaque]
    pub open spec fn set_bit(self, n: u8, r: Operand8) -> Machine {
        self.with_operand(r, with_bit(self.operand(r), n as int, 1) as u8)
    }

    /// `JP a16`.
    #[verifier::opaque]
    pub open spec fn jp(self) -> Machine {
        self.with_pc(self.imm16())
    }

    /// `JP cc, a16`.
    #[verifier::opaque]
    pub open spec fn jp_cond(self, cc: Cond) -> Machine {
        self.skip(2).jump_if(holds(cc, self.cpu.regs.flags), self.imm16())
    }

    /// `JP (HL)`.
    #[verifier::opaque]
    pub open spec fn jp_hl(self) -> Machine {
        self.with_pc(self.cpu.regs.spec_hl())
    }

    /// `JR r8`: the displacement applies to the address after the operand.
    #[verifier::opaque]
    pub open spec fn jr(self) -> Machine {
        self.with_pc(displaced(self.cpu.regs.pc.wrapping_add(1), self.imm8()))
    }

    /// `JR cc, r8`.
    #[verifier::opaque]
    pub open spec fn jr_cond(self, cc: Cond) -> Machine {
        self.skip(1).jump_if(
            holds(cc, self.cpu.regs.flags),
            displaced(self.cpu.regs.pc.wrapping_add(1), self.imm8()),
        )
    }

    /// `CALL a16`: the address after the operand is pushed.
    #[verifier::opaque]
    pub open spec fn call(self) -> Machine {
        self.skip(2).call_if(true, self.imm16())
    }

    /// `CALL cc, a16`.
    #[verifier::opaque]
    pub open spec fn call_cond(self, cc: Cond) -> Machine {
        self.skip(2).call_if(holds(cc, self.cpu.regs.flags), self.imm16())
    }

    /// `RET`.
    #[verifier::opaque]
    pub open spec fn ret(self) -> Machine {
        self.return_if(true)
    }

    /// `RET cc`.
    #[verifier::opaque]
    pub open spec fn ret_cond(self, cc: Cond) -> Machine {
        self.return_if(holds(cc, self.cpu.regs.flags))
    }

    /// `RETI`: a return that also enables interrupts.
    #[verifier::opaque]
    pub open spec fn reti(self) -> Machine {
        Machine { mem: MmuView { ime: true, ..self.return_if(true).mem }, ..self.return_if(true) }
    }

    /// `RST n`: a call of the address `n`.
    #[verifier::opaque]
    pub open spec fn rst(self, n: u8) -> Machine {
        self.call_if(true, n as u16)
    }

    /// `PUSH rr`.
    #[verifier::opaque]
    pub open spec fn push(self, rr: StackPair) -> Machine {
        self.push16(self.cpu.regs.stack_pair(rr))
    }

    /// `POP rr`. Popping AF leaves the low nibble of F zero.
    #[verifier::opaque]
    pub open spec fn pop(self, rr: StackPair) -> Machine {
        self.release(2).with_regs(self.release(2).cpu.regs.with_stack_pair(rr, self.top16()))
    }
}

/// The state after the instruction `instr`, from the state `m` in which
/// its opcode has been fetched.
#[verifier::opaque]
pub open spec fn run(instr: Instr, m: Machine) -> Machine {
    match instr {
        Instr::Nop => m.nop(),
        Instr::Stop => m.stop(),
        Instr::Halt => m.halt(),
        Instr::Di => m.di(),
        Instr::Ei => m.ei(),
        Instr::Ld(dst, src) => m.ld(dst, src),
        Instr::LdImm(dst) => m.ld_imm(dst),
        Instr::LdAFrom(ind) => m.ld_a_from(ind),
        Instr::LdToInd(ind) => m.ld_to_ind(ind),
        Instr::LdAFromA16 => m.ld_a_from_a16(),
        Instr::LdA16FromA => m.ld_a16_from_a(),
        Instr::LdhAFromA8 => m.ldh_a_from_a8(),
        Instr::LdhA8FromA => m.ldh_a8_from_a(),
        Instr::LdAFromC => m.ld_a_from_c(),
        Instr::LdCFromA => m.ld_c_from_a(),
        Instr::Ld16Imm(rr) => m.ld16_imm(rr),
        Instr::LdA16Sp => m.ld_a16_sp(),
        Instr::LdSpHl => m.ld_sp_hl(),
        Instr::LdHlSpR8 => m.ld_hl_sp_r8(),
        Instr::Alu(op, src) => m.alu(op, src),
        Instr::AluImm(op) => m.alu_imm(op),
        Instr::Inc(r) => m.inc(r),
        Instr::Dec(r) => m.dec(r),
        Instr::Inc16(rr) => m.inc16(rr),
        Instr::Dec16(rr) => m.dec16(rr),
        Instr::AddHl(rr) => m.add_hl(rr),
        Instr::AddSpR8 => m.add_sp_r8(),
        Instr::Rlca => m.rlca(),
        Instr::Rrca => m.rrca(),
        Instr::Rla => m.rla(),
        Instr::Rra => m.rra(),
        Instr::Daa => m.daa(),
        Instr::Cpl => m.cpl(),
        Instr::Scf => m.scf(),
        Instr::Ccf => m.ccf(),
        Instr::Rot(op, r) => m.rot(op, r),
        Instr::TestBit(n, r) => m.test_bit(n, r),
        Instr::ResBit(n, r) => m.res_bit(n, r),
        Instr::SetBit(n, r) => m.set_bit(n, r),
        Instr::Jp => m.jp(),
        Instr::JpCond(cc) => m.jp_cond(cc),
        Instr::JpHl => m.jp_hl(),
        Instr::Jr => m.jr(),
        Instr::JrCond(cc) => m.jr_cond(cc),
        Instr::Call => m.call(),
        Instr::CallCond(cc) => m.call_cond(cc),
        Instr::Ret => m.ret(),
        Instr::RetCond(cc) => m.ret_cond(cc),
        Instr::Reti => m.reti(),
        Instr::Rst(n) => m.rst(n),
        Instr::Push(rr) => m.push(rr),
        Instr::Pop(rr) => m.pop(rr),
    }
}

proof fn lemma_run_nop(instr: Instr, m: Machine)
    ensures
        instr is Nop ==> run(instr, m) == m.nop(),
{
    reveal(run);
}

proof fn lemma_run_stop(instr: Instr, m: Machine)
    ensures
        instr is Stop ==> run(instr, m) == m.stop(),
{
    reveal(run);
}

proof fn lemma_run_halt(instr: Instr, m: Machine)
    ensures
        instr is Halt ==> run(instr, m) == m.halt(),
{
    reveal(run);
}

proof fn lemma_run_di(instr: Instr, m: Machine)
    ensures
        instr is Di ==> run(instr, m) == m.di(),
{
    reveal(run);
}

proof fn lemma_run_ei(instr: Instr, m: Machine)
    ensures
        instr is Ei ==> run(instr, m) == m.ei(),
{
    reveal(run);
}

proof fn lemma_run_ld(instr: Instr, m: Machine)
    ensures
        instr matches Instr::Ld(dst, src) ==> run(instr, m) == m.ld(dst, src),
{
    reveal(run);
}

proof fn lemma_run_ld_imm(instr: Instr, m: Machine)
    ensures
        instr matches Instr::LdImm(dst) ==> run(instr, m) == m.ld_imm(dst),
{
    reveal(run);
}

proof fn lemma_run_ld_a_from(instr: Instr, m: Machine)
    ensures
        instr matches Instr::LdAFrom(ind) ==> run(instr, m) == m.ld_a_from(ind),
{
    reveal(run);
}

proof fn lemma_run_ld_to_ind(instr: Instr, m: Machine)
    ensures
        instr matches Instr::LdToInd(ind) ==> run(instr, m) == m.ld_to_ind(ind),
{
    reveal(run);
}

proof fn lemma_run_ld_a_from_a16(instr: Instr, m: Machine)
    ensures
        instr is LdAFromA16 ==> run(instr, m) == m.ld_a_from_a16(),
{
    reveal(run);
}

proof fn lemma_run_ld_a16_from_a(instr: Instr, m: Machine)
    ensures
        instr is LdA16FromA ==> run(instr, m) == m.ld_a16_from_a(),
{
    reveal(run);
}

proof fn lemma_run_ldh_a_from_a8(instr: Instr, m: Machine)
    ensures
        instr is LdhAFromA8 ==> run(instr, m) == m.ldh_a_from_a8(),
{
    reveal(run);
}

proof fn lemma_run_ldh_a8_from_a(instr: Instr, m: Machine)
    ensures
        instr is LdhA8FromA ==> run(instr, m) == m.ldh_a8_from_a(),
{
    reveal(run);
}

proof fn lemma_run_ld_a_from_c(instr: Instr, m: Machine)
    ensures
        instr is LdAFromC ==> run(instr, m) == m.ld_a_from_c(),
{
    reveal(run);
}

proof fn lemma_run_ld_c_from_a(instr: Instr, m: Machine)
    ensures
        instr is LdCFromA ==> run(instr, m) == m.ld_c_from_a(),
{
    reveal(run);
}

proof fn lemma_run_ld16_imm(instr: Instr, m: Machine)
    ensures
        instr matches Instr::Ld16Imm(rr) ==> run(instr, m) == m.ld16_imm(rr),
{
    reveal(run);
}

proof fn lemma_run_ld_a16_sp(instr: Instr, m: Machine)
    ensures
        instr is LdA16Sp ==> run(instr, m) == m.ld_a16_sp(),
{
    reveal(run);
}

proof fn lemma_run_ld_sp_hl(instr: Instr, m: Machine)
    ensures
        instr is LdSpHl ==> run(instr, m) == m.ld_sp_hl(),
{
    reveal(run);
}

proof fn lemma_run_ld_hl_sp_r8(instr: Instr, m: Machine)
    ensures
        instr is LdHlSpR8 ==> run(instr, m) == m.ld_hl_sp_r8(),
{
    reveal(run);
}

proof fn lemma_run_alu(instr: Instr, m: Machine)
    ensures
        instr matches Instr::Alu(op, src) ==> run(instr, m) == m.alu(op, src),
{
    reveal(run);
}

proof fn lemma_run_alu_imm(instr: Instr, m: Machine)
    ensures
        instr matches Instr::AluImm(op) ==> run(instr, m) == m.alu_imm(op),
{
    reveal(run);
}

proof fn lemma_run_inc(instr: Instr, m: Machine)
    ensures
        instr matches Instr::Inc(r) ==> run(instr, m) == m.inc(r),
{
    reveal(run);
}

proof fn lemma_run_dec(instr: Instr, m: Machine)
    ensures
        instr matches Instr::Dec(r) ==> run(instr, m) == m.dec(r),
{
    reveal(run);
}

proof fn lemma_run_inc16(instr: Instr, m: Machine)
    ensures
        instr matches Instr::Inc16(rr) ==> run(instr, m) == m.inc16(rr),
{
    reveal(run);
}

proof fn lemma_run_dec16(instr: Instr, m: Machine)
    ensures
        instr matches Instr::Dec16(rr) ==> run(instr, m) == m.dec16(rr),
{
    reveal(run);
}

proof fn lemma_run_add_hl(instr: Instr, m: Machine)
    ensures
        instr matches Instr::AddHl(rr) ==> run(instr, m) == m.add_hl(rr),
{
    reveal(run);
}

proof fn lemma_run_add_sp_r8(instr: Instr, m: Machine)
    ensures
        instr is AddSpR8 ==> run(instr, m) == m.add_sp_r8(),
{
    reveal(run);
}

proof fn lemma_run_rlca(instr: Instr, m: Machine)
    ensures
        instr is Rlca ==> run(instr, m) == m.rlca(),
{
    reveal(run);
}

proof fn lemma_run_rrca(instr: Instr, m: Machine)
    ensures
        instr is Rrca ==> run(instr, m) == m.rrca(),
{
    reveal(run);
}

proof fn lemma_run_rla(instr: Instr, m: Machine)
    ensures
        instr is Rla ==> run(instr, m) == m.rla(),
{
    reveal(run);
}

proof fn lemma_run_rra(instr: Instr, m: Machine)
    ensures
        instr is Rra ==> run(instr, m) == m.rra(),
{
    reveal(run);
}

proof fn lemma_run_daa(instr: Instr, m: Machine)
    ensures
        instr is Daa ==> run(instr, m) == m.daa(),
{
    reveal(run);
}

proof fn lemma_run_cpl(instr: Instr, m: Machine)
    ensures
        instr is Cpl ==> run(instr, m) == m.cpl(),
{
    reveal(run);
}

proof fn lemma_run_scf(instr: Instr, m: Machine)
    ensures
        instr is Scf ==> run(instr, m) == m.scf(),
{
    reveal(run);
}

proof fn lemma_run_ccf(instr: Instr, m: Machine)
    ensures
        instr is Ccf ==> run(instr, m) == m.ccf(),
{
    reveal(run);
}

proof fn lemma_run_rot(instr: Instr, m: Machine)
    ensures
        instr matches Instr::Rot(op, r) ==> run(instr, m) == m.rot(op, r),
{
    reveal(run);
}

proof fn lemma_run_test_bit(instr: Instr, m: Machine)
    ensures
        instr matches Instr::TestBit(n, r) ==> run(instr, m) == m.test_bit(n, r),
{
    reveal(run);
}

proof fn lemma_run_res_bit(instr: Instr, m: Machine)
    ensures
        instr matches Instr::ResBit(n, r) ==> run(instr, m) == m.res_bit(n, r),
{
    reveal(run);
}

proof fn lemma_run_set_bit(instr: Instr, m: Machine)
    ensures
        instr matches Instr::SetBit(n, r) ==> run(instr, m) == m.set_bit(n, r),
{
    reveal(run);
}

proof fn lemma_run_jp(instr: Instr, m: Machine)
    ensures
        instr is Jp ==> run(instr, m) == m.jp(),
{
    reveal(run);
}

proof fn lemma_run_jp_cond(instr: Instr, m: Machine)
    ensures
        instr matches Instr::JpCond(cc) ==> run(instr, m) == m.jp_cond(cc),
{
    reveal(run);
}

proof fn lemma_run_jp_hl(instr: Instr, m: Machine)
    ensures
        instr is JpHl ==> run(instr, m) == m.jp_hl(),
{
    reveal(run);
}

proof fn lemma_run_jr(instr: Instr, m: Machine)
    ensures
        instr is Jr ==> run(instr, m) == m.jr(),
{
    reveal(run);
}

proof fn lemma_run_jr_cond(instr: Instr, m: Machine)
    ensures
        instr matches Instr::JrCond(cc) ==> run(instr, m) == m.jr_cond(cc),
{
    reveal(run);
}

proof fn lemma_run_call(instr: Instr, m: Machine)
    ensures
        instr is Call ==> run(instr, m) == m.call(),
{
    reveal(run);
}

proof fn lemma_run_call_cond(instr: Instr, m: Machine)
    ensures
        instr matches Instr::CallCond(cc) ==> run(instr, m) == m.call_cond(cc),
{
    reveal(run);
}

proof fn lemma_run_ret(instr: Instr, m: Machine)
    ensures
        instr is Ret ==> run(instr, m) == m.ret(),
{
    reveal(run);
}

proof fn lemma_run_ret_cond(instr: Instr, m: Machine)
    ensures
        instr matches Instr::RetCond(cc) ==> run(instr, m) == m.ret_cond(cc),
{
    reveal(run);
}

proof fn lemma_run_reti(instr: Instr, m: Machine)
    ensures
        instr is Reti ==> run(instr, m) == m.reti(),
{
    reveal(run);
}

proof fn lemma_run_rst(instr: Instr, m: Machine)
    ensures
        instr matches Instr::Rst(n) ==> run(instr, m) == m.rst(n),
{
    reveal(run);
}

proof fn lemma_run_push(instr: Instr, m: Machine)
    ensures
        instr matches Instr::Push(rr) ==> run(instr, m) == m.push(rr),
{
    reveal(run);
}

proof fn lemma_run_pop(instr: Instr, m: Machine)
    ensures
        instr matches Instr::Pop(rr) ==> run(instr, m) == m.pop(rr),
{
    reveal(run);
}

/// [`run`], one instruction at a time: what it is for each instruction.
pub proof fn lemma_run(instr: Instr, m: Machine)
    ensures
        instr is Nop ==> run(instr, m) == m.nop(),
        instr is Stop ==> run(instr, m) == m.stop(),
        instr is Halt ==> run(instr, m) == m.halt(),
        instr is Di ==> run(instr, m) == m.di(),
        instr is Ei ==> run(instr, m) == m.ei(),
        instr matches Instr::Ld(dst, src) ==> run(instr, m) == m.ld(dst, src),
        instr matches Instr::LdImm(dst) ==> run(instr, m) == m.ld_imm(dst),
        instr matches Instr::LdAFrom(ind) ==> run(instr, m) == m.ld_a_from(ind),
        instr matches Instr::LdToInd(ind) ==> run(instr, m) == m.ld_to_ind(ind),
        instr is LdAFromA16 ==> run(instr, m) == m.ld_a_from_a16(),
        instr is LdA16FromA ==> run(instr, m) == m.ld_a16_from_a(),
        instr is LdhAFromA8 ==> run(instr, m) == m.ldh_a_from_a8(),
        instr is LdhA8FromA ==> run(instr, m) == m.ldh_a8_from_a(),
        instr is LdAFromC ==> run(instr, m) == m.ld_a_from_c(),
        instr is LdCFromA ==> run(instr, m) == m.ld_c_from_a(),
        instr matches Instr::Ld16Imm(rr) ==> run(instr, m) == m.ld16_imm(rr),
        instr is LdA16Sp ==> run(instr, m) == m.ld_a16_sp(),
        instr is LdSpHl ==> run(instr, m) == m.ld_sp_hl(),
        instr is LdHlSpR8 ==> run(instr, m) == m.ld_hl_sp_r8(),
        instr matches Instr::Alu(op, src) ==> run(instr, m) == m.alu(op, src),
        instr matches Instr::AluImm(op) ==> run(instr, m) == m.alu_imm(op),
        instr matches Instr::Inc(r) ==> run(instr, m) == m.inc(r),
        instr matches Instr::Dec(r) ==> run(instr, m) == m.dec(r),
        instr matches Instr::Inc16(rr) ==> run(instr, m) == m.inc16(rr),
        instr matches Instr::Dec16(rr) ==> run(instr, m) == m.dec16(rr),
        instr matches Instr::AddHl(rr) ==> run(instr, m) == m.add_hl(rr),
        instr is AddSpR8 ==> run(instr, m) == m.add_sp_r8(),
        instr is Rlca ==> run(instr, m) == m.rlca(),
        instr is Rrca ==> run(instr, m) == m.rrca(),
        instr is Rla ==> run(instr, m) == m.rla(),
        instr is Rra ==> run(instr, m) == m.rra(),
        instr is Daa ==> run(instr, m) == m.daa(),
        instr is Cpl ==> run(instr, m) == m.cpl(),
        instr is Scf ==> run(instr, m) == m.scf(),
        instr is Ccf ==> run(instr, m) == m.ccf(),
        instr matches Instr::Rot(op, r) ==> run(instr, m) == m.rot(op, r),
        instr matches Instr::TestBit(n, r) ==> run(instr, m) == m.test_bit(n, r),
        instr matches Instr::ResBit(n, r) ==> run(instr, m) == m.res_bit(n, r),
        instr matches Instr::SetBit(n, r) ==> run(instr, m) == m.set_bit(n, r),
        instr is Jp ==> run(instr, m) == m.jp(),
        instr matches Instr::JpCond(cc) ==> run(instr, m) == m.jp_cond(cc),
        instr is JpHl ==> run(instr, m) == m.jp_hl(),
        instr is Jr ==> run(instr, m) == m.jr(),
        instr matches Instr::JrCond(cc) ==> run(instr, m) == m.jr_cond(cc),
        instr is Call ==> run(instr, m) == m.call(),
        instr matches Instr::CallCond(cc) ==> run(instr, m) == m.call_cond(cc),
        instr is Ret ==> run(instr, m) == m.ret(),
        instr matches Instr::RetCond(cc) ==> run(instr, m) == m.ret_cond(cc),
        instr is Reti ==> run(instr, m) == m.reti(),
        instr matches Instr::Rst(n) ==> run(instr, m) == m.rst(n),
        instr matches Instr::Push(rr) ==> run(instr, m) == m.push(rr),
        instr matches Instr::Pop(rr) ==> run(instr, m) == m.pop(rr),
{
    lemma_run_nop(instr, m);
    lemma_run_stop(instr, m);
    lemma_run_halt(instr, m);
    lemma_run_di(instr, m);
    lemma_run_ei(instr, m);
    lemma_run_ld(instr, m);
    lemma_run_ld_imm(instr, m);
    lemma_run_ld_a_from(instr, m);
    lemma_run_ld_to_ind(instr, m);
    lemma_run_ld_a_from_a16(instr, m);
    lemma_run_ld_a16_from_a(instr, m);
    lemma_run_ldh_a_from_a8(instr, m);
    lemma_run_ldh_a8_from_a(instr, m);
    lemma_run_ld_a_from_c(instr, m);
    lemma_run_ld_c_from_a(instr, m);
    lemma_run_ld16_imm(instr, m);
    lemma_run_ld_a16_sp(instr, m);
    lemma_run_ld_sp_hl(instr, m);
    lemma_run_ld_hl_sp_r8(instr, m);
    lemma_run_alu(instr, m);
    lemma_run_alu_imm(instr, m);
    lemma_run_inc(instr, m);
    lemma_run_dec(instr, m);
    lemma_run_inc16(instr, m);
    lemma_run_dec16(instr, m);
    lemma_run_add_hl(instr, m);
    lemma_run_add_sp_r8(instr, m);
    lemma_run_rlca(instr, m);
    lemma_run_rrca(instr, m);
    lemma_run_rla(instr, m);
    lemma_run_rra(instr, m);
    lemma_run_daa(instr, m);
    lemma_run_cpl(instr, m);
    lemma_run_scf(instr, m);
    lemma_run_ccf(instr, m);
    lemma_run_rot(instr, m);
    lemma_run_test_bit(instr, m);
    lemma_run_res_bit(instr, m);
    lemma_run_set_bit(instr, m);
    lemma_run_jp(instr, m);
    lemma_run_jp_cond(instr, m);
    lemma_run_jp_hl(instr, m);
    lemma_run_jr(instr, m);
    lemma_run_jr_cond(instr, m);
    lemma_run_call(instr, m);
    lemma_run_call_cond(instr, m);
    lemma_run_ret(instr, m);
    lemma_run_ret_cond(instr, m);
    lemma_run_reti(instr, m);
    lemma_run_rst(instr, m);
    lemma_run_push(instr, m);
    lemma_run_pop(instr, m);
}

/// Whether the instruction `instr` is a conditional branch that is taken
/// from a state with the flags `flags`.
pub open spec fn branch_taken(instr: Instr, flags: FlagRegister) -> bool {
    match instr {
        Instr::JpCond(cc) | Instr::JrCond(cc) | Instr::CallCond(cc) | Instr::RetCond(cc) => holds(
            cc,
            flags,
        ),
        _ => false,
    }
}

/// What the instruction `instr` costs in T-states from a state with the
/// flags `flags`: its base cost, and for a conditional branch that is
/// taken the extra cost of the branch.
pub open spec fn cycles_of(instr: Instr, flags: FlagRegister) -> u8 {
    if branch_taken(instr, flags) {
        (instr.base_cycles() + instr.taken_cycles()) as u8
    } else {
        instr.base_cycles()
    }
}

} // verus!
