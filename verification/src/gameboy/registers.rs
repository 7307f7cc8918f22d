//! The register file: seven 8-bit registers, the four condition flags, the
//! 16-bit pair views over them, and the two address registers.

use vstd::prelude::*;
use crate::bitty::{
    bit_at, bit_value, high_byte, lemma_join_bytes, lemma_split_word, low_byte, word_of, BitFlags,
};
use crate::bitty::flag;

verus! {

/// The four condition flags. Together they are the F register, whose low
/// nibble always reads as zero.
#[derive(Clone, Copy, Debug, PartialEq, Eq, Structural)]
pub struct FlagRegister {
    pub z: bool,
    pub n: bool,
    pub h: bool,
    pub c: bool,
}

/// The bit 0 or 1 for a flag.
fn flag_bit(b: bool) -> (bit: u8)
    ensures
        bit == bit_value(b),
{
    if b {
        1
    } else {
        0
    }
}

impl FlagRegister {
    /// The flags as the byte F: Z in bit 7, N in bit 6, H in bit 5, C in
    /// bit 4, and zeros below.
    pub open spec fn byte(self) -> u8 {
        (128 * bit_value(self.z) + 64 * bit_value(self.n) + 32 * bit_value(self.h) + 16
            * bit_value(self.c)) as u8
    }

    /// The flags that the byte `byte` holds in its high nibble.
    pub open spec fn of_byte(byte: u8) -> FlagRegister {
        FlagRegister {
            z: bit_at(byte, 7) == 1,
            n: bit_at(byte, 6) == 1,
            h: bit_at(byte, 5) == 1,
            c: bit_at(byte, 4) == 1,
        }
    }

    pub fn new() -> (flags: FlagRegister)
        ensures
            flags == (FlagRegister { z: false, n: false, h: false, c: false }),
    {
        FlagRegister { z: false, n: false, h: false, c: false }
    }

    pub fn as_u8(&self) -> (byte: u8)
        ensures
            byte == self.byte(),
            byte % 16 == 0,
    {
        let mut flags: u8 = 0;
        flags.set_bit(flag::Z, flag_bit(self.z));
        flags.set_bit(flag::N, flag_bit(self.n));
        flags.set_bit(flag::H, flag_bit(self.h));
        flags.set_bit(flag::C, flag_bit(self.c));
        flags
    }

    pub fn set_u8(&mut self, byte: u8)
        ensures
            *final(self) == FlagRegister::of_byte(byte),
    {
        self.z = byte.get_bit(flag::Z) == 1;
        self.n = byte.get_bit(flag::N) == 1;
        self.h = byte.get_bit(flag::H) == 1;
        self.c = byte.get_bit(flag::C) == 1;
    }
}

/// The register file.
#[derive(Clone, Copy, Debug, PartialEq, Eq, Structural)]
pub struct Registers {
    pub b: u8,
    pub c: u8,
    pub d: u8,
    pub e: u8,
    pub h: u8,
    pub l: u8,
    pub a: u8,
    pub flags: FlagRegister,
    pub sp: u16,
    pub pc: u16,
}

impl Registers {
    /// The pair BC: B is the high byte.
    pub open spec fn spec_bc(&self) -> u16 {
        word_of(self.b, self.c)
    }

    /// The pair DE: D is the high byte.
    pub open spec fn spec_de(&self) -> u16 {
        word_of(self.d, self.e)
    }

    /// The pair HL: H is the high byte.
    pub open spec fn spec_hl(&self) -> u16 {
        word_of(self.h, self.l)
    }

    /// The pair AF: A is the high byte, the flags are the low byte.
    pub open spec fn spec_af(&self) -> u16 {
        word_of(self.a, self.flags.byte())
    }

    /// These registers with BC holding `val`.
    pub open spec fn with_bc(self, val: u16) -> Registers {
        Registers { b: high_byte(val), c: low_byte(val), ..self }
    }

    /// These registers with DE holding `val`.
    pub open spec fn with_de(self, val: u16) -> Registers {
        Registers { d: high_byte(val), e: low_byte(val), ..self }
    }

    /// These registers with HL holding `val`.
    pub open spec fn with_hl(self, val: u16) -> Registers {
        Registers { h: high_byte(val), l: low_byte(val), ..self }
    }

    /// These registers after AF is written with `val`: A takes the high
    /// byte, the flags take the upper nibble of the low byte.
    pub open spec fn with_af(self, val: u16) -> Registers {
        Registers { a: high_byte(val), flags: FlagRegister::of_byte(low_byte(val)), ..self }
    }

    /// The state after reset: the stack pointer at 0xFFFE, everything else
    /// zero and every flag clear.
    pub open spec fn initial() -> Registers {
        Registers {
            b: 0,
            c: 0,
            d: 0,
            e: 0,
            h: 0,
            l: 0,
            a: 0,
            flags: FlagRegister { z: false, n: false, h: false, c: false },
            sp: 0xFFFE,
            pc: 0x0000,
        }
    }

    pub fn new() -> (regs: Registers)
        ensures
            regs == Registers::initial(),
    {
        Registers {
            b: 0,
            c: 0,
            d: 0,
            e: 0,
            h: 0,
            l: 0,
            a: 0,
            flags: FlagRegister::new(),
            sp: 0xFFFE,
            pc: 0x0000,
        }
    }

    #[verifier::when_used_as_spec(spec_bc)]
    pub fn bc(&self) -> (pair: u16)
        ensures
            pair == self.spec_bc(),
    {
        proof {
            lemma_join_bytes(self.b, self.c);
        }
        let mut bc: u16 = (self.b as u16) << 8;
        bc |= self.c as u16;
        bc
    }

    #[verifier::when_used_as_spec(spec_de)]
    pub fn de(&self) -> (pair: u16)
        ensures
            pair == self.spec_de(),
    {
        proof {
            lemma_join_bytes(self.d, self.e);
        }
        let mut de: u16 = (self.d as u16) << 8;
        de |= self.e as u16;
        de
    }

    #[verifier::when_used_as_spec(spec_hl)]
    pub fn hl(&self) -> (pair: u16)
        ensures
            pair == self.spec_hl(),
    {
        proof {
            lemma_join_bytes(self.h, self.l);
        }
        let mut hl: u16 = (self.h as u16) << 8;
        hl |= self.l as u16;
        hl
    }

    #[verifier::when_used_as_spec(spec_af)]
    pub fn af(&self) -> (pair: u16)
        ensures
            pair == self.spec_af(),
            pair % 16 == 0,
    {
        let f: u8 = self.flags.as_u8();
        proof {
            lemma_join_bytes(self.a, f);
        }
        let mut af: u16 = (self.a as u16) << 8;
        af |= f as u16;
        af
    }

    pub fn set_bc(&mut self, val: u16)
        ensures
            *final(self) == old(self).with_bc(val),
    {
        proof {
            lemma_split_word(val);
        }
        self.b = ((val & 0xFF00) >> 8) as u8;
        self.c = (val & 0xFF) as u8;
    }

    pub fn set_de(&mut self, val: u16)
        ensures
            *final(self) == old(self).with_de(val),
    {
        proof {
            lemma_split_word(val);
        }
        self.d = ((val & 0xFF00) >> 8) as u8;
        self.e = (val & 0xFF) as u8;
    }

    pub fn set_hl(&mut self, val: u16)
        ensures
            *final(self) == old(self).with_hl(val),
    {
        proof {
            lemma_split_word(val);
        }
        self.h = ((val & 0xFF00) >> 8) as u8;
        self.l = (val & 0xFF) as u8;
    }

    pub fn set_af(&mut self, val: u16)
        ensures
            *final(self) == old(self).with_af(val),
    {
        proof {
            lemma_split_word(val);
        }
        self.a = ((val & 0xFF00) >> 8) as u8;
        self.flags.set_u8((val & 0xFF) as u8);
    }

    /// Grows the stack by one byte. The stack grows towards lower
    /// addresses, so the stack pointer goes down; it wraps at zero.
    pub fn inc_sp(&mut self)
        ensures
            *final(self) == (Registers { sp: old(self).sp.wrapping_sub(1), ..*old(self) }),
    {
        self.sp = self.sp.wrapping_sub(1);
    }

    /// Shrinks the stack by one byte: the stack pointer goes up; it wraps
    /// at 0xFFFF.
    pub fn dec_sp(&mut self)
        ensures
            *final(self) == (Registers { sp: old(self).sp.wrapping_add(1), ..*old(self) }),
    {
        self.sp = self.sp.wrapping_add(1);
    }
}

/// Reading any of BC, DE and HL after writing it gives the written word
/// back. For AF it gives the word with its lowest four bits cleared.
pub proof fn lemma_pair_round_trip(regs: Registers, v: u16)
    ensures
        regs.with_bc(v).spec_bc() == v,
        regs.with_de(v).spec_de() == v,
        regs.with_hl(v).spec_hl() == v,
        regs.with_af(v).spec_af() == v & 0xFFF0,
{
    let f = FlagRegister::of_byte(low_byte(v));
    let lo = low_byte(v);
    assert(128 * ((lo / 128) % 2) + 64 * ((lo / 64) % 2) + 32 * ((lo / 32) % 2) + 16 * ((lo / 16)
        % 2) == lo - lo % 16) by (bit_vector);
    assert(f.byte() == lo - lo % 16);
    assert(v & 0xFFF0 == v - v % 16) by (bit_vector);
}

} // verus!
