//! Byte and bit helpers shared by the register file, the bus and the
//! instruction set.
//!
//! Contracts are stated arithmetically: bit `i` of a byte `x` is
//! `(x / 2^i) % 2`, the high byte of a word `w` is `w / 256` and its low
//! byte is `w % 256`. The bitwise implementations are tied to that reading
//! by the lemmas at the end of the file.

use vstd::prelude::*;

pub mod flag;

verus! {

/// The weight `2^i` of bit `i` of a byte; bit 0 is the least significant.
pub open spec fn bit_weight(i: int) -> int {
    if i == 0 {
        1
    } else if i == 1 {
        2
    } else if i == 2 {
        4
    } else if i == 3 {
        8
    } else if i == 4 {
        16
    } else if i == 5 {
        32
    } else if i == 6 {
        64
    } else {
        128
    }
}

/// Bit `i` of `x`, as 0 or 1.
pub open spec fn bit_at(x: u8, i: int) -> int {
    (x as int / bit_weight(i)) % 2
}

/// `x` with bit `i` replaced by `bit` (0 or 1).
pub open spec fn with_bit(x: u8, i: int, bit: int) -> int {
    x as int - bit_at(x, i) * bit_weight(i) + bit * bit_weight(i)
}

/// The word whose high byte is `hi` and whose low byte is `lo`.
pub open spec fn word_of(hi: u8, lo: u8) -> u16 {
    (hi as int * 256 + lo as int) as u16
}

/// The high byte of `w`.
pub open spec fn high_byte(w: u16) -> u8 {
    (w / 256) as u8
}

/// The low byte of `w`.
pub open spec fn low_byte(w: u16) -> u8 {
    (w % 256) as u8
}

/// The boolean `b` as the bit 0 or 1.
pub open spec fn bit_value(b: bool) -> int {
    if b {
        1
    } else {
        0
    }
}

/// A 16-bit word seen in the order in which its bytes are stored in memory,
/// low byte first: the leading ("most significant") position holds the low
/// byte of the value.
pub trait LittleEndian {
    /// The word that this value stands for.
    spec fn le_word(&self) -> u16;

    fn get_msb(&self) -> (byte: u8)
        ensures
            byte == low_byte(self.le_word()),
    ;

    fn get_lsb(&self) -> (byte: u8)
        ensures
            byte == high_byte(self.le_word()),
    ;

    fn set_msb(&mut self, byte: u8)
        ensures
            final(self).le_word() == word_of(high_byte(old(self).le_word()), byte),
    ;

    fn set_lsb(&mut self, byte: u8)
        ensures
            final(self).le_word() == word_of(byte, low_byte(old(self).le_word())),
    ;
}

/// A 16-bit word seen as a number: the most significant byte is the high
/// byte of the value.
pub trait BigEndian {
    /// The word that this value stands for.
    spec fn be_word(&self) -> u16;

    fn get_msb(&self) -> (byte: u8)
        ensures
            byte == high_byte(self.be_word()),
    ;

    fn get_lsb(&self) -> (byte: u8)
        ensures
            byte == low_byte(self.be_word()),
    ;

    fn set_msb(&mut self, byte: u8)
        ensures
            final(self).be_word() == word_of(byte, low_byte(old(self).be_word())),
    ;

    fn set_lsb(&mut self, byte: u8)
        ensures
            final(self).be_word() == word_of(high_byte(old(self).be_word()), byte),
    ;
}

impl LittleEndian for u16 {
    open spec fn le_word(&self) -> u16 {
        *self
    }

    fn get_msb(&self) -> (byte: u8) {
        proof {
            lemma_split_word(*self);
        }
        (*self & 0xFF) as u8
    }

    fn get_lsb(&self) -> (byte: u8) {
        proof {
            lemma_split_word(*self);
        }
        ((*self & 0xFF00) >> 8) as u8
    }

    fn set_msb(&mut self, byte: u8) {
        proof {
            lemma_replace_low(*self, byte);
        }
        *self &= 0xFF00;
        *self |= byte as u16;
    }

    fn set_lsb(&mut self, byte: u8) {
        proof {
            lemma_replace_high(*self, byte);
        }
        *self &= 0x00FF;
        *self |= (byte as u16) << 8;
    }
}

impl BigEndian for u16 {
    open spec fn be_word(&self) -> u16 {
        *self
    }

    fn get_lsb(&self) -> (byte: u8) {
        proof {
            lemma_split_word(*self);
        }
        (*self & 0xFF) as u8
    }

    fn get_msb(&self) -> (byte: u8) {
        proof {
            lemma_split_word(*self);
        }
        ((*self & 0xFF00) >> 8) as u8
    }

    fn set_lsb(&mut self, byte: u8) {
        proof {
            lemma_replace_low(*self, byte);
        }
        *self &= 0xFF00;
        *self |= byte as u16;
    }

    fn set_msb(&mut self, byte: u8) {
        proof {
            lemma_replace_high(*self, byte);
        }
        *self &= 0x00FF;
        *self |= (byte as u16) << 8;
    }
}

/// Access to the single bits of a byte; bit 0 is the least significant.
pub trait BitFlags {
    /// The byte that this value stands for.
    spec fn bits(&self) -> u8;

    fn get_bit(&self, bitno: usize) -> (bit: u8)
        requires
            bitno < 8,
        ensures
            bit == bit_at(self.bits(), bitno as int),
    ;

    fn set_bit(&mut self, bitno: usize, bit: u8)
        requires
            bitno < 8,
            bit <= 1,
        ensures
            final(self).bits() == with_bit(old(self).bits(), bitno as int, bit as int),
    ;

    fn flip_bit(&mut self, bitno: usize)
        requires
            bitno < 8,
        ensures
            final(self).bits() == with_bit(
                old(self).bits(),
                bitno as int,
                1 - bit_at(old(self).bits(), bitno as int),
            ),
    ;
}

impl BitFlags for u8 {
    open spec fn bits(&self) -> u8 {
        *self
    }

    fn get_bit(&self, bitno: usize) -> (bit: u8) {
        let n: u8 = bitno as u8;
        proof {
            lemma_bit_ops(*self, n, 0);
        }
        (*self >> n) & 0b1
    }

    fn set_bit(&mut self, bitno: usize, bit: u8) {
        let n: u8 = bitno as u8;
        proof {
            lemma_bit_ops(*self, n, bit);
        }
        *self = (*self & !(1u8 << n)) | (bit << n);
    }

    fn flip_bit(&mut self, bitno: usize) {
        let n: u8 = bitno as u8;
        proof {
            lemma_bit_ops(*self, n, 0);
        }
        let pushed: u8 = 1u8 << n;
        *self ^= pushed;
    }
}

/// Masking and shifting split a word into the bytes `w % 256` and `w / 256`.
pub proof fn lemma_split_word(w: u16)
    ensures
        (w & 0xFF) == w % 256,
        ((w & 0xFF00) >> 8) == w / 256,
        (w >> 8) == w / 256,
        w % 256 < 256,
        w / 256 < 256,
{
    assert((w & 0xFF) == w % 256) by (bit_vector);
    assert(((w & 0xFF00) >> 8) == w / 256) by (bit_vector);
    assert((w >> 8) == w / 256) by (bit_vector);
}

/// Shifting and or-ing join two bytes into the word `hi * 256 + lo`.
pub proof fn lemma_join_bytes(hi: u8, lo: u8)
    ensures
        ((hi as u16) << 8) | (lo as u16) == hi * 256 + lo,
        ((hi as u16) << 8) | (lo as u16) == word_of(hi, lo),
{
    assert(((hi as u16) << 8) | (lo as u16) == hi * 256 + lo) by (bit_vector);
}

/// Replacing the low byte of a word by mask and or.
pub proof fn lemma_replace_low(w: u16, byte: u8)
    ensures
        (w & 0xFF00) | (byte as u16) == word_of(high_byte(w), byte),
{
    assert((w & 0xFF00) | (byte as u16) == (w / 256) * 256 + byte) by (bit_vector);
}

/// Replacing the high byte of a word by mask and or.
pub proof fn lemma_replace_high(w: u16, byte: u8)
    ensures
        (w & 0x00FF) | ((byte as u16) << 8) == word_of(byte, low_byte(w)),
{
    assert((w & 0x00FF) | ((byte as u16) << 8) == byte * 256 + w % 256) by (bit_vector);
}

/// Reading, writing and toggling bit `n` of a byte by shifts and masks agree
/// with the arithmetic reading of [`bit_at`] and [`with_bit`].
pub proof fn lemma_bit_ops(x: u8, n: u8, bit: u8)
    requires
        n < 8,
        bit <= 1,
    ensures
        ((x >> n) & 1) == bit_at(x, n as int),
        ((x & !(1u8 << n)) | (bit << n)) == with_bit(x, n as int, bit as int),
        (x ^ (1u8 << n)) == with_bit(x, n as int, 1 - bit_at(x, n as int)),
        0 <= bit_at(x, n as int) <= 1,
{
    let w: u8 = 1u8 << n;
    assert(w == bit_weight(n as int)) by (bit_vector)
        requires
            w == 1u8 << n,
            n < 8,
    ;
    let b: u8 = (x >> n) & 1;
    assert(b == (x / w) % 2 && b <= 1) by (bit_vector)
        requires
            b == (x >> n) & 1,
            w == 1u8 << n,
            n < 8,
    ;
    assert(((x & !w) | (bit << n)) == x - b * w + bit * w) by (bit_vector)
        requires
            b == (x >> n) & 1,
            w == 1u8 << n,
            n < 8,
            bit <= 1,
    ;
    assert((x ^ w) == x - b * w + (1 - b) * w) by (bit_vector)
        requires
            b == (x >> n) & 1,
            w == 1u8 << n,
            n < 8,
    ;
}

} // verus!
