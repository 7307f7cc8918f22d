//! Bit positions of the four condition flags inside the F register.

use vstd::prelude::*;

verus! {

/// Zero flag: set when the result of an operation is zero.
pub const Z: usize = 7;

/// Subtract flag: set by subtractions and comparisons.
pub const N: usize = 6;

/// Half-carry flag: carry out of bit 3 (bit 11 for 16-bit additions).
pub const H: usize = 5;

/// Carry flag: carry out of bit 7 (bit 15 for 16-bit additions).
pub const C: usize = 4;

} // verus!
