//! The machine: processor, bus and picture unit under one owner, stepped
//! by whoever drives it.

pub mod cpu;
pub mod engine;
pub mod mmu;
pub mod operations;
pub mod ppu;
pub mod registers;
pub mod rom;

pub use crate::gameboy::engine::Gameboy;
