//! The execution engine of an emulator for a handheld console built around
//! an 8-bit LR35902-style processor: register file, memory bus, picture
//! processing unit, instruction decoder and the fetch-execute loop, together
//! with the text tools that a debugger front-end needs.

pub mod bitty;
pub mod gameboy;
pub mod graphics;
pub mod debugger;
pub mod text;
