//! What a debugger front-end needs besides the engine: the commands of its
//! prompt, and the listing of a program.

pub mod command;
pub mod dis;
pub mod prompt;
pub mod session;

pub use crate::debugger::command::str_to_u16;
pub use crate::debugger::prompt::parse_input;
