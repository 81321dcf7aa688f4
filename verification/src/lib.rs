//! A CHIP-8 interpreter core: memory image, register file, call stack,
//! framebuffer and the fetch-decode-execute step, each with a verified contract.

pub mod error;
pub mod memory;
pub mod registers;
pub mod stack;
pub mod display;
pub mod instruction;
pub mod machine;
pub mod emu;
pub mod laws;
