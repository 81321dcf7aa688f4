//! The ways in which loading or running a program can fail.

use vstd::prelude::*;

verus! {

/// Kinds of failure.
#[derive(Clone, Copy, Debug, PartialEq, Eq, Structural)]
pub enum Error {
    /// The bytes to load do not fit between the load offset and the end of
    /// memory.
    LoadTooLarge,
    /// A memory access reached past the end of memory.
    OutOfBounds,
    /// A return was executed while the call stack was empty.
    StackUnderflow,
    /// The instruction word matches no known instruction.
    UnknownOpcode,
}

impl Error {
    /// Whether this failure stops the machine. Only an unknown opcode does
    /// not: it is skipped and execution goes on.
    pub open spec fn fatal(self) -> bool {
        self != Error::UnknownOpcode
    }

    /// Whether this failure stops the machine.
    pub fn is_fatal(&self) -> (fatal: bool)
        ensures
            fatal == self.fatal(),
    {
        match self {
            Error::UnknownOpcode => false,
            _ => true,
        }
    }
}

/// A failure raised while stepping, with the place where it happened.
#[derive(Clone, Copy, Debug, PartialEq, Eq, Structural)]
pub struct Fault {
    /// What went wrong.
    pub error: Error,
    /// The program counter of the instruction that failed.
    pub pc: u16,
    /// The instruction word, or 0 where none could be fetched.
    pub opcode: u16,
}

} // verus!
