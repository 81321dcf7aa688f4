//! The call stack: return addresses, last in, first out.

use vstd::prelude::*;
use crate::error::Error;

verus! {

/// Stack of the return addresses of the subroutine calls in progress. Its
/// depth is not bounded.
pub struct CallStack {
    frames: Vec<u16>,
}

impl View for CallStack {
    type V = Seq<u16>;

    closed spec fn view(&self) -> Seq<u16> {
        self.frames@
    }
}

impl CallStack {
    /// An empty call stack.
    pub fn new() -> (stack: CallStack)
        ensures
            stack@ == Seq::<u16>::empty(),
    {
        CallStack { frames: Vec::new() }
    }

    /// Puts `return_address` on top.
    pub fn push(&mut self, return_address: u16)
        ensures
            final(self)@ == old(self)@.push(return_address),
    {
        self.frames.push(return_address);
    }

    /// Takes the most recently pushed address off, or changes nothing and
    /// reports `StackUnderflow` where the stack is empty.
    pub fn pop(&mut self) -> (top: Result<u16, Error>)
        ensures
            old(self)@.len() > 0 ==> top == Ok::<u16, Error>(old(self)@.last()) && final(self)@
                == old(self)@.drop_last(),
            old(self)@.len() == 0 ==> top == Err::<u16, Error>(Error::StackUnderflow)
                && final(self)@ == old(self)@,
    {
        match self.frames.pop() {
            Some(addr) => Ok(addr),
            None => Err(Error::StackUnderflow),
        }
    }

    /// Whether no call is in progress.
    pub fn is_empty(&self) -> (empty: bool)
        ensures
            empty == (self@.len() == 0),
    {
        self.frames.len() == 0
    }

    /// Number of addresses on the stack.
    pub fn depth(&self) -> (n: usize)
        ensures
            n == self@.len(),
    {
        self.frames.len()
    }
}

} // verus!
