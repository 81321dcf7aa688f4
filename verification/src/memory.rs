//! The memory image: 4096 bytes, addressed from `0x000` to `0xFFF`.

use vstd::prelude::*;
use crate::error::Error;

verus! {

/// Number of bytes in the memory image.
pub const MEMORY_SIZE: usize = 4096;

/// The big-endian 16-bit word whose high byte is at `addr`.
pub open spec fn word_at(mem: Seq<u8>, addr: int) -> int {
    mem[addr] * 256 + mem[addr + 1]
}

/// `mem` with `bytes` copied in from `offset` on.
pub open spec fn loaded(mem: Seq<u8>, bytes: Seq<u8>, offset: int) -> Seq<u8> {
    Seq::new(
        mem.len(),
        |a: int|
            if offset <= a < offset + bytes.len() {
                bytes[a - offset]
            } else {
                mem[a]
            },
    )
}

/// Byte-addressable store of fixed size that holds program and data.
pub struct Memory {
    bytes: [u8; 4096],
}

impl View for Memory {
    type V = Seq<u8>;

    closed spec fn view(&self) -> Seq<u8> {
        self.bytes@
    }
}

impl Memory {
    /// Every memory image holds exactly `MEMORY_SIZE` bytes.
    pub proof fn lemma_size(&self)
        ensures
            self@.len() == MEMORY_SIZE,
    {
    }

    /// A memory image of zeros.
    pub fn new() -> (mem: Memory)
        ensures
            mem@ == Seq::new(MEMORY_SIZE as nat, |a: int| 0u8),
    {
        Memory { bytes: [0u8; 4096] }
    }

    /// Copies `bytes` into memory from `offset` on, or changes nothing and
    /// reports `LoadTooLarge` where they would reach past the end.
    pub fn load(&mut self, bytes: &[u8], offset: usize) -> (done: Result<(), Error>)
        ensures
            offset + bytes@.len() <= MEMORY_SIZE ==> done == Ok::<(), Error>(()) && final(self)@
                == loaded(old(self)@, bytes@, offset as int),
            offset + bytes@.len() > MEMORY_SIZE ==> done == Err::<(), Error>(Error::LoadTooLarge)
                && final(self)@ == old(self)@,
    {
        let n = bytes.len();
        if n > MEMORY_SIZE || offset > MEMORY_SIZE - n {
            return Err(Error::LoadTooLarge);
        }
        let mut k: usize = 0;
        while k < n
            invariant
                n == bytes@.len(),
                offset + n <= MEMORY_SIZE,
                k <= n,
                self@ == loaded(old(self)@, bytes@.take(k as int), offset as int),
            decreases n - k,
        {
            self.bytes[offset + k] = bytes[k];
            k = k + 1;
        }
        assert(bytes@.take(n as int) == bytes@);
        Ok(())
    }

    /// The byte at `addr`; `OutOfBounds` where `addr` is past the end.
    pub fn read_byte(&self, addr: usize) -> (byte: Result<u8, Error>)
        ensures
            addr < MEMORY_SIZE ==> byte == Ok::<u8, Error>(self@[addr as int]),
            addr >= MEMORY_SIZE ==> byte == Err::<u8, Error>(Error::OutOfBounds),
    {
        if addr < MEMORY_SIZE {
            Ok(self.bytes[addr])
        } else {
            Err(Error::OutOfBounds)
        }
    }

    /// Stores `value` at `addr`, or changes nothing and reports
    /// `OutOfBounds` where `addr` is past the end.
    pub fn write_byte(&mut self, addr: usize, value: u8) -> (done: Result<(), Error>)
        ensures
            addr < MEMORY_SIZE ==> done == Ok::<(), Error>(()) && final(self)@ == old(self)@.update(
                addr as int,
                value,
            ),
            addr >= MEMORY_SIZE ==> done == Err::<(), Error>(Error::OutOfBounds) && final(self)@
                == old(self)@,
    {
        if addr < MEMORY_SIZE {
            self.bytes[addr] = value;
            Ok(())
        } else {
            Err(Error::OutOfBounds)
        }
    }

    /// The big-endian word at `addr` and `addr + 1`; `OutOfBounds` where
    /// either byte is past the end.
    pub fn read_word_be(&self, addr: usize) -> (word: Result<u16, Error>)
        ensures
            addr + 1 < MEMORY_SIZE ==> word == Ok::<u16, Error>(word_at(self@, addr as int) as u16),
            addr + 1 >= MEMORY_SIZE ==> word == Err::<u16, Error>(Error::OutOfBounds),
    {
        if addr < MEMORY_SIZE - 1 {
            let hi = self.bytes[addr] as u16;
            let lo = self.bytes[addr + 1] as u16;
            Ok(hi * 256 + lo)
        } else {
            Err(Error::OutOfBounds)
        }
    }

    /// The `len` bytes from `addr` on; `OutOfBounds` where any of them is
    /// past the end. An empty range is in bounds wherever it starts.
    pub fn read_range(&self, addr: usize, len: usize) -> (bytes: Result<&[u8], Error>)
        ensures
            len == 0 ==> (bytes matches Ok(b) && b@ == Seq::<u8>::empty()),
            len > 0 && addr + len <= MEMORY_SIZE ==> (bytes matches Ok(b) && b@ == self@.subrange(
                addr as int,
                addr + len,
            )),
            len > 0 && addr + len > MEMORY_SIZE ==> bytes == Err::<&[u8], Error>(
                Error::OutOfBounds,
            ),
    {
        if len == 0 {
            Ok(vstd::slice::slice_subrange(self.bytes.as_slice(), 0, 0))
        } else if len <= MEMORY_SIZE && addr <= MEMORY_SIZE - len {
            Ok(vstd::slice::slice_subrange(self.bytes.as_slice(), addr, addr + len))
        } else {
            Err(Error::OutOfBounds)
        }
    }
}

} // verus!
