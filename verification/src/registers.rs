//! The register file: sixteen byte registers, the address register and the
//! program counter.

use vstd::prelude::*;

verus! {

/// Number of general-purpose registers.
pub const REGISTER_COUNT: usize = 16;

/// Index of the register that doubles as the flag register.
pub const FLAG: usize = 15;

/// Address at which programs start.
pub const PROGRAM_START: u16 = 0x200;

/// The register that an index selects: its low four bits.
pub open spec fn reg_index(i: usize) -> int {
    (i % 16) as int
}

/// What a register file holds.
#[verifier::ext_equal]
pub struct RegistersView {
    /// The sixteen general registers, `V0` first.
    pub v: Seq<u8>,
    /// The address register `I`.
    pub i: u16,
    /// The program counter.
    pub pc: u16,
}

/// Register file of the machine.
pub struct Registers {
    v: [u8; 16],
    i: u16,
    pc: u16,
}

impl View for Registers {
    type V = RegistersView;

    closed spec fn view(&self) -> RegistersView {
        RegistersView { v: self.v@, i: self.i, pc: self.pc }
    }
}

impl Registers {
    /// Every register file holds exactly sixteen general registers.
    pub proof fn lemma_count(&self)
        ensures
            self@.v.len() == REGISTER_COUNT,
    {
    }

    /// A register file with every general register and `I` zero and the
    /// program counter at the program start.
    pub fn new() -> (regs: Registers)
        ensures
            regs@ == (RegistersView {
                v: Seq::new(REGISTER_COUNT as nat, |k: int| 0u8),
                i: 0,
                pc: PROGRAM_START,
            }),
    {
        Registers { v: [0u8; 16], i: 0, pc: PROGRAM_START }
    }

    /// Mutable access to the general register that `i` selects. Whatever the
    /// caller leaves in it is the only change to the register file.
    pub fn reg_for(&mut self, i: usize) -> (reg: &mut u8)
        ensures
            *reg == old(self)@.v[reg_index(i)],
            final(self)@ == (RegistersView {
                v: old(self)@.v.update(reg_index(i), *final(reg)),
                ..old(self)@
            }),
    {
        let k = i & 0xf;
        assert(k == i % 16) by (bit_vector)
            requires
                k == i & 0xf,
        ;
        &mut self.v[k]
    }

    /// The value of the general register that `i` selects.
    pub fn get(&self, i: usize) -> (value: u8)
        ensures
            value == self@.v[reg_index(i)],
    {
        self.v[i % 16]
    }

    /// Sets the general register that `i` selects to `value`.
    pub fn set(&mut self, i: usize, value: u8)
        ensures
            final(self)@ == (RegistersView {
                v: old(self)@.v.update(reg_index(i), value),
                ..old(self)@
            }),
    {
        *self.reg_for(i) = value;
    }

    /// The first `count` general registers, `V0` first; all sixteen where
    /// `count` is larger.
    pub fn prefix(&self, count: usize) -> (values: &[u8])
        ensures
            values@ == self@.v.take(
                if count <= REGISTER_COUNT {
                    count as int
                } else {
                    REGISTER_COUNT as int
                },
            ),
    {
        let count = if count <= REGISTER_COUNT {
            count
        } else {
            REGISTER_COUNT
        };
        vstd::slice::slice_subrange(self.v.as_slice(), 0, count)
    }

    /// The value of the flag register, `VF`.
    pub fn flag(&self) -> (value: u8)
        ensures
            value == self@.v[FLAG as int],
    {
        self.v[FLAG]
    }

    /// Sets the flag register, `VF`, to `value`.
    pub fn set_flag(&mut self, value: u8)
        ensures
            final(self)@ == (RegistersView {
                v: old(self)@.v.update(FLAG as int, value),
                ..old(self)@
            }),
    {
        self.v[FLAG] = value;
    }

    /// The address register `I`.
    pub fn index(&self) -> (value: u16)
        ensures
            value == self@.i,
    {
        self.i
    }

    /// Sets the address register `I`.
    pub fn set_index(&mut self, value: u16)
        ensures
            final(self)@ == (RegistersView { i: value, ..old(self)@ }),
    {
        self.i = value;
    }

    /// The program counter.
    pub fn pc(&self) -> (value: u16)
        ensures
            value == self@.pc,
    {
        self.pc
    }

    /// Sets the program counter.
    pub fn set_pc(&mut self, value: u16)
        ensures
            final(self)@ == (RegistersView { pc: value, ..old(self)@ }),
    {
        self.pc = value;
    }
}

} // verus!
