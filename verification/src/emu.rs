//! The interpreter: owns memory, registers, call stack and framebuffer, and
//! executes one instruction per step.

use vstd::prelude::*;
use crate::display::Display;
use crate::error::{Error, Fault};
use crate::instruction::{decode, lemma_decode_well_formed, Instruction};
use crate::machine::{
    carry, decimal_digits, doubled, glyph_address, halved, highest_bit, index_sum, lowest_bit,
    no_borrow, wrapping_difference, wrapping_sum, Input, Machine, State, GLYPH_SIZE,
};
use crate::memory::{loaded, Memory, MEMORY_SIZE};
use crate::registers::{Registers, PROGRAM_START};
use crate::stack::CallStack;

verus! {

/// Largest number of bytes that a program can have.
pub const PROGRAM_LIMIT: usize = 3584;

/// An interpreter. It owns all of its state; nothing changes it but its own
/// methods.
pub struct Emu {
    regs: Registers,
    mem: Memory,
    stack: CallStack,
    display: Display,
    delay: u8,
    sound: u8,
    state: State,
}

impl View for Emu {
    type V = Machine;

    closed spec fn view(&self) -> Machine {
        Machine {
            v: self.regs@.v,
            i: self.regs@.i,
            pc: self.regs@.pc,
            mem: self.mem@,
            stack: self.stack@,
            pixels: self.display@,
            delay: self.delay,
            sound: self.sound,
            state: self.state,
        }
    }
}

/// The sum of `a` and `b` modulo 256, and the carry.
fn add_with_carry(a: u8, b: u8) -> (sum: (u8, u8))
    ensures
        sum.0 == wrapping_sum(a, b),
        sum.1 == carry(a, b),
{
    reveal(wrapping_sum);
    let wide = a as u16 + b as u16;
    if wide > 255 {
        ((wide - 256) as u8, 1)
    } else {
        (wide as u8, 0)
    }
}

/// The difference of `a` and `b` modulo 256, and 1 if nothing had to be
/// borrowed, else 0.
fn sub_with_borrow(a: u8, b: u8) -> (difference: (u8, u8))
    ensures
        difference.0 == wrapping_difference(a, b),
        difference.1 == no_borrow(a, b),
{
    reveal(wrapping_difference);
    if a >= b {
        (a - b, 1)
    } else {
        ((256 - (b - a) as u16) as u8, 0)
    }
}

/// `a` shifted right by one, and the bit shifted out.
fn shift_right(a: u8) -> (shifted: (u8, u8))
    ensures
        shifted.0 == halved(a),
        shifted.1 == lowest_bit(a),
{
    reveal(halved);
    reveal(lowest_bit);
    assert(a >> 1 == a / 2 && a & 1 == a % 2) by (bit_vector);
    (a >> 1, a & 1)
}

/// `a` shifted left by one, and the bit shifted out.
fn shift_left(a: u8) -> (shifted: (u8, u8))
    ensures
        shifted.0 == doubled(a),
        shifted.1 == highest_bit(a),
{
    reveal(doubled);
    reveal(highest_bit);
    assert(a << 1 == (a * 2) % 256 && a >> 7 == a / 128) by (bit_vector);
    (a << 1, a >> 7)
}

/// `index + offset`, wrapped at 16 bits.
fn add_to_index(index: u16, offset: u8) -> (sum: u16)
    ensures
        sum == index_sum(index, offset),
{
    reveal(index_sum);
    ((index as u32 + offset as u32) % 0x1_0000) as u16
}

/// The address of the glyph for the low nibble of `digit`.
fn glyph_for(digit: u8) -> (addr: u16)
    ensures
        addr == glyph_address(digit),
{
    reveal(glyph_address);
    GLYPH_SIZE * (digit % 16) as u16
}

/// The three decimal digits of `value`: hundreds, tens, ones.
fn digits_of(value: u8) -> (digits: [u8; 3])
    ensures
        digits@ == decimal_digits(value),
{
    reveal(decimal_digits);
    let digits = [value / 100, (value / 10) % 10, value % 10];
    assert(digits@ =~= decimal_digits(value));
    digits
}

/// 1 if `set`, else 0.
fn flag_of(set: bool) -> (flag: u8)
    ensures
        flag == (if set {
            1u8
        } else {
            0u8
        }),
{
    if set {
        1
    } else {
        0
    }
}

impl Emu {
    /// Registers, memory and grid of every interpreter have their fixed
    /// sizes.
    pub proof fn lemma_wf(&self)
        ensures
            self@.wf(),
    {
        self.regs.lemma_count();
        self.mem.lemma_size();
        self.display.lemma_size();
    }

    /// A fresh interpreter.
    pub fn new() -> (emu: Emu)
        ensures
            emu@ == Machine::initial(),
    {
        Emu {
            regs: Registers::new(),
            mem: Memory::new(),
            stack: CallStack::new(),
            display: Display::new(),
            delay: 0,
            sound: 0,
            state: State::Running,
        }
    }

    /// Copies `bytes` into memory from `offset` on, or changes nothing and
    /// reports `LoadTooLarge` where they would reach past the end. This is
    /// how data other than the program, such as glyphs, gets into memory.
    pub fn load(&mut self, bytes: &[u8], offset: usize) -> (done: Result<(), Error>)
        ensures
            offset + bytes@.len() <= MEMORY_SIZE ==> done == Ok::<(), Error>(()) && final(self)@
                == (Machine { mem: loaded(old(self)@.mem, bytes@, offset as int), ..old(self)@ }),
            offset + bytes@.len() > MEMORY_SIZE ==> done == Err::<(), Error>(Error::LoadTooLarge)
                && final(self)@ == old(self)@,
    {
        self.mem.load(bytes, offset)
    }

    /// Copies `program` into memory at the program start, or changes
    /// nothing and reports `LoadTooLarge` where it has more than
    /// `PROGRAM_LIMIT` bytes.
    pub fn load_program(&mut self, program: &[u8]) -> (done: Result<(), Error>)
        ensures
            program@.len() <= PROGRAM_LIMIT ==> done == Ok::<(), Error>(()) && final(self)@ == (
            Machine { mem: loaded(old(self)@.mem, program@, PROGRAM_START as int), ..old(self)@ }),
            program@.len() > PROGRAM_LIMIT ==> done == Err::<(), Error>(Error::LoadTooLarge)
                && final(self)@ == old(self)@,
    {
        self.load(program, PROGRAM_START as usize)
    }

    /// Sets the program counter and leaves the machine running.
    fn proceed(&mut self, pc: u16)
        ensures
            final(self)@ == (Machine { pc, state: State::Running, ..old(self)@ }),
    {
        self.regs.set_pc(pc);
        self.state = State::Running;
    }

    /// Goes on to the next instruction.
    fn advance(&mut self)
        requires
            old(self)@.pc + 2 <= u16::MAX,
        ensures
            final(self)@ == (Machine {
                pc: (old(self)@.pc + 2) as u16,
                state: State::Running,
                ..old(self)@
            }),
    {
        let pc = self.regs.pc();
        self.proceed(pc + 2);
    }

    /// `00EE`, `0NNN`, `2NNN`, `1NNN`, `BNNN`: the instructions that set the
    /// program counter.
    fn transfer(&mut self, ins: Instruction) -> (done: Result<(), Error>)
        requires
            ins.well_formed(),
            old(self)@.pc + 2 <= u16::MAX,
            ins is Return || ins is Call || ins is Jump || ins is JumpOffset,
        ensures
            done == (match old(self)@.fault_of(ins) {
                Some(error) => Err::<(), Error>(error),
                None => Ok::<(), Error>(()),
            }),
            done is Err ==> final(self)@ == old(self)@,
            done is Ok ==> forall|input: Input|
                final(self)@ == #[trigger] old(self)@.execute(ins, input),
    {
        proof {
            self.regs.lemma_count();
        }
        let pc = self.regs.pc();
        let target = match ins {
            Instruction::Return => match self.stack.pop() {
                Ok(addr) => addr,
                Err(error) => {
                    return Err(error);
                },
            },
            Instruction::Call { addr } => {
                self.stack.push(pc + 2);
                addr
            },
            Instruction::Jump { addr } => addr,
            Instruction::JumpOffset { addr } => addr + self.regs.get(0) as u16,
            _ => pc,
        };
        self.proceed(target);
        Ok(())
    }

    /// `3XNN`, `4XNN`, `5XY0`, `9XY0`, `EX9E`, `EXA1`: the instructions that
    /// may skip the next one.
    fn skip(&mut self, ins: Instruction, input: &Input)
        requires
            ins.well_formed(),
            old(self)@.pc + 4 <= u16::MAX,
            ins is SkipIfEqual || ins is SkipIfNotEqual || ins is SkipIfRegistersEqual
                || ins is SkipIfRegistersNotEqual || ins is SkipIfKeyDown || ins is SkipIfKeyUp,
        ensures
            final(self)@ == old(self)@.execute(ins, *input),
    {
        proof {
            self.regs.lemma_count();
        }
        let skip = match ins {
            Instruction::SkipIfEqual { x, value } => self.regs.get(x) == value,
            Instruction::SkipIfNotEqual { x, value } => self.regs.get(x) != value,
            Instruction::SkipIfRegistersEqual { x, y } => self.regs.get(x) == self.regs.get(y),
            Instruction::SkipIfRegistersNotEqual { x, y } => self.regs.get(x) != self.regs.get(y),
            Instruction::SkipIfKeyDown { x } => input.is_key_down(self.regs.get(x)),
            Instruction::SkipIfKeyUp { x } => input.is_key_up(self.regs.get(x)),
            _ => false,
        };
        let pc = self.regs.pc();
        self.proceed(
            if skip {
                pc + 4
            } else {
                pc + 2
            },
        );
    }

    /// `6XNN`, `7XNN`, `8XY0` to `8XY3`, `CXNN`, `FX07`: the instructions
    /// that write `VX` and nothing else.
    fn assign(&mut self, ins: Instruction, input: &Input)
        requires
            ins.well_formed(),
            old(self)@.pc + 2 <= u16::MAX,
            ins is Load || ins is Add || ins is Move || ins is Or || ins is And || ins is Xor
                || ins is Random || ins is ReadDelay,
        ensures
            final(self)@ == old(self)@.execute(ins, *input),
    {
        proof {
            self.regs.lemma_count();
        }
        let (x, value) = match ins {
            Instruction::Load { x, value } => (x, value),
            Instruction::Add { x, value } => (x, add_with_carry(self.regs.get(x), value).0),
            Instruction::Move { x, y } => (x, self.regs.get(y)),
            Instruction::Or { x, y } => (x, self.regs.get(x) | self.regs.get(y)),
            Instruction::And { x, y } => (x, self.regs.get(x) & self.regs.get(y)),
            Instruction::Xor { x, y } => (x, self.regs.get(x) ^ self.regs.get(y)),
            Instruction::Random { x, mask } => (x, input.random & mask),
            Instruction::ReadDelay { x } => (x, self.delay),
            _ => (0, self.regs.get(0)),
        };
        self.regs.set(x, value);
        self.advance();
    }

    /// `8XY4` to `8XY7`, `8XYE`: the instructions that write `VX` and then
    /// the flag register.
    fn arithmetic(&mut self, ins: Instruction)
        requires
            ins.well_formed(),
            old(self)@.pc + 2 <= u16::MAX,
            ins is AddRegister || ins is Subtract || ins is ShiftRight || ins is SubtractFrom
                || ins is ShiftLeft,
        ensures
            forall|input: Input| final(self)@ == #[trigger] old(self)@.execute(ins, input),
    {
        proof {
            self.regs.lemma_count();
        }
        let (x, (value, flag)) = match ins {
            Instruction::AddRegister { x, y } => (
                x,
                add_with_carry(self.regs.get(x), self.regs.get(y)),
            ),
            Instruction::Subtract { x, y } => (
                x,
                sub_with_borrow(self.regs.get(x), self.regs.get(y)),
            ),
            Instruction::ShiftRight { x } => (x, shift_right(self.regs.get(x))),
            Instruction::SubtractFrom { x, y } => (
                x,
                sub_with_borrow(self.regs.get(y), self.regs.get(x)),
            ),
            Instruction::ShiftLeft { x } => (x, shift_left(self.regs.get(x))),
            _ => (0, (self.regs.get(0), self.regs.flag())),
        };
        self.regs.set(x, value);
        self.regs.set_flag(flag);
        self.advance();
    }

    /// `ANNN`, `FX1E`, `FX29`: the instructions that write `I`.
    fn address(&mut self, ins: Instruction)
        requires
            ins.well_formed(),
            old(self)@.pc + 2 <= u16::MAX,
            ins is LoadIndex || ins is AddIndex || ins is Glyph,
        ensures
            forall|input: Input| final(self)@ == #[trigger] old(self)@.execute(ins, input),
    {
        proof {
            self.regs.lemma_count();
        }
        let index = match ins {
            Instruction::LoadIndex { addr } => addr,
            Instruction::AddIndex { x } => add_to_index(self.regs.index(), self.regs.get(x)),
            Instruction::Glyph { x } => glyph_for(self.regs.get(x)),
            _ => self.regs.index(),
        };
        self.regs.set_index(index);
        self.advance();
    }

    /// `FX15`, `FX18`: the instructions that set a timer.
    fn set_timer(&mut self, ins: Instruction)
        requires
            ins.well_formed(),
            old(self)@.pc + 2 <= u16::MAX,
            ins is SetDelay || ins is SetSound,
        ensures
            forall|input: Input| final(self)@ == #[trigger] old(self)@.execute(ins, input),
    {
        proof {
            self.regs.lemma_count();
        }
        match ins {
            Instruction::SetDelay { x } => {
                self.delay = self.regs.get(x);
            },
            Instruction::SetSound { x } => {
                self.sound = self.regs.get(x);
            },
            _ => {},
        }
        self.advance();
    }

    /// `FX0A`: takes the key press that is handed in, or waits for one.
    fn wait_key(&mut self, x: usize, input: &Input)
        requires
            x < 16,
            old(self)@.pc + 2 <= u16::MAX,
        ensures
            final(self)@ == old(self)@.execute(Instruction::WaitKey { x }, *input),
    {
        match input.pressed_key() {
            Some(key) => {
                self.regs.set(x, key);
                self.advance();
            },
            None => {
                self.state = State::AwaitingKey;
            },
        }
    }

    /// `FX33`, `FX55`, `FX65`: the instructions that copy between registers
    /// and memory at `I`.
    fn transfer_memory(&mut self, ins: Instruction) -> (done: Result<(), Error>)
        requires
            ins.well_formed(),
            old(self)@.pc + 2 <= u16::MAX,
            ins is Bcd || ins is Store || ins is Restore,
        ensures
            done == (match old(self)@.fault_of(ins) {
                Some(error) => Err::<(), Error>(error),
                None => Ok::<(), Error>(()),
            }),
            done is Err ==> final(self)@ == old(self)@,
            done is Ok ==> forall|input: Input|
                final(self)@ == #[trigger] old(self)@.execute(ins, input),
    {
        proof {
            self.regs.lemma_count();
            self.mem.lemma_size();
        }
        let base = self.regs.index() as usize;
        match ins {
            Instruction::Bcd { x } => {
                let digits = digits_of(self.regs.get(x));
                if self.mem.load(digits.as_slice(), base).is_err() {
                    return Err(Error::OutOfBounds);
                }
            },
            Instruction::Store { x } => {
                if self.mem.load(self.regs.prefix(x + 1), base).is_err() {
                    return Err(Error::OutOfBounds);
                }
            },
            Instruction::Restore { x } => {
                let bytes = match self.mem.read_range(base, x + 1) {
                    Ok(bytes) => bytes,
                    Err(error) => {
                        return Err(error);
                    },
                };
                let ghost before = self@;
                let mut k: usize = 0;
                while k <= x
                    invariant
                        x < 16,
                        k <= x + 1,
                        base == before.i,
                        base + x < MEMORY_SIZE,
                        before.mem.len() == MEMORY_SIZE,
                        before.v.len() == 16,
                        bytes@ == before.mem.subrange(base as int, base + x + 1),
                        self@ == (Machine { v: self@.v, ..before }),
                        self@.v.len() == 16,
                        forall|j: int|
                            0 <= j < 16 ==> self@.v[j] == (if j < k {
                                before.mem[base + j]
                            } else {
                                before.v[j]
                            }),
                    decreases x + 1 - k,
                {
                    self.regs.set(k, bytes[k]);
                    k = k + 1;
                }
                assert(self@.v =~= Seq::new(
                    before.v.len(),
                    |j: int|
                        if j <= x {
                            before.mem[before.i + j]
                        } else {
                            before.v[j]
                        },
                ));
            },
            _ => {},
        }
        self.advance();
        Ok(())
    }

    /// `DXYN`: draws the sprite of `rows` bytes at `I` to `(VX, VY)` and
    /// sets the flag register to tell of a collision.
    fn draw(&mut self, x: usize, y: usize, rows: u8) -> (done: Result<(), Error>)
        requires
            x < 16,
            y < 16,
            old(self)@.pc + 2 <= u16::MAX,
        ensures
            done == (match old(self)@.fault_of(Instruction::Draw { x, y, rows }) {
                Some(error) => Err::<(), Error>(error),
                None => Ok::<(), Error>(()),
            }),
            done is Err ==> final(self)@ == old(self)@,
            done is Ok ==> forall|input: Input|
                final(self)@ == #[trigger] old(self)@.execute(
                    Instruction::Draw { x, y, rows },
                    input,
                ),
    {
        proof {
            self.regs.lemma_count();
        }
        let base = self.regs.index() as usize;
        let sprite = match self.mem.read_range(base, rows as usize) {
            Ok(sprite) => sprite,
            Err(error) => {
                return Err(error);
            },
        };
        let collision = self.display.draw(self.regs.get(x), self.regs.get(y), sprite);
        self.regs.set_flag(flag_of(collision));
        self.advance();
        Ok(())
    }

    /// Executes `ins`, found at the program counter. A fatal failure
    /// changes nothing.
    fn execute(&mut self, ins: Instruction, input: &Input) -> (done: Result<(), Error>)
        requires
            ins.well_formed(),
            old(self)@.pc + 1 < MEMORY_SIZE,
        ensures
            done == (match old(self)@.fault_of(ins) {
                Some(error) => Err::<(), Error>(error),
                None => Ok::<(), Error>(()),
            }),
            done matches Err(error) && error.fatal() ==> final(self)@ == old(self)@,
            !(done matches Err(error) && error.fatal()) ==> final(self)@ == old(self)@.execute(
                ins,
                *input,
            ),
    {
        match ins {
            Instruction::ClearScreen => {
                self.display.clear();
                self.advance();
                Ok(())
            },
            Instruction::Return
            | Instruction::Call { .. }
            | Instruction::Jump { .. }
            | Instruction::JumpOffset { .. } => self.transfer(ins),
            Instruction::SkipIfEqual { .. }
            | Instruction::SkipIfNotEqual { .. }
            | Instruction::SkipIfRegistersEqual { .. }
            | Instruction::SkipIfRegistersNotEqual { .. }
            | Instruction::SkipIfKeyDown { .. }
            | Instruction::SkipIfKeyUp { .. } => {
                self.skip(ins, input);
                Ok(())
            },
            Instruction::Load { .. }
            | Instruction::Add { .. }
            | Instruction::Move { .. }
            | Instruction::Or { .. }
            | Instruction::And { .. }
            | Instruction::Xor { .. }
            | Instruction::Random { .. }
            | Instruction::ReadDelay { .. } => {
                self.assign(ins, input);
                Ok(())
            },
            Instruction::AddRegister { .. }
            | Instruction::Subtract { .. }
            | Instruction::ShiftRight { .. }
            | Instruction::SubtractFrom { .. }
            | Instruction::ShiftLeft { .. } => {
                self.arithmetic(ins);
                Ok(())
            },
            Instruction::LoadIndex { .. }
            | Instruction::AddIndex { .. }
            | Instruction::Glyph { .. } => {
                self.address(ins);
                Ok(())
            },
            Instruction::SetDelay { .. } | Instruction::SetSound { .. } => {
                self.set_timer(ins);
                Ok(())
            },
            Instruction::WaitKey { x } => {
                self.wait_key(x, input);
                Ok(())
            },
            Instruction::Draw { x, y, rows } => self.draw(x, y, rows),
            Instruction::Bcd { .. }
            | Instruction::Store { .. }
            | Instruction::Restore { .. } => self.transfer_memory(ins),
            Instruction::Unknown { .. } => {
                self.advance();
                Err(Error::UnknownOpcode)
            },
        }
    }

    /// Halts if the program counter has left memory.
    fn settle(&mut self)
        ensures
            final(self)@ == old(self)@.settle(),
    {
        if self.regs.pc() as usize >= MEMORY_SIZE {
            self.state = State::Halted;
        }
    }

    /// Executes one step: fetches the instruction word at the program
    /// counter, decodes it and executes the instruction. Reports the
    /// failure, if there was one, and else the state after the step.
    pub fn tick(&mut self, input: &Input) -> (outcome: Result<State, Fault>)
        ensures
            final(self)@ == old(self)@.step(*input),
            outcome == old(self)@.step_result(*input),
            final(self)@.pc_in_bounds(),
    {
        if self.state == State::Halted {
            return Ok(State::Halted);
        }
        let pc = self.regs.pc();
        let opcode = match self.mem.read_word_be(pc as usize) {
            Ok(opcode) => opcode,
            Err(error) => {
                self.state = State::Halted;
                return Err(Fault { error, pc, opcode: 0 });
            },
        };
        let ins = decode(opcode);
        proof {
            lemma_decode_well_formed(opcode);
        }
        match self.execute(ins, input) {
            Ok(()) => {
                self.settle();
                Ok(self.state)
            },
            Err(error) => {
                if error.is_fatal() {
                    self.state = State::Halted;
                } else {
                    self.settle();
                }
                Err(Fault { error, pc, opcode })
            },
        }
    }

    /// What the interpreter is doing.
    pub fn state(&self) -> (state: State)
        ensures
            state == self@.state,
    {
        self.state
    }

    /// The register file.
    pub fn registers(&self) -> (regs: &Registers)
        ensures
            regs@.v == self@.v,
            regs@.i == self@.i,
            regs@.pc == self@.pc,
    {
        &self.regs
    }

    /// The memory image.
    pub fn memory(&self) -> (mem: &Memory)
        ensures
            mem@ == self@.mem,
    {
        &self.mem
    }

    /// The call stack.
    pub fn stack(&self) -> (stack: &CallStack)
        ensures
            stack@ == self@.stack,
    {
        &self.stack
    }

    /// The framebuffer.
    pub fn display(&self) -> (display: &Display)
        ensures
            display@ == self@.pixels,
    {
        &self.display
    }

    /// The delay timer.
    pub fn delay_timer(&self) -> (value: u8)
        ensures
            value == self@.delay,
    {
        self.delay
    }

    /// The sound timer.
    pub fn sound_timer(&self) -> (value: u8)
        ensures
            value == self@.sound,
    {
        self.sound
    }

    /// Sets the delay timer.
    pub fn set_delay_timer(&mut self, value: u8)
        ensures
            final(self)@ == (Machine { delay: value, ..old(self)@ }),
    {
        self.delay = value;
    }

    /// Sets the sound timer.
    pub fn set_sound_timer(&mut self, value: u8)
        ensures
            final(self)@ == (Machine { sound: value, ..old(self)@ }),
    {
        self.sound = value;
    }

    /// Halts the interpreter: further steps change nothing.
    pub fn halt(&mut self)
        ensures
            final(self)@ == old(self)@.halted(),
    {
        self.state = State::Halted;
    }

    /// Counts both timers down by one, but not below zero. The timer source
    /// calls this sixty times a second.
    pub fn count_down_timers(&mut self)
        ensures
            final(self)@ == old(self)@.timers_counted_down(),
    {
        if self.delay > 0 {
            self.delay = self.delay - 1;
        }
        if self.sound > 0 {
            self.sound = self.sound - 1;
        }
    }
}

} // verus!
