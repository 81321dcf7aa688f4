//! The abstract machine: what an interpreter holds, what it is handed from
//! outside, and what one step does to it.
//!
//! Choices where the instruction set comes in variants:
//! - An instruction that writes both `VX` and the flag register writes the
//!   flag last, so with `X = F` the flag is what stays.
//! - The shifts `8XY6` and `8XYE` shift `VX` and ignore `VY`.
//! - `FX1E` wraps `I` at 16 bits and leaves the flag register alone.
//! - `FX55` and `FX65` leave `I` unchanged.
//! - Glyphs are five bytes each and start at address 0; `FX29` uses the low
//!   nibble of `VX`.
//! - A key number is the low nibble of the byte that names it.
//!
//! The small arithmetic functions, the questions to the keypad and
//! `decode_spec` are opaque, to keep proofs about whole steps light: a proof
//! that needs what is inside one reveals it.

use vstd::prelude::*;
use crate::display::{draw_sprite, sprite_collides, PIXEL_COUNT};
use crate::error::{Error, Fault};
use crate::instruction::{decode_spec, Instruction};
use crate::memory::{loaded, word_at, MEMORY_SIZE};
use crate::registers::{FLAG, PROGRAM_START, REGISTER_COUNT};

verus! {

/// Bytes in one glyph of the built-in font.
pub const GLYPH_SIZE: u16 = 5;

/// What the interpreter is doing.
#[derive(Clone, Copy, Debug, PartialEq, Eq, Structural)]
pub enum State {
    /// Ready to execute the instruction at the program counter.
    Running,
    /// Stopped at a wait-for-key instruction until a key press is handed in.
    AwaitingKey,
    /// Stopped for good: after a fatal error, after the program counter ran
    /// past the end of memory, or on request.
    Halted,
}

/// What the keypad reports at the time of a step.
#[derive(Clone, Copy, Debug)]
pub struct Keypad {
    /// For each of the sixteen keys, whether it is held down.
    pub down: [bool; 16],
    /// The key that was pressed since the last step, if any.
    pub pressed: Option<u8>,
}

/// What a step takes from outside the machine.
#[derive(Clone, Copy, Debug)]
pub struct Input {
    /// A byte from the random source, used by `CXNN`.
    pub random: u8,
    /// The keypad, where one is attached.
    pub keypad: Option<Keypad>,
}

impl Input {
    /// Whether a keypad is attached and reports the key `key` as down.
    #[verifier::opaque]
    pub open spec fn key_down(self, key: u8) -> bool {
        match self.keypad {
            Some(keypad) => keypad.down[key as int % 16],
            None => false,
        }
    }

    /// Whether a keypad is attached and reports the key `key` as up.
    #[verifier::opaque]
    pub open spec fn key_up(self, key: u8) -> bool {
        match self.keypad {
            Some(keypad) => !keypad.down[key as int % 16],
            None => false,
        }
    }

    /// An input for a machine with nothing attached: no keypad, and
    /// `random` as the byte from the random source.
    pub fn detached(random: u8) -> (input: Input)
        ensures
            input.random == random,
            input.keypad is None,
    {
        Input { random, keypad: None }
    }

    /// Whether a keypad is attached and reports the key `key` as down.
    pub fn is_key_down(&self, key: u8) -> (down: bool)
        ensures
            down == self.key_down(key),
    {
        reveal(Input::key_down);
        match &self.keypad {
            Some(keypad) => keypad.down[(key % 16) as usize],
            None => false,
        }
    }

    /// Whether a keypad is attached and reports the key `key` as up.
    pub fn is_key_up(&self, key: u8) -> (up: bool)
        ensures
            up == self.key_up(key),
    {
        reveal(Input::key_up);
        match &self.keypad {
            Some(keypad) => !keypad.down[(key % 16) as usize],
            None => false,
        }
    }

    /// The key whose press is handed in, if there is one.
    pub fn pressed_key(&self) -> (key: Option<u8>)
        ensures
            key == self.pressed(),
    {
        reveal(Input::pressed);
        match &self.keypad {
            Some(keypad) => match keypad.pressed {
                Some(key) => Some(key % 16),
                None => None,
            },
            None => None,
        }
    }

    /// The key whose press is handed in, if there is one.
    #[verifier::opaque]
    pub open spec fn pressed(self) -> Option<u8> {
        match self.keypad {
            Some(keypad) => match keypad.pressed {
                Some(key) => Some((key % 16) as u8),
                None => None,
            },
            None => None,
        }
    }
}

/// Everything an interpreter holds.
pub struct Machine {
    /// The sixteen general registers.
    pub v: Seq<u8>,
    /// The address register.
    pub i: u16,
    /// The program counter.
    pub pc: u16,
    /// The memory image.
    pub mem: Seq<u8>,
    /// The call stack, most recent call last.
    pub stack: Seq<u16>,
    /// The pixel grid, row by row.
    pub pixels: Seq<bool>,
    /// The delay timer.
    pub delay: u8,
    /// The sound timer.
    pub sound: u8,
    /// What the interpreter is doing.
    pub state: State,
}

/// `a + b` modulo 256.
#[verifier::opaque]
pub open spec fn wrapping_sum(a: u8, b: u8) -> u8 {
    ((a + b) % 256) as u8
}

/// `a - b` modulo 256.
#[verifier::opaque]
pub open spec fn wrapping_difference(a: u8, b: u8) -> u8 {
    ((a - b) % 256) as u8
}

/// 1 if `a + b` passes 255, else 0.
pub open spec fn carry(a: u8, b: u8) -> u8 {
    if a + b > 255 {
        1
    } else {
        0
    }
}

/// 1 if `a - b` needs no borrow, else 0.
pub open spec fn no_borrow(a: u8, b: u8) -> u8 {
    if a >= b {
        1
    } else {
        0
    }
}

/// `a` shifted right by one bit.
#[verifier::opaque]
pub open spec fn halved(a: u8) -> u8 {
    a / 2
}

/// The lowest bit of `a`.
#[verifier::opaque]
pub open spec fn lowest_bit(a: u8) -> u8 {
    a % 2
}

/// `a` shifted left by one bit, modulo 256.
#[verifier::opaque]
pub open spec fn doubled(a: u8) -> u8 {
    ((a * 2) % 256) as u8
}

/// The highest bit of `a`.
#[verifier::opaque]
pub open spec fn highest_bit(a: u8) -> u8 {
    a / 128
}

/// `index + offset` modulo 65536.
#[verifier::opaque]
pub open spec fn index_sum(index: u16, offset: u8) -> u16 {
    ((index + offset) % 0x1_0000) as u16
}

/// The address of the glyph for the low nibble of `digit`.
#[verifier::opaque]
pub open spec fn glyph_address(digit: u8) -> u16 {
    (GLYPH_SIZE * (digit % 16)) as u16
}

/// The three decimal digits of `value`: hundreds, tens, ones.
#[verifier::opaque]
pub open spec fn decimal_digits(value: u8) -> Seq<u8> {
    seq![value / 100, (value / 10) % 10, value % 10]
}

/// `value` less one, but not below zero.
pub open spec fn counted_down(value: u8) -> u8 {
    if value > 0 {
        (value - 1) as u8
    } else {
        0
    }
}

impl Machine {
    /// Whether registers, memory and grid have their fixed sizes.
    pub open spec fn wf(self) -> bool {
        &&& self.v.len() == REGISTER_COUNT
        &&& self.mem.len() == MEMORY_SIZE
        &&& self.pixels.len() == PIXEL_COUNT
    }

    /// Whether the program counter is inside memory unless the machine has
    /// halted.
    pub open spec fn pc_in_bounds(self) -> bool {
        self.state != State::Halted ==> self.pc < MEMORY_SIZE
    }

    /// The machine as it is made: all zero, nothing on the stack, about to
    /// run from the program start.
    pub open spec fn initial() -> Machine {
        Machine {
            v: Seq::new(REGISTER_COUNT as nat, |k: int| 0u8),
            i: 0,
            pc: PROGRAM_START,
            mem: Seq::new(MEMORY_SIZE as nat, |a: int| 0u8),
            stack: Seq::empty(),
            pixels: Seq::new(PIXEL_COUNT as nat, |p: int| false),
            delay: 0,
            sound: 0,
            state: State::Running,
        }
    }

    /// The same machine, halted.
    pub open spec fn halted(self) -> Machine {
        Machine { state: State::Halted, ..self }
    }

    /// The machine with `VX` set to `value`.
    pub open spec fn set(self, x: usize, value: u8) -> Machine {
        Machine { v: self.v.update(x as int, value), ..self }
    }

    /// The machine with `VX` set to `value` and then the flag register to
    /// `flag`.
    pub open spec fn set_with_flag(self, x: usize, value: u8, flag: u8) -> Machine {
        Machine { v: self.v.update(x as int, value).update(FLAG as int, flag), ..self }
    }

    /// The instruction word at the program counter.
    pub open spec fn opcode(self) -> u16 {
        word_at(self.mem, self.pc as int) as u16
    }

    /// The bytes of the sprite that `DXYN` draws: `rows` bytes from `I` on.
    pub open spec fn sprite(self, rows: u8) -> Seq<u8> {
        if rows == 0 {
            Seq::empty()
        } else {
            self.mem.subrange(self.i as int, self.i + rows)
        }
    }

    /// The failure that executing `ins` meets, if any.
    pub open spec fn fault_of(self, ins: Instruction) -> Option<Error> {
        match ins {
            Instruction::Return => if self.stack.len() == 0 {
                Some(Error::StackUnderflow)
            } else {
                None
            },
            Instruction::Draw { rows, .. } => if rows > 0 && self.i + rows > MEMORY_SIZE {
                Some(Error::OutOfBounds)
            } else {
                None
            },
            Instruction::Bcd { .. } => if self.i + 2 >= MEMORY_SIZE {
                Some(Error::OutOfBounds)
            } else {
                None
            },
            Instruction::Store { x } | Instruction::Restore { x } => if self.i + x
                >= MEMORY_SIZE {
                Some(Error::OutOfBounds)
            } else {
                None
            },
            Instruction::Unknown { .. } => Some(Error::UnknownOpcode),
            _ => None,
        }
    }

    /// The machine after `ins`, found at the program counter, was executed
    /// without a fatal failure.
    pub open spec fn execute(self, ins: Instruction, input: Input) -> Machine {
        let next = Machine { pc: (self.pc + 2) as u16, state: State::Running, ..self };
        let skip = Machine { pc: (self.pc + 4) as u16, state: State::Running, ..self };
        match ins {
            Instruction::ClearScreen => Machine {
                pixels: Seq::new(PIXEL_COUNT as nat, |p: int| false),
                ..next
            },
            Instruction::Return => Machine {
                pc: self.stack.last(),
                stack: self.stack.drop_last(),
                ..next
            },
            Instruction::Call { addr } => Machine {
                pc: addr,
                stack: self.stack.push((self.pc + 2) as u16),
                ..next
            },
            Instruction::Jump { addr } => Machine { pc: addr, ..next },
            Instruction::SkipIfEqual { x, value } => if self.v[x as int] == value {
                skip
            } else {
                next
            },
            Instruction::SkipIfNotEqual { x, value } => if self.v[x as int] != value {
                skip
            } else {
                next
            },
            Instruction::SkipIfRegistersEqual { x, y } => if self.v[x as int] == self.v[y as int] {
                skip
            } else {
                next
            },
            Instruction::Load { x, value } => next.set(x, value),
            Instruction::Add { x, value } => next.set(x, wrapping_sum(self.v[x as int], value)),
            Instruction::Move { x, y } => next.set(x, self.v[y as int]),
            Instruction::Or { x, y } => next.set(x, self.v[x as int] | self.v[y as int]),
            Instruction::And { x, y } => next.set(x, self.v[x as int] & self.v[y as int]),
            Instruction::Xor { x, y } => next.set(x, self.v[x as int] ^ self.v[y as int]),
            Instruction::AddRegister { x, y } => next.set_with_flag(
                x,
                wrapping_sum(self.v[x as int], self.v[y as int]),
                carry(self.v[x as int], self.v[y as int]),
            ),
            Instruction::Subtract { x, y } => next.set_with_flag(
                x,
                wrapping_difference(self.v[x as int], self.v[y as int]),
                no_borrow(self.v[x as int], self.v[y as int]),
            ),
            Instruction::ShiftRight { x } => next.set_with_flag(
                x,
                halved(self.v[x as int]),
                lowest_bit(self.v[x as int]),
            ),
            Instruction::SubtractFrom { x, y } => next.set_with_flag(
                x,
                wrapping_difference(self.v[y as int], self.v[x as int]),
                no_borrow(self.v[y as int], self.v[x as int]),
            ),
            Instruction::ShiftLeft { x } => next.set_with_flag(
                x,
                doubled(self.v[x as int]),
                highest_bit(self.v[x as int]),
            ),
            Instruction::SkipIfRegistersNotEqual { x, y } => if self.v[x as int]
                != self.v[y as int] {
                skip
            } else {
                next
            },
            Instruction::LoadIndex { addr } => Machine { i: addr, ..next },
            Instruction::JumpOffset { addr } => Machine { pc: (addr + self.v[0]) as u16, ..next },
            Instruction::Random { x, mask } => next.set(x, input.random & mask),
            Instruction::Draw { x, y, rows } => {
                let sprite = self.sprite(rows);
                let vx = self.v[x as int];
                let vy = self.v[y as int];
                Machine {
                    pixels: draw_sprite(self.pixels, vx, vy, sprite),
                    v: self.v.update(
                        FLAG as int,
                        if sprite_collides(self.pixels, vx, vy, sprite) {
                            1u8
                        } else {
                            0u8
                        },
                    ),
                    ..next
                }
            },
            Instruction::SkipIfKeyDown { x } => if input.key_down(self.v[x as int]) {
                skip
            } else {
                next
            },
            Instruction::SkipIfKeyUp { x } => if input.key_up(self.v[x as int]) {
                skip
            } else {
                next
            },
            Instruction::ReadDelay { x } => next.set(x, self.delay),
            Instruction::WaitKey { x } => match input.pressed() {
                Some(key) => next.set(x, key),
                None => Machine { state: State::AwaitingKey, ..self },
            },
            Instruction::SetDelay { x } => Machine { delay: self.v[x as int], ..next },
            Instruction::SetSound { x } => Machine { sound: self.v[x as int], ..next },
            Instruction::AddIndex { x } => Machine {
                i: index_sum(self.i, self.v[x as int]),
                ..next
            },
            Instruction::Glyph { x } => Machine { i: glyph_address(self.v[x as int]), ..next },
            Instruction::Bcd { x } => Machine {
                mem: loaded(self.mem, decimal_digits(self.v[x as int]), self.i as int),
                ..next
            },
            Instruction::Store { x } => Machine {
                mem: loaded(self.mem, self.v.take(x + 1), self.i as int),
                ..next
            },
            Instruction::Restore { x } => Machine {
                v: Seq::new(
                    self.v.len(),
                    |k: int|
                        if k <= x {
                            self.mem[self.i + k]
                        } else {
                            self.v[k]
                        },
                ),
                ..next
            },
            Instruction::Unknown { .. } => next,
        }
    }

    /// The machine, halted if its program counter has left memory.
    pub open spec fn settle(self) -> Machine {
        if self.pc >= MEMORY_SIZE {
            self.halted()
        } else {
            self
        }
    }

    /// The machine after one step. A halted machine stays as it is. Where no
    /// instruction can be fetched, or the instruction fails fatally, the
    /// machine halts and is otherwise unchanged. Else the instruction is
    /// executed, and the machine halts if that takes the program counter out
    /// of memory.
    pub open spec fn step(self, input: Input) -> Machine {
        if self.state == State::Halted {
            self
        } else if self.pc + 1 >= MEMORY_SIZE {
            self.halted()
        } else {
            let ins = decode_spec(self.opcode());
            match self.fault_of(ins) {
                Some(Error::UnknownOpcode) | None => self.execute(ins, input).settle(),
                Some(_) => self.halted(),
            }
        }
    }

    /// What one step reports: the failure with its place, if there was one,
    /// and else the state that the machine is in after the step.
    pub open spec fn step_result(self, input: Input) -> Result<State, Fault> {
        if self.state == State::Halted {
            Ok(State::Halted)
        } else if self.pc + 1 >= MEMORY_SIZE {
            Err(Fault { error: Error::OutOfBounds, pc: self.pc, opcode: 0 })
        } else {
            match self.fault_of(decode_spec(self.opcode())) {
                Some(error) => Err(Fault { error, pc: self.pc, opcode: self.opcode() }),
                None => Ok(self.step(input).state),
            }
        }
    }

    /// The machine after one step for each of `inputs`, in order.
    pub open spec fn run(self, inputs: Seq<Input>) -> Machine
        decreases inputs.len(),
    {
        if inputs.len() == 0 {
            self
        } else {
            self.run(inputs.drop_last()).step(inputs.last())
        }
    }

    /// The machine after both timers counted down by one.
    pub open spec fn timers_counted_down(self) -> Machine {
        Machine { delay: counted_down(self.delay), sound: counted_down(self.sound), ..self }
    }
}

} // verus!
