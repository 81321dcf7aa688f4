//! Instructions and how a 16-bit instruction word selects one.
//!
//! In a word `X` is its second nibble, `Y` its third, `N` its last, `NN` its
//! low byte and `NNN` its low twelve bits.

use vstd::prelude::*;

verus! {

/// One decoded instruction. `x` and `y` are register indices below 16, and
/// `addr` is an address below 4096.
#[derive(Clone, Copy, Debug, PartialEq, Eq, Structural)]
pub enum Instruction {
    /// `00E0`: turn every pixel off.
    ClearScreen,
    /// `00EE`: return from a subroutine.
    Return,
    /// `0NNN`, `2NNN`: call the subroutine at `addr`.
    Call { addr: u16 },
    /// `1NNN`: jump to `addr`.
    Jump { addr: u16 },
    /// `3XNN`: skip the next instruction if `VX` equals `value`.
    SkipIfEqual { x: usize, value: u8 },
    /// `4XNN`: skip the next instruction if `VX` differs from `value`.
    SkipIfNotEqual { x: usize, value: u8 },
    /// `5XY0`: skip the next instruction if `VX` equals `VY`.
    SkipIfRegistersEqual { x: usize, y: usize },
    /// `6XNN`: set `VX` to `value`.
    Load { x: usize, value: u8 },
    /// `7XNN`: add `value` to `VX`, without carry.
    Add { x: usize, value: u8 },
    /// `8XY0`: set `VX` to `VY`.
    Move { x: usize, y: usize },
    /// `8XY1`: set `VX` to `VX | VY`.
    Or { x: usize, y: usize },
    /// `8XY2`: set `VX` to `VX & VY`.
    And { x: usize, y: usize },
    /// `8XY3`: set `VX` to `VX ^ VY`.
    Xor { x: usize, y: usize },
    /// `8XY4`: add `VY` to `VX`; the flag tells of a carry.
    AddRegister { x: usize, y: usize },
    /// `8XY5`: subtract `VY` from `VX`; the flag tells that nothing was
    /// borrowed.
    Subtract { x: usize, y: usize },
    /// `8XY6`: shift `VX` right by one; the flag gets the bit shifted out.
    ShiftRight { x: usize },
    /// `8XY7`: set `VX` to `VY - VX`; the flag tells that nothing was
    /// borrowed.
    SubtractFrom { x: usize, y: usize },
    /// `8XYE`: shift `VX` left by one; the flag gets the bit shifted out.
    ShiftLeft { x: usize },
    /// `9XY0`: skip the next instruction if `VX` differs from `VY`.
    SkipIfRegistersNotEqual { x: usize, y: usize },
    /// `ANNN`: set `I` to `addr`.
    LoadIndex { addr: u16 },
    /// `BNNN`: jump to `addr` plus `V0`.
    JumpOffset { addr: u16 },
    /// `CXNN`: set `VX` to a random byte masked by `mask`.
    Random { x: usize, mask: u8 },
    /// `DXYN`: draw the sprite of `rows` bytes at `I` to `(VX, VY)`.
    Draw { x: usize, y: usize, rows: u8 },
    /// `EX9E`: skip the next instruction if the key `VX` is down.
    SkipIfKeyDown { x: usize },
    /// `EXA1`: skip the next instruction if the key `VX` is up.
    SkipIfKeyUp { x: usize },
    /// `FX07`: set `VX` to the delay timer.
    ReadDelay { x: usize },
    /// `FX0A`: wait for a key press and store the key in `VX`.
    WaitKey { x: usize },
    /// `FX15`: set the delay timer to `VX`.
    SetDelay { x: usize },
    /// `FX18`: set the sound timer to `VX`.
    SetSound { x: usize },
    /// `FX1E`: add `VX` to `I`.
    AddIndex { x: usize },
    /// `FX29`: set `I` to the address of the glyph for the digit `VX`.
    Glyph { x: usize },
    /// `FX33`: store the three decimal digits of `VX` at `I`.
    Bcd { x: usize },
    /// `FX55`: store `V0` to `VX` at `I`.
    Store { x: usize },
    /// `FX65`: fill `V0` to `VX` from `I`.
    Restore { x: usize },
    /// Any other word.
    Unknown { opcode: u16 },
}

/// The instruction in the `8XY_` family with last nibble `n`.
pub open spec fn arithmetic_spec(opcode: u16, x: usize, y: usize, n: u16) -> Instruction {
    if n == 0x0 {
        Instruction::Move { x, y }
    } else if n == 0x1 {
        Instruction::Or { x, y }
    } else if n == 0x2 {
        Instruction::And { x, y }
    } else if n == 0x3 {
        Instruction::Xor { x, y }
    } else if n == 0x4 {
        Instruction::AddRegister { x, y }
    } else if n == 0x5 {
        Instruction::Subtract { x, y }
    } else if n == 0x6 {
        Instruction::ShiftRight { x }
    } else if n == 0x7 {
        Instruction::SubtractFrom { x, y }
    } else if n == 0xE {
        Instruction::ShiftLeft { x }
    } else {
        Instruction::Unknown { opcode }
    }
}

/// The instruction in the `FX__` family with low byte `nn`.
pub open spec fn system_spec(opcode: u16, x: usize, nn: u16) -> Instruction {
    if nn == 0x07 {
        Instruction::ReadDelay { x }
    } else if nn == 0x0A {
        Instruction::WaitKey { x }
    } else if nn == 0x15 {
        Instruction::SetDelay { x }
    } else if nn == 0x18 {
        Instruction::SetSound { x }
    } else if nn == 0x1E {
        Instruction::AddIndex { x }
    } else if nn == 0x29 {
        Instruction::Glyph { x }
    } else if nn == 0x33 {
        Instruction::Bcd { x }
    } else if nn == 0x55 {
        Instruction::Store { x }
    } else if nn == 0x65 {
        Instruction::Restore { x }
    } else {
        Instruction::Unknown { opcode }
    }
}

/// The instruction that the word `opcode` stands for.
#[verifier::opaque]
pub open spec fn decode_spec(opcode: u16) -> Instruction {
    let family = opcode / 0x1000;
    let x = ((opcode / 0x100) % 0x10) as usize;
    let y = ((opcode / 0x10) % 0x10) as usize;
    let n = opcode % 0x10;
    let nn = opcode % 0x100;
    let nnn = opcode % 0x1000;
    if opcode == 0x00E0 {
        Instruction::ClearScreen
    } else if opcode == 0x00EE {
        Instruction::Return
    } else if family == 0x0 || family == 0x2 {
        Instruction::Call { addr: nnn }
    } else if family == 0x1 {
        Instruction::Jump { addr: nnn }
    } else if family == 0x3 {
        Instruction::SkipIfEqual { x, value: nn as u8 }
    } else if family == 0x4 {
        Instruction::SkipIfNotEqual { x, value: nn as u8 }
    } else if family == 0x5 {
        if n == 0 {
            Instruction::SkipIfRegistersEqual { x, y }
        } else {
            Instruction::Unknown { opcode }
        }
    } else if family == 0x6 {
        Instruction::Load { x, value: nn as u8 }
    } else if family == 0x7 {
        Instruction::Add { x, value: nn as u8 }
    } else if family == 0x8 {
        arithmetic_spec(opcode, x, y, n)
    } else if family == 0x9 {
        if n == 0 {
            Instruction::SkipIfRegistersNotEqual { x, y }
        } else {
            Instruction::Unknown { opcode }
        }
    } else if family == 0xA {
        Instruction::LoadIndex { addr: nnn }
    } else if family == 0xB {
        Instruction::JumpOffset { addr: nnn }
    } else if family == 0xC {
        Instruction::Random { x, mask: nn as u8 }
    } else if family == 0xD {
        Instruction::Draw { x, y, rows: n as u8 }
    } else if family == 0xE {
        if nn == 0x9E {
            Instruction::SkipIfKeyDown { x }
        } else if nn == 0xA1 {
            Instruction::SkipIfKeyUp { x }
        } else {
            Instruction::Unknown { opcode }
        }
    } else {
        system_spec(opcode, x, nn)
    }
}

impl Instruction {
    /// Whether every register index in the instruction is below 16 and
    /// every address below 4096.
    pub open spec fn well_formed(self) -> bool {
        match self {
            Instruction::Call { addr }
            | Instruction::Jump { addr }
            | Instruction::LoadIndex { addr }
            | Instruction::JumpOffset { addr } => addr < 0x1000,
            Instruction::SkipIfEqual { x, .. }
            | Instruction::SkipIfNotEqual { x, .. }
            | Instruction::Load { x, .. }
            | Instruction::Add { x, .. }
            | Instruction::ShiftRight { x }
            | Instruction::ShiftLeft { x }
            | Instruction::Random { x, .. }
            | Instruction::SkipIfKeyDown { x }
            | Instruction::SkipIfKeyUp { x }
            | Instruction::ReadDelay { x }
            | Instruction::WaitKey { x }
            | Instruction::SetDelay { x }
            | Instruction::SetSound { x }
            | Instruction::AddIndex { x }
            | Instruction::Glyph { x }
            | Instruction::Bcd { x }
            | Instruction::Store { x }
            | Instruction::Restore { x } => x < 16,
            Instruction::SkipIfRegistersEqual { x, y }
            | Instruction::Move { x, y }
            | Instruction::Or { x, y }
            | Instruction::And { x, y }
            | Instruction::Xor { x, y }
            | Instruction::AddRegister { x, y }
            | Instruction::Subtract { x, y }
            | Instruction::SubtractFrom { x, y }
            | Instruction::SkipIfRegistersNotEqual { x, y }
            | Instruction::Draw { x, y, .. } => x < 16 && y < 16,
            _ => true,
        }
    }
}

/// The fields of an instruction word that is put together from its four
/// nibbles.
proof fn lemma_nibbles(opcode: u16, family: int, x: int, y: int, n: int)
    requires
        0 <= family < 16,
        0 <= x < 16,
        0 <= y < 16,
        0 <= n < 16,
        opcode == family * 0x1000 + x * 0x100 + y * 0x10 + n,
    ensures
        opcode / 0x1000 == family,
        (opcode / 0x100) % 0x10 == x,
        (opcode / 0x10) % 0x10 == y,
        opcode % 0x10 == n,
        opcode % 0x100 == y * 0x10 + n,
        opcode % 0x1000 == x * 0x100 + y * 0x10 + n,
{
}

/// `7XNN` stands for adding `NN` to `VX`.
pub proof fn lemma_decode_add(x: usize, nn: u8)
    requires
        x < 16,
    ensures
        decode_spec((0x7000 + x * 0x100 + nn) as u16) == (Instruction::Add { x, value: nn }),
{
    lemma_nibbles((0x7000 + x * 0x100 + nn) as u16, 7, x as int, nn as int / 16, nn as int % 16);
    reveal(decode_spec);
}

/// `8XY4` stands for adding `VY` to `VX`, and `8XY5` for subtracting it.
pub proof fn lemma_decode_add_subtract(x: usize, y: usize)
    requires
        x < 16,
        y < 16,
    ensures
        decode_spec((0x8004 + x * 0x100 + y * 0x10) as u16) == (Instruction::AddRegister { x, y }),
        decode_spec((0x8005 + x * 0x100 + y * 0x10) as u16) == (Instruction::Subtract { x, y }),
{
    lemma_nibbles((0x8004 + x * 0x100 + y * 0x10) as u16, 8, x as int, y as int, 4);
    lemma_nibbles((0x8005 + x * 0x100 + y * 0x10) as u16, 8, x as int, y as int, 5);
    reveal(decode_spec);
}

/// `2NNN` stands for a call of `NNN`.
pub proof fn lemma_decode_call(nnn: u16)
    requires
        nnn < 0x1000,
    ensures
        decode_spec((0x2000 + nnn) as u16) == (Instruction::Call { addr: nnn }),
{
    lemma_nibbles(
        (0x2000 + nnn) as u16,
        2,
        nnn as int / 256,
        (nnn as int / 16) % 16,
        nnn as int % 16,
    );
    reveal(decode_spec);
}

/// `DXYN` stands for drawing `N` rows at `(VX, VY)`.
pub proof fn lemma_decode_draw(x: usize, y: usize, n: u8)
    requires
        x < 16,
        y < 16,
        n < 16,
    ensures
        decode_spec((0xD000 + x * 0x100 + y * 0x10 + n) as u16) == (Instruction::Draw {
            x,
            y,
            rows: n,
        }),
{
    lemma_nibbles(
        (0xD000 + x * 0x100 + y * 0x10 + n) as u16,
        0xD,
        x as int,
        y as int,
        n as int,
    );
    reveal(decode_spec);
}

/// `00E0` clears the screen, `00EE` returns, and `FFFF` stands for nothing.
pub proof fn lemma_decode_fixed()
    ensures
        decode_spec(0x00E0) == Instruction::ClearScreen,
        decode_spec(0x00EE) == Instruction::Return,
        decode_spec(0xFFFF) == (Instruction::Unknown { opcode: 0xFFFF }),
{
    reveal(decode_spec);
}

/// Decoding yields register indices below 16 and addresses below 4096.
pub proof fn lemma_decode_well_formed(opcode: u16)
    ensures
        decode_spec(opcode).well_formed(),
{
    reveal(decode_spec);
}

/// Decodes one instruction word.
pub fn decode(opcode: u16) -> (ins: Instruction)
    ensures
        ins == decode_spec(opcode),
{
    let family = opcode >> 12;
    let x = ((opcode >> 8) & 0xF) as usize;
    let y = ((opcode >> 4) & 0xF) as usize;
    let n = opcode & 0xF;
    let nn = opcode & 0xFF;
    let nnn = opcode & 0xFFF;
    proof {
        reveal(decode_spec);
        assert(opcode >> 12 == opcode / 0x1000) by (bit_vector);
        assert((opcode >> 8) & 0xF == (opcode / 0x100) % 0x10) by (bit_vector);
        assert((opcode >> 4) & 0xF == (opcode / 0x10) % 0x10) by (bit_vector);
        assert(opcode & 0xF == opcode % 0x10) by (bit_vector);
        assert(opcode & 0xFF == opcode % 0x100) by (bit_vector);
        assert(opcode & 0xFFF == opcode % 0x1000) by (bit_vector);
    }
    if opcode == 0x00E0 {
        Instruction::ClearScreen
    } else if opcode == 0x00EE {
        Instruction::Return
    } else {
        match family {
            0x0 | 0x2 => Instruction::Call { addr: nnn },
            0x1 => Instruction::Jump { addr: nnn },
            0x3 => Instruction::SkipIfEqual { x, value: nn as u8 },
            0x4 => Instruction::SkipIfNotEqual { x, value: nn as u8 },
            0x5 if n == 0 => Instruction::SkipIfRegistersEqual { x, y },
            0x6 => Instruction::Load { x, value: nn as u8 },
            0x7 => Instruction::Add { x, value: nn as u8 },
            0x8 => match n {
                0x0 => Instruction::Move { x, y },
                0x1 => Instruction::Or { x, y },
                0x2 => Instruction::And { x, y },
                0x3 => Instruction::Xor { x, y },
                0x4 => Instruction::AddRegister { x, y },
                0x5 => Instruction::Subtract { x, y },
                0x6 => Instruction::ShiftRight { x },
                0x7 => Instruction::SubtractFrom { x, y },
                0xE => Instruction::ShiftLeft { x },
                _ => Instruction::Unknown { opcode },
            },
            0x9 if n == 0 => Instruction::SkipIfRegistersNotEqual { x, y },
            0xA => Instruction::LoadIndex { addr: nnn },
            0xB => Instruction::JumpOffset { addr: nnn },
            0xC => Instruction::Random { x, mask: nn as u8 },
            0xD => Instruction::Draw { x, y, rows: n as u8 },
            0xE => match nn {
                0x9E => Instruction::SkipIfKeyDown { x },
                0xA1 => Instruction::SkipIfKeyUp { x },
                _ => Instruction::Unknown { opcode },
            },
            0xF => match nn {
                0x07 => Instruction::ReadDelay { x },
                0x0A => Instruction::WaitKey { x },
                0x15 => Instruction::SetDelay { x },
                0x18 => Instruction::SetSound { x },
                0x1E => Instruction::AddIndex { x },
                0x29 => Instruction::Glyph { x },
                0x33 => Instruction::Bcd { x },
                0x55 => Instruction::Store { x },
                0x65 => Instruction::Restore { x },
                _ => Instruction::Unknown { opcode },
            },
            _ => Instruction::Unknown { opcode },
        }
    }
}

} // verus!
