//! Laws of the machine: what holds of every step, of every run, and of
//! single instructions.

use vstd::prelude::*;
use crate::display::{
    draw_sprite, lemma_draw_sprite_pointwise, pixel_index, row_hit, sprite_bit, sprite_collides,
    HEIGHT, PIXEL_COUNT,
};
use crate::error::{Error, Fault};
use crate::instruction::{
    decode_spec, lemma_decode_add, lemma_decode_add_subtract, lemma_decode_call,
    lemma_decode_draw, lemma_decode_fixed, lemma_decode_well_formed, Instruction,
};
use crate::machine::{wrapping_difference, wrapping_sum, Input, Machine, State};
use crate::memory::MEMORY_SIZE;

verus! {

/// Whether `m` is about to execute an instruction: it has not halted, and
/// a whole instruction word lies at its program counter.
pub open spec fn about_to_fetch(m: Machine) -> bool {
    &&& m.wf()
    &&& m.state != State::Halted
    &&& m.pc + 1 < MEMORY_SIZE
}

/// Whether `m` is about to execute the instruction word `opcode`.
pub open spec fn about_to_execute(m: Machine, opcode: int) -> bool {
    about_to_fetch(m) && m.opcode() == opcode
}

/// Whether `ins` is one of the instructions that say themselves where the
/// program goes on: calls, jumps, returns, skips, and the wait for a key.
pub open spec fn redirects(ins: Instruction) -> bool {
    ||| ins is Return
    ||| ins is Call
    ||| ins is Jump
    ||| ins is JumpOffset
    ||| ins is SkipIfEqual
    ||| ins is SkipIfNotEqual
    ||| ins is SkipIfRegistersEqual
    ||| ins is SkipIfRegistersNotEqual
    ||| ins is SkipIfKeyDown
    ||| ins is SkipIfKeyUp
    ||| ins is WaitKey
}

/// Every instruction that does not redirect the program and does not fail
/// fatally moves the program counter on by exactly 2.
pub proof fn lemma_falls_through(m: Machine, input: Input)
    requires
        about_to_fetch(m),
        !redirects(decode_spec(m.opcode())),
        m.fault_of(decode_spec(m.opcode())) is None || m.fault_of(decode_spec(m.opcode()))
            == Some(Error::UnknownOpcode),
    ensures
        m.step(input).pc == m.pc + 2,
{
}

/// A skip moves the program counter on by 2 or by 4.
pub proof fn lemma_skip_by_two_or_four(m: Machine, input: Input)
    requires
        about_to_fetch(m),
        ({
            let ins = decode_spec(m.opcode());
            ||| ins is SkipIfEqual
            ||| ins is SkipIfNotEqual
            ||| ins is SkipIfRegistersEqual
            ||| ins is SkipIfRegistersNotEqual
            ||| ins is SkipIfKeyDown
            ||| ins is SkipIfKeyUp
        }),
    ensures
        m.step(input).pc == m.pc + 2 || m.step(input).pc == m.pc + 4,
        m.step(input) == (Machine {
            pc: m.step(input).pc,
            state: m.step(input).state,
            ..m
        }),
{
}

/// A machine as it is made has its sizes, and its program counter is inside
/// memory.
pub proof fn lemma_initial(inputs: Seq<Input>)
    ensures
        Machine::initial().wf(),
        Machine::initial().pc_in_bounds(),
        Machine::initial().run(inputs).pc_in_bounds(),
{
    lemma_run_keeps_pc_in_bounds(Machine::initial(), inputs);
}

/// A step keeps the sizes of registers, memory and grid.
pub proof fn lemma_step_keeps_sizes(m: Machine, input: Input)
    requires
        m.wf(),
    ensures
        m.step(input).wf(),
{
    if m.state != State::Halted && m.pc + 1 < MEMORY_SIZE {
        let ins = decode_spec(m.opcode());
        lemma_decode_well_formed(m.opcode());
        match ins {
            Instruction::Draw { x, y, rows } => {
                crate::display::lemma_draw_sprite_len(
                    m.pixels,
                    m.v[x as int],
                    m.v[y as int],
                    m.sprite(rows),
                );
            },
            _ => {},
        }
    }
}

/// After any step the program counter is inside memory, unless the machine
/// has halted.
pub proof fn lemma_step_keeps_pc_in_bounds(m: Machine, input: Input)
    requires
        m.pc_in_bounds(),
    ensures
        m.step(input).pc_in_bounds(),
{
}

/// Along any run from a machine whose program counter is inside memory, the
/// program counter stays inside memory until the machine halts.
pub proof fn lemma_run_keeps_pc_in_bounds(m: Machine, inputs: Seq<Input>)
    requires
        m.pc_in_bounds(),
    ensures
        m.run(inputs).pc_in_bounds(),
    decreases inputs.len(),
{
    if inputs.len() > 0 {
        lemma_run_keeps_pc_in_bounds(m, inputs.drop_last());
        lemma_step_keeps_pc_in_bounds(m.run(inputs.drop_last()), inputs.last());
    }
}

/// A halted machine stays as it is, whatever it is handed.
pub proof fn lemma_halted_is_final(m: Machine, inputs: Seq<Input>)
    requires
        m.state == State::Halted,
    ensures
        m.run(inputs) == m,
    decreases inputs.len(),
{
    if inputs.len() > 0 {
        lemma_halted_is_final(m, inputs.drop_last());
    }
}

/// `7XNN` leaves `(VX + NN) mod 256` in `VX` and changes no other register,
/// so the flag register stays as it is unless `X` is `F`.
pub proof fn lemma_add_immediate(m: Machine, input: Input, x: int, nn: int)
    requires
        0 <= x < 16,
        0 <= nn < 256,
        about_to_execute(m, 0x7000 + x * 0x100 + nn),
    ensures
        m.step(input).v[x] == (m.v[x] + nn) % 256,
        forall|k: int| 0 <= k < 16 && k != x ==> m.step(input).v[k] == m.v[k],
        m.step(input).pc == m.pc + 2,
{
    let vx = m.v[x];
    lemma_decode_add(x as usize, nn as u8);
    assert(wrapping_sum(vx, nn as u8) == (vx + nn) % 256) by {
        reveal(wrapping_sum);
    }
}

/// `8XY4` sets the flag register to 1 if `VX + VY` passes 255 and to 0 if
/// not, and, unless `X` is `F`, leaves `(VX + VY) mod 256` in `VX`.
pub proof fn lemma_add_register(m: Machine, input: Input, x: int, y: int)
    requires
        0 <= x < 16,
        0 <= y < 16,
        about_to_execute(m, 0x8004 + x * 0x100 + y * 0x10),
    ensures
        m.step(input).v[15] == 1 <==> m.v[x] + m.v[y] > 255,
        m.step(input).v[15] == 0 <==> m.v[x] + m.v[y] <= 255,
        x != 15 ==> m.step(input).v[x] == (m.v[x] + m.v[y]) % 256,
{
    let vx = m.v[x];
    let vy = m.v[y];
    lemma_decode_add_subtract(x as usize, y as usize);
    assert(wrapping_sum(vx, vy) == (vx + vy) % 256) by {
        reveal(wrapping_sum);
    }
}

/// `8XY5` sets the flag register to 1 if `VX >= VY` and to 0 if not, and,
/// unless `X` is `F`, leaves `(VX - VY) mod 256` in `VX`.
pub proof fn lemma_subtract_register(m: Machine, input: Input, x: int, y: int)
    requires
        0 <= x < 16,
        0 <= y < 16,
        about_to_execute(m, 0x8005 + x * 0x100 + y * 0x10),
    ensures
        m.step(input).v[15] == 1 <==> m.v[x] >= m.v[y],
        m.step(input).v[15] == 0 <==> m.v[x] < m.v[y],
        x != 15 ==> m.step(input).v[x] == (m.v[x] - m.v[y]) % 256,
{
    let vx = m.v[x];
    let vy = m.v[y];
    lemma_decode_add_subtract(x as usize, y as usize);
    assert(wrapping_difference(vx, vy) == (vx - vy) % 256) by {
        reveal(wrapping_difference);
    }
}

/// After `00E0` every pixel is off, and nothing else but the program counter
/// has changed.
pub proof fn lemma_clear_screen(m: Machine, input: Input)
    requires
        about_to_execute(m, 0x00E0),
    ensures
        m.step(input).pixels == Seq::new(PIXEL_COUNT as nat, |p: int| false),
        crate::display::snapshot_of(m.step(input).pixels) == Seq::new(
            PIXEL_COUNT as nat,
            |p: int| 0u8,
        ),
        m.step(input) == (Machine {
            pixels: m.step(input).pixels,
            pc: (m.pc + 2) as u16,
            state: m.step(input).state,
            ..m
        }),
{
    lemma_decode_fixed();
    assert(crate::display::snapshot_of(m.step(input).pixels) =~= Seq::new(
        PIXEL_COUNT as nat,
        |p: int| 0u8,
    ));
}

/// `2NNN` at `P` puts `P + 2` on the call stack and goes on at `NNN`;
/// nothing else changes.
pub proof fn lemma_call(m: Machine, input: Input, nnn: int)
    requires
        0 <= nnn < 0x1000,
        about_to_execute(m, 0x2000 + nnn),
    ensures
        m.step(input) == (Machine {
            pc: nnn as u16,
            stack: m.stack.push((m.pc + 2) as u16),
            state: State::Running,
            ..m
        }),
{
    lemma_decode_call(nnn as u16);
}

/// `00EE` with a call stack that is not empty takes the top address off and
/// goes on there; nothing else changes, but that the machine halts if the
/// address is past the end of memory.
pub proof fn lemma_return(m: Machine, input: Input)
    requires
        about_to_execute(m, 0x00EE),
        m.stack.len() > 0,
    ensures
        m.step(input) == (Machine {
            pc: m.stack.last(),
            stack: m.stack.drop_last(),
            state: if m.stack.last() >= MEMORY_SIZE {
                State::Halted
            } else {
                State::Running
            },
            ..m
        }),
{
    lemma_decode_fixed();
}

/// The grid with every pixel off.
pub open spec fn clear_grid() -> Seq<bool> {
    Seq::new(PIXEL_COUNT as nat, |p: int| false)
}

/// Of a sprite row with the single bit `k` set, bit `w` is set exactly if
/// `w` is `k`.
proof fn lemma_single_bit(k: u8, w: int)
    requires
        k < 8,
        0 <= w < 8,
    ensures
        sprite_bit(0x80u8 >> k, w) == (w == k),
{
    let v = w as u8;
    assert(((0x80u8 >> k) & (0x80u8 >> v) != 0) == (v == k)) by (bit_vector)
        requires
            k < 8,
            v < 8,
    ;
}

/// Drawing a sprite of one row with one bit set on a grid with every pixel
/// off turns on the one pixel under that bit and reports no collision.
/// Drawing it again at the same place turns the pixel off and reports a
/// collision.
pub proof fn lemma_single_pixel_twice(x: u8, y: u8, k: u8)
    requires
        k < 8,
    ensures
        ({
            let rows = seq![0x80u8 >> k];
            let lit = draw_sprite(clear_grid(), x, y, rows);
            &&& !sprite_collides(clear_grid(), x, y, rows)
            &&& lit == clear_grid().update(pixel_index(x + k, y as int), true)
            &&& sprite_collides(lit, x, y, rows)
            &&& draw_sprite(lit, x, y, rows) == clear_grid()
        }),
{
    reveal_with_fuel(draw_sprite, 2);
    reveal_with_fuel(sprite_collides, 2);
    let row = 0x80u8 >> k;
    let rows = seq![row];
    let clear = clear_grid();
    let target = pixel_index(x + k, y as int);
    assert(rows.drop_last() =~= Seq::<u8>::empty());
    assert(rows.last() == row);
    assert forall|p: int| 0 <= p < 2048 implies row_hit(x, y as int, row, 8, p) == (p
        == target) by {
        let w = (p % 64 - x) % 64;
        if 0 <= w < 8 {
            lemma_single_bit(k, w);
        }
        lemma_single_bit(k, k as int);
    }
    let lit = draw_sprite(clear, x, y, rows);
    assert(lit =~= clear.update(target, true));
    assert(lit[target] && row_hit(x, y as int, row, 8, target));
    assert(draw_sprite(lit, x, y, rows) =~= clear);
}

/// Drawing a sprite of at most 32 rows twice at the same place leaves the
/// grid as it was.
pub proof fn lemma_draw_twice_restores(grid: Seq<bool>, x: u8, y: u8, rows: Seq<u8>)
    requires
        grid.len() == PIXEL_COUNT,
        rows.len() <= HEIGHT,
    ensures
        draw_sprite(draw_sprite(grid, x, y, rows), x, y, rows) == grid,
{
    let once = draw_sprite(grid, x, y, rows);
    lemma_draw_sprite_pointwise(grid, x, y, rows);
    lemma_draw_sprite_pointwise(once, x, y, rows);
    assert(draw_sprite(once, x, y, rows) =~= grid);
}

/// `DXYN` whose sprite lies inside memory draws the sprite at `(VX, VY)`
/// and sets the flag register to 1 if that turned a lit pixel off and to 0
/// if not; nothing else changes but the program counter.
pub proof fn lemma_draw(m: Machine, input: Input, x: int, y: int, n: int)
    requires
        0 <= x < 16,
        0 <= y < 16,
        0 <= n < 16,
        about_to_execute(m, 0xD000 + x * 0x100 + y * 0x10 + n),
        n == 0 || m.i + n <= MEMORY_SIZE,
    ensures
        ({
            let sprite = m.sprite(n as u8);
            m.step(input) == (Machine {
                pixels: draw_sprite(m.pixels, m.v[x], m.v[y], sprite),
                v: m.v.update(
                    15,
                    if sprite_collides(m.pixels, m.v[x], m.v[y], sprite) {
                        1u8
                    } else {
                        0u8
                    },
                ),
                pc: (m.pc + 2) as u16,
                state: if m.pc + 2 >= MEMORY_SIZE {
                    State::Halted
                } else {
                    State::Running
                },
                ..m
            })
        }),
{
    lemma_decode_draw(x as usize, y as usize, n as u8);
}

/// Two `DXY1` in a row, with `X` and `Y` other than `F`, on a grid with
/// every pixel off and a sprite row with one bit set: the first turns one
/// pixel on and leaves 0 in the flag register, the second turns it off
/// again and leaves 1 there.
pub proof fn lemma_draw_twice(m: Machine, first: Input, second: Input, x: int, y: int, k: u8)
    requires
        0 <= x < 15,
        0 <= y < 15,
        k < 8,
        about_to_execute(m, 0xD001 + x * 0x100 + y * 0x10),
        m.pc + 3 < MEMORY_SIZE,
        m.mem[m.pc + 2] == m.mem[m.pc as int],
        m.mem[m.pc + 3] == m.mem[m.pc + 1],
        m.i < MEMORY_SIZE,
        m.mem[m.i as int] == 0x80u8 >> k,
        m.pixels == clear_grid(),
    ensures
        m.step(first).v[15] == 0,
        m.step(first).pixels == clear_grid().update(pixel_index(m.v[x] + k, m.v[y] as int), true),
        m.step(first).step(second).v[15] == 1,
        m.step(first).step(second).pixels == clear_grid(),
{
    let sprite = m.sprite(1);
    assert(sprite =~= seq![0x80u8 >> k]);
    lemma_single_pixel_twice(m.v[x], m.v[y], k);
    lemma_draw(m, first, x, y, 1);
    let drawn = m.step(first);
    assert(drawn.opcode() == m.opcode());
    assert(drawn.sprite(1) == sprite);
    lemma_draw(drawn, second, x, y, 1);
}

/// A call followed by a return goes on after the call: `2NNN` at `P`, then
/// `00EE` at `NNN`, leaves the program counter at `P + 2` and the call stack
/// as it was.
pub proof fn lemma_call_then_return(m: Machine, first: Input, second: Input, nnn: int)
    requires
        0 <= nnn < 0xFFF,
        about_to_execute(m, 0x2000 + nnn),
        m.mem[nnn] == 0x00,
        m.mem[nnn + 1] == 0xEE,
    ensures
        m.step(first).step(second).pc == m.pc + 2,
        m.step(first).step(second).stack == m.stack,
{
    lemma_call(m, first, nnn);
    let called = m.step(first);
    assert(called.opcode() == 0x00EE);
    lemma_return(called, second);
    assert(called.stack.drop_last() =~= m.stack);
}

/// `00EE` with an empty call stack halts the machine and changes nothing
/// else, the program counter included; the step reports the underflow with
/// the place of the instruction.
pub proof fn lemma_return_underflow(m: Machine, input: Input)
    requires
        about_to_execute(m, 0x00EE),
        m.stack.len() == 0,
    ensures
        m.step(input) == m.halted(),
        m.step_result(input) == Err::<State, Fault>(
            Fault { error: Error::StackUnderflow, pc: m.pc, opcode: 0x00EE },
        ),
{
    lemma_decode_fixed();
}

/// An instruction word that stands for no instruction changes nothing but
/// the program counter, which goes on by 2; the machine halts if that is
/// past the end of memory. The step reports the word.
pub proof fn lemma_unknown_opcode(m: Machine, input: Input)
    requires
        about_to_fetch(m),
        decode_spec(m.opcode()) is Unknown,
    ensures
        m.step(input) == (Machine {
            pc: (m.pc + 2) as u16,
            state: if m.pc + 2 >= MEMORY_SIZE {
                State::Halted
            } else {
                State::Running
            },
            ..m
        }),
        m.step_result(input) == Err::<State, Fault>(
            Fault { error: Error::UnknownOpcode, pc: m.pc, opcode: m.opcode() },
        ),
{
}

} // verus!
