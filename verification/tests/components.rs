use chip8::display::Display;
use chip8::error::Error;
use chip8::instruction::{decode, Instruction};
use chip8::machine::{Input, Keypad};
use chip8::memory::Memory;
use chip8::registers::Registers;
use chip8::stack::CallStack;

#[test]
fn memory_starts_zeroed() {
    let mem = Memory::new();
    assert_eq!(mem.read_byte(0), Ok(0));
    assert_eq!(mem.read_byte(4095), Ok(0));
}

#[test]
fn memory_load_copies_at_the_offset() {
    let mut mem = Memory::new();
    assert_eq!(mem.load(&[1, 2, 3], 0x200), Ok(()));
    assert_eq!(mem.read_byte(0x1FF), Ok(0));
    assert_eq!(mem.read_byte(0x200), Ok(1));
    assert_eq!(mem.read_byte(0x201), Ok(2));
    assert_eq!(mem.read_byte(0x202), Ok(3));
    assert_eq!(mem.read_byte(0x203), Ok(0));
}

#[test]
fn memory_load_up_to_the_last_byte() {
    let mut mem = Memory::new();
    assert_eq!(mem.load(&[7, 8], 4094), Ok(()));
    assert_eq!(mem.read_byte(4095), Ok(8));
    assert_eq!(mem.load(&[], 4096), Ok(()));
}

#[test]
fn memory_load_too_large_changes_nothing() {
    let mut mem = Memory::new();
    assert_eq!(mem.load(&[7, 8], 4095), Err(Error::LoadTooLarge));
    assert_eq!(mem.read_byte(4095), Ok(0));
    assert_eq!(mem.load(&[1], usize::MAX), Err(Error::LoadTooLarge));
    assert_eq!(mem.load(&vec![0u8; 4097], 0), Err(Error::LoadTooLarge));
}

#[test]
fn memory_bytes_are_written_and_read() {
    let mut mem = Memory::new();
    assert_eq!(mem.write_byte(4095, 0xAA), Ok(()));
    assert_eq!(mem.read_byte(4095), Ok(0xAA));
    assert_eq!(mem.write_byte(4096, 0xAA), Err(Error::OutOfBounds));
    assert_eq!(mem.read_byte(4096), Err(Error::OutOfBounds));
}

#[test]
fn memory_words_are_big_endian() {
    let mut mem = Memory::new();
    assert_eq!(mem.load(&[0x12, 0x34], 0x300), Ok(()));
    assert_eq!(mem.read_word_be(0x300), Ok(0x1234));
    assert_eq!(mem.read_word_be(0x301), Ok(0x3400));
    assert_eq!(mem.read_word_be(4094), Ok(0));
    assert_eq!(mem.read_word_be(4095), Err(Error::OutOfBounds));
    assert_eq!(mem.read_word_be(usize::MAX), Err(Error::OutOfBounds));
}

#[test]
fn memory_ranges_are_bounded() {
    let mut mem = Memory::new();
    assert_eq!(mem.load(&[1, 2, 3], 10), Ok(()));
    assert_eq!(mem.read_range(10, 3), Ok(&[1u8, 2, 3][..]));
    assert_eq!(mem.read_range(4095, 1), Ok(&[0u8][..]));
    assert_eq!(mem.read_range(4095, 2), Err(Error::OutOfBounds));
    assert_eq!(mem.read_range(5000, 0), Ok(&[][..]));
}

#[test]
fn registers_start_at_the_program_start() {
    let regs = Registers::new();
    assert_eq!(regs.pc(), 0x200);
    assert_eq!(regs.index(), 0);
    assert_eq!(regs.flag(), 0);
    assert_eq!(regs.prefix(16), &[0u8; 16][..]);
}

#[test]
fn reg_for_masks_the_index() {
    let mut regs = Registers::new();
    *regs.reg_for(0x3) = 7;
    *regs.reg_for(0x1F) = 9;
    assert_eq!(regs.get(3), 7);
    assert_eq!(regs.get(0x13), 7);
    assert_eq!(regs.get(0xF), 9);
    assert_eq!(regs.flag(), 9);
    assert_eq!(*regs.reg_for(0x23), 7);
    for x in 0..16 {
        if x != 3 && x != 15 {
            assert_eq!(regs.get(x), 0);
        }
    }
    assert_eq!(regs.pc(), 0x200);
    assert_eq!(regs.index(), 0);
}

#[test]
fn registers_are_set_one_by_one() {
    let mut regs = Registers::new();
    regs.set(2, 0x42);
    regs.set_flag(1);
    regs.set_index(0xFFFF);
    regs.set_pc(0x0ABC);
    assert_eq!(regs.get(2), 0x42);
    assert_eq!(regs.get(15), 1);
    assert_eq!(regs.index(), 0xFFFF);
    assert_eq!(regs.pc(), 0x0ABC);
    assert_eq!(regs.prefix(3), &[0u8, 0, 0x42][..]);
}

#[test]
fn register_prefix_stops_at_sixteen() {
    let mut regs = Registers::new();
    regs.set(15, 0xEE);
    assert_eq!(regs.prefix(0), &[][..]);
    assert_eq!(regs.prefix(17).len(), 16);
    assert_eq!(regs.prefix(usize::MAX)[15], 0xEE);
}

#[test]
fn stack_is_last_in_first_out() {
    let mut stack = CallStack::new();
    assert!(stack.is_empty());
    stack.push(0x202);
    stack.push(0x304);
    assert_eq!(stack.depth(), 2);
    assert_eq!(stack.pop(), Ok(0x304));
    assert_eq!(stack.pop(), Ok(0x202));
    assert_eq!(stack.pop(), Err(Error::StackUnderflow));
    assert_eq!(stack.depth(), 0);
}

#[test]
fn stack_grows_past_sixteen_levels() {
    let mut stack = CallStack::new();
    for k in 0..100u16 {
        stack.push(k);
    }
    assert_eq!(stack.depth(), 100);
    assert_eq!(stack.pop(), Ok(99));
}

#[test]
fn display_starts_clear() {
    let display = Display::new();
    let grid = display.snapshot();
    assert_eq!(grid.len(), 2048);
    assert!(grid.iter().all(|p| *p == 0));
}

#[test]
fn display_draws_most_significant_bit_first() {
    let mut display = Display::new();
    assert!(!display.draw(8, 1, &[0b1010_0001]));
    let grid = display.snapshot();
    let lit: Vec<usize> = (0..2048).filter(|p| grid[*p] == 1).collect();
    assert_eq!(lit, vec![64 + 8, 64 + 10, 64 + 15]);
}

#[test]
fn display_draws_rows_one_below_the_other() {
    let mut display = Display::new();
    assert!(!display.draw(0, 30, &[0x80, 0x80, 0x80]));
    assert!(display.pixel(0, 30));
    assert!(display.pixel(0, 31));
    assert!(display.pixel(0, 0));
    assert!(!display.pixel(0, 1));
}

#[test]
fn display_collides_only_on_erasing() {
    let mut display = Display::new();
    assert!(!display.draw(0, 0, &[0b1100_0000]));
    // overlaps in column 1 only: that pixel goes off, column 2 goes on
    assert!(display.draw(1, 0, &[0b1100_0000]));
    assert!(display.pixel(0, 0));
    assert!(!display.pixel(1, 0));
    assert!(display.pixel(2, 0));
    // no overlap: no collision
    assert!(!display.draw(10, 10, &[0xFF]));
}

#[test]
fn display_wraps_large_coordinates() {
    let mut display = Display::new();
    assert!(!display.draw(255, 255, &[0xC0]));
    // 255 mod 64 = 63, 255 mod 32 = 31
    assert!(display.pixel(63, 31));
    assert!(display.pixel(0, 31));
    assert!(display.pixel(64 + 63, 32 + 31));
}

#[test]
fn display_long_sprite_meets_pixels_twice() {
    let mut display = Display::new();
    let mut sprite = vec![0u8; 33];
    sprite[0] = 0x80;
    sprite[32] = 0x80;
    assert!(display.draw(0, 0, &sprite));
    assert!(display.snapshot().iter().all(|p| *p == 0));
}

#[test]
fn display_clear_turns_everything_off() {
    let mut display = Display::new();
    display.draw(0, 0, &[0xFF, 0xFF]);
    display.clear();
    assert!(display.snapshot().iter().all(|p| *p == 0));
}

#[test]
fn decode_reads_the_fields() {
    assert_eq!(decode(0x00E0), Instruction::ClearScreen);
    assert_eq!(decode(0x00EE), Instruction::Return);
    assert_eq!(decode(0x0123), Instruction::Call { addr: 0x123 });
    assert_eq!(decode(0x2ABC), Instruction::Call { addr: 0xABC });
    assert_eq!(decode(0x1ABC), Instruction::Jump { addr: 0xABC });
    assert_eq!(decode(0x3A12), Instruction::SkipIfEqual { x: 0xA, value: 0x12 });
    assert_eq!(decode(0x4A12), Instruction::SkipIfNotEqual { x: 0xA, value: 0x12 });
    assert_eq!(decode(0x5AB0), Instruction::SkipIfRegistersEqual { x: 0xA, y: 0xB });
    assert_eq!(decode(0x6A12), Instruction::Load { x: 0xA, value: 0x12 });
    assert_eq!(decode(0x7A12), Instruction::Add { x: 0xA, value: 0x12 });
    assert_eq!(decode(0x8AB0), Instruction::Move { x: 0xA, y: 0xB });
    assert_eq!(decode(0x8AB1), Instruction::Or { x: 0xA, y: 0xB });
    assert_eq!(decode(0x8AB2), Instruction::And { x: 0xA, y: 0xB });
    assert_eq!(decode(0x8AB3), Instruction::Xor { x: 0xA, y: 0xB });
    assert_eq!(decode(0x8AB4), Instruction::AddRegister { x: 0xA, y: 0xB });
    assert_eq!(decode(0x8AB5), Instruction::Subtract { x: 0xA, y: 0xB });
    assert_eq!(decode(0x8AB6), Instruction::ShiftRight { x: 0xA });
    assert_eq!(decode(0x8AB7), Instruction::SubtractFrom { x: 0xA, y: 0xB });
    assert_eq!(decode(0x8ABE), Instruction::ShiftLeft { x: 0xA });
    assert_eq!(decode(0x9AB0), Instruction::SkipIfRegistersNotEqual { x: 0xA, y: 0xB });
    assert_eq!(decode(0xA123), Instruction::LoadIndex { addr: 0x123 });
    assert_eq!(decode(0xB123), Instruction::JumpOffset { addr: 0x123 });
    assert_eq!(decode(0xCA0F), Instruction::Random { x: 0xA, mask: 0x0F });
    assert_eq!(decode(0xDAB5), Instruction::Draw { x: 0xA, y: 0xB, rows: 5 });
    assert_eq!(decode(0xEA9E), Instruction::SkipIfKeyDown { x: 0xA });
    assert_eq!(decode(0xEAA1), Instruction::SkipIfKeyUp { x: 0xA });
    assert_eq!(decode(0xFA07), Instruction::ReadDelay { x: 0xA });
    assert_eq!(decode(0xFA0A), Instruction::WaitKey { x: 0xA });
    assert_eq!(decode(0xFA15), Instruction::SetDelay { x: 0xA });
    assert_eq!(decode(0xFA18), Instruction::SetSound { x: 0xA });
    assert_eq!(decode(0xFA1E), Instruction::AddIndex { x: 0xA });
    assert_eq!(decode(0xFA29), Instruction::Glyph { x: 0xA });
    assert_eq!(decode(0xFA33), Instruction::Bcd { x: 0xA });
    assert_eq!(decode(0xFA55), Instruction::Store { x: 0xA });
    assert_eq!(decode(0xFA65), Instruction::Restore { x: 0xA });
}

#[test]
fn decode_marks_the_rest_unknown() {
    for opcode in [0x5AB1u16, 0x9AB1, 0x8AB8, 0x8ABF, 0xEA00, 0xEA9F, 0xFA00, 0xFA66, 0xFFFF] {
        assert_eq!(decode(opcode), Instruction::Unknown { opcode });
    }
}

#[test]
fn input_reports_keys_by_low_nibble() {
    let mut down = [false; 16];
    down[0x4] = true;
    let input = Input { random: 0, keypad: Some(Keypad { down, pressed: Some(0x24) }) };
    assert!(input.is_key_down(0x04));
    assert!(input.is_key_down(0x14));
    assert!(!input.is_key_up(0x04));
    assert!(input.is_key_up(0x05));
    assert!(!input.is_key_down(0x05));
    assert_eq!(input.pressed_key(), Some(0x4));
}

#[test]
fn detached_input_reports_nothing() {
    let input = Input::detached(0x5A);
    assert_eq!(input.random, 0x5A);
    assert!(!input.is_key_down(0));
    assert!(!input.is_key_up(0));
    assert_eq!(input.pressed_key(), None);
}
