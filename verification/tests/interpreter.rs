use chip8::emu::Emu;
use chip8::error::{Error, Fault};
use chip8::machine::{Input, Keypad, State};

fn idle() -> Input {
    Input { random: 0, keypad: None }
}

fn keys(down: &[usize], pressed: Option<u8>) -> Input {
    let mut state = [false; 16];
    for key in down {
        state[*key] = true;
    }
    Input { random: 0, keypad: Some(Keypad { down: state, pressed }) }
}

fn machine(program: &[u8]) -> Emu {
    let mut emu = Emu::new();
    assert_eq!(emu.load_program(program), Ok(()));
    emu
}

fn run(emu: &mut Emu, steps: usize) {
    for _ in 0..steps {
        assert_eq!(emu.tick(&idle()), Ok(State::Running));
    }
}

fn v(emu: &Emu, x: usize) -> u8 {
    emu.registers().get(x)
}

fn pc(emu: &Emu) -> u16 {
    emu.registers().pc()
}

#[test]
fn fresh_machine_is_zeroed_and_running() {
    let emu = Emu::new();
    assert_eq!(pc(&emu), 0x200);
    assert_eq!(emu.registers().index(), 0);
    for x in 0..16 {
        assert_eq!(v(&emu, x), 0);
    }
    assert_eq!(emu.state(), State::Running);
    assert!(emu.stack().is_empty());
    assert_eq!(emu.delay_timer(), 0);
    assert_eq!(emu.sound_timer(), 0);
    assert!(emu.display().snapshot().iter().all(|p| *p == 0));
    assert_eq!(emu.memory().read_byte(0x200), Ok(0));
}

#[test]
fn load_then_add_wraps_to_four() {
    let mut emu = machine(&[0x60, 0x05, 0x70, 0xFF]);
    run(&mut emu, 2);
    assert_eq!(v(&emu, 0), 4);
    assert_eq!(pc(&emu), 0x204);
}

#[test]
fn call_then_return_goes_on_after_the_call() {
    let mut emu = machine(&[0x22, 0x04, 0x00, 0x00, 0x00, 0xEE]);
    assert_eq!(emu.tick(&idle()), Ok(State::Running));
    assert_eq!(pc(&emu), 0x204);
    assert_eq!(emu.stack().depth(), 1);
    assert_eq!(emu.tick(&idle()), Ok(State::Running));
    assert_eq!(pc(&emu), 0x202);
    assert!(emu.stack().is_empty());
}

#[test]
fn zero_family_calls_too() {
    let mut emu = machine(&[0x03, 0x00]);
    run(&mut emu, 1);
    assert_eq!(pc(&emu), 0x300);
    assert_eq!(emu.stack().depth(), 1);
}

#[test]
fn return_on_empty_stack_halts_in_place() {
    let mut emu = machine(&[0x00, 0xEE]);
    assert_eq!(
        emu.tick(&idle()),
        Err(Fault { error: Error::StackUnderflow, pc: 0x200, opcode: 0x00EE })
    );
    assert_eq!(emu.state(), State::Halted);
    assert_eq!(pc(&emu), 0x200);
    assert_eq!(emu.tick(&idle()), Ok(State::Halted));
    assert_eq!(pc(&emu), 0x200);
}

#[test]
fn unknown_opcode_only_advances() {
    let mut emu = machine(&[0x6A, 0x33, 0xFF, 0xFF]);
    run(&mut emu, 1);
    let memory_before: Vec<u8> = (0..4096).map(|a| emu.memory().read_byte(a).unwrap()).collect();
    assert_eq!(
        emu.tick(&idle()),
        Err(Fault { error: Error::UnknownOpcode, pc: 0x202, opcode: 0xFFFF })
    );
    assert_eq!(emu.state(), State::Running);
    assert_eq!(pc(&emu), 0x204);
    assert_eq!(v(&emu, 0xA), 0x33);
    for x in 0..16 {
        if x != 0xA {
            assert_eq!(v(&emu, x), 0);
        }
    }
    assert_eq!(emu.registers().index(), 0);
    let memory_after: Vec<u8> = (0..4096).map(|a| emu.memory().read_byte(a).unwrap()).collect();
    assert_eq!(memory_before, memory_after);
    assert!(emu.display().snapshot().iter().all(|p| *p == 0));
    assert!(emu.stack().is_empty());
}

#[test]
fn words_outside_the_table_are_unknown() {
    for word in [[0x50u8, 0x01u8], [0x90, 0x0F], [0x80, 0x08], [0x80, 0x0F], [0xE0, 0x00], [0xF0, 0x00]] {
        let mut emu = machine(&word);
        let opcode = (word[0] as u16) << 8 | word[1] as u16;
        assert_eq!(
            emu.tick(&idle()),
            Err(Fault { error: Error::UnknownOpcode, pc: 0x200, opcode })
        );
        assert_eq!(pc(&emu), 0x202);
    }
}

#[test]
fn clear_screen_gives_an_all_zero_snapshot() {
    // I = 0x208 (a full row), draw at (0, 0), then clear.
    let mut emu = machine(&[0xA2, 0x08, 0xD0, 0x01, 0x00, 0xE0, 0x00, 0x00, 0xFF]);
    run(&mut emu, 2);
    assert!(emu.display().snapshot().iter().any(|p| *p == 1));
    run(&mut emu, 1);
    let grid = emu.display().snapshot();
    assert_eq!(grid.len(), 2048);
    assert!(grid.iter().all(|p| *p == 0));
    assert_eq!(pc(&emu), 0x206);
}

#[test]
fn drawing_twice_collides_the_second_time() {
    // V0 = 3, V1 = 2, I = 0x20A, draw, draw.
    let mut emu = machine(&[0x60, 0x03, 0x61, 0x02, 0xA2, 0x0A, 0xD0, 0x11, 0xD0, 0x11, 0x10]);
    run(&mut emu, 4);
    assert_eq!(v(&emu, 0xF), 0);
    let grid = emu.display().snapshot();
    for p in 0..2048 {
        // bit 3 of 0x10 is set: column 3 + 3, row 2
        assert_eq!(grid[p], if p == 2 * 64 + 6 { 1 } else { 0 });
    }
    assert!(emu.display().pixel(6, 2));
    run(&mut emu, 1);
    assert_eq!(v(&emu, 0xF), 1);
    assert!(emu.display().snapshot().iter().all(|p| *p == 0));
}

#[test]
fn draw_resets_the_flag_when_nothing_collides() {
    // VF = 7, then draw one pixel on a clear grid.
    let mut emu = machine(&[0x6F, 0x07, 0xA2, 0x06, 0xD0, 0x01, 0x80]);
    run(&mut emu, 3);
    assert_eq!(v(&emu, 0xF), 0);
    assert!(emu.display().pixel(0, 0));
}

#[test]
fn draw_wraps_at_the_edges() {
    // V0 = 62, V1 = 31, sprite of two rows 0xF0, 0x80 at I = 0x208.
    let mut emu = machine(&[0x60, 62, 0x61, 31, 0xA2, 0x08, 0xD0, 0x12, 0xF0, 0x80]);
    run(&mut emu, 4);
    let display = emu.display();
    assert!(display.pixel(62, 31));
    assert!(display.pixel(63, 31));
    assert!(display.pixel(0, 31));
    assert!(display.pixel(1, 31));
    assert!(!display.pixel(2, 31));
    assert!(display.pixel(62, 0));
    assert!(!display.pixel(63, 0));
    assert_eq!(display.snapshot().iter().filter(|p| **p == 1).count(), 5);
    assert_eq!(v(&emu, 0xF), 0);
}

#[test]
fn draw_of_no_rows_changes_no_pixel() {
    let mut emu = machine(&[0x6F, 0x01, 0xD0, 0x00]);
    run(&mut emu, 2);
    assert_eq!(v(&emu, 0xF), 0);
    assert!(emu.display().snapshot().iter().all(|p| *p == 0));
}

#[test]
fn draw_past_the_end_of_memory_is_fatal() {
    // I = 0xFFF, draw two rows.
    let mut emu = machine(&[0xAF, 0xFF, 0xD0, 0x02]);
    run(&mut emu, 1);
    assert_eq!(
        emu.tick(&idle()),
        Err(Fault { error: Error::OutOfBounds, pc: 0x202, opcode: 0xD002 })
    );
    assert_eq!(emu.state(), State::Halted);
    assert_eq!(pc(&emu), 0x202);
    assert!(emu.display().snapshot().iter().all(|p| *p == 0));
}

#[test]
fn jump_sets_the_program_counter() {
    let mut emu = machine(&[0x1A, 0xBC]);
    run(&mut emu, 1);
    assert_eq!(pc(&emu), 0xABC);
}

#[test]
fn jump_with_offset_adds_v0() {
    let mut emu = machine(&[0x60, 0x10, 0xB3, 0x00]);
    run(&mut emu, 2);
    assert_eq!(pc(&emu), 0x310);
}

#[test]
fn jump_with_offset_past_the_end_halts() {
    let mut emu = machine(&[0x60, 0xFF, 0xBF, 0xFF]);
    run(&mut emu, 1);
    assert_eq!(emu.tick(&idle()), Ok(State::Halted));
    assert_eq!(pc(&emu), 0x10FE);
    assert_eq!(emu.state(), State::Halted);
}

#[test]
fn running_off_the_end_halts_without_error() {
    // jump to 0xFFE, where 6007 stands
    let mut emu = machine(&[0x1F, 0xFE]);
    assert_eq!(emu.load(&[0x60, 0x07], 0xFFE), Ok(()));
    run(&mut emu, 1);
    assert_eq!(pc(&emu), 0xFFE);
    assert_eq!(emu.tick(&idle()), Ok(State::Halted));
    assert_eq!(v(&emu, 0), 7);
    assert_eq!(pc(&emu), 0x1000);
    assert_eq!(emu.state(), State::Halted);
}

#[test]
fn fetch_of_half_a_word_is_out_of_bounds() {
    let mut emu = machine(&[0x1F, 0xFF]);
    run(&mut emu, 1);
    assert_eq!(pc(&emu), 0xFFF);
    assert_eq!(
        emu.tick(&idle()),
        Err(Fault { error: Error::OutOfBounds, pc: 0xFFF, opcode: 0 })
    );
    assert_eq!(emu.state(), State::Halted);
    assert_eq!(pc(&emu), 0xFFF);
}

#[test]
fn program_counter_stays_in_memory_while_running() {
    // a loop: V0 += 1; jump back
    let mut emu = machine(&[0x70, 0x01, 0x12, 0x00]);
    for _ in 0..1000 {
        assert_eq!(emu.tick(&idle()), Ok(State::Running));
        assert!(pc(&emu) < 4096);
    }
    assert_eq!(v(&emu, 0), (500 % 256) as u8);
}

#[test]
fn skip_if_equal_immediate() {
    let mut emu = machine(&[0x61, 0x2A, 0x31, 0x2A, 0x00, 0x00, 0x31, 0x2B]);
    run(&mut emu, 2);
    assert_eq!(pc(&emu), 0x206);
    run(&mut emu, 1);
    assert_eq!(pc(&emu), 0x208);
}

#[test]
fn skip_if_not_equal_immediate() {
    let mut emu = machine(&[0x61, 0x2A, 0x41, 0x2B, 0x00, 0x00, 0x41, 0x2A]);
    run(&mut emu, 2);
    assert_eq!(pc(&emu), 0x206);
    run(&mut emu, 1);
    assert_eq!(pc(&emu), 0x208);
}

#[test]
fn skip_if_registers_equal() {
    let mut emu = machine(&[0x61, 0x05, 0x62, 0x05, 0x51, 0x20, 0x00, 0x00, 0x51, 0x30]);
    run(&mut emu, 3);
    assert_eq!(pc(&emu), 0x208);
    run(&mut emu, 1);
    assert_eq!(pc(&emu), 0x20A);
}

#[test]
fn skip_if_registers_differ() {
    let mut emu = machine(&[0x61, 0x05, 0x91, 0x20, 0x00, 0x00, 0x91, 0x10]);
    run(&mut emu, 2);
    assert_eq!(pc(&emu), 0x206);
    run(&mut emu, 1);
    assert_eq!(pc(&emu), 0x208);
}

#[test]
fn add_immediate_leaves_the_flag_alone() {
    let mut emu = machine(&[0x6F, 0x09, 0x63, 0xF0, 0x73, 0x20]);
    run(&mut emu, 3);
    assert_eq!(v(&emu, 3), 0x10);
    assert_eq!(v(&emu, 0xF), 0x09);
}

#[test]
fn move_or_and_xor() {
    let mut emu = machine(&[
        0x61, 0b1100, 0x62, 0b1010, 0x83, 0x10, 0x83, 0x21, 0x84, 0x10, 0x84, 0x22, 0x85, 0x10,
        0x85, 0x23,
    ]);
    run(&mut emu, 8);
    assert_eq!(v(&emu, 3), 0b1110);
    assert_eq!(v(&emu, 4), 0b1000);
    assert_eq!(v(&emu, 5), 0b0110);
    assert_eq!(v(&emu, 0xF), 0);
}

#[test]
fn add_registers_sets_the_carry() {
    let mut emu = machine(&[0x61, 0xF0, 0x62, 0x20, 0x81, 0x24, 0x63, 0x01, 0x83, 0x24]);
    run(&mut emu, 3);
    assert_eq!(v(&emu, 1), 0x10);
    assert_eq!(v(&emu, 0xF), 1);
    run(&mut emu, 2);
    assert_eq!(v(&emu, 3), 0x21);
    assert_eq!(v(&emu, 0xF), 0);
}

#[test]
fn add_registers_at_the_edge_of_the_carry() {
    let mut emu = machine(&[0x61, 0xFF, 0x62, 0x00, 0x81, 0x24, 0x62, 0x01, 0x81, 0x24]);
    run(&mut emu, 3);
    assert_eq!(v(&emu, 1), 0xFF);
    assert_eq!(v(&emu, 0xF), 0);
    run(&mut emu, 2);
    assert_eq!(v(&emu, 1), 0x00);
    assert_eq!(v(&emu, 0xF), 1);
}

#[test]
fn subtract_registers_sets_no_borrow() {
    let mut emu = machine(&[0x61, 0x05, 0x62, 0x07, 0x81, 0x25, 0x63, 0x07, 0x83, 0x25]);
    run(&mut emu, 3);
    assert_eq!(v(&emu, 1), 0xFE);
    assert_eq!(v(&emu, 0xF), 0);
    run(&mut emu, 2);
    assert_eq!(v(&emu, 3), 0);
    assert_eq!(v(&emu, 0xF), 1);
}

#[test]
fn subtract_from_sets_no_borrow() {
    let mut emu = machine(&[0x61, 0x05, 0x62, 0x07, 0x81, 0x27, 0x63, 0x09, 0x83, 0x27]);
    run(&mut emu, 3);
    assert_eq!(v(&emu, 1), 0x02);
    assert_eq!(v(&emu, 0xF), 1);
    run(&mut emu, 2);
    assert_eq!(v(&emu, 3), 0xFE);
    assert_eq!(v(&emu, 0xF), 0);
}

#[test]
fn shifts_move_the_lost_bit_to_the_flag() {
    // the shifts work on VX; VY (here 0xFF) plays no part
    let mut emu = machine(&[0x61, 0x85, 0x62, 0xFF, 0x81, 0x26, 0x63, 0x85, 0x83, 0x2E]);
    run(&mut emu, 3);
    assert_eq!(v(&emu, 1), 0x42);
    assert_eq!(v(&emu, 0xF), 1);
    run(&mut emu, 2);
    assert_eq!(v(&emu, 3), 0x0A);
    assert_eq!(v(&emu, 0xF), 1);
    assert_eq!(v(&emu, 2), 0xFF);
}

#[test]
fn flag_wins_when_the_target_is_the_flag_register() {
    // VF = 0xF0, V1 = 0x20, VF += V1: the sum 0x10 gives way to the carry
    let mut emu = machine(&[0x6F, 0xF0, 0x61, 0x20, 0x8F, 0x14]);
    run(&mut emu, 3);
    assert_eq!(v(&emu, 0xF), 1);
}

#[test]
fn load_index_and_add_to_index() {
    let mut emu = machine(&[0xA1, 0x23, 0x61, 0x10, 0xF1, 0x1E]);
    run(&mut emu, 1);
    assert_eq!(emu.registers().index(), 0x123);
    run(&mut emu, 2);
    assert_eq!(emu.registers().index(), 0x133);
    assert_eq!(v(&emu, 0xF), 0);
}

#[test]
fn random_is_masked() {
    let mut emu = machine(&[0xC1, 0x0F, 0xC2, 0xFF]);
    let input = Input { random: 0xA7, keypad: None };
    assert_eq!(emu.tick(&input), Ok(State::Running));
    assert_eq!(v(&emu, 1), 0x07);
    assert_eq!(emu.tick(&input), Ok(State::Running));
    assert_eq!(v(&emu, 2), 0xA7);
}

#[test]
fn key_skips_follow_the_keypad() {
    let program = [0x61, 0x0B, 0xE1, 0x9E, 0x00, 0x00, 0xE1, 0xA1];
    // key B down: EX9E skips, EXA1 does not
    let mut emu = machine(&program);
    run(&mut emu, 1);
    assert_eq!(emu.tick(&keys(&[0xB], None)), Ok(State::Running));
    assert_eq!(pc(&emu), 0x206);
    assert_eq!(emu.tick(&keys(&[0xB], None)), Ok(State::Running));
    assert_eq!(pc(&emu), 0x208);
    // key B up: EX9E does not skip
    let mut emu = machine(&program);
    run(&mut emu, 1);
    assert_eq!(emu.tick(&keys(&[0x1], None)), Ok(State::Running));
    assert_eq!(pc(&emu), 0x204);
    // key B up: EXA1 skips
    let mut emu = machine(&[0x61, 0x0B, 0xE1, 0xA1]);
    run(&mut emu, 1);
    assert_eq!(emu.tick(&keys(&[0x1], None)), Ok(State::Running));
    assert_eq!(pc(&emu), 0x206);
}

#[test]
fn key_skips_never_skip_without_a_keypad() {
    let mut emu = machine(&[0xE1, 0x9E, 0xE1, 0xA1]);
    run(&mut emu, 2);
    assert_eq!(pc(&emu), 0x204);
}

#[test]
fn wait_key_waits_until_a_key_is_pressed() {
    let mut emu = machine(&[0xF3, 0x0A, 0x63, 0x00]);
    assert_eq!(emu.tick(&idle()), Ok(State::AwaitingKey));
    assert_eq!(emu.state(), State::AwaitingKey);
    assert_eq!(pc(&emu), 0x200);
    assert_eq!(emu.tick(&keys(&[], None)), Ok(State::AwaitingKey));
    assert_eq!(pc(&emu), 0x200);
    assert_eq!(v(&emu, 3), 0);
    assert_eq!(emu.tick(&keys(&[0xC], Some(0xC))), Ok(State::Running));
    assert_eq!(v(&emu, 3), 0xC);
    assert_eq!(pc(&emu), 0x202);
    assert_eq!(emu.state(), State::Running);
}

#[test]
fn timers_are_set_and_read() {
    let mut emu = machine(&[0x61, 0x03, 0xF1, 0x15, 0xF1, 0x18, 0xF2, 0x07]);
    run(&mut emu, 3);
    assert_eq!(emu.delay_timer(), 3);
    assert_eq!(emu.sound_timer(), 3);
    emu.count_down_timers();
    assert_eq!(emu.delay_timer(), 2);
    assert_eq!(emu.sound_timer(), 2);
    run(&mut emu, 1);
    assert_eq!(v(&emu, 2), 2);
    emu.set_sound_timer(0);
    emu.count_down_timers();
    emu.count_down_timers();
    emu.count_down_timers();
    assert_eq!(emu.delay_timer(), 0);
    assert_eq!(emu.sound_timer(), 0);
    emu.set_delay_timer(9);
    assert_eq!(emu.delay_timer(), 9);
}

#[test]
fn glyph_address_is_five_times_the_digit() {
    let mut emu = machine(&[0x61, 0x0A, 0xF1, 0x29, 0x61, 0x13, 0xF1, 0x29]);
    run(&mut emu, 2);
    assert_eq!(emu.registers().index(), 50);
    run(&mut emu, 2);
    assert_eq!(emu.registers().index(), 15);
}

#[test]
fn decimal_digits_are_stored_at_index() {
    let mut emu = machine(&[0x61, 234, 0xA3, 0x00, 0xF1, 0x33]);
    run(&mut emu, 3);
    assert_eq!(emu.memory().read_byte(0x300), Ok(2));
    assert_eq!(emu.memory().read_byte(0x301), Ok(3));
    assert_eq!(emu.memory().read_byte(0x302), Ok(4));
    assert_eq!(emu.memory().read_byte(0x303), Ok(0));
    assert_eq!(emu.registers().index(), 0x300);
}

#[test]
fn registers_are_stored_and_restored() {
    let mut emu = machine(&[
        0x60, 0x11, 0x61, 0x22, 0x62, 0x33, 0xA3, 0x00, 0xF1, 0x55, 0x60, 0x00, 0x61, 0x00, 0x62,
        0x00, 0xF2, 0x65,
    ]);
    run(&mut emu, 5);
    assert_eq!(emu.memory().read_byte(0x300), Ok(0x11));
    assert_eq!(emu.memory().read_byte(0x301), Ok(0x22));
    assert_eq!(emu.memory().read_byte(0x302), Ok(0));
    assert_eq!(emu.registers().index(), 0x300);
    run(&mut emu, 4);
    assert_eq!(v(&emu, 0), 0x11);
    assert_eq!(v(&emu, 1), 0x22);
    assert_eq!(v(&emu, 2), 0);
    assert_eq!(emu.registers().index(), 0x300);
}

#[test]
fn store_past_the_end_of_memory_is_fatal() {
    // I = 0xFFF, store V0..V1
    let mut emu = machine(&[0xAF, 0xFF, 0x60, 0x55, 0xF1, 0x55]);
    run(&mut emu, 2);
    assert_eq!(
        emu.tick(&idle()),
        Err(Fault { error: Error::OutOfBounds, pc: 0x204, opcode: 0xF155 })
    );
    assert_eq!(emu.state(), State::Halted);
    assert_eq!(emu.memory().read_byte(0xFFF), Ok(0));
}

#[test]
fn restore_and_digits_past_the_end_of_memory_are_fatal() {
    let mut emu = machine(&[0xAF, 0xFF, 0xF1, 0x65]);
    run(&mut emu, 1);
    assert_eq!(
        emu.tick(&idle()),
        Err(Fault { error: Error::OutOfBounds, pc: 0x202, opcode: 0xF165 })
    );
    let mut emu = machine(&[0xAF, 0xFE, 0xF1, 0x33]);
    run(&mut emu, 1);
    assert_eq!(
        emu.tick(&idle()),
        Err(Fault { error: Error::OutOfBounds, pc: 0x202, opcode: 0xF133 })
    );
    assert_eq!(emu.state(), State::Halted);
}

#[test]
fn store_of_one_register_fits_in_the_last_byte() {
    let mut emu = machine(&[0xAF, 0xFF, 0x60, 0x55, 0xF0, 0x55]);
    run(&mut emu, 3);
    assert_eq!(emu.memory().read_byte(0xFFF), Ok(0x55));
}

#[test]
fn program_of_the_largest_size_loads() {
    let mut emu = Emu::new();
    let program = vec![0xAB; 3584];
    assert_eq!(emu.load_program(&program), Ok(()));
    assert_eq!(emu.memory().read_byte(0x1FF), Ok(0));
    assert_eq!(emu.memory().read_byte(0x200), Ok(0xAB));
    assert_eq!(emu.memory().read_byte(0xFFF), Ok(0xAB));
}

#[test]
fn program_too_large_is_refused() {
    let mut emu = Emu::new();
    let program = vec![0xAB; 3585];
    assert_eq!(emu.load_program(&program), Err(Error::LoadTooLarge));
    assert_eq!(emu.memory().read_byte(0x200), Ok(0));
    assert_eq!(emu.memory().read_byte(0xFFF), Ok(0));
}

#[test]
fn halt_stops_the_machine() {
    let mut emu = machine(&[0x60, 0x05]);
    emu.halt();
    assert_eq!(emu.state(), State::Halted);
    assert_eq!(emu.tick(&idle()), Ok(State::Halted));
    assert_eq!(v(&emu, 0), 0);
    assert_eq!(pc(&emu), 0x200);
}

#[test]
fn independent_machines_do_not_share_state() {
    let mut a = machine(&[0x60, 0x01]);
    let mut b = machine(&[0x60, 0x02]);
    run(&mut a, 1);
    run(&mut b, 1);
    assert_eq!(v(&a, 0), 1);
    assert_eq!(v(&b, 0), 2);
}

#[test]
fn only_unknown_opcode_is_not_fatal() {
    assert!(Error::LoadTooLarge.is_fatal());
    assert!(Error::OutOfBounds.is_fatal());
    assert!(Error::StackUnderflow.is_fatal());
    assert!(!Error::UnknownOpcode.is_fatal());
}
