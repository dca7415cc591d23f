use chip8_rs::constants::{HEIGHT, WIDTH};
use chip8_rs::decoder::decode_and_execute;
use chip8_rs::isa::ExecError;
use chip8_rs::state::State;

#[test]
fn instruction_clear_screen() {
    let mut state = State::new();

    state.screen[0] = true; // Set a pixel
    state.screen[WIDTH * HEIGHT - 1] = true; // Set another pixel

    // 0x00E0: Clear the display
    state.memory[0x200] = 0x00;
    state.memory[0x201] = 0xE0;

    decode_and_execute(&mut state).expect("Failed to execute instruction");

    assert_eq!(state.screen, [false; WIDTH * HEIGHT]);
    assert_eq!(state.pc, 0x202);
}

#[test]
fn instruction_jump() {
    let mut state = State::new();
    // 0x1NNN: Jump to address NNN
    state.memory[0x200] = 0x12;
    state.memory[0x201] = 0x34;

    decode_and_execute(&mut state).expect("Failed to execute instruction");

    assert_eq!(state.pc, 0x234);
}

#[test]
fn instruction_call_and_return() {
    let mut state = State::new();

    // 0x2NNN: Execute subroutine starting at address NNN
    state.memory[0x200] = 0x23; // CALL 0x345
    state.memory[0x201] = 0x45; // CALL 0x345

    // 0x00EE: Return from subroutine
    state.memory[0x345] = 0x00; // RET instruction high byte
    state.memory[0x346] = 0xEE; // RET instruction low byte

    decode_and_execute(&mut state).expect("Failed to execute instruction");

    assert_eq!(state.pc, 0x345);
    assert_eq!(state.stack.len(), 1);
    assert_eq!(state.stack[0], 0x202);

    decode_and_execute(&mut state).expect("Failed to execute instruction");

    assert_eq!(state.pc, 0x202);
    assert_eq!(state.stack.len(), 0);
}

#[test]
fn instruction_call_stack_underflow() {
    let mut state = State::new();

    // 0x00EE: Return from subroutine before any CALL to cause stack underflow
    state.memory[0x200] = 0x00; // RET instruction high byte
    state.memory[0x201] = 0xEE; // RET instruction low byte

    decode_and_execute(&mut state).expect_err("Should have caused a stack underflow");
}

#[test]
fn instruction_skip_if_equal() {
    let mut state = State::new();
    // 0x3XNN: Skip the following instruction if the value of register VX equals NN
    state.v[0] = 0x42;
    state.memory[0x200] = 0x30; // SE V0, 0x42
    state.memory[0x201] = 0x42; // SE V0, 0x42

    decode_and_execute(&mut state).expect("Failed to execute instruction");

    assert_eq!(state.pc, 0x204); // Should have skipped the next instruction
}

#[test]
fn instruction_no_skip_if_not_equal() {
    let mut state = State::new();
    // 0x3XNN: Skip the following instruction if the value of register VX equals NN
    state.v[0] = 0x41;
    state.memory[0x200] = 0x30; // SE V0, 0x42
    state.memory[0x201] = 0x42; // SE V0, 0x42

    decode_and_execute(&mut state).expect("Failed to execute instruction");

    assert_eq!(state.pc, 0x202); // Should not have skipped the next instruction
}

/// Places `op` at the program start of a fresh machine.
fn machine_with(op: u16) -> State {
    let mut state = State::new();
    state.memory[0x200] = (op >> 8) as u8;
    state.memory[0x201] = (op & 0xFF) as u8;
    state
}

#[test]
fn jump_lands_exactly_on_target() {
    for target in [0x000usize, 0x200, 0x2AE, 0xFFF] {
        let mut state = machine_with(0x1000 | target as u16);
        assert_eq!(decode_and_execute(&mut state), Ok(None));
        assert_eq!(state.pc, target);
    }
}

#[test]
fn load_immediate_touches_only_vx() {
    let mut state = machine_with(0x6A5C);
    for r in 0..16 {
        state.v[r] = r as u8;
    }
    decode_and_execute(&mut state).unwrap();
    for r in 0..16 {
        if r == 0xA {
            assert_eq!(state.v[r], 0x5C);
        } else {
            assert_eq!(state.v[r], r as u8);
        }
    }
    assert_eq!(state.pc, 0x202);
}

#[test]
fn add_registers_sets_carry() {
    let mut state = machine_with(0x8124);
    state.v[1] = 0xFF;
    state.v[2] = 0x01;
    decode_and_execute(&mut state).unwrap();
    assert_eq!(state.v[1], 0x00);
    assert_eq!(state.v[0xF], 1);

    let mut state = machine_with(0x8124);
    state.v[1] = 0x01;
    state.v[2] = 0x01;
    decode_and_execute(&mut state).unwrap();
    assert_eq!(state.v[1], 0x02);
    assert_eq!(state.v[0xF], 0);
}

#[test]
fn subtract_registers_sets_no_borrow() {
    let mut state = machine_with(0x8125);
    state.v[1] = 0x01;
    state.v[2] = 0x02;
    decode_and_execute(&mut state).unwrap();
    assert_eq!(state.v[1], 0xFF);
    assert_eq!(state.v[0xF], 0);

    let mut state = machine_with(0x8125);
    state.v[1] = 0x02;
    state.v[2] = 0x01;
    decode_and_execute(&mut state).unwrap();
    assert_eq!(state.v[1], 0x01);
    assert_eq!(state.v[0xF], 1);
}

#[test]
fn reverse_subtract_and_shifts() {
    let mut state = machine_with(0x8127);
    state.v[1] = 0x05;
    state.v[2] = 0x03;
    decode_and_execute(&mut state).unwrap();
    assert_eq!(state.v[1], 0xFE);
    assert_eq!(state.v[0xF], 0);

    let mut state = machine_with(0x8126);
    state.v[2] = 0x05;
    decode_and_execute(&mut state).unwrap();
    assert_eq!(state.v[1], 0x02);
    assert_eq!(state.v[0xF], 1);

    let mut state = machine_with(0x812E);
    state.v[2] = 0x81;
    decode_and_execute(&mut state).unwrap();
    assert_eq!(state.v[1], 0x02);
    assert_eq!(state.v[0xF], 1);
}

#[test]
fn logic_and_add_immediate() {
    let mut state = machine_with(0x8121);
    state.v[1] = 0b1100;
    state.v[2] = 0b1010;
    decode_and_execute(&mut state).unwrap();
    assert_eq!(state.v[1], 0b1110);

    let mut state = machine_with(0x7102);
    state.v[1] = 0xFF;
    state.v[0xF] = 7;
    decode_and_execute(&mut state).unwrap();
    assert_eq!(state.v[1], 0x01);
    assert_eq!(state.v[0xF], 7);
}

#[test]
fn clear_screen_clears_full_screen() {
    let mut state = machine_with(0x00E0);
    state.screen = [true; WIDTH * HEIGHT];
    decode_and_execute(&mut state).unwrap();
    assert!(state.screen.iter().all(|&c| !c));
}

#[test]
fn call_then_return_restores_depth() {
    let mut state = machine_with(0x2400);
    state.stack.push(0x300);
    state.memory[0x400] = 0x00;
    state.memory[0x401] = 0xEE;
    decode_and_execute(&mut state).unwrap();
    assert_eq!(state.stack.len(), 2);
    decode_and_execute(&mut state).unwrap();
    assert_eq!(state.pc, 0x202);
    assert_eq!(state.stack, vec![0x300]);
}

#[test]
fn return_on_empty_stack_reports_underflow() {
    let mut state = machine_with(0x00EE);
    assert_eq!(decode_and_execute(&mut state), Err(ExecError::StackUnderflow));
    assert_eq!(state.pc, 0x202);
    assert!(state.stack.is_empty());
}

#[test]
fn call_on_full_stack_reports_overflow() {
    let mut state = machine_with(0x2300);
    for k in 0..12 {
        state.stack.push(0x200 + 2 * k);
    }
    assert_eq!(decode_and_execute(&mut state), Err(ExecError::StackOverflow));
    assert_eq!(state.stack.len(), 12);
}

#[test]
fn draw_sets_flag_only_on_collision() {
    // I points at the glyph for 0; draw it at (0, 0) twice.
    let mut state = machine_with(0xD015);
    state.memory[0x202] = 0xD0;
    state.memory[0x203] = 0x15;
    decode_and_execute(&mut state).unwrap();
    assert_eq!(state.v[0xF], 0);
    assert!(state.screen[0] && state.screen[3] && !state.screen[4]);
    assert!(state.screen[WIDTH] && !state.screen[WIDTH + 1]);
    decode_and_execute(&mut state).unwrap();
    assert_eq!(state.v[0xF], 1);
    assert!(state.screen.iter().all(|&c| !c));
}

#[test]
fn draw_wraps_each_pixel() {
    // Glyph 0 at (62, 31): its columns 2..3 wrap to x 0..1, rows 1.. to y 0..
    let mut state = machine_with(0xD015);
    state.v[0] = 62;
    state.v[1] = 31;
    decode_and_execute(&mut state).unwrap();
    assert!(state.screen[31 * WIDTH + 62]);
    assert!(state.screen[31 * WIDTH + 1]);
    assert!(state.screen[0 * WIDTH + 62]);
    assert!(!state.screen[0 * WIDTH + 63]);
    assert_eq!(state.v[0xF], 0);
}

#[test]
fn bcd_writes_three_digits() {
    let mut state = machine_with(0xF233);
    state.v[2] = 254;
    state.i = 0x300;
    decode_and_execute(&mut state).unwrap();
    assert_eq!(&state.memory[0x300..0x303], &[2, 5, 4]);
    assert_eq!(chip8_rs::decoder::bcd(7), (0, 0, 7));
}

#[test]
fn register_block_transfer_round_trip() {
    let mut state = machine_with(0xF255);
    state.v[0] = 9;
    state.v[1] = 8;
    state.v[2] = 7;
    state.i = 0x300;
    decode_and_execute(&mut state).unwrap();
    assert_eq!(&state.memory[0x300..0x304], &[9, 8, 7, 0]);
    assert_eq!(state.i, 0x303);

    let mut state = machine_with(0xF165);
    state.memory[0xFFF] = 0x11;
    state.memory[0x000] = 0x22;
    state.i = 0xFFF;
    decode_and_execute(&mut state).unwrap();
    assert_eq!((state.v[0], state.v[1]), (0x11, 0x22));
    assert_eq!(state.i, 0x001);
}

#[test]
fn index_register_instructions() {
    let mut state = machine_with(0xF31E);
    state.i = 0xFFE;
    state.v[3] = 5;
    decode_and_execute(&mut state).unwrap();
    assert_eq!(state.i, 0x003);

    let mut state = machine_with(0xF329);
    state.v[3] = 0x1B;
    decode_and_execute(&mut state).unwrap();
    assert_eq!(state.i, 0xB * 5);

    let mut state = machine_with(0xBFFF);
    state.v[0] = 2;
    decode_and_execute(&mut state).unwrap();
    assert_eq!(state.pc, 0x001);
}

#[test]
fn random_byte_is_masked() {
    for mask in [0x00u8, 0x0F, 0xA5, 0xFF] {
        let mut state = machine_with(0xC400 | mask as u16);
        state.v[4] = 0xFF;
        let seed = state.rng_state;
        decode_and_execute(&mut state).unwrap();
        assert_eq!(state.v[4] & !mask, 0);
        assert_ne!(state.rng_state, seed);
    }
}

#[test]
fn key_skips_consume_the_latch() {
    let mut state = machine_with(0xE59E);
    state.v[5] = 0xA;
    state.key_pressed = Some(0xA);
    decode_and_execute(&mut state).unwrap();
    assert_eq!(state.pc, 0x204);
    assert_eq!(state.key_pressed, None);

    let mut state = machine_with(0xE5A1);
    state.v[5] = 0xA;
    state.key_pressed = Some(0xA);
    decode_and_execute(&mut state).unwrap();
    assert_eq!(state.pc, 0x202);
    assert_eq!(state.key_pressed, None);
}

#[test]
fn timers_move_through_registers() {
    let mut state = machine_with(0xF615);
    state.v[6] = 42;
    decode_and_execute(&mut state).unwrap();
    assert_eq!(state.delay_timer, 42);

    let mut state = machine_with(0xF607);
    state.delay_timer = 17;
    decode_and_execute(&mut state).unwrap();
    assert_eq!(state.v[6], 17);

    let mut state = machine_with(0xF618);
    state.v[6] = 3;
    decode_and_execute(&mut state).unwrap();
    assert_eq!(state.sound_timer, 3);
}

#[test]
fn unknown_instructions_only_advance() {
    for op in [0x0123u16, 0x5121, 0x812F, 0x9121, 0xE1FF, 0xF1AB] {
        assert!(chip8_rs::decoder::unknown_op(op));
        let mut state = machine_with(op);
        state.v[1] = 1;
        let before_v = state.v;
        assert_eq!(decode_and_execute(&mut state), Ok(None));
        assert_eq!(state.pc, 0x202);
        assert_eq!(state.v, before_v);
    }
    for op in [0x00E0u16, 0x00EE, 0x1234, 0x5120, 0x812E, 0xE19E, 0xF1FF] {
        assert!(!chip8_rs::decoder::unknown_op(op));
    }
}

#[test]
fn halt_returns_register_index() {
    let mut state = machine_with(0xF7FF);
    assert_eq!(decode_and_execute(&mut state), Ok(Some(7)));
}
