use chip8::machine::{MAX_PROGRAM_LEN, PROGRAM_START};
use chip8::{decode, ExecutionError, Instruction, LoadError, MachineState, State};

const FONT: [u8; 80] = [
    0xF0, 0x90, 0x90, 0x90, 0xF0, 0x20, 0x60, 0x20, 0x20, 0x70, 0xF0, 0x10, 0xF0, 0x80, 0xF0,
    0xF0, 0x10, 0xF0, 0x10, 0xF0, 0x90, 0x90, 0xF0, 0x10, 0x10, 0xF0, 0x80, 0xF0, 0x10, 0xF0,
    0xF0, 0x80, 0xF0, 0x90, 0xF0, 0xF0, 0x10, 0x20, 0x40, 0x40, 0xF0, 0x90, 0xF0, 0x90, 0xF0,
    0xF0, 0x90, 0xF0, 0x10, 0xF0, 0xF0, 0x90, 0xF0, 0x90, 0x90, 0xE0, 0x90, 0xE0, 0x90, 0xE0,
    0xF0, 0x80, 0x80, 0x80, 0xF0, 0xE0, 0x90, 0x90, 0x90, 0xE0, 0xF0, 0x80, 0xF0, 0x80, 0xF0,
    0xF0, 0x80, 0xF0, 0x80, 0x80,
];

fn program(words: &[u16]) -> Vec<u8> {
    let mut bytes = Vec::new();
    for w in words {
        bytes.push((w >> 8) as u8);
        bytes.push((w & 0xFF) as u8);
    }
    bytes
}

fn load(words: &[u16]) -> State {
    State::new(&program(words)).unwrap()
}

fn run(state: &mut State, steps: usize) {
    for _ in 0..steps {
        assert!(state.execute_instruction_with(0).is_ok());
    }
}

#[test]
fn load_places_program_and_font() {
    let bytes: Vec<u8> = (0..=255u8).cycle().take(1000).collect();
    let s = State::new(&bytes).unwrap();
    for (i, b) in bytes.iter().enumerate() {
        assert_eq!(s.memory_at((PROGRAM_START + i) as u16), *b);
    }
    for (i, b) in FONT.iter().enumerate() {
        assert_eq!(s.memory_at(i as u16), *b);
    }
    assert_eq!(s.memory_at(0x100), 0);
    assert_eq!(s.memory_at((PROGRAM_START + 1000) as u16), 0);
    assert_eq!(s.pc(), 0x200);
    assert_eq!(s.index(), 0);
    assert_eq!(s.stack_pointer(), 0);
    assert_eq!(s.screen(), [[0u8; 8]; 32]);
}

#[test]
fn load_largest_program() {
    let bytes = vec![0xABu8; MAX_PROGRAM_LEN];
    let s = State::new(&bytes).unwrap();
    assert_eq!(s.memory_at(0x200), 0xAB);
    assert_eq!(s.memory_at(0xFFF), 0xAB);
    assert_eq!(s.memory_at(0x4F), 0x80);
}

#[test]
fn load_too_large_program_fails() {
    let bytes = vec![0u8; MAX_PROGRAM_LEN + 1];
    assert!(matches!(State::new(&bytes), Err(LoadError::ProgramTooLarge(3585))));
}

#[test]
fn load_empty_program() {
    let s = State::new(&[]).unwrap();
    assert_eq!(s.memory_at(0x200), 0);
    assert_eq!(s.memory_at(0), 0xF0);
}

#[test]
fn add_immediate_leaves_flag() {
    let mut s = load(&[0x6F55, 0x6312, 0x7301]);
    run(&mut s, 3);
    assert_eq!(s.register(3), 0x13);
    assert_eq!(s.register(15), 0x55);
}

#[test]
fn add_immediate_wraps() {
    let mut s = load(&[0x63FF, 0x7302]);
    run(&mut s, 2);
    assert_eq!(s.register(3), 0x01);
    assert_eq!(s.register(15), 0);
}

#[test]
fn add_registers_sets_carry() {
    let mut s = load(&[0x6EFF, 0x6002, 0x8E04, 0x6E01, 0x8E04]);
    run(&mut s, 3);
    assert_eq!(s.register(14), 0x01);
    assert_eq!(s.register(15), 1);
    run(&mut s, 2);
    assert_eq!(s.register(14), 0x03);
    assert_eq!(s.register(15), 0);
}

#[test]
fn store_bcd_writes_digits() {
    let mut s = load(&[0x60EA, 0xA300, 0xF033]);
    run(&mut s, 3);
    assert_eq!(s.memory_at(0x300), 2);
    assert_eq!(s.memory_at(0x301), 3);
    assert_eq!(s.memory_at(0x302), 4);
}

#[test]
fn store_bcd_at_end_of_memory_fails() {
    let mut s = load(&[0x60EA, 0xAFFE, 0xF033]);
    run(&mut s, 2);
    assert_eq!(s.execute_instruction_with(0).err(), Some(ExecutionError::AddressOutOfRange(0xFFE)));
    assert_eq!(s.pc(), 0x204);
    assert_eq!(s.memory_at(0xFFE), 0);
}

#[test]
fn draw_full_row_twice_restores_display() {
    // The sprite byte 0xFF sits right after the code.
    let mut s = load(&[0xA20B, 0x600B, 0x6105, 0xD011, 0xD011, 0x00FF]);
    run(&mut s, 3);
    match s.execute_instruction_with(0) {
        Ok(MachineState::Draw(screen)) => {
            assert_eq!(screen[5][1], 0x1F);
            assert_eq!(screen[5][2], 0xE0);
        }
        _ => panic!("expected a draw"),
    }
    assert_eq!(s.register(15), 0);
    match s.execute_instruction_with(0) {
        Ok(MachineState::Draw(screen)) => assert_eq!(*screen, [[0u8; 8]; 32]),
        _ => panic!("expected a draw"),
    }
    assert_eq!(s.register(15), 1);
    assert_eq!(s.screen(), [[0u8; 8]; 32]);
}

#[test]
fn draw_wraps_at_edges() {
    // Sprite 0xFF at x = 62, y = 31, two rows high.
    let mut s = load(&[0xA20A, 0x603E, 0x611F, 0xD012, 0x0000, 0xFFFF]);
    run(&mut s, 4);
    let screen = s.screen();
    assert_eq!(screen[31][7], 0x03);
    assert_eq!(screen[31][0], 0xFC);
    assert_eq!(screen[0][7], 0x03);
    assert_eq!(screen[0][0], 0xFC);
    assert_eq!(screen[1][0], 0);
    assert_eq!(s.register(15), 0);
    assert!(chip8::pixel(&screen, 63, 31));
    assert!(chip8::pixel(&screen, 0, 0));
    assert!(!chip8::pixel(&screen, 6, 0));
}

#[test]
fn draw_past_end_of_memory_fails() {
    let mut s = load(&[0xAFFE, 0xD003]);
    run(&mut s, 1);
    assert_eq!(s.execute_instruction_with(0).err(), Some(ExecutionError::AddressOutOfRange(0xFFE)));
}

#[test]
fn clear_screen_blanks_display() {
    let mut s = load(&[0xA000, 0xD005, 0x00E0]);
    run(&mut s, 2);
    assert_ne!(s.screen(), [[0u8; 8]; 32]);
    assert!(matches!(s.execute_instruction_with(0), Ok(MachineState::SuccessfulExecution)));
    assert_eq!(s.screen(), [[0u8; 8]; 32]);
}

#[test]
fn call_then_return_restores_pc() {
    let mut words = vec![0u16; 0x80];
    words[0] = 0x2300;
    words[0x80 - 1] = 0x1000;
    let mut bytes = program(&words);
    bytes.resize(0x102, 0);
    bytes[0x100] = 0x00;
    bytes[0x101] = 0xEE;
    let mut s = State::new(&bytes).unwrap();
    run(&mut s, 1);
    assert_eq!(s.pc(), 0x300);
    assert_eq!(s.stack_pointer(), 1);
    run(&mut s, 1);
    assert_eq!(s.pc(), 0x202);
    assert_eq!(s.stack_pointer(), 0);
}

#[test]
fn return_on_empty_stack_fails() {
    let mut s = load(&[0x00EE]);
    assert_eq!(s.execute_instruction_with(0).err(), Some(ExecutionError::StackUnderflow));
    assert_eq!(s.pc(), 0x200);
}

#[test]
fn call_on_full_stack_fails() {
    let mut s = load(&[0x2200]);
    run(&mut s, 16);
    assert_eq!(s.stack_pointer(), 16);
    assert_eq!(s.execute_instruction_with(0).err(), Some(ExecutionError::StackOverflow));
    assert_eq!(s.stack_pointer(), 16);
    assert_eq!(s.pc(), 0x200);
}

#[test]
fn invalid_opcode_is_reported() {
    assert_eq!(decode(0x5001), Err(ExecutionError::InvalidOpcode(0x5001)));
    let mut s = load(&[0x5001]);
    assert_eq!(s.execute_instruction_with(0).err(), Some(ExecutionError::InvalidOpcode(0x5001)));
    assert_eq!(s.pc(), 0x200);
}

#[test]
fn decode_examples() {
    assert_eq!(decode(0x00E0), Ok(Instruction::ClearScreen));
    assert_eq!(decode(0x00EE), Ok(Instruction::Return));
    assert_eq!(decode(0x0123), Err(ExecutionError::InvalidOpcode(0x0123)));
    assert_eq!(decode(0x1ABC), Ok(Instruction::Jump(0xABC)));
    assert_eq!(decode(0x5120), Ok(Instruction::SkipIfRegistersEqual(1, 2)));
    assert_eq!(decode(0x8AB6), Ok(Instruction::ShiftRight(0xA)));
    assert_eq!(decode(0x8AB8), Err(ExecutionError::InvalidOpcode(0x8AB8)));
    assert_eq!(decode(0xD12F), Ok(Instruction::Draw(1, 2, 0xF)));
    assert_eq!(decode(0xE3A1), Ok(Instruction::SkipIfKeyNotPressed(3)));
    assert_eq!(decode(0xF265), Ok(Instruction::LoadRegisters(2)));
    assert_eq!(decode(0xF266), Err(ExecutionError::InvalidOpcode(0xF266)));
    assert_eq!(chip8::opcode::break_opcode(0xABCD), (0xA, 0xB, 0xC, 0xD));
}

#[test]
fn fetch_past_end_of_memory_fails() {
    let mut s = load(&[0x1FFF]);
    run(&mut s, 1);
    assert_eq!(s.pc(), 0xFFF);
    assert_eq!(s.get_opcode(), Err(ExecutionError::AddressOutOfRange(0xFFF)));
    assert_eq!(s.execute_instruction_with(0).err(), Some(ExecutionError::AddressOutOfRange(0xFFF)));
}

#[test]
fn get_opcode_reads_big_endian() {
    let s = load(&[0xA2F0]);
    assert_eq!(s.get_opcode(), Ok(0xA2F0));
}

#[test]
fn add_to_index_past_memory_fails() {
    let mut s = load(&[0xAFFF, 0x6001, 0xF01E]);
    run(&mut s, 2);
    assert_eq!(s.execute_instruction_with(0).err(), Some(ExecutionError::AddressOutOfRange(0x1000)));
    assert_eq!(s.index(), 0xFFF);
    let mut t = load(&[0xA100, 0x6020, 0xF01E]);
    run(&mut t, 3);
    assert_eq!(t.index(), 0x120);
}

#[test]
fn subtract_wraps_and_flags() {
    let mut s = load(&[0x6005, 0x6107, 0x8015]);
    run(&mut s, 3);
    assert_eq!(s.register(0), 0xFE);
    assert_eq!(s.register(15), 0);
    let mut t = load(&[0x6007, 0x6105, 0x8015]);
    run(&mut t, 3);
    assert_eq!(t.register(0), 0x02);
    assert_eq!(t.register(15), 1);
}

#[test]
fn subtract_reverse_wraps_and_flags() {
    let mut s = load(&[0x6007, 0x6105, 0x8017]);
    run(&mut s, 3);
    assert_eq!(s.register(0), 0xFE);
    assert_eq!(s.register(15), 0);
    let mut t = load(&[0x6005, 0x6107, 0x8017]);
    run(&mut t, 3);
    assert_eq!(t.register(0), 0x02);
    assert_eq!(t.register(15), 1);
}

#[test]
fn shifts_set_flag_to_bit_shifted_out() {
    let mut s = load(&[0x6081, 0x8006, 0x6181, 0x811E]);
    run(&mut s, 2);
    assert_eq!(s.register(0), 0x40);
    assert_eq!(s.register(15), 1);
    run(&mut s, 2);
    assert_eq!(s.register(1), 0x02);
    assert_eq!(s.register(15), 1);
}

#[test]
fn bitwise_operations() {
    let mut s = load(&[0x60F0, 0x613C, 0x8011, 0x62F0, 0x8212, 0x63F0, 0x8313, 0x8410]);
    run(&mut s, 8);
    assert_eq!(s.register(0), 0xFC);
    assert_eq!(s.register(2), 0x30);
    assert_eq!(s.register(3), 0xCC);
    assert_eq!(s.register(4), 0x3C);
}

#[test]
fn skips() {
    // 3xkk taken, 4xkk not taken, 5xy0 taken, 9xy0 not taken.
    let mut s = load(&[0x6042, 0x3042]);
    run(&mut s, 2);
    assert_eq!(s.pc(), 0x206);
    let mut s = load(&[0x6042, 0x4042]);
    run(&mut s, 2);
    assert_eq!(s.pc(), 0x204);
    let mut s = load(&[0x6042, 0x6142, 0x5010]);
    run(&mut s, 3);
    assert_eq!(s.pc(), 0x208);
    let mut s = load(&[0x6042, 0x6142, 0x9010]);
    run(&mut s, 3);
    assert_eq!(s.pc(), 0x206);
}

#[test]
fn jump_with_offset() {
    let mut s = load(&[0x6010, 0xB300]);
    run(&mut s, 2);
    assert_eq!(s.pc(), 0x310);
}

#[test]
fn keys_skip() {
    let mut s = load(&[0x6005, 0xE09E, 0xE0A1]);
    s.set_keys_pressed(1 << 5);
    assert_eq!(s.keypad(), 0x20);
    run(&mut s, 2);
    assert_eq!(s.pc(), 0x206);
    let mut t = load(&[0x6005, 0xE0A1]);
    run(&mut t, 2);
    assert_eq!(t.pc(), 0x206);
    // A register value that names no key is never held.
    let mut u = load(&[0x6015, 0xE09E]);
    u.set_keys_pressed(0xFFFF);
    run(&mut u, 2);
    assert_eq!(u.pc(), 0x204);
}

#[test]
fn timers_count_down_to_zero() {
    let mut s = load(&[0x6002, 0xF015, 0x6103, 0xF118, 0xF207]);
    run(&mut s, 4);
    assert_eq!(s.delay_timer(), 2);
    assert_eq!(s.sound_timer(), 3);
    s.decrement_timers();
    run(&mut s, 1);
    assert_eq!(s.register(2), 1);
    s.decrement_timers();
    s.decrement_timers();
    assert_eq!(s.delay_timer(), 0);
    assert_eq!(s.sound_timer(), 0);
}

#[test]
fn wait_for_key_blocks_until_delivered() {
    let mut s = load(&[0xF30A, 0x6101]);
    assert!(matches!(s.execute_instruction_with(0), Ok(MachineState::WaitForKeyboard)));
    assert_eq!(s.waiting_register(), Some(3));
    let pc = s.pc();
    assert!(matches!(s.execute_instruction_with(0), Ok(MachineState::WaitForKeyboard)));
    assert_eq!(s.pc(), pc);
    assert_eq!(s.register(1), 0);
    s.wait_key_press(7);
    assert_eq!(s.register(3), 7);
    assert_eq!(s.waiting_register(), None);
    run(&mut s, 1);
    assert_eq!(s.register(1), 1);
}

#[test]
fn key_press_without_wait_changes_nothing() {
    let mut s = load(&[0x6101]);
    s.wait_key_press(7);
    for r in 0..16 {
        assert_eq!(s.register(r), 0);
    }
}

#[test]
fn font_character_address() {
    let mut s = load(&[0x600A, 0xF029, 0x61FF, 0xF129]);
    run(&mut s, 2);
    assert_eq!(s.index(), 50);
    run(&mut s, 2);
    assert_eq!(s.index(), 1275);
}

#[test]
fn store_and_load_registers() {
    let mut s = load(&[0x6011, 0x6122, 0x6233, 0xA300, 0xF155, 0xA301, 0xF265]);
    run(&mut s, 5);
    assert_eq!(s.memory_at(0x300), 0x11);
    assert_eq!(s.memory_at(0x301), 0x22);
    assert_eq!(s.memory_at(0x302), 0);
    run(&mut s, 2);
    assert_eq!(s.register(0), 0x22);
    assert_eq!(s.register(1), 0);
    assert_eq!(s.register(2), 0x00);
    assert_eq!(s.index(), 0x301);
}

#[test]
fn random_and_uses_given_byte() {
    let mut s = load(&[0xC00F]);
    run(&mut s, 0);
    assert!(s.execute_instruction_with(0xAB).is_ok());
    assert_eq!(s.register(0), 0x0B);
}

#[test]
fn random_and_draws_masked_byte() {
    let mut s = load(&[0xC00F, 0xC100]);
    assert!(s.execute_instruction().is_ok());
    assert!(s.execute_instruction().is_ok());
    assert_eq!(s.register(0) & 0xF0, 0);
    assert_eq!(s.register(1), 0);
    assert_eq!(s.pc(), 0x204);
}
