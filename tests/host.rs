use chip8::{half_block, key_press_command, timers_due, HostKey, KeyTracker, KeyboardCommand};
use chip8::{MachineState, State};

#[test]
fn key_tracker_sets_and_clears_bits() {
    let mut t = KeyTracker::new();
    assert_eq!(t.command(), KeyboardCommand::KeypadState(0));
    t.key_event(HostKey::Num1, true);
    t.key_event(HostKey::X, true);
    t.key_event(HostKey::V, true);
    assert_eq!(t.command(), KeyboardCommand::KeypadState(0x8003));
    t.key_event(HostKey::Num1, false);
    assert_eq!(t.command(), KeyboardCommand::KeypadState(0x8001));
    t.key_event(HostKey::Num4, true);
    assert_eq!(t.keys, 0x9001);
}

#[test]
fn quit_key_quits() {
    let mut t = KeyTracker::new();
    t.key_event(HostKey::W, true);
    t.key_event(HostKey::O, true);
    t.key_event(HostKey::O, false);
    assert_eq!(t.command(), KeyboardCommand::Quit);
}

#[test]
fn key_press_commands() {
    assert_eq!(key_press_command(HostKey::Num1), KeyboardCommand::SingleKey(1));
    assert_eq!(key_press_command(HostKey::Num4), KeyboardCommand::SingleKey(0xC));
    assert_eq!(key_press_command(HostKey::X), KeyboardCommand::SingleKey(0));
    assert_eq!(key_press_command(HostKey::F), KeyboardCommand::SingleKey(0xE));
    assert_eq!(key_press_command(HostKey::O), KeyboardCommand::Quit);
    assert_eq!(HostKey::Z.keypad_value(), Some(0xA));
    assert_eq!(HostKey::O.keypad_value(), None);
}

#[test]
fn keyboard_commands_reach_the_machine() {
    let mut s = State::new(&[0xF2, 0x0A]).unwrap();
    assert!(s.apply_keyboard_command(KeyboardCommand::KeypadState(0x0042)));
    assert_eq!(s.keypad(), 0x0042);
    assert!(matches!(s.execute_instruction_with(0), Ok(MachineState::WaitForKeyboard)));
    assert!(s.apply_keyboard_command(KeyboardCommand::SingleKey(9)));
    assert_eq!(s.register(2), 9);
    assert!(!s.apply_keyboard_command(KeyboardCommand::Quit));
    assert_eq!(s.keypad(), 0x0042);
}

#[test]
fn half_blocks() {
    assert_eq!(half_block(true, true), '\u{2588}');
    assert_eq!(half_block(true, false), '\u{2580}');
    assert_eq!(half_block(false, true), '\u{2584}');
    assert_eq!(half_block(false, false), ' ');
}

#[test]
fn timer_cadence() {
    assert!(!timers_due(16));
    assert!(timers_due(17));
    assert!(!timers_due(0));
}
