//! From host key events to what the run loop hands the machine.
use vstd::prelude::*;

verus! {

/// What the host's keyboard tells the run loop.
#[derive(Clone, Copy, Debug, PartialEq, Eq, Structural)]
pub enum KeyboardCommand {
    /// The keys held now: bit `n` for key `n`.
    KeypadState(u16),
    /// A key pressed while the machine waits for one.
    SingleKey(u8),
    /// Stop the emulator.
    Quit,
}

/// The host keys the emulator listens to. The sixteen keys of the left of a
/// keyboard stand for the keypad, laid out as it is:
///
/// ```text
///  Keypad       Keyboard
///  1 2 3 C      1 2 3 4
///  4 5 6 D      Q W E R
///  7 8 9 E      A S D F
///  A 0 B F      Z X C V
/// ```
///
/// and `O` quits.
#[derive(Clone, Copy, Debug, PartialEq, Eq, Structural)]
pub enum HostKey {
    Num1,
    Num2,
    Num3,
    Num4,
    Q,
    W,
    E,
    R,
    A,
    S,
    D,
    F,
    Z,
    X,
    C,
    V,
    O,
}

/// The keypad key that `k` stands for; none for the quit key.
pub open spec fn keypad_value_spec(k: HostKey) -> Option<u8> {
    match k {
        HostKey::Num1 => Some(0x1u8),
        HostKey::Num2 => Some(0x2u8),
        HostKey::Num3 => Some(0x3u8),
        HostKey::Num4 => Some(0xCu8),
        HostKey::Q => Some(0x4u8),
        HostKey::W => Some(0x5u8),
        HostKey::E => Some(0x6u8),
        HostKey::R => Some(0xDu8),
        HostKey::A => Some(0x7u8),
        HostKey::S => Some(0x8u8),
        HostKey::D => Some(0x9u8),
        HostKey::F => Some(0xEu8),
        HostKey::Z => Some(0xAu8),
        HostKey::X => Some(0x0u8),
        HostKey::C => Some(0xBu8),
        HostKey::V => Some(0xFu8),
        HostKey::O => None,
    }
}

impl HostKey {
    /// The keypad key that this key stands for; none for the quit key.
    pub fn keypad_value(self) -> (r: Option<u8>)
        ensures
            r == keypad_value_spec(self),
            r matches Some(v) ==> v < 16,
    {
        match self {
            HostKey::Num1 => Some(0x1),
            HostKey::Num2 => Some(0x2),
            HostKey::Num3 => Some(0x3),
            HostKey::Num4 => Some(0xC),
            HostKey::Q => Some(0x4),
            HostKey::W => Some(0x5),
            HostKey::E => Some(0x6),
            HostKey::R => Some(0xD),
            HostKey::A => Some(0x7),
            HostKey::S => Some(0x8),
            HostKey::D => Some(0x9),
            HostKey::F => Some(0xE),
            HostKey::Z => Some(0xA),
            HostKey::X => Some(0x0),
            HostKey::C => Some(0xB),
            HostKey::V => Some(0xF),
            HostKey::O => None,
        }
    }
}

/// The command for a key pressed while the machine waits for one: the key's
/// keypad value, or quitting for the quit key.
pub fn key_press_command(key: HostKey) -> (r: KeyboardCommand)
    ensures
        r == (match keypad_value_spec(key) {
            Some(v) => KeyboardCommand::SingleKey(v),
            None => KeyboardCommand::Quit,
        }),
{
    match key.keypad_value() {
        Some(v) => KeyboardCommand::SingleKey(v),
        None => KeyboardCommand::Quit,
    }
}

/// `mask` with bit `v` set or cleared.
pub open spec fn with_bit(mask: u16, v: u8, on: bool) -> u16 {
    if on {
        mask | (1u16 << (v as u16))
    } else {
        mask & !(1u16 << (v as u16))
    }
}

/// Which keys are held, and whether the quit key was pressed, as key events
/// come in.
pub struct KeyTracker {
    pub keys: u16,
    pub quit: bool,
}

impl KeyTracker {
    /// No key held, no quit.
    pub fn new() -> (r: KeyTracker)
        ensures
            r.keys == 0,
            !r.quit,
    {
        KeyTracker { keys: 0, quit: false }
    }

    /// Records that `key` went down (`pressed`) or up. A keypad key sets or
    /// clears its bit; pressing the quit key asks to quit, and releasing it
    /// does not take that back.
    pub fn key_event(&mut self, key: HostKey, pressed: bool)
        ensures
            (match keypad_value_spec(key) {
                Some(v) => final(self).keys == with_bit(old(self).keys, v, pressed)
                    && final(self).quit == old(self).quit,
                None => final(self).keys == old(self).keys
                    && final(self).quit == (old(self).quit || pressed),
            }),
    {
        match key.keypad_value() {
            Some(v) => {
                let bit: u16 = 1u16 << (v as u16);
                if pressed {
                    self.keys = self.keys | bit;
                } else {
                    self.keys = self.keys & !bit;
                }
            },
            None => {
                if pressed {
                    self.quit = true;
                }
            },
        }
    }

    /// What to hand the run loop: quitting once the quit key was pressed,
    /// otherwise the keys held.
    pub fn command(&self) -> (r: KeyboardCommand)
        ensures
            r == if self.quit {
                KeyboardCommand::Quit
            } else {
                KeyboardCommand::KeypadState(self.keys)
            },
    {
        if self.quit {
            KeyboardCommand::Quit
        } else {
            KeyboardCommand::KeypadState(self.keys)
        }
    }
}

} // verus!
