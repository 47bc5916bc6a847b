//! What one step of the machine does, stated over `StateView`.
use vstd::prelude::*;

use crate::machine::{blank_screen, StateView, FLAG_REGISTER, MEMORY_SIZE};
use crate::opcode::{decode_spec, ExecutionError, Instruction};

verus! {

/// What the host is asked to do after a step.
#[derive(Clone, Copy, Debug, PartialEq, Eq, Structural)]
pub enum Effect {
    /// Nothing: step again.
    Continue,
    /// Show the display again.
    Redraw,
    /// Deliver a key before stepping on.
    AwaitKey,
}

/// Register `x`.
pub open spec fn reg(s: StateView, x: u8) -> u8 {
    s.registers[x as int]
}

/// `s` with register `x` set to `v`.
pub open spec fn set_reg(s: StateView, x: u8, v: u8) -> StateView {
    StateView { registers: s.registers.update(x as int, v), ..s }
}

/// `s` with register `x` set to `v`, then the flag register set to `f`.
pub open spec fn set_reg_flag(s: StateView, x: u8, v: u8, f: u8) -> StateView {
    set_reg(set_reg(s, x, v), FLAG_REGISTER as u8, f)
}

/// `s` with the next instruction skipped when `c` holds.
pub open spec fn skip_if(s: StateView, c: bool) -> StateView {
    if c {
        StateView { pc: (s.pc + 2) as u16, ..s }
    } else {
        s
    }
}

/// Key `k` is held: `k` names one of the sixteen keys and its bit is set.
pub open spec fn key_held(keypad: u16, k: u8) -> bool {
    k < 16 && (keypad >> (k as u16)) & 1 == 1
}

/// The display byte that column byte `col` of a row receives from the
/// sprite byte `sprite` drawn at horizontal pixel position `vx`: the sprite
/// shifted right by `vx % 8` into column byte `(vx / 8) % 8`, and the bits
/// pushed out into the next column byte, wrapping at the right edge.
pub open spec fn sprite_part(sprite: u8, vx: u8, col: int) -> u8 {
    let bx = ((vx / 8) % 8) as int;
    let rem = vx % 8;
    if col == bx {
        sprite >> rem
    } else if rem != 0 && col == (bx + 1) % 8 {
        sprite << ((8 - rem) as u8)
    } else {
        0
    }
}

/// What display byte (`row`, `col`) is XORed with when the first `k` rows of
/// the sprite at `index` are drawn at (`vx`, `vy`); rows wrap at the bottom.
pub open spec fn draw_mask(s: StateView, vx: u8, vy: u8, k: int, row: int, col: int) -> u8 {
    let i = (row - vy) % 32;
    if i < k {
        sprite_part(s.memory[s.index + i], vx, col)
    } else {
        0
    }
}

/// The display once the first `k` rows of the sprite are drawn.
pub open spec fn drawn_screen(s: StateView, vx: u8, vy: u8, k: int) -> Seq<Seq<u8>> {
    Seq::new(32, |r: int| Seq::new(8, |c: int| s.screen[r][c] ^ draw_mask(s, vx, vy, k, r, c)))
}

/// Drawing the first `k` rows of the sprite turns off a pixel that was on.
pub open spec fn collides(s: StateView, vx: u8, vy: u8, k: int) -> bool {
    exists|r: int, c: int|
        0 <= r < 32 && 0 <= c < 8 && #[trigger] (s.screen[r][c] & draw_mask(s, vx, vy, k, r, c))
            != 0
}

/// The three decimal digits of `v`, hundreds first.
pub open spec fn bcd(v: u8) -> Seq<u8> {
    seq![v / 100, (v % 100) / 10, v % 10]
}

/// An access of `len` bytes from `start` stays inside memory.
pub open spec fn in_memory(start: u16, len: int) -> bool {
    start + len <= MEMORY_SIZE
}

/// Executes `ins` on `s`, whose program counter already points past it.
/// Gives the new state and what the host is to do; on an error the state is
/// `s` itself.
pub open spec fn execute_spec(s: StateView, ins: Instruction, random: u8) -> (
    StateView,
    Result<Effect, ExecutionError>,
) {
    let ok = Ok(Effect::Continue);
    match ins {
        Instruction::ClearScreen => (StateView { screen: blank_screen(), ..s }, ok),
        Instruction::Return => if s.sp == 0 {
            (s, Err(ExecutionError::StackUnderflow))
        } else {
            (StateView { sp: (s.sp - 1) as nat, pc: s.stack[s.sp - 1], ..s }, ok)
        },
        Instruction::Jump(a) => (StateView { pc: a, ..s }, ok),
        Instruction::Call(a) => if s.sp >= 16 {
            (s, Err(ExecutionError::StackOverflow))
        } else {
            (StateView { stack: s.stack.update(s.sp as int, s.pc), sp: s.sp + 1, pc: a, ..s }, ok)
        },
        Instruction::SkipIfEqual(x, kk) => (skip_if(s, reg(s, x) == kk), ok),
        Instruction::SkipIfNotEqual(x, kk) => (skip_if(s, reg(s, x) != kk), ok),
        Instruction::SkipIfRegistersEqual(x, y) => (skip_if(s, reg(s, x) == reg(s, y)), ok),
        Instruction::SkipIfRegistersNotEqual(x, y) => (skip_if(s, reg(s, x) != reg(s, y)), ok),
        Instruction::LoadImmediate(x, kk) => (set_reg(s, x, kk), ok),
        Instruction::AddImmediate(x, kk) => (set_reg(s, x, ((reg(s, x) + kk) % 256) as u8), ok),
        Instruction::Move(x, y) => (set_reg(s, x, reg(s, y)), ok),
        Instruction::BitOr(x, y) => (set_reg(s, x, reg(s, x) | reg(s, y)), ok),
        Instruction::BitAnd(x, y) => (set_reg(s, x, reg(s, x) & reg(s, y)), ok),
        Instruction::BitXor(x, y) => (set_reg(s, x, reg(s, x) ^ reg(s, y)), ok),
        Instruction::AddRegisters(x, y) => {
            let sum = reg(s, x) + reg(s, y);
            (set_reg_flag(s, x, (sum % 256) as u8, if sum > 255 { 1 } else { 0 }), ok)
        },
        Instruction::Subtract(x, y) => (
            set_reg_flag(
                s,
                x,
                ((reg(s, x) - reg(s, y)) % 256) as u8,
                if reg(s, x) > reg(s, y) { 1 } else { 0 },
            ),
            ok,
        ),
        Instruction::SubtractReverse(x, y) => (
            set_reg_flag(
                s,
                x,
                ((reg(s, y) - reg(s, x)) % 256) as u8,
                if reg(s, y) > reg(s, x) { 1 } else { 0 },
            ),
            ok,
        ),
        Instruction::ShiftRight(x) => (set_reg_flag(s, x, reg(s, x) / 2, reg(s, x) % 2), ok),
        Instruction::ShiftLeft(x) => (
            set_reg_flag(s, x, ((reg(s, x) * 2) % 256) as u8, reg(s, x) / 128),
            ok,
        ),
        Instruction::SetIndex(a) => (StateView { index: a, ..s }, ok),
        Instruction::JumpWithOffset(a) => (StateView { pc: (a + reg(s, 0)) as u16, ..s }, ok),
        Instruction::RandomAnd(x, kk) => (set_reg(s, x, random & kk), ok),
        Instruction::Draw(x, y, n) => if !in_memory(s.index, n as int) {
            (s, Err(ExecutionError::AddressOutOfRange(s.index)))
        } else {
            let vx = reg(s, x);
            let vy = reg(s, y);
            (
                StateView {
                    screen: drawn_screen(s, vx, vy, n as int),
                    registers: s.registers.update(
                        FLAG_REGISTER as int,
                        if collides(s, vx, vy, n as int) { 1u8 } else { 0u8 },
                    ),
                    ..s
                },
                Ok(Effect::Redraw),
            )
        },
        Instruction::SkipIfKeyPressed(x) => (skip_if(s, key_held(s.keypad, reg(s, x))), ok),
        Instruction::SkipIfKeyNotPressed(x) => (skip_if(s, !key_held(s.keypad, reg(s, x))), ok),
        Instruction::LoadDelayTimer(x) => (set_reg(s, x, s.delay_timer), ok),
        Instruction::WaitForKey(x) => (StateView { key_wait: Some(x), ..s }, Ok(Effect::AwaitKey)),
        Instruction::SetDelayTimer(x) => (StateView { delay_timer: reg(s, x), ..s }, ok),
        Instruction::SetSoundTimer(x) => (StateView { sound_timer: reg(s, x), ..s }, ok),
        Instruction::AddToIndex(x) => if s.index + reg(s, x) >= 0x1000 {
            (s, Err(ExecutionError::AddressOutOfRange((s.index + reg(s, x)) as u16)))
        } else {
            (StateView { index: (s.index + reg(s, x)) as u16, ..s }, ok)
        },
        Instruction::FontCharacter(x) => (StateView { index: (reg(s, x) * 5) as u16, ..s }, ok),
        Instruction::StoreBcd(x) => if !in_memory(s.index, 3) {
            (s, Err(ExecutionError::AddressOutOfRange(s.index)))
        } else {
            let d = bcd(reg(s, x));
            (
                StateView {
                    memory: s.memory.update(s.index as int, d[0]).update(s.index + 1, d[1]).update(
                        s.index + 2,
                        d[2],
                    ),
                    ..s
                },
                ok,
            )
        },
        Instruction::StoreRegisters(x) => if !in_memory(s.index, x + 1) {
            (s, Err(ExecutionError::AddressOutOfRange(s.index)))
        } else {
            (
                StateView {
                    memory: Seq::new(
                        s.memory.len(),
                        |a: int|
                            if s.index <= a <= s.index + x {
                                s.registers[a - s.index]
                            } else {
                                s.memory[a]
                            },
                    ),
                    ..s
                },
                ok,
            )
        },
        Instruction::LoadRegisters(x) => if !in_memory(s.index, x + 1) {
            (s, Err(ExecutionError::AddressOutOfRange(s.index)))
        } else {
            (
                StateView {
                    registers: Seq::new(
                        s.registers.len(),
                        |i: int|
                            if i <= x {
                                s.memory[s.index + i]
                            } else {
                                s.registers[i]
                            },
                    ),
                    ..s
                },
                ok,
            )
        },
    }
}

/// The opcode at the program counter: two bytes, big-endian.
pub open spec fn fetch_spec(s: StateView) -> Result<u16, ExecutionError> {
    if !in_memory(s.pc, 2) {
        Err(ExecutionError::AddressOutOfRange(s.pc))
    } else {
        Ok((s.memory[s.pc as int] * 256 + s.memory[s.pc + 1]) as u16)
    }
}

/// One step: while waiting for a key nothing happens; otherwise fetch the
/// opcode, move the program counter past it, decode and execute it. On an
/// error the state is unchanged, so the program counter still points at the
/// instruction that failed.
pub open spec fn step_spec(s: StateView, random: u8) -> (StateView, Result<Effect, ExecutionError>) {
    if s.key_wait is Some {
        (s, Ok(Effect::AwaitKey))
    } else {
        match fetch_spec(s) {
            Err(e) => (s, Err(e)),
            Ok(op) => match decode_spec(op) {
                Err(e) => (s, Err(e)),
                Ok(ins) => {
                    let (t, r) = execute_spec(StateView { pc: (s.pc + 2) as u16, ..s }, ins, random);
                    if r is Err {
                        (s, r)
                    } else {
                        (t, r)
                    }
                },
            },
        }
    }
}

} // verus!
