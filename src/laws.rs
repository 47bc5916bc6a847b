//! Properties of loading, drawing, calls and decoding, proved over the model.
use vstd::prelude::*;

use crate::machine::{
    blank_screen, font_set, initial_view, StateView, FLAG_REGISTER, MAX_PROGRAM_LEN, PROGRAM_START,
};
use crate::opcode::{decode_spec, ExecutionError, Instruction};
use crate::semantics::{
    collides, draw_mask, execute_spec, fetch_spec, in_memory, reg, sprite_part, step_spec, Effect,
};

verus! {

/// Loading a program that fits puts its byte `i` at address
/// `PROGRAM_START + i`, and the font table at address 0.
pub proof fn lemma_load_places_program(program: Seq<u8>)
    requires
        program.len() <= MAX_PROGRAM_LEN,
    ensures
        forall|i: int|
            0 <= i < program.len() ==> #[trigger] initial_view(program).memory[PROGRAM_START + i]
                == program[i],
        initial_view(program).memory.subrange(0, font_set().len() as int) == font_set(),
{
    assert(initial_view(program).memory.subrange(0, font_set().len() as int) =~= font_set());
}

proof fn lemma_xor_twice(a: u8, m: u8)
    ensures
        (a ^ m) ^ m == a,
{
    assert((a ^ m) ^ m == a) by (bit_vector);
}

/// Drawing the same sprite twice at the same place, with neither coordinate
/// in the flag register, gives back the display it started from.
pub proof fn lemma_draw_twice_restores(s: StateView, x: u8, y: u8, n: u8, random: u8)
    requires
        s.wf(),
        x < 15,
        y < 15,
        n < 16,
        in_memory(s.index, n as int),
    ensures
        ({
            let (s1, r1) = execute_spec(s, Instruction::Draw(x, y, n), random);
            let (s2, r2) = execute_spec(s1, Instruction::Draw(x, y, n), random);
            &&& r1 == Ok::<Effect, ExecutionError>(Effect::Redraw)
            &&& r2 == Ok::<Effect, ExecutionError>(Effect::Redraw)
            &&& s2.screen == s.screen
        }),
{
    let s1 = execute_spec(s, Instruction::Draw(x, y, n), random).0;
    let s2 = execute_spec(s1, Instruction::Draw(x, y, n), random).0;
    let vx = reg(s, x);
    let vy = reg(s, y);
    assert(reg(s1, x) == vx && reg(s1, y) == vy);
    assert forall|r: int, c: int| 0 <= r < 32 && 0 <= c < 8 implies #[trigger] s2.screen[r][c]
        == s.screen[r][c] by {
        assert(draw_mask(s1, vx, vy, n as int, r, c) == draw_mask(s, vx, vy, n as int, r, c));
        lemma_xor_twice(s.screen[r][c], draw_mask(s, vx, vy, n as int, r, c));
    }
    assert forall|r: int| 0 <= r < 32 implies #[trigger] s2.screen[r] == s.screen[r] by {
        assert(s2.screen[r] =~= s.screen[r]);
    }
    assert(s2.screen =~= s.screen);
}

proof fn lemma_blank_never_collides(s: StateView, vx: u8, vy: u8, k: int)
    requires
        s.wf(),
        s.screen == blank_screen(),
    ensures
        !collides(s, vx, vy, k),
{
    assert forall|r: int, c: int| 0 <= r < 32 && 0 <= c < 8 implies #[trigger] (s.screen[r][c]
        & draw_mask(s, vx, vy, k, r, c)) == 0 by {
        let m = draw_mask(s, vx, vy, k, r, c);
        assert(s.screen[r][c] == blank_screen()[r][c]);
        assert(0u8 & m == 0) by (bit_vector);
    }
}

proof fn lemma_full_row_collides(s1: StateView, vx: u8, vy: u8, row: int, bx: int)
    requires
        s1.wf(),
        in_memory(s1.index, 1),
        s1.memory[s1.index as int] == 0xFF,
        row == vy % 32,
        bx == (vx / 8) % 8,
        s1.screen[row][bx] == 0xFFu8 >> (vx % 8),
    ensures
        collides(s1, vx, vy, 1),
{
    let rem = vx % 8;
    assert((row - vy) % 32 == 0);
    assert(sprite_part(0xFF, vx, bx) == 0xFFu8 >> rem);
    assert(draw_mask(s1, vx, vy, 1, row, bx) == 0xFFu8 >> rem);
    assert(rem < 8 ==> (0xFFu8 >> rem) & (0xFFu8 >> rem) != 0) by (bit_vector);
    assert(s1.screen[row][bx] & draw_mask(s1, vx, vy, 1, row, bx) != 0);
}

/// A single row of eight lit pixels drawn twice at the same place on a blank
/// display: no collision the first time, a collision the second, and the
/// display blank again.
pub proof fn lemma_draw_full_row_twice(s: StateView, x: u8, y: u8, random: u8)
    requires
        s.wf(),
        x < 15,
        y < 15,
        s.screen == blank_screen(),
        in_memory(s.index, 1),
        s.memory[s.index as int] == 0xFF,
    ensures
        ({
            let (s1, r1) = execute_spec(s, Instruction::Draw(x, y, 1), random);
            let (s2, r2) = execute_spec(s1, Instruction::Draw(x, y, 1), random);
            &&& s1.registers[FLAG_REGISTER as int] == 0
            &&& s2.registers[FLAG_REGISTER as int] == 1
            &&& s2.screen == blank_screen()
        }),
{
    lemma_draw_twice_restores(s, x, y, 1, random);
    let s1 = execute_spec(s, Instruction::Draw(x, y, 1), random).0;
    let vx = reg(s, x);
    let vy = reg(s, y);
    lemma_blank_never_collides(s, vx, vy, 1);
    let row = vy % 32;
    let bx = (vx / 8) % 8;
    let rem = vx % 8;
    assert((row - vy) % 32 == 0);
    assert(s.screen[row as int][bx as int] == 0);
    assert(s1.screen[row as int][bx as int] == 0u8 ^ (0xFFu8 >> rem));
    assert(0u8 ^ (0xFFu8 >> rem) == 0xFFu8 >> rem) by (bit_vector);
    assert(reg(s1, x) == vx && reg(s1, y) == vy);
    lemma_full_row_collides(s1, vx, vy, row as int, bx as int);
}

/// A call followed by a return goes back to the instruction after the call,
/// with the stack pointer where it was. The call needs a free stack slot.
pub proof fn lemma_call_then_return(s: StateView, a: u16, r1: u8, r2: u8)
    requires
        s.wf(),
        s.key_wait is None,
        s.sp < 16,
        a < 0x1000,
        in_memory(s.pc, 2),
        s.memory[s.pc as int] == 0x20 + a / 256,
        s.memory[s.pc + 1] == a % 256,
        in_memory(a, 2),
        s.memory[a as int] == 0x00,
        s.memory[a + 1] == 0xEE,
    ensures
        ({
            let (s1, e1) = step_spec(s, r1);
            let (s2, e2) = step_spec(s1, r2);
            &&& e1 == Ok::<Effect, ExecutionError>(Effect::Continue)
            &&& e2 == Ok::<Effect, ExecutionError>(Effect::Continue)
            &&& s1.pc == a
            &&& s1.sp == s.sp + 1
            &&& s2.pc == s.pc + 2
            &&& s2.sp == s.sp
        }),
{
    let op = (0x2000 + a) as u16;
    assert(fetch_spec(s) == Ok::<u16, ExecutionError>(op));
    assert(decode_spec(op) == Ok::<Instruction, ExecutionError>(Instruction::Call(a)));
    let s1 = step_spec(s, r1).0;
    assert(fetch_spec(s1) == Ok::<u16, ExecutionError>(0x00EE));
    assert(decode_spec(0x00EE) == Ok::<Instruction, ExecutionError>(Instruction::Return));
}

/// An opcode that decodes to no instruction fails with `InvalidOpcode`
/// carrying the opcode; a step that meets one reports it and changes
/// nothing.
pub proof fn lemma_invalid_opcode(s: StateView, random: u8)
    requires
        s.wf(),
        s.key_wait is None,
        fetch_spec(s) matches Ok(op) && decode_spec(op) is Err,
    ensures
        forall|op: u16| #[trigger]
            decode_spec(op) is Err ==> decode_spec(op) == Err::<Instruction, ExecutionError>(
                ExecutionError::InvalidOpcode(op),
            ),
        step_spec(s, random) == (s, Err::<Effect, ExecutionError>(
            ExecutionError::InvalidOpcode(fetch_spec(s)->Ok_0),
        )),
{
}

/// Every step keeps the machine well formed: the stack pointer within the
/// stack, the index register within memory, a waiting register among the
/// sixteen.
pub proof fn lemma_step_preserves_wf(s: StateView, random: u8)
    requires
        s.wf(),
    ensures
        step_spec(s, random).0.wf(),
{
    if s.key_wait is None {
        if let Ok(op) = fetch_spec(s) {
            if let Ok(ins) = decode_spec(op) {
                let t = StateView { pc: (s.pc + 2) as u16, ..s };
                let u = execute_spec(t, ins, random).0;
                if let Instruction::Draw(x, y, n) = ins {
                    assert forall|r: int| 0 <= r < 32 implies #[trigger] u.screen[r].len() == 8 by {}
                }
            }
        }
    }
}

} // verus!
