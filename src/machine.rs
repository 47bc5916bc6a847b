//! The machine state, its model, loading a program, timers and the keypad.
use vstd::prelude::*;

use crate::keyboard::KeyboardCommand;
use crate::opcode::{decode, ExecutionError, Instruction};
use crate::semantics::{
    collides, draw_mask, execute_spec, fetch_spec, in_memory, reg, set_reg, sprite_part, step_spec,
    Effect,
};

verus! {

/// Bytes of memory.
pub const MEMORY_SIZE: usize = 4096;

/// Address at which a program is loaded.
pub const PROGRAM_START: usize = 0x200;

/// Longest program that fits between `PROGRAM_START` and the end of memory.
pub const MAX_PROGRAM_LEN: usize = 3584;

/// Register that arithmetic, shifts and drawing overwrite with a flag.
pub const FLAG_REGISTER: usize = 15;

/// Rows of the display.
pub const SCREEN_ROWS: usize = 32;

/// Bytes in one display row; each holds eight pixels, leftmost in the top bit.
pub const ROW_BYTES: usize = 8;

/// Milliseconds between timer ticks: the timers run at 60 Hz.
pub const TIMER_PERIOD_MS: u128 = 16;

/// Whether the timers are due for a tick, `elapsed_ms` after the last one.
pub fn timers_due(elapsed_ms: u128) -> (r: bool)
    ensures
        r == (elapsed_ms > TIMER_PERIOD_MS),
{
    elapsed_ms > TIMER_PERIOD_MS
}

/// Why a program could not be loaded.
#[derive(Clone, Copy, Debug, PartialEq, Eq, Structural)]
pub enum LoadError {
    /// The program, of this many bytes, does not fit in memory.
    ProgramTooLarge(usize),
}

/// The hexadecimal digit glyphs, five bytes each, at address 0.
pub open spec fn font_set() -> Seq<u8> {
    seq![
        0xF0u8, 0x90, 0x90, 0x90, 0xF0, 0x20, 0x60, 0x20, 0x20, 0x70,
        0xF0, 0x10, 0xF0, 0x80, 0xF0, 0xF0, 0x10, 0xF0, 0x10, 0xF0,
        0x90, 0x90, 0xF0, 0x10, 0x10, 0xF0, 0x80, 0xF0, 0x10, 0xF0,
        0xF0, 0x80, 0xF0, 0x90, 0xF0, 0xF0, 0x10, 0x20, 0x40, 0x40,
        0xF0, 0x90, 0xF0, 0x90, 0xF0, 0xF0, 0x90, 0xF0, 0x10, 0xF0,
        0xF0, 0x90, 0xF0, 0x90, 0x90, 0xE0, 0x90, 0xE0, 0x90, 0xE0,
        0xF0, 0x80, 0x80, 0x80, 0xF0, 0xE0, 0x90, 0x90, 0x90, 0xE0,
        0xF0, 0x80, 0xF0, 0x80, 0xF0, 0xF0, 0x80, 0xF0, 0x80, 0x80,
    ]
}

/// The model of a machine.
pub struct StateView {
    pub memory: Seq<u8>,
    pub registers: Seq<u8>,
    pub stack: Seq<u16>,
    pub index: u16,
    pub pc: u16,
    /// Number of return addresses on the stack.
    pub sp: nat,
    /// 32 rows of 8 bytes.
    pub screen: Seq<Seq<u8>>,
    /// Bit `n` is set iff key `n` is held.
    pub keypad: u16,
    /// The register that receives the next key, while the machine waits for one.
    pub key_wait: Option<u8>,
    pub delay_timer: u8,
    pub sound_timer: u8,
}

impl StateView {
    /// What holds of every machine.
    pub open spec fn wf(self) -> bool {
        &&& self.memory.len() == MEMORY_SIZE
        &&& self.registers.len() == 16
        &&& self.stack.len() == 16
        &&& self.sp <= 16
        &&& self.index < 0x1000
        &&& self.screen.len() == SCREEN_ROWS
        &&& forall|r: int| 0 <= r < SCREEN_ROWS ==> #[trigger] self.screen[r].len() == ROW_BYTES
        &&& self.key_wait matches Some(x) ==> x < 16
    }
}

/// The display as rows of bytes.
pub open spec fn screen_view(screen: [[u8; 8]; 32]) -> Seq<Seq<u8>> {
    Seq::new(32, |r: int| screen[r]@)
}

/// A display with every pixel off.
pub open spec fn blank_screen() -> Seq<Seq<u8>> {
    Seq::new(32, |r: int| Seq::new(8, |c: int| 0u8))
}

/// Memory right after loading `program`: the font at address 0, the program
/// at `PROGRAM_START`, zero elsewhere.
pub open spec fn loaded_memory(program: Seq<u8>) -> Seq<u8> {
    Seq::new(
        MEMORY_SIZE as nat,
        |a: int|
            if a < font_set().len() {
                font_set()[a]
            } else if PROGRAM_START <= a < PROGRAM_START + program.len() {
                program[a - PROGRAM_START]
            } else {
                0u8
            },
    )
}

/// The machine right after loading `program`.
pub open spec fn initial_view(program: Seq<u8>) -> StateView {
    StateView {
        memory: loaded_memory(program),
        registers: Seq::new(16, |i: int| 0u8),
        stack: Seq::new(16, |i: int| 0u16),
        index: 0,
        pc: PROGRAM_START as u16,
        sp: 0,
        screen: blank_screen(),
        keypad: 0,
        key_wait: None,
        delay_timer: 0,
        sound_timer: 0,
    }
}

/// A timer after one tick: one less, stopping at zero.
pub open spec fn tick(t: u8) -> u8 {
    if t > 0 {
        (t - 1) as u8
    } else {
        0
    }
}

/// What a step asks of the host.
pub enum MachineState {
    /// Nothing: step again.
    SuccessfulExecution,
    /// Show this display.
    Draw(Box<[[u8; 8]; 32]>),
    /// Deliver a key with `wait_key_press` before stepping on.
    WaitForKeyboard,
}

impl MachineState {
    /// The request, without the display.
    pub open spec fn effect(self) -> Effect {
        match self {
            MachineState::SuccessfulExecution => Effect::Continue,
            MachineState::Draw(_) => Effect::Redraw,
            MachineState::WaitForKeyboard => Effect::AwaitKey,
        }
    }
}

/// The result of a step, without the display.
pub open spec fn outcome(r: Result<MachineState, ExecutionError>) -> Result<Effect, ExecutionError> {
    match r {
        Ok(m) => Ok(m.effect()),
        Err(e) => Err(e),
    }
}

proof fn lemma_zero_bits(a: u8)
    ensures
        a ^ 0 == a,
        a & 0 == 0,
{
    assert(a ^ 0 == a && a & 0 == 0) by (bit_vector);
}

/// Subtraction modulo 256, computed without going below zero.
proof fn lemma_wrapping_sub(a: u8, b: u8)
    ensures
        (a + 256 - b) % 256 == (a - b) % 256,
        0 <= (a - b) % 256 < 256,
{
    if a >= b {
        assert((a + 256 - b) % 256 == a - b);
    } else {
        assert((a - b) % 256 == a + 256 - b);
    }
}

/// Sprite row `i` drawn at `vy` lands on display row `(vy + i) % 32`, and on
/// no other.
proof fn lemma_row_offset(vy: u8, i: int, r: int)
    requires
        0 <= i < 32,
        0 <= r < 32,
    ensures
        ((r - vy) % 32 == i) <==> (r == (vy + i) % 32),
{
}

/// Drawing one more sprite row adds the collisions on the display row it
/// lands on.
proof fn lemma_collides_step(s: StateView, vx: u8, vy: u8, i: int, row: int)
    requires
        s.wf(),
        0 <= i < 32,
        0 <= row < 32,
        row == (vy + i) % 32,
        in_memory(s.index, i + 1),
    ensures
        collides(s, vx, vy, i + 1) == (collides(s, vx, vy, i) || exists|c: int|
            0 <= c < 8 && #[trigger] (s.screen[row][c] & sprite_part(
                s.memory[s.index + i],
                vx,
                c,
            )) != 0),
{
    let sprite = s.memory[s.index + i];
    if collides(s, vx, vy, i + 1) {
        let (r, c) = choose|r: int, c: int|
            0 <= r < 32 && 0 <= c < 8 && #[trigger] (s.screen[r][c] & draw_mask(
                s,
                vx,
                vy,
                i + 1,
                r,
                c,
            )) != 0;
        lemma_row_offset(vy, i, r);
        if (r - vy) % 32 == i {
            assert(s.screen[row][c] & sprite_part(sprite, vx, c) != 0);
        } else {
            assert(s.screen[r][c] & draw_mask(s, vx, vy, i, r, c) != 0);
        }
    }
    if collides(s, vx, vy, i) {
        let (r, c) = choose|r: int, c: int|
            0 <= r < 32 && 0 <= c < 8 && #[trigger] (s.screen[r][c] & draw_mask(
                s,
                vx,
                vy,
                i,
                r,
                c,
            )) != 0;
        lemma_zero_bits(s.screen[r][c]);
        assert(s.screen[r][c] & draw_mask(s, vx, vy, i + 1, r, c) != 0);
    }
    if exists|c: int|
        0 <= c < 8 && #[trigger] (s.screen[row][c] & sprite_part(sprite, vx, c)) != 0 {
        let c = choose|c: int|
            0 <= c < 8 && #[trigger] (s.screen[row][c] & sprite_part(sprite, vx, c)) != 0;
        lemma_row_offset(vy, i, row);
        assert(s.screen[row][c] & draw_mask(s, vx, vy, i + 1, row, c) != 0);
    }
}

/// Relies on `rand::random::<u8>`: a byte from the thread-local generator.
/// Nothing is known of its value.
#[verifier::external_body]
fn random_byte() -> u8 {
    rand::random::<u8>()
}

/// A CHIP-8 machine.
pub struct State {
    memory: [u8; 4096],
    registers: [u8; 16],
    stack: [u16; 16],
    index: u16,
    pc: u16,
    sp: usize,
    screen: [[u8; 8]; 32],
    keypad: u16,
    key_wait: Option<u8>,
    delay_timer: u8,
    sound_timer: u8,
}

impl View for State {
    type V = StateView;

    closed spec fn view(&self) -> StateView {
        StateView {
            memory: self.memory@,
            registers: self.registers@,
            stack: self.stack@,
            index: self.index,
            pc: self.pc,
            sp: self.sp as nat,
            screen: screen_view(self.screen),
            keypad: self.keypad,
            key_wait: self.key_wait,
            delay_timer: self.delay_timer,
            sound_timer: self.sound_timer,
        }
    }
}

impl State {
    #[verifier::type_invariant]
    spec fn inv(self) -> bool {
        &&& self.sp <= 16
        &&& self.index < 0x1000
        &&& self.key_wait matches Some(x) ==> x < 16
    }

    /// Loads `program` at `PROGRAM_START`, with the font at address 0. Fails,
    /// with nothing loaded, when the program is longer than `MAX_PROGRAM_LEN`.
    pub fn new(program: &[u8]) -> (r: Result<State, LoadError>)
        ensures
            program@.len() > MAX_PROGRAM_LEN <==> r is Err,
            r matches Err(e) ==> e == LoadError::ProgramTooLarge(program@.len() as usize),
            r matches Ok(s) ==> s@ == initial_view(program@) && s@.wf(),
    {
        if program.len() > MAX_PROGRAM_LEN {
            return Err(LoadError::ProgramTooLarge(program.len()));
        }
        let font: [u8; 80] = [
            0xF0, 0x90, 0x90, 0x90, 0xF0, 0x20, 0x60, 0x20, 0x20, 0x70,
            0xF0, 0x10, 0xF0, 0x80, 0xF0, 0xF0, 0x10, 0xF0, 0x10, 0xF0,
            0x90, 0x90, 0xF0, 0x10, 0x10, 0xF0, 0x80, 0xF0, 0x10, 0xF0,
            0xF0, 0x80, 0xF0, 0x90, 0xF0, 0xF0, 0x10, 0x20, 0x40, 0x40,
            0xF0, 0x90, 0xF0, 0x90, 0xF0, 0xF0, 0x90, 0xF0, 0x10, 0xF0,
            0xF0, 0x90, 0xF0, 0x90, 0x90, 0xE0, 0x90, 0xE0, 0x90, 0xE0,
            0xF0, 0x80, 0x80, 0x80, 0xF0, 0xE0, 0x90, 0x90, 0x90, 0xE0,
            0xF0, 0x80, 0xF0, 0x80, 0xF0, 0xF0, 0x80, 0xF0, 0x80, 0x80,
        ];
        assert(font@ =~= font_set());
        let mut memory: [u8; 4096] = [0u8; 4096];
        let mut i: usize = 0;
        while i < 80
            invariant
                i <= 80,
                font@ == font_set(),
                forall|a: int| 0 <= a < i ==> memory@[a] == font_set()[a],
                forall|a: int| i <= a < MEMORY_SIZE ==> memory@[a] == 0,
            decreases 80 - i,
        {
            memory[i] = font[i];
            i = i + 1;
        }
        let mut j: usize = 0;
        while j < program.len()
            invariant
                j <= program@.len() <= MAX_PROGRAM_LEN,
                forall|a: int| 0 <= a < 80 ==> memory@[a] == font_set()[a],
                forall|a: int|
                    PROGRAM_START <= a < PROGRAM_START + j ==> memory@[a] == program@[a
                        - PROGRAM_START],
                forall|a: int|
                    80 <= a < MEMORY_SIZE && !(PROGRAM_START <= a < PROGRAM_START + j)
                        ==> memory@[a] == 0,
            decreases program@.len() - j,
        {
            memory[PROGRAM_START + j] = program[j];
            j = j + 1;
        }
        let s = State {
            memory,
            registers: [0u8; 16],
            stack: [0u16; 16],
            index: 0,
            pc: PROGRAM_START as u16,
            sp: 0,
            screen: [[0u8; 8]; 32],
            keypad: 0,
            key_wait: None,
            delay_timer: 0,
            sound_timer: 0,
        };
        assert(s@.memory =~= loaded_memory(program@));
        assert(s@.registers =~= initial_view(program@).registers);
        assert(s@.stack =~= initial_view(program@).stack);
        assert forall|r: int| 0 <= r < SCREEN_ROWS implies #[trigger] s@.screen[r]
            == blank_screen()[r] by {
            assert(s.screen[r]@ =~= blank_screen()[r]);
        }
        assert(s@.screen =~= blank_screen());
        Ok(s)
    }

    /// Ticks both timers once: each drops by one, stopping at zero.
    pub fn decrement_timers(&mut self)
        ensures
            final(self)@.wf(),
            final(self)@ == (StateView {
                delay_timer: tick(old(self)@.delay_timer),
                sound_timer: tick(old(self)@.sound_timer),
                ..old(self)@
            }),
    {
        proof {
            use_type_invariant(&*self);
        }
        if self.delay_timer > 0 {
            self.delay_timer = self.delay_timer - 1;
        }
        if self.sound_timer > 0 {
            self.sound_timer = self.sound_timer - 1;
        }
        proof {
            use_type_invariant(&*self);
        }
    }

    /// Records which keys are held: bit `n` of `keys` for key `n`.
    pub fn set_keys_pressed(&mut self, keys: u16)
        ensures
            final(self)@.wf(),
            final(self)@ == (StateView { keypad: keys, ..old(self)@ }),
    {
        proof {
            use_type_invariant(&*self);
        }
        self.keypad = keys;
        proof {
            use_type_invariant(&*self);
        }
    }

    /// Delivers a pressed key. While the machine waits for one, `key` goes
    /// into the waiting register and the machine runs on; otherwise nothing
    /// changes.
    pub fn wait_key_press(&mut self, key: u8)
        ensures
            final(self)@.wf(),
            final(self)@ == (match old(self)@.key_wait {
                Some(x) => StateView { key_wait: None, ..set_reg(old(self)@, x, key) },
                None => old(self)@,
            }),
    {
        proof {
            use_type_invariant(&*self);
        }
        match self.key_wait {
            Some(x) => {
                self.registers[x as usize] = key;
                self.key_wait = None;
            },
            None => {},
        }
        proof {
            use_type_invariant(&*self);
        }
    }

    /// The opcode at the program counter, two bytes big-endian; fails when
    /// they are not both in memory.
    pub fn get_opcode(&self) -> (r: Result<u16, ExecutionError>)
        ensures
            r == fetch_spec(self@),
    {
        if self.pc >= 0xFFF {
            return Err(ExecutionError::AddressOutOfRange(self.pc));
        }
        let hi = self.memory[self.pc as usize];
        let lo = self.memory[(self.pc + 1) as usize];
        let op: u16 = (hi as u16) << 8 | (lo as u16);
        assert((hi as u16) << 8 | (lo as u16) == hi * 256 + lo) by (bit_vector);
        Ok(op)
    }

    /// Draws the `n`-byte sprite at the index register at (`Vx`, `Vy`) and
    /// sets the flag register to whether a pixel was turned off.
    fn draw_sprite(&mut self, x: u8, y: u8, n: u8)
        requires
            x < 16,
            y < 16,
            n < 16,
            in_memory(old(self).index, n as int),
        ensures
            final(self)@ == execute_spec(old(self)@, Instruction::Draw(x, y, n), 0).0,
    {
        proof {
            use_type_invariant(&*self);
        }
        let ghost s0 = self@;
        let vx = self.registers[x as usize];
        let vy = self.registers[y as usize];
        let bx: usize = ((vx / 8) % 8) as usize;
        let rem: u8 = vx % 8;
        self.registers[FLAG_REGISTER] = 0;
        proof {
            assert forall|r: int, c: int| 0 <= r < 32 && 0 <= c < 8 implies #[trigger] self.screen[r][c]
                == s0.screen[r][c] ^ draw_mask(s0, vx, vy, 0, r, c) by {
                lemma_zero_bits(s0.screen[r][c]);
            }
            assert(!collides(s0, vx, vy, 0)) by {
                assert forall|r: int, c: int| 0 <= r < 32 && 0 <= c < 8 implies #[trigger] (
                s0.screen[r][c] & draw_mask(s0, vx, vy, 0, r, c)) == 0 by {
                    lemma_zero_bits(s0.screen[r][c]);
                }
            }
        }
        let mut i: u8 = 0;
        while i < n
            invariant
                s0.wf(),
                i <= n < 16,
                in_memory(s0.index, n as int),
                vx == reg(s0, x),
                vy == reg(s0, y),
                bx == (vx / 8) % 8,
                rem == vx % 8,
                self@ == (StateView {
                    screen: self@.screen,
                    registers: s0.registers.update(
                        FLAG_REGISTER as int,
                        if collides(s0, vx, vy, i as int) { 1u8 } else { 0u8 },
                    ),
                    ..s0
                }),
                forall|r: int, c: int|
                    0 <= r < 32 && 0 <= c < 8 ==> #[trigger] self.screen[r][c] == s0.screen[r][c]
                        ^ draw_mask(s0, vx, vy, i as int, r, c),
            decreases n - i,
        {
            let ghost before = self.screen;
            let sprite = self.memory[(self.index + i as u16) as usize];
            let row: usize = ((vy as usize) + (i as usize)) % 32;
            let mut line = self.screen[row];
            proof {
                assert forall|c: int| 0 <= c < 8 implies line[c] == s0.screen[row as int][c] by {
                    lemma_row_offset(vy, i as int, row as int);
                    lemma_zero_bits(s0.screen[row as int][c]);
                }
            }
            let ghost line0 = line;
            let left = sprite >> rem;
            let mut hit = line[bx] & left != 0;
            line[bx] = line[bx] ^ left;
            if rem != 0 {
                let bx1 = (bx + 1) % 8;
                let right = sprite << (8 - rem);
                if line[bx1] & right != 0 {
                    hit = true;
                }
                line[bx1] = line[bx1] ^ right;
            }
            self.screen[row] = line;
            if hit {
                self.registers[FLAG_REGISTER] = 1;
            }
            proof {
                let bx1 = (bx + 1) % 8;
                assert forall|c: int| 0 <= c < 8 implies #[trigger] line[c] == s0.screen[row as int][c]
                    ^ sprite_part(sprite, vx, c) by {
                    lemma_zero_bits(s0.screen[row as int][c]);
                }
                assert(hit == exists|c: int|
                    0 <= c < 8 && #[trigger] (s0.screen[row as int][c] & sprite_part(sprite, vx, c))
                        != 0) by {
                    if hit {
                        if line0[bx as int] & (sprite >> rem) != 0 {
                            assert(s0.screen[row as int][bx as int] & sprite_part(
                                sprite,
                                vx,
                                bx as int,
                            ) != 0);
                        } else {
                            assert(s0.screen[row as int][bx1 as int] & sprite_part(
                                sprite,
                                vx,
                                bx1 as int,
                            ) != 0);
                        }
                    }
                    if exists|c: int|
                        0 <= c < 8 && #[trigger] (s0.screen[row as int][c] & sprite_part(
                            sprite,
                            vx,
                            c,
                        )) != 0 {
                        let c = choose|c: int|
                            0 <= c < 8 && #[trigger] (s0.screen[row as int][c] & sprite_part(
                                sprite,
                                vx,
                                c,
                            )) != 0;
                        lemma_zero_bits(s0.screen[row as int][c]);
                    }
                }
                lemma_collides_step(s0, vx, vy, i as int, row as int);
                assert(self.registers@ =~= s0.registers.update(
                    FLAG_REGISTER as int,
                    if collides(s0, vx, vy, i + 1) { 1u8 } else { 0u8 },
                ));
                assert forall|r: int, c: int| 0 <= r < 32 && 0 <= c < 8 implies #[trigger] self.screen[r][c]
                    == s0.screen[r][c] ^ draw_mask(s0, vx, vy, i + 1, r, c) by {
                    lemma_row_offset(vy, i as int, r);
                    if r != row {
                        assert(self.screen[r][c] == before[r][c]);
                    }
                }
            }
            i = i + 1;
        }
        proof {
            let t = execute_spec(s0, Instruction::Draw(x, y, n), 0).0;
            assert(self@.screen =~~= t.screen);
        }
    }

    /// Copies `V0..=Vx` to memory from the index register on.
    fn store_registers(&mut self, x: u8)
        requires
            x < 16,
            in_memory(old(self).index, x + 1),
        ensures
            final(self)@ == execute_spec(old(self)@, Instruction::StoreRegisters(x), 0).0,
    {
        proof {
            use_type_invariant(&*self);
        }
        let ghost s0 = self@;
        let mut i: u8 = 0;
        while i <= x
            invariant
                s0.wf(),
                x < 16,
                i <= x + 1,
                in_memory(s0.index, x + 1),
                self@ == (StateView { memory: self@.memory, ..s0 }),
                forall|a: int|
                    0 <= a < MEMORY_SIZE ==> #[trigger] self.memory@[a] == if s0.index <= a
                        < s0.index + i {
                        s0.registers[a - s0.index]
                    } else {
                        s0.memory[a]
                    },
            decreases x + 1 - i,
        {
            self.memory[(self.index + i as u16) as usize] = self.registers[i as usize];
            i = i + 1;
        }
        assert(self@.memory =~= execute_spec(s0, Instruction::StoreRegisters(x), 0).0.memory);
    }

    /// Copies memory from the index register on into `V0..=Vx`.
    fn load_registers(&mut self, x: u8)
        requires
            x < 16,
            in_memory(old(self).index, x + 1),
        ensures
            final(self)@ == execute_spec(old(self)@, Instruction::LoadRegisters(x), 0).0,
    {
        proof {
            use_type_invariant(&*self);
        }
        let ghost s0 = self@;
        let mut i: u8 = 0;
        while i <= x
            invariant
                s0.wf(),
                x < 16,
                i <= x + 1,
                in_memory(s0.index, x + 1),
                self@ == (StateView { registers: self@.registers, ..s0 }),
                forall|j: int|
                    0 <= j < 16 ==> #[trigger] self.registers@[j] == if j < i {
                        s0.memory[s0.index + j]
                    } else {
                        s0.registers[j]
                    },
            decreases x + 1 - i,
        {
            self.registers[i as usize] = self.memory[(self.index + i as u16) as usize];
            i = i + 1;
        }
        assert(self@.registers =~= execute_spec(s0, Instruction::LoadRegisters(x), 0).0.registers);
    }

    /// Executes `ins`; the program counter already points past it. Every
    /// error is found before anything changes.
    fn execute(
        &mut self,
        ins: Instruction,
        random: u8,
    ) -> (r: Result<MachineState, ExecutionError>)
        requires
            ins.wf(),
            old(self).pc <= 0x1000,
        ensures
            final(self)@ == execute_spec(old(self)@, ins, random).0,
            outcome(r) == execute_spec(old(self)@, ins, random).1,
            r matches Ok(MachineState::Draw(b)) ==> screen_view(*b) == final(self)@.screen,
    {
        match ins {
            Instruction::ClearScreen
            | Instruction::Return
            | Instruction::Jump(..)
            | Instruction::Call(..)
            | Instruction::SkipIfEqual(..)
            | Instruction::SkipIfNotEqual(..)
            | Instruction::SkipIfRegistersEqual(..)
            | Instruction::SkipIfRegistersNotEqual(..)
            | Instruction::JumpWithOffset(..)
            | Instruction::SkipIfKeyPressed(..)
            | Instruction::SkipIfKeyNotPressed(..) => self.execute_control(ins, random),
            Instruction::LoadImmediate(..)
            | Instruction::AddImmediate(..)
            | Instruction::Move(..)
            | Instruction::BitOr(..)
            | Instruction::BitAnd(..)
            | Instruction::BitXor(..)
            | Instruction::RandomAnd(..)
            | Instruction::LoadDelayTimer(..) => self.execute_arithmetic(ins, random),
            Instruction::AddRegisters(..)
            | Instruction::Subtract(..)
            | Instruction::SubtractReverse(..)
            | Instruction::ShiftRight(..)
            | Instruction::ShiftLeft(..) => self.execute_flagged(ins, random),
            Instruction::SetIndex(..)
            | Instruction::Draw(..)
            | Instruction::WaitForKey(..)
            | Instruction::SetDelayTimer(..)
            | Instruction::SetSoundTimer(..)
            | Instruction::AddToIndex(..)
            | Instruction::FontCharacter(..)
            | Instruction::StoreBcd(..)
            | Instruction::StoreRegisters(..)
            | Instruction::LoadRegisters(..) => self.execute_memory(ins, random),
        }
    }

    /// Control flow: clearing the display, jumps, calls, returns and skips.
    fn execute_control(
        &mut self,
        ins: Instruction,
        random: u8,
    ) -> (r: Result<MachineState, ExecutionError>)
        requires
            ins.wf(),
            old(self).pc <= 0x1000,
            ins is ClearScreen
                || ins is Return
                || ins is Jump
                || ins is Call
                || ins is SkipIfEqual
                || ins is SkipIfNotEqual
                || ins is SkipIfRegistersEqual
                || ins is SkipIfRegistersNotEqual
                || ins is JumpWithOffset
                || ins is SkipIfKeyPressed
                || ins is SkipIfKeyNotPressed,
        ensures
            final(self)@ == execute_spec(old(self)@, ins, random).0,
            outcome(r) == execute_spec(old(self)@, ins, random).1,
            r matches Ok(MachineState::Draw(b)) ==> screen_view(*b) == final(self)@.screen,
    {
        proof {
            use_type_invariant(&*self);
        }
        match ins {
            Instruction::ClearScreen => {
                self.screen = [[0u8; 8]; 32];
                proof {
                    assert forall|r: int| 0 <= r < SCREEN_ROWS implies #[trigger] self@.screen[r]
                        == blank_screen()[r] by {
                        assert(self.screen[r]@ =~= blank_screen()[r]);
                    }
                    assert(self@.screen =~= blank_screen());
                }
            },
            Instruction::Return => {
                if self.sp == 0 {
                    return Err(ExecutionError::StackUnderflow);
                }
                self.sp = self.sp - 1;
                self.pc = self.stack[self.sp];
            },
            Instruction::Jump(a) => {
                self.pc = a;
            },
            Instruction::Call(a) => {
                if self.sp >= 16 {
                    return Err(ExecutionError::StackOverflow);
                }
                self.stack[self.sp] = self.pc;
                self.sp = self.sp + 1;
                self.pc = a;
            },
            Instruction::SkipIfEqual(x, kk) => {
                if self.registers[x as usize] == kk {
                    self.pc = self.pc + 2;
                }
            },
            Instruction::SkipIfNotEqual(x, kk) => {
                if self.registers[x as usize] != kk {
                    self.pc = self.pc + 2;
                }
            },
            Instruction::SkipIfRegistersEqual(x, y) => {
                if self.registers[x as usize] == self.registers[y as usize] {
                    self.pc = self.pc + 2;
                }
            },
            Instruction::SkipIfRegistersNotEqual(x, y) => {
                if self.registers[x as usize] != self.registers[y as usize] {
                    self.pc = self.pc + 2;
                }
            },
            Instruction::JumpWithOffset(a) => {
                self.pc = a + self.registers[0] as u16;
            },
            Instruction::SkipIfKeyPressed(x) => {
                let k = self.registers[x as usize];
                if k < 16 && (self.keypad >> (k as u16)) & 1 == 1 {
                    self.pc = self.pc + 2;
                }
            },
            Instruction::SkipIfKeyNotPressed(x) => {
                let k = self.registers[x as usize];
                if !(k < 16 && (self.keypad >> (k as u16)) & 1 == 1) {
                    self.pc = self.pc + 2;
                }
            },
            _ => {},
        }
        Ok(MachineState::SuccessfulExecution)
    }

    /// Register arithmetic and moves.
    fn execute_arithmetic(
        &mut self,
        ins: Instruction,
        random: u8,
    ) -> (r: Result<MachineState, ExecutionError>)
        requires
            ins.wf(),
            old(self).pc <= 0x1000,
            ins is LoadImmediate
                || ins is AddImmediate
                || ins is Move
                || ins is BitOr
                || ins is BitAnd
                || ins is BitXor
                || ins is RandomAnd
                || ins is LoadDelayTimer,
        ensures
            final(self)@ == execute_spec(old(self)@, ins, random).0,
            outcome(r) == execute_spec(old(self)@, ins, random).1,
            r matches Ok(MachineState::Draw(b)) ==> screen_view(*b) == final(self)@.screen,
    {
        proof {
            use_type_invariant(&*self);
        }
        match ins {
            Instruction::LoadImmediate(x, kk) => {
                self.registers[x as usize] = kk;
            },
            Instruction::AddImmediate(x, kk) => {
                let sum: u16 = self.registers[x as usize] as u16 + kk as u16;
                self.registers[x as usize] = (sum % 256) as u8;
            },
            Instruction::Move(x, y) => {
                self.registers[x as usize] = self.registers[y as usize];
            },
            Instruction::BitOr(x, y) => {
                self.registers[x as usize] = self.registers[x as usize] | self.registers[y as usize];
            },
            Instruction::BitAnd(x, y) => {
                self.registers[x as usize] = self.registers[x as usize] & self.registers[y as usize];
            },
            Instruction::BitXor(x, y) => {
                self.registers[x as usize] = self.registers[x as usize] ^ self.registers[y as usize];
            },
            Instruction::RandomAnd(x, kk) => {
                self.registers[x as usize] = random & kk;
            },
            Instruction::LoadDelayTimer(x) => {
                self.registers[x as usize] = self.delay_timer;
            },
            _ => {},
        }
        Ok(MachineState::SuccessfulExecution)
    }


    /// Arithmetic that sets the flag register: the flag is written after
    /// the result, so with `x` = 15 the flag is what remains.
    #[verifier::spinoff_prover]
    fn execute_flagged(
        &mut self,
        ins: Instruction,
        random: u8,
    ) -> (r: Result<MachineState, ExecutionError>)
        requires
            ins.wf(),
            old(self).pc <= 0x1000,
            ins is AddRegisters
                || ins is Subtract
                || ins is SubtractReverse
                || ins is ShiftRight
                || ins is ShiftLeft,
        ensures
            final(self)@ == execute_spec(old(self)@, ins, random).0,
            outcome(r) == execute_spec(old(self)@, ins, random).1,
            r matches Ok(MachineState::Draw(b)) ==> screen_view(*b) == final(self)@.screen,
    {
        proof {
            use_type_invariant(&*self);
        }
        match ins {
            Instruction::AddRegisters(x, y) => {
                let sum: u16 = self.registers[x as usize] as u16 + self.registers[y as usize] as u16;
                self.registers[x as usize] = (sum % 256) as u8;
                self.registers[FLAG_REGISTER] = if sum > 255 { 1 } else { 0 };
            },
            Instruction::Subtract(x, y) => {
                let vx = self.registers[x as usize];
                let vy = self.registers[y as usize];
                proof {
                    lemma_wrapping_sub(vx, vy);
                }
                self.registers[x as usize] = ((vx as u16 + 256 - vy as u16) % 256) as u8;
                self.registers[FLAG_REGISTER] = if vx > vy { 1 } else { 0 };
            },
            Instruction::SubtractReverse(x, y) => {
                let vx = self.registers[x as usize];
                let vy = self.registers[y as usize];
                proof {
                    lemma_wrapping_sub(vy, vx);
                }
                self.registers[x as usize] = ((vy as u16 + 256 - vx as u16) % 256) as u8;
                self.registers[FLAG_REGISTER] = if vy > vx { 1 } else { 0 };
            },
            Instruction::ShiftRight(x) => {
                let vx = self.registers[x as usize];
                assert(vx >> 1 == vx / 2 && vx & 1 == vx % 2) by (bit_vector);
                self.registers[x as usize] = vx >> 1;
                self.registers[FLAG_REGISTER] = vx & 1;
            },
            Instruction::ShiftLeft(x) => {
                let vx = self.registers[x as usize];
                assert(vx << 1 == (vx * 2) % 256 && vx >> 7 == vx / 128) by (bit_vector);
                self.registers[x as usize] = vx << 1;
                self.registers[FLAG_REGISTER] = vx >> 7;
            },
            _ => {},
        }
        Ok(MachineState::SuccessfulExecution)
    }

    /// The index register, memory, drawing, timers and the key wait.
    fn execute_memory(
        &mut self,
        ins: Instruction,
        random: u8,
    ) -> (r: Result<MachineState, ExecutionError>)
        requires
            ins.wf(),
            old(self).pc <= 0x1000,
            ins is SetIndex
                || ins is Draw
                || ins is WaitForKey
                || ins is SetDelayTimer
                || ins is SetSoundTimer
                || ins is AddToIndex
                || ins is FontCharacter
                || ins is StoreBcd
                || ins is StoreRegisters
                || ins is LoadRegisters,
        ensures
            final(self)@ == execute_spec(old(self)@, ins, random).0,
            outcome(r) == execute_spec(old(self)@, ins, random).1,
            r matches Ok(MachineState::Draw(b)) ==> screen_view(*b) == final(self)@.screen,
    {
        proof {
            use_type_invariant(&*self);
        }
        match ins {
            Instruction::SetIndex(a) => {
                self.index = a;
            },
            Instruction::Draw(x, y, n) => {
                if self.index as usize + n as usize > MEMORY_SIZE {
                    return Err(ExecutionError::AddressOutOfRange(self.index));
                }
                self.draw_sprite(x, y, n);
                return Ok(MachineState::Draw(Box::new(self.screen)));
            },
            Instruction::WaitForKey(x) => {
                self.key_wait = Some(x);
                return Ok(MachineState::WaitForKeyboard);
            },
            Instruction::SetDelayTimer(x) => {
                self.delay_timer = self.registers[x as usize];
            },
            Instruction::SetSoundTimer(x) => {
                self.sound_timer = self.registers[x as usize];
            },
            Instruction::AddToIndex(x) => {
                let sum: u16 = self.index + self.registers[x as usize] as u16;
                if sum >= 0x1000 {
                    return Err(ExecutionError::AddressOutOfRange(sum));
                }
                self.index = sum;
            },
            Instruction::FontCharacter(x) => {
                self.index = self.registers[x as usize] as u16 * 5;
            },
            Instruction::StoreBcd(x) => {
                if self.index as usize + 3 > MEMORY_SIZE {
                    return Err(ExecutionError::AddressOutOfRange(self.index));
                }
                let v = self.registers[x as usize];
                let i = self.index as usize;
                self.memory[i] = v / 100;
                self.memory[i + 1] = (v % 100) / 10;
                self.memory[i + 2] = v % 10;
            },
            Instruction::StoreRegisters(x) => {
                if self.index as usize + x as usize + 1 > MEMORY_SIZE {
                    return Err(ExecutionError::AddressOutOfRange(self.index));
                }
                self.store_registers(x);
            },
            Instruction::LoadRegisters(x) => {
                if self.index as usize + x as usize + 1 > MEMORY_SIZE {
                    return Err(ExecutionError::AddressOutOfRange(self.index));
                }
                self.load_registers(x);
            },
            _ => {},
        }
        Ok(MachineState::SuccessfulExecution)
    }

    /// One step, with `random` as the byte that a random-and instruction
    /// draws. While the machine waits for a key nothing happens and the host
    /// is asked for one; otherwise the instruction at the program counter is
    /// fetched, the counter moves past it and the instruction runs. On an
    /// error nothing changes.
    pub fn execute_instruction_with(&mut self, random: u8) -> (r: Result<
        MachineState,
        ExecutionError,
    >)
        ensures
            final(self)@.wf(),
            final(self)@ == step_spec(old(self)@, random).0,
            outcome(r) == step_spec(old(self)@, random).1,
            r matches Ok(MachineState::Draw(b)) ==> screen_view(*b) == final(self)@.screen,
    {
        proof {
            use_type_invariant(&*self);
            assert(self@.wf());
        }
        if let Some(_) = self.key_wait {
            return Ok(MachineState::WaitForKeyboard);
        }
        let opcode = match self.get_opcode() {
            Ok(op) => op,
            Err(e) => return Err(e),
        };
        let ins = match decode(opcode) {
            Ok(ins) => ins,
            Err(e) => return Err(e),
        };
        let saved_pc = self.pc;
        self.pc = self.pc + 2;
        let r = self.execute(ins, random);
        if r.is_err() {
            self.pc = saved_pc;
        }
        proof {
            use_type_invariant(&*self);
        }
        r
    }

    /// One step, drawing the byte for a random-and instruction from the
    /// thread-local generator. What changes is what `execute_instruction_with`
    /// does for some byte.
    pub fn execute_instruction(&mut self) -> (r: Result<MachineState, ExecutionError>)
        ensures
            final(self)@.wf(),
            exists|b: u8|
                step_spec(old(self)@, b) == (final(self)@, outcome(r)),
            r matches Ok(MachineState::Draw(b)) ==> screen_view(*b) == final(self)@.screen,
    {
        let random = random_byte();
        self.execute_instruction_with(random)
    }

    /// Hands the machine what the keyboard said: the keys held, or a key
    /// for a waiting machine. Returns whether to keep running; quitting
    /// changes nothing.
    pub fn apply_keyboard_command(&mut self, command: KeyboardCommand) -> (r: bool)
        ensures
            final(self)@.wf(),
            r == !(command is Quit),
            final(self)@ == (match command {
                KeyboardCommand::KeypadState(keys) => StateView { keypad: keys, ..old(self)@ },
                KeyboardCommand::SingleKey(key) => match old(self)@.key_wait {
                    Some(x) => StateView { key_wait: None, ..set_reg(old(self)@, x, key) },
                    None => old(self)@,
                },
                KeyboardCommand::Quit => old(self)@,
            }),
    {
        proof {
            use_type_invariant(&*self);
        }
        match command {
            KeyboardCommand::KeypadState(keys) => {
                self.set_keys_pressed(keys);
                true
            },
            KeyboardCommand::SingleKey(key) => {
                self.wait_key_press(key);
                true
            },
            KeyboardCommand::Quit => false,
        }
    }

    /// Register `Vx`.
    pub fn register(&self, x: u8) -> (r: u8)
        requires
            x < 16,
        ensures
            r == self@.registers[x as int],
    {
        self.registers[x as usize]
    }

    /// The byte at `address`.
    pub fn memory_at(&self, address: u16) -> (r: u8)
        requires
            address < MEMORY_SIZE,
        ensures
            r == self@.memory[address as int],
    {
        self.memory[address as usize]
    }

    /// The program counter.
    pub fn pc(&self) -> (r: u16)
        ensures
            r == self@.pc,
    {
        self.pc
    }

    /// The index register.
    pub fn index(&self) -> (r: u16)
        ensures
            r == self@.index,
    {
        self.index
    }

    /// How many return addresses are on the stack.
    pub fn stack_pointer(&self) -> (r: usize)
        ensures
            r == self@.sp,
    {
        self.sp
    }

    /// The delay timer.
    pub fn delay_timer(&self) -> (r: u8)
        ensures
            r == self@.delay_timer,
    {
        self.delay_timer
    }

    /// The sound timer.
    pub fn sound_timer(&self) -> (r: u8)
        ensures
            r == self@.sound_timer,
    {
        self.sound_timer
    }

    /// The keys held, bit `n` for key `n`.
    pub fn keypad(&self) -> (r: u16)
        ensures
            r == self@.keypad,
    {
        self.keypad
    }

    /// The register that the next key goes to, while the machine waits.
    pub fn waiting_register(&self) -> (r: Option<u8>)
        ensures
            r == self@.key_wait,
    {
        self.key_wait
    }

    /// A copy of the display.
    pub fn screen(&self) -> (r: [[u8; 8]; 32])
        ensures
            screen_view(r) == self@.screen,
    {
        self.screen
    }
}

} // verus!
