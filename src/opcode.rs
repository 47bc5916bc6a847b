//! Decoding a 16-bit opcode into an instruction.
use vstd::prelude::*;

verus! {

/// Why the machine stopped executing.
#[derive(Clone, Copy, Debug, PartialEq, Eq, Structural)]
pub enum ExecutionError {
    /// The opcode matches no instruction.
    InvalidOpcode(u16),
    /// A call found all sixteen stack slots in use.
    StackOverflow,
    /// A return found the stack empty.
    StackUnderflow,
    /// An access starting at this address would leave the 4096-byte memory,
    /// or would move the index register past it.
    AddressOutOfRange(u16),
}

/// One decoded instruction. Register operands are register numbers (0 to 15),
/// addresses are 12-bit and `n` of a draw is the sprite height (0 to 15).
#[derive(Clone, Copy, Debug, PartialEq, Eq, Structural)]
pub enum Instruction {
    /// `00E0`: clear the display.
    ClearScreen,
    /// `00EE`: return from a subroutine.
    Return,
    /// `1nnn`: jump to `nnn`.
    Jump(u16),
    /// `2nnn`: call the subroutine at `nnn`.
    Call(u16),
    /// `3xkk`: skip the next instruction if `Vx == kk`.
    SkipIfEqual(u8, u8),
    /// `4xkk`: skip the next instruction if `Vx != kk`.
    SkipIfNotEqual(u8, u8),
    /// `5xy0`: skip the next instruction if `Vx == Vy`.
    SkipIfRegistersEqual(u8, u8),
    /// `6xkk`: `Vx = kk`.
    LoadImmediate(u8, u8),
    /// `7xkk`: `Vx = Vx + kk` modulo 256, flag untouched.
    AddImmediate(u8, u8),
    /// `8xy0`: `Vx = Vy`.
    Move(u8, u8),
    /// `8xy1`: `Vx = Vx | Vy`.
    BitOr(u8, u8),
    /// `8xy2`: `Vx = Vx & Vy`.
    BitAnd(u8, u8),
    /// `8xy3`: `Vx = Vx ^ Vy`.
    BitXor(u8, u8),
    /// `8xy4`: `Vx = Vx + Vy` modulo 256, flag = carry.
    AddRegisters(u8, u8),
    /// `8xy5`: `Vx = Vx - Vy` modulo 256, flag = `Vx > Vy`.
    Subtract(u8, u8),
    /// `8xy6`: `Vx = Vx >> 1`, flag = the bit shifted out.
    ShiftRight(u8),
    /// `8xy7`: `Vx = Vy - Vx` modulo 256, flag = `Vy > Vx`.
    SubtractReverse(u8, u8),
    /// `8xyE`: `Vx = Vx << 1` modulo 256, flag = the bit shifted out.
    ShiftLeft(u8),
    /// `9xy0`: skip the next instruction if `Vx != Vy`.
    SkipIfRegistersNotEqual(u8, u8),
    /// `Annn`: `I = nnn`.
    SetIndex(u16),
    /// `Bnnn`: jump to `nnn + V0`.
    JumpWithOffset(u16),
    /// `Cxkk`: `Vx = random byte & kk`.
    RandomAnd(u8, u8),
    /// `Dxyn`: draw the `n`-byte sprite at `I` at position (`Vx`, `Vy`).
    Draw(u8, u8, u8),
    /// `Ex9E`: skip the next instruction if key `Vx` is held.
    SkipIfKeyPressed(u8),
    /// `ExA1`: skip the next instruction if key `Vx` is not held.
    SkipIfKeyNotPressed(u8),
    /// `Fx07`: `Vx = delay timer`.
    LoadDelayTimer(u8),
    /// `Fx0A`: wait for a key and store it in `Vx`.
    WaitForKey(u8),
    /// `Fx15`: `delay timer = Vx`.
    SetDelayTimer(u8),
    /// `Fx18`: `sound timer = Vx`.
    SetSoundTimer(u8),
    /// `Fx1E`: `I = I + Vx`.
    AddToIndex(u8),
    /// `Fx29`: `I` = address of the font glyph for digit `Vx`.
    FontCharacter(u8),
    /// `Fx33`: store the decimal digits of `Vx` at `I`, `I + 1`, `I + 2`.
    StoreBcd(u8),
    /// `Fx55`: store `V0..=Vx` at `I..`.
    StoreRegisters(u8),
    /// `Fx65`: load `V0..=Vx` from `I..`.
    LoadRegisters(u8),
}

/// The four 4-bit fields of an opcode, most significant first.
pub open spec fn nibbles(op: u16) -> (u8, u8, u8, u8) {
    (
        (op / 0x1000) as u8,
        ((op / 0x100) % 0x10) as u8,
        ((op / 0x10) % 0x10) as u8,
        (op % 0x10) as u8,
    )
}

/// The low twelve bits of an opcode: an address.
pub open spec fn address_of(op: u16) -> u16 {
    (op % 0x1000) as u16
}

/// The low byte of an opcode: an immediate operand.
pub open spec fn byte_of(op: u16) -> u8 {
    (op % 0x100) as u8
}

/// The instruction that `op` encodes, or `InvalidOpcode(op)`.
pub open spec fn decode_spec(op: u16) -> Result<Instruction, ExecutionError> {
    let nnn = address_of(op);
    let kk = byte_of(op);
    match nibbles(op) {
        (0x0, 0x0, 0xE, 0x0) => Ok(Instruction::ClearScreen),
        (0x0, 0x0, 0xE, 0xE) => Ok(Instruction::Return),
        (0x1, _, _, _) => Ok(Instruction::Jump(nnn)),
        (0x2, _, _, _) => Ok(Instruction::Call(nnn)),
        (0x3, x, _, _) => Ok(Instruction::SkipIfEqual(x, kk)),
        (0x4, x, _, _) => Ok(Instruction::SkipIfNotEqual(x, kk)),
        (0x5, x, y, 0x0) => Ok(Instruction::SkipIfRegistersEqual(x, y)),
        (0x6, x, _, _) => Ok(Instruction::LoadImmediate(x, kk)),
        (0x7, x, _, _) => Ok(Instruction::AddImmediate(x, kk)),
        (0x8, x, y, 0x0) => Ok(Instruction::Move(x, y)),
        (0x8, x, y, 0x1) => Ok(Instruction::BitOr(x, y)),
        (0x8, x, y, 0x2) => Ok(Instruction::BitAnd(x, y)),
        (0x8, x, y, 0x3) => Ok(Instruction::BitXor(x, y)),
        (0x8, x, y, 0x4) => Ok(Instruction::AddRegisters(x, y)),
        (0x8, x, y, 0x5) => Ok(Instruction::Subtract(x, y)),
        (0x8, x, _, 0x6) => Ok(Instruction::ShiftRight(x)),
        (0x8, x, y, 0x7) => Ok(Instruction::SubtractReverse(x, y)),
        (0x8, x, _, 0xE) => Ok(Instruction::ShiftLeft(x)),
        (0x9, x, y, 0x0) => Ok(Instruction::SkipIfRegistersNotEqual(x, y)),
        (0xA, _, _, _) => Ok(Instruction::SetIndex(nnn)),
        (0xB, _, _, _) => Ok(Instruction::JumpWithOffset(nnn)),
        (0xC, x, _, _) => Ok(Instruction::RandomAnd(x, kk)),
        (0xD, x, y, n) => Ok(Instruction::Draw(x, y, n)),
        (0xE, x, 0x9, 0xE) => Ok(Instruction::SkipIfKeyPressed(x)),
        (0xE, x, 0xA, 0x1) => Ok(Instruction::SkipIfKeyNotPressed(x)),
        (0xF, x, 0x0, 0x7) => Ok(Instruction::LoadDelayTimer(x)),
        (0xF, x, 0x0, 0xA) => Ok(Instruction::WaitForKey(x)),
        (0xF, x, 0x1, 0x5) => Ok(Instruction::SetDelayTimer(x)),
        (0xF, x, 0x1, 0x8) => Ok(Instruction::SetSoundTimer(x)),
        (0xF, x, 0x1, 0xE) => Ok(Instruction::AddToIndex(x)),
        (0xF, x, 0x2, 0x9) => Ok(Instruction::FontCharacter(x)),
        (0xF, x, 0x3, 0x3) => Ok(Instruction::StoreBcd(x)),
        (0xF, x, 0x5, 0x5) => Ok(Instruction::StoreRegisters(x)),
        (0xF, x, 0x6, 0x5) => Ok(Instruction::LoadRegisters(x)),
        _ => Err(ExecutionError::InvalidOpcode(op)),
    }
}

impl Instruction {
    /// Every operand is in range: registers below 16, addresses below
    /// 0x1000, sprite heights below 16. `decode` gives only such instructions.
    pub open spec fn wf(self) -> bool {
        match self {
            Instruction::ClearScreen | Instruction::Return => true,
            Instruction::Jump(a) | Instruction::Call(a) | Instruction::SetIndex(a)
            | Instruction::JumpWithOffset(a) => a < 0x1000,
            Instruction::SkipIfEqual(x, _) | Instruction::SkipIfNotEqual(x, _)
            | Instruction::LoadImmediate(x, _) | Instruction::AddImmediate(x, _)
            | Instruction::RandomAnd(x, _) => x < 16,
            Instruction::SkipIfRegistersEqual(x, y) | Instruction::Move(x, y)
            | Instruction::BitOr(x, y) | Instruction::BitAnd(x, y) | Instruction::BitXor(x, y)
            | Instruction::AddRegisters(x, y) | Instruction::Subtract(x, y)
            | Instruction::SubtractReverse(x, y) | Instruction::SkipIfRegistersNotEqual(x, y) => x
                < 16 && y < 16,
            Instruction::Draw(x, y, n) => x < 16 && y < 16 && n < 16,
            Instruction::ShiftRight(x) | Instruction::ShiftLeft(x)
            | Instruction::SkipIfKeyPressed(x) | Instruction::SkipIfKeyNotPressed(x)
            | Instruction::LoadDelayTimer(x) | Instruction::WaitForKey(x)
            | Instruction::SetDelayTimer(x) | Instruction::SetSoundTimer(x)
            | Instruction::AddToIndex(x) | Instruction::FontCharacter(x)
            | Instruction::StoreBcd(x) | Instruction::StoreRegisters(x)
            | Instruction::LoadRegisters(x) => x < 16,
        }
    }
}

/// Splits `opcode` into its four nibbles, most significant first.
pub fn break_opcode(opcode: u16) -> (r: (u8, u8, u8, u8))
    ensures
        r == nibbles(opcode),
{
    let a = (opcode >> 12 & 0xF) as u8;
    let b = (opcode >> 8 & 0xF) as u8;
    let c = (opcode >> 4 & 0xF) as u8;
    let d = (opcode & 0xF) as u8;
    assert(opcode >> 12 & 0xF == opcode / 0x1000) by (bit_vector);
    assert(opcode >> 8 & 0xF == (opcode / 0x100) % 0x10) by (bit_vector);
    assert(opcode >> 4 & 0xF == (opcode / 0x10) % 0x10) by (bit_vector);
    assert(opcode & 0xF == opcode % 0x10) by (bit_vector);
    (a, b, c, d)
}

/// Decodes `opcode`. The most specific pattern wins; an opcode that matches
/// none fails with `InvalidOpcode` carrying the opcode.
pub fn decode(opcode: u16) -> (r: Result<Instruction, ExecutionError>)
    ensures
        r == decode_spec(opcode),
        r matches Ok(ins) ==> ins.wf(),
{
    let nnn: u16 = opcode % 0x1000;
    let kk: u8 = (opcode % 0x100) as u8;
    match break_opcode(opcode) {
        (0x0, 0x0, 0xE, 0x0) => Ok(Instruction::ClearScreen),
        (0x0, 0x0, 0xE, 0xE) => Ok(Instruction::Return),
        (0x1, _, _, _) => Ok(Instruction::Jump(nnn)),
        (0x2, _, _, _) => Ok(Instruction::Call(nnn)),
        (0x3, x, _, _) => Ok(Instruction::SkipIfEqual(x, kk)),
        (0x4, x, _, _) => Ok(Instruction::SkipIfNotEqual(x, kk)),
        (0x5, x, y, 0x0) => Ok(Instruction::SkipIfRegistersEqual(x, y)),
        (0x6, x, _, _) => Ok(Instruction::LoadImmediate(x, kk)),
        (0x7, x, _, _) => Ok(Instruction::AddImmediate(x, kk)),
        (0x8, x, y, 0x0) => Ok(Instruction::Move(x, y)),
        (0x8, x, y, 0x1) => Ok(Instruction::BitOr(x, y)),
        (0x8, x, y, 0x2) => Ok(Instruction::BitAnd(x, y)),
        (0x8, x, y, 0x3) => Ok(Instruction::BitXor(x, y)),
        (0x8, x, y, 0x4) => Ok(Instruction::AddRegisters(x, y)),
        (0x8, x, y, 0x5) => Ok(Instruction::Subtract(x, y)),
        (0x8, x, _, 0x6) => Ok(Instruction::ShiftRight(x)),
        (0x8, x, y, 0x7) => Ok(Instruction::SubtractReverse(x, y)),
        (0x8, x, _, 0xE) => Ok(Instruction::ShiftLeft(x)),
        (0x9, x, y, 0x0) => Ok(Instruction::SkipIfRegistersNotEqual(x, y)),
        (0xA, _, _, _) => Ok(Instruction::SetIndex(nnn)),
        (0xB, _, _, _) => Ok(Instruction::JumpWithOffset(nnn)),
        (0xC, x, _, _) => Ok(Instruction::RandomAnd(x, kk)),
        (0xD, x, y, n) => Ok(Instruction::Draw(x, y, n)),
        (0xE, x, 0x9, 0xE) => Ok(Instruction::SkipIfKeyPressed(x)),
        (0xE, x, 0xA, 0x1) => Ok(Instruction::SkipIfKeyNotPressed(x)),
        (0xF, x, 0x0, 0x7) => Ok(Instruction::LoadDelayTimer(x)),
        (0xF, x, 0x0, 0xA) => Ok(Instruction::WaitForKey(x)),
        (0xF, x, 0x1, 0x5) => Ok(Instruction::SetDelayTimer(x)),
        (0xF, x, 0x1, 0x8) => Ok(Instruction::SetSoundTimer(x)),
        (0xF, x, 0x1, 0xE) => Ok(Instruction::AddToIndex(x)),
        (0xF, x, 0x2, 0x9) => Ok(Instruction::FontCharacter(x)),
        (0xF, x, 0x3, 0x3) => Ok(Instruction::StoreBcd(x)),
        (0xF, x, 0x5, 0x5) => Ok(Instruction::StoreRegisters(x)),
        (0xF, x, 0x6, 0x5) => Ok(Instruction::LoadRegisters(x)),
        _ => Err(ExecutionError::InvalidOpcode(opcode)),
    }
}

} // verus!
