//! The instruction set: one variant per mnemonic, and the decoder from a
//! sixteen-bit instruction word.

use vstd::prelude::*;

verus! {

/// A decoded instruction. Register operands `x` and `y` are register
/// numbers, `kk` is an eight-bit immediate, `addr` a twelve-bit address and
/// `n` a sprite height.
#[derive(Clone, Copy, Debug, PartialEq, Eq, Structural)]
pub enum Instruction {
    /// `00E0`: turn every display cell off.
    ClearDisplay,
    /// `00EE`: return from a subroutine.
    Return,
    /// `1nnn`: jump to `addr`.
    Jump { addr: u16 },
    /// `2nnn`: call the subroutine at `addr`.
    Call { addr: u16 },
    /// `3xkk`: skip the next instruction if `Vx == kk`.
    SkipEqImm { x: u8, kk: u8 },
    /// `4xkk`: skip the next instruction if `Vx != kk`.
    SkipNeImm { x: u8, kk: u8 },
    /// `5xy0`: skip the next instruction if `Vx == Vy`.
    SkipEqReg { x: u8, y: u8 },
    /// `6xkk`: `Vx = kk`.
    LoadImm { x: u8, kk: u8 },
    /// `7xkk`: `Vx = Vx + kk`, wrapping, flag untouched.
    AddImm { x: u8, kk: u8 },
    /// `8xy0`: `Vx = Vy`.
    Move { x: u8, y: u8 },
    /// `8xy1`: `Vx = Vx | Vy`.
    Or { x: u8, y: u8 },
    /// `8xy2`: `Vx = Vx & Vy`.
    And { x: u8, y: u8 },
    /// `8xy3`: `Vx = Vx ^ Vy`.
    Xor { x: u8, y: u8 },
    /// `8xy4`: `Vx = Vx + Vy`, wrapping, flag = carry.
    AddReg { x: u8, y: u8 },
    /// `8xy5`: `Vx = Vx - Vy`, wrapping, flag = no borrow.
    SubReg { x: u8, y: u8 },
    /// `8xy6`: flag = lowest bit of `Vx`, then `Vx` shifted right by one.
    ShiftRight { x: u8 },
    /// `8xy7`: `Vx = Vy - Vx`, wrapping, flag = no borrow.
    SubRegReverse { x: u8, y: u8 },
    /// `8xyE`: flag = highest bit of `Vx`, then `Vx` shifted left by one.
    ShiftLeft { x: u8 },
    /// `9xy0`: skip the next instruction if `Vx != Vy`.
    SkipNeReg { x: u8, y: u8 },
    /// `Annn`: index register = `addr`.
    LoadIndex { addr: u16 },
    /// `Bnnn`: jump to `addr + V0`.
    JumpOffset { addr: u16 },
    /// `Cxkk`: `Vx` = random byte `& kk`.
    Random { x: u8, kk: u8 },
    /// `Dxyn`: draw the `n`-row sprite at the index register at (`Vx`, `Vy`).
    Draw { x: u8, y: u8, n: u8 },
    /// `Ex9E`: skip the next instruction if the key numbered `Vx` is down.
    SkipKeyPressed { x: u8 },
    /// `ExA1`: skip the next instruction if the key numbered `Vx` is up.
    SkipKeyNotPressed { x: u8 },
    /// `Fx07`: `Vx` = delay timer.
    LoadDelay { x: u8 },
    /// `Fx0A`: wait for a key press and store the key number in `Vx`.
    WaitKey { x: u8 },
    /// `Fx15`: delay timer = `Vx`.
    SetDelay { x: u8 },
    /// `Fx18`: sound timer = `Vx`.
    SetSound { x: u8 },
    /// `Fx1E`: index register += `Vx`, wrapping.
    AddIndex { x: u8 },
    /// `Fx29`: index register = address of the font sprite for digit `Vx`.
    LoadFont { x: u8 },
    /// `Fx33`: store the three decimal digits of `Vx` at the index register.
    StoreBcd { x: u8 },
    /// `Fx55`: store `V0..=Vx` at the index register.
    StoreRegisters { x: u8 },
    /// `Fx65`: load `V0..=Vx` from the index register.
    LoadRegisters { x: u8 },
    /// Any other word: executes as a no-op.
    Unknown,
}

/// The `i`-th four-bit field of `word`, counted from the most significant
/// (`i == 0`) to the least significant (`i == 3`).
pub open spec fn nibble(word: u16, i: int) -> int {
    if i == 0 {
        word as int / 0x1000
    } else if i == 1 {
        (word as int / 0x100) % 0x10
    } else if i == 2 {
        (word as int / 0x10) % 0x10
    } else {
        word as int % 0x10
    }
}

/// The word whose four-bit fields are `a`, `b`, `c` and `d`, most
/// significant first.
pub open spec fn word_from_nibbles(a: int, b: int, c: int, d: int) -> u16 {
    (0x1000 * a + 0x100 * b + 0x10 * c + d) as u16
}

/// A word assembled from four fields has exactly those fields.
pub proof fn lemma_word_from_nibbles(a: int, b: int, c: int, d: int)
    requires
        0 <= a < 16,
        0 <= b < 16,
        0 <= c < 16,
        0 <= d < 16,
    ensures
        word_from_nibbles(a, b, c, d) == 0x1000 * a + 0x100 * b + 0x10 * c + d,
        nibble(word_from_nibbles(a, b, c, d), 0) == a,
        nibble(word_from_nibbles(a, b, c, d), 1) == b,
        nibble(word_from_nibbles(a, b, c, d), 2) == c,
        nibble(word_from_nibbles(a, b, c, d), 3) == d,
        word_from_nibbles(a, b, c, d) as int % 0x100 == 0x10 * c + d,
        word_from_nibbles(a, b, c, d) as int % 0x1000 == 0x100 * b + 0x10 * c + d,
{
    let word = word_from_nibbles(a, b, c, d);
    let a = a as u16;
    let b = b as u16;
    let c = c as u16;
    let d = d as u16;
    assert(word == 0x1000 * a + 0x100 * b + 0x10 * c + d);
    assert({
        &&& word / 0x1000 == a
        &&& (word / 0x100) % 0x10 == b
        &&& (word / 0x10) % 0x10 == c
        &&& word % 0x10 == d
        &&& word % 0x100 == 0x10 * c + d
        &&& word % 0x1000 == 0x100 * b + 0x10 * c + d
    }) by (bit_vector)
        requires
            a < 16,
            b < 16,
            c < 16,
            d < 16,
            word == 0x1000 * a + 0x100 * b + 0x10 * c + d,
    ;
}

/// The instruction that `word` encodes.
pub open spec fn decode_word(word: u16) -> Instruction {
    let op = nibble(word, 0);
    let x = nibble(word, 1) as u8;
    let y = nibble(word, 2) as u8;
    let n = nibble(word, 3) as u8;
    let kk = (word as int % 0x100) as u8;
    let addr = (word as int % 0x1000) as u16;
    if word == 0x00E0 {
        Instruction::ClearDisplay
    } else if word == 0x00EE {
        Instruction::Return
    } else if op == 0x1 {
        Instruction::Jump { addr }
    } else if op == 0x2 {
        Instruction::Call { addr }
    } else if op == 0x3 {
        Instruction::SkipEqImm { x, kk }
    } else if op == 0x4 {
        Instruction::SkipNeImm { x, kk }
    } else if op == 0x5 && n == 0x0 {
        Instruction::SkipEqReg { x, y }
    } else if op == 0x6 {
        Instruction::LoadImm { x, kk }
    } else if op == 0x7 {
        Instruction::AddImm { x, kk }
    } else if op == 0x8 && n == 0x0 {
        Instruction::Move { x, y }
    } else if op == 0x8 && n == 0x1 {
        Instruction::Or { x, y }
    } else if op == 0x8 && n == 0x2 {
        Instruction::And { x, y }
    } else if op == 0x8 && n == 0x3 {
        Instruction::Xor { x, y }
    } else if op == 0x8 && n == 0x4 {
        Instruction::AddReg { x, y }
    } else if op == 0x8 && n == 0x5 {
        Instruction::SubReg { x, y }
    } else if op == 0x8 && n == 0x6 {
        Instruction::ShiftRight { x }
    } else if op == 0x8 && n == 0x7 {
        Instruction::SubRegReverse { x, y }
    } else if op == 0x8 && n == 0xE {
        Instruction::ShiftLeft { x }
    } else if op == 0x9 && n == 0x0 {
        Instruction::SkipNeReg { x, y }
    } else if op == 0xA {
        Instruction::LoadIndex { addr }
    } else if op == 0xB {
        Instruction::JumpOffset { addr }
    } else if op == 0xC {
        Instruction::Random { x, kk }
    } else if op == 0xD {
        Instruction::Draw { x, y, n }
    } else if op == 0xE && kk == 0x9E {
        Instruction::SkipKeyPressed { x }
    } else if op == 0xE && kk == 0xA1 {
        Instruction::SkipKeyNotPressed { x }
    } else if op == 0xF && kk == 0x07 {
        Instruction::LoadDelay { x }
    } else if op == 0xF && kk == 0x0A {
        Instruction::WaitKey { x }
    } else if op == 0xF && kk == 0x15 {
        Instruction::SetDelay { x }
    } else if op == 0xF && kk == 0x18 {
        Instruction::SetSound { x }
    } else if op == 0xF && kk == 0x1E {
        Instruction::AddIndex { x }
    } else if op == 0xF && kk == 0x29 {
        Instruction::LoadFont { x }
    } else if op == 0xF && kk == 0x33 {
        Instruction::StoreBcd { x }
    } else if op == 0xF && kk == 0x55 {
        Instruction::StoreRegisters { x }
    } else if op == 0xF && kk == 0x65 {
        Instruction::LoadRegisters { x }
    } else {
        Instruction::Unknown
    }
}

impl Instruction {
    /// Every register operand names one of the sixteen registers, every
    /// address fits in twelve bits and a sprite has at most fifteen rows.
    pub open spec fn wf(self) -> bool {
        match self {
            Instruction::ClearDisplay | Instruction::Return | Instruction::Unknown => true,
            Instruction::Jump { addr }
            | Instruction::Call { addr }
            | Instruction::LoadIndex { addr }
            | Instruction::JumpOffset { addr } => addr < 0x1000,
            Instruction::SkipEqImm { x, .. }
            | Instruction::SkipNeImm { x, .. }
            | Instruction::LoadImm { x, .. }
            | Instruction::AddImm { x, .. }
            | Instruction::Random { x, .. }
            | Instruction::ShiftRight { x }
            | Instruction::ShiftLeft { x }
            | Instruction::SkipKeyPressed { x }
            | Instruction::SkipKeyNotPressed { x }
            | Instruction::LoadDelay { x }
            | Instruction::WaitKey { x }
            | Instruction::SetDelay { x }
            | Instruction::SetSound { x }
            | Instruction::AddIndex { x }
            | Instruction::LoadFont { x }
            | Instruction::StoreBcd { x }
            | Instruction::StoreRegisters { x }
            | Instruction::LoadRegisters { x } => x < 16,
            Instruction::SkipEqReg { x, y }
            | Instruction::Move { x, y }
            | Instruction::Or { x, y }
            | Instruction::And { x, y }
            | Instruction::Xor { x, y }
            | Instruction::AddReg { x, y }
            | Instruction::SubReg { x, y }
            | Instruction::SubRegReverse { x, y }
            | Instruction::SkipNeReg { x, y } => x < 16 && y < 16,
            Instruction::Draw { x, y, n } => x < 16 && y < 16 && n < 16,
        }
    }
}

impl Instruction {
    /// The instruction only moves the program counter or the call stack.
    pub open spec fn is_flow(self) -> bool {
        match self {
            Instruction::Return
            | Instruction::Jump { .. }
            | Instruction::Call { .. }
            | Instruction::SkipEqImm { .. }
            | Instruction::SkipNeImm { .. }
            | Instruction::SkipEqReg { .. }
            | Instruction::SkipNeReg { .. }
            | Instruction::JumpOffset { .. }
            | Instruction::SkipKeyPressed { .. }
            | Instruction::SkipKeyNotPressed { .. }
            | Instruction::WaitKey { .. } => true,
            _ => false,
        }
    }

    /// The instruction only writes registers.
    pub open spec fn is_register(self) -> bool {
        match self {
            Instruction::LoadImm { .. }
            | Instruction::AddImm { .. }
            | Instruction::Move { .. }
            | Instruction::Or { .. }
            | Instruction::And { .. }
            | Instruction::Xor { .. }
            | Instruction::AddReg { .. }
            | Instruction::SubReg { .. }
            | Instruction::ShiftRight { .. }
            | Instruction::SubRegReverse { .. }
            | Instruction::ShiftLeft { .. }
            | Instruction::Random { .. }
            | Instruction::LoadDelay { .. } => true,
            _ => false,
        }
    }
}

/// Relates the shifts and masks that the decoder computes to the four-bit
/// fields they extract.
proof fn lemma_fields(word: u16)
    ensures
        (word & 0xF000) >> 12 == nibble(word, 0),
        (word & 0x0F00) >> 8 == nibble(word, 1),
        (word & 0x00F0) >> 4 == nibble(word, 2),
        word & 0x000F == nibble(word, 3),
        word & 0x00FF == word as int % 0x100,
        word & 0x0FFF == word as int % 0x1000,
{
    assert((word & 0xF000) >> 12 == word / 0x1000) by (bit_vector);
    assert((word & 0x0F00) >> 8 == (word / 0x100) % 0x10) by (bit_vector);
    assert((word & 0x00F0) >> 4 == (word / 0x10) % 0x10) by (bit_vector);
    assert(word & 0x000F == word % 0x10) by (bit_vector);
    assert(word & 0x00FF == word % 0x100) by (bit_vector);
    assert(word & 0x0FFF == word % 0x1000) by (bit_vector);
}

/// Splits `word` into its four-bit fields and matches them against the
/// instruction set.
pub fn decode(word: u16) -> (instruction: Instruction)
    ensures
        instruction == decode_word(word),
        instruction.wf(),
{
    proof {
        lemma_fields(word);
    }
    let op1: u16 = (word & 0xF000) >> 12;
    let op2: u16 = (word & 0x0F00) >> 8;
    let op3: u16 = (word & 0x00F0) >> 4;
    let op4: u16 = word & 0x000F;
    let addr: u16 = word & 0x0FFF;
    let kk: u8 = (word & 0x00FF) as u8;
    let x: u8 = op2 as u8;
    let y: u8 = op3 as u8;
    let n: u8 = op4 as u8;
    match (op1, op2, op3, op4) {
        (0x0, 0x0, 0xE, 0x0) => Instruction::ClearDisplay,
        (0x0, 0x0, 0xE, 0xE) => Instruction::Return,
        (0x1, _, _, _) => Instruction::Jump { addr },
        (0x2, _, _, _) => Instruction::Call { addr },
        (0x3, _, _, _) => Instruction::SkipEqImm { x, kk },
        (0x4, _, _, _) => Instruction::SkipNeImm { x, kk },
        (0x5, _, _, 0x0) => Instruction::SkipEqReg { x, y },
        (0x6, _, _, _) => Instruction::LoadImm { x, kk },
        (0x7, _, _, _) => Instruction::AddImm { x, kk },
        (0x8, _, _, 0x0) => Instruction::Move { x, y },
        (0x8, _, _, 0x1) => Instruction::Or { x, y },
        (0x8, _, _, 0x2) => Instruction::And { x, y },
        (0x8, _, _, 0x3) => Instruction::Xor { x, y },
        (0x8, _, _, 0x4) => Instruction::AddReg { x, y },
        (0x8, _, _, 0x5) => Instruction::SubReg { x, y },
        (0x8, _, _, 0x6) => Instruction::ShiftRight { x },
        (0x8, _, _, 0x7) => Instruction::SubRegReverse { x, y },
        (0x8, _, _, 0xE) => Instruction::ShiftLeft { x },
        (0x9, _, _, 0x0) => Instruction::SkipNeReg { x, y },
        (0xA, _, _, _) => Instruction::LoadIndex { addr },
        (0xB, _, _, _) => Instruction::JumpOffset { addr },
        (0xC, _, _, _) => Instruction::Random { x, kk },
        (0xD, _, _, _) => Instruction::Draw { x, y, n },
        (0xE, _, 0x9, 0xE) => Instruction::SkipKeyPressed { x },
        (0xE, _, 0xA, 0x1) => Instruction::SkipKeyNotPressed { x },
        (0xF, _, 0x0, 0x7) => Instruction::LoadDelay { x },
        (0xF, _, 0x0, 0xA) => Instruction::WaitKey { x },
        (0xF, _, 0x1, 0x5) => Instruction::SetDelay { x },
        (0xF, _, 0x1, 0x8) => Instruction::SetSound { x },
        (0xF, _, 0x1, 0xE) => Instruction::AddIndex { x },
        (0xF, _, 0x2, 0x9) => Instruction::LoadFont { x },
        (0xF, _, 0x3, 0x3) => Instruction::StoreBcd { x },
        (0xF, _, 0x5, 0x5) => Instruction::StoreRegisters { x },
        (0xF, _, 0x6, 0x5) => Instruction::LoadRegisters { x },
        (_, _, _, _) => Instruction::Unknown,
    }
}

} // verus!
