use vstd::prelude::*;
use crate::nibble::{conc_nibbles, conc_value, split_nibbles};

verus! {

/// A decoded instruction. `x` and `y` name registers, `kk` is an immediate
/// byte, `addr` a twelve-bit address and `n` a row count.
#[derive(Clone, Copy, Debug, PartialEq, Eq, Structural)]
pub enum Instruction {
    /// `00E0`
    ClearScreen,
    /// `00EE`
    Return,
    /// `1nnn`
    Jump { addr: u16 },
    /// `2nnn`
    Call { addr: u16 },
    /// `3xkk`
    SkipEqImm { x: u8, kk: u8 },
    /// `4xkk`
    SkipNeImm { x: u8, kk: u8 },
    /// `5xy0`
    SkipEqReg { x: u8, y: u8 },
    /// `6xkk`
    LoadImm { x: u8, kk: u8 },
    /// `7xkk`
    AddImm { x: u8, kk: u8 },
    /// `8xy0`
    Move { x: u8, y: u8 },
    /// `8xy1`
    Or { x: u8, y: u8 },
    /// `8xy2`
    And { x: u8, y: u8 },
    /// `8xy3`
    Xor { x: u8, y: u8 },
    /// `8xy4`
    Add { x: u8, y: u8 },
    /// `8xy5`
    Sub { x: u8, y: u8 },
    /// `8xy6`
    ShiftRight { x: u8, y: u8 },
    /// `8xy7`
    SubFrom { x: u8, y: u8 },
    /// `8xyE`
    ShiftLeft { x: u8, y: u8 },
    /// `9xy0`
    SkipNeReg { x: u8, y: u8 },
    /// `Annn`
    LoadIndex { addr: u16 },
    /// `Bnnn`
    JumpOffset { addr: u16 },
    /// `Cxkk`
    Random { x: u8, kk: u8 },
    /// `Dxyn`
    Draw { x: u8, y: u8, n: u8 },
    /// `Ex9E`
    SkipKeyDown { x: u8 },
    /// `ExA1`
    SkipKeyUp { x: u8 },
    /// `Fx07`
    ReadDelay { x: u8 },
    /// `Fx0A`
    WaitKey { x: u8 },
    /// `Fx15`
    SetDelay { x: u8 },
    /// `Fx18`
    SetSound { x: u8 },
    /// `Fx1E`
    AddIndex { x: u8 },
    /// `Fx29`
    FontGlyph { x: u8 },
    /// `Fx33`
    StoreBcd { x: u8 },
    /// `Fx55`
    StoreRegisters { x: u8 },
    /// `Fx65`
    LoadRegisters { x: u8 },
}

impl Instruction {
    /// Whether every operand fits the field of the instruction word that it
    /// comes from: four bits for a register or a row count, twelve for an
    /// address.
    pub open spec fn wf(self) -> bool {
        match self {
            Instruction::ClearScreen | Instruction::Return => true,
            Instruction::Jump { addr }
            | Instruction::Call { addr }
            | Instruction::LoadIndex { addr }
            | Instruction::JumpOffset { addr } => addr < 4096,
            Instruction::SkipEqImm { x, .. }
            | Instruction::SkipNeImm { x, .. }
            | Instruction::LoadImm { x, .. }
            | Instruction::AddImm { x, .. }
            | Instruction::Random { x, .. } => x < 16,
            Instruction::SkipEqReg { x, y }
            | Instruction::Move { x, y }
            | Instruction::Or { x, y }
            | Instruction::And { x, y }
            | Instruction::Xor { x, y }
            | Instruction::Add { x, y }
            | Instruction::Sub { x, y }
            | Instruction::ShiftRight { x, y }
            | Instruction::SubFrom { x, y }
            | Instruction::ShiftLeft { x, y }
            | Instruction::SkipNeReg { x, y } => x < 16 && y < 16,
            Instruction::Draw { x, y, n } => x < 16 && y < 16 && n < 16,
            Instruction::SkipKeyDown { x }
            | Instruction::SkipKeyUp { x }
            | Instruction::ReadDelay { x }
            | Instruction::WaitKey { x }
            | Instruction::SetDelay { x }
            | Instruction::SetSound { x }
            | Instruction::AddIndex { x }
            | Instruction::FontGlyph { x }
            | Instruction::StoreBcd { x }
            | Instruction::StoreRegisters { x }
            | Instruction::LoadRegisters { x } => x < 16,
        }
    }
}

/// The instruction that a word stands for, or `None` where its nibbles match
/// no instruction. The first nibble selects the family; `x` is the second
/// nibble, `y` the third and `n` the fourth; `kk` is the low byte and `addr`
/// the low twelve bits.
pub open spec fn decode_spec(word: u16) -> Option<Instruction> {
    let family = (word / 4096) as u8;
    let x = ((word / 256) % 16) as u8;
    let y = ((word / 16) % 16) as u8;
    let n = (word % 16) as u8;
    let kk = (word % 256) as u8;
    let addr = (word % 4096) as u16;
    match (family, x, y, n) {
        (0x0, 0x0, 0xE, 0x0) => Some(Instruction::ClearScreen),
        (0x0, 0x0, 0xE, 0xE) => Some(Instruction::Return),
        (0x1, _, _, _) => Some(Instruction::Jump { addr }),
        (0x2, _, _, _) => Some(Instruction::Call { addr }),
        (0x3, _, _, _) => Some(Instruction::SkipEqImm { x, kk }),
        (0x4, _, _, _) => Some(Instruction::SkipNeImm { x, kk }),
        (0x5, _, _, 0x0) => Some(Instruction::SkipEqReg { x, y }),
        (0x6, _, _, _) => Some(Instruction::LoadImm { x, kk }),
        (0x7, _, _, _) => Some(Instruction::AddImm { x, kk }),
        (0x8, _, _, 0x0) => Some(Instruction::Move { x, y }),
        (0x8, _, _, 0x1) => Some(Instruction::Or { x, y }),
        (0x8, _, _, 0x2) => Some(Instruction::And { x, y }),
        (0x8, _, _, 0x3) => Some(Instruction::Xor { x, y }),
        (0x8, _, _, 0x4) => Some(Instruction::Add { x, y }),
        (0x8, _, _, 0x5) => Some(Instruction::Sub { x, y }),
        (0x8, _, _, 0x6) => Some(Instruction::ShiftRight { x, y }),
        (0x8, _, _, 0x7) => Some(Instruction::SubFrom { x, y }),
        (0x8, _, _, 0xE) => Some(Instruction::ShiftLeft { x, y }),
        (0x9, _, _, 0x0) => Some(Instruction::SkipNeReg { x, y }),
        (0xA, _, _, _) => Some(Instruction::LoadIndex { addr }),
        (0xB, _, _, _) => Some(Instruction::JumpOffset { addr }),
        (0xC, _, _, _) => Some(Instruction::Random { x, kk }),
        (0xD, _, _, _) => Some(Instruction::Draw { x, y, n }),
        (0xE, _, 0x9, 0xE) => Some(Instruction::SkipKeyDown { x }),
        (0xE, _, 0xA, 0x1) => Some(Instruction::SkipKeyUp { x }),
        (0xF, _, 0x0, 0x7) => Some(Instruction::ReadDelay { x }),
        (0xF, _, 0x0, 0xA) => Some(Instruction::WaitKey { x }),
        (0xF, _, 0x1, 0x5) => Some(Instruction::SetDelay { x }),
        (0xF, _, 0x1, 0x8) => Some(Instruction::SetSound { x }),
        (0xF, _, 0x1, 0xE) => Some(Instruction::AddIndex { x }),
        (0xF, _, 0x2, 0x9) => Some(Instruction::FontGlyph { x }),
        (0xF, _, 0x3, 0x3) => Some(Instruction::StoreBcd { x }),
        (0xF, _, 0x5, 0x5) => Some(Instruction::StoreRegisters { x }),
        (0xF, _, 0x6, 0x5) => Some(Instruction::LoadRegisters { x }),
        _ => None,
    }
}

/// The value of two or three nibbles, as `conc_value` gives it.
proof fn lemma_conc_short(a: u8, b: u8, c: u8)
    ensures
        conc_value(seq![a, b]) == a * 16 + b,
        conc_value(seq![a, b, c]) == (a * 16 + b) * 16 + c,
{
    let two = seq![a, b];
    let three = seq![a, b, c];
    assert(two.drop_last() =~= seq![a]);
    assert(three.drop_last() =~= two);
    assert(seq![a].drop_last() =~= Seq::<u8>::empty());
    assert(conc_value(Seq::<u8>::empty()) == 0);
    assert(conc_value(seq![a]) == a);
    assert(conc_value(two) == a * 16 + b);
}

/// Decodes an instruction word. Decoding reads nothing but the word.
pub fn decode(word: u16) -> (ins: Option<Instruction>)
    ensures
        ins == decode_spec(word),
        ins matches Some(i) ==> i.wf(),
{
    let nibbs = split_nibbles(word);
    let x = nibbs[1];
    let y = nibbs[2];
    let n = nibbs[3];
    let kk = conc_nibbles(&[nibbs[2], nibbs[3]]) as u8;
    let addr = conc_nibbles(&[nibbs[1], nibbs[2], nibbs[3]]);
    proof {
        lemma_conc_short(nibbs[2], nibbs[3], 0);
        lemma_conc_short(nibbs[1], nibbs[2], nibbs[3]);
        assert(kk == word % 256);
        assert(addr == word % 4096);
    }
    match (nibbs[0], x, y, n) {
        (0x0, 0x0, 0xE, 0x0) => Some(Instruction::ClearScreen),
        (0x0, 0x0, 0xE, 0xE) => Some(Instruction::Return),
        (0x1, _, _, _) => Some(Instruction::Jump { addr }),
        (0x2, _, _, _) => Some(Instruction::Call { addr }),
        (0x3, _, _, _) => Some(Instruction::SkipEqImm { x, kk }),
        (0x4, _, _, _) => Some(Instruction::SkipNeImm { x, kk }),
        (0x5, _, _, 0x0) => Some(Instruction::SkipEqReg { x, y }),
        (0x6, _, _, _) => Some(Instruction::LoadImm { x, kk }),
        (0x7, _, _, _) => Some(Instruction::AddImm { x, kk }),
        (0x8, _, _, 0x0) => Some(Instruction::Move { x, y }),
        (0x8, _, _, 0x1) => Some(Instruction::Or { x, y }),
        (0x8, _, _, 0x2) => Some(Instruction::And { x, y }),
        (0x8, _, _, 0x3) => Some(Instruction::Xor { x, y }),
        (0x8, _, _, 0x4) => Some(Instruction::Add { x, y }),
        (0x8, _, _, 0x5) => Some(Instruction::Sub { x, y }),
        (0x8, _, _, 0x6) => Some(Instruction::ShiftRight { x, y }),
        (0x8, _, _, 0x7) => Some(Instruction::SubFrom { x, y }),
        (0x8, _, _, 0xE) => Some(Instruction::ShiftLeft { x, y }),
        (0x9, _, _, 0x0) => Some(Instruction::SkipNeReg { x, y }),
        (0xA, _, _, _) => Some(Instruction::LoadIndex { addr }),
        (0xB, _, _, _) => Some(Instruction::JumpOffset { addr }),
        (0xC, _, _, _) => Some(Instruction::Random { x, kk }),
        (0xD, _, _, _) => Some(Instruction::Draw { x, y, n }),
        (0xE, _, 0x9, 0xE) => Some(Instruction::SkipKeyDown { x }),
        (0xE, _, 0xA, 0x1) => Some(Instruction::SkipKeyUp { x }),
        (0xF, _, 0x0, 0x7) => Some(Instruction::ReadDelay { x }),
        (0xF, _, 0x0, 0xA) => Some(Instruction::WaitKey { x }),
        (0xF, _, 0x1, 0x5) => Some(Instruction::SetDelay { x }),
        (0xF, _, 0x1, 0x8) => Some(Instruction::SetSound { x }),
        (0xF, _, 0x1, 0xE) => Some(Instruction::AddIndex { x }),
        (0xF, _, 0x2, 0x9) => Some(Instruction::FontGlyph { x }),
        (0xF, _, 0x3, 0x3) => Some(Instruction::StoreBcd { x }),
        (0xF, _, 0x5, 0x5) => Some(Instruction::StoreRegisters { x }),
        (0xF, _, 0x6, 0x5) => Some(Instruction::LoadRegisters { x }),
        _ => None,
    }
}

} // verus!
