//! The instruction set: what each 16-bit opcode stands for.

use vstd::prelude::*;

verus! {

/// One decoded instruction. `x` and `y` name registers, `nn` is an 8-bit
/// immediate, `n` a 4-bit immediate and `addr` a 12-bit address.
#[derive(Clone, Copy, PartialEq, Eq, Debug)]
pub enum Instruction {
    ClearScreen,
    Return,
    Jump { addr: u16 },
    Call { addr: u16 },
    SkipEqImm { x: usize, nn: u8 },
    SkipNeImm { x: usize, nn: u8 },
    SkipEqReg { x: usize, y: usize },
    LoadImm { x: usize, nn: u8 },
    AddImm { x: usize, nn: u8 },
    LoadReg { x: usize, y: usize },
    Or { x: usize, y: usize },
    And { x: usize, y: usize },
    Xor { x: usize, y: usize },
    AddReg { x: usize, y: usize },
    Sub { x: usize, y: usize },
    Shr { x: usize, y: usize },
    Subn { x: usize, y: usize },
    Shl { x: usize, y: usize },
    SkipNeReg { x: usize, y: usize },
    LoadIndex { addr: u16 },
    JumpPlusV0 { addr: u16 },
    Rand { x: usize, nn: u8 },
    Draw { x: usize, y: usize, n: usize },
    SkipKeyPressed { x: usize },
    SkipKeyNotPressed { x: usize },
    LoadDelay { x: usize },
    WaitKey { x: usize },
    SetDelay { x: usize },
    SetSound { x: usize },
    AddIndex { x: usize },
    FontAddr { x: usize },
    Bcd { x: usize },
    StoreRange { x: usize },
    LoadRange { x: usize },
    /// Any opcode that matches no pattern of the instruction set.
    Unknown,
}

impl Instruction {
    /// Every register index and immediate is within the width of its opcode
    /// field.
    pub open spec fn in_range(self) -> bool {
        match self {
            Instruction::ClearScreen | Instruction::Return | Instruction::Unknown => true,
            Instruction::Jump { addr }
            | Instruction::Call { addr }
            | Instruction::LoadIndex { addr }
            | Instruction::JumpPlusV0 { addr } => addr < 0x1000,
            Instruction::SkipEqImm { x, nn }
            | Instruction::SkipNeImm { x, nn }
            | Instruction::LoadImm { x, nn }
            | Instruction::AddImm { x, nn }
            | Instruction::Rand { x, nn } => x < 16,
            Instruction::SkipEqReg { x, y }
            | Instruction::LoadReg { x, y }
            | Instruction::Or { x, y }
            | Instruction::And { x, y }
            | Instruction::Xor { x, y }
            | Instruction::AddReg { x, y }
            | Instruction::Sub { x, y }
            | Instruction::Shr { x, y }
            | Instruction::Subn { x, y }
            | Instruction::Shl { x, y }
            | Instruction::SkipNeReg { x, y } => x < 16 && y < 16,
            Instruction::Draw { x, y, n } => x < 16 && y < 16 && n < 16,
            Instruction::SkipKeyPressed { x }
            | Instruction::SkipKeyNotPressed { x }
            | Instruction::LoadDelay { x }
            | Instruction::WaitKey { x }
            | Instruction::SetDelay { x }
            | Instruction::SetSound { x }
            | Instruction::AddIndex { x }
            | Instruction::FontAddr { x }
            | Instruction::Bcd { x }
            | Instruction::StoreRange { x }
            | Instruction::LoadRange { x } => x < 16,
        }
    }
}

/// The instruction that `opcode` encodes. Its four nibbles are, from the most
/// significant, the group, `x`, `y` and `n`; `nn` is its low byte and `addr`
/// its low twelve bits.
pub open spec fn spec_decode(opcode: u16) -> Instruction {
    let group = opcode / 0x1000;
    let x = ((opcode / 0x100) % 0x10) as usize;
    let y = ((opcode / 0x10) % 0x10) as usize;
    let n = (opcode % 0x10) as usize;
    let nn = (opcode % 0x100) as u8;
    let addr = (opcode % 0x1000) as u16;
    if opcode == 0x00E0 {
        Instruction::ClearScreen
    } else if opcode == 0x00EE {
        Instruction::Return
    } else if group == 0x1 {
        Instruction::Jump { addr }
    } else if group == 0x2 {
        Instruction::Call { addr }
    } else if group == 0x3 {
        Instruction::SkipEqImm { x, nn }
    } else if group == 0x4 {
        Instruction::SkipNeImm { x, nn }
    } else if group == 0x5 && n == 0x0 {
        Instruction::SkipEqReg { x, y }
    } else if group == 0x6 {
        Instruction::LoadImm { x, nn }
    } else if group == 0x7 {
        Instruction::AddImm { x, nn }
    } else if group == 0x8 && n == 0x0 {
        Instruction::LoadReg { x, y }
    } else if group == 0x8 && n == 0x1 {
        Instruction::Or { x, y }
    } else if group == 0x8 && n == 0x2 {
        Instruction::And { x, y }
    } else if group == 0x8 && n == 0x3 {
        Instruction::Xor { x, y }
    } else if group == 0x8 && n == 0x4 {
        Instruction::AddReg { x, y }
    } else if group == 0x8 && n == 0x5 {
        Instruction::Sub { x, y }
    } else if group == 0x8 && n == 0x6 {
        Instruction::Shr { x, y }
    } else if group == 0x8 && n == 0x7 {
        Instruction::Subn { x, y }
    } else if group == 0x8 && n == 0xE {
        Instruction::Shl { x, y }
    } else if group == 0x9 && n == 0x0 {
        Instruction::SkipNeReg { x, y }
    } else if group == 0xA {
        Instruction::LoadIndex { addr }
    } else if group == 0xB {
        Instruction::JumpPlusV0 { addr }
    } else if group == 0xC {
        Instruction::Rand { x, nn }
    } else if group == 0xD {
        Instruction::Draw { x, y, n }
    } else if group == 0xE && nn == 0x9E {
        Instruction::SkipKeyPressed { x }
    } else if group == 0xE && nn == 0xA1 {
        Instruction::SkipKeyNotPressed { x }
    } else if group == 0xF && nn == 0x07 {
        Instruction::LoadDelay { x }
    } else if group == 0xF && nn == 0x0A {
        Instruction::WaitKey { x }
    } else if group == 0xF && nn == 0x15 {
        Instruction::SetDelay { x }
    } else if group == 0xF && nn == 0x18 {
        Instruction::SetSound { x }
    } else if group == 0xF && nn == 0x1E {
        Instruction::AddIndex { x }
    } else if group == 0xF && nn == 0x29 {
        Instruction::FontAddr { x }
    } else if group == 0xF && nn == 0x33 {
        Instruction::Bcd { x }
    } else if group == 0xF && nn == 0x55 {
        Instruction::StoreRange { x }
    } else if group == 0xF && nn == 0x65 {
        Instruction::LoadRange { x }
    } else {
        Instruction::Unknown
    }
}

/// Whatever the opcode, the fields of its instruction are within their widths.
pub proof fn lemma_decode_in_range(opcode: u16)
    ensures
        spec_decode(opcode).in_range(),
{
}

/// Classifies `opcode`.
#[verifier::when_used_as_spec(spec_decode)]
pub fn decode(opcode: u16) -> (instr: Instruction)
    ensures
        instr == spec_decode(opcode),
{
    let n1: u16 = (opcode & 0xF000) >> 12;
    let n2: u16 = (opcode & 0x0F00) >> 8;
    let n3: u16 = (opcode & 0x00F0) >> 4;
    let n4: u16 = opcode & 0x000F;
    let addr: u16 = opcode & 0x0FFF;
    let low: u16 = opcode & 0x00FF;
    assert((opcode & 0xF000) >> 12 == opcode / 0x1000) by (bit_vector);
    assert((opcode & 0x0F00) >> 8 == (opcode / 0x100) % 0x10) by (bit_vector);
    assert((opcode & 0x00F0) >> 4 == (opcode / 0x10) % 0x10) by (bit_vector);
    assert(opcode & 0x000F == opcode % 0x10) by (bit_vector);
    assert(opcode & 0x0FFF == opcode % 0x1000) by (bit_vector);
    assert(opcode & 0x00FF == opcode % 0x100) by (bit_vector);
    let nn: u8 = low as u8;
    let x: usize = n2 as usize;
    let y: usize = n3 as usize;
    let n: usize = n4 as usize;
    match (n1, n2, n3, n4) {
        (0x0, 0x0, 0xE, 0x0) => Instruction::ClearScreen,
        (0x0, 0x0, 0xE, 0xE) => Instruction::Return,
        (0x1, _, _, _) => Instruction::Jump { addr },
        (0x2, _, _, _) => Instruction::Call { addr },
        (0x3, _, _, _) => Instruction::SkipEqImm { x, nn },
        (0x4, _, _, _) => Instruction::SkipNeImm { x, nn },
        (0x5, _, _, 0x0) => Instruction::SkipEqReg { x, y },
        (0x6, _, _, _) => Instruction::LoadImm { x, nn },
        (0x7, _, _, _) => Instruction::AddImm { x, nn },
        (0x8, _, _, 0x0) => Instruction::LoadReg { x, y },
        (0x8, _, _, 0x1) => Instruction::Or { x, y },
        (0x8, _, _, 0x2) => Instruction::And { x, y },
        (0x8, _, _, 0x3) => Instruction::Xor { x, y },
        (0x8, _, _, 0x4) => Instruction::AddReg { x, y },
        (0x8, _, _, 0x5) => Instruction::Sub { x, y },
        (0x8, _, _, 0x6) => Instruction::Shr { x, y },
        (0x8, _, _, 0x7) => Instruction::Subn { x, y },
        (0x8, _, _, 0xE) => Instruction::Shl { x, y },
        (0x9, _, _, 0x0) => Instruction::SkipNeReg { x, y },
        (0xA, _, _, _) => Instruction::LoadIndex { addr },
        (0xB, _, _, _) => Instruction::JumpPlusV0 { addr },
        (0xC, _, _, _) => Instruction::Rand { x, nn },
        (0xD, _, _, _) => Instruction::Draw { x, y, n },
        (0xE, _, 0x9, 0xE) => Instruction::SkipKeyPressed { x },
        (0xE, _, 0xA, 0x1) => Instruction::SkipKeyNotPressed { x },
        (0xF, _, 0x0, 0x7) => Instruction::LoadDelay { x },
        (0xF, _, 0x0, 0xA) => Instruction::WaitKey { x },
        (0xF, _, 0x1, 0x5) => Instruction::SetDelay { x },
        (0xF, _, 0x1, 0x8) => Instruction::SetSound { x },
        (0xF, _, 0x1, 0xE) => Instruction::AddIndex { x },
        (0xF, _, 0x2, 0x9) => Instruction::FontAddr { x },
        (0xF, _, 0x3, 0x3) => Instruction::Bcd { x },
        (0xF, _, 0x5, 0x5) => Instruction::StoreRange { x },
        (0xF, _, 0x6, 0x5) => Instruction::LoadRange { x },
        (_, _, _, _) => Instruction::Unknown,
    }
}

} // verus!
