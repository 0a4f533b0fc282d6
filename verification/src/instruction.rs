//! The instruction set and the decoding of opcode words.
//!
//! An opcode is one 16-bit word. Its four nibbles, from the most significant down, are
//! written `F X Y N` below; `NN` is the low byte and `NNN` the low twelve bits.

use vstd::prelude::*;

verus! {

/// One decoded instruction. `x` and `y` select registers, `nn` is an immediate byte,
/// `addr` a twelve-bit address and `rows` a sprite height.
#[derive(Clone, Copy, Debug, PartialEq, Eq, Structural)]
pub enum Instruction {
    /// `00E0`: clear the framebuffer.
    ClearScreen,
    /// `00EE`: return from a subroutine.
    Return,
    /// `1NNN`: jump to `addr`.
    Jump { addr: u16 },
    /// `2NNN`: call the subroutine at `addr`.
    Call { addr: u16 },
    /// `3XNN`: skip the next instruction if `VX == nn`.
    SkipIfEqual { x: u8, nn: u8 },
    /// `4XNN`: skip the next instruction if `VX != nn`.
    SkipIfNotEqual { x: u8, nn: u8 },
    /// `5XY0`: skip the next instruction if `VX == VY`.
    SkipIfRegistersEqual { x: u8, y: u8 },
    /// `6XNN`: `VX = nn`.
    Load { x: u8, nn: u8 },
    /// `7XNN`: `VX = VX + nn`, wrapping, with no flag.
    AddByte { x: u8, nn: u8 },
    /// `8XY0`: `VX = VY`.
    Assign { x: u8, y: u8 },
    /// `8XY1`: `VX = VX | VY`.
    Or { x: u8, y: u8 },
    /// `8XY2`: `VX = VX & VY`.
    And { x: u8, y: u8 },
    /// `8XY3`: `VX = VX ^ VY`.
    Xor { x: u8, y: u8 },
    /// `8XY4`: `VX = VX + VY`, wrapping; `VF` is the carry.
    Add { x: u8, y: u8 },
    /// `8XY5`: `VX = VX - VY`, wrapping; `VF` is 0 on a borrow, else 1.
    Subtract { x: u8, y: u8 },
    /// `8XY6`: `VF` is the low bit of `VX`, then `VX` is shifted right by one.
    ShiftRight { x: u8 },
    /// `8XY7`: `VX = VY - VX`, wrapping; `VF` is 0 on a borrow, else 1.
    SubtractFrom { x: u8, y: u8 },
    /// `8XYE`: `VF` is the top bit of `VX`, then `VX` is shifted left by one.
    ShiftLeft { x: u8 },
    /// `9XY0`: skip the next instruction if `VX != VY`.
    SkipIfRegistersDiffer { x: u8, y: u8 },
    /// `ANNN`: `I = addr`.
    LoadIndex { addr: u16 },
    /// `BNNN`: jump to `addr + V0`.
    JumpOffset { addr: u16 },
    /// `CXNN`: `VX = random byte & nn`.
    Random { x: u8, nn: u8 },
    /// `DXYN`: draw the sprite of `rows` rows found at `I` at position `(VX, VY)`.
    Draw { x: u8, y: u8, rows: u8 },
    /// `EX9E`: skip the next instruction if the key named by `VX` is down.
    SkipIfKeyDown { x: u8 },
    /// `EXA1`: skip the next instruction if the key named by `VX` is up.
    SkipIfKeyUp { x: u8 },
    /// `FX07`: `VX = delay timer`.
    ReadDelay { x: u8 },
    /// `FX0A`: wait for a key, then store its index in `VX`.
    WaitKey { x: u8 },
    /// `FX15`: `delay timer = VX`.
    SetDelay { x: u8 },
    /// `FX18`: `sound timer = VX`.
    SetSound { x: u8 },
    /// `FX1E`: `I = I + VX`; `VF` tells whether the sum left the twelve-bit space.
    AddIndex { x: u8 },
    /// `FX29`: `I` = address of the font glyph for `VX`.
    Glyph { x: u8 },
    /// `FX33`: store the three decimal digits of `VX` at `I`, `I + 1`, `I + 2`.
    StoreDecimal { x: u8 },
    /// `FX55`: store `V0..=VX` in memory from `I` on.
    StoreRegisters { x: u8 },
    /// `FX65`: load `V0..=VX` from memory from `I` on.
    LoadRegisters { x: u8 },
    /// Any word that selects no operation.
    Unknown { opcode: u16 },
}

impl Instruction {
    /// Every operand lies in the range that its field in the opcode word allows.
    pub open spec fn well_formed(self) -> bool {
        match self {
            Instruction::ClearScreen | Instruction::Return => true,
            Instruction::Jump { addr }
            | Instruction::Call { addr }
            | Instruction::LoadIndex { addr }
            | Instruction::JumpOffset { addr } => addr < 0x1000,
            Instruction::SkipIfEqual { x, nn }
            | Instruction::SkipIfNotEqual { x, nn }
            | Instruction::Load { x, nn }
            | Instruction::AddByte { x, nn }
            | Instruction::Random { x, nn } => x < 16,
            Instruction::SkipIfRegistersEqual { x, y }
            | Instruction::Assign { x, y }
            | Instruction::Or { x, y }
            | Instruction::And { x, y }
            | Instruction::Xor { x, y }
            | Instruction::Add { x, y }
            | Instruction::Subtract { x, y }
            | Instruction::SubtractFrom { x, y }
            | Instruction::SkipIfRegistersDiffer { x, y } => x < 16 && y < 16,
            Instruction::Draw { x, y, rows } => x < 16 && y < 16 && rows < 16,
            Instruction::ShiftRight { x }
            | Instruction::ShiftLeft { x }
            | Instruction::SkipIfKeyDown { x }
            | Instruction::SkipIfKeyUp { x }
            | Instruction::ReadDelay { x }
            | Instruction::WaitKey { x }
            | Instruction::SetDelay { x }
            | Instruction::SetSound { x }
            | Instruction::AddIndex { x }
            | Instruction::Glyph { x }
            | Instruction::StoreDecimal { x }
            | Instruction::StoreRegisters { x }
            | Instruction::LoadRegisters { x } => x < 16,
            Instruction::Unknown { opcode } => true,
        }
    }
}

/// The operation of family `8XY_`, selected by the lowest nibble.
pub open spec fn decode_arithmetic(opcode: u16, x: u8, y: u8, n: u8) -> Instruction {
    if n == 0x0 {
        Instruction::Assign { x, y }
    } else if n == 0x1 {
        Instruction::Or { x, y }
    } else if n == 0x2 {
        Instruction::And { x, y }
    } else if n == 0x3 {
        Instruction::Xor { x, y }
    } else if n == 0x4 {
        Instruction::Add { x, y }
    } else if n == 0x5 {
        Instruction::Subtract { x, y }
    } else if n == 0x6 {
        Instruction::ShiftRight { x }
    } else if n == 0x7 {
        Instruction::SubtractFrom { x, y }
    } else if n == 0xE {
        Instruction::ShiftLeft { x }
    } else {
        Instruction::Unknown { opcode }
    }
}

/// The operation of family `FX__`, selected by the low byte.
pub open spec fn decode_misc(opcode: u16, x: u8, nn: u8) -> Instruction {
    if nn == 0x07 {
        Instruction::ReadDelay { x }
    } else if nn == 0x0A {
        Instruction::WaitKey { x }
    } else if nn == 0x15 {
        Instruction::SetDelay { x }
    } else if nn == 0x18 {
        Instruction::SetSound { x }
    } else if nn == 0x1E {
        Instruction::AddIndex { x }
    } else if nn == 0x29 {
        Instruction::Glyph { x }
    } else if nn == 0x33 {
        Instruction::StoreDecimal { x }
    } else if nn == 0x55 {
        Instruction::StoreRegisters { x }
    } else if nn == 0x65 {
        Instruction::LoadRegisters { x }
    } else {
        Instruction::Unknown { opcode }
    }
}

/// The instruction that an opcode word stands for.
///
/// The most significant nibble selects the family. Families `0` and `8` then select by the
/// least significant nibble, families `E` and `F` by the low byte; the other families hold
/// one operation each. Bits that take no part in the selection are ignored, so `5XY0` and
/// `9XY0` accept any last nibble and family `0` looks at its last nibble only.
pub open spec fn decode_spec(opcode: u16) -> Instruction {
    let family = opcode / 0x1000;
    let x = ((opcode / 0x100) % 0x10) as u8;
    let y = ((opcode / 0x10) % 0x10) as u8;
    let n = (opcode % 0x10) as u8;
    let nn = (opcode % 0x100) as u8;
    let addr = (opcode % 0x1000) as u16;
    if family == 0x0 {
        if n == 0x0 {
            Instruction::ClearScreen
        } else if n == 0xE {
            Instruction::Return
        } else {
            Instruction::Unknown { opcode }
        }
    } else if family == 0x1 {
        Instruction::Jump { addr }
    } else if family == 0x2 {
        Instruction::Call { addr }
    } else if family == 0x3 {
        Instruction::SkipIfEqual { x, nn }
    } else if family == 0x4 {
        Instruction::SkipIfNotEqual { x, nn }
    } else if family == 0x5 {
        Instruction::SkipIfRegistersEqual { x, y }
    } else if family == 0x6 {
        Instruction::Load { x, nn }
    } else if family == 0x7 {
        Instruction::AddByte { x, nn }
    } else if family == 0x8 {
        decode_arithmetic(opcode, x, y, n)
    } else if family == 0x9 {
        Instruction::SkipIfRegistersDiffer { x, y }
    } else if family == 0xA {
        Instruction::LoadIndex { addr }
    } else if family == 0xB {
        Instruction::JumpOffset { addr }
    } else if family == 0xC {
        Instruction::Random { x, nn }
    } else if family == 0xD {
        Instruction::Draw { x, y, rows: n }
    } else if family == 0xE {
        if nn == 0x9E {
            Instruction::SkipIfKeyDown { x }
        } else if nn == 0xA1 {
            Instruction::SkipIfKeyUp { x }
        } else {
            Instruction::Unknown { opcode }
        }
    } else {
        decode_misc(opcode, x, nn)
    }
}

/// The operands that sit at fixed places of an opcode word.
struct Fields {
    x: u8,
    y: u8,
    n: u8,
    nn: u8,
    addr: u16,
}

/// Cuts an opcode word into its operand fields with masks and shifts.
fn fields(opcode: u16) -> (f: Fields)
    ensures
        f.x == (opcode / 0x100) % 0x10,
        f.y == (opcode / 0x10) % 0x10,
        f.n == opcode % 0x10,
        f.nn == opcode % 0x100,
        f.addr == opcode % 0x1000,
{
    let x16: u16 = (opcode & 0x0F00) >> 8;
    let y16: u16 = (opcode & 0x00F0) >> 4;
    let n16: u16 = opcode & 0x000F;
    let nn16: u16 = opcode & 0x00FF;
    let addr: u16 = opcode & 0x0FFF;
    assert(x16 == (opcode / 0x100) % 0x10) by (bit_vector)
        requires
            x16 == (opcode & 0x0F00) >> 8,
    ;
    assert(y16 == (opcode / 0x10) % 0x10) by (bit_vector)
        requires
            y16 == (opcode & 0x00F0) >> 4,
    ;
    assert(n16 == opcode % 0x10) by (bit_vector)
        requires
            n16 == opcode & 0x000F,
    ;
    assert(nn16 == opcode % 0x100) by (bit_vector)
        requires
            nn16 == opcode & 0x00FF,
    ;
    assert(addr == opcode % 0x1000) by (bit_vector)
        requires
            addr == opcode & 0x0FFF,
    ;
    Fields { x: x16 as u8, y: y16 as u8, n: n16 as u8, nn: nn16 as u8, addr }
}

/// Decodes one opcode word.
pub fn decode(opcode: u16) -> (ins: Instruction)
    ensures
        ins == decode_spec(opcode),
        ins.well_formed(),
{
    let f = fields(opcode);
    let family: u16 = opcode >> 12;
    assert(family == opcode / 0x1000) by (bit_vector)
        requires
            family == opcode >> 12,
    ;
    let Fields { x, y, n, nn, addr } = f;
    match family {
        0x0 => match n {
            0x0 => Instruction::ClearScreen,
            0xE => Instruction::Return,
            _ => Instruction::Unknown { opcode },
        },
        0x1 => Instruction::Jump { addr },
        0x2 => Instruction::Call { addr },
        0x3 => Instruction::SkipIfEqual { x, nn },
        0x4 => Instruction::SkipIfNotEqual { x, nn },
        0x5 => Instruction::SkipIfRegistersEqual { x, y },
        0x6 => Instruction::Load { x, nn },
        0x7 => Instruction::AddByte { x, nn },
        0x8 => match n {
            0x0 => Instruction::Assign { x, y },
            0x1 => Instruction::Or { x, y },
            0x2 => Instruction::And { x, y },
            0x3 => Instruction::Xor { x, y },
            0x4 => Instruction::Add { x, y },
            0x5 => Instruction::Subtract { x, y },
            0x6 => Instruction::ShiftRight { x },
            0x7 => Instruction::SubtractFrom { x, y },
            0xE => Instruction::ShiftLeft { x },
            _ => Instruction::Unknown { opcode },
        },
        0x9 => Instruction::SkipIfRegistersDiffer { x, y },
        0xA => Instruction::LoadIndex { addr },
        0xB => Instruction::JumpOffset { addr },
        0xC => Instruction::Random { x, nn },
        0xD => Instruction::Draw { x, y, rows: n },
        0xE => match nn {
            0x9E => Instruction::SkipIfKeyDown { x },
            0xA1 => Instruction::SkipIfKeyUp { x },
            _ => Instruction::Unknown { opcode },
        },
        _ => match nn {
            0x07 => Instruction::ReadDelay { x },
            0x0A => Instruction::WaitKey { x },
            0x15 => Instruction::SetDelay { x },
            0x18 => Instruction::SetSound { x },
            0x1E => Instruction::AddIndex { x },
            0x29 => Instruction::Glyph { x },
            0x33 => Instruction::StoreDecimal { x },
            0x55 => Instruction::StoreRegisters { x },
            0x65 => Instruction::LoadRegisters { x },
            _ => Instruction::Unknown { opcode },
        },
    }
}

} // verus!
