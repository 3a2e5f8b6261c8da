//! The instruction set: what each 16-bit operation code stands for.
//!
//! An operation code is read as four 4-bit fields. The first selects the
//! operation, or a family of operations among which the last field or the low
//! byte selects. The fields in between name registers; the low byte or the low
//! twelve bits may be an operand.

use vstd::prelude::*;

verus! {

/// One operation of the machine, with its operands. `x` and `y` are register
/// numbers, below 16.
#[derive(Clone, Copy, Debug, PartialEq, Eq, Structural)]
pub enum Instruction {
    /// `00E0`: turn every pixel dark.
    ClearDisplay,
    /// `00EE`: return from a subroutine.
    Return,
    /// `1nnn`: continue at `address`.
    Jump { address: u16 },
    /// `2nnn`: call the subroutine at `address`.
    Call { address: u16 },
    /// `3xkk`: skip the next instruction if register `x` holds `byte`.
    SkipEqual { x: u8, byte: u8 },
    /// `4xkk`: skip the next instruction unless register `x` holds `byte`.
    SkipNotEqual { x: u8, byte: u8 },
    /// `5xy_`: skip the next instruction if registers `x` and `y` are equal.
    SkipRegistersEqual { x: u8, y: u8 },
    /// `6xkk`: put `byte` into register `x`.
    Load { x: u8, byte: u8 },
    /// `7xkk`: add `byte` to register `x`, without touching the flag.
    Add { x: u8, byte: u8 },
    /// `8xy0`: copy register `y` into register `x`.
    Move { x: u8, y: u8 },
    /// `8xy1`: bitwise or of register `y` into register `x`.
    Or { x: u8, y: u8 },
    /// `8xy2`: bitwise and of register `y` into register `x`.
    And { x: u8, y: u8 },
    /// `8xy3`: bitwise exclusive or of register `y` into register `x`.
    Xor { x: u8, y: u8 },
    /// `8xy4`: add register `y` to register `x`; the flag tells of a carry.
    AddRegister { x: u8, y: u8 },
    /// `8xy5`: subtract register `y` from register `x`; the flag tells that
    /// nothing was borrowed.
    Subtract { x: u8, y: u8 },
    /// `8x_6`: shift register `x` right by one; the flag is the bit that fell
    /// off.
    ShiftRight { x: u8 },
    /// `8xy7`: put register `y` less register `x` into register `x`; the flag
    /// tells that nothing was borrowed.
    SubtractFrom { x: u8, y: u8 },
    /// `8x_E`: shift register `x` left by one; the flag is the bit that fell
    /// off.
    ShiftLeft { x: u8 },
    /// `9xy_`: skip the next instruction unless registers `x` and `y` are
    /// equal.
    SkipRegistersNotEqual { x: u8, y: u8 },
    /// `Annn`: put `address` into the index register.
    LoadIndex { address: u16 },
    /// `Bnnn`: continue at `address` plus register 0.
    JumpOffset { address: u16 },
    /// `Cxkk`: put a random byte, masked with `byte`, into register `x`.
    Random { x: u8, byte: u8 },
    /// `Dxyn`: draw the sprite of `rows` rows found at the index register, at
    /// the place that registers `x` and `y` give.
    Draw { x: u8, y: u8, rows: u8 },
    /// `Ex9E`: skip the next instruction if the key named by register `x` is
    /// down.
    SkipKeyPressed { x: u8 },
    /// `ExA1`: skip the next instruction unless the key named by register `x`
    /// is down.
    SkipKeyNotPressed { x: u8 },
    /// `Fx07`: copy the delay timer into register `x`.
    ReadDelay { x: u8 },
    /// `Fx0A`: wait for a key and put its code into register `x`.
    WaitKey { x: u8 },
    /// `Fx15`: set the delay timer from register `x`.
    SetDelay { x: u8 },
    /// `Fx18`: set the sound timer from register `x`.
    SetSound { x: u8 },
    /// `Fx1E`: add register `x` to the index register.
    AddIndex { x: u8 },
    /// `Fx29`: point the index register at the glyph for register `x`.
    LoadGlyph { x: u8 },
    /// `Fx33`: store the three decimal digits of register `x` at the index
    /// register.
    StoreDecimal { x: u8 },
    /// `Fx55`: store registers 0 to `x` at the index register.
    StoreRegisters { x: u8 },
    /// `Fx65`: load registers 0 to `x` from the index register.
    LoadRegisters { x: u8 },
    /// Any other operation code.
    Unrecognized { opcode: u16 },
}

/// The four 4-bit fields of an operation code, the most significant first.
pub open spec fn nibbles(opcode: u16) -> (u8, u8, u8, u8) {
    ((opcode / 4096) as u8, (opcode / 256 % 16) as u8, (opcode / 16 % 16) as u8, (opcode % 16) as u8)
}

/// The low byte of an operation code.
pub open spec fn low_byte(opcode: u16) -> u8 {
    (opcode % 256) as u8
}

/// The low twelve bits of an operation code.
pub open spec fn low_address(opcode: u16) -> u16 {
    (opcode % 4096) as u16
}

/// The operation among those whose code starts with the field 8.
pub open spec fn decode_arithmetic(opcode: u16) -> Instruction {
    let (_, x, y, n) = nibbles(opcode);
    if n == 0x0 {
        Instruction::Move { x, y }
    } else if n == 0x1 {
        Instruction::Or { x, y }
    } else if n == 0x2 {
        Instruction::And { x, y }
    } else if n == 0x3 {
        Instruction::Xor { x, y }
    } else if n == 0x4 {
        Instruction::AddRegister { x, y }
    } else if n == 0x5 {
        Instruction::Subtract { x, y }
    } else if n == 0x6 {
        Instruction::ShiftRight { x }
    } else if n == 0x7 {
        Instruction::SubtractFrom { x, y }
    } else if n == 0xE {
        Instruction::ShiftLeft { x }
    } else {
        Instruction::Unrecognized { opcode }
    }
}

/// The operation among those whose code starts with the field F.
pub open spec fn decode_special(opcode: u16) -> Instruction {
    let (_, x, _, _) = nibbles(opcode);
    let kk = low_byte(opcode);
    if kk == 0x07 {
        Instruction::ReadDelay { x }
    } else if kk == 0x0A {
        Instruction::WaitKey { x }
    } else if kk == 0x15 {
        Instruction::SetDelay { x }
    } else if kk == 0x18 {
        Instruction::SetSound { x }
    } else if kk == 0x1E {
        Instruction::AddIndex { x }
    } else if kk == 0x29 {
        Instruction::LoadGlyph { x }
    } else if kk == 0x33 {
        Instruction::StoreDecimal { x }
    } else if kk == 0x55 {
        Instruction::StoreRegisters { x }
    } else if kk == 0x65 {
        Instruction::LoadRegisters { x }
    } else {
        Instruction::Unrecognized { opcode }
    }
}

/// The operation that an operation code stands for.
pub open spec fn decode_spec(opcode: u16) -> Instruction {
    let (op, x, y, n) = nibbles(opcode);
    let kk = low_byte(opcode);
    let nnn = low_address(opcode);
    if op == 0x0 {
        if kk == 0xE0 {
            Instruction::ClearDisplay
        } else if kk == 0xEE {
            Instruction::Return
        } else {
            Instruction::Unrecognized { opcode }
        }
    } else if op == 0x1 {
        Instruction::Jump { address: nnn }
    } else if op == 0x2 {
        Instruction::Call { address: nnn }
    } else if op == 0x3 {
        Instruction::SkipEqual { x, byte: kk }
    } else if op == 0x4 {
        Instruction::SkipNotEqual { x, byte: kk }
    } else if op == 0x5 {
        Instruction::SkipRegistersEqual { x, y }
    } else if op == 0x6 {
        Instruction::Load { x, byte: kk }
    } else if op == 0x7 {
        Instruction::Add { x, byte: kk }
    } else if op == 0x8 {
        decode_arithmetic(opcode)
    } else if op == 0x9 {
        Instruction::SkipRegistersNotEqual { x, y }
    } else if op == 0xA {
        Instruction::LoadIndex { address: nnn }
    } else if op == 0xB {
        Instruction::JumpOffset { address: nnn }
    } else if op == 0xC {
        Instruction::Random { x, byte: kk }
    } else if op == 0xD {
        Instruction::Draw { x, y, rows: n }
    } else if op == 0xE {
        if kk == 0x9E {
            Instruction::SkipKeyPressed { x }
        } else if kk == 0xA1 {
            Instruction::SkipKeyNotPressed { x }
        } else {
            Instruction::Unrecognized { opcode }
        }
    } else {
        decode_special(opcode)
    }
}

impl Instruction {
    /// Whether the operands are in range: register numbers and the height of
    /// a sprite below 16, addresses below 4096.
    pub open spec fn well_formed(self) -> bool {
        match self {
            Instruction::ClearDisplay | Instruction::Return => true,
            Instruction::Jump { address }
            | Instruction::Call { address }
            | Instruction::LoadIndex { address }
            | Instruction::JumpOffset { address } => address < 4096,
            Instruction::SkipEqual { x, .. }
            | Instruction::SkipNotEqual { x, .. }
            | Instruction::Load { x, .. }
            | Instruction::Add { x, .. }
            | Instruction::Random { x, .. }
            | Instruction::ShiftRight { x }
            | Instruction::ShiftLeft { x }
            | Instruction::SkipKeyPressed { x }
            | Instruction::SkipKeyNotPressed { x }
            | Instruction::ReadDelay { x }
            | Instruction::WaitKey { x }
            | Instruction::SetDelay { x }
            | Instruction::SetSound { x }
            | Instruction::AddIndex { x }
            | Instruction::LoadGlyph { x }
            | Instruction::StoreDecimal { x }
            | Instruction::StoreRegisters { x }
            | Instruction::LoadRegisters { x } => x < 16,
            Instruction::SkipRegistersEqual { x, y }
            | Instruction::Move { x, y }
            | Instruction::Or { x, y }
            | Instruction::And { x, y }
            | Instruction::Xor { x, y }
            | Instruction::AddRegister { x, y }
            | Instruction::Subtract { x, y }
            | Instruction::SubtractFrom { x, y }
            | Instruction::SkipRegistersNotEqual { x, y } => x < 16 && y < 16,
            Instruction::Draw { x, y, rows } => x < 16 && y < 16 && rows < 16,
            Instruction::Unrecognized { .. } => true,
        }
    }

    /// Reads an operation code.
    pub fn decode(opcode: u16) -> (instruction: Instruction)
        ensures
            instruction == decode_spec(opcode),
            instruction.well_formed(),
    {
        let op: u8 = ((opcode & 0xF000) >> 12) as u8;
        let x: u8 = ((opcode & 0x0F00) >> 8) as u8;
        let y: u8 = ((opcode & 0x00F0) >> 4) as u8;
        let n: u8 = (opcode & 0x000F) as u8;
        let kk: u8 = (opcode & 0x00FF) as u8;
        let nnn: u16 = opcode & 0x0FFF;
        proof {
            assert((opcode & 0xF000) >> 12 == opcode / 4096) by (bit_vector);
            assert((opcode & 0x0F00) >> 8 == opcode / 256 % 16) by (bit_vector);
            assert((opcode & 0x00F0) >> 4 == opcode / 16 % 16) by (bit_vector);
            assert(opcode & 0x000F == opcode % 16) by (bit_vector);
            assert(opcode & 0x00FF == opcode % 256) by (bit_vector);
            assert(opcode & 0x0FFF == opcode % 4096) by (bit_vector);
        }
        match op {
            0x0 => match kk {
                0xE0 => Instruction::ClearDisplay,
                0xEE => Instruction::Return,
                _ => Instruction::Unrecognized { opcode },
            },
            0x1 => Instruction::Jump { address: nnn },
            0x2 => Instruction::Call { address: nnn },
            0x3 => Instruction::SkipEqual { x, byte: kk },
            0x4 => Instruction::SkipNotEqual { x, byte: kk },
            0x5 => Instruction::SkipRegistersEqual { x, y },
            0x6 => Instruction::Load { x, byte: kk },
            0x7 => Instruction::Add { x, byte: kk },
            0x8 => match n {
                0x0 => Instruction::Move { x, y },
                0x1 => Instruction::Or { x, y },
                0x2 => Instruction::And { x, y },
                0x3 => Instruction::Xor { x, y },
                0x4 => Instruction::AddRegister { x, y },
                0x5 => Instruction::Subtract { x, y },
                0x6 => Instruction::ShiftRight { x },
                0x7 => Instruction::SubtractFrom { x, y },
                0xE => Instruction::ShiftLeft { x },
                _ => Instruction::Unrecognized { opcode },
            },
            0x9 => Instruction::SkipRegistersNotEqual { x, y },
            0xA => Instruction::LoadIndex { address: nnn },
            0xB => Instruction::JumpOffset { address: nnn },
            0xC => Instruction::Random { x, byte: kk },
            0xD => Instruction::Draw { x, y, rows: n },
            0xE => match kk {
                0x9E => Instruction::SkipKeyPressed { x },
                0xA1 => Instruction::SkipKeyNotPressed { x },
                _ => Instruction::Unrecognized { opcode },
            },
            _ => match kk {
                0x07 => Instruction::ReadDelay { x },
                0x0A => Instruction::WaitKey { x },
                0x15 => Instruction::SetDelay { x },
                0x18 => Instruction::SetSound { x },
                0x1E => Instruction::AddIndex { x },
                0x29 => Instruction::LoadGlyph { x },
                0x33 => Instruction::StoreDecimal { x },
                0x55 => Instruction::StoreRegisters { x },
                0x65 => Instruction::LoadRegisters { x },
                _ => Instruction::Unrecognized { opcode },
            },
        }
    }
}

} // verus!
