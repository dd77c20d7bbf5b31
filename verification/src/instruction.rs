//! The opcode table: splitting an instruction word into its bit-fields and
//! dispatching on them.
//!
//! A word `opxy n` is read as the top nibble `op`, the register operands `x`
//! and `y`, the nibble `n`, the byte `nn = yn` and the address `nnn = xyn`.
//! The top nibble selects the instruction; under `0`, `8`, `E` and `F` a
//! second field selects among several.

use vstd::prelude::*;
use crate::error::DecodeError;

verus! {

/// One entry of the opcode table, with its operands.
#[derive(Clone, Copy, Debug, PartialEq, Eq, Structural)]
pub enum Instruction {
    /// `00E0`: clear the display.
    ClearScreen,
    /// `00EE`: return from a subroutine.
    Return,
    /// `1nnn`: jump to `addr`.
    Jump { addr: u16 },
    /// `2nnn`: call the subroutine at `addr`.
    Call { addr: u16 },
    /// `3xnn`: skip the next instruction if VX equals `value`.
    SkipIfEqual { x: u8, value: u8 },
    /// `4xnn`: skip the next instruction if VX differs from `value`.
    SkipIfNotEqual { x: u8, value: u8 },
    /// `5xy_`: skip the next instruction if VX equals VY.
    SkipIfRegistersEqual { x: u8, y: u8 },
    /// `6xnn`: set VX to `value`.
    Load { x: u8, value: u8 },
    /// `7xnn`: add `value` to VX, wrapping, flag untouched.
    AddImmediate { x: u8, value: u8 },
    /// `8xy0`: set VX to VY.
    Copy { x: u8, y: u8 },
    /// `8xy1`: set VX to VX or VY.
    Or { x: u8, y: u8 },
    /// `8xy2`: set VX to VX and VY.
    And { x: u8, y: u8 },
    /// `8xy3`: set VX to VX xor VY.
    Xor { x: u8, y: u8 },
    /// `8xy4`: add VY to VX; VF is the carry.
    AddWithCarry { x: u8, y: u8 },
    /// `8xy5`: subtract VY from VX; VF is 1 when nothing was borrowed.
    SubtractWithBorrow { x: u8, y: u8 },
    /// `8xy6`: shift right by one; VF is the bit shifted out.
    ShiftRight { x: u8, y: u8 },
    /// `8xy7`: set VX to VY minus VX; VF is 1 when nothing was borrowed.
    ReverseSubtract { x: u8, y: u8 },
    /// `8xyE`: shift left by one; VF is the bit shifted out.
    ShiftLeft { x: u8, y: u8 },
    /// `9xy_`: skip the next instruction if VX differs from VY.
    SkipIfRegistersNotEqual { x: u8, y: u8 },
    /// `Annn`: set the index register to `addr`.
    LoadIndex { addr: u16 },
    /// `Bnnn`: jump to `addr` plus an offset register.
    JumpWithOffset { addr: u16 },
    /// `Cxnn`: set VX to a random byte masked by `mask`.
    Random { x: u8, mask: u8 },
    /// `Dxyn`: draw the `rows`-row sprite at the index register at (VX, VY).
    Draw { x: u8, y: u8, rows: u8 },
    /// `Ex9E`: skip the next instruction if the key with digit VX is down.
    SkipIfKeyDown { x: u8 },
    /// `ExA1`: skip the next instruction if the key with digit VX is up.
    SkipIfKeyUp { x: u8 },
    /// `Fx07`: set VX to the delay timer.
    ReadDelay { x: u8 },
    /// `Fx0A`: wait for a key press and store its digit in VX.
    WaitForKey { x: u8 },
    /// `Fx15`: set the delay timer to VX.
    SetDelay { x: u8 },
    /// `Fx18`: set the sound timer to VX.
    SetSound { x: u8 },
    /// `Fx1E`: add VX to the index register.
    AddToIndex { x: u8 },
    /// `Fx29`: point the index register at the glyph of digit VX.
    FontAddress { x: u8 },
    /// `Fx33`: store the decimal digits of VX at the index register.
    StoreDecimal { x: u8 },
    /// `Fx55`: store V0 to VX at the index register.
    StoreRegisters { x: u8 },
    /// `Fx65`: load V0 to VX from the index register.
    LoadRegisters { x: u8 },
}

impl Instruction {
    /// Whether every operand is in the range of its bit-field: register
    /// numbers and row counts below 16, addresses below `0x1000`.
    pub open spec fn wf(self) -> bool {
        match self {
            Instruction::ClearScreen | Instruction::Return => true,
            Instruction::Jump { addr }
            | Instruction::Call { addr }
            | Instruction::LoadIndex { addr }
            | Instruction::JumpWithOffset { addr } => addr < 0x1000,
            Instruction::SkipIfEqual { x, .. }
            | Instruction::SkipIfNotEqual { x, .. }
            | Instruction::Load { x, .. }
            | Instruction::AddImmediate { x, .. }
            | Instruction::Random { x, .. }
            | Instruction::SkipIfKeyDown { x }
            | Instruction::SkipIfKeyUp { x }
            | Instruction::ReadDelay { x }
            | Instruction::WaitForKey { x }
            | Instruction::SetDelay { x }
            | Instruction::SetSound { x }
            | Instruction::AddToIndex { x }
            | Instruction::FontAddress { x }
            | Instruction::StoreDecimal { x }
            | Instruction::StoreRegisters { x }
            | Instruction::LoadRegisters { x } => x < 16,
            Instruction::SkipIfRegistersEqual { x, y }
            | Instruction::Copy { x, y }
            | Instruction::Or { x, y }
            | Instruction::And { x, y }
            | Instruction::Xor { x, y }
            | Instruction::AddWithCarry { x, y }
            | Instruction::SubtractWithBorrow { x, y }
            | Instruction::ShiftRight { x, y }
            | Instruction::ReverseSubtract { x, y }
            | Instruction::ShiftLeft { x, y }
            | Instruction::SkipIfRegistersNotEqual { x, y } => x < 16 && y < 16,
            Instruction::Draw { x, y, rows } => x < 16 && y < 16 && rows < 16,
        }
    }
}

/// The bit-fields of an instruction word.
#[derive(Clone, Copy, Debug, PartialEq, Eq, Structural)]
pub struct Fields {
    /// Top nibble.
    pub op: u8,
    /// Second nibble: first register operand.
    pub x: u8,
    /// Third nibble: second register operand.
    pub y: u8,
    /// Bottom nibble.
    pub n: u8,
    /// Bottom byte.
    pub nn: u8,
    /// Bottom twelve bits.
    pub nnn: u16,
}

/// The fields of `word`, each as the digits of `word` written in base 16.
pub open spec fn fields_of(word: u16) -> Fields {
    Fields {
        op: (word / 0x1000) as u8,
        x: (word / 0x100 % 0x10) as u8,
        y: (word / 0x10 % 0x10) as u8,
        n: (word % 0x10) as u8,
        nn: (word % 0x100) as u8,
        nnn: (word % 0x1000) as u16,
    }
}

/// The decode error for `word`, naming the value of the field that matched
/// no entry.
pub open spec fn unknown(word: u16, failing_field: u16) -> Result<Instruction, DecodeError> {
    Err(DecodeError::UnknownOpcode { word, failing_field })
}

/// The instruction that `word` encodes, or the decode error for a word that
/// encodes none.
pub open spec fn decode_spec(word: u16) -> Result<Instruction, DecodeError> {
    let f = fields_of(word);
    let (x, y, n, nn, nnn) = (f.x, f.y, f.n, f.nn, f.nnn);
    if f.op == 0x0 {
        if nnn == 0x0E0 {
            Ok(Instruction::ClearScreen)
        } else if nnn == 0x0EE {
            Ok(Instruction::Return)
        } else {
            unknown(word, nnn)
        }
    } else if f.op == 0x1 {
        Ok(Instruction::Jump { addr: nnn })
    } else if f.op == 0x2 {
        Ok(Instruction::Call { addr: nnn })
    } else if f.op == 0x3 {
        Ok(Instruction::SkipIfEqual { x, value: nn })
    } else if f.op == 0x4 {
        Ok(Instruction::SkipIfNotEqual { x, value: nn })
    } else if f.op == 0x5 {
        Ok(Instruction::SkipIfRegistersEqual { x, y })
    } else if f.op == 0x6 {
        Ok(Instruction::Load { x, value: nn })
    } else if f.op == 0x7 {
        Ok(Instruction::AddImmediate { x, value: nn })
    } else if f.op == 0x8 {
        if n == 0x0 {
            Ok(Instruction::Copy { x, y })
        } else if n == 0x1 {
            Ok(Instruction::Or { x, y })
        } else if n == 0x2 {
            Ok(Instruction::And { x, y })
        } else if n == 0x3 {
            Ok(Instruction::Xor { x, y })
        } else if n == 0x4 {
            Ok(Instruction::AddWithCarry { x, y })
        } else if n == 0x5 {
            Ok(Instruction::SubtractWithBorrow { x, y })
        } else if n == 0x6 {
            Ok(Instruction::ShiftRight { x, y })
        } else if n == 0x7 {
            Ok(Instruction::ReverseSubtract { x, y })
        } else if n == 0xE {
            Ok(Instruction::ShiftLeft { x, y })
        } else {
            unknown(word, n as u16)
        }
    } else if f.op == 0x9 {
        Ok(Instruction::SkipIfRegistersNotEqual { x, y })
    } else if f.op == 0xA {
        Ok(Instruction::LoadIndex { addr: nnn })
    } else if f.op == 0xB {
        Ok(Instruction::JumpWithOffset { addr: nnn })
    } else if f.op == 0xC {
        Ok(Instruction::Random { x, mask: nn })
    } else if f.op == 0xD {
        Ok(Instruction::Draw { x, y, rows: n })
    } else if f.op == 0xE {
        if nn == 0x9E {
            Ok(Instruction::SkipIfKeyDown { x })
        } else if nn == 0xA1 {
            Ok(Instruction::SkipIfKeyUp { x })
        } else {
            unknown(word, nn as u16)
        }
    } else {
        if nn == 0x07 {
            Ok(Instruction::ReadDelay { x })
        } else if nn == 0x0A {
            Ok(Instruction::WaitForKey { x })
        } else if nn == 0x15 {
            Ok(Instruction::SetDelay { x })
        } else if nn == 0x18 {
            Ok(Instruction::SetSound { x })
        } else if nn == 0x1E {
            Ok(Instruction::AddToIndex { x })
        } else if nn == 0x29 {
            Ok(Instruction::FontAddress { x })
        } else if nn == 0x33 {
            Ok(Instruction::StoreDecimal { x })
        } else if nn == 0x55 {
            Ok(Instruction::StoreRegisters { x })
        } else if nn == 0x65 {
            Ok(Instruction::LoadRegisters { x })
        } else {
            unknown(word, nn as u16)
        }
    }
}

/// Every instruction that decoding yields has its operands in range.
pub proof fn lemma_decoded_is_wf(word: u16)
    ensures
        decode_spec(word) matches Ok(instruction) ==> instruction.wf(),
{
}

/// Splits `word` into its bit-fields by shifting and masking.
pub fn split(word: u16) -> (f: Fields)
    ensures
        f == fields_of(word),
        f.op < 16,
        f.x < 16,
        f.y < 16,
        f.n < 16,
        f.nnn < 0x1000,
{
    assert(word >> 12 == word / 0x1000 && word >> 12 < 16) by (bit_vector);
    assert((word & 0x0F00) >> 8 == word / 0x100 % 0x10 && (word & 0x0F00) >> 8 < 16)
        by (bit_vector);
    assert((word & 0x00F0) >> 4 == word / 0x10 % 0x10 && (word & 0x00F0) >> 4 < 16)
        by (bit_vector);
    assert(word & 0x000F == word % 0x10 && word & 0x000F < 16) by (bit_vector);
    assert(word & 0x00FF == word % 0x100 && word & 0x00FF < 256) by (bit_vector);
    assert(word & 0x0FFF == word % 0x1000 && word & 0x0FFF < 0x1000) by (bit_vector);
    Fields {
        op: (word >> 12) as u8,
        x: ((word & 0x0F00) >> 8) as u8,
        y: ((word & 0x00F0) >> 4) as u8,
        n: (word & 0x000F) as u8,
        nn: (word & 0x00FF) as u8,
        nnn: word & 0x0FFF,
    }
}

/// Decodes `word`: primary dispatch on the top nibble, secondary dispatch on
/// `nnn`, `n` or `nn` where the top nibble is shared.
pub fn decode(word: u16) -> (r: Result<Instruction, DecodeError>)
    ensures
        r == decode_spec(word),
        r matches Ok(instruction) ==> instruction.wf(),
{
    let f = split(word);
    let (x, y, n, nn, nnn) = (f.x, f.y, f.n, f.nn, f.nnn);
    match f.op {
        0x0 => match nnn {
            0x0E0 => Ok(Instruction::ClearScreen),
            0x0EE => Ok(Instruction::Return),
            _ => Err(DecodeError::UnknownOpcode { word, failing_field: nnn }),
        },
        0x1 => Ok(Instruction::Jump { addr: nnn }),
        0x2 => Ok(Instruction::Call { addr: nnn }),
        0x3 => Ok(Instruction::SkipIfEqual { x, value: nn }),
        0x4 => Ok(Instruction::SkipIfNotEqual { x, value: nn }),
        0x5 => Ok(Instruction::SkipIfRegistersEqual { x, y }),
        0x6 => Ok(Instruction::Load { x, value: nn }),
        0x7 => Ok(Instruction::AddImmediate { x, value: nn }),
        0x8 => match n {
            0x0 => Ok(Instruction::Copy { x, y }),
            0x1 => Ok(Instruction::Or { x, y }),
            0x2 => Ok(Instruction::And { x, y }),
            0x3 => Ok(Instruction::Xor { x, y }),
            0x4 => Ok(Instruction::AddWithCarry { x, y }),
            0x5 => Ok(Instruction::SubtractWithBorrow { x, y }),
            0x6 => Ok(Instruction::ShiftRight { x, y }),
            0x7 => Ok(Instruction::ReverseSubtract { x, y }),
            0xE => Ok(Instruction::ShiftLeft { x, y }),
            _ => Err(DecodeError::UnknownOpcode { word, failing_field: n as u16 }),
        },
        0x9 => Ok(Instruction::SkipIfRegistersNotEqual { x, y }),
        0xA => Ok(Instruction::LoadIndex { addr: nnn }),
        0xB => Ok(Instruction::JumpWithOffset { addr: nnn }),
        0xC => Ok(Instruction::Random { x, mask: nn }),
        0xD => Ok(Instruction::Draw { x, y, rows: n }),
        0xE => match nn {
            0x9E => Ok(Instruction::SkipIfKeyDown { x }),
            0xA1 => Ok(Instruction::SkipIfKeyUp { x }),
            _ => Err(DecodeError::UnknownOpcode { word, failing_field: nn as u16 }),
        },
        _ => match nn {
            0x07 => Ok(Instruction::ReadDelay { x }),
            0x0A => Ok(Instruction::WaitForKey { x }),
            0x15 => Ok(Instruction::SetDelay { x }),
            0x18 => Ok(Instruction::SetSound { x }),
            0x1E => Ok(Instruction::AddToIndex { x }),
            0x29 => Ok(Instruction::FontAddress { x }),
            0x33 => Ok(Instruction::StoreDecimal { x }),
            0x55 => Ok(Instruction::StoreRegisters { x }),
            0x65 => Ok(Instruction::LoadRegisters { x }),
            _ => Err(DecodeError::UnknownOpcode { word, failing_field: nn as u16 }),
        },
    }
}

} // verus!
