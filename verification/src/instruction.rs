//! Instruction words and their decoding.

use crate::outcome::CpuError;
use vstd::prelude::*;

verus! {

/// A decoded instruction with its operands. `x` and `y` are register indices,
/// `kk` is an immediate byte and `addr` an immediate 12-bit address.
#[derive(Debug, Clone, Copy, PartialEq, Eq, Structural)]
pub enum Instruction {
    /// `0000`: end the run.
    Halt,
    /// `00EE`: return from a subroutine.
    Return,
    /// `1nnn`: jump to `addr`.
    Jump { addr: u16 },
    /// `2nnn`: call the subroutine at `addr`.
    Call { addr: u16 },
    /// `3xkk`: skip the next instruction if register `x` equals `kk`.
    SkipEqual { x: u8, kk: u8 },
    /// `4xkk`: skip the next instruction if register `x` differs from `kk`.
    SkipNotEqual { x: u8, kk: u8 },
    /// `5xy0`: skip the next instruction if registers `x` and `y` are equal.
    SkipEqualRegister { x: u8, y: u8 },
    /// `6xkk`: load `kk` into register `x`.
    Load { x: u8, kk: u8 },
    /// `7xkk`: add `kk` to register `x`.
    AddImmediate { x: u8, kk: u8 },
    /// `8xy0`: copy register `y` into register `x`.
    Move { x: u8, y: u8 },
    /// `8xy1`: bitwise OR of register `y` into register `x`.
    Or { x: u8, y: u8 },
    /// `8xy2`: bitwise AND of register `y` into register `x`.
    And { x: u8, y: u8 },
    /// `8xy3`: bitwise XOR of register `y` into register `x`.
    Xor { x: u8, y: u8 },
    /// `8xy4`: add register `y` to register `x`.
    Add { x: u8, y: u8 },
    /// `8xy5`: subtract register `y` from register `x`.
    Subtract { x: u8, y: u8 },
    /// `8xy6`: shift register `x` right by one bit.
    ShiftRight { x: u8, y: u8 },
    /// `8xy7`: store register `y` minus register `x` in register `x`.
    SubtractReverse { x: u8, y: u8 },
    /// `8xy8`: shift register `x` left by one bit.
    ShiftLeft { x: u8, y: u8 },
    /// `9xy0`: skip the next instruction if registers `x` and `y` differ.
    SkipNotEqualRegister { x: u8, y: u8 },
}

/// Bits 15-12 of an instruction word: the instruction family.
pub open spec fn group(word: u16) -> int {
    word as int / 0x1000
}

/// Bits 11-8: the primary register operand.
pub open spec fn field_x(word: u16) -> u8 {
    ((word as int / 0x100) % 0x10) as u8
}

/// Bits 7-4: the secondary register operand.
pub open spec fn field_y(word: u16) -> u8 {
    ((word as int / 0x10) % 0x10) as u8
}

/// Bits 3-0: the operation within a two-register family.
pub open spec fn field_subop(word: u16) -> int {
    word as int % 0x10
}

/// Bits 7-0: the immediate byte.
pub open spec fn field_kk(word: u16) -> u8 {
    (word as int % 0x100) as u8
}

/// Bits 11-0: the immediate address.
pub open spec fn field_nnn(word: u16) -> u16 {
    (word as int % 0x1000) as u16
}

impl Instruction {
    /// The register operands are valid indices into the register file, and
    /// an address operand fits in twelve bits.
    pub open spec fn wf(self) -> bool {
        match self {
            Instruction::Halt | Instruction::Return => true,
            Instruction::Jump { addr } | Instruction::Call { addr } => addr < 0x1000,
            Instruction::SkipEqual { x, .. }
            | Instruction::SkipNotEqual { x, .. }
            | Instruction::Load { x, .. }
            | Instruction::AddImmediate { x, .. } => x < 16,
            Instruction::SkipEqualRegister { x, y }
            | Instruction::Move { x, y }
            | Instruction::Or { x, y }
            | Instruction::And { x, y }
            | Instruction::Xor { x, y }
            | Instruction::Add { x, y }
            | Instruction::Subtract { x, y }
            | Instruction::ShiftRight { x, y }
            | Instruction::SubtractReverse { x, y }
            | Instruction::ShiftLeft { x, y }
            | Instruction::SkipNotEqualRegister { x, y } => x < 16 && y < 16,
        }
    }
}

/// The instruction that a word stands for, or the failure that names the word
/// if it stands for none. The exact words `0000` and `00EE` come first; the
/// rest is told apart by the top nibble, and the two-register family `8xy_`
/// by its lowest nibble.
pub open spec fn decode_word(word: u16) -> Result<Instruction, CpuError> {
    let x = field_x(word);
    let y = field_y(word);
    let kk = field_kk(word);
    let addr = field_nnn(word);
    let subop = field_subop(word);
    let unimplemented = Err(CpuError::UnimplementedInstruction(word));
    if word == 0x0000 {
        Ok(Instruction::Halt)
    } else if word == 0x00EE {
        Ok(Instruction::Return)
    } else if group(word) == 0x1 {
        Ok(Instruction::Jump { addr })
    } else if group(word) == 0x2 {
        Ok(Instruction::Call { addr })
    } else if group(word) == 0x3 {
        Ok(Instruction::SkipEqual { x, kk })
    } else if group(word) == 0x4 {
        Ok(Instruction::SkipNotEqual { x, kk })
    } else if group(word) == 0x5 {
        if subop == 0 {
            Ok(Instruction::SkipEqualRegister { x, y })
        } else {
            unimplemented
        }
    } else if group(word) == 0x6 {
        Ok(Instruction::Load { x, kk })
    } else if group(word) == 0x7 {
        Ok(Instruction::AddImmediate { x, kk })
    } else if group(word) == 0x8 {
        if subop == 0 {
            Ok(Instruction::Move { x, y })
        } else if subop == 1 {
            Ok(Instruction::Or { x, y })
        } else if subop == 2 {
            Ok(Instruction::And { x, y })
        } else if subop == 3 {
            Ok(Instruction::Xor { x, y })
        } else if subop == 4 {
            Ok(Instruction::Add { x, y })
        } else if subop == 5 {
            Ok(Instruction::Subtract { x, y })
        } else if subop == 6 {
            Ok(Instruction::ShiftRight { x, y })
        } else if subop == 7 {
            Ok(Instruction::SubtractReverse { x, y })
        } else if subop == 8 {
            Ok(Instruction::ShiftLeft { x, y })
        } else {
            unimplemented
        }
    } else if group(word) == 0x9 {
        if subop == 0 {
            Ok(Instruction::SkipNotEqualRegister { x, y })
        } else {
            unimplemented
        }
    } else {
        unimplemented
    }
}

/// The fields of a word are these bits of it: `group` bits 15-12, `x` bits
/// 11-8, `y` bits 7-4, the operation selector bits 3-0, `kk` bits 7-0 and
/// `nnn` bits 11-0.
pub proof fn fields_are_bit_ranges(word: u16)
    ensures
        group(word) == word >> 12,
        field_x(word) == (word & 0x0F00) >> 8,
        field_y(word) == (word & 0x00F0) >> 4,
        field_subop(word) == word & 0x000F,
        field_kk(word) == word & 0x00FF,
        field_nnn(word) == word & 0x0FFF,
        group(word) < 0x10,
        field_x(word) < 0x10,
        field_y(word) < 0x10,
        field_subop(word) < 0x10,
        field_nnn(word) < 0x1000,
{
    assert((word >> 12) == word / 0x1000) by (bit_vector);
    assert(((word & 0x0F00) >> 8) == (word / 0x100) % 0x10) by (bit_vector);
    assert(((word & 0x00F0) >> 4) == (word / 0x10) % 0x10) by (bit_vector);
    assert((word & 0x000F) == word % 0x10) by (bit_vector);
    assert((word & 0x00FF) == word % 0x100) by (bit_vector);
    assert((word & 0x0FFF) == word % 0x1000) by (bit_vector);
}

/// Decodes an instruction word. Decoding is pure: it reads nothing but the
/// word.
pub fn decode(word: u16) -> (result: Result<Instruction, CpuError>)
    ensures
        result == decode_word(word),
        result matches Ok(instruction) ==> instruction.wf(),
{
    proof {
        fields_are_bit_ranges(word);
    }
    let subop: u8 = (word & 0x000F) as u8;
    let x: u8 = ((word & 0x0F00) >> 8) as u8;
    let y: u8 = ((word & 0x00F0) >> 4) as u8;
    let kk: u8 = (word & 0x00FF) as u8;
    let addr: u16 = word & 0x0FFF;
    match word {
        0x0000 => Ok(Instruction::Halt),
        0x00EE => Ok(Instruction::Return),
        0x1000..=0x1FFF => Ok(Instruction::Jump { addr }),
        0x2000..=0x2FFF => Ok(Instruction::Call { addr }),
        0x3000..=0x3FFF => Ok(Instruction::SkipEqual { x, kk }),
        0x4000..=0x4FFF => Ok(Instruction::SkipNotEqual { x, kk }),
        0x5000..=0x5FFF => match subop {
            0 => Ok(Instruction::SkipEqualRegister { x, y }),
            _ => Err(CpuError::UnimplementedInstruction(word)),
        },
        0x6000..=0x6FFF => Ok(Instruction::Load { x, kk }),
        0x7000..=0x7FFF => Ok(Instruction::AddImmediate { x, kk }),
        0x8000..=0x8FFF => match subop {
            0 => Ok(Instruction::Move { x, y }),
            1 => Ok(Instruction::Or { x, y }),
            2 => Ok(Instruction::And { x, y }),
            3 => Ok(Instruction::Xor { x, y }),
            4 => Ok(Instruction::Add { x, y }),
            5 => Ok(Instruction::Subtract { x, y }),
            6 => Ok(Instruction::ShiftRight { x, y }),
            7 => Ok(Instruction::SubtractReverse { x, y }),
            8 => Ok(Instruction::ShiftLeft { x, y }),
            _ => Err(CpuError::UnimplementedInstruction(word)),
        },
        0x9000..=0x9FFF => match subop {
            0 => Ok(Instruction::SkipNotEqualRegister { x, y }),
            _ => Err(CpuError::UnimplementedInstruction(word)),
        },
        _ => Err(CpuError::UnimplementedInstruction(word)),
    }
}

} // verus!
