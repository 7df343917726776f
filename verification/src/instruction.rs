use vstd::prelude::*;
use crate::fault::Fault;

verus! {

/// The operand fields that every opcode carries, whether or not the
/// instruction it encodes uses them.
#[derive(Clone, Copy, Debug, PartialEq, Eq)]
pub struct Fields {
    /// Bits 8 to 11: a register index.
    pub x: u8,
    /// Bits 4 to 7: a register index.
    pub y: u8,
    /// Bits 0 to 7: an immediate byte.
    pub kk: u8,
    /// Bits 0 to 3: selects among the instructions that share a high nibble.
    pub op_minor: u8,
    /// Bits 0 to 11: a memory address.
    pub addr: u16,
}

impl Fields {
    /// The fields of `opcode`, read as a number in base 16: `x` is its third
    /// digit from the right, `y` its second, `op_minor` its last; `kk` is its
    /// last two digits and `addr` its last three.
    pub open spec fn of(opcode: u16) -> Fields {
        Fields {
            x: ((opcode / 0x100) % 0x10) as u8,
            y: ((opcode / 0x10) % 0x10) as u8,
            kk: (opcode % 0x100) as u8,
            op_minor: (opcode % 0x10) as u8,
            addr: (opcode % 0x1000) as u16,
        }
    }

    /// Extracts the five operand fields of `opcode`.
    pub fn extract(opcode: u16) -> (fields: Fields)
        ensures
            fields == Fields::of(opcode),
            fields.x < 16,
            fields.y < 16,
            fields.op_minor < 16,
            fields.addr < 0x1000,
    {
        assert((opcode & 0x0F00) >> 8 == (opcode / 0x100) % 0x10) by (bit_vector);
        assert((opcode & 0x00F0) >> 4 == (opcode / 0x10) % 0x10) by (bit_vector);
        assert(opcode & 0x00FF == opcode % 0x100) by (bit_vector);
        assert(opcode & 0x000F == opcode % 0x10) by (bit_vector);
        assert(opcode & 0x0FFF == opcode % 0x1000) by (bit_vector);
        Fields {
            x: ((opcode & 0x0F00) >> 8) as u8,
            y: ((opcode & 0x00F0) >> 4) as u8,
            kk: (opcode & 0x00FF) as u8,
            op_minor: (opcode & 0x000F) as u8,
            addr: opcode & 0x0FFF,
        }
    }
}

/// The instructions of the machine, each with the operands it uses.
#[derive(Clone, Copy, Debug, PartialEq, Eq)]
pub enum Instruction {
    /// `0000`: stop the machine.
    Halt,
    /// `00E0`: clear the screen. The core has no display, so this does nothing.
    ClearScreen,
    /// `00EE`: return from the current subroutine.
    Return,
    /// `1nnn`: continue at `addr`.
    Jump { addr: u16 },
    /// `2nnn`: call the subroutine at `addr`.
    Call { addr: u16 },
    /// `3xkk`: skip the next instruction if register `x` equals `kk`.
    SkipEqualImmediate { x: u8, kk: u8 },
    /// `4xkk`: skip the next instruction if register `x` differs from `kk`.
    SkipNotEqualImmediate { x: u8, kk: u8 },
    /// `5xy0`: skip the next instruction if registers `x` and `y` are equal.
    SkipEqualRegisters { x: u8, y: u8 },
    /// `6xkk`: put `kk` into register `x`.
    LoadImmediate { x: u8, kk: u8 },
    /// `7xkk`: add `kk` to register `x`, wrapping; the flag register is not touched.
    AddImmediate { x: u8, kk: u8 },
    /// `8xy0`: copy register `y` into register `x`.
    Move { x: u8, y: u8 },
    /// `8xy1`: bitwise or of registers `x` and `y`, into `x`.
    Or { x: u8, y: u8 },
    /// `8xy2`: bitwise and of registers `x` and `y`, into `x`.
    And { x: u8, y: u8 },
    /// `8xy3`: bitwise exclusive or of registers `x` and `y`, into `x`.
    Xor { x: u8, y: u8 },
    /// `8xy4`: add register `y` to register `x`, wrapping, and set the flag
    /// register to the carry.
    AddRegisters { x: u8, y: u8 },
}

impl Instruction {
    /// Whether this is one of the three conditional skips.
    pub open spec fn is_skip(self) -> bool {
        self is SkipEqualImmediate || self is SkipNotEqualImmediate || self is SkipEqualRegisters
    }

    /// Every register index is below 16 and every address below 4096.
    pub open spec fn well_formed(self) -> bool {
        match self {
            Instruction::Halt | Instruction::ClearScreen | Instruction::Return => true,
            Instruction::Jump { addr } | Instruction::Call { addr } => addr < 0x1000,
            Instruction::SkipEqualImmediate { x, .. }
            | Instruction::SkipNotEqualImmediate { x, .. }
            | Instruction::LoadImmediate { x, .. }
            | Instruction::AddImmediate { x, .. } => x < 16,
            Instruction::SkipEqualRegisters { x, y }
            | Instruction::Move { x, y }
            | Instruction::Or { x, y }
            | Instruction::And { x, y }
            | Instruction::Xor { x, y }
            | Instruction::AddRegisters { x, y } => x < 16 && y < 16,
        }
    }
}

/// The instruction that `opcode` encodes, or the fault that reports `opcode`
/// as unimplemented.
///
/// The three control codes are single values. Every other instruction is
/// told by the opcode's first hexadecimal digit, and for the digits 5 and 8
/// by the last one too: a word `5xyN` with `N` other than 0, or `8xyN` with
/// `N` above 4, encodes nothing.
pub open spec fn decode_spec(opcode: u16) -> Result<Instruction, Fault> {
    let Fields { x, y, kk, op_minor, addr } = Fields::of(opcode);
    let family = opcode / 0x1000;
    if opcode == 0x0000 {
        Ok(Instruction::Halt)
    } else if opcode == 0x00E0 {
        Ok(Instruction::ClearScreen)
    } else if opcode == 0x00EE {
        Ok(Instruction::Return)
    } else if family == 0x1 {
        Ok(Instruction::Jump { addr })
    } else if family == 0x2 {
        Ok(Instruction::Call { addr })
    } else if family == 0x3 {
        Ok(Instruction::SkipEqualImmediate { x, kk })
    } else if family == 0x4 {
        Ok(Instruction::SkipNotEqualImmediate { x, kk })
    } else if family == 0x5 && op_minor == 0 {
        Ok(Instruction::SkipEqualRegisters { x, y })
    } else if family == 0x6 {
        Ok(Instruction::LoadImmediate { x, kk })
    } else if family == 0x7 {
        Ok(Instruction::AddImmediate { x, kk })
    } else if family == 0x8 && op_minor == 0 {
        Ok(Instruction::Move { x, y })
    } else if family == 0x8 && op_minor == 1 {
        Ok(Instruction::Or { x, y })
    } else if family == 0x8 && op_minor == 2 {
        Ok(Instruction::And { x, y })
    } else if family == 0x8 && op_minor == 3 {
        Ok(Instruction::Xor { x, y })
    } else if family == 0x8 && op_minor == 4 {
        Ok(Instruction::AddRegisters { x, y })
    } else {
        Err(Fault::UnimplementedOpcode(opcode))
    }
}

/// Decodes `opcode`. The exact control codes are tried before the families,
/// with which they share the range below `0x1000`.
pub fn decode(opcode: u16) -> (result: Result<Instruction, Fault>)
    ensures
        result == decode_spec(opcode),
        result matches Ok(instruction) ==> instruction.well_formed(),
        result is Err ==> result == Err::<Instruction, Fault>(Fault::UnimplementedOpcode(opcode)),
{
    let Fields { x, y, kk, op_minor, addr } = Fields::extract(opcode);
    match opcode {
        0x0000 => Ok(Instruction::Halt),
        0x00E0 => Ok(Instruction::ClearScreen),
        0x00EE => Ok(Instruction::Return),
        0x1000..=0x1FFF => Ok(Instruction::Jump { addr }),
        0x2000..=0x2FFF => Ok(Instruction::Call { addr }),
        0x3000..=0x3FFF => Ok(Instruction::SkipEqualImmediate { x, kk }),
        0x4000..=0x4FFF => Ok(Instruction::SkipNotEqualImmediate { x, kk }),
        0x5000..=0x5FFF => match op_minor {
            0 => Ok(Instruction::SkipEqualRegisters { x, y }),
            _ => Err(Fault::UnimplementedOpcode(opcode)),
        },
        0x6000..=0x6FFF => Ok(Instruction::LoadImmediate { x, kk }),
        0x7000..=0x7FFF => Ok(Instruction::AddImmediate { x, kk }),
        0x8000..=0x8FFF => match op_minor {
            0 => Ok(Instruction::Move { x, y }),
            1 => Ok(Instruction::Or { x, y }),
            2 => Ok(Instruction::And { x, y }),
            3 => Ok(Instruction::Xor { x, y }),
            4 => Ok(Instruction::AddRegisters { x, y }),
            _ => Err(Fault::UnimplementedOpcode(opcode)),
        },
        _ => Err(Fault::UnimplementedOpcode(opcode)),
    }
}

} // verus!
