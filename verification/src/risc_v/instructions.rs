//! The instructions of RV32I as decoded values.

use vstd::prelude::*;
use crate::risc_v::registers::RegisterIndex;

verus! {

/// One decoded RV32I instruction with the operands of its encoding format.
///
/// Immediates are stored sign-extended; shift amounts are unsigned.
#[derive(Debug, Clone, PartialEq, Eq, Structural)]
pub enum Instruction {
    // Register-register arithmetic
    Add { rd: RegisterIndex, rs1: RegisterIndex, rs2: RegisterIndex },
    Sub { rd: RegisterIndex, rs1: RegisterIndex, rs2: RegisterIndex },
    Slt { rd: RegisterIndex, rs1: RegisterIndex, rs2: RegisterIndex },
    Sltu { rd: RegisterIndex, rs1: RegisterIndex, rs2: RegisterIndex },
    And { rd: RegisterIndex, rs1: RegisterIndex, rs2: RegisterIndex },
    Or { rd: RegisterIndex, rs1: RegisterIndex, rs2: RegisterIndex },
    Xor { rd: RegisterIndex, rs1: RegisterIndex, rs2: RegisterIndex },
    Sll { rd: RegisterIndex, rs1: RegisterIndex, rs2: RegisterIndex },
    Srl { rd: RegisterIndex, rs1: RegisterIndex, rs2: RegisterIndex },
    Sra { rd: RegisterIndex, rs1: RegisterIndex, rs2: RegisterIndex },
    // Register-immediate arithmetic
    Addi { rd: RegisterIndex, rs1: RegisterIndex, imm: i32 },
    Slti { rd: RegisterIndex, rs1: RegisterIndex, imm: i32 },
    Sltiu { rd: RegisterIndex, rs1: RegisterIndex, imm: i32 },
    Andi { rd: RegisterIndex, rs1: RegisterIndex, imm: i32 },
    Ori { rd: RegisterIndex, rs1: RegisterIndex, imm: i32 },
    Xori { rd: RegisterIndex, rs1: RegisterIndex, imm: i32 },
    Slli { rd: RegisterIndex, rs1: RegisterIndex, shamt: u32 },
    Srli { rd: RegisterIndex, rs1: RegisterIndex, shamt: u32 },
    Srai { rd: RegisterIndex, rs1: RegisterIndex, shamt: u32 },
    // Loads
    Lb { rd: RegisterIndex, rs1: RegisterIndex, imm: i32 },
    Lh { rd: RegisterIndex, rs1: RegisterIndex, imm: i32 },
    Lw { rd: RegisterIndex, rs1: RegisterIndex, imm: i32 },
    Lbu { rd: RegisterIndex, rs1: RegisterIndex, imm: i32 },
    Lhu { rd: RegisterIndex, rs1: RegisterIndex, imm: i32 },
    // Stores
    Sb { rs1: RegisterIndex, rs2: RegisterIndex, imm: i32 },
    Sh { rs1: RegisterIndex, rs2: RegisterIndex, imm: i32 },
    Sw { rs1: RegisterIndex, rs2: RegisterIndex, imm: i32 },
    // Branches
    Beq { rs1: RegisterIndex, rs2: RegisterIndex, imm: i32 },
    Bne { rs1: RegisterIndex, rs2: RegisterIndex, imm: i32 },
    Blt { rs1: RegisterIndex, rs2: RegisterIndex, imm: i32 },
    Bge { rs1: RegisterIndex, rs2: RegisterIndex, imm: i32 },
    Bltu { rs1: RegisterIndex, rs2: RegisterIndex, imm: i32 },
    Bgeu { rs1: RegisterIndex, rs2: RegisterIndex, imm: i32 },
    // Jumps
    Jal { rd: RegisterIndex, imm: i32 },
    Jalr { rd: RegisterIndex, rs1: RegisterIndex, imm: i32 },
    // Upper immediates
    Lui { rd: RegisterIndex, imm: i32 },
    Auipc { rd: RegisterIndex, imm: i32 },
    // Traps
    Ecall,
    Ebreak,
}

/// The six encoding formats of RV32I.
#[derive(Debug, Clone, Copy, PartialEq, Eq, Structural)]
pub enum InstructionFormat {
    /// Register format
    R,
    /// Immediate format
    I,
    /// Store format
    S,
    /// Branch format
    B,
    /// Upper immediate format
    U,
    /// Jump format
    J,
}

impl Instruction {
    /// The encoding format of each instruction.
    pub open spec fn spec_format(self) -> InstructionFormat {
        match self {
            Instruction::Add { .. }
            | Instruction::Sub { .. }
            | Instruction::Slt { .. }
            | Instruction::Sltu { .. }
            | Instruction::And { .. }
            | Instruction::Or { .. }
            | Instruction::Xor { .. }
            | Instruction::Sll { .. }
            | Instruction::Srl { .. }
            | Instruction::Sra { .. } => InstructionFormat::R,
            Instruction::Sb { .. }
            | Instruction::Sh { .. }
            | Instruction::Sw { .. } => InstructionFormat::S,
            Instruction::Beq { .. }
            | Instruction::Bne { .. }
            | Instruction::Blt { .. }
            | Instruction::Bge { .. }
            | Instruction::Bltu { .. }
            | Instruction::Bgeu { .. } => InstructionFormat::B,
            Instruction::Lui { .. } | Instruction::Auipc { .. } => InstructionFormat::U,
            Instruction::Jal { .. } => InstructionFormat::J,
            _ => InstructionFormat::I,
        }
    }

    /// Returns the encoding format of the instruction. The two traps are
    /// encoded in the immediate format.
    pub fn format(&self) -> (f: InstructionFormat)
        ensures
            f == self.spec_format(),
    {
        match self {
            Self::Add { .. }
            | Self::Sub { .. }
            | Self::Slt { .. }
            | Self::Sltu { .. }
            | Self::And { .. }
            | Self::Or { .. }
            | Self::Xor { .. }
            | Self::Sll { .. }
            | Self::Srl { .. }
            | Self::Sra { .. } => InstructionFormat::R,
            Self::Addi { .. }
            | Self::Slti { .. }
            | Self::Sltiu { .. }
            | Self::Andi { .. }
            | Self::Ori { .. }
            | Self::Xori { .. }
            | Self::Slli { .. }
            | Self::Srli { .. }
            | Self::Srai { .. }
            | Self::Lb { .. }
            | Self::Lh { .. }
            | Self::Lw { .. }
            | Self::Lbu { .. }
            | Self::Lhu { .. }
            | Self::Jalr { .. } => InstructionFormat::I,
            Self::Sb { .. } | Self::Sh { .. } | Self::Sw { .. } => InstructionFormat::S,
            Self::Beq { .. }
            | Self::Bne { .. }
            | Self::Blt { .. }
            | Self::Bge { .. }
            | Self::Bltu { .. }
            | Self::Bgeu { .. } => InstructionFormat::B,
            Self::Lui { .. } | Self::Auipc { .. } => InstructionFormat::U,
            Self::Jal { .. } => InstructionFormat::J,
            Self::Ecall | Self::Ebreak => InstructionFormat::I,
        }
    }
}

} // verus!
