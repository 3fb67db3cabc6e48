//! Decoding of instruction words.

use vstd::prelude::*;
use crate::risc_v::encoding::{decode_spec, imm_b, imm_i, imm_j, imm_s, imm_u};
use crate::risc_v::instructions::Instruction;
use crate::risc_v::registers::RegisterIndex;
use crate::utils::error::VmError;

verus! {

/// Masks and shifts pick out the fields of a word.
proof fn lemma_fields(word: u32)
    by (bit_vector)
    ensures
        word & 0x7f == word % 128,
        (word >> 7) & 0x1f == (word / 128) % 32,
        (word >> 12) & 0x7 == (word / 4096) % 8,
        (word >> 15) & 0x1f == (word / 32768) % 32,
        (word >> 20) & 0x1f == (word / 0x10_0000) % 32,
        (word >> 25) & 0x7f == word / 0x200_0000,
        (word >> 30) & 1 == (word / 0x4000_0000) % 2,
{
}

fn immediate_i(word: u32) -> (imm: i32)
    ensures
        imm == imm_i(word),
{
    let imm: i32 = (word as i32) >> 20;
    assert(((word as i32) >> 20) as int == (word / 0x10_0000) as int - 4096 * (word
        / 0x8000_0000u32) as int) by (bit_vector);
    imm
}

fn immediate_s(word: u32) -> (imm: i32)
    ensures
        imm == imm_s(word),
{
    let imm: i32 = (((word as i32) >> 25) << 5) | (((word >> 7) & 0x1f) as i32);
    assert(((((word as i32) >> 25) << 5) | (((word >> 7) & 0x1f) as i32)) as int == 32 * (word
        / 0x200_0000) as int + ((word / 128) % 32) as int - 4096 * (word / 0x8000_0000u32) as int)
        by (bit_vector);
    imm
}

fn immediate_b(word: u32) -> (imm: i32)
    ensures
        imm == imm_b(word),
{
    let imm: i32 = (((word as i32) >> 31) << 12) | ((((word >> 7) & 1) as i32) << 11) | ((((word
        >> 25) & 0x3f) as i32) << 5) | ((((word >> 8) & 0xf) as i32) << 1);
    assert(((((word as i32) >> 31) << 12) | ((((word >> 7) & 1) as i32) << 11) | ((((word >> 25)
        & 0x3f) as i32) << 5) | ((((word >> 8) & 0xf) as i32) << 1)) as int == 2 * ((word / 256)
        % 16) + 32 * ((word / 0x200_0000) % 64) + 2048 * ((word / 128) % 2) - 4096 * (word
        / 0x8000_0000u32) as int) by (bit_vector);
    imm
}

fn immediate_j(word: u32) -> (imm: i32)
    ensures
        imm == imm_j(word),
{
    let imm: i32 = (((word as i32) >> 31) << 20) | ((((word >> 12) & 0xff) as i32) << 12) | ((((
    word >> 20) & 1) as i32) << 11) | ((((word >> 21) & 0x3ff) as i32) << 1);
    assert(((((word as i32) >> 31) << 20) | ((((word >> 12) & 0xff) as i32) << 12) | ((((word
        >> 20) & 1) as i32) << 11) | ((((word >> 21) & 0x3ff) as i32) << 1)) as int == 2 * ((word
        / 0x20_0000) % 1024) + 2048 * ((word / 0x10_0000) % 2) + 4096 * ((word / 4096) % 256)
        - 0x10_0000 * (word / 0x8000_0000u32) as int) by (bit_vector);
    imm
}

fn immediate_u(word: u32) -> (imm: i32)
    ensures
        imm == imm_u(word),
{
    let imm: i32 = (word & 0xfffff000) as i32;
    assert(((word & 0xfffff000) as i32) as int == 4096 * (word / 4096) as int - 0x1_0000_0000 * (
    word / 0x8000_0000u32) as int) by (bit_vector);
    imm
}

/// The instruction decoder.
pub struct Decoder;

impl Decoder {
    /// Decodes a 32-bit word into an instruction. A word that stands for no
    /// supported instruction is rejected, and the error carries the word.
    pub fn decode(instruction: u32) -> (r: Result<Instruction, VmError>)
        ensures
            match decode_spec(instruction) {
                Some(decoded) => r == Ok::<Instruction, VmError>(decoded),
                None => r == Err::<Instruction, VmError>(VmError::InvalidInstruction(instruction)),
            },
    {
        proof {
            reveal(decode_spec);
            lemma_fields(instruction);
        }
        let opcode: u32 = instruction & 0x7f;
        let rd = match RegisterIndex::from_u32((instruction >> 7) & 0x1f) {
            Some(reg) => reg,
            None => {
                return Err(VmError::InvalidInstruction(instruction));
            },
        };
        let funct3: u32 = (instruction >> 12) & 0x7;
        let rs1 = match RegisterIndex::from_u32((instruction >> 15) & 0x1f) {
            Some(reg) => reg,
            None => {
                return Err(VmError::InvalidInstruction(instruction));
            },
        };
        let rs2 = match RegisterIndex::from_u32((instruction >> 20) & 0x1f) {
            Some(reg) => reg,
            None => {
                return Err(VmError::InvalidInstruction(instruction));
            },
        };
        let funct7: u32 = (instruction >> 25) & 0x7f;

        match opcode {
            // Register-register arithmetic
            0x33 => match (funct3, funct7) {
                (0x0, 0x00) => Ok(Instruction::Add { rd, rs1, rs2 }),
                (0x0, 0x20) => Ok(Instruction::Sub { rd, rs1, rs2 }),
                (0x1, 0x00) => Ok(Instruction::Sll { rd, rs1, rs2 }),
                (0x2, 0x00) => Ok(Instruction::Slt { rd, rs1, rs2 }),
                (0x3, 0x00) => Ok(Instruction::Sltu { rd, rs1, rs2 }),
                (0x4, 0x00) => Ok(Instruction::Xor { rd, rs1, rs2 }),
                (0x5, 0x00) => Ok(Instruction::Srl { rd, rs1, rs2 }),
                (0x5, 0x20) => Ok(Instruction::Sra { rd, rs1, rs2 }),
                (0x6, 0x00) => Ok(Instruction::Or { rd, rs1, rs2 }),
                (0x7, 0x00) => Ok(Instruction::And { rd, rs1, rs2 }),
                _ => Err(VmError::InvalidInstruction(instruction)),
            },
            // Register-immediate arithmetic
            0x13 => {
                let imm = immediate_i(instruction);
                let shamt: u32 = (instruction >> 20) & 0x1f;
                match funct3 {
                    0x0 => Ok(Instruction::Addi { rd, rs1, imm }),
                    0x1 => Ok(Instruction::Slli { rd, rs1, shamt }),
                    0x2 => Ok(Instruction::Slti { rd, rs1, imm }),
                    0x3 => Ok(Instruction::Sltiu { rd, rs1, imm }),
                    0x4 => Ok(Instruction::Xori { rd, rs1, imm }),
                    0x5 => {
                        if (instruction >> 30) & 1 == 0 {
                            Ok(Instruction::Srli { rd, rs1, shamt })
                        } else {
                            Ok(Instruction::Srai { rd, rs1, shamt })
                        }
                    },
                    0x6 => Ok(Instruction::Ori { rd, rs1, imm }),
                    0x7 => Ok(Instruction::Andi { rd, rs1, imm }),
                    _ => Err(VmError::InvalidInstruction(instruction)),
                }
            },
            // Loads
            0x03 => {
                let imm = immediate_i(instruction);
                match funct3 {
                    0x0 => Ok(Instruction::Lb { rd, rs1, imm }),
                    0x1 => Ok(Instruction::Lh { rd, rs1, imm }),
                    0x2 => Ok(Instruction::Lw { rd, rs1, imm }),
                    0x4 => Ok(Instruction::Lbu { rd, rs1, imm }),
                    0x5 => Ok(Instruction::Lhu { rd, rs1, imm }),
                    _ => Err(VmError::InvalidInstruction(instruction)),
                }
            },
            // Stores
            0x23 => {
                let imm = immediate_s(instruction);
                match funct3 {
                    0x0 => Ok(Instruction::Sb { rs1, rs2, imm }),
                    0x1 => Ok(Instruction::Sh { rs1, rs2, imm }),
                    0x2 => Ok(Instruction::Sw { rs1, rs2, imm }),
                    _ => Err(VmError::InvalidInstruction(instruction)),
                }
            },
            // Branches
            0x63 => {
                let imm = immediate_b(instruction);
                match funct3 {
                    0x0 => Ok(Instruction::Beq { rs1, rs2, imm }),
                    0x1 => Ok(Instruction::Bne { rs1, rs2, imm }),
                    0x4 => Ok(Instruction::Blt { rs1, rs2, imm }),
                    0x5 => Ok(Instruction::Bge { rs1, rs2, imm }),
                    0x6 => Ok(Instruction::Bltu { rs1, rs2, imm }),
                    0x7 => Ok(Instruction::Bgeu { rs1, rs2, imm }),
                    _ => Err(VmError::InvalidInstruction(instruction)),
                }
            },
            // Jump and link
            0x6f => {
                let imm = immediate_j(instruction);
                Ok(Instruction::Jal { rd, imm })
            },
            // Jump and link register
            0x67 => {
                let imm = immediate_i(instruction);
                if funct3 == 0x0 {
                    Ok(Instruction::Jalr { rd, rs1, imm })
                } else {
                    Err(VmError::InvalidInstruction(instruction))
                }
            },
            // Load upper immediate
            0x37 => {
                let imm = immediate_u(instruction);
                Ok(Instruction::Lui { rd, imm })
            },
            // Add upper immediate to pc
            0x17 => {
                let imm = immediate_u(instruction);
                Ok(Instruction::Auipc { rd, imm })
            },
            // Traps
            0x73 => match funct3 {
                0x0 => match instruction {
                    0x0000_0073 => Ok(Instruction::Ecall),
                    0x0010_0073 => Ok(Instruction::Ebreak),
                    _ => Err(VmError::InvalidInstruction(instruction)),
                },
                _ => Err(VmError::InvalidInstruction(instruction)),
            },
            _ => Err(VmError::InvalidInstruction(instruction)),
        }
    }
}

} // verus!
