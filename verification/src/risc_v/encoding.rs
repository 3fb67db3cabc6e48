//! The bit layout of RV32I instruction words.

use vstd::prelude::*;
use crate::risc_v::instructions::Instruction;
use crate::risc_v::registers::RegisterIndex;

verus! {

/// Bits 0 to 6 of an instruction word.
pub open spec fn opcode_of(word: u32) -> u32 {
    word % 128
}

/// Bits 7 to 11: the destination register.
pub open spec fn rd_of(word: u32) -> u32 {
    (word / 128) % 32
}

/// Bits 12 to 14.
pub open spec fn funct3_of(word: u32) -> u32 {
    (word / 4096) % 8
}

/// Bits 15 to 19: the first source register.
pub open spec fn rs1_of(word: u32) -> u32 {
    (word / 32768) % 32
}

/// Bits 20 to 24: the second source register, or a shift amount.
pub open spec fn rs2_of(word: u32) -> u32 {
    (word / 0x10_0000) % 32
}

/// Bits 25 to 31.
pub open spec fn funct7_of(word: u32) -> u32 {
    word / 0x200_0000
}

/// Bit 31, the sign of every immediate.
pub open spec fn sign_of(word: u32) -> int {
    (word / 0x8000_0000) as int
}

/// The immediate of the I format: bits 20 to 31 as a signed number.
pub open spec fn imm_i(word: u32) -> int {
    (word / 0x10_0000) - 4096 * sign_of(word)
}

/// The immediate of the S format: bits 25 to 31 above bits 7 to 11, as a
/// signed number.
pub open spec fn imm_s(word: u32) -> int {
    32 * funct7_of(word) + rd_of(word) - 4096 * sign_of(word)
}

/// The immediate of the B format: bit 31, bit 7, bits 25 to 30 and bits 8
/// to 11, from the top down, above a zero bit, as a signed number.
pub open spec fn imm_b(word: u32) -> int {
    2 * ((word / 256) % 16) + 32 * ((word / 0x200_0000) % 64) + 2048 * ((word / 128) % 2) - 4096
        * sign_of(word)
}

/// The immediate of the J format: bit 31, bits 12 to 19, bit 20 and bits 21
/// to 30, from the top down, above a zero bit, as a signed number.
pub open spec fn imm_j(word: u32) -> int {
    2 * ((word / 0x20_0000) % 1024) + 2048 * ((word / 0x10_0000) % 2) + 4096 * ((word / 4096)
        % 256) - 0x10_0000 * sign_of(word)
}

/// The immediate of the U format: bits 12 to 31 above twelve zero bits, as a
/// signed number.
pub open spec fn imm_u(word: u32) -> int {
    4096 * (word / 4096) - 0x1_0000_0000 * sign_of(word)
}

/// Bit 30, which tells the arithmetic right shift from the logical one.
pub open spec fn bit30_of(word: u32) -> u32 {
    (word / 0x4000_0000) % 2
}

/// The register-register instruction with the given function fields.
pub open spec fn decode_register_op(
    funct3: u32,
    funct7: u32,
    rd: RegisterIndex,
    rs1: RegisterIndex,
    rs2: RegisterIndex,
) -> Option<Instruction> {
    if funct7 == 0x00 {
        if funct3 == 0 {
            Some(Instruction::Add { rd, rs1, rs2 })
        } else if funct3 == 1 {
            Some(Instruction::Sll { rd, rs1, rs2 })
        } else if funct3 == 2 {
            Some(Instruction::Slt { rd, rs1, rs2 })
        } else if funct3 == 3 {
            Some(Instruction::Sltu { rd, rs1, rs2 })
        } else if funct3 == 4 {
            Some(Instruction::Xor { rd, rs1, rs2 })
        } else if funct3 == 5 {
            Some(Instruction::Srl { rd, rs1, rs2 })
        } else if funct3 == 6 {
            Some(Instruction::Or { rd, rs1, rs2 })
        } else {
            Some(Instruction::And { rd, rs1, rs2 })
        }
    } else if funct7 == 0x20 && funct3 == 0 {
        Some(Instruction::Sub { rd, rs1, rs2 })
    } else if funct7 == 0x20 && funct3 == 5 {
        Some(Instruction::Sra { rd, rs1, rs2 })
    } else {
        None
    }
}

/// The register-immediate instruction with the given function field. The
/// shifts take their amount from bits 20 to 24; the right shifts are told
/// apart by bit 30 alone.
pub open spec fn decode_immediate_op(
    funct3: u32,
    imm: i32,
    shamt: u32,
    bit30: u32,
    rd: RegisterIndex,
    rs1: RegisterIndex,
) -> Option<Instruction> {
    if funct3 == 0 {
        Some(Instruction::Addi { rd, rs1, imm })
    } else if funct3 == 1 {
        Some(Instruction::Slli { rd, rs1, shamt })
    } else if funct3 == 2 {
        Some(Instruction::Slti { rd, rs1, imm })
    } else if funct3 == 3 {
        Some(Instruction::Sltiu { rd, rs1, imm })
    } else if funct3 == 4 {
        Some(Instruction::Xori { rd, rs1, imm })
    } else if funct3 == 5 {
        if bit30 == 0 {
            Some(Instruction::Srli { rd, rs1, shamt })
        } else {
            Some(Instruction::Srai { rd, rs1, shamt })
        }
    } else if funct3 == 6 {
        Some(Instruction::Ori { rd, rs1, imm })
    } else {
        Some(Instruction::Andi { rd, rs1, imm })
    }
}

/// The load with the given function field.
pub open spec fn decode_load(
    funct3: u32,
    imm: i32,
    rd: RegisterIndex,
    rs1: RegisterIndex,
) -> Option<Instruction> {
    if funct3 == 0 {
        Some(Instruction::Lb { rd, rs1, imm })
    } else if funct3 == 1 {
        Some(Instruction::Lh { rd, rs1, imm })
    } else if funct3 == 2 {
        Some(Instruction::Lw { rd, rs1, imm })
    } else if funct3 == 4 {
        Some(Instruction::Lbu { rd, rs1, imm })
    } else if funct3 == 5 {
        Some(Instruction::Lhu { rd, rs1, imm })
    } else {
        None
    }
}

/// The store with the given function field.
pub open spec fn decode_store(
    funct3: u32,
    imm: i32,
    rs1: RegisterIndex,
    rs2: RegisterIndex,
) -> Option<Instruction> {
    if funct3 == 0 {
        Some(Instruction::Sb { rs1, rs2, imm })
    } else if funct3 == 1 {
        Some(Instruction::Sh { rs1, rs2, imm })
    } else if funct3 == 2 {
        Some(Instruction::Sw { rs1, rs2, imm })
    } else {
        None
    }
}

/// The branch with the given function field.
pub open spec fn decode_branch(
    funct3: u32,
    imm: i32,
    rs1: RegisterIndex,
    rs2: RegisterIndex,
) -> Option<Instruction> {
    if funct3 == 0 {
        Some(Instruction::Beq { rs1, rs2, imm })
    } else if funct3 == 1 {
        Some(Instruction::Bne { rs1, rs2, imm })
    } else if funct3 == 4 {
        Some(Instruction::Blt { rs1, rs2, imm })
    } else if funct3 == 5 {
        Some(Instruction::Bge { rs1, rs2, imm })
    } else if funct3 == 6 {
        Some(Instruction::Bltu { rs1, rs2, imm })
    } else if funct3 == 7 {
        Some(Instruction::Bgeu { rs1, rs2, imm })
    } else {
        None
    }
}

/// The trap of a word with opcode 0x73: only the two exact words count.
pub open spec fn decode_system(word: u32) -> Option<Instruction> {
    if word == 0x0000_0073 {
        Some(Instruction::Ecall)
    } else if word == 0x0010_0073 {
        Some(Instruction::Ebreak)
    } else {
        None
    }
}

/// The instruction that a word stands for, given the registers that its
/// three register fields name.
pub open spec fn decode_with_registers(
    word: u32,
    rd: RegisterIndex,
    rs1: RegisterIndex,
    rs2: RegisterIndex,
) -> Option<Instruction> {
    let opcode = opcode_of(word);
    if opcode == 0x33 {
        decode_register_op(funct3_of(word), funct7_of(word), rd, rs1, rs2)
    } else if opcode == 0x13 {
        decode_immediate_op(
            funct3_of(word),
            imm_i(word) as i32,
            rs2_of(word),
            bit30_of(word),
            rd,
            rs1,
        )
    } else if opcode == 0x03 {
        decode_load(funct3_of(word), imm_i(word) as i32, rd, rs1)
    } else if opcode == 0x23 {
        decode_store(funct3_of(word), imm_s(word) as i32, rs1, rs2)
    } else if opcode == 0x63 {
        decode_branch(funct3_of(word), imm_b(word) as i32, rs1, rs2)
    } else if opcode == 0x6f {
        Some(Instruction::Jal { rd, imm: imm_j(word) as i32 })
    } else if opcode == 0x67 {
        if funct3_of(word) == 0 {
            Some(Instruction::Jalr { rd, rs1, imm: imm_i(word) as i32 })
        } else {
            None
        }
    } else if opcode == 0x37 {
        Some(Instruction::Lui { rd, imm: imm_u(word) as i32 })
    } else if opcode == 0x17 {
        Some(Instruction::Auipc { rd, imm: imm_u(word) as i32 })
    } else if opcode == 0x73 {
        decode_system(word)
    } else {
        None
    }
}

/// The instruction that a word stands for, if it stands for one: the opcode
/// selects the format, the function fields select the operation within it.
/// A word with a register field that names no register stands for none.
#[verifier::opaque]
pub open spec fn decode_spec(word: u32) -> Option<Instruction> {
    match (
        RegisterIndex::spec_from_u32(rd_of(word)),
        RegisterIndex::spec_from_u32(rs1_of(word)),
        RegisterIndex::spec_from_u32(rs2_of(word)),
    ) {
        (Some(rd), Some(rs1), Some(rs2)) => decode_with_registers(word, rd, rs1, rs2),
        _ => None,
    }
}

/// The word whose six fields are the given numbers.
pub open spec fn word_of_fields(
    opcode: int,
    rd: int,
    funct3: int,
    rs1: int,
    rs2: int,
    funct7: int,
) -> int {
    opcode + 128 * rd + 4096 * funct3 + 32768 * rs1 + 0x10_0000 * rs2 + 0x200_0000 * funct7
}

/// The word of a register-register instruction.
pub open spec fn encode_r(
    funct3: int,
    funct7: int,
    rd: RegisterIndex,
    rs1: RegisterIndex,
    rs2: RegisterIndex,
) -> int {
    word_of_fields(0x33, rd.index() as int, funct3, rs1.index() as int, rs2.index() as int, funct7)
}

/// The word of an instruction in the I format: the immediate, taken modulo
/// 2^12, fills bits 20 to 31.
pub open spec fn encode_i(
    opcode: int,
    funct3: int,
    rd: RegisterIndex,
    rs1: RegisterIndex,
    imm: int,
) -> int {
    let low = imm % 4096;
    word_of_fields(opcode, rd.index() as int, funct3, rs1.index() as int, low % 32, low / 32)
}

/// The word of a store: the immediate, taken modulo 2^12, is split between
/// bits 7 to 11 and bits 25 to 31.
pub open spec fn encode_s(funct3: int, rs1: RegisterIndex, rs2: RegisterIndex, imm: int) -> int {
    let low = imm % 4096;
    word_of_fields(0x23, low % 32, funct3, rs1.index() as int, rs2.index() as int, low / 32)
}

/// The word with opcode 0x63 and a 13-bit offset: of the offset, bit 11
/// goes to bit 7, bits 1 to 4 to bits 8 to 11, bits 5 to 10 to bits 25 to
/// 30, and bit 12 to bit 31.
pub open spec fn branch_word(funct3: int, rs1: int, rs2: int, low: int) -> int {
    word_of_fields(
        0x63,
        (low / 2048) % 2 + 2 * ((low / 2) % 16),
        funct3,
        rs1,
        rs2,
        (low / 32) % 64 + 64 * (low / 4096),
    )
}

/// The word of a branch: the immediate is taken modulo 2^13.
pub open spec fn encode_b(funct3: int, rs1: RegisterIndex, rs2: RegisterIndex, imm: int) -> int {
    branch_word(funct3, rs1.index() as int, rs2.index() as int, imm % 8192)
}

/// The word with opcode 0x6f, destination `rd` and a 21-bit offset: of the
/// offset, bits 12 to 19 keep their place, bit 11 goes to bit 20, bits 1 to
/// 10 to bits 21 to 30, and bit 20 to bit 31.
pub open spec fn jump_word(rd: int, low: int) -> int {
    0x6f + 128 * rd + 4096 * ((low / 4096) % 256) + 0x10_0000 * ((low / 2048) % 2) + 0x20_0000 * ((
    low / 2) % 1024) + 0x8000_0000 * (low / 0x10_0000)
}

/// The word of a jump: the immediate is taken modulo 2^21.
pub open spec fn encode_j(rd: RegisterIndex, imm: int) -> int {
    jump_word(rd.index() as int, imm % 0x20_0000)
}

/// The word of an instruction in the U format: the immediate, taken modulo
/// 2^32, fills bits 12 to 31.
pub open spec fn encode_u(opcode: int, rd: RegisterIndex, imm: int) -> int {
    opcode + 128 * rd.index() + imm % 0x1_0000_0000
}

/// Whether the operands of an instruction fit its encoding format: a
/// 12-bit immediate, an even 13-bit or 21-bit offset, an upper immediate with
/// twelve zero bits, a shift amount below 32.
pub open spec fn encodable(instr: Instruction) -> bool {
    match instr {
        Instruction::Addi { imm, .. }
        | Instruction::Slti { imm, .. }
        | Instruction::Sltiu { imm, .. }
        | Instruction::Xori { imm, .. }
        | Instruction::Ori { imm, .. }
        | Instruction::Andi { imm, .. }
        | Instruction::Lb { imm, .. }
        | Instruction::Lh { imm, .. }
        | Instruction::Lw { imm, .. }
        | Instruction::Lbu { imm, .. }
        | Instruction::Lhu { imm, .. }
        | Instruction::Jalr { imm, .. }
        | Instruction::Sb { imm, .. }
        | Instruction::Sh { imm, .. }
        | Instruction::Sw { imm, .. } => -2048 <= imm < 2048,
        Instruction::Slli { shamt, .. }
        | Instruction::Srli { shamt, .. }
        | Instruction::Srai { shamt, .. } => shamt < 32,
        Instruction::Beq { imm, .. }
        | Instruction::Bne { imm, .. }
        | Instruction::Blt { imm, .. }
        | Instruction::Bge { imm, .. }
        | Instruction::Bltu { imm, .. }
        | Instruction::Bgeu { imm, .. } => -4096 <= imm < 4096 && imm % 2 == 0,
        Instruction::Jal { imm, .. } => -0x10_0000 <= imm < 0x10_0000 && imm % 2 == 0,
        Instruction::Lui { imm, .. } | Instruction::Auipc { imm, .. } => imm % 4096 == 0,
        _ => true,
    }
}

/// The word of a shift by a constant: the amount fills bits 20 to 24.
pub open spec fn encode_shift(
    funct3: int,
    funct7: int,
    rd: RegisterIndex,
    rs1: RegisterIndex,
    shamt: u32,
) -> int {
    word_of_fields(0x13, rd.index() as int, funct3, rs1.index() as int, shamt as int, funct7)
}

/// The word that an instruction with fitting operands is assembled into.
pub open spec fn encode(instr: Instruction) -> int {
    match instr {
        Instruction::Add { rd, rs1, rs2 } => encode_r(0, 0x00, rd, rs1, rs2),
        Instruction::Sub { rd, rs1, rs2 } => encode_r(0, 0x20, rd, rs1, rs2),
        Instruction::Sll { rd, rs1, rs2 } => encode_r(1, 0x00, rd, rs1, rs2),
        Instruction::Slt { rd, rs1, rs2 } => encode_r(2, 0x00, rd, rs1, rs2),
        Instruction::Sltu { rd, rs1, rs2 } => encode_r(3, 0x00, rd, rs1, rs2),
        Instruction::Xor { rd, rs1, rs2 } => encode_r(4, 0x00, rd, rs1, rs2),
        Instruction::Srl { rd, rs1, rs2 } => encode_r(5, 0x00, rd, rs1, rs2),
        Instruction::Sra { rd, rs1, rs2 } => encode_r(5, 0x20, rd, rs1, rs2),
        Instruction::Or { rd, rs1, rs2 } => encode_r(6, 0x00, rd, rs1, rs2),
        Instruction::And { rd, rs1, rs2 } => encode_r(7, 0x00, rd, rs1, rs2),
        Instruction::Addi { rd, rs1, imm } => encode_i(0x13, 0, rd, rs1, imm as int),
        Instruction::Slti { rd, rs1, imm } => encode_i(0x13, 2, rd, rs1, imm as int),
        Instruction::Sltiu { rd, rs1, imm } => encode_i(0x13, 3, rd, rs1, imm as int),
        Instruction::Xori { rd, rs1, imm } => encode_i(0x13, 4, rd, rs1, imm as int),
        Instruction::Ori { rd, rs1, imm } => encode_i(0x13, 6, rd, rs1, imm as int),
        Instruction::Andi { rd, rs1, imm } => encode_i(0x13, 7, rd, rs1, imm as int),
        Instruction::Lb { rd, rs1, imm } => encode_i(0x03, 0, rd, rs1, imm as int),
        Instruction::Lh { rd, rs1, imm } => encode_i(0x03, 1, rd, rs1, imm as int),
        Instruction::Lw { rd, rs1, imm } => encode_i(0x03, 2, rd, rs1, imm as int),
        Instruction::Lbu { rd, rs1, imm } => encode_i(0x03, 4, rd, rs1, imm as int),
        Instruction::Lhu { rd, rs1, imm } => encode_i(0x03, 5, rd, rs1, imm as int),
        Instruction::Jalr { rd, rs1, imm } => encode_i(0x67, 0, rd, rs1, imm as int),
        Instruction::Slli { rd, rs1, shamt } => encode_shift(1, 0x00, rd, rs1, shamt),
        Instruction::Srli { rd, rs1, shamt } => encode_shift(5, 0x00, rd, rs1, shamt),
        Instruction::Srai { rd, rs1, shamt } => encode_shift(5, 0x20, rd, rs1, shamt),
        Instruction::Sb { rs1, rs2, imm } => encode_s(0, rs1, rs2, imm as int),
        Instruction::Sh { rs1, rs2, imm } => encode_s(1, rs1, rs2, imm as int),
        Instruction::Sw { rs1, rs2, imm } => encode_s(2, rs1, rs2, imm as int),
        Instruction::Beq { rs1, rs2, imm } => encode_b(0, rs1, rs2, imm as int),
        Instruction::Bne { rs1, rs2, imm } => encode_b(1, rs1, rs2, imm as int),
        Instruction::Blt { rs1, rs2, imm } => encode_b(4, rs1, rs2, imm as int),
        Instruction::Bge { rs1, rs2, imm } => encode_b(5, rs1, rs2, imm as int),
        Instruction::Bltu { rs1, rs2, imm } => encode_b(6, rs1, rs2, imm as int),
        Instruction::Bgeu { rs1, rs2, imm } => encode_b(7, rs1, rs2, imm as int),
        Instruction::Jal { rd, imm } => encode_j(rd, imm as int),
        Instruction::Lui { rd, imm } => encode_u(0x37, rd, imm as int),
        Instruction::Auipc { rd, imm } => encode_u(0x17, rd, imm as int),
        Instruction::Ecall => 0x0000_0073,
        Instruction::Ebreak => 0x0010_0073,
    }
}

} // verus!
