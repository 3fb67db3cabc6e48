//! Decoding undoes assembling.

use vstd::prelude::*;
use crate::risc_v::encoding::{
    bit30_of, branch_word, decode_branch, decode_immediate_op, decode_load, decode_register_op,
    decode_spec, decode_store, encodable, encode, encode_b, encode_i, encode_j, encode_r,
    encode_s, encode_shift, encode_u, funct3_of, funct7_of, imm_b, imm_i, imm_j, imm_s, imm_u,
    jump_word, opcode_of, rd_of, rs1_of, rs2_of, word_of_fields,
};
use crate::risc_v::instructions::InstructionFormat;
use crate::risc_v::instructions::Instruction;
use crate::risc_v::registers::RegisterIndex;

verus! {

/// A word assembled from six fields in range gives each field back.
proof fn lemma_fields_of_word(opcode: u32, rd: u32, funct3: u32, rs1: u32, rs2: u32, funct7: u32)
    by (bit_vector)
    requires
        opcode < 128,
        rd < 32,
        funct3 < 8,
        rs1 < 32,
        rs2 < 32,
        funct7 < 128,
    ensures
        0 <= word_of_fields(
            opcode as int,
            rd as int,
            funct3 as int,
            rs1 as int,
            rs2 as int,
            funct7 as int,
        ) <= 0xffff_ffff,
        ({
            let word = word_of_fields(
                opcode as int,
                rd as int,
                funct3 as int,
                rs1 as int,
                rs2 as int,
                funct7 as int,
            ) as u32;
            &&& opcode_of(word) == opcode
            &&& rd_of(word) == rd
            &&& funct3_of(word) == funct3
            &&& rs1_of(word) == rs1
            &&& rs2_of(word) == rs2
            &&& funct7_of(word) == funct7
            &&& bit30_of(word) == (funct7 / 32) % 2
        }),
{
}

/// A 12-bit immediate in bits 20 to 31 is read back with its sign.
proof fn lemma_immediate_i(opcode: u32, rd: u32, funct3: u32, rs1: u32, low: u32)
    by (bit_vector)
    requires
        opcode < 128,
        rd < 32,
        funct3 < 8,
        rs1 < 32,
        low < 4096,
    ensures
        low % 32 < 32,
        low / 32 < 128,
        ({
            let word = word_of_fields(
                opcode as int,
                rd as int,
                funct3 as int,
                rs1 as int,
                (low % 32) as int,
                (low / 32) as int,
            ) as u32;
            imm_i(word) + 4096 * (low / 2048) == low
        }),
{
}

/// A 12-bit immediate split between bits 7 to 11 and bits 25 to 31 is read
/// back with its sign.
proof fn lemma_immediate_s(funct3: u32, rs1: u32, rs2: u32, low: u32)
    by (bit_vector)
    requires
        funct3 < 8,
        rs1 < 32,
        rs2 < 32,
        low < 4096,
    ensures
        low % 32 < 32,
        low / 32 < 128,
        ({
            let word = word_of_fields(
                0x23,
                (low % 32) as int,
                funct3 as int,
                rs1 as int,
                rs2 as int,
                (low / 32) as int,
            ) as u32;
            imm_s(word) + 4096 * (low / 2048) == low
        }),
{
}

/// The scattered bits of a branch offset are read back in order, with the
/// sign, and leave the other fields alone.
proof fn lemma_immediate_b(funct3: u32, rs1: u32, rs2: u32, low: u32)
    by (bit_vector)
    requires
        funct3 < 8,
        rs1 < 32,
        rs2 < 32,
        low < 8192,
        low % 2 == 0,
    ensures
        0 <= branch_word(funct3 as int, rs1 as int, rs2 as int, low as int) <= 0xffff_ffff,
        ({
            let word = branch_word(funct3 as int, rs1 as int, rs2 as int, low as int) as u32;
            &&& opcode_of(word) == 0x63
            &&& funct3_of(word) == funct3
            &&& rs1_of(word) == rs1
            &&& rs2_of(word) == rs2
            &&& imm_b(word) + 8192 * (low / 4096) == low
        }),
{
}

/// The scattered bits of a jump offset are read back in order, with the
/// sign, and leave the opcode and the destination alone.
proof fn lemma_immediate_j(rd: u32, low: u32)
    by (bit_vector)
    requires
        rd < 32,
        low < 0x20_0000,
        low % 2 == 0,
    ensures
        0 <= jump_word(rd as int, low as int) <= 0xffff_ffff,
        ({
            let word = jump_word(rd as int, low as int) as u32;
            &&& opcode_of(word) == 0x6f
            &&& rd_of(word) == rd
            &&& imm_j(word) + 0x20_0000 * (low / 0x10_0000) == low
        }),
{
}

/// An upper immediate is read back with its sign, and leaves the opcode and
/// the destination alone.
proof fn lemma_immediate_u(opcode: u32, rd: u32, low: u32)
    by (bit_vector)
    requires
        opcode < 128,
        rd < 32,
        low % 4096 == 0,
    ensures
        0 <= opcode + 128 * rd + low <= 0xffff_ffff,
        ({
            let word = (opcode + 128 * rd + low) as u32;
            &&& opcode_of(word) == opcode
            &&& rd_of(word) == rd
            &&& imm_u(word) + 0x1_0000_0000 * (low / 0x8000_0000u32) == low
        }),
{
}

/// Any word has three register fields that name registers.
proof fn lemma_register_fields(word: u32)
    ensures
        RegisterIndex::spec_from_u32(rd_of(word)) is Some,
        RegisterIndex::spec_from_u32(rs1_of(word)) is Some,
        RegisterIndex::spec_from_u32(rs2_of(word)) is Some,
{
    RegisterIndex::lemma_from_u32_valid(rd_of(word));
    RegisterIndex::lemma_from_u32_valid(rs1_of(word));
    RegisterIndex::lemma_from_u32_valid(rs2_of(word));
}

/// A word with the fields of a register-register instruction decodes by
/// its function fields.
proof fn lemma_decode_r(
    word: u32,
    funct3: u32,
    funct7: u32,
    rd: RegisterIndex,
    rs1: RegisterIndex,
    rs2: RegisterIndex,
)
    requires
        opcode_of(word) == 0x33,
        funct3_of(word) == funct3,
        funct7_of(word) == funct7,
        rd_of(word) == rd.index(),
        rs1_of(word) == rs1.index(),
        rs2_of(word) == rs2.index(),
    ensures
        decode_spec(word) == decode_register_op(funct3, funct7, rd, rs1, rs2),
{
    reveal(decode_spec);
    rd.lemma_index_round_trip();
    rs1.lemma_index_round_trip();
    rs2.lemma_index_round_trip();
}

/// A word with the fields of an instruction in the I format decodes by its
/// opcode and function field.
proof fn lemma_decode_i(
    word: u32,
    opcode: u32,
    funct3: u32,
    rd: RegisterIndex,
    rs1: RegisterIndex,
    imm: i32,
)
    requires
        opcode_of(word) == opcode,
        funct3_of(word) == funct3,
        rd_of(word) == rd.index(),
        rs1_of(word) == rs1.index(),
        imm_i(word) == imm,
    ensures
        opcode == 0x13 && funct3 != 1 && funct3 != 5 ==> decode_spec(word) == decode_immediate_op(
            funct3,
            imm,
            0,
            0,
            rd,
            rs1,
        ),
        opcode == 0x03 ==> decode_spec(word) == decode_load(funct3, imm, rd, rs1),
        opcode == 0x67 && funct3 == 0 ==> decode_spec(word) == Some(
            Instruction::Jalr { rd, rs1, imm },
        ),
{
    reveal(decode_spec);
    rd.lemma_index_round_trip();
    rs1.lemma_index_round_trip();
    lemma_register_fields(word);
}

/// A word with the fields of a shift by a constant decodes to a shift by
/// that constant.
proof fn lemma_decode_shift(
    word: u32,
    funct3: u32,
    bit30: u32,
    rd: RegisterIndex,
    rs1: RegisterIndex,
    shamt: u32,
)
    requires
        opcode_of(word) == 0x13,
        funct3_of(word) == funct3,
        funct3 == 1 || funct3 == 5,
        bit30_of(word) == bit30,
        rd_of(word) == rd.index(),
        rs1_of(word) == rs1.index(),
        rs2_of(word) == shamt,
    ensures
        decode_spec(word) == decode_immediate_op(funct3, 0, shamt, bit30, rd, rs1),
{
    reveal(decode_spec);
    rd.lemma_index_round_trip();
    rs1.lemma_index_round_trip();
    lemma_register_fields(word);
}

/// A word with the fields of a store decodes by its function field.
proof fn lemma_decode_s(word: u32, funct3: u32, rs1: RegisterIndex, rs2: RegisterIndex, imm: i32)
    requires
        opcode_of(word) == 0x23,
        funct3_of(word) == funct3,
        rs1_of(word) == rs1.index(),
        rs2_of(word) == rs2.index(),
        imm_s(word) == imm,
    ensures
        decode_spec(word) == decode_store(funct3, imm, rs1, rs2),
{
    reveal(decode_spec);
    rs1.lemma_index_round_trip();
    rs2.lemma_index_round_trip();
    lemma_register_fields(word);
}

/// A word with the fields of a branch decodes by its function field.
proof fn lemma_decode_b(word: u32, funct3: u32, rs1: RegisterIndex, rs2: RegisterIndex, imm: i32)
    requires
        opcode_of(word) == 0x63,
        funct3_of(word) == funct3,
        rs1_of(word) == rs1.index(),
        rs2_of(word) == rs2.index(),
        imm_b(word) == imm,
    ensures
        decode_spec(word) == decode_branch(funct3, imm, rs1, rs2),
{
    reveal(decode_spec);
    rs1.lemma_index_round_trip();
    rs2.lemma_index_round_trip();
    lemma_register_fields(word);
}

/// A word with the opcode of a jump, or of an upper-immediate instruction,
/// decodes to that instruction.
proof fn lemma_decode_j_u(word: u32, rd: RegisterIndex)
    requires
        rd_of(word) == rd.index(),
    ensures
        opcode_of(word) == 0x6f ==> decode_spec(word) == Some(
            Instruction::Jal { rd, imm: imm_j(word) as i32 },
        ),
        opcode_of(word) == 0x37 ==> decode_spec(word) == Some(
            Instruction::Lui { rd, imm: imm_u(word) as i32 },
        ),
        opcode_of(word) == 0x17 ==> decode_spec(word) == Some(
            Instruction::Auipc { rd, imm: imm_u(word) as i32 },
        ),
{
    reveal(decode_spec);
    rd.lemma_index_round_trip();
    lemma_register_fields(word);
}

/// A word in the R format decodes by its function fields.
proof fn lemma_word_r(
    funct3: int,
    funct7: int,
    rd: RegisterIndex,
    rs1: RegisterIndex,
    rs2: RegisterIndex,
)
    requires
        0 <= funct3 < 8,
        0 <= funct7 < 128,
    ensures
        0 <= encode_r(funct3, funct7, rd, rs1, rs2) <= u32::MAX,
        decode_spec(encode_r(funct3, funct7, rd, rs1, rs2) as u32) == decode_register_op(
            funct3 as u32,
            funct7 as u32,
            rd,
            rs1,
            rs2,
        ),
{
    rd.lemma_index_round_trip();
    rs1.lemma_index_round_trip();
    rs2.lemma_index_round_trip();
    lemma_fields_of_word(
        0x33,
        rd.index() as u32,
        funct3 as u32,
        rs1.index() as u32,
        rs2.index() as u32,
        funct7 as u32,
    );
    lemma_decode_r(
        encode_r(funct3, funct7, rd, rs1, rs2) as u32,
        funct3 as u32,
        funct7 as u32,
        rd,
        rs1,
        rs2,
    );
}

/// A word in the I format decodes by its opcode and function field, with
/// the immediate it was assembled from.
proof fn lemma_word_i(opcode: int, funct3: int, rd: RegisterIndex, rs1: RegisterIndex, imm: int)
    requires
        0 <= opcode < 128,
        0 <= funct3 < 8,
        -2048 <= imm < 2048,
    ensures
        0 <= encode_i(opcode, funct3, rd, rs1, imm) <= u32::MAX,
        ({
            let word = encode_i(opcode, funct3, rd, rs1, imm) as u32;
            &&& opcode == 0x13 && funct3 != 1 && funct3 != 5 ==> decode_spec(word)
                == decode_immediate_op(funct3 as u32, imm as i32, 0, 0, rd, rs1)
            &&& opcode == 0x03 ==> decode_spec(word) == decode_load(
                funct3 as u32,
                imm as i32,
                rd,
                rs1,
            )
            &&& opcode == 0x67 && funct3 == 0 ==> decode_spec(word) == Some(
                Instruction::Jalr { rd, rs1, imm: imm as i32 },
            )
        }),
{
    let low = imm % 4096;
    assert(low == if imm >= 0 { imm } else { imm + 4096 });
    assert(low / 2048 == if imm >= 0 { 0int } else { 1int });
    rd.lemma_index_round_trip();
    rs1.lemma_index_round_trip();
    lemma_immediate_i(
        opcode as u32,
        rd.index() as u32,
        funct3 as u32,
        rs1.index() as u32,
        low as u32,
    );
    lemma_fields_of_word(
        opcode as u32,
        rd.index() as u32,
        funct3 as u32,
        rs1.index() as u32,
        (low as u32) % 32,
        (low as u32) / 32,
    );
    lemma_decode_i(
        encode_i(opcode, funct3, rd, rs1, imm) as u32,
        opcode as u32,
        funct3 as u32,
        rd,
        rs1,
        imm as i32,
    );
}

/// The word of a shift by a constant decodes to a shift by that constant.
proof fn lemma_word_shift(
    funct3: int,
    funct7: int,
    rd: RegisterIndex,
    rs1: RegisterIndex,
    shamt: u32,
)
    requires
        funct3 == 1 || funct3 == 5,
        funct7 == 0x00 || funct7 == 0x20,
        shamt < 32,
    ensures
        0 <= encode_shift(funct3, funct7, rd, rs1, shamt) <= u32::MAX,
        decode_spec(encode_shift(funct3, funct7, rd, rs1, shamt) as u32) == decode_immediate_op(
            funct3 as u32,
            0,
            shamt,
            if funct7 == 0x20 { 1 } else { 0 },
            rd,
            rs1,
        ),
{
    rd.lemma_index_round_trip();
    rs1.lemma_index_round_trip();
    lemma_fields_of_word(
        0x13,
        rd.index() as u32,
        funct3 as u32,
        rs1.index() as u32,
        shamt,
        funct7 as u32,
    );
    lemma_decode_shift(
        encode_shift(funct3, funct7, rd, rs1, shamt) as u32,
        funct3 as u32,
        if funct7 == 0x20 { 1 } else { 0 },
        rd,
        rs1,
        shamt,
    );
}

/// A word in the S format decodes by its function field, with the immediate
/// it was assembled from.
proof fn lemma_word_s(funct3: int, rs1: RegisterIndex, rs2: RegisterIndex, imm: int)
    requires
        0 <= funct3 < 8,
        -2048 <= imm < 2048,
    ensures
        0 <= encode_s(funct3, rs1, rs2, imm) <= u32::MAX,
        decode_spec(encode_s(funct3, rs1, rs2, imm) as u32) == decode_store(
            funct3 as u32,
            imm as i32,
            rs1,
            rs2,
        ),
{
    let low = imm % 4096;
    assert(low == if imm >= 0 { imm } else { imm + 4096 });
    assert(low / 2048 == if imm >= 0 { 0int } else { 1int });
    rs1.lemma_index_round_trip();
    rs2.lemma_index_round_trip();
    lemma_immediate_s(funct3 as u32, rs1.index() as u32, rs2.index() as u32, low as u32);
    lemma_fields_of_word(
        0x23,
        (low as u32) % 32,
        funct3 as u32,
        rs1.index() as u32,
        rs2.index() as u32,
        (low as u32) / 32,
    );
    lemma_decode_s(encode_s(funct3, rs1, rs2, imm) as u32, funct3 as u32, rs1, rs2, imm as i32);
}

/// A word in the B format decodes by its function field, with the offset it
/// was assembled from.
proof fn lemma_word_b(funct3: int, rs1: RegisterIndex, rs2: RegisterIndex, imm: int)
    requires
        0 <= funct3 < 8,
        -4096 <= imm < 4096,
        imm % 2 == 0,
    ensures
        0 <= encode_b(funct3, rs1, rs2, imm) <= u32::MAX,
        decode_spec(encode_b(funct3, rs1, rs2, imm) as u32) == decode_branch(
            funct3 as u32,
            imm as i32,
            rs1,
            rs2,
        ),
{
    let low = imm % 8192;
    assert(low == if imm >= 0 { imm } else { imm + 8192 });
    assert(low / 4096 == if imm >= 0 { 0int } else { 1int });
    assert(low % 2 == 0);
    rs1.lemma_index_round_trip();
    rs2.lemma_index_round_trip();
    lemma_immediate_b(funct3 as u32, rs1.index() as u32, rs2.index() as u32, low as u32);
    lemma_decode_b(encode_b(funct3, rs1, rs2, imm) as u32, funct3 as u32, rs1, rs2, imm as i32);
}

/// A word in the J format decodes to the jump it was assembled from.
proof fn lemma_word_j(rd: RegisterIndex, imm: int)
    requires
        -0x10_0000 <= imm < 0x10_0000,
        imm % 2 == 0,
    ensures
        0 <= encode_j(rd, imm) <= u32::MAX,
        decode_spec(encode_j(rd, imm) as u32) == Some(Instruction::Jal { rd, imm: imm as i32 }),
{
    let low = imm % 0x20_0000;
    assert(low == if imm >= 0 { imm } else { imm + 0x20_0000 });
    assert(low / 0x10_0000 == if imm >= 0 { 0int } else { 1int });
    assert(low % 2 == 0);
    rd.lemma_index_round_trip();
    lemma_immediate_j(rd.index() as u32, low as u32);
    lemma_decode_j_u(encode_j(rd, imm) as u32, rd);
}

/// A word in the U format decodes by its opcode, with the immediate it was
/// assembled from.
proof fn lemma_word_u(opcode: int, rd: RegisterIndex, imm: int)
    requires
        opcode == 0x37 || opcode == 0x17,
        i32::MIN <= imm <= i32::MAX,
        imm % 4096 == 0,
    ensures
        0 <= encode_u(opcode, rd, imm) <= u32::MAX,
        ({
            let word = encode_u(opcode, rd, imm) as u32;
            &&& opcode == 0x37 ==> decode_spec(word) == Some(
                Instruction::Lui { rd, imm: imm as i32 },
            )
            &&& opcode == 0x17 ==> decode_spec(word) == Some(
                Instruction::Auipc { rd, imm: imm as i32 },
            )
        }),
{
    let low = imm % 0x1_0000_0000;
    assert(low == if imm >= 0 { imm } else { imm + 0x1_0000_0000 });
    assert(low / 0x8000_0000 == if imm >= 0 { 0int } else { 1int });
    assert(low % 4096 == 0);
    rd.lemma_index_round_trip();
    lemma_immediate_u(opcode as u32, rd.index() as u32, low as u32);
    lemma_decode_j_u(encode_u(opcode, rd, imm) as u32, rd);
}

/// Decoding undoes assembling for the register-register instructions.
#[verifier::rlimit(30)]
proof fn lemma_decode_encode_register(instr: Instruction)
    requires
        instr.spec_format() == InstructionFormat::R,
    ensures
        0 <= encode(instr) <= u32::MAX,
        decode_spec(encode(instr) as u32) == Some(instr),
{
    match instr {
        Instruction::Add { rd, rs1, rs2 } => lemma_word_r(0, 0x00, rd, rs1, rs2),
        Instruction::Sub { rd, rs1, rs2 } => lemma_word_r(0, 0x20, rd, rs1, rs2),
        Instruction::Sll { rd, rs1, rs2 } => lemma_word_r(1, 0x00, rd, rs1, rs2),
        Instruction::Slt { rd, rs1, rs2 } => lemma_word_r(2, 0x00, rd, rs1, rs2),
        Instruction::Sltu { rd, rs1, rs2 } => lemma_word_r(3, 0x00, rd, rs1, rs2),
        Instruction::Xor { rd, rs1, rs2 } => lemma_word_r(4, 0x00, rd, rs1, rs2),
        Instruction::Srl { rd, rs1, rs2 } => lemma_word_r(5, 0x00, rd, rs1, rs2),
        Instruction::Sra { rd, rs1, rs2 } => lemma_word_r(5, 0x20, rd, rs1, rs2),
        Instruction::Or { rd, rs1, rs2 } => lemma_word_r(6, 0x00, rd, rs1, rs2),
        Instruction::And { rd, rs1, rs2 } => lemma_word_r(7, 0x00, rd, rs1, rs2),
        _ => {},
    }
}

/// Decoding undoes assembling for the register-immediate instructions.
proof fn lemma_decode_encode_immediate(instr: Instruction)
    requires
        encodable(instr),
        instr is Addi || instr is Slti || instr is Sltiu || instr is Xori || instr is Ori
            || instr is Andi,
    ensures
        0 <= encode(instr) <= u32::MAX,
        decode_spec(encode(instr) as u32) == Some(instr),
{
    match instr {
        Instruction::Addi { rd, rs1, imm } => lemma_word_i(0x13, 0, rd, rs1, imm as int),
        Instruction::Slti { rd, rs1, imm } => lemma_word_i(0x13, 2, rd, rs1, imm as int),
        Instruction::Sltiu { rd, rs1, imm } => lemma_word_i(0x13, 3, rd, rs1, imm as int),
        Instruction::Xori { rd, rs1, imm } => lemma_word_i(0x13, 4, rd, rs1, imm as int),
        Instruction::Ori { rd, rs1, imm } => lemma_word_i(0x13, 6, rd, rs1, imm as int),
        Instruction::Andi { rd, rs1, imm } => lemma_word_i(0x13, 7, rd, rs1, imm as int),
        _ => {},
    }
}

/// Decoding undoes assembling for the shifts by a constant.
proof fn lemma_decode_encode_shift(instr: Instruction)
    requires
        encodable(instr),
        instr is Slli || instr is Srli || instr is Srai,
    ensures
        0 <= encode(instr) <= u32::MAX,
        decode_spec(encode(instr) as u32) == Some(instr),
{
    match instr {
        Instruction::Slli { rd, rs1, shamt } => lemma_word_shift(1, 0x00, rd, rs1, shamt),
        Instruction::Srli { rd, rs1, shamt } => lemma_word_shift(5, 0x00, rd, rs1, shamt),
        Instruction::Srai { rd, rs1, shamt } => lemma_word_shift(5, 0x20, rd, rs1, shamt),
        _ => {},
    }
}

/// Decoding undoes assembling for the loads and the indirect jump.
proof fn lemma_decode_encode_load(instr: Instruction)
    requires
        encodable(instr),
        instr is Lb || instr is Lh || instr is Lw || instr is Lbu || instr is Lhu || instr is Jalr,
    ensures
        0 <= encode(instr) <= u32::MAX,
        decode_spec(encode(instr) as u32) == Some(instr),
{
    match instr {
        Instruction::Lb { rd, rs1, imm } => lemma_word_i(0x03, 0, rd, rs1, imm as int),
        Instruction::Lh { rd, rs1, imm } => lemma_word_i(0x03, 1, rd, rs1, imm as int),
        Instruction::Lw { rd, rs1, imm } => lemma_word_i(0x03, 2, rd, rs1, imm as int),
        Instruction::Lbu { rd, rs1, imm } => lemma_word_i(0x03, 4, rd, rs1, imm as int),
        Instruction::Lhu { rd, rs1, imm } => lemma_word_i(0x03, 5, rd, rs1, imm as int),
        Instruction::Jalr { rd, rs1, imm } => lemma_word_i(0x67, 0, rd, rs1, imm as int),
        _ => {},
    }
}

/// Decoding undoes assembling for the stores.
proof fn lemma_decode_encode_store(instr: Instruction)
    requires
        encodable(instr),
        instr.spec_format() == InstructionFormat::S,
    ensures
        0 <= encode(instr) <= u32::MAX,
        decode_spec(encode(instr) as u32) == Some(instr),
{
    match instr {
        Instruction::Sb { rs1, rs2, imm } => lemma_word_s(0, rs1, rs2, imm as int),
        Instruction::Sh { rs1, rs2, imm } => lemma_word_s(1, rs1, rs2, imm as int),
        Instruction::Sw { rs1, rs2, imm } => lemma_word_s(2, rs1, rs2, imm as int),
        _ => {},
    }
}

/// Decoding undoes assembling for the branches.
proof fn lemma_decode_encode_branch(instr: Instruction)
    requires
        encodable(instr),
        instr.spec_format() == InstructionFormat::B,
    ensures
        0 <= encode(instr) <= u32::MAX,
        decode_spec(encode(instr) as u32) == Some(instr),
{
    match instr {
        Instruction::Beq { rs1, rs2, imm } => lemma_word_b(0, rs1, rs2, imm as int),
        Instruction::Bne { rs1, rs2, imm } => lemma_word_b(1, rs1, rs2, imm as int),
        Instruction::Blt { rs1, rs2, imm } => lemma_word_b(4, rs1, rs2, imm as int),
        Instruction::Bge { rs1, rs2, imm } => lemma_word_b(5, rs1, rs2, imm as int),
        Instruction::Bltu { rs1, rs2, imm } => lemma_word_b(6, rs1, rs2, imm as int),
        Instruction::Bgeu { rs1, rs2, imm } => lemma_word_b(7, rs1, rs2, imm as int),
        _ => {},
    }
}

/// Decoding undoes assembling for the direct jump, the upper-immediate
/// instructions and the traps.
proof fn lemma_decode_encode_other(instr: Instruction)
    requires
        encodable(instr),
        instr is Jal || instr is Lui || instr is Auipc || instr is Ecall || instr is Ebreak,
    ensures
        0 <= encode(instr) <= u32::MAX,
        decode_spec(encode(instr) as u32) == Some(instr),
{
    reveal(decode_spec);
    match instr {
        Instruction::Jal { rd, imm } => lemma_word_j(rd, imm as int),
        Instruction::Lui { rd, imm } => lemma_word_u(0x37, rd, imm as int),
        Instruction::Auipc { rd, imm } => lemma_word_u(0x17, rd, imm as int),
        Instruction::Ecall => lemma_register_fields(0x0000_0073),
        Instruction::Ebreak => lemma_register_fields(0x0010_0073),
        _ => {},
    }
}

/// Decoding undoes assembling: a word assembled from an instruction whose
/// operands fit its format decodes to exactly that instruction, with every
/// register, immediate and shift amount as it was.
pub proof fn lemma_decode_encode(instr: Instruction)
    requires
        encodable(instr),
    ensures
        0 <= encode(instr) <= u32::MAX,
        decode_spec(encode(instr) as u32) == Some(instr),
{
    if instr.spec_format() == InstructionFormat::R {
        lemma_decode_encode_register(instr);
    } else if instr.spec_format() == InstructionFormat::S {
        lemma_decode_encode_store(instr);
    } else if instr.spec_format() == InstructionFormat::B {
        lemma_decode_encode_branch(instr);
    } else if instr is Slli || instr is Srli || instr is Srai {
        lemma_decode_encode_shift(instr);
    } else if instr is Jal || instr is Lui || instr is Auipc || instr is Ecall || instr is Ebreak {
        lemma_decode_encode_other(instr);
    } else if instr is Lb || instr is Lh || instr is Lw || instr is Lbu || instr is Lhu
        || instr is Jalr {
        lemma_decode_encode_load(instr);
    } else {
        lemma_decode_encode_immediate(instr);
    }
}

} // verus!
