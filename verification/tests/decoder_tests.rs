//! Decoding of instruction words, format by format.

use zk_risc_v_vm::risc_v::{Decoder, Instruction, InstructionFormat, RegisterIndex};
use zk_risc_v_vm::VmError;

use RegisterIndex::{X1, X2, X3, X5, X6, X7, X8};

fn fields(opcode: u32, rd: u32, funct3: u32, rs1: u32, rs2: u32, funct7: u32) -> u32 {
    opcode | (rd << 7) | (funct3 << 12) | (rs1 << 15) | (rs2 << 20) | (funct7 << 25)
}

fn i_word(opcode: u32, rd: u32, funct3: u32, rs1: u32, imm: i32) -> u32 {
    opcode | (rd << 7) | (funct3 << 12) | (rs1 << 15) | (((imm as u32) & 0xfff) << 20)
}

fn s_word(funct3: u32, rs1: u32, rs2: u32, imm: i32) -> u32 {
    let u = (imm as u32) & 0xfff;
    fields(0x23, u & 0x1f, funct3, rs1, rs2, u >> 5)
}

fn b_word(funct3: u32, rs1: u32, rs2: u32, imm: i32) -> u32 {
    let u = (imm as u32) & 0x1fff;
    let rd = ((u >> 11) & 1) | (((u >> 1) & 0xf) << 1);
    let funct7 = ((u >> 5) & 0x3f) | ((u >> 12) << 6);
    fields(0x63, rd, funct3, rs1, rs2, funct7)
}

fn j_word(rd: u32, imm: i32) -> u32 {
    let u = (imm as u32) & 0x1f_ffff;
    0x6f | (rd << 7)
        | (((u >> 12) & 0xff) << 12)
        | (((u >> 11) & 1) << 20)
        | (((u >> 1) & 0x3ff) << 21)
        | ((u >> 20) << 31)
}

fn decoded(word: u32) -> Instruction {
    match Decoder::decode(word) {
        Ok(instruction) => instruction,
        Err(error) => panic!("{:08x} does not decode: {:?}", word, error),
    }
}

fn rejected(word: u32) -> bool {
    matches!(Decoder::decode(word), Err(VmError::InvalidInstruction(w)) if w == word)
}

#[test]
fn decode_register_format() {
    let (rd, rs1, rs2) = (X3, X1, X2);
    assert_eq!(decoded(0x002081b3), Instruction::Add { rd, rs1, rs2 });
    assert_eq!(decoded(fields(0x33, 3, 0, 1, 2, 0x00)), Instruction::Add { rd, rs1, rs2 });
    assert_eq!(decoded(fields(0x33, 3, 0, 1, 2, 0x20)), Instruction::Sub { rd, rs1, rs2 });
    assert_eq!(decoded(fields(0x33, 3, 1, 1, 2, 0x00)), Instruction::Sll { rd, rs1, rs2 });
    assert_eq!(decoded(fields(0x33, 3, 2, 1, 2, 0x00)), Instruction::Slt { rd, rs1, rs2 });
    assert_eq!(decoded(fields(0x33, 3, 3, 1, 2, 0x00)), Instruction::Sltu { rd, rs1, rs2 });
    assert_eq!(decoded(fields(0x33, 3, 4, 1, 2, 0x00)), Instruction::Xor { rd, rs1, rs2 });
    assert_eq!(decoded(fields(0x33, 3, 5, 1, 2, 0x00)), Instruction::Srl { rd, rs1, rs2 });
    assert_eq!(decoded(fields(0x33, 3, 5, 1, 2, 0x20)), Instruction::Sra { rd, rs1, rs2 });
    assert_eq!(decoded(fields(0x33, 3, 6, 1, 2, 0x00)), Instruction::Or { rd, rs1, rs2 });
    assert_eq!(decoded(fields(0x33, 3, 7, 1, 2, 0x00)), Instruction::And { rd, rs1, rs2 });
}

#[test]
fn decode_register_fields_at_their_limits() {
    assert_eq!(
        decoded(fields(0x33, 31, 0, 31, 31, 0)),
        Instruction::Add {
            rd: RegisterIndex::X31,
            rs1: RegisterIndex::X31,
            rs2: RegisterIndex::X31
        }
    );
    assert_eq!(
        decoded(fields(0x33, 0, 0, 0, 0, 0)),
        Instruction::Add { rd: RegisterIndex::X0, rs1: RegisterIndex::X0, rs2: RegisterIndex::X0 }
    );
    assert_eq!(
        decoded(fields(0x33, 17, 0, 10, 12, 0)),
        Instruction::Add {
            rd: RegisterIndex::X17,
            rs1: RegisterIndex::X10,
            rs2: RegisterIndex::X12
        }
    );
}

#[test]
fn decode_register_format_rejects_other_functions() {
    // funct7 = 1 is the multiply extension
    assert!(rejected(fields(0x33, 3, 0, 1, 2, 0x01)));
    assert!(rejected(fields(0x33, 3, 1, 1, 2, 0x20)));
    assert!(rejected(fields(0x33, 3, 7, 1, 2, 0x20)));
    assert!(rejected(fields(0x33, 3, 0, 1, 2, 0x7f)));
}

#[test]
fn decode_immediate_format() {
    let (rd, rs1) = (X5, X6);
    assert_eq!(decoded(0xfff30293), Instruction::Addi { rd, rs1, imm: -1 });
    assert_eq!(decoded(i_word(0x13, 5, 0, 6, 2047)), Instruction::Addi { rd, rs1, imm: 2047 });
    assert_eq!(decoded(i_word(0x13, 5, 0, 6, -2048)), Instruction::Addi { rd, rs1, imm: -2048 });
    assert_eq!(decoded(i_word(0x13, 5, 2, 6, -7)), Instruction::Slti { rd, rs1, imm: -7 });
    assert_eq!(decoded(i_word(0x13, 5, 3, 6, 7)), Instruction::Sltiu { rd, rs1, imm: 7 });
    assert_eq!(decoded(i_word(0x13, 5, 4, 6, 0x555)), Instruction::Xori { rd, rs1, imm: 0x555 });
    assert_eq!(decoded(i_word(0x13, 5, 6, 6, -1366)), Instruction::Ori { rd, rs1, imm: -1366 });
    assert_eq!(decoded(i_word(0x13, 5, 7, 6, 0xff)), Instruction::Andi { rd, rs1, imm: 0xff });
}

#[test]
fn decode_shifts_by_a_constant() {
    let (rd, rs1) = (X5, X6);
    assert_eq!(decoded(fields(0x13, 5, 1, 6, 31, 0x00)), Instruction::Slli { rd, rs1, shamt: 31 });
    assert_eq!(decoded(fields(0x13, 5, 1, 6, 0, 0x00)), Instruction::Slli { rd, rs1, shamt: 0 });
    assert_eq!(decoded(fields(0x13, 5, 5, 6, 4, 0x00)), Instruction::Srli { rd, rs1, shamt: 4 });
    assert_eq!(decoded(fields(0x13, 5, 5, 6, 4, 0x20)), Instruction::Srai { rd, rs1, shamt: 4 });
}

#[test]
fn decode_right_shift_goes_by_bit_30_alone() {
    let (rd, rs1) = (X5, X6);
    assert_eq!(decoded(fields(0x13, 5, 5, 6, 4, 0x1f)), Instruction::Srli { rd, rs1, shamt: 4 });
    assert_eq!(decoded(fields(0x13, 5, 5, 6, 4, 0x60)), Instruction::Srai { rd, rs1, shamt: 4 });
    assert_eq!(decoded(fields(0x13, 5, 1, 6, 4, 0x7f)), Instruction::Slli { rd, rs1, shamt: 4 });
}

#[test]
fn decode_loads() {
    let (rd, rs1) = (X7, X8);
    assert_eq!(decoded(i_word(0x03, 7, 0, 8, -4)), Instruction::Lb { rd, rs1, imm: -4 });
    assert_eq!(decoded(i_word(0x03, 7, 1, 8, 6)), Instruction::Lh { rd, rs1, imm: 6 });
    assert_eq!(decoded(i_word(0x03, 7, 2, 8, 8)), Instruction::Lw { rd, rs1, imm: 8 });
    assert_eq!(decoded(i_word(0x03, 7, 4, 8, 1)), Instruction::Lbu { rd, rs1, imm: 1 });
    assert_eq!(decoded(i_word(0x03, 7, 5, 8, 2)), Instruction::Lhu { rd, rs1, imm: 2 });
    assert!(rejected(i_word(0x03, 7, 3, 8, 0)));
    assert!(rejected(i_word(0x03, 7, 6, 8, 0)));
    assert!(rejected(i_word(0x03, 7, 7, 8, 0)));
}

#[test]
fn decode_stores() {
    let (rs1, rs2) = (X1, X2);
    assert_eq!(decoded(0x0020a423), Instruction::Sw { rs1, rs2, imm: 8 });
    assert_eq!(decoded(s_word(0, 1, 2, 0)), Instruction::Sb { rs1, rs2, imm: 0 });
    assert_eq!(decoded(s_word(1, 1, 2, 33)), Instruction::Sh { rs1, rs2, imm: 33 });
    assert_eq!(decoded(s_word(2, 1, 2, -4)), Instruction::Sw { rs1, rs2, imm: -4 });
    assert_eq!(decoded(s_word(2, 1, 2, 2047)), Instruction::Sw { rs1, rs2, imm: 2047 });
    assert_eq!(decoded(s_word(2, 1, 2, -2048)), Instruction::Sw { rs1, rs2, imm: -2048 });
    assert!(rejected(s_word(3, 1, 2, 0)));
    assert!(rejected(s_word(7, 1, 2, 0)));
}

#[test]
fn decode_branches() {
    let (rs1, rs2) = (X1, X2);
    // beq x1, x2, 16
    assert_eq!(decoded(0x00208863), Instruction::Beq { rs1, rs2, imm: 16 });
    assert_eq!(decoded(b_word(0, 1, 2, 16)), Instruction::Beq { rs1, rs2, imm: 16 });
    assert_eq!(decoded(b_word(1, 1, 2, -8)), Instruction::Bne { rs1, rs2, imm: -8 });
    assert_eq!(decoded(b_word(4, 1, 2, 2048)), Instruction::Blt { rs1, rs2, imm: 2048 });
    assert_eq!(decoded(b_word(5, 1, 2, 4094)), Instruction::Bge { rs1, rs2, imm: 4094 });
    assert_eq!(decoded(b_word(6, 1, 2, -4096)), Instruction::Bltu { rs1, rs2, imm: -4096 });
    assert_eq!(decoded(b_word(7, 1, 2, -2)), Instruction::Bgeu { rs1, rs2, imm: -2 });
    assert!(rejected(b_word(2, 1, 2, 16)));
    assert!(rejected(b_word(3, 1, 2, 16)));
}

#[test]
fn decode_jumps() {
    // jal x1, 2048
    assert_eq!(decoded(0x001000ef), Instruction::Jal { rd: X1, imm: 2048 });
    assert_eq!(decoded(j_word(1, 2048)), Instruction::Jal { rd: X1, imm: 2048 });
    assert_eq!(decoded(j_word(1, -4)), Instruction::Jal { rd: X1, imm: -4 });
    assert_eq!(decoded(j_word(1, 0xf_fffe)), Instruction::Jal { rd: X1, imm: 0xf_fffe });
    assert_eq!(decoded(j_word(1, -0x10_0000)), Instruction::Jal { rd: X1, imm: -0x10_0000 });
    assert_eq!(decoded(j_word(1, 0x12344)), Instruction::Jal { rd: X1, imm: 0x12344 });
    assert_eq!(decoded(i_word(0x67, 1, 0, 5, -6)), Instruction::Jalr { rd: X1, rs1: X5, imm: -6 });
    assert!(rejected(i_word(0x67, 1, 1, 5, 0)));
}

#[test]
fn decode_upper_immediates() {
    assert_eq!(decoded(0x123452b7), Instruction::Lui { rd: X5, imm: 0x12345000 });
    assert_eq!(decoded(0xfffff2b7), Instruction::Lui { rd: X5, imm: -4096 });
    assert_eq!(decoded(0x800002b7), Instruction::Lui { rd: X5, imm: i32::MIN });
    assert_eq!(decoded(0x00001297), Instruction::Auipc { rd: X5, imm: 4096 });
    assert_eq!(decoded(0x00000297), Instruction::Auipc { rd: X5, imm: 0 });
}

#[test]
fn decode_traps_by_their_exact_words() {
    assert_eq!(decoded(0x00000073), Instruction::Ecall);
    assert_eq!(decoded(0x00100073), Instruction::Ebreak);
    assert!(rejected(0x00200073));
    assert!(rejected(0x000000f3)); // rd = 1
    assert!(rejected(0x00008073)); // rs1 = 1
    assert!(rejected(0x00001073)); // funct3 = 1
    assert!(rejected(0x80000073));
}

#[test]
fn decode_rejects_unknown_opcodes() {
    assert!(rejected(0x00000000));
    assert!(rejected(0xffffffff));
    assert!(rejected(0x0000000f)); // fence
    assert!(rejected(0x02a00092)); // the word of an addi with bit 0 cleared
    assert!(rejected(0x0000007f));
}

#[test]
fn decode_error_carries_the_word() {
    match Decoder::decode(0xdeadbeff) {
        Err(VmError::InvalidInstruction(word)) => assert_eq!(word, 0xdeadbeff),
        other => panic!("expected an invalid instruction, got {:?}", other),
    }
}

#[test]
fn format_of_each_kind() {
    assert_eq!(Instruction::Add { rd: X1, rs1: X2, rs2: X3 }.format(), InstructionFormat::R);
    assert_eq!(Instruction::Sra { rd: X1, rs1: X2, rs2: X3 }.format(), InstructionFormat::R);
    assert_eq!(Instruction::Addi { rd: X1, rs1: X2, imm: 1 }.format(), InstructionFormat::I);
    assert_eq!(Instruction::Slli { rd: X1, rs1: X2, shamt: 1 }.format(), InstructionFormat::I);
    assert_eq!(Instruction::Lw { rd: X1, rs1: X2, imm: 1 }.format(), InstructionFormat::I);
    assert_eq!(Instruction::Jalr { rd: X1, rs1: X2, imm: 1 }.format(), InstructionFormat::I);
    assert_eq!(Instruction::Sw { rs1: X1, rs2: X2, imm: 1 }.format(), InstructionFormat::S);
    assert_eq!(Instruction::Bgeu { rs1: X1, rs2: X2, imm: 2 }.format(), InstructionFormat::B);
    assert_eq!(Instruction::Lui { rd: X1, imm: 4096 }.format(), InstructionFormat::U);
    assert_eq!(Instruction::Auipc { rd: X1, imm: 4096 }.format(), InstructionFormat::U);
    assert_eq!(Instruction::Jal { rd: X1, imm: 2 }.format(), InstructionFormat::J);
    assert_eq!(Instruction::Ecall.format(), InstructionFormat::I);
    assert_eq!(Instruction::Ebreak.format(), InstructionFormat::I);
}
