//! The execution of instructions.

use vstd::prelude::*;
use vstd::arithmetic::div_mod::{
    lemma_fundamental_div_mod, lemma_fundamental_div_mod_converse, lemma_mod_bound,
};
use vstd::arithmetic::power2::{lemma_pow2_pos, pow2};
use vstd::bits::lemma_u32_shr_is_div;
use vstd::pervasive::unreached;
use crate::risc_v::decoder::Decoder;
use crate::risc_v::instructions::{Instruction, InstructionFormat};
use crate::utils::error::VmError;
use crate::vm::cpu::{wrapping_sum, CpuState};
use crate::vm::memory::{write_bytes, Memory};
use crate::vm::messages::breakpoint;
use crate::vm::semantics::{
    clear_lowest_bit, cycle_spec, execute_spec, pending_write_spec, shift_right_arithmetic,
    sign_extend_byte, sign_extend_half, signed, wrap,
};
use crate::vm::syscalls::{machine_view, realizes, HostWrite, SyscallHandler};

verus! {

/// An immediate as the word with the same bits.
fn unsigned(imm: i32) -> (word: u32)
    ensures
        word == wrap(imm as int),
{
    reveal(wrapping_sum);
    let word = imm as u32;
    assert((imm as u32) as int == if imm < 0 {
        imm as int + 0x1_0000_0000
    } else {
        imm as int
    }) by (bit_vector);
    word
}

/// A word as the two's complement number with the same bits.
fn to_signed(word: u32) -> (value: i32)
    ensures
        value == signed(word),
{
    let value = word as i32;
    assert((word as i32) as int == if word >= 0x8000_0000u32 {
        word as int - 0x1_0000_0000
    } else {
        word as int
    }) by (bit_vector);
    value
}

/// The sum of a word and an immediate, modulo 2^32.
fn offset(base: u32, imm: i32) -> (sum: u32)
    ensures
        sum == wrapping_sum(base as int, imm as int),
{
    reveal(wrapping_sum);
    base.wrapping_add(unsigned(imm))
}

/// The sum of two words, modulo 2^32.
fn sum(a: u32, b: u32) -> (total: u32)
    ensures
        total == wrapping_sum(a as int, b as int),
{
    reveal(wrapping_sum);
    a.wrapping_add(b)
}

/// The difference of two words, modulo 2^32.
fn difference(a: u32, b: u32) -> (rest: u32)
    ensures
        rest == wrap(a - b),
{
    reveal(wrapping_sum);
    a.wrapping_sub(b)
}

/// The low five bits of a shift amount.
fn shift_amount(amount: u32) -> (low: u32)
    ensures
        low == amount % 32,
        low < 32,
{
    let low = amount & 0x1f;
    assert(amount & 0x1f == amount % 32) by (bit_vector);
    low
}

/// Shifting the bits of a two's complement number right with its sign is
/// dividing the number by a power of two and rounding down.
proof fn lemma_arithmetic_shift(word: u32, amount: u32)
    requires
        amount < 32,
    ensures
        ((word as i32) >> amount) as u32 == shift_right_arithmetic(word, amount),
{
    reveal(wrapping_sum);
    let d = pow2(amount as nat) as int;
    lemma_pow2_pos(amount as nat);
    if word < 0x8000_0000 {
        assert(((word as i32) >> amount) as u32 == word >> amount) by (bit_vector)
            requires
                word < 0x8000_0000u32,
                amount < 32,
        ;
        lemma_u32_shr_is_div(word, amount);
    } else {
        let rest: u32 = !word;
        let q: u32 = rest >> amount;
        assert(((word as i32) >> amount) as u32 == !((!word) >> amount)) by (bit_vector)
            requires
                word >= 0x8000_0000u32,
                amount < 32,
        ;
        assert(!word == 0xFFFF_FFFFu32 - word) by (bit_vector);
        assert(!q == 0xFFFF_FFFFu32 - q) by (bit_vector);
        lemma_u32_shr_is_div(rest, amount);
        // With rest = q * d + r, the number -(rest + 1) is (-q - 1) * d + (d - 1 - r)
        lemma_fundamental_div_mod(rest as int, d);
        lemma_mod_bound(rest as int, d);
        assert((-q - 1) * d == -(q * d) - d) by (nonlinear_arith);
        assert(d * q == q * d) by (nonlinear_arith);
        lemma_fundamental_div_mod_converse(signed(word), d, -q - 1, d - 1 - rest as int % d);
    }
}

/// A right shift that copies the sign bit.
fn arithmetic_shift(word: u32, amount: u32) -> (shifted: u32)
    requires
        amount < 32,
    ensures
        shifted == shift_right_arithmetic(word, amount),
{
    proof {
        lemma_arithmetic_shift(word, amount);
    }
    ((word as i32) >> amount) as u32
}

/// A loaded byte widened with its sign.
fn extend_byte(byte: u8) -> (word: u32)
    ensures
        word == sign_extend_byte(byte),
{
    reveal(wrapping_sum);
    let word = byte as i8 as i32 as u32;
    assert((((byte as i8) as i32) as u32) as int == if byte >= 0x80u8 {
        byte as int - 0x100 + 0x1_0000_0000
    } else {
        byte as int
    }) by (bit_vector);
    word
}

/// A loaded halfword widened with its sign.
fn extend_half(half: u16) -> (word: u32)
    ensures
        word == sign_extend_half(half),
{
    reveal(wrapping_sum);
    let word = half as i16 as i32 as u32;
    assert((((half as i16) as i32) as u32) as int == if half >= 0x8000u16 {
        half as int - 0x1_0000 + 0x1_0000_0000
    } else {
        half as int
    }) by (bit_vector);
    word
}

/// The low byte and the low halfword of a word.
fn low_parts(word: u32) -> (parts: (u8, u16))
    ensures
        parts.0 == word % 0x100,
        parts.1 == word % 0x1_0000,
{
    let byte = word as u8;
    let half = word as u16;
    assert((word as u8) as int == word % 0x100 && (word as u16) as int == word % 0x1_0000)
        by (bit_vector);
    (byte, half)
}

/// A jump target made even.
fn even_target(target: u32) -> (even: u32)
    ensures
        even == clear_lowest_bit(target),
{
    let even = target & !1;
    assert((target & !1u32) as int == target - target % 2) by (bit_vector);
    even
}

/// The instruction executor.
pub struct Executor;

impl Executor {
    /// Executes a register-register instruction.
    fn execute_register(
        instruction: &Instruction,
        cpu: &mut CpuState,
        memory: &mut Memory,
        output: &mut Vec<HostWrite>,
    ) -> (r: Result<bool, VmError>)
        requires
            old(cpu).cycles < u64::MAX || execute_spec(
                *instruction,
                machine_view(*old(cpu), *old(memory), *old(output)),
            ).next.cpu.cycles == old(cpu).cycles,
            instruction.spec_format() == InstructionFormat::R,
        ensures
            realizes(
                *final(cpu),
                *final(memory),
                *final(output),
                r,
                execute_spec(*instruction, machine_view(*old(cpu), *old(memory), *old(output))),
            ),
    {
        reveal(execute_spec);
        match instruction {
            Instruction::Add { rd, rs1, rs2 } => {
                let val1 = cpu.read_register(*rs1);
                let val2 = cpu.read_register(*rs2);
                cpu.write_register(*rd, sum(val1, val2));
            },
            Instruction::Sub { rd, rs1, rs2 } => {
                let val1 = cpu.read_register(*rs1);
                let val2 = cpu.read_register(*rs2);
                cpu.write_register(*rd, difference(val1, val2));
            },
            Instruction::Slt { rd, rs1, rs2 } => {
                let val1 = to_signed(cpu.read_register(*rs1));
                let val2 = to_signed(cpu.read_register(*rs2));
                cpu.write_register(*rd, if val1 < val2 { 1 } else { 0 });
            },
            Instruction::Sltu { rd, rs1, rs2 } => {
                let val1 = cpu.read_register(*rs1);
                let val2 = cpu.read_register(*rs2);
                cpu.write_register(*rd, if val1 < val2 { 1 } else { 0 });
            },
            Instruction::And { rd, rs1, rs2 } => {
                let val1 = cpu.read_register(*rs1);
                let val2 = cpu.read_register(*rs2);
                cpu.write_register(*rd, val1 & val2);
            },
            Instruction::Or { rd, rs1, rs2 } => {
                let val1 = cpu.read_register(*rs1);
                let val2 = cpu.read_register(*rs2);
                cpu.write_register(*rd, val1 | val2);
            },
            Instruction::Xor { rd, rs1, rs2 } => {
                let val1 = cpu.read_register(*rs1);
                let val2 = cpu.read_register(*rs2);
                cpu.write_register(*rd, val1 ^ val2);
            },
            Instruction::Sll { rd, rs1, rs2 } => {
                let val1 = cpu.read_register(*rs1);
                let shift = shift_amount(cpu.read_register(*rs2));
                cpu.write_register(*rd, val1 << shift);
            },
            Instruction::Srl { rd, rs1, rs2 } => {
                let val1 = cpu.read_register(*rs1);
                let shift = shift_amount(cpu.read_register(*rs2));
                cpu.write_register(*rd, val1 >> shift);
            },
            Instruction::Sra { rd, rs1, rs2 } => {
                let val1 = cpu.read_register(*rs1);
                let shift = shift_amount(cpu.read_register(*rs2));
                cpu.write_register(*rd, arithmetic_shift(val1, shift));
            },
            _ => unreached(),
        }
        // The instruction is done: on to the next one
        cpu.increment_pc();
        Ok(false)
    }

    /// Executes a register-immediate instruction.
    fn execute_immediate(
        instruction: &Instruction,
        cpu: &mut CpuState,
        memory: &mut Memory,
        output: &mut Vec<HostWrite>,
    ) -> (r: Result<bool, VmError>)
        requires
            old(cpu).cycles < u64::MAX || execute_spec(
                *instruction,
                machine_view(*old(cpu), *old(memory), *old(output)),
            ).next.cpu.cycles == old(cpu).cycles,
            *instruction is Addi || *instruction is Slti || *instruction is Sltiu ||
                *instruction is Andi || *instruction is Ori || *instruction is Xori ||
                *instruction is Slli || *instruction is Srli || *instruction is Srai ||
                *instruction is Lui || *instruction is Auipc,
        ensures
            realizes(
                *final(cpu),
                *final(memory),
                *final(output),
                r,
                execute_spec(*instruction, machine_view(*old(cpu), *old(memory), *old(output))),
            ),
    {
        reveal(execute_spec);
        match instruction {
            Instruction::Addi { rd, rs1, imm } => {
                let val = cpu.read_register(*rs1);
                cpu.write_register(*rd, offset(val, *imm));
            },
            Instruction::Slti { rd, rs1, imm } => {
                let val = to_signed(cpu.read_register(*rs1));
                cpu.write_register(*rd, if val < *imm { 1 } else { 0 });
            },
            Instruction::Sltiu { rd, rs1, imm } => {
                let val = cpu.read_register(*rs1);
                cpu.write_register(*rd, if val < unsigned(*imm) { 1 } else { 0 });
            },
            Instruction::Andi { rd, rs1, imm } => {
                let val = cpu.read_register(*rs1);
                cpu.write_register(*rd, val & unsigned(*imm));
            },
            Instruction::Ori { rd, rs1, imm } => {
                let val = cpu.read_register(*rs1);
                cpu.write_register(*rd, val | unsigned(*imm));
            },
            Instruction::Xori { rd, rs1, imm } => {
                let val = cpu.read_register(*rs1);
                cpu.write_register(*rd, val ^ unsigned(*imm));
            },
            Instruction::Slli { rd, rs1, shamt } => {
                let val = cpu.read_register(*rs1);
                cpu.write_register(*rd, val << shift_amount(*shamt));
            },
            Instruction::Srli { rd, rs1, shamt } => {
                let val = cpu.read_register(*rs1);
                cpu.write_register(*rd, val >> shift_amount(*shamt));
            },
            Instruction::Srai { rd, rs1, shamt } => {
                let val = cpu.read_register(*rs1);
                cpu.write_register(*rd, arithmetic_shift(val, shift_amount(*shamt)));
            },
            Instruction::Lui { rd, imm } => {
                cpu.write_register(*rd, unsigned(*imm));
            },
            Instruction::Auipc { rd, imm } => {
                let pc = cpu.get_pc();
                cpu.write_register(*rd, offset(pc, *imm));
            },
            _ => unreached(),
        }
        // The instruction is done: on to the next one
        cpu.increment_pc();
        Ok(false)
    }

    /// Executes a load.
    fn execute_load(
        instruction: &Instruction,
        cpu: &mut CpuState,
        memory: &mut Memory,
        output: &mut Vec<HostWrite>,
    ) -> (r: Result<bool, VmError>)
        requires
            old(cpu).cycles < u64::MAX || execute_spec(
                *instruction,
                machine_view(*old(cpu), *old(memory), *old(output)),
            ).next.cpu.cycles == old(cpu).cycles,
            *instruction is Lb || *instruction is Lh || *instruction is Lw || *instruction is Lbu ||
                *instruction is Lhu,
        ensures
            realizes(
                *final(cpu),
                *final(memory),
                *final(output),
                r,
                execute_spec(*instruction, machine_view(*old(cpu), *old(memory), *old(output))),
            ),
    {
        reveal(execute_spec);
        match instruction {
            Instruction::Lb { rd, rs1, imm } => {
                let addr = offset(cpu.read_register(*rs1), *imm);
                let val = match memory.load_byte(addr) {
                    Ok(byte) => extend_byte(byte),
                    Err(error) => {
                        return Err(error);
                    },
                };
                cpu.write_register(*rd, val);
            },
            Instruction::Lh { rd, rs1, imm } => {
                let addr = offset(cpu.read_register(*rs1), *imm);
                let val = match memory.load_halfword(addr) {
                    Ok(half) => extend_half(half),
                    Err(error) => {
                        return Err(error);
                    },
                };
                cpu.write_register(*rd, val);
            },
            Instruction::Lw { rd, rs1, imm } => {
                let addr = offset(cpu.read_register(*rs1), *imm);
                let val = match memory.load_word(addr) {
                    Ok(word) => word,
                    Err(error) => {
                        return Err(error);
                    },
                };
                cpu.write_register(*rd, val);
            },
            Instruction::Lbu { rd, rs1, imm } => {
                let addr = offset(cpu.read_register(*rs1), *imm);
                let val = match memory.load_byte(addr) {
                    Ok(byte) => byte as u32,
                    Err(error) => {
                        return Err(error);
                    },
                };
                cpu.write_register(*rd, val);
            },
            Instruction::Lhu { rd, rs1, imm } => {
                let addr = offset(cpu.read_register(*rs1), *imm);
                let val = match memory.load_halfword(addr) {
                    Ok(half) => half as u32,
                    Err(error) => {
                        return Err(error);
                    },
                };
                cpu.write_register(*rd, val);
            },
            _ => unreached(),
        }
        // The instruction is done: on to the next one
        cpu.increment_pc();
        Ok(false)
    }

    /// Executes a store.
    fn execute_store(
        instruction: &Instruction,
        cpu: &mut CpuState,
        memory: &mut Memory,
        output: &mut Vec<HostWrite>,
    ) -> (r: Result<bool, VmError>)
        requires
            old(cpu).cycles < u64::MAX || execute_spec(
                *instruction,
                machine_view(*old(cpu), *old(memory), *old(output)),
            ).next.cpu.cycles == old(cpu).cycles,
            instruction.spec_format() == InstructionFormat::S,
        ensures
            realizes(
                *final(cpu),
                *final(memory),
                *final(output),
                r,
                execute_spec(*instruction, machine_view(*old(cpu), *old(memory), *old(output))),
            ),
    {
        reveal(execute_spec);
        match instruction {
            Instruction::Sb { rs1, rs2, imm } => {
                let addr = offset(cpu.read_register(*rs1), *imm);
                let val = low_parts(cpu.read_register(*rs2)).0;
                match memory.store_byte(addr, val) {
                    Ok(()) => {},
                    Err(error) => {
                        return Err(error);
                    },
                }
                assert(memory@ =~= write_bytes(old(memory)@, addr as int, seq![val]));
            },
            Instruction::Sh { rs1, rs2, imm } => {
                let addr = offset(cpu.read_register(*rs1), *imm);
                let val = low_parts(cpu.read_register(*rs2)).1;
                match memory.store_halfword(addr, val) {
                    Ok(()) => {},
                    Err(error) => {
                        return Err(error);
                    },
                }
            },
            Instruction::Sw { rs1, rs2, imm } => {
                let addr = offset(cpu.read_register(*rs1), *imm);
                let val = cpu.read_register(*rs2);
                match memory.store_word(addr, val) {
                    Ok(()) => {},
                    Err(error) => {
                        return Err(error);
                    },
                }
            },
            _ => unreached(),
        }
        // The instruction is done: on to the next one
        cpu.increment_pc();
        Ok(false)
    }

    /// Executes a branch.
    fn execute_branch(
        instruction: &Instruction,
        cpu: &mut CpuState,
        memory: &mut Memory,
        output: &mut Vec<HostWrite>,
    ) -> (r: Result<bool, VmError>)
        requires
            old(cpu).cycles < u64::MAX || execute_spec(
                *instruction,
                machine_view(*old(cpu), *old(memory), *old(output)),
            ).next.cpu.cycles == old(cpu).cycles,
            instruction.spec_format() == InstructionFormat::B,
        ensures
            realizes(
                *final(cpu),
                *final(memory),
                *final(output),
                r,
                execute_spec(*instruction, machine_view(*old(cpu), *old(memory), *old(output))),
            ),
    {
        reveal(execute_spec);
        match instruction {
            Instruction::Beq { rs1, rs2, imm } => {
                let val1 = cpu.read_register(*rs1);
                let val2 = cpu.read_register(*rs2);
                if val1 == val2 {
                    cpu.set_pc(offset(cpu.get_pc(), *imm));
                    return Ok(false);
                }
            },
            Instruction::Bne { rs1, rs2, imm } => {
                let val1 = cpu.read_register(*rs1);
                let val2 = cpu.read_register(*rs2);
                if val1 != val2 {
                    cpu.set_pc(offset(cpu.get_pc(), *imm));
                    return Ok(false);
                }
            },
            Instruction::Blt { rs1, rs2, imm } => {
                let val1 = to_signed(cpu.read_register(*rs1));
                let val2 = to_signed(cpu.read_register(*rs2));
                if val1 < val2 {
                    cpu.set_pc(offset(cpu.get_pc(), *imm));
                    return Ok(false);
                }
            },
            Instruction::Bge { rs1, rs2, imm } => {
                let val1 = to_signed(cpu.read_register(*rs1));
                let val2 = to_signed(cpu.read_register(*rs2));
                if val1 >= val2 {
                    cpu.set_pc(offset(cpu.get_pc(), *imm));
                    return Ok(false);
                }
            },
            Instruction::Bltu { rs1, rs2, imm } => {
                let val1 = cpu.read_register(*rs1);
                let val2 = cpu.read_register(*rs2);
                if val1 < val2 {
                    cpu.set_pc(offset(cpu.get_pc(), *imm));
                    return Ok(false);
                }
            },
            Instruction::Bgeu { rs1, rs2, imm } => {
                let val1 = cpu.read_register(*rs1);
                let val2 = cpu.read_register(*rs2);
                if val1 >= val2 {
                    cpu.set_pc(offset(cpu.get_pc(), *imm));
                    return Ok(false);
                }
            },
            _ => unreached(),
        }
        // The instruction is done: on to the next one
        cpu.increment_pc();
        Ok(false)
    }

    /// Executes a jump.
    fn execute_jump(
        instruction: &Instruction,
        cpu: &mut CpuState,
        memory: &mut Memory,
        output: &mut Vec<HostWrite>,
    ) -> (r: Result<bool, VmError>)
        requires
            old(cpu).cycles < u64::MAX || execute_spec(
                *instruction,
                machine_view(*old(cpu), *old(memory), *old(output)),
            ).next.cpu.cycles == old(cpu).cycles,
            *instruction is Jal || *instruction is Jalr,
        ensures
            realizes(
                *final(cpu),
                *final(memory),
                *final(output),
                r,
                execute_spec(*instruction, machine_view(*old(cpu), *old(memory), *old(output))),
            ),
    {
        reveal(execute_spec);
        match instruction {
            Instruction::Jal { rd, imm } => {
                let pc = cpu.get_pc();
                cpu.write_register(*rd, offset(pc, 4));
                cpu.set_pc(offset(pc, *imm));
                return Ok(false);
            },
            Instruction::Jalr { rd, rs1, imm } => {
                let target = even_target(offset(cpu.read_register(*rs1), *imm));
                let pc = cpu.get_pc();
                cpu.write_register(*rd, offset(pc, 4));
                cpu.set_pc(target);
                return Ok(false);
            },
            _ => unreached(),
        }
    }

    /// Executes one instruction on the processor and the memory, and returns
    /// whether the program has asked to exit.
    ///
    /// Arithmetic is modulo 2^32. Unless the instruction is a taken branch,
    /// a jump or a trap, the program counter then moves on by 4 and one cycle
    /// is counted. A failing instruction leaves everything as it was. What a
    /// system call writes for the host is appended to `output`.
    ///
    /// The cycle counter must have room for the cycle, unless the instruction
    /// counts none: a system call, a breakpoint, a load or a store outside
    /// the memory.
    pub fn execute_instruction(
        instruction: &Instruction,
        cpu: &mut CpuState,
        memory: &mut Memory,
        output: &mut Vec<HostWrite>,
    ) -> (r: Result<bool, VmError>)
        requires
            old(cpu).cycles < u64::MAX || execute_spec(
                *instruction,
                machine_view(*old(cpu), *old(memory), *old(output)),
            ).next.cpu.cycles == old(cpu).cycles,
        ensures
            realizes(
                *final(cpu),
                *final(memory),
                *final(output),
                r,
                execute_spec(*instruction, machine_view(*old(cpu), *old(memory), *old(output))),
            ),
    {
        reveal(execute_spec);
        match instruction {
            Instruction::Add { .. }
            | Instruction::Sub { .. }
            | Instruction::Slt { .. }
            | Instruction::Sltu { .. }
            | Instruction::And { .. }
            | Instruction::Or { .. }
            | Instruction::Xor { .. }
            | Instruction::Sll { .. }
            | Instruction::Srl { .. }
            | Instruction::Sra { .. } => Self::execute_register(instruction, cpu, memory, output),
            Instruction::Addi { .. }
            | Instruction::Slti { .. }
            | Instruction::Sltiu { .. }
            | Instruction::Andi { .. }
            | Instruction::Ori { .. }
            | Instruction::Xori { .. }
            | Instruction::Slli { .. }
            | Instruction::Srli { .. }
            | Instruction::Srai { .. }
            | Instruction::Lui { .. }
            | Instruction::Auipc { .. } => {
                Self::execute_immediate(instruction, cpu, memory, output)
            },
            Instruction::Lb { .. }
            | Instruction::Lh { .. }
            | Instruction::Lw { .. }
            | Instruction::Lbu { .. }
            | Instruction::Lhu { .. } => Self::execute_load(instruction, cpu, memory, output),
            Instruction::Sb { .. }
            | Instruction::Sh { .. }
            | Instruction::Sw { .. } => Self::execute_store(instruction, cpu, memory, output),
            Instruction::Beq { .. }
            | Instruction::Bne { .. }
            | Instruction::Blt { .. }
            | Instruction::Bge { .. }
            | Instruction::Bltu { .. }
            | Instruction::Bgeu { .. } => Self::execute_branch(instruction, cpu, memory, output),
            Instruction::Jal { .. }
            | Instruction::Jalr { .. } => Self::execute_jump(instruction, cpu, memory, output),
            Instruction::Ecall => {
                return SyscallHandler::handle_syscall(cpu, memory, output);
            },
            Instruction::Ebreak => {
                return Err(breakpoint());
            },
        }
    }

    /// The write that the next cycle asks of the host, if it asks for one:
    /// the program counter stands at a system call that writes, to
    /// descriptor 1 or 2, from a buffer within the memory. Nothing is changed.
    pub fn pending_write(cpu: &CpuState, memory: &Memory) -> (r: Option<HostWrite>)
        ensures
            match pending_write_spec(cpu@, memory@) {
                Some(write) => r is Some && r->Some_0@ == write,
                None => r is None,
            },
    {
        let instruction_word = match memory.load_word(cpu.get_pc()) {
            Ok(word) => word,
            Err(_) => {
                return None;
            },
        };
        match Decoder::decode(instruction_word) {
            Ok(Instruction::Ecall) => SyscallHandler::write_request(cpu, memory),
            _ => None,
        }
    }

    /// Executes one cycle: fetches the word at the program counter, decodes
    /// it and executes the instruction. A fetch outside the memory and a word
    /// that is no instruction fail and change nothing.
    ///
    /// The cycle counter must have room for the cycle, unless the cycle counts
    /// none.
    pub fn execute_cycle(
        cpu: &mut CpuState,
        memory: &mut Memory,
        output: &mut Vec<HostWrite>,
    ) -> (r: Result<bool, VmError>)
        requires
            old(cpu).cycles < u64::MAX || cycle_spec(
                machine_view(*old(cpu), *old(memory), *old(output)),
            ).next.cpu.cycles == old(cpu).cycles,
        ensures
            realizes(
                *final(cpu),
                *final(memory),
                *final(output),
                r,
                cycle_spec(machine_view(*old(cpu), *old(memory), *old(output))),
            ),
    {
        // Fetch
        let instruction_word = match memory.load_word(cpu.get_pc()) {
            Ok(word) => word,
            Err(error) => {
                return Err(error);
            },
        };
        // Decode
        let instruction = match Decoder::decode(instruction_word) {
            Ok(decoded) => decoded,
            Err(error) => {
                return Err(error);
            },
        };
        // Execute
        Self::execute_instruction(&instruction, cpu, memory, output)
    }
}

} // verus!
