//! What each instruction does to the machine, as mathematics.

use vstd::prelude::*;
use vstd::arithmetic::power2::pow2;
use crate::risc_v::encoding::decode_spec;
use crate::risc_v::instructions::Instruction;
use crate::risc_v::registers::RegisterIndex;
use crate::utils::error::ErrorView;
use crate::vm::byte_order::{u16_to_le, u32_to_le};
use crate::vm::cpu::{wrapping_sum, CpuView};
use crate::vm::memory::{halfword_at, in_bounds, word_at, write_bytes};
use crate::vm::messages::{unknown_syscall_message, unsupported_descriptor_message};

verus! {

/// The machine as mathematical values: the processor, the memory, and what
/// the program has written for the host so far, each entry a file
/// descriptor with the bytes written to it.
pub struct MachineView {
    pub cpu: CpuView,
    pub memory: Seq<u8>,
    pub output: Seq<(u32, Seq<u8>)>,
}

/// How a step ends.
pub enum Outcome {
    /// The machine goes on.
    Continue,
    /// The program has asked to exit.
    Halt,
    /// The step failed with this error.
    Fault(ErrorView),
}

/// The machine after a step, and how the step ended.
pub struct Effect {
    pub next: MachineView,
    pub outcome: Outcome,
}

/// A word read as a two's complement number.
pub open spec fn signed(x: u32) -> int {
    if x >= 0x8000_0000 {
        x - 0x1_0000_0000
    } else {
        x as int
    }
}

/// A number reduced modulo 2^32.
pub open spec fn wrap(x: int) -> u32 {
    wrapping_sum(x, 0)
}

/// 1 for true, 0 for false.
pub open spec fn flag(b: bool) -> u32 {
    if b {
        1
    } else {
        0
    }
}

/// A byte widened to a word with its sign.
pub open spec fn sign_extend_byte(b: u8) -> u32 {
    wrap(if b >= 0x80 { b - 0x100 } else { b as int })
}

/// A halfword widened to a word with its sign.
pub open spec fn sign_extend_half(h: u16) -> u32 {
    wrap(if h >= 0x8000 { h - 0x1_0000 } else { h as int })
}

/// A word shifted right with copies of its sign bit coming in: the word as a
/// two's complement number, divided by 2 to the power of the amount and
/// rounded down.
pub open spec fn shift_right_arithmetic(x: u32, amount: u32) -> u32 {
    wrap(signed(x) / (pow2(amount as nat) as int))
}

/// A word with its lowest bit cleared.
pub open spec fn clear_lowest_bit(x: u32) -> u32 {
    (x - x % 2) as u32
}

/// A failed step: the machine stays as it is.
pub open spec fn fault(m: MachineView, error: ErrorView) -> Effect {
    Effect { next: m, outcome: Outcome::Fault(error) }
}

/// A step that writes `value` to `rd` and goes on to the next instruction.
pub open spec fn proceed(m: MachineView, rd: RegisterIndex, value: u32) -> Effect {
    Effect {
        next: MachineView { cpu: m.cpu.write(rd, value).advance(), ..m },
        outcome: Outcome::Continue,
    }
}

/// A load of `width` bytes at `addr` that yields `value`: outside the
/// memory it fails and changes nothing.
pub open spec fn load_effect(
    m: MachineView,
    rd: RegisterIndex,
    addr: u32,
    width: int,
    value: u32,
) -> Effect {
    if in_bounds(m.memory, addr, width) {
        proceed(m, rd, value)
    } else {
        fault(m, ErrorView::MemoryViolation { address: addr })
    }
}

/// A store of `bytes` at `addr`: outside the memory it fails and changes
/// nothing.
pub open spec fn store_effect(m: MachineView, addr: u32, bytes: Seq<u8>) -> Effect {
    if in_bounds(m.memory, addr, bytes.len() as int) {
        Effect {
            next: MachineView {
                cpu: m.cpu.advance(),
                memory: write_bytes(m.memory, addr as int, bytes),
                ..m
            },
            outcome: Outcome::Continue,
        }
    } else {
        fault(m, ErrorView::MemoryViolation { address: addr })
    }
}

/// A branch: taken, it adds the offset to the program counter and nothing
/// else; not taken, it goes on to the next instruction.
pub open spec fn branch_effect(m: MachineView, taken: bool, imm: i32) -> Effect {
    Effect {
        next: MachineView {
            cpu: if taken {
                m.cpu.jump(wrapping_sum(m.cpu.pc as int, imm as int))
            } else {
                m.cpu.advance()
            },
            ..m
        },
        outcome: Outcome::Continue,
    }
}

/// A jump to `target` that leaves the address of the next instruction in
/// `rd`.
pub open spec fn link_effect(m: MachineView, rd: RegisterIndex, target: u32) -> Effect {
    Effect {
        next: MachineView {
            cpu: m.cpu.write(rd, wrapping_sum(m.cpu.pc as int, 4)).jump(target),
            ..m
        },
        outcome: Outcome::Continue,
    }
}

/// The write that a system call asks of the host, if it asks for one: the
/// descriptor in `a0`, 1 or 2, and the bytes of the buffer that `a1` and
/// `a2` give, where the number in `a7` is 64 and the buffer lies within the
/// memory.
pub open spec fn write_request_spec(cpu: CpuView, memory: Seq<u8>) -> Option<(u32, Seq<u8>)> {
    let fd = cpu.read(RegisterIndex::X10);
    let buffer = cpu.read(RegisterIndex::X11);
    let count = cpu.read(RegisterIndex::X12);
    if cpu.read(RegisterIndex::X17) == 64 && (fd == 1 || fd == 2) && in_bounds(
        memory,
        buffer,
        count as int,
    ) {
        Some((fd, memory.subrange(buffer as int, buffer + count)))
    } else {
        None
    }
}

/// A system call: the number is in `a7`, the arguments are in `a0` to `a2`.
/// Exit halts. Write, to descriptor 1 or 2, hands the bytes of the buffer to
/// the host and returns their count in `a0`; a buffer that does not lie
/// within the memory is a memory violation at its address. Read, from
/// descriptor 0, reads nothing and returns 0 in `a0`. Anything else is a
/// system call error. No system call moves the program counter or counts a
/// cycle, and one that fails changes nothing.
pub open spec fn syscall_spec(m: MachineView) -> Effect {
    let number = m.cpu.read(RegisterIndex::X17);
    let fd = m.cpu.read(RegisterIndex::X10);
    let buffer = m.cpu.read(RegisterIndex::X11);
    let count = m.cpu.read(RegisterIndex::X12);
    if number == 93 {
        Effect { next: m, outcome: Outcome::Halt }
    } else if number == 64 {
        if fd == 1 || fd == 2 {
            if in_bounds(m.memory, buffer, count as int) {
                Effect {
                    next: MachineView {
                        cpu: m.cpu.write(RegisterIndex::X10, count),
                        output: m.output.push(
                            (fd, m.memory.subrange(buffer as int, buffer + count)),
                        ),
                        ..m
                    },
                    outcome: Outcome::Continue,
                }
            } else {
                fault(m, ErrorView::MemoryViolation { address: buffer })
            }
        } else {
            fault(m, ErrorView::SyscallError(unsupported_descriptor_message(fd)))
        }
    } else if number == 63 {
        if fd == 0 {
            Effect {
                next: MachineView { cpu: m.cpu.write(RegisterIndex::X10, 0), ..m },
                outcome: Outcome::Continue,
            }
        } else {
            fault(m, ErrorView::SyscallError(unsupported_descriptor_message(fd)))
        }
    } else {
        fault(m, ErrorView::SyscallError(unknown_syscall_message(number)))
    }
}

/// What one instruction does to the machine.
#[verifier::opaque]
pub open spec fn execute_spec(instr: Instruction, m: MachineView) -> Effect {
    let cpu = m.cpu;
    match instr {
        Instruction::Add { rd, rs1, rs2 } => proceed(
            m,
            rd,
            wrapping_sum(cpu.read(rs1) as int, cpu.read(rs2) as int),
        ),
        Instruction::Sub { rd, rs1, rs2 } => proceed(m, rd, wrap(cpu.read(rs1) - cpu.read(rs2))),
        Instruction::Slt { rd, rs1, rs2 } => proceed(
            m,
            rd,
            flag(signed(cpu.read(rs1)) < signed(cpu.read(rs2))),
        ),
        Instruction::Sltu { rd, rs1, rs2 } => proceed(m, rd, flag(cpu.read(rs1) < cpu.read(rs2))),
        Instruction::And { rd, rs1, rs2 } => proceed(m, rd, cpu.read(rs1) & cpu.read(rs2)),
        Instruction::Or { rd, rs1, rs2 } => proceed(m, rd, cpu.read(rs1) | cpu.read(rs2)),
        Instruction::Xor { rd, rs1, rs2 } => proceed(m, rd, cpu.read(rs1) ^ cpu.read(rs2)),
        Instruction::Sll { rd, rs1, rs2 } => proceed(m, rd, cpu.read(rs1) << (cpu.read(rs2) % 32)),
        Instruction::Srl { rd, rs1, rs2 } => proceed(m, rd, cpu.read(rs1) >> (cpu.read(rs2) % 32)),
        Instruction::Sra { rd, rs1, rs2 } => proceed(
            m,
            rd,
            shift_right_arithmetic(cpu.read(rs1), cpu.read(rs2) % 32),
        ),
        Instruction::Addi { rd, rs1, imm } => proceed(
            m,
            rd,
            wrapping_sum(cpu.read(rs1) as int, imm as int),
        ),
        Instruction::Slti { rd, rs1, imm } => proceed(m, rd, flag(signed(cpu.read(rs1)) < imm)),
        Instruction::Sltiu { rd, rs1, imm } => proceed(
            m,
            rd,
            flag(cpu.read(rs1) < wrap(imm as int)),
        ),
        Instruction::Andi { rd, rs1, imm } => proceed(m, rd, cpu.read(rs1) & wrap(imm as int)),
        Instruction::Ori { rd, rs1, imm } => proceed(m, rd, cpu.read(rs1) | wrap(imm as int)),
        Instruction::Xori { rd, rs1, imm } => proceed(m, rd, cpu.read(rs1) ^ wrap(imm as int)),
        Instruction::Slli { rd, rs1, shamt } => proceed(m, rd, cpu.read(rs1) << (shamt % 32)),
        Instruction::Srli { rd, rs1, shamt } => proceed(m, rd, cpu.read(rs1) >> (shamt % 32)),
        Instruction::Srai { rd, rs1, shamt } => proceed(
            m,
            rd,
            shift_right_arithmetic(cpu.read(rs1), shamt % 32),
        ),
        Instruction::Lb { rd, rs1, imm } => {
            let addr = wrapping_sum(cpu.read(rs1) as int, imm as int);
            load_effect(m, rd, addr, 1, sign_extend_byte(m.memory[addr as int]))
        },
        Instruction::Lh { rd, rs1, imm } => {
            let addr = wrapping_sum(cpu.read(rs1) as int, imm as int);
            load_effect(m, rd, addr, 2, sign_extend_half(halfword_at(m.memory, addr as int)))
        },
        Instruction::Lw { rd, rs1, imm } => {
            let addr = wrapping_sum(cpu.read(rs1) as int, imm as int);
            load_effect(m, rd, addr, 4, word_at(m.memory, addr as int))
        },
        Instruction::Lbu { rd, rs1, imm } => {
            let addr = wrapping_sum(cpu.read(rs1) as int, imm as int);
            load_effect(m, rd, addr, 1, m.memory[addr as int] as u32)
        },
        Instruction::Lhu { rd, rs1, imm } => {
            let addr = wrapping_sum(cpu.read(rs1) as int, imm as int);
            load_effect(m, rd, addr, 2, halfword_at(m.memory, addr as int) as u32)
        },
        Instruction::Sb { rs1, rs2, imm } => store_effect(
            m,
            wrapping_sum(cpu.read(rs1) as int, imm as int),
            seq![(cpu.read(rs2) % 0x100) as u8],
        ),
        Instruction::Sh { rs1, rs2, imm } => store_effect(
            m,
            wrapping_sum(cpu.read(rs1) as int, imm as int),
            u16_to_le((cpu.read(rs2) % 0x1_0000) as u16),
        ),
        Instruction::Sw { rs1, rs2, imm } => store_effect(
            m,
            wrapping_sum(cpu.read(rs1) as int, imm as int),
            u32_to_le(cpu.read(rs2)),
        ),
        Instruction::Beq { rs1, rs2, imm } => branch_effect(m, cpu.read(rs1) == cpu.read(rs2), imm),
        Instruction::Bne { rs1, rs2, imm } => branch_effect(m, cpu.read(rs1) != cpu.read(rs2), imm),
        Instruction::Blt { rs1, rs2, imm } => branch_effect(
            m,
            signed(cpu.read(rs1)) < signed(cpu.read(rs2)),
            imm,
        ),
        Instruction::Bge { rs1, rs2, imm } => branch_effect(
            m,
            signed(cpu.read(rs1)) >= signed(cpu.read(rs2)),
            imm,
        ),
        Instruction::Bltu { rs1, rs2, imm } => branch_effect(m, cpu.read(rs1) < cpu.read(rs2), imm),
        Instruction::Bgeu { rs1, rs2, imm } => branch_effect(
            m,
            cpu.read(rs1) >= cpu.read(rs2),
            imm,
        ),
        Instruction::Jal { rd, imm } => link_effect(m, rd, wrapping_sum(cpu.pc as int, imm as int)),
        Instruction::Jalr { rd, rs1, imm } => link_effect(
            m,
            rd,
            clear_lowest_bit(wrapping_sum(cpu.read(rs1) as int, imm as int)),
        ),
        Instruction::Lui { rd, imm } => proceed(m, rd, wrap(imm as int)),
        Instruction::Auipc { rd, imm } => proceed(m, rd, wrapping_sum(cpu.pc as int, imm as int)),
        Instruction::Ecall => syscall_spec(m),
        Instruction::Ebreak => fault(m, ErrorView::ExecutionError("Breakpoint encountered"@)),
    }
}

/// The write that the next cycle asks of the host, if it asks for one: the
/// write request of the system call that the program counter stands at.
pub open spec fn pending_write_spec(cpu: CpuView, memory: Seq<u8>) -> Option<(u32, Seq<u8>)> {
    if in_bounds(memory, cpu.pc, 4) && decode_spec(word_at(memory, cpu.pc as int)) == Some(
        Instruction::Ecall,
    ) {
        write_request_spec(cpu, memory)
    } else {
        None
    }
}

/// One cycle: the word at the program counter is fetched, decoded and
/// executed. A fetch outside the memory and a word that is no instruction
/// fail and change nothing.
pub open spec fn cycle_spec(m: MachineView) -> Effect {
    if !in_bounds(m.memory, m.cpu.pc, 4) {
        fault(m, ErrorView::MemoryViolation { address: m.cpu.pc })
    } else {
        let word = word_at(m.memory, m.cpu.pc as int);
        match decode_spec(word) {
            Some(instr) => execute_spec(instr, m),
            None => fault(m, ErrorView::InvalidInstruction(word)),
        }
    }
}

} // verus!
