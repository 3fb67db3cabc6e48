//! Laws of the instruction semantics.

use vstd::prelude::*;
use crate::risc_v::instructions::Instruction;
use crate::risc_v::registers::RegisterIndex;
use crate::utils::error::ErrorView;
use crate::vm::cpu::{wrapping_sum, CpuView};
use crate::vm::memory::in_bounds;
use crate::vm::messages::unknown_syscall_message;
use crate::vm::semantics::{
    execute_spec, fault,
    signed, MachineView,
};

verus! {

/// Addition wraps modulo 2^32: `add` leaves in `rd` the sum of the two
/// operands reduced modulo 2^32, which is the sum less 2^32 where the sum
/// is past 0xFFFFFFFF.
pub proof fn lemma_add_wraps(
    rd: RegisterIndex,
    rs1: RegisterIndex,
    rs2: RegisterIndex,
    m: MachineView,
)
    requires
        m.cpu.wf(),
        rd != RegisterIndex::X0,
    ensures
        ({
            let a = m.cpu.read(rs1);
            let b = m.cpu.read(rs2);
            let after = execute_spec(Instruction::Add { rd, rs1, rs2 }, m).next.cpu;
            &&& after.read(rd) == (a + b) % 0x1_0000_0000
            &&& a + b <= 0xFFFF_FFFF ==> after.read(rd) == a + b
            &&& a + b > 0xFFFF_FFFF ==> after.read(rd) == a + b - 0x1_0000_0000
        }),
{
    reveal(wrapping_sum);
    reveal(execute_spec);
}

/// Whether a branch is taken: equality for `beq` and `bne`, the signed order
/// for `blt` and `bge`, the unsigned order for `bltu` and `bgeu`.
pub open spec fn branch_taken(instr: Instruction, cpu: CpuView) -> bool {
    match instr {
        Instruction::Beq { rs1, rs2, .. } => cpu.read(rs1) == cpu.read(rs2),
        Instruction::Bne { rs1, rs2, .. } => cpu.read(rs1) != cpu.read(rs2),
        Instruction::Blt { rs1, rs2, .. } => signed(cpu.read(rs1)) < signed(cpu.read(rs2)),
        Instruction::Bge { rs1, rs2, .. } => signed(cpu.read(rs1)) >= signed(cpu.read(rs2)),
        Instruction::Bltu { rs1, rs2, .. } => cpu.read(rs1) < cpu.read(rs2),
        Instruction::Bgeu { rs1, rs2, .. } => cpu.read(rs1) >= cpu.read(rs2),
        _ => false,
    }
}

/// The offset of a branch.
pub open spec fn branch_offset(instr: Instruction) -> int {
    match instr {
        Instruction::Beq { imm, .. }
        | Instruction::Bne { imm, .. }
        | Instruction::Blt { imm, .. }
        | Instruction::Bge { imm, .. }
        | Instruction::Bltu { imm, .. }
        | Instruction::Bgeu { imm, .. } => imm as int,
        _ => 0,
    }
}

/// A branch that is not taken moves the program counter on by exactly 4; a
/// branch that is taken moves it by the offset, and not by 4 besides. Either
/// way one cycle is counted, the counter moves modulo 2^32, and nothing else
/// changes.
pub proof fn lemma_branch(instr: Instruction, m: MachineView)
    requires
        instr is Beq || instr is Bne || instr is Blt || instr is Bge || instr is Bltu
            || instr is Bgeu,
    ensures
        ({
            let effect = execute_spec(instr, m);
            let step = if branch_taken(instr, m.cpu) {
                branch_offset(instr)
            } else {
                4
            };
            &&& effect.outcome is Continue
            &&& effect.next.cpu.pc == (m.cpu.pc + step) % 0x1_0000_0000
            &&& effect.next.cpu.cycles == m.cpu.cycles + 1
            &&& effect.next.cpu.registers == m.cpu.registers
            &&& effect.next.memory == m.memory
            &&& effect.next.output == m.output
        }),
{
    reveal(wrapping_sum);
    match instr {
        Instruction::Beq { rs1, rs2, imm }
        | Instruction::Bne { rs1, rs2, imm }
        | Instruction::Blt { rs1, rs2, imm }
        | Instruction::Bge { rs1, rs2, imm }
        | Instruction::Bltu { rs1, rs2, imm }
        | Instruction::Bgeu { rs1, rs2, imm } => {
            reveal(execute_spec);
        },
        _ => {},
    }
}

/// A system call whose number in `a7` is none of 93, 64 and 63 fails with a
/// system call error and changes nothing: not the program counter, not the
/// cycle counter, no register, no byte of memory.
pub proof fn lemma_unknown_syscall(m: MachineView)
    requires
        m.cpu.read(RegisterIndex::X17) != 93,
        m.cpu.read(RegisterIndex::X17) != 64,
        m.cpu.read(RegisterIndex::X17) != 63,
    ensures
        execute_spec(Instruction::Ecall, m) == fault(
            m,
            ErrorView::SyscallError(unknown_syscall_message(m.cpu.read(RegisterIndex::X17))),
        ),
        execute_spec(Instruction::Ecall, m).next == m,
{
    reveal(execute_spec);
}

/// The address that a load or a store reaches for: the base register plus
/// the offset, modulo 2^32.
pub open spec fn access_address(instr: Instruction, cpu: CpuView) -> u32 {
    match instr {
        Instruction::Lb { rs1, imm, .. }
        | Instruction::Lh { rs1, imm, .. }
        | Instruction::Lw { rs1, imm, .. }
        | Instruction::Lbu { rs1, imm, .. }
        | Instruction::Lhu { rs1, imm, .. }
        | Instruction::Sb { rs1, imm, .. }
        | Instruction::Sh { rs1, imm, .. }
        | Instruction::Sw { rs1, imm, .. } => wrapping_sum(cpu.read(rs1) as int, imm as int),
        _ => 0,
    }
}

/// The number of bytes that a load or a store reaches for.
pub open spec fn access_width(instr: Instruction) -> int {
    match instr {
        Instruction::Lb { .. } | Instruction::Lbu { .. } | Instruction::Sb { .. } => 1,
        Instruction::Lh { .. } | Instruction::Lhu { .. } | Instruction::Sh { .. } => 2,
        Instruction::Lw { .. } | Instruction::Sw { .. } => 4,
        _ => 0,
    }
}

/// A load or a store whose bytes do not all lie within the memory fails with
/// a memory violation that carries the address, and changes nothing: no byte
/// of memory, no register, not the program counter, not the cycle counter.
pub proof fn lemma_access_outside_memory(instr: Instruction, m: MachineView)
    requires
        instr is Lb || instr is Lh || instr is Lw || instr is Lbu || instr is Lhu || instr is Sb
            || instr is Sh || instr is Sw,
        !in_bounds(m.memory, access_address(instr, m.cpu), access_width(instr)),
    ensures
        execute_spec(instr, m) == fault(
            m,
            ErrorView::MemoryViolation { address: access_address(instr, m.cpu) },
        ),
        execute_spec(instr, m).next == m,
{
    reveal(execute_spec);
}

} // verus!
