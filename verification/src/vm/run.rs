//! A whole run of the machine, as mathematics.

use vstd::prelude::*;
use crate::risc_v::encoding::decode_spec;
use crate::risc_v::instructions::Instruction;
use crate::risc_v::registers::RegisterIndex;
use crate::utils::error::ErrorView;
use crate::vm::cpu::CpuView;
use crate::vm::memory::{in_bounds, word_at};
use crate::vm::messages::{budget_message, stall_message};
use crate::vm::semantics::{
    cycle_spec, execute_spec, fault, pending_write_spec, syscall_spec, Effect, MachineView,
    Outcome,
};

verus! {

/// Whether a step that goes on has counted one cycle and left the registers
/// well-formed.
pub open spec fn counts_a_cycle(m: MachineView, effect: Effect) -> bool {
    effect.outcome is Continue ==> effect.next.cpu.cycles == m.cpu.cycles + 1
        && effect.next.cpu.wf()
}

/// Whether a step that halts or fails has left the machine as it was.
pub open spec fn stops_in_place(m: MachineView, effect: Effect) -> bool {
    !(effect.outcome is Continue) ==> effect.next == m
}

/// Whether a step that goes on is a system call that has returned: it has
/// counted no cycle, and has changed nothing but the value of `a0`, which is
/// now what `a2` holds, or is zero as before.
pub open spec fn returns_from_syscall(m: MachineView, effect: Effect) -> bool {
    effect.outcome is Continue ==> {
        let a0 = effect.next.cpu.read(RegisterIndex::X10);
        &&& effect.next.cpu == CpuView { registers: m.cpu.registers.update(10, a0), ..m.cpu }
        &&& effect.next.memory == m.memory
        &&& a0 == m.cpu.read(RegisterIndex::X12) || (a0 == 0 && m.cpu.read(RegisterIndex::X10)
            == 0)
    }
}

/// Whether a step has either counted one cycle and gone on, or stopped and
/// left the machine as it was.
pub open spec fn steps_or_stops(m: MachineView, effect: Effect) -> bool {
    counts_a_cycle(m, effect) && stops_in_place(m, effect)
}

/// The register-register instructions step or stop.
proof fn lemma_register_steps(
    rd: RegisterIndex,
    rs1: RegisterIndex,
    rs2: RegisterIndex,
    m: MachineView,
)
    requires
        m.cpu.wf(),
    ensures
        steps_or_stops(m, execute_spec(Instruction::Add { rd, rs1, rs2 }, m)),
        steps_or_stops(m, execute_spec(Instruction::Sub { rd, rs1, rs2 }, m)),
        steps_or_stops(m, execute_spec(Instruction::Slt { rd, rs1, rs2 }, m)),
        steps_or_stops(m, execute_spec(Instruction::Sltu { rd, rs1, rs2 }, m)),
        steps_or_stops(m, execute_spec(Instruction::And { rd, rs1, rs2 }, m)),
        steps_or_stops(m, execute_spec(Instruction::Or { rd, rs1, rs2 }, m)),
        steps_or_stops(m, execute_spec(Instruction::Xor { rd, rs1, rs2 }, m)),
        steps_or_stops(m, execute_spec(Instruction::Sll { rd, rs1, rs2 }, m)),
        steps_or_stops(m, execute_spec(Instruction::Srl { rd, rs1, rs2 }, m)),
        steps_or_stops(m, execute_spec(Instruction::Sra { rd, rs1, rs2 }, m)),
{
    reveal(execute_spec);
}

/// The register-immediate instructions step or stop.
proof fn lemma_immediate_steps(rd: RegisterIndex, rs1: RegisterIndex, imm: i32, m: MachineView)
    requires
        m.cpu.wf(),
    ensures
        steps_or_stops(m, execute_spec(Instruction::Addi { rd, rs1, imm }, m)),
        steps_or_stops(m, execute_spec(Instruction::Slti { rd, rs1, imm }, m)),
        steps_or_stops(m, execute_spec(Instruction::Sltiu { rd, rs1, imm }, m)),
        steps_or_stops(m, execute_spec(Instruction::Andi { rd, rs1, imm }, m)),
        steps_or_stops(m, execute_spec(Instruction::Ori { rd, rs1, imm }, m)),
        steps_or_stops(m, execute_spec(Instruction::Xori { rd, rs1, imm }, m)),
{
    reveal(execute_spec);
}

/// The shifts by a constant step or stop.
proof fn lemma_shift_steps(rd: RegisterIndex, rs1: RegisterIndex, shamt: u32, m: MachineView)
    requires
        m.cpu.wf(),
    ensures
        steps_or_stops(m, execute_spec(Instruction::Slli { rd, rs1, shamt }, m)),
        steps_or_stops(m, execute_spec(Instruction::Srli { rd, rs1, shamt }, m)),
        steps_or_stops(m, execute_spec(Instruction::Srai { rd, rs1, shamt }, m)),
{
    reveal(execute_spec);
}

/// The loads step or stop.
proof fn lemma_load_steps(rd: RegisterIndex, rs1: RegisterIndex, imm: i32, m: MachineView)
    requires
        m.cpu.wf(),
    ensures
        steps_or_stops(m, execute_spec(Instruction::Lb { rd, rs1, imm }, m)),
        steps_or_stops(m, execute_spec(Instruction::Lh { rd, rs1, imm }, m)),
        steps_or_stops(m, execute_spec(Instruction::Lw { rd, rs1, imm }, m)),
        steps_or_stops(m, execute_spec(Instruction::Lbu { rd, rs1, imm }, m)),
        steps_or_stops(m, execute_spec(Instruction::Lhu { rd, rs1, imm }, m)),
{
    reveal(execute_spec);
}

/// The stores step or stop.
proof fn lemma_store_steps(rs1: RegisterIndex, rs2: RegisterIndex, imm: i32, m: MachineView)
    requires
        m.cpu.wf(),
    ensures
        steps_or_stops(m, execute_spec(Instruction::Sb { rs1, rs2, imm }, m)),
        steps_or_stops(m, execute_spec(Instruction::Sh { rs1, rs2, imm }, m)),
        steps_or_stops(m, execute_spec(Instruction::Sw { rs1, rs2, imm }, m)),
{
    reveal(execute_spec);
}

/// The branches step or stop.
proof fn lemma_branch_steps(rs1: RegisterIndex, rs2: RegisterIndex, imm: i32, m: MachineView)
    requires
        m.cpu.wf(),
    ensures
        steps_or_stops(m, execute_spec(Instruction::Beq { rs1, rs2, imm }, m)),
        steps_or_stops(m, execute_spec(Instruction::Bne { rs1, rs2, imm }, m)),
        steps_or_stops(m, execute_spec(Instruction::Blt { rs1, rs2, imm }, m)),
        steps_or_stops(m, execute_spec(Instruction::Bge { rs1, rs2, imm }, m)),
        steps_or_stops(m, execute_spec(Instruction::Bltu { rs1, rs2, imm }, m)),
        steps_or_stops(m, execute_spec(Instruction::Bgeu { rs1, rs2, imm }, m)),
{
    reveal(execute_spec);
}

/// The jumps, the upper-immediate instructions and the breakpoint step or stop.
proof fn lemma_jump_steps(rd: RegisterIndex, rs1: RegisterIndex, imm: i32, m: MachineView)
    requires
        m.cpu.wf(),
    ensures
        steps_or_stops(m, execute_spec(Instruction::Jal { rd, imm }, m)),
        steps_or_stops(m, execute_spec(Instruction::Jalr { rd, rs1, imm }, m)),
        steps_or_stops(m, execute_spec(Instruction::Lui { rd, imm }, m)),
        steps_or_stops(m, execute_spec(Instruction::Auipc { rd, imm }, m)),
        steps_or_stops(m, execute_spec(Instruction::Ebreak, m)),
{
    reveal(execute_spec);
}

/// Every instruction but a system call counts exactly one cycle when it goes
/// on, and leaves the machine as it was when it fails.
#[verifier::rlimit(30)]
pub proof fn lemma_instruction_counts_a_cycle(instr: Instruction, m: MachineView)
    requires
        m.cpu.wf(),
        !(instr is Ecall),
    ensures
        counts_a_cycle(m, execute_spec(instr, m)),
        stops_in_place(m, execute_spec(instr, m)),
{
    match instr {
        Instruction::Add { rd, rs1, rs2 }
        | Instruction::Sub { rd, rs1, rs2 }
        | Instruction::Slt { rd, rs1, rs2 }
        | Instruction::Sltu { rd, rs1, rs2 }
        | Instruction::And { rd, rs1, rs2 }
        | Instruction::Or { rd, rs1, rs2 }
        | Instruction::Xor { rd, rs1, rs2 }
        | Instruction::Sll { rd, rs1, rs2 }
        | Instruction::Srl { rd, rs1, rs2 }
        | Instruction::Sra { rd, rs1, rs2 } => lemma_register_steps(rd, rs1, rs2, m),
        Instruction::Addi { rd, rs1, imm }
        | Instruction::Slti { rd, rs1, imm }
        | Instruction::Sltiu { rd, rs1, imm }
        | Instruction::Andi { rd, rs1, imm }
        | Instruction::Ori { rd, rs1, imm }
        | Instruction::Xori { rd, rs1, imm } => lemma_immediate_steps(rd, rs1, imm, m),
        Instruction::Slli { rd, rs1, shamt }
        | Instruction::Srli { rd, rs1, shamt }
        | Instruction::Srai { rd, rs1, shamt } => lemma_shift_steps(rd, rs1, shamt, m),
        Instruction::Lb { rd, rs1, imm }
        | Instruction::Lh { rd, rs1, imm }
        | Instruction::Lw { rd, rs1, imm }
        | Instruction::Lbu { rd, rs1, imm }
        | Instruction::Lhu { rd, rs1, imm } => lemma_load_steps(rd, rs1, imm, m),
        Instruction::Sb { rs1, rs2, imm }
        | Instruction::Sh { rs1, rs2, imm }
        | Instruction::Sw { rs1, rs2, imm } => lemma_store_steps(rs1, rs2, imm, m),
        Instruction::Beq { rs1, rs2, imm }
        | Instruction::Bne { rs1, rs2, imm }
        | Instruction::Blt { rs1, rs2, imm }
        | Instruction::Bge { rs1, rs2, imm }
        | Instruction::Bltu { rs1, rs2, imm }
        | Instruction::Bgeu { rs1, rs2, imm } => lemma_branch_steps(rs1, rs2, imm, m),
        Instruction::Jalr { rd, rs1, imm } => lemma_jump_steps(rd, rs1, imm, m),
        Instruction::Jal { rd, imm }
        | Instruction::Lui { rd, imm }
        | Instruction::Auipc { rd, imm } => lemma_jump_steps(rd, rd, imm, m),
        Instruction::Ecall | Instruction::Ebreak => lemma_jump_steps(
            RegisterIndex::X0,
            RegisterIndex::X0,
            0,
            m,
        ),
    }
}

/// A system call that goes on has counted no cycle and has changed nothing
/// but `a0`.
pub proof fn lemma_syscall_returns(m: MachineView)
    requires
        m.cpu.wf(),
    ensures
        returns_from_syscall(m, syscall_spec(m)),
        stops_in_place(m, syscall_spec(m)),
        syscall_spec(m).next.cpu.wf(),
{
    let effect = syscall_spec(m);
    if effect.outcome is Continue {
        let a0 = effect.next.cpu.read(RegisterIndex::X10);
        assert(effect.next.cpu.registers =~= m.cpu.registers.update(10, a0));
    }
}

/// Every cycle that goes on either counts exactly one cycle or is a system
/// call that has returned; every cycle that halts or fails leaves the machine
/// as it was.
pub proof fn lemma_cycle_progress(m: MachineView)
    requires
        m.cpu.wf(),
    ensures
        cycle_spec(m).next.cpu.wf(),
        stops_in_place(m, cycle_spec(m)),
        counts_a_cycle(m, cycle_spec(m)) || (cycle_spec(m).next.cpu.cycles == m.cpu.cycles
            && returns_from_syscall(m, cycle_spec(m))),
{
    if in_bounds(m.memory, m.cpu.pc, 4) {
        match decode_spec(word_at(m.memory, m.cpu.pc as int)) {
            Some(Instruction::Ecall) => {
                reveal(execute_spec);
                lemma_syscall_returns(m);
            },
            Some(instr) => {
                lemma_instruction_counts_a_cycle(instr, m);
            },
            None => {},
        }
    }
}

/// How far a system call that has returned is from returning without a
/// change: 0 when `a0` already holds what `a2` holds, else 1.
pub open spec fn stall_rank(cpu: CpuView) -> nat {
    if cpu.read(RegisterIndex::X10) == cpu.read(RegisterIndex::X12) {
        0
    } else {
        1
    }
}

/// A whole run with a budget of cycles: cycle after cycle, until one halts
/// or fails.
///
/// Before each cycle the counter is held against the budget, and the run
/// fails once the counter has reached it. A system call counts no cycle and
/// does not move the program counter, so after one that goes on the same
/// call is fetched again. Where it has also left the processor exactly as it
/// was, every further cycle would be the same as this one; the run fails
/// there instead of going on for ever.
pub open spec fn run_spec(m: MachineView, max_cycles: nat) -> Effect
    decreases max_cycles - m.cpu.cycles, stall_rank(m.cpu),
    when m.cpu.wf()
    via run_spec_decreases
{
    if m.cpu.cycles >= max_cycles {
        fault(m, ErrorView::ExecutionError(budget_message()))
    } else {
        let effect = cycle_spec(m);
        if !(effect.outcome is Continue) {
            effect
        } else if effect.next.cpu == m.cpu {
            fault(effect.next, ErrorView::ExecutionError(stall_message()))
        } else {
            run_spec(effect.next, max_cycles)
        }
    }
}

/// Each further cycle of a run is nearer to its end.
#[via_fn]
proof fn run_spec_decreases(m: MachineView, max_cycles: nat) {
    lemma_cycle_progress(m);
    let effect = cycle_spec(m);
    if m.cpu.cycles < max_cycles && effect.outcome is Continue && effect.next.cpu != m.cpu {
        if effect.next.cpu.cycles == m.cpu.cycles {
            lemma_stalled_step(m);
        }
    }
}

/// A cycle that goes on without counting has either left the processor
/// exactly as it was, or has brought `a0` to what `a2` holds, which it did
/// not hold before. Whether it has left the processor as it was shows in
/// `a0` alone.
pub proof fn lemma_stalled_step(m: MachineView)
    requires
        m.cpu.wf(),
        cycle_spec(m).outcome is Continue,
        cycle_spec(m).next.cpu.cycles == m.cpu.cycles,
    ensures
        cycle_spec(m).next.memory == m.memory,
        cycle_spec(m).next.cpu == m.cpu <==> cycle_spec(m).next.cpu.read(RegisterIndex::X10)
            == m.cpu.read(RegisterIndex::X10),
        cycle_spec(m).next.cpu != m.cpu ==> stall_rank(m.cpu) == 1 && stall_rank(
            cycle_spec(m).next.cpu,
        ) == 0,
{
    lemma_cycle_progress(m);
    let effect = cycle_spec(m);
    let a0 = effect.next.cpu.read(RegisterIndex::X10);
    if a0 == m.cpu.read(RegisterIndex::X10) {
        assert(m.cpu.registers.update(10, a0) =~= m.cpu.registers);
    }
}

/// Every run ends, by a halt or by an error, and never counts past the
/// budget: a run that starts within the budget ends within it, and a run
/// whose counter has reached the budget ends at once, as it is, with the
/// error for a used-up budget.
pub proof fn lemma_run_ends_within_budget(m: MachineView, max_cycles: nat)
    requires
        m.cpu.wf(),
    ensures
        !(run_spec(m, max_cycles).outcome is Continue),
        run_spec(m, max_cycles).next.cpu.wf(),
        m.cpu.cycles <= max_cycles ==> run_spec(m, max_cycles).next.cpu.cycles <= max_cycles,
        m.cpu.cycles >= max_cycles ==> run_spec(m, max_cycles) == fault(
            m,
            ErrorView::ExecutionError(budget_message()),
        ),
    decreases max_cycles - m.cpu.cycles, stall_rank(m.cpu),
{
    if m.cpu.cycles < max_cycles {
        lemma_cycle_progress(m);
        let effect = cycle_spec(m);
        if effect.outcome is Continue && effect.next.cpu != m.cpu {
            if effect.next.cpu.cycles == m.cpu.cycles {
                lemma_stalled_step(m);
            }
            lemma_run_ends_within_budget(effect.next, max_cycles);
        }
    }
}

/// How a step of a run ends.
pub enum StepView {
    /// The machine goes on.
    Running,
    /// The program has asked to exit.
    Halted,
    /// The program asks the host for this write, and waits for the answer.
    Write((u32, Seq<u8>)),
    /// The step failed with this error.
    Fault(ErrorView),
}

/// One step of a run whose writes the host does: the machine after the step,
/// and how the step ended.
///
/// The counter is held against the budget first. Where the next cycle asks
/// the host for a write, the step ends there and changes nothing: the write
/// is for the host to do and to answer. Else the cycle is run, and the step
/// fails where the cycle is a system call that has left the processor
/// exactly as it was.
pub open spec fn step_spec(m: MachineView, max_cycles: nat) -> (MachineView, StepView) {
    if m.cpu.cycles >= max_cycles {
        (m, StepView::Fault(ErrorView::ExecutionError(budget_message())))
    } else if pending_write_spec(m.cpu, m.memory) is Some {
        (m, StepView::Write(pending_write_spec(m.cpu, m.memory)->Some_0))
    } else {
        let effect = cycle_spec(m);
        match effect.outcome {
            Outcome::Halt => (effect.next, StepView::Halted),
            Outcome::Fault(error) => (effect.next, StepView::Fault(error)),
            Outcome::Continue => if effect.next.cpu == m.cpu {
                (effect.next, StepView::Fault(ErrorView::ExecutionError(stall_message())))
            } else {
                (effect.next, StepView::Running)
            },
        }
    }
}

/// The machine after a write that the host has done: the count of the bytes,
/// which `a2` holds, is in `a0`, and the write is on record.
pub open spec fn after_write(m: MachineView, write: (u32, Seq<u8>)) -> MachineView {
    MachineView {
        cpu: m.cpu.write(RegisterIndex::X10, m.cpu.read(RegisterIndex::X12)),
        output: m.output.push(write),
        ..m
    }
}

/// The cycle that asks the host for a write is the cycle that records the
/// write and returns its count in `a0`.
pub proof fn lemma_pending_write(m: MachineView)
    requires
        pending_write_spec(m.cpu, m.memory) is Some,
    ensures
        cycle_spec(m) == (Effect {
            next: after_write(m, pending_write_spec(m.cpu, m.memory)->Some_0),
            outcome: Outcome::Continue,
        }),
{
    reveal(execute_spec);
}

/// A run is its steps, with every write done and on record: a step that
/// goes on leaves the rest of the run to do, a step that halts or fails ends
/// the run as it ends, and after a write the run goes on from the machine
/// with the count in `a0`, or fails where that leaves the processor exactly
/// as it was.
pub proof fn lemma_run_by_steps(m: MachineView, max_cycles: nat)
    requires
        m.cpu.wf(),
    ensures
        match step_spec(m, max_cycles) {
            (next, StepView::Running) => run_spec(m, max_cycles) == run_spec(next, max_cycles),
            (next, StepView::Halted) => run_spec(m, max_cycles) == (Effect {
                next,
                outcome: Outcome::Halt,
            }),
            (next, StepView::Fault(error)) => run_spec(m, max_cycles) == fault(next, error),
            (next, StepView::Write(write)) => {
                let written = after_write(m, write);
                if written.cpu == m.cpu {
                    run_spec(m, max_cycles) == fault(
                        written,
                        ErrorView::ExecutionError(stall_message()),
                    )
                } else {
                    run_spec(m, max_cycles) == run_spec(written, max_cycles)
                }
            },
        },
{
    if m.cpu.cycles < max_cycles {
        let effect = cycle_spec(m);
        if pending_write_spec(m.cpu, m.memory) is Some {
            lemma_pending_write(m);
        } else {
            match effect.outcome {
                Outcome::Halt => {
                    assert(effect == (Effect { next: effect.next, outcome: Outcome::Halt }));
                },
                Outcome::Fault(error) => {
                    assert(effect == fault(effect.next, error));
                },
                Outcome::Continue => {
                    // The rest of the run is nearer to its end
                    lemma_cycle_progress(m);
                    if effect.next.cpu.cycles == m.cpu.cycles {
                        lemma_stalled_step(m);
                    }
                },
            }
        }
    }
}

} // verus!
