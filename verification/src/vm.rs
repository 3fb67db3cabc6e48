//! The virtual machine: processor state, memory, execution and system calls.

use vstd::prelude::*;
use vstd::string::StringExecFns;
use crate::risc_v::registers::RegisterIndex;
use crate::utils::config::VmConfig;
use crate::utils::error::{ErrorView, VmError};
use crate::zk::{placeholder_bytes, Proof};

pub mod byte_order;
pub mod cpu;
pub mod executor;
pub mod laws;
pub mod memory;
pub mod messages;
pub mod run;
pub mod semantics;
pub mod syscalls;

pub use cpu::CpuState;
pub use executor::Executor;
pub use memory::Memory;
pub use syscalls::SyscallHandler;

use cpu::CpuView;
use memory::{in_bounds, write_bytes};
use messages::{budget_exhausted, stall_message, stalled};
use run::{
    lemma_cycle_progress, lemma_stalled_step, run_spec, stall_rank, step_spec, StepView,
};
use semantics::{MachineView, Outcome};
use syscalls::{machine_view, output_view, HostWrite};

verus! {

/// A machine that has just been built or reset: everything is zero, and
/// nothing has been written for the host.
pub open spec fn initial_machine(memory_size: nat) -> MachineView {
    MachineView {
        cpu: CpuView::zeroed(),
        memory: Seq::new(memory_size, |i: int| 0u8),
        output: Seq::empty(),
    }
}

/// Whether the result of a run reports the given outcome: success for a
/// halt, and an error that says what the fault says. No run ends otherwise.
pub open spec fn run_reports(r: Result<(), VmError>, outcome: Outcome) -> bool {
    match outcome {
        Outcome::Continue => false,
        Outcome::Halt => r is Ok,
        Outcome::Fault(error) => r is Err && r->Err_0@ == error,
    }
}

/// Whether the result of a run with a proof reports the given outcome: the
/// placeholder proof for a halt, and an error that says what the fault
/// says.
pub open spec fn proof_reports(r: Result<Proof, VmError>, outcome: Outcome) -> bool {
    match outcome {
        Outcome::Continue => false,
        Outcome::Halt => r is Ok && r->Ok_0.data@ == placeholder_bytes(),
        Outcome::Fault(error) => r is Err && r->Err_0@ == error,
    }
}

/// How a step of a run ends.
#[derive(Debug)]
pub enum Step {
    /// The machine goes on.
    Running,
    /// The program has asked to exit.
    Halted,
    /// The program asks the host for this write, and waits for the answer.
    Write(HostWrite),
}

/// Whether the result of a step reports how the step ended.
pub open spec fn step_reports(r: Result<Step, VmError>, ended: StepView) -> bool {
    match ended {
        StepView::Running => r == Ok::<Step, VmError>(Step::Running),
        StepView::Halted => r == Ok::<Step, VmError>(Step::Halted),
        StepView::Write(write) => r matches Ok(Step::Write(asked)) && asked@ == write,
        StepView::Fault(error) => r is Err && r->Err_0@ == error,
    }
}

/// The numbers by which a machine is watched from outside.
#[derive(Debug, Clone)]
pub struct VmStats {
    pub cycles: u64,
    pub pc: u32,
    pub memory_size: usize,
}

/// A virtual machine: a processor, a memory, the configuration it was built
/// with, and what the program has written for the host.
#[derive(Debug)]
pub struct VirtualMachine {
    cpu: CpuState,
    memory: Memory,
    config: VmConfig,
    output: Vec<HostWrite>,
}

impl View for VirtualMachine {
    type V = MachineView;

    closed spec fn view(&self) -> MachineView {
        machine_view(self.cpu, self.memory, self.output)
    }
}

impl VirtualMachine {
    /// The configuration that the machine was built with.
    pub closed spec fn spec_config(&self) -> VmConfig {
        self.config
    }

    /// The registers of every machine are well-formed.
    pub proof fn lemma_wf(&self)
        ensures
            self@.cpu.wf(),
    {
        self.cpu.lemma_wf();
    }

    /// Creates a machine with the default configuration: 4 MiB of memory, no
    /// proofs, and a budget of one million cycles.
    pub fn new() -> (vm: VirtualMachine)
        ensures
            vm@ == initial_machine(4 * 1024 * 1024),
            vm.spec_config().memory_size == 4 * 1024 * 1024,
            !vm.spec_config().enable_proofs,
            vm.spec_config().max_cycles == 1_000_000,
    {
        let config = VmConfig::default();
        Self::with_config(config)
    }

    /// Creates a machine with the given configuration.
    pub fn with_config(config: VmConfig) -> (vm: VirtualMachine)
        ensures
            vm@ == initial_machine(config.memory_size as nat),
            vm.spec_config() == config,
    {
        let vm = VirtualMachine {
            cpu: CpuState::new(),
            memory: Memory::new(config.memory_size),
            config,
            output: Vec::new(),
        };
        assert(output_view(vm.output@) =~= Seq::empty());
        vm
    }

    /// Loads an ELF file into the memory. No ELF file can be loaded: the call
    /// fails and changes nothing.
    pub fn load_elf(&mut self, path: &str) -> (r: Result<(), VmError>)
        ensures
            r is Err,
            r->Err_0@ == ErrorView::ElfError("ELF loading not yet implemented"@),
            final(self)@ == old(self)@,
            final(self).spec_config() == old(self).spec_config(),
    {
        Err(VmError::ElfError(String::from_str("ELF loading not yet implemented")))
    }

    /// Copies `data` into the memory from `addr` on. Bytes that do not all lie
    /// within the memory are refused, and nothing is changed.
    pub fn load_binary(&mut self, addr: u32, data: &[u8]) -> (r: Result<(), VmError>)
        ensures
            final(self).spec_config() == old(self).spec_config(),
            in_bounds(old(self)@.memory, addr, data@.len() as int) ==> r == Ok::<(), VmError>(())
                && final(self)@ == (MachineView {
                memory: write_bytes(old(self)@.memory, addr as int, data@),
                ..old(self)@
            }),
            !in_bounds(old(self)@.memory, addr, data@.len() as int) ==> r == Err::<(), VmError>(
                VmError::MemoryViolation { address: addr },
            ) && final(self)@ == old(self)@,
    {
        self.memory.store_bytes(addr, data)
    }

    /// Sets the program counter, and counts one cycle.
    pub fn set_pc(&mut self, pc: u32)
        requires
            old(self)@.cpu.cycles < u64::MAX,
        ensures
            final(self)@ == (MachineView { cpu: old(self)@.cpu.jump(pc), ..old(self)@ }),
            final(self).spec_config() == old(self).spec_config(),
    {
        self.cpu.set_pc(pc);
    }

    /// Sets a register. Register `x0` stays zero.
    pub fn set_register(&mut self, reg: RegisterIndex, value: u32)
        ensures
            final(self)@ == (MachineView { cpu: old(self)@.cpu.write(reg, value), ..old(self)@ }),
            final(self).spec_config() == old(self).spec_config(),
    {
        self.cpu.write_register(reg, value);
    }

    /// Runs the program: cycle after cycle until the program exits, a cycle
    /// fails, or the cycle counter has reached the budget. After an error
    /// the machine is as the failing cycle left it. What the program writes
    /// is put on record, as for a host that accepts every write; a host that
    /// writes at the call runs the program by `step` instead.
    ///
    /// A system call counts no cycle. Where one returns and has left the
    /// processor exactly as it was, the machine could only repeat it for
    /// ever, and the run ends with an execution error.
    pub fn execute(&mut self) -> (r: Result<(), VmError>)
        ensures
            final(self).spec_config() == old(self).spec_config(),
            final(self)@ == run_spec(old(self)@, old(self).spec_config().max_cycles as nat).next,
            run_reports(
                r,
                run_spec(old(self)@, old(self).spec_config().max_cycles as nat).outcome,
            ),
    {
        loop
            invariant
                self.config == old(self).config,
                run_spec(self@, self.config.max_cycles as nat) == run_spec(
                    old(self)@,
                    old(self).config.max_cycles as nat,
                ),
            decreases self.config.max_cycles - self.cpu.cycles, stall_rank(self.cpu@),
        {
            proof {
                self.cpu.lemma_wf();
            }
            // Check the cycle budget
            if self.cpu.get_cycles() >= self.config.max_cycles {
                return Err(budget_exhausted());
            }
            let cycles = self.cpu.get_cycles();
            let a0 = self.cpu.read_register(RegisterIndex::X10);
            let ghost before = self@;

            // Execute one cycle
            let should_stop = match Executor::execute_cycle(
                &mut self.cpu,
                &mut self.memory,
                &mut self.output,
            ) {
                Ok(stop) => stop,
                Err(error) => {
                    return Err(error);
                },
            };
            if should_stop {
                return Ok(());
            }
            proof {
                lemma_cycle_progress(before);
                if self.cpu.cycles == cycles {
                    lemma_stalled_step(before);
                }
            }
            if self.cpu.get_cycles() == cycles && self.cpu.read_register(RegisterIndex::X10) == a0 {
                return Err(stalled());
            }
        }
    }

    /// Runs one step of the program, for a host that does the writes itself
    /// and may fail at them.
    ///
    /// The step fails once the cycle counter has reached the budget. Where
    /// the next cycle asks for a write, the step returns the write and
    /// changes nothing: the host writes and flushes the bytes, and answers
    /// through `complete_write`. Else the step runs the cycle, and fails where
    /// a system call has left the processor exactly as it was.
    ///
    /// Steps with every write answered by success make up the run that
    /// `execute` makes, but for the record of the writes.
    pub fn step(&mut self) -> (r: Result<Step, VmError>)
        ensures
            final(self).spec_config() == old(self).spec_config(),
            final(self)@ == step_spec(old(self)@, old(self).spec_config().max_cycles as nat).0,
            step_reports(r, step_spec(old(self)@, old(self).spec_config().max_cycles as nat).1),
    {
        proof {
            self.cpu.lemma_wf();
        }
        // Check the cycle budget
        if self.cpu.get_cycles() >= self.config.max_cycles {
            return Err(budget_exhausted());
        }
        // A write is left to the host
        match Executor::pending_write(&self.cpu, &self.memory) {
            Some(write) => {
                return Ok(Step::Write(write));
            },
            None => {},
        }
        let cycles = self.cpu.get_cycles();
        let a0 = self.cpu.read_register(RegisterIndex::X10);
        let ghost before = self@;

        // Execute one cycle
        let should_stop = match Executor::execute_cycle(
            &mut self.cpu,
            &mut self.memory,
            &mut self.output,
        ) {
            Ok(stop) => stop,
            Err(error) => {
                return Err(error);
            },
        };
        if should_stop {
            return Ok(Step::Halted);
        }
        proof {
            lemma_cycle_progress(before);
            if self.cpu.cycles == cycles {
                lemma_stalled_step(before);
            }
        }
        if self.cpu.get_cycles() == cycles && self.cpu.read_register(RegisterIndex::X10) == a0 {
            return Err(stalled());
        }
        Ok(Step::Running)
    }

    /// Completes the write that `step` has returned, by the answer of the
    /// host.
    ///
    /// Where the host has failed, the call fails with a system call error that
    /// carries the host's message, and nothing is changed. Where the host
    /// has written the bytes, their count, which `a2` holds, is returned in
    /// `a0`; but where `a0` holds it already, the machine could only ask for
    /// the same write for ever, and the call fails with an execution error.
    pub fn complete_write(&mut self, answer: Result<(), String>) -> (r: Result<(), VmError>)
        ensures
            final(self).spec_config() == old(self).spec_config(),
            answer is Err ==> r is Err && r->Err_0@ == ErrorView::SyscallError(answer->Err_0@)
                && final(self)@ == old(self)@,
            answer is Ok && old(self)@.cpu.read(RegisterIndex::X10) == old(self)@.cpu.read(
                RegisterIndex::X12,
            ) ==> r is Err && r->Err_0@ == ErrorView::ExecutionError(stall_message())
                && final(self)@ == old(self)@,
            answer is Ok && old(self)@.cpu.read(RegisterIndex::X10) != old(self)@.cpu.read(
                RegisterIndex::X12,
            ) ==> r is Ok && final(self)@ == (MachineView {
                cpu: old(self)@.cpu.write(
                    RegisterIndex::X10,
                    old(self)@.cpu.read(RegisterIndex::X12),
                ),
                ..old(self)@
            }),
    {
        let count = self.cpu.read_register(RegisterIndex::X12);
        if answer.is_ok() && self.cpu.read_register(RegisterIndex::X10) == count {
            return Err(stalled());
        }
        match SyscallHandler::complete_write(&mut self.cpu, count, answer) {
            Ok(_) => Ok(()),
            Err(error) => Err(error),
        }
    }

    /// Runs the program and returns a proof of the run. Where the
    /// configuration does not enable proofs, the call fails and changes
    /// nothing. The proof is a placeholder.
    pub fn execute_with_proof(&mut self) -> (r: Result<Proof, VmError>)
        ensures
            final(self).spec_config() == old(self).spec_config(),
            !old(self).spec_config().enable_proofs ==> r is Err && r->Err_0@
                == ErrorView::ProofError("Proof generation not enabled"@) && final(self)@ == old(
                self,
            )@,
            old(self).spec_config().enable_proofs ==> final(self)@ == run_spec(
                old(self)@,
                old(self).spec_config().max_cycles as nat,
            ).next && proof_reports(
                r,
                run_spec(old(self)@, old(self).spec_config().max_cycles as nat).outcome,
            ),
    {
        if !self.config.enable_proofs {
            return Err(VmError::ProofError(String::from_str("Proof generation not enabled")));
        }
        match self.execute() {
            Ok(()) => {},
            Err(error) => {
                return Err(error);
            },
        }
        Ok(Proof::dummy())
    }

    /// The processor.
    pub fn cpu_state(&self) -> (cpu: &CpuState)
        ensures
            cpu@ == self@.cpu,
    {
        &self.cpu
    }

    /// The processor, to change it.
    pub fn cpu_state_mut(&mut self) -> (cpu: &mut CpuState)
        ensures
            cpu@ == old(self)@.cpu,
            final(self)@ == (MachineView { cpu: final(cpu)@, ..old(self)@ }),
            final(self).spec_config() == old(self).spec_config(),
    {
        &mut self.cpu
    }

    /// The memory.
    pub fn memory(&self) -> (memory: &Memory)
        ensures
            memory@ == self@.memory,
    {
        &self.memory
    }

    /// The memory, to change it.
    pub fn memory_mut(&mut self) -> (memory: &mut Memory)
        ensures
            memory@ == old(self)@.memory,
            final(self)@ == (MachineView { memory: final(memory)@, ..old(self)@ }),
            final(self).spec_config() == old(self).spec_config(),
    {
        &mut self.memory
    }

    /// What `execute` has put on record of the writes of the program, in
    /// order.
    pub fn output(&self) -> (output: &Vec<HostWrite>)
        ensures
            output_view(output@) == self@.output,
    {
        &self.output
    }

    /// Sets the processor and the memory to zero and forgets what the program
    /// has written. The size of the memory and the configuration stay.
    pub fn reset(&mut self)
        ensures
            final(self)@ == initial_machine(old(self)@.memory.len()),
            final(self).spec_config() == old(self).spec_config(),
    {
        self.cpu.reset();
        self.memory.clear();
        self.output.clear();
        assert(output_view(self.output@) =~= Seq::empty());
    }

    /// The cycle count, the program counter and the size of the memory.
    pub fn get_stats(&self) -> (stats: VmStats)
        ensures
            stats.cycles == self@.cpu.cycles,
            stats.pc == self@.cpu.pc,
            stats.memory_size == self@.memory.len(),
    {
        VmStats {
            cycles: self.cpu.get_cycles(),
            pc: self.cpu.get_pc(),
            memory_size: self.memory.size(),
        }
    }
}

impl Default for VirtualMachine {
    fn default() -> (vm: VirtualMachine)
        ensures
            vm@ == initial_machine(4 * 1024 * 1024),
    {
        VirtualMachine::new()
    }
}

} // verus!
