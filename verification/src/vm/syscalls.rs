//! System calls: the boundary between the program and its host.

use vstd::prelude::*;
use vstd::slice::slice_to_vec;
use crate::risc_v::registers::RegisterIndex;
use crate::utils::error::{ErrorView, VmError};
use crate::vm::cpu::CpuState;
use crate::vm::memory::Memory;
use crate::vm::messages::{unknown_syscall, unsupported_descriptor};
use crate::vm::semantics::{
    syscall_spec, write_request_spec, Effect, MachineView, Outcome,
};

verus! {

/// The system calls that the machine serves, numbered as Linux on RISC-V
/// numbers them.
#[derive(Debug, Clone, Copy)]
pub enum Syscall {
    Exit,
    Write,
    Read,
}

impl Syscall {
    /// The number of each system call.
    pub open spec fn number(self) -> u32 {
        match self {
            Syscall::Exit => 93,
            Syscall::Write => 64,
            Syscall::Read => 63,
        }
    }

    /// The system call with the given number, if there is one.
    pub open spec fn spec_from_number(num: u32) -> Option<Syscall> {
        if num == 93 {
            Some(Syscall::Exit)
        } else if num == 64 {
            Some(Syscall::Write)
        } else if num == 63 {
            Some(Syscall::Read)
        } else {
            None
        }
    }

    /// The number of the system call.
    pub fn to_number(self) -> (n: u32)
        ensures
            n == self.number(),
    {
        match self {
            Syscall::Exit => 93,
            Syscall::Write => 64,
            Syscall::Read => 63,
        }
    }

    /// Looks a system call up by its number.
    pub fn from_number(num: u32) -> (r: Option<Syscall>)
        ensures
            r == Self::spec_from_number(num),
            r matches Some(call) ==> call.number() == num,
            r is None <==> num != 93 && num != 64 && num != 63,
    {
        match num {
            93 => Some(Self::Exit),
            64 => Some(Self::Write),
            63 => Some(Self::Read),
            _ => None,
        }
    }
}

/// Bytes that the program has written for the host: the file descriptor, 1
/// for standard output or 2 for standard error, and the bytes.
#[derive(Debug, Clone)]
pub struct HostWrite {
    pub fd: u32,
    pub data: Vec<u8>,
}

impl View for HostWrite {
    type V = (u32, Seq<u8>);

    open spec fn view(&self) -> (u32, Seq<u8>) {
        (self.fd, self.data@)
    }
}

/// The writes of a log as mathematical values, in the order they were made.
pub open spec fn output_view(log: Seq<HostWrite>) -> Seq<(u32, Seq<u8>)> {
    Seq::new(log.len(), |i: int| log[i]@)
}

/// The three parts of a machine as one mathematical value.
pub open spec fn machine_view(
    cpu: CpuState,
    memory: Memory,
    output: Vec<HostWrite>,
) -> MachineView {
    MachineView { cpu: cpu@, memory: memory@, output: output_view(output@) }
}

/// Whether a result reports the given outcome: `Ok(false)` to go on,
/// `Ok(true)` to halt, and an error that says what the fault says.
pub open spec fn reports(r: Result<bool, VmError>, outcome: Outcome) -> bool {
    match outcome {
        Outcome::Continue => r == Ok::<bool, VmError>(false),
        Outcome::Halt => r == Ok::<bool, VmError>(true),
        Outcome::Fault(error) => r is Err && r->Err_0@ == error,
    }
}

/// Whether the three parts of a machine and a result are what an effect
/// says.
pub open spec fn realizes(
    cpu: CpuState,
    memory: Memory,
    output: Vec<HostWrite>,
    r: Result<bool, VmError>,
    effect: Effect,
) -> bool {
    &&& cpu@ == effect.next.cpu
    &&& memory@ == effect.next.memory
    &&& output_view(output@) == effect.next.output
    &&& reports(r, effect.outcome)
}

/// The system call handler.
pub struct SyscallHandler;

impl SyscallHandler {
    /// The write that the system call at hand asks of the host, if it asks
    /// for one. Nothing is changed.
    pub fn write_request(cpu: &CpuState, memory: &Memory) -> (r: Option<HostWrite>)
        ensures
            match write_request_spec(cpu@, memory@) {
                Some(write) => r is Some && r->Some_0@ == write,
                None => r is None,
            },
    {
        let fd = cpu.read_register(RegisterIndex::X10);
        let buf_addr = cpu.read_register(RegisterIndex::X11);
        let count = cpu.read_register(RegisterIndex::X12);
        if cpu.read_register(RegisterIndex::X17) != 64 || (fd != 1 && fd != 2) {
            return None;
        }
        match memory.load_bytes(buf_addr, count as usize) {
            Ok(bytes) => Some(HostWrite { fd, data: slice_to_vec(bytes) }),
            Err(_) => None,
        }
    }

    /// Completes a write by the answer of the host. Where the host has
    /// written and flushed the bytes, their count is returned in `a0` and the
    /// program goes on. Where it has failed, the call fails with a system
    /// call error that carries the host's message, and nothing is changed.
    pub fn complete_write(
        cpu: &mut CpuState,
        count: u32,
        answer: Result<(), String>,
    ) -> (r: Result<bool, VmError>)
        ensures
            answer is Ok ==> r == Ok::<bool, VmError>(false) && final(cpu)@ == old(cpu)@.write(
                RegisterIndex::X10,
                count,
            ),
            answer is Err ==> r is Err && r->Err_0@ == ErrorView::SyscallError(answer->Err_0@)
                && final(cpu)@ == old(cpu)@,
    {
        match answer {
            Ok(()) => {
                // The number of bytes written goes to a0
                cpu.write_register(RegisterIndex::X10, count);
                Ok(false)
            },
            Err(message) => Err(VmError::SyscallError(message)),
        }
    }

    /// Serves the system call whose number is in `a7` and whose arguments
    /// are in `a0` to `a2`. Returns whether the program has asked to exit.
    ///
    /// The bytes of a write are appended to `output`, and the call is
    /// completed as for a host that has written them: the count is returned
    /// in `a0`. A host that writes at the call, and may fail, takes the bytes
    /// from `write_request` and answers through `complete_write` instead. The
    /// memory is never changed, and neither are the program counter and the
    /// cycle counter.
    pub fn handle_syscall(
        cpu: &mut CpuState,
        memory: &mut Memory,
        output: &mut Vec<HostWrite>,
    ) -> (r: Result<bool, VmError>)
        ensures
            realizes(
                *final(cpu),
                *final(memory),
                *final(output),
                r,
                syscall_spec(machine_view(*old(cpu), *old(memory), *old(output))),
            ),
    {
        // The number is in register a7
        let syscall_num = cpu.read_register(RegisterIndex::X17);
        // The arguments are in registers a0 to a2
        let arg0 = cpu.read_register(RegisterIndex::X10);
        let arg1 = cpu.read_register(RegisterIndex::X11);
        let arg2 = cpu.read_register(RegisterIndex::X12);

        let syscall = match Syscall::from_number(syscall_num) {
            Some(call) => call,
            None => {
                return Err(unknown_syscall(syscall_num));
            },
        };

        match syscall {
            Syscall::Exit => {
                return Ok(true);
            },
            Syscall::Write => {
                let fd = arg0;
                let buf_addr = arg1;
                let count = arg2;
                if fd == 1 || fd == 2 {
                    let data = match memory.load_bytes(buf_addr, count as usize) {
                        Ok(bytes) => slice_to_vec(bytes),
                        Err(error) => {
                            return Err(error);
                        },
                    };
                    // The write is recorded for the host, which is taken to accept it
                    output.push(HostWrite { fd, data });
                    assert(output_view(output@) =~= output_view(old(output)@).push(
                        (fd, old(memory)@.subrange(buf_addr as int, buf_addr + count)),
                    ));
                    return Self::complete_write(cpu, count, Ok(()));
                } else {
                    return Err(unsupported_descriptor(fd));
                }
            },
            Syscall::Read => {
                let fd = arg0;
                if fd == 0 {
                    // Nothing is read from standard input
                    cpu.write_register(RegisterIndex::X10, 0);
                } else {
                    return Err(unsupported_descriptor(fd));
                }
            },
        }
        Ok(false)
    }
}

} // verus!
