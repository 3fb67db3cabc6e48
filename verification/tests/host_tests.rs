//! A run whose writes the host does, and the answers of the host.

use zk_risc_v_vm::risc_v::RegisterIndex;
use zk_risc_v_vm::utils::config::VmConfig;
use zk_risc_v_vm::vm::syscalls::Syscall;
use zk_risc_v_vm::vm::{CpuState, Executor, Memory, Step, SyscallHandler};
use zk_risc_v_vm::{VirtualMachine, VmError};

use RegisterIndex::{X10, X11, X12, X17};

fn machine(max_cycles: u64, words: &[u32]) -> VirtualMachine {
    let config = VmConfig { memory_size: 4096, enable_proofs: false, max_cycles };
    let mut vm = VirtualMachine::with_config(config);
    for (i, &word) in words.iter().enumerate() {
        vm.memory_mut().store_word((i as u32) * 4, word).unwrap();
    }
    vm
}

/// A program that writes `count` bytes from address 0x100 to descriptor `fd`.
fn writer(fd: u32, count: u32) -> VirtualMachine {
    let mut vm = machine(
        100,
        &[
            0x04000893,                 // addi x17, x0, 64
            0x00000513 | (fd << 20),    // addi x10, x0, fd
            0x10000593,                 // addi x11, x0, 0x100
            0x00000613 | (count << 20), // addi x12, x0, count
            0x00000073,                 // ecall
        ],
    );
    vm.load_binary(0x100, b"hello").unwrap();
    vm
}

fn steps_to_write(vm: &mut VirtualMachine) -> (u32, Vec<u8>) {
    for _ in 0..4 {
        assert!(matches!(vm.step(), Ok(Step::Running)));
    }
    match vm.step() {
        Ok(Step::Write(request)) => (request.fd, request.data),
        other => panic!("expected a write, got {:?}", other),
    }
}

#[test]
fn step_runs_one_cycle() {
    let mut vm = machine(100, &[0x02a00093, 0x05d00893, 0x00000073]);
    assert!(matches!(vm.step(), Ok(Step::Running)));
    assert_eq!(vm.cpu_state().read_register(RegisterIndex::X1), 42);
    assert_eq!((vm.get_stats().pc, vm.get_stats().cycles), (4, 1));
    assert!(matches!(vm.step(), Ok(Step::Running)));
    assert!(matches!(vm.step(), Ok(Step::Halted)));
    assert_eq!((vm.get_stats().pc, vm.get_stats().cycles), (8, 2));
}

#[test]
fn step_fails_at_the_budget() {
    let mut vm = machine(1, &[0x02a00093, 0x02a00093]);
    assert!(matches!(vm.step(), Ok(Step::Running)));
    match vm.step() {
        Err(VmError::ExecutionError(message)) => assert_eq!(message, "Maximum cycles exceeded"),
        other => panic!("expected an execution error, got {:?}", other),
    }
    assert_eq!((vm.get_stats().pc, vm.get_stats().cycles), (4, 1));
}

#[test]
fn step_fails_as_the_cycle_fails() {
    let mut vm = machine(100, &[0xFFFF_FFFF]);
    assert!(matches!(vm.step(), Err(VmError::InvalidInstruction(0xFFFF_FFFF))));
    let mut vm = machine(100, &[0x00100073]);
    assert!(matches!(vm.step(), Err(VmError::ExecutionError(_))));
    let mut vm = machine(100, &[0x03f00893, 0x00000073]); // a read that changes nothing
    assert!(matches!(vm.step(), Ok(Step::Running)));
    match vm.step() {
        Err(VmError::ExecutionError(message)) => {
            assert_eq!(message, "System call repeats without progress")
        }
        other => panic!("expected an execution error, got {:?}", other),
    }
}

#[test]
fn step_hands_a_write_to_the_host_and_changes_nothing() {
    let mut vm = writer(1, 5);
    assert_eq!(steps_to_write(&mut vm), (1, b"hello".to_vec()));
    assert_eq!(vm.cpu_state().read_register(X10), 1);
    assert_eq!((vm.get_stats().pc, vm.get_stats().cycles), (16, 4));
    assert!(vm.output().is_empty());
    // Unanswered, the same write is asked for again
    match vm.step() {
        Ok(Step::Write(request)) => assert_eq!(request.data, b"hello".to_vec()),
        other => panic!("expected a write, got {:?}", other),
    }
}

#[test]
fn answered_write_returns_the_count() {
    let mut vm = writer(1, 5);
    steps_to_write(&mut vm);
    assert!(vm.complete_write(Ok(())).is_ok());
    assert_eq!(vm.cpu_state().read_register(X10), 5);
    assert_eq!((vm.get_stats().pc, vm.get_stats().cycles), (16, 4));
    // The call is fetched again, with 5 as its descriptor, as in a whole run
    match vm.step() {
        Err(VmError::SyscallError(message)) => {
            assert_eq!(message, "Unsupported file descriptor: 5")
        }
        other => panic!("expected a system call error, got {:?}", other),
    }
}

#[test]
fn failed_write_ends_the_run_at_the_call() {
    let mut vm = writer(2, 5);
    assert_eq!(steps_to_write(&mut vm).0, 2);
    match vm.complete_write(Err("Write failed: broken pipe".to_string())) {
        Err(VmError::SyscallError(message)) => assert_eq!(message, "Write failed: broken pipe"),
        other => panic!("expected a system call error, got {:?}", other),
    }
    assert_eq!(vm.cpu_state().read_register(X10), 2);
    assert_eq!(vm.cpu_state().read_register(X12), 5);
    assert_eq!((vm.get_stats().pc, vm.get_stats().cycles), (16, 4));
}

#[test]
fn write_that_would_repeat_for_ever_fails_when_answered() {
    let mut vm = writer(2, 2);
    assert_eq!(steps_to_write(&mut vm), (2, b"he".to_vec()));
    match vm.complete_write(Ok(())) {
        Err(VmError::ExecutionError(message)) => {
            assert_eq!(message, "System call repeats without progress")
        }
        other => panic!("expected an execution error, got {:?}", other),
    }
    assert_eq!(vm.cpu_state().read_register(X10), 2);
}

#[test]
fn steps_with_every_write_accepted_end_as_the_whole_run() {
    for (fd, count) in [(1u32, 5u32), (1, 2), (2, 2), (1, 0), (3, 1), (1, 1)] {
        let mut whole = writer(fd, count);
        let expected = whole.execute();
        let mut stepped = writer(fd, count);
        let mut writes = Vec::new();
        let ended = loop {
            match stepped.step() {
                Ok(Step::Running) => {}
                Ok(Step::Halted) => break Ok(()),
                Ok(Step::Write(request)) => {
                    writes.push((request.fd, request.data));
                    if let Err(error) = stepped.complete_write(Ok(())) {
                        break Err(error);
                    }
                }
                Err(error) => break Err(error),
            }
        };
        assert_eq!(format!("{:?}", ended), format!("{:?}", expected));
        assert_eq!(stepped.get_stats().cycles, whole.get_stats().cycles);
        assert_eq!(stepped.get_stats().pc, whole.get_stats().pc);
        assert_eq!(
            stepped.cpu_state().read_register(X10),
            whole.cpu_state().read_register(X10)
        );
        let recorded: Vec<(u32, Vec<u8>)> =
            whole.output().iter().map(|w| (w.fd, w.data.clone())).collect();
        assert_eq!(writes, recorded);
    }
}

/// A program that writes 5 bytes from address 4104, past the 4096 bytes of
/// the memory.
fn stray_writer() -> VirtualMachine {
    let mut vm = writer(1, 5);
    vm.memory_mut().store_word(8, 0x00001597).unwrap(); // auipc x11, 1
    vm
}

#[test]
fn write_from_a_buffer_outside_memory_is_a_memory_violation() {
    let mut vm = stray_writer();
    assert!(matches!(vm.execute(), Err(VmError::MemoryViolation { address: 4104 })));
    assert!(vm.output().is_empty());
    assert_eq!(vm.cpu_state().read_register(X10), 1);
    assert_eq!(vm.cpu_state().read_register(X11), 4104);
    assert_eq!((vm.get_stats().pc, vm.get_stats().cycles), (16, 4));

    let mut stepped = stray_writer();
    for _ in 0..4 {
        assert!(matches!(stepped.step(), Ok(Step::Running)));
    }
    assert!(matches!(stepped.step(), Err(VmError::MemoryViolation { address: 4104 })));
    assert_eq!(stepped.cpu_state().read_register(X10), 1);
    assert_eq!((stepped.get_stats().pc, stepped.get_stats().cycles), (16, 4));
}

#[test]
fn write_request_of_a_system_call() {
    let mut cpu = CpuState::new();
    let mut memory = Memory::new(64);
    memory.store_bytes(8, b"abc").unwrap();
    cpu.write_register(X17, 64);
    cpu.write_register(X10, 2);
    cpu.write_register(X11, 8);
    cpu.write_register(X12, 3);
    let request = SyscallHandler::write_request(&cpu, &memory).unwrap();
    assert_eq!((request.fd, request.data), (2, b"abc".to_vec()));
    cpu.write_register(X12, 57);
    assert!(SyscallHandler::write_request(&cpu, &memory).is_none());
    cpu.write_register(X12, 56);
    assert_eq!(SyscallHandler::write_request(&cpu, &memory).unwrap().data.len(), 56);
    cpu.write_register(X10, 0);
    assert!(SyscallHandler::write_request(&cpu, &memory).is_none());
    cpu.write_register(X10, 3);
    assert!(SyscallHandler::write_request(&cpu, &memory).is_none());
    cpu.write_register(X10, 1);
    cpu.write_register(X17, 63);
    assert!(SyscallHandler::write_request(&cpu, &memory).is_none());
    cpu.write_register(X17, 93);
    assert!(SyscallHandler::write_request(&cpu, &memory).is_none());
}

#[test]
fn pending_write_needs_a_system_call_at_the_program_counter() {
    let mut cpu = CpuState::new();
    let mut memory = Memory::new(64);
    memory.store_bytes(8, b"abc").unwrap();
    memory.store_word(32, 0x00000073).unwrap(); // ecall
    memory.store_word(36, 0x00100073).unwrap(); // ebreak
    cpu.write_register(X17, 64);
    cpu.write_register(X10, 1);
    cpu.write_register(X11, 8);
    cpu.write_register(X12, 3);
    cpu.pc = 32;
    let request = Executor::pending_write(&cpu, &memory).unwrap();
    assert_eq!((request.fd, request.data), (1, b"abc".to_vec()));
    cpu.pc = 36;
    assert!(Executor::pending_write(&cpu, &memory).is_none());
    cpu.pc = 0;
    assert!(Executor::pending_write(&cpu, &memory).is_none());
    cpu.pc = 62;
    assert!(Executor::pending_write(&cpu, &memory).is_none());
    cpu.pc = 32;
    cpu.write_register(X12, 60);
    assert!(Executor::pending_write(&cpu, &memory).is_none());
}

#[test]
fn complete_write_on_the_processor() {
    let mut cpu = CpuState::new();
    cpu.write_register(X10, 1);
    cpu.pc = 0x40;
    assert!(matches!(SyscallHandler::complete_write(&mut cpu, 7, Ok(())), Ok(false)));
    assert_eq!(cpu.read_register(X10), 7);
    assert_eq!((cpu.get_pc(), cpu.get_cycles()), (0x40, 0));
    match SyscallHandler::complete_write(&mut cpu, 9, Err("Flush failed: full".to_string())) {
        Err(VmError::SyscallError(message)) => assert_eq!(message, "Flush failed: full"),
        other => panic!("expected a system call error, got {:?}", other),
    }
    assert_eq!(cpu.read_register(X10), 7);
    assert_eq!((cpu.get_pc(), cpu.get_cycles()), (0x40, 0));
}

#[test]
fn system_call_to_its_number() {
    assert_eq!(Syscall::Exit.to_number(), 93);
    assert_eq!(Syscall::Write.to_number(), 64);
    assert_eq!(Syscall::Read.to_number(), 63);
    for number in [93u32, 64, 63] {
        assert_eq!(Syscall::from_number(number).unwrap().to_number(), number);
    }
}

#[test]
fn outside_errors_become_errors_of_the_machine() {
    let io = std::io::Error::new(std::io::ErrorKind::Other, "disk gone");
    match VmError::from(io) {
        VmError::IoError(source) => assert_eq!(source.to_string(), "disk gone"),
        other => panic!("expected an I/O error, got {:?}", other),
    }
    let json = serde_json::from_str::<u32>("x").unwrap_err();
    let text = json.to_string();
    match VmError::from(json) {
        VmError::SerializationError(source) => assert_eq!(source.to_string(), text),
        other => panic!("expected a serialisation error, got {:?}", other),
    }
}
