//! Whole runs of the virtual machine.

use zk_risc_v_vm::loader::ElfLoader;
use zk_risc_v_vm::risc_v::RegisterIndex;
use zk_risc_v_vm::utils::config::VmConfig;
use zk_risc_v_vm::vm::syscalls::Syscall;
use zk_risc_v_vm::zk::setup::TrustedSetup;
use zk_risc_v_vm::zk::{ExecutionTrace, Proof, ProofSystem, Prover, Verifier};
use zk_risc_v_vm::{VirtualMachine, VmError};

fn load_words(vm: &mut VirtualMachine, addr: u32, words: &[u32]) {
    for (i, &word) in words.iter().enumerate() {
        vm.memory_mut().store_word(addr + (i as u32) * 4, word).unwrap();
    }
}

fn small(max_cycles: u64) -> VirtualMachine {
    VirtualMachine::with_config(VmConfig { memory_size: 4096, enable_proofs: false, max_cycles })
}

fn execution_message(result: Result<(), VmError>) -> String {
    match result {
        Err(VmError::ExecutionError(message)) => message,
        other => panic!("expected an execution error, got {:?}", other),
    }
}

#[test]
fn default_configuration() {
    let config = VmConfig::default();
    assert_eq!(config.memory_size, 4 * 1024 * 1024);
    assert!(!config.enable_proofs);
    assert_eq!(config.max_cycles, 1_000_000);
    let vm = VirtualMachine::default();
    assert_eq!(vm.get_stats().memory_size, 4 * 1024 * 1024);
    assert_eq!(vm.memory().size(), 4 * 1024 * 1024);
    assert!(vm.output().is_empty());
}

#[test]
fn sum_program_runs_to_completion() {
    let mut vm = VirtualMachine::new();
    load_words(
        &mut vm,
        0x1000,
        &[
            0x00a00093, // addi x1, x0, 10
            0x02000113, // addi x2, x0, 32
            0x002081b3, // add x3, x1, x2
            0x00018513, // addi x10, x3, 0
            0x05d00893, // addi x17, x0, 93
            0x00000073, // ecall
        ],
    );
    vm.set_pc(0x1000);
    assert!(vm.execute().is_ok());
    assert_eq!(vm.cpu_state().read_register(RegisterIndex::X10), 42);
    assert_eq!(vm.cpu_state().read_register(RegisterIndex::X3), 42);
    assert_eq!(vm.get_stats().cycles, 6);
    assert_eq!(vm.get_stats().pc, 0x1014);
}

#[test]
fn pure_exit_halts_without_error() {
    let mut vm = VirtualMachine::new();
    load_words(&mut vm, 0, &[0x05d00893, 0x00000513, 0x00000073]);
    assert!(vm.execute().is_ok());
    assert_eq!(vm.get_stats().cycles, 2);
    assert_eq!(vm.get_stats().pc, 8);
}

#[test]
fn endless_loop_ends_at_the_cycle_budget() {
    let mut vm = small(100);
    load_words(&mut vm, 0, &[0x0000006f]); // jal x0, 0
    assert_eq!(execution_message(vm.execute()), "Maximum cycles exceeded");
    assert_eq!(vm.get_stats().cycles, 100);
    assert_eq!(vm.get_stats().pc, 0);
}

#[test]
fn budget_of_zero_runs_nothing() {
    let mut vm = small(0);
    load_words(&mut vm, 0, &[0x02a00093]);
    assert_eq!(execution_message(vm.execute()), "Maximum cycles exceeded");
    assert_eq!(vm.get_stats().cycles, 0);
    assert_eq!(vm.cpu_state().read_register(RegisterIndex::X1), 0);
}

#[test]
fn budget_counts_the_cycle_of_set_pc() {
    let mut vm = small(3);
    // three instructions fit a budget of three, but set_pc has used one
    load_words(&mut vm, 16, &[0x00a00093, 0x02000113, 0x002081b3]);
    vm.set_pc(16);
    assert_eq!(execution_message(vm.execute()), "Maximum cycles exceeded");
    assert_eq!(vm.get_stats().cycles, 3);
    assert_eq!(vm.cpu_state().read_register(RegisterIndex::X2), 32);
    assert_eq!(vm.cpu_state().read_register(RegisterIndex::X3), 0);
}

#[test]
fn run_stops_at_a_word_that_is_no_instruction() {
    let mut vm = small(100);
    load_words(&mut vm, 0, &[0x02a00093, 0xFFFF_FFFF]);
    assert!(matches!(vm.execute(), Err(VmError::InvalidInstruction(0xFFFF_FFFF))));
    assert_eq!(vm.get_stats().cycles, 1);
    assert_eq!(vm.get_stats().pc, 4);
    assert_eq!(vm.cpu_state().read_register(RegisterIndex::X1), 42);
}

#[test]
fn run_stops_when_it_leaves_the_memory() {
    let mut vm = small(10_000);
    // 4096 bytes of zero words are no instructions; jump to the end instead
    load_words(&mut vm, 0, &[0x7fc0006f]); // jal x0, 2044
    load_words(&mut vm, 2044, &[0x7fc0006f]); // jal x0, 2044
    load_words(&mut vm, 4088, &[0x00000013, 0x00000013]); // two nops up to the end
    assert!(matches!(vm.execute(), Err(VmError::MemoryViolation { address: 4096 })));
    assert_eq!(vm.get_stats().pc, 4096);
    assert_eq!(vm.get_stats().cycles, 4);
}

#[test]
fn run_stops_at_a_breakpoint() {
    let mut vm = small(100);
    load_words(&mut vm, 0, &[0x02a00093, 0x00100073]);
    assert_eq!(execution_message(vm.execute()), "Breakpoint encountered");
    assert_eq!(vm.get_stats().pc, 4);
}

#[test]
fn unknown_system_call_ends_the_run() {
    let mut vm = small(100);
    load_words(&mut vm, 0, &[0x00700893, 0x00000073]); // addi x17, x0, 7; ecall
    match vm.execute() {
        Err(VmError::SyscallError(message)) => assert_eq!(message, "Unknown syscall: 7"),
        other => panic!("expected a system call error, got {:?}", other),
    }
    assert_eq!(vm.get_stats().pc, 4);
    assert_eq!(vm.get_stats().cycles, 1);
}

#[test]
fn write_is_recorded_and_the_call_is_fetched_again() {
    let mut vm = small(100);
    vm.load_binary(0x100, b"hello").unwrap();
    load_words(
        &mut vm,
        0,
        &[
            0x04000893, // addi x17, x0, 64
            0x00100513, // addi x10, x0, 1
            0x10000593, // addi x11, x0, 0x100
            0x00500613, // addi x12, x0, 5
            0x00000073, // ecall
        ],
    );
    // The call returns 5 in a0 and is then fetched again, with 5 as its descriptor
    match vm.execute() {
        Err(VmError::SyscallError(message)) => {
            assert_eq!(message, "Unsupported file descriptor: 5")
        }
        other => panic!("expected a system call error, got {:?}", other),
    }
    assert_eq!(vm.output().len(), 1);
    assert_eq!(vm.output()[0].fd, 1);
    assert_eq!(vm.output()[0].data, b"hello".to_vec());
    assert_eq!(vm.get_stats().pc, 16);
    assert_eq!(vm.get_stats().cycles, 4);
}

#[test]
fn read_that_changes_nothing_ends_the_run() {
    let mut vm = small(100);
    load_words(&mut vm, 0, &[0x03f00893, 0x00000073]); // addi x17, x0, 63; ecall
    assert_eq!(execution_message(vm.execute()), "System call repeats without progress");
    assert_eq!(vm.get_stats().pc, 4);
    assert_eq!(vm.get_stats().cycles, 1);
}

#[test]
fn write_that_changes_nothing_ends_the_run() {
    let mut vm = small(100);
    vm.load_binary(0x100, b"ab").unwrap();
    load_words(
        &mut vm,
        0,
        &[
            0x04000893, // addi x17, x0, 64
            0x00100513, // addi x10, x0, 1
            0x10000593, // addi x11, x0, 0x100
            0x00200613, // addi x12, x0, 2
            0x00000073, // ecall
        ],
    );
    // The first call turns the descriptor into 2; the second leaves it so
    assert_eq!(execution_message(vm.execute()), "System call repeats without progress");
    assert_eq!(vm.output().len(), 2);
    assert_eq!((vm.output()[0].fd, vm.output()[1].fd), (1, 2));
    assert_eq!(vm.output()[1].data, b"ab".to_vec());
    assert_eq!(vm.get_stats().cycles, 4);
}

#[test]
fn load_binary_checks_the_bounds() {
    let mut vm = small(10);
    assert!(vm.load_binary(4092, &[1, 2, 3, 4]).is_ok());
    assert_eq!(vm.memory().load_word(4092).unwrap(), 0x0403_0201);
    assert!(matches!(
        vm.load_binary(4093, &[1, 2, 3, 4]),
        Err(VmError::MemoryViolation { address: 4093 })
    ));
    assert_eq!(vm.memory().load_word(4092).unwrap(), 0x0403_0201);
    assert!(vm.load_binary(4096, &[]).is_ok());
}

#[test]
fn load_elf_is_not_available() {
    let mut vm = small(10);
    match vm.load_elf("program.elf") {
        Err(VmError::ElfError(message)) => assert_eq!(message, "ELF loading not yet implemented"),
        other => panic!("expected an ELF error, got {:?}", other),
    }
    match ElfLoader::new().load("program.elf") {
        Err(VmError::ElfError(message)) => assert_eq!(message, "ELF loading not implemented"),
        Err(other) => panic!("expected an ELF error, got {:?}", other),
        Ok(_) => panic!("expected an ELF error"),
    }
}

#[test]
fn reset_zeroes_the_machine() {
    let mut vm = small(100);
    vm.load_binary(0x100, b"x").unwrap();
    load_words(&mut vm, 0, &[0x04000893, 0x00100513, 0x10000593, 0x00100613, 0x00000073]);
    vm.set_register(RegisterIndex::X5, 9);
    let _ = vm.execute();
    assert!(!vm.output().is_empty());
    vm.reset();
    let stats = vm.get_stats();
    assert_eq!((stats.cycles, stats.pc, stats.memory_size), (0, 0, 4096));
    assert_eq!(vm.cpu_state().read_register(RegisterIndex::X5), 0);
    assert_eq!(vm.cpu_state().read_register(RegisterIndex::X17), 0);
    assert_eq!(vm.memory().load_word(0).unwrap(), 0);
    assert_eq!(vm.memory().load_byte(0x100).unwrap(), 0);
    assert!(vm.output().is_empty());
}

#[test]
fn set_pc_counts_a_cycle() {
    let mut vm = small(10);
    vm.set_pc(0x40);
    assert_eq!(vm.get_stats().pc, 0x40);
    assert_eq!(vm.get_stats().cycles, 1);
    assert_eq!(vm.cpu_state().get_pc(), 0x40);
}

#[test]
fn proof_needs_to_be_enabled() {
    let mut vm = small(10);
    load_words(&mut vm, 0, &[0x05d00893, 0x00000073]);
    match vm.execute_with_proof() {
        Err(VmError::ProofError(message)) => assert_eq!(message, "Proof generation not enabled"),
        other => panic!("expected a proof error, got {:?}", other),
    }
    // nothing has run
    assert_eq!(vm.get_stats().cycles, 0);
    assert_eq!(vm.cpu_state().read_register(RegisterIndex::X17), 0);
}

#[test]
fn proof_of_a_run() {
    let config = VmConfig { memory_size: 64, enable_proofs: true, max_cycles: 10 };
    let mut vm = VirtualMachine::with_config(config);
    load_words(&mut vm, 0, &[0x05d00893, 0x00000073]);
    let proof = vm.execute_with_proof().unwrap();
    assert_eq!(proof.data, vec![0u8; 32]);
    assert_eq!(vm.cpu_state().read_register(RegisterIndex::X17), 93);
}

#[test]
fn proof_of_a_failing_run_is_its_error() {
    let config = VmConfig { memory_size: 64, enable_proofs: true, max_cycles: 10 };
    let mut vm = VirtualMachine::with_config(config);
    load_words(&mut vm, 0, &[0x0000006f]);
    match vm.execute_with_proof() {
        Err(VmError::ExecutionError(message)) => assert_eq!(message, "Maximum cycles exceeded"),
        other => panic!("expected an execution error, got {:?}", other),
    }
}

#[test]
fn placeholder_proof_system() {
    assert_eq!(Proof::dummy().data, vec![0u8; 32]);
    let trace = ExecutionTrace {
        instructions: vec![0x02a00093],
        register_states: vec![[0u32; 32]],
        memory_accesses: Vec::new(),
        cycle_count: 1,
    };
    let prover = Prover::new();
    let proof = prover.generate_proof(&trace).unwrap();
    assert_eq!(proof.data, vec![0u8; 32]);
    assert!(matches!(prover.verify_proof(&proof, &[1, 2, 3]), Ok(true)));
    assert!(matches!(Verifier::new().verify(&proof, &[]), Ok(true)));
    let setup = TrustedSetup::new().unwrap();
    let (proving, verification) = setup.generate_keys().unwrap();
    assert_eq!(proving, vec![0u8; 32]);
    assert_eq!(verification, vec![0u8; 32]);
}

#[test]
fn system_call_numbers() {
    assert!(matches!(Syscall::from_number(93), Some(Syscall::Exit)));
    assert!(matches!(Syscall::from_number(64), Some(Syscall::Write)));
    assert!(matches!(Syscall::from_number(63), Some(Syscall::Read)));
    assert!(Syscall::from_number(0).is_none());
    assert!(Syscall::from_number(62).is_none());
    assert!(Syscall::from_number(65).is_none());
    assert!(Syscall::from_number(u32::MAX).is_none());
}
