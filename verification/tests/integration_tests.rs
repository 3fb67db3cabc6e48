//! The virtual machine seen from outside.

use zk_risc_v_vm::risc_v::RegisterIndex;
use zk_risc_v_vm::{VirtualMachine, VmError};

#[test]
fn test_basic_vm_creation() {
    let vm = VirtualMachine::new();
    let stats = vm.get_stats();
    assert_eq!(stats.cycles, 0);
    assert_eq!(stats.pc, 0);
}

#[test]
fn test_simple_program_execution() -> Result<(), VmError> {
    let mut vm = VirtualMachine::new();

    // addi x1, x0, 42, least significant byte first
    let program = [0x93, 0x00, 0xa0, 0x02];

    vm.load_binary(0x1000, &program)?;
    vm.set_pc(0x1000);

    vm.cpu_state_mut().increment_pc();
    vm.memory_mut().load_word(0x1000)?;

    Ok(())
}

#[test]
fn test_register_operations() {
    let mut vm = VirtualMachine::new();

    vm.set_register(RegisterIndex::X1, 42);
    assert_eq!(vm.cpu_state().read_register(RegisterIndex::X1), 42);

    // x0 is always 0
    vm.set_register(RegisterIndex::X0, 100);
    assert_eq!(vm.cpu_state().read_register(RegisterIndex::X0), 0);
}

#[test]
fn test_memory_operations() -> Result<(), VmError> {
    let mut vm = VirtualMachine::new();

    vm.memory_mut().store_word(0x1000, 0xdeadbeef)?;
    let value = vm.memory().load_word(0x1000)?;
    assert_eq!(value, 0xdeadbeef);

    vm.memory_mut().store_byte(0x2000, 0x42)?;
    let byte_value = vm.memory().load_byte(0x2000)?;
    assert_eq!(byte_value, 0x42);

    Ok(())
}
