//! The memory and the registers.

use zk_risc_v_vm::risc_v::{RegisterFile, RegisterIndex};
use zk_risc_v_vm::vm::{CpuState, Memory};
use zk_risc_v_vm::VmError;

fn violation_at<T: std::fmt::Debug>(result: Result<T, VmError>) -> u32 {
    match result {
        Err(VmError::MemoryViolation { address }) => address,
        other => panic!("expected a memory violation, got {:?}", other),
    }
}

#[test]
fn new_memory_is_zero() {
    let memory = Memory::new(16);
    assert_eq!(memory.size(), 16);
    for addr in 0..16 {
        assert_eq!(memory.load_byte(addr).unwrap(), 0);
    }
    assert_eq!(Memory::new(0).size(), 0);
}

#[test]
fn store_then_load_returns_the_value() {
    let mut memory = Memory::new(32);
    memory.store_byte(5, 0xA7).unwrap();
    assert_eq!(memory.load_byte(5).unwrap(), 0xA7);
    memory.store_halfword(6, 0xBEEF).unwrap();
    assert_eq!(memory.load_halfword(6).unwrap(), 0xBEEF);
    memory.store_word(9, 0x0102_0304).unwrap();
    assert_eq!(memory.load_word(9).unwrap(), 0x0102_0304);
    memory.store_word(28, 0xFFFF_FFFF).unwrap();
    assert_eq!(memory.load_word(28).unwrap(), 0xFFFF_FFFF);
    memory.store_halfword(0, 0).unwrap();
    assert_eq!(memory.load_halfword(0).unwrap(), 0);
}

#[test]
fn words_are_stored_least_significant_byte_first() {
    let mut memory = Memory::new(16);
    memory.store_word(4, 0x1234_5678).unwrap();
    assert_eq!(memory.load_byte(4).unwrap(), 0x78);
    assert_eq!(memory.load_byte(5).unwrap(), 0x56);
    assert_eq!(memory.load_byte(6).unwrap(), 0x34);
    assert_eq!(memory.load_byte(7).unwrap(), 0x12);
    assert_eq!(memory.load_halfword(4).unwrap(), 0x5678);
    assert_eq!(memory.load_halfword(6).unwrap(), 0x1234);
    assert_eq!(memory.load_byte(3).unwrap(), 0);
    assert_eq!(memory.load_byte(8).unwrap(), 0);
}

#[test]
fn halfwords_are_stored_least_significant_byte_first() {
    let mut memory = Memory::new(16);
    memory.store_halfword(2, 0xABCD).unwrap();
    assert_eq!(memory.load_byte(2).unwrap(), 0xCD);
    assert_eq!(memory.load_byte(3).unwrap(), 0xAB);
    assert_eq!(memory.load_byte(1).unwrap(), 0);
    assert_eq!(memory.load_byte(4).unwrap(), 0);
}

#[test]
fn words_are_read_least_significant_byte_first() {
    let mut memory = Memory::new(16);
    memory.store_bytes(0, &[0x11, 0x22, 0x33, 0x44, 0x55]).unwrap();
    assert_eq!(memory.load_word(0).unwrap(), 0x4433_2211);
    assert_eq!(memory.load_word(1).unwrap(), 0x5544_3322);
    assert_eq!(memory.load_halfword(3).unwrap(), 0x5544);
}

#[test]
fn access_at_the_end_of_memory() {
    let mut memory = Memory::new(16);
    assert!(memory.load_byte(15).is_ok());
    assert!(memory.load_halfword(14).is_ok());
    assert!(memory.load_word(12).is_ok());
    assert!(memory.store_byte(15, 1).is_ok());
    assert!(memory.store_halfword(14, 1).is_ok());
    assert!(memory.store_word(12, 1).is_ok());
    assert!(memory.load_bytes(0, 16).is_ok());
    assert!(memory.load_bytes(16, 0).is_ok());
    assert!(memory.store_bytes(16, &[]).is_ok());
}

#[test]
fn access_past_the_end_is_a_violation() {
    let memory = Memory::new(16);
    assert_eq!(violation_at(memory.load_byte(16)), 16);
    assert_eq!(violation_at(memory.load_halfword(15)), 15);
    assert_eq!(violation_at(memory.load_word(13)), 13);
    assert_eq!(violation_at(memory.load_word(0xFFFF_FFFF)), 0xFFFF_FFFF);
    assert_eq!(violation_at(memory.load_bytes(1, 16)), 1);
    assert_eq!(violation_at(memory.load_bytes(17, 0)), 17);
    assert_eq!(violation_at(memory.load_bytes(0, usize::MAX)), 0);
    assert_eq!(violation_at(memory.load_bytes(8, usize::MAX)), 8);
}

#[test]
fn refused_store_leaves_memory_unchanged() {
    let mut memory = Memory::new(8);
    memory.store_bytes(0, &[1, 2, 3, 4, 5, 6, 7, 8]).unwrap();
    assert_eq!(violation_at(memory.store_byte(8, 0xFF)), 8);
    assert_eq!(violation_at(memory.store_halfword(7, 0xFFFF)), 7);
    assert_eq!(violation_at(memory.store_word(5, 0xFFFF_FFFF)), 5);
    assert_eq!(violation_at(memory.store_bytes(4, &[9, 9, 9, 9, 9])), 4);
    assert_eq!(memory.load_bytes(0, 8).unwrap(), &[1, 2, 3, 4, 5, 6, 7, 8]);
    assert_eq!(memory.size(), 8);
}

#[test]
fn empty_memory_refuses_every_access() {
    let mut memory = Memory::new(0);
    assert_eq!(violation_at(memory.load_byte(0)), 0);
    assert_eq!(violation_at(memory.load_halfword(0)), 0);
    assert_eq!(violation_at(memory.load_word(0)), 0);
    assert_eq!(violation_at(memory.store_word(0, 1)), 0);
    assert!(memory.load_bytes(0, 0).unwrap().is_empty());
}

#[test]
fn bulk_transfer() {
    let mut memory = Memory::new(16);
    memory.store_bytes(3, &[10, 20, 30]).unwrap();
    assert_eq!(memory.load_bytes(2, 5).unwrap(), &[0, 10, 20, 30, 0]);
    assert_eq!(memory.load_bytes(4, 1).unwrap(), &[20]);
    memory.store_bytes(4, &[21, 31, 41]).unwrap();
    assert_eq!(memory.load_bytes(3, 4).unwrap(), &[10, 21, 31, 41]);
}

#[test]
fn clear_zeroes_and_keeps_the_size() {
    let mut memory = Memory::new(8);
    memory.store_bytes(0, &[1, 2, 3, 4, 5, 6, 7, 8]).unwrap();
    memory.clear();
    assert_eq!(memory.size(), 8);
    assert_eq!(memory.load_bytes(0, 8).unwrap(), &[0; 8]);
}

#[test]
fn register_index_from_number() {
    assert_eq!(RegisterIndex::from_u32(0), Some(RegisterIndex::X0));
    assert_eq!(RegisterIndex::from_u32(1), Some(RegisterIndex::X1));
    assert_eq!(RegisterIndex::from_u32(17), Some(RegisterIndex::X17));
    assert_eq!(RegisterIndex::from_u32(31), Some(RegisterIndex::X31));
    assert_eq!(RegisterIndex::from_u32(32), None);
    assert_eq!(RegisterIndex::from_u32(u32::MAX), None);
    for number in 0..32u32 {
        let index = RegisterIndex::from_u32(number).unwrap();
        assert_eq!(index as u32, number);
        assert_eq!(index.to_u32(), number);
    }
}

#[test]
fn register_zero_reads_zero_after_every_write() {
    let mut registers = RegisterFile::new();
    for value in [1u32, 100, 0xFFFF_FFFF] {
        registers.write(RegisterIndex::X0, value);
        assert_eq!(registers.read(RegisterIndex::X0), 0);
    }
    registers.write(RegisterIndex::X1, 7);
    assert_eq!(registers.read(RegisterIndex::X0), 0);
}

#[test]
fn registers_keep_what_is_written() {
    let mut registers = RegisterFile::new();
    for number in 1..32u32 {
        registers.write(RegisterIndex::from_u32(number).unwrap(), number * 3);
    }
    for number in 1..32u32 {
        assert_eq!(registers.read(RegisterIndex::from_u32(number).unwrap()), number * 3);
    }
    registers.reset();
    for number in 0..32u32 {
        assert_eq!(registers.read(RegisterIndex::from_u32(number).unwrap()), 0);
    }
    let fresh = RegisterFile::default();
    assert_eq!(fresh.read(RegisterIndex::X31), 0);
}

#[test]
fn cpu_state_counts_cycles() {
    let mut cpu = CpuState::new();
    assert_eq!((cpu.get_pc(), cpu.get_cycles()), (0, 0));
    cpu.increment_pc();
    assert_eq!((cpu.get_pc(), cpu.get_cycles()), (4, 1));
    cpu.set_pc(0x1000);
    assert_eq!((cpu.get_pc(), cpu.get_cycles()), (0x1000, 2));
    cpu.set_pc(0xFFFF_FFFE);
    cpu.increment_pc();
    assert_eq!((cpu.get_pc(), cpu.get_cycles()), (2, 4));
    cpu.write_register(RegisterIndex::X5, 9);
    assert_eq!(cpu.read_register(RegisterIndex::X5), 9);
    cpu.reset();
    assert_eq!((cpu.get_pc(), cpu.get_cycles()), (0, 0));
    assert_eq!(cpu.read_register(RegisterIndex::X5), 0);
    let fresh = CpuState::default();
    assert_eq!((fresh.get_pc(), fresh.get_cycles()), (0, 0));
}
