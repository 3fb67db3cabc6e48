//! The state of the processor: registers, program counter, cycle counter.

use vstd::prelude::*;
use crate::risc_v::registers::{write_register_spec, zeroed_registers, RegisterFile, RegisterIndex};

verus! {

/// The registers, the program counter and the cycle counter.
#[derive(Debug, Clone)]
pub struct CpuState {
    /// General-purpose registers
    pub registers: RegisterFile,
    /// Program counter
    pub pc: u32,
    /// Cycle counter
    pub cycles: u64,
}

/// The processor state as mathematical values.
pub struct CpuView {
    pub registers: Seq<u32>,
    pub pc: u32,
    pub cycles: nat,
}

/// The sum of two numbers modulo 2^32.
#[verifier::opaque]
pub open spec fn wrapping_sum(a: int, b: int) -> u32 {
    ((a + b) % 0x1_0000_0000) as u32
}

impl CpuView {
    /// The state after a reset: everything is zero.
    pub open spec fn zeroed() -> CpuView {
        CpuView { registers: zeroed_registers(), pc: 0, cycles: 0 }
    }

    /// The value of a register.
    pub open spec fn read(self, index: RegisterIndex) -> u32 {
        self.registers[index.index() as int]
    }

    /// The state after a write to a register.
    pub open spec fn write(self, index: RegisterIndex, value: u32) -> CpuView {
        CpuView { registers: write_register_spec(self.registers, index, value), ..self }
    }

    /// The state after stepping to the next instruction: the program
    /// counter moves on by 4, modulo 2^32, and one cycle is counted.
    pub open spec fn advance(self) -> CpuView {
        CpuView { pc: wrapping_sum(self.pc as int, 4), cycles: self.cycles + 1, ..self }
    }

    /// The state after a jump: the program counter is replaced and one cycle
    /// is counted.
    pub open spec fn jump(self, target: u32) -> CpuView {
        CpuView { pc: target, cycles: self.cycles + 1, ..self }
    }

    /// There are 32 registers, and `x0` holds zero.
    pub open spec fn wf(self) -> bool {
        self.registers.len() == 32 && self.registers[0] == 0
    }
}

impl View for CpuState {
    type V = CpuView;

    open spec fn view(&self) -> CpuView {
        CpuView { registers: self.registers@, pc: self.pc, cycles: self.cycles as nat }
    }
}

impl CpuState {
    /// The view of every processor state is well-formed.
    pub proof fn lemma_wf(&self)
        ensures
            self@.wf(),
    {
        self.registers.lemma_view_shape();
    }

    /// Creates a processor state in which everything is zero.
    pub fn new() -> (cpu: CpuState)
        ensures
            cpu@ == CpuView::zeroed(),
    {
        CpuState { registers: RegisterFile::new(), pc: 0, cycles: 0 }
    }

    /// Sets the registers, the program counter and the cycle counter to
    /// zero.
    pub fn reset(&mut self)
        ensures
            final(self)@ == CpuView::zeroed(),
    {
        self.registers.reset();
        self.pc = 0;
        self.cycles = 0;
    }

    /// Reads a register. Register `x0` always reads as zero.
    pub fn read_register(&self, index: RegisterIndex) -> (value: u32)
        ensures
            value == self@.read(index),
            index == RegisterIndex::X0 ==> value == 0,
    {
        self.registers.read(index)
    }

    /// Writes a register. Writes to `x0` are discarded.
    pub fn write_register(&mut self, index: RegisterIndex, value: u32)
        ensures
            final(self)@ == old(self)@.write(index, value),
    {
        self.registers.write(index, value);
    }

    /// Moves the program counter on by 4, modulo 2^32, and counts one cycle.
    pub fn increment_pc(&mut self)
        requires
            old(self).cycles < u64::MAX,
        ensures
            final(self)@ == old(self)@.advance(),
    {
        reveal(wrapping_sum);
        self.pc = self.pc.wrapping_add(4);
        self.cycles += 1;
    }

    /// Replaces the program counter and counts one cycle.
    pub fn set_pc(&mut self, pc: u32)
        requires
            old(self).cycles < u64::MAX,
        ensures
            final(self)@ == old(self)@.jump(pc),
    {
        self.pc = pc;
        self.cycles += 1;
    }

    /// The program counter.
    pub fn get_pc(&self) -> (pc: u32)
        ensures
            pc == self.pc,
    {
        self.pc
    }

    /// The number of cycles counted so far.
    pub fn get_cycles(&self) -> (cycles: u64)
        ensures
            cycles == self.cycles,
    {
        self.cycles
    }
}

impl Default for CpuState {
    fn default() -> (cpu: CpuState)
        ensures
            cpu@ == CpuView::zeroed(),
    {
        CpuState::new()
    }
}

} // verus!
