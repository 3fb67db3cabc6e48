//! Register indices and the register file.

use vstd::prelude::*;

verus! {

/// The index of one of the 32 general-purpose registers, `x0` to `x31`.
#[derive(Debug, Clone, Copy, PartialEq, Eq, Structural)]
pub enum RegisterIndex {
    X0,
    X1,
    X2,
    X3,
    X4,
    X5,
    X6,
    X7,
    X8,
    X9,
    X10,
    X11,
    X12,
    X13,
    X14,
    X15,
    X16,
    X17,
    X18,
    X19,
    X20,
    X21,
    X22,
    X23,
    X24,
    X25,
    X26,
    X27,
    X28,
    X29,
    X30,
    X31,
}

impl RegisterIndex {
    /// The number of the register, between 0 and 31.
    pub open spec fn index(self) -> nat {
        match self {
            RegisterIndex::X0 => 0,
            RegisterIndex::X1 => 1,
            RegisterIndex::X2 => 2,
            RegisterIndex::X3 => 3,
            RegisterIndex::X4 => 4,
            RegisterIndex::X5 => 5,
            RegisterIndex::X6 => 6,
            RegisterIndex::X7 => 7,
            RegisterIndex::X8 => 8,
            RegisterIndex::X9 => 9,
            RegisterIndex::X10 => 10,
            RegisterIndex::X11 => 11,
            RegisterIndex::X12 => 12,
            RegisterIndex::X13 => 13,
            RegisterIndex::X14 => 14,
            RegisterIndex::X15 => 15,
            RegisterIndex::X16 => 16,
            RegisterIndex::X17 => 17,
            RegisterIndex::X18 => 18,
            RegisterIndex::X19 => 19,
            RegisterIndex::X20 => 20,
            RegisterIndex::X21 => 21,
            RegisterIndex::X22 => 22,
            RegisterIndex::X23 => 23,
            RegisterIndex::X24 => 24,
            RegisterIndex::X25 => 25,
            RegisterIndex::X26 => 26,
            RegisterIndex::X27 => 27,
            RegisterIndex::X28 => 28,
            RegisterIndex::X29 => 29,
            RegisterIndex::X30 => 30,
            RegisterIndex::X31 => 31,
        }
    }

    /// The register with the given number, if there is one.
    pub open spec fn spec_from_u32(val: u32) -> Option<RegisterIndex> {
        match val {
            0 => Some(RegisterIndex::X0),
            1 => Some(RegisterIndex::X1),
            2 => Some(RegisterIndex::X2),
            3 => Some(RegisterIndex::X3),
            4 => Some(RegisterIndex::X4),
            5 => Some(RegisterIndex::X5),
            6 => Some(RegisterIndex::X6),
            7 => Some(RegisterIndex::X7),
            8 => Some(RegisterIndex::X8),
            9 => Some(RegisterIndex::X9),
            10 => Some(RegisterIndex::X10),
            11 => Some(RegisterIndex::X11),
            12 => Some(RegisterIndex::X12),
            13 => Some(RegisterIndex::X13),
            14 => Some(RegisterIndex::X14),
            15 => Some(RegisterIndex::X15),
            16 => Some(RegisterIndex::X16),
            17 => Some(RegisterIndex::X17),
            18 => Some(RegisterIndex::X18),
            19 => Some(RegisterIndex::X19),
            20 => Some(RegisterIndex::X20),
            21 => Some(RegisterIndex::X21),
            22 => Some(RegisterIndex::X22),
            23 => Some(RegisterIndex::X23),
            24 => Some(RegisterIndex::X24),
            25 => Some(RegisterIndex::X25),
            26 => Some(RegisterIndex::X26),
            27 => Some(RegisterIndex::X27),
            28 => Some(RegisterIndex::X28),
            29 => Some(RegisterIndex::X29),
            30 => Some(RegisterIndex::X30),
            31 => Some(RegisterIndex::X31),
            _ => None,
        }
    }

    /// Every register number is below 32, and `spec_from_u32` inverts `index`.
    pub proof fn lemma_index_round_trip(self)
        ensures
            self.index() < 32,
            Self::spec_from_u32(self.index() as u32) == Some(self),
    {
    }

    /// A number names a register exactly when it is at most 31, and that
    /// register then has this number.
    pub proof fn lemma_from_u32_valid(val: u32)
        ensures
            Self::spec_from_u32(val) is Some <==> val <= 31,
            val <= 31 ==> Self::spec_from_u32(val).unwrap().index() == val,
    {
    }

    /// Validates a register number: numbers above 31 name no register.
    pub fn from_u32(val: u32) -> (r: Option<RegisterIndex>)
        ensures
            r == Self::spec_from_u32(val),
            r is Some <==> val <= 31,
            r matches Some(reg) ==> reg.index() == val,
    {
        match val {
            0 => Some(RegisterIndex::X0),
            1 => Some(RegisterIndex::X1),
            2 => Some(RegisterIndex::X2),
            3 => Some(RegisterIndex::X3),
            4 => Some(RegisterIndex::X4),
            5 => Some(RegisterIndex::X5),
            6 => Some(RegisterIndex::X6),
            7 => Some(RegisterIndex::X7),
            8 => Some(RegisterIndex::X8),
            9 => Some(RegisterIndex::X9),
            10 => Some(RegisterIndex::X10),
            11 => Some(RegisterIndex::X11),
            12 => Some(RegisterIndex::X12),
            13 => Some(RegisterIndex::X13),
            14 => Some(RegisterIndex::X14),
            15 => Some(RegisterIndex::X15),
            16 => Some(RegisterIndex::X16),
            17 => Some(RegisterIndex::X17),
            18 => Some(RegisterIndex::X18),
            19 => Some(RegisterIndex::X19),
            20 => Some(RegisterIndex::X20),
            21 => Some(RegisterIndex::X21),
            22 => Some(RegisterIndex::X22),
            23 => Some(RegisterIndex::X23),
            24 => Some(RegisterIndex::X24),
            25 => Some(RegisterIndex::X25),
            26 => Some(RegisterIndex::X26),
            27 => Some(RegisterIndex::X27),
            28 => Some(RegisterIndex::X28),
            29 => Some(RegisterIndex::X29),
            30 => Some(RegisterIndex::X30),
            31 => Some(RegisterIndex::X31),
            _ => None,
        }
    }

    /// The number of the register as a machine integer.
    pub fn to_u32(self) -> (n: u32)
        ensures
            n == self.index(),
            n < 32,
    {
        match self {
            RegisterIndex::X0 => 0,
            RegisterIndex::X1 => 1,
            RegisterIndex::X2 => 2,
            RegisterIndex::X3 => 3,
            RegisterIndex::X4 => 4,
            RegisterIndex::X5 => 5,
            RegisterIndex::X6 => 6,
            RegisterIndex::X7 => 7,
            RegisterIndex::X8 => 8,
            RegisterIndex::X9 => 9,
            RegisterIndex::X10 => 10,
            RegisterIndex::X11 => 11,
            RegisterIndex::X12 => 12,
            RegisterIndex::X13 => 13,
            RegisterIndex::X14 => 14,
            RegisterIndex::X15 => 15,
            RegisterIndex::X16 => 16,
            RegisterIndex::X17 => 17,
            RegisterIndex::X18 => 18,
            RegisterIndex::X19 => 19,
            RegisterIndex::X20 => 20,
            RegisterIndex::X21 => 21,
            RegisterIndex::X22 => 22,
            RegisterIndex::X23 => 23,
            RegisterIndex::X24 => 24,
            RegisterIndex::X25 => 25,
            RegisterIndex::X26 => 26,
            RegisterIndex::X27 => 27,
            RegisterIndex::X28 => 28,
            RegisterIndex::X29 => 29,
            RegisterIndex::X30 => 30,
            RegisterIndex::X31 => 31,
        }
    }
}

/// The 32 general-purpose registers. Register `x0` is hardwired to zero.
#[derive(Debug, Clone)]
pub struct RegisterFile {
    registers: [u32; 32],
}

/// A register file in which every register holds zero.
pub open spec fn zeroed_registers() -> Seq<u32> {
    Seq::new(32, |i: int| 0u32)
}

/// The register values after writing `value` to register `index` of `regs`.
/// Writing to `x0` changes nothing.
pub open spec fn write_register_spec(regs: Seq<u32>, index: RegisterIndex, value: u32) -> Seq<u32> {
    if index == RegisterIndex::X0 {
        regs
    } else {
        regs.update(index.index() as int, value)
    }
}

/// Register `x0` reads as zero after every write: a write to `x0` changes
/// nothing, and a write to another register leaves `x0` alone.
pub proof fn lemma_zero_register(regs: Seq<u32>, index: RegisterIndex, value: u32)
    requires
        regs.len() == 32,
        regs[0] == 0,
    ensures
        write_register_spec(regs, index, value).len() == 32,
        write_register_spec(regs, index, value)[RegisterIndex::X0.index() as int] == 0,
        write_register_spec(regs, RegisterIndex::X0, value) == regs,
        index != RegisterIndex::X0 ==> write_register_spec(regs, index, value)[index.index() as int]
            == value,
{
}

impl View for RegisterFile {
    type V = Seq<u32>;

    /// The values that reads observe: 32 words, the first of which is zero.
    closed spec fn view(&self) -> Seq<u32> {
        Seq::new(32, |i: int| if i == 0 { 0u32 } else { self.registers@[i] })
    }
}

impl RegisterFile {
    /// The view always has 32 entries and a zero at index 0.
    pub proof fn lemma_view_shape(&self)
        ensures
            self@.len() == 32,
            self@[0] == 0,
    {
    }

    /// Creates a register file with all registers set to zero.
    pub fn new() -> (r: RegisterFile)
        ensures
            r@ == zeroed_registers(),
    {
        let r = RegisterFile { registers: [0; 32] };
        assert(r@ =~= zeroed_registers());
        r
    }

    /// Reads a register. Register `x0` always reads as zero.
    pub fn read(&self, index: RegisterIndex) -> (value: u32)
        ensures
            value == self@[index.index() as int],
            index == RegisterIndex::X0 ==> value == 0,
    {
        match index {
            RegisterIndex::X0 => 0,
            _ => {
                let i: usize = index.to_u32() as usize;
                self.registers[i]
            },
        }
    }

    /// Writes a register. Writes to `x0` are discarded.
    pub fn write(&mut self, index: RegisterIndex, value: u32)
        ensures
            final(self)@ == write_register_spec(old(self)@, index, value),
            final(self)@.len() == 32,
            final(self)@[0] == 0,
    {
        match index {
            RegisterIndex::X0 => {},
            _ => {
                let i: usize = index.to_u32() as usize;
                self.registers[i] = value;
                assert(self@ =~= old(self)@.update(index.index() as int, value));
            },
        }
    }

    /// Sets all registers to zero.
    pub fn reset(&mut self)
        ensures
            final(self)@ == zeroed_registers(),
    {
        self.registers = [0; 32];
        assert(self@ =~= zeroed_registers());
    }
}

impl Default for RegisterFile {
    fn default() -> (r: RegisterFile)
        ensures
            r@ == zeroed_registers(),
    {
        RegisterFile::new()
    }
}

} // verus!
