//! The memory of the machine: a flat array of bytes.

use vstd::prelude::*;
use vstd::slice::slice_subrange;
use crate::utils::error::VmError;
use crate::vm::byte_order::{
    read_u16_le, read_u32_le, u16_from_le, u16_to_le, u32_from_le, u32_to_le, write_u16_le,
    write_u32_le,
};

verus! {

/// Whether the `width` bytes from address `addr` on lie within `mem`.
pub open spec fn in_bounds(mem: Seq<u8>, addr: u32, width: int) -> bool {
    addr + width <= mem.len()
}

/// `mem` with the bytes from address `addr` on replaced by `bytes`.
pub open spec fn write_bytes(mem: Seq<u8>, addr: int, bytes: Seq<u8>) -> Seq<u8> {
    Seq::new(
        mem.len(),
        |i: int|
            if addr <= i < addr + bytes.len() {
                bytes[i - addr]
            } else {
                mem[i]
            },
    )
}

/// The halfword stored at address `addr`, least significant byte first.
pub open spec fn halfword_at(mem: Seq<u8>, addr: int) -> u16 {
    u16_from_le(mem[addr], mem[addr + 1])
}

/// The word stored at address `addr`, least significant byte first.
pub open spec fn word_at(mem: Seq<u8>, addr: int) -> u32 {
    u32_from_le(mem[addr], mem[addr + 1], mem[addr + 2], mem[addr + 3])
}

/// A byte-addressable memory of fixed size. Every access is checked against
/// the size; halfwords and words are stored least significant byte first.
#[derive(Debug, Clone)]
pub struct Memory {
    data: Vec<u8>,
}

impl View for Memory {
    type V = Seq<u8>;

    closed spec fn view(&self) -> Seq<u8> {
        self.data@
    }
}

impl Memory {
    /// Creates a memory of `size` zero bytes.
    pub fn new(size: usize) -> (memory: Memory)
        ensures
            memory@ == Seq::new(size as nat, |i: int| 0u8),
    {
        let memory = Memory { data: vec![0u8; size] };
        assert(memory@ =~= Seq::new(size as nat, |i: int| 0u8));
        memory
    }

    /// Loads the byte at `addr`.
    pub fn load_byte(&self, addr: u32) -> (r: Result<u8, VmError>)
        ensures
            in_bounds(self@, addr, 1) ==> r == Ok::<u8, VmError>(self@[addr as int]),
            !in_bounds(self@, addr, 1) ==> r == Err::<u8, VmError>(
                VmError::MemoryViolation { address: addr },
            ),
    {
        let index = addr as usize;
        if index >= self.data.len() {
            return Err(VmError::MemoryViolation { address: addr });
        }
        Ok(self.data[index])
    }

    /// Loads the halfword at `addr`.
    pub fn load_halfword(&self, addr: u32) -> (r: Result<u16, VmError>)
        ensures
            in_bounds(self@, addr, 2) ==> r == Ok::<u16, VmError>(halfword_at(self@, addr as int)),
            !in_bounds(self@, addr, 2) ==> r == Err::<u16, VmError>(
                VmError::MemoryViolation { address: addr },
            ),
    {
        let index = addr as usize;
        if self.data.len() < 2 || index > self.data.len() - 2 {
            return Err(VmError::MemoryViolation { address: addr });
        }
        Ok(read_u16_le(slice_subrange(self.data.as_slice(), index, index + 2)))
    }

    /// Loads the word at `addr`.
    pub fn load_word(&self, addr: u32) -> (r: Result<u32, VmError>)
        ensures
            in_bounds(self@, addr, 4) ==> r == Ok::<u32, VmError>(word_at(self@, addr as int)),
            !in_bounds(self@, addr, 4) ==> r == Err::<u32, VmError>(
                VmError::MemoryViolation { address: addr },
            ),
    {
        let index = addr as usize;
        if self.data.len() < 4 || index > self.data.len() - 4 {
            return Err(VmError::MemoryViolation { address: addr });
        }
        Ok(read_u32_le(slice_subrange(self.data.as_slice(), index, index + 4)))
    }

    /// Stores a byte at `addr`.
    pub fn store_byte(&mut self, addr: u32, value: u8) -> (r: Result<(), VmError>)
        ensures
            in_bounds(old(self)@, addr, 1) ==> r == Ok::<(), VmError>(()) && final(self)@ == old(
                self,
            )@.update(addr as int, value),
            !in_bounds(old(self)@, addr, 1) ==> r == Err::<(), VmError>(
                VmError::MemoryViolation { address: addr },
            ) && final(self)@ == old(self)@,
    {
        let index = addr as usize;
        if index >= self.data.len() {
            return Err(VmError::MemoryViolation { address: addr });
        }
        self.data[index] = value;
        Ok(())
    }

    /// Stores a halfword at `addr`.
    pub fn store_halfword(&mut self, addr: u32, value: u16) -> (r: Result<(), VmError>)
        ensures
            in_bounds(old(self)@, addr, 2) ==> r == Ok::<(), VmError>(()) && final(self)@
                == write_bytes(old(self)@, addr as int, u16_to_le(value)),
            !in_bounds(old(self)@, addr, 2) ==> r == Err::<(), VmError>(
                VmError::MemoryViolation { address: addr },
            ) && final(self)@ == old(self)@,
    {
        let index = addr as usize;
        if self.data.len() < 2 || index > self.data.len() - 2 {
            return Err(VmError::MemoryViolation { address: addr });
        }
        let (_, tail) = self.data.as_mut_slice().split_at_mut(index);
        write_u16_le(tail, value);
        assert(self@ =~= write_bytes(old(self)@, addr as int, u16_to_le(value)));
        Ok(())
    }

    /// Stores a word at `addr`.
    pub fn store_word(&mut self, addr: u32, value: u32) -> (r: Result<(), VmError>)
        ensures
            in_bounds(old(self)@, addr, 4) ==> r == Ok::<(), VmError>(()) && final(self)@
                == write_bytes(old(self)@, addr as int, u32_to_le(value)),
            !in_bounds(old(self)@, addr, 4) ==> r == Err::<(), VmError>(
                VmError::MemoryViolation { address: addr },
            ) && final(self)@ == old(self)@,
    {
        let index = addr as usize;
        if self.data.len() < 4 || index > self.data.len() - 4 {
            return Err(VmError::MemoryViolation { address: addr });
        }
        let (_, tail) = self.data.as_mut_slice().split_at_mut(index);
        write_u32_le(tail, value);
        assert(self@ =~= write_bytes(old(self)@, addr as int, u32_to_le(value)));
        Ok(())
    }

    /// Borrows the `len` bytes from `addr` on.
    pub fn load_bytes(&self, addr: u32, len: usize) -> (r: Result<&[u8], VmError>)
        ensures
            in_bounds(self@, addr, len as int) ==> r is Ok && r->Ok_0@ == self@.subrange(
                addr as int,
                addr + len,
            ),
            !in_bounds(self@, addr, len as int) ==> r == Err::<&[u8], VmError>(
                VmError::MemoryViolation { address: addr },
            ),
    {
        let index = addr as usize;
        if len > self.data.len() || index > self.data.len() - len {
            return Err(VmError::MemoryViolation { address: addr });
        }
        Ok(slice_subrange(self.data.as_slice(), index, index + len))
    }

    /// Copies `data` into the memory from `addr` on.
    pub fn store_bytes(&mut self, addr: u32, data: &[u8]) -> (r: Result<(), VmError>)
        ensures
            in_bounds(old(self)@, addr, data@.len() as int) ==> r == Ok::<(), VmError>(())
                && final(self)@ == write_bytes(old(self)@, addr as int, data@),
            !in_bounds(old(self)@, addr, data@.len() as int) ==> r == Err::<(), VmError>(
                VmError::MemoryViolation { address: addr },
            ) && final(self)@ == old(self)@,
    {
        let index = addr as usize;
        let len = data.len();
        if len > self.data.len() || index > self.data.len() - len {
            return Err(VmError::MemoryViolation { address: addr });
        }
        let mut i: usize = 0;
        while i < len
            invariant
                i <= len,
                len == data@.len(),
                index + len <= self.data@.len() <= usize::MAX,
                self.data@.len() == old(self)@.len(),
                self@ == write_bytes(old(self)@, index as int, data@.subrange(0, i as int)),
            decreases len - i,
        {
            self.data[index + i] = data[i];
            i = i + 1;
            assert(self@ =~= write_bytes(old(self)@, index as int, data@.subrange(0, i as int)));
        }
        assert(data@.subrange(0, len as int) =~= data@);
        Ok(())
    }

    /// The number of bytes of the memory.
    pub fn size(&self) -> (size: usize)
        ensures
            size == self@.len(),
    {
        self.data.len()
    }

    /// Sets every byte to zero. The size stays.
    pub fn clear(&mut self)
        ensures
            final(self)@ == Seq::new(old(self)@.len(), |i: int| 0u8),
    {
        let len = self.data.len();
        let mut i: usize = 0;
        while i < len
            invariant
                i <= len,
                len == self.data@.len(),
                len == old(self)@.len(),
                forall|j: int| 0 <= j < i ==> self.data@[j] == 0,
            decreases len - i,
        {
            self.data[i] = 0;
            i = i + 1;
        }
        assert(self@ =~= Seq::new(old(self)@.len(), |i: int| 0u8));
    }
}

/// A value stored and then loaded at the same address and width comes back
/// unchanged, for bytes, halfwords and words.
pub proof fn lemma_store_then_load(mem: Seq<u8>, addr: u32, byte: u8, half: u16, word: u32)
    ensures
        in_bounds(mem, addr, 1) ==> mem.update(addr as int, byte)[addr as int] == byte,
        in_bounds(mem, addr, 2) ==> halfword_at(
            write_bytes(mem, addr as int, u16_to_le(half)),
            addr as int,
        ) == half,
        in_bounds(mem, addr, 4) ==> word_at(
            write_bytes(mem, addr as int, u32_to_le(word)),
            addr as int,
        ) == word,
{
}

/// A store changes the bytes it covers and no others, and keeps the size.
pub proof fn lemma_write_bytes_frame(mem: Seq<u8>, addr: int, bytes: Seq<u8>, i: int)
    requires
        0 <= addr,
        addr + bytes.len() <= mem.len(),
        0 <= i < mem.len(),
    ensures
        write_bytes(mem, addr, bytes).len() == mem.len(),
        addr <= i < addr + bytes.len() ==> write_bytes(mem, addr, bytes)[i] == bytes[i - addr],
        !(addr <= i < addr + bytes.len()) ==> write_bytes(mem, addr, bytes)[i] == mem[i],
{
}

} // verus!
