//! Program images in the ELF format.

use vstd::prelude::*;
use vstd::string::StringExecFns;
use crate::utils::error::{ErrorView, VmError};

verus! {

/// One segment of a program image: bytes and the address they belong at.
pub struct ElfSegment {
    pub virtual_addr: u32,
    pub data: Vec<u8>,
}

/// A program image: the address where execution starts, and the segments to
/// place in memory.
pub struct ElfFile {
    pub entry_point: u32,
    pub segments: Vec<ElfSegment>,
}

/// The loader of ELF files. Parsing is not available: every load fails.
pub struct ElfLoader {}

impl ElfLoader {
    pub fn new() -> (loader: ElfLoader) {
        ElfLoader {  }
    }

    /// Fails with an ELF error, whatever the path.
    pub fn load(&self, path: &str) -> (r: Result<ElfFile, VmError>)
        ensures
            r is Err,
            r->Err_0@ == ErrorView::ElfError("ELF loading not implemented"@),
    {
        Err(VmError::ElfError(String::from_str("ELF loading not implemented")))
    }
}

} // verus!
