//! Loading of program images.

pub mod elf;

pub use elf::ElfLoader;
