//! The instruction set architecture in one place.

pub use crate::risc_v::decoder::Decoder;
pub use crate::risc_v::instructions::{Instruction, InstructionFormat};
pub use crate::risc_v::registers::{RegisterFile, RegisterIndex};
