//! The RV32I instruction set: registers, instructions and their decoding.

pub mod decoder;
pub mod encoding;
pub mod encoding_laws;
pub mod instructions;
pub mod isa;
pub mod registers;

pub use decoder::Decoder;
pub use instructions::{Instruction, InstructionFormat};
pub use registers::{RegisterFile, RegisterIndex};
