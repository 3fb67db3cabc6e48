//! A virtual machine for the RV32I base integer instruction set.
//!
//! The machine decodes 32-bit instruction words and executes them on 32
//! registers and a flat memory of bytes. What each instruction does is
//! defined once, as a function on mathematical values, and every function
//! that runs is proved to do exactly that.
//!
//! The machine itself touches nothing outside. A whole run puts on record, in
//! order, what the program writes to standard output or standard error. A
//! host that writes at the call runs the program step by step instead: a step
//! hands each write out, and the host answers whether it has written.

pub mod loader;
pub mod risc_v;
pub mod utils;
pub mod vm;
pub mod zk;

pub use risc_v::Instruction;
pub use utils::error::VmError;
pub use vm::VirtualMachine;
pub use zk::Proof;
