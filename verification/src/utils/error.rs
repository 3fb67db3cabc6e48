//! The errors of the virtual machine.

use vstd::prelude::*;
use vstd::std_specs::convert::FromSpecImpl;

verus! {

/// `std::io::Error`, the error of the host's I/O operations. Nothing is
/// claimed of its values.
#[verifier::external_type_specification]
#[verifier::external_body]
pub struct ExIoError(std::io::Error);

/// `serde_json::Error`, the error of writing and reading JSON. Nothing is
/// claimed of its values.
#[verifier::external_type_specification]
#[verifier::external_body]
pub struct ExJsonError(serde_json::Error);

/// Everything that can go wrong while loading, running or proving a program.
/// Every error is fatal to the current run.
#[derive(Debug)]
pub enum VmError {
    /// A word that is no supported instruction.
    InvalidInstruction(u32),
    /// A memory access that does not lie within the memory: by a load, a
    /// store, a fetch, or the buffer of a system call.
    MemoryViolation { address: u32 },
    /// A register number above 31.
    InvalidRegister(u32),
    /// A program image could not be loaded.
    ElfError(String),
    /// The host failed to read or write.
    IoError(std::io::Error),
    /// A value could not be serialised or deserialised.
    SerializationError(serde_json::Error),
    /// No proof could be produced.
    ProofError(String),
    /// A proof could not be verified.
    VerificationError(String),
    /// An unknown system call, an unsupported file descriptor, or a failure
    /// of the host to read or write.
    SyscallError(String),
    /// The cycle budget is used up, a breakpoint was reached, or the machine
    /// can make no further progress.
    ExecutionError(String),
}

/// What an error says, with its message as a sequence of characters.
pub enum ErrorView {
    InvalidInstruction(u32),
    MemoryViolation { address: u32 },
    InvalidRegister(u32),
    ElfError(Seq<char>),
    IoError,
    SerializationError,
    ProofError(Seq<char>),
    VerificationError(Seq<char>),
    SyscallError(Seq<char>),
    ExecutionError(Seq<char>),
}

impl View for VmError {
    type V = ErrorView;

    open spec fn view(&self) -> ErrorView {
        match self {
            VmError::InvalidInstruction(word) => ErrorView::InvalidInstruction(*word),
            VmError::MemoryViolation { address } => ErrorView::MemoryViolation {
                address: *address,
            },
            VmError::InvalidRegister(number) => ErrorView::InvalidRegister(*number),
            VmError::ElfError(message) => ErrorView::ElfError(message@),
            VmError::IoError(_) => ErrorView::IoError,
            VmError::SerializationError(_) => ErrorView::SerializationError,
            VmError::ProofError(message) => ErrorView::ProofError(message@),
            VmError::VerificationError(message) => ErrorView::VerificationError(message@),
            VmError::SyscallError(message) => ErrorView::SyscallError(message@),
            VmError::ExecutionError(message) => ErrorView::ExecutionError(message@),
        }
    }
}

impl From<std::io::Error> for VmError {
    /// A failure of the host's I/O as an error of the machine.
    fn from(error: std::io::Error) -> (r: VmError) {
        VmError::IoError(error)
    }
}

impl FromSpecImpl<std::io::Error> for VmError {
    open spec fn obeys_from_spec() -> bool {
        true
    }

    open spec fn from_spec(error: std::io::Error) -> VmError {
        VmError::IoError(error)
    }
}

impl From<serde_json::Error> for VmError {
    /// A failure to serialise or deserialise as an error of the machine.
    fn from(error: serde_json::Error) -> (r: VmError) {
        VmError::SerializationError(error)
    }
}

impl FromSpecImpl<serde_json::Error> for VmError {
    open spec fn obeys_from_spec() -> bool {
        true
    }

    open spec fn from_spec(error: serde_json::Error) -> VmError {
        VmError::SerializationError(error)
    }
}

} // verus!
