//! The interface to the proof system.

use vstd::prelude::*;
use crate::utils::error::VmError;

pub mod prover;
pub mod setup;
pub mod verification;

pub use prover::Prover;
pub use verification::Verifier;

verus! {

/// A proof of execution: an opaque payload of bytes.
#[derive(Debug, Clone)]
pub struct Proof {
    pub data: Vec<u8>,
}

/// The payload of the placeholder proof: 32 zero bytes.
pub open spec fn placeholder_bytes() -> Seq<u8> {
    Seq::new(32, |i: int| 0u8)
}

impl Proof {
    /// The placeholder proof, which proves nothing.
    pub fn dummy() -> (proof_value: Proof)
        ensures
            proof_value.data@ == placeholder_bytes(),
    {
        let proof_value = Proof { data: vec![0u8; 32] };
        assert(proof_value.data@ =~= placeholder_bytes());
        proof_value
    }
}

/// A record of one access to the memory.
#[derive(Debug, Clone)]
pub struct MemoryAccess {
    pub address: u32,
    pub value: u32,
    pub is_write: bool,
    pub cycle: u64,
}

/// What a run hands to the proof system: the instruction words in the order
/// they were executed, the registers after each of them, the memory accesses
/// in order, and the final cycle count.
#[derive(Debug, Clone)]
pub struct ExecutionTrace {
    pub instructions: Vec<u32>,
    pub register_states: Vec<[u32; 32]>,
    pub memory_accesses: Vec<MemoryAccess>,
    pub cycle_count: u64,
}

/// A proof system: it turns the trace of a run into a proof, and checks a
/// proof against public inputs.
pub trait ProofSystem {
    /// Generates a proof for an execution trace.
    fn generate_proof(&self, trace: &ExecutionTrace) -> Result<Proof, VmError>;

    /// Verifies a proof against public inputs.
    fn verify_proof(&self, proof_value: &Proof, public_inputs: &[u8]) -> Result<bool, VmError>;
}

} // verus!
