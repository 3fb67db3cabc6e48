//! Proof generation.

use vstd::prelude::*;
use crate::utils::error::VmError;
use crate::zk::{placeholder_bytes, ExecutionTrace, Proof, ProofSystem};

verus! {

/// The proof generator. It stands in for a real one: its proofs are
/// placeholders, and it accepts whatever it is shown.
pub struct Prover {}

impl Prover {
    pub fn new() -> (prover: Prover) {
        Prover {  }
    }
}

impl ProofSystem for Prover {
    /// Returns the placeholder proof, whatever the trace.
    fn generate_proof(&self, trace: &ExecutionTrace) -> (r: Result<Proof, VmError>)
        ensures
            r is Ok,
            r->Ok_0.data@ == placeholder_bytes(),
    {
        Ok(Proof::dummy())
    }

    /// Accepts every proof.
    fn verify_proof(&self, proof_value: &Proof, public_inputs: &[u8]) -> (r: Result<bool, VmError>)
        ensures
            r == Ok::<bool, VmError>(true),
    {
        Ok(true)
    }
}

} // verus!
