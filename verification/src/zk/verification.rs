//! Proof verification.

use vstd::prelude::*;
use crate::utils::error::VmError;
use crate::zk::Proof;

verus! {

/// The proof verifier. It stands in for a real one and accepts whatever it
/// is shown.
pub struct Verifier {}

impl Verifier {
    pub fn new() -> (verifier: Verifier) {
        Verifier {  }
    }

    /// Accepts every proof, whatever the public inputs.
    pub fn verify(&self, proof_value: &Proof, public_inputs: &[u8]) -> (r: Result<bool, VmError>)
        ensures
            r == Ok::<bool, VmError>(true),
    {
        Ok(true)
    }
}

} // verus!
