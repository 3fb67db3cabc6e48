//! The trusted setup of the proof system.

use vstd::prelude::*;
use crate::utils::error::VmError;
use crate::zk::placeholder_bytes;

verus! {

/// The trusted setup. It stands in for a real one: its keys are
/// placeholders.
pub struct TrustedSetup {}

impl TrustedSetup {
    /// Always succeeds.
    pub fn new() -> (r: Result<TrustedSetup, VmError>)
        ensures
            r is Ok,
    {
        Ok(TrustedSetup {  })
    }

    /// Returns a proving key and a verification key, each 32 zero bytes.
    pub fn generate_keys(&self) -> (r: Result<(Vec<u8>, Vec<u8>), VmError>)
        ensures
            r is Ok,
            r->Ok_0.0@ == placeholder_bytes(),
            r->Ok_0.1@ == placeholder_bytes(),
    {
        let proving = vec![0u8; 32];
        let verification = vec![0u8; 32];
        assert(proving@ =~= placeholder_bytes());
        assert(verification@ =~= placeholder_bytes());
        Ok((proving, verification))
    }
}

} // verus!
