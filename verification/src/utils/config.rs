//! The configuration of a virtual machine.

use vstd::prelude::*;

verus! {

/// What a virtual machine is built with.
#[derive(Debug, Clone)]
pub struct VmConfig {
    /// Memory size in bytes
    pub memory_size: usize,
    /// Whether proofs of execution may be asked for
    pub enable_proofs: bool,
    /// The cycle budget of a run
    pub max_cycles: u64,
}

impl Default for VmConfig {
    /// 4 MiB of memory, no proofs, and a budget of one million cycles.
    fn default() -> (config: VmConfig)
        ensures
            config.memory_size == 4 * 1024 * 1024,
            !config.enable_proofs,
            config.max_cycles == 1_000_000,
    {
        VmConfig { memory_size: 4 * 1024 * 1024, enable_proofs: false, max_cycles: 1_000_000 }
    }
}

} // verus!
