//! The chain position a proposal targets.

use vstd::prelude::*;

verus! {

/// Identifies where in the chain consensus is being run: a block number
/// together with the fork it belongs to.
#[derive(Clone, Copy, Debug, PartialEq, Eq, Structural)]
pub struct Height {
    pub block_number: u64,
    pub fork_id: u64,
}

impl Height {
    /// A height from its two components.
    pub fn new(block_number: u64, fork_id: u64) -> (r: Height)
        ensures
            r == (Height { block_number, fork_id }),
    {
        Height { block_number, fork_id }
    }
}

} // verus!
