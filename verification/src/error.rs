//! Errors surfaced by the proposal codec.

use vstd::prelude::*;

verus! {

/// A required field of the wire message.
#[derive(Clone, Copy, Debug, PartialEq, Eq, Structural)]
pub enum WireField {
    BlockHash,
    Proposer,
}

impl WireField {
    /// The spec-level name of the field, as it appears on the wire schema.
    pub open spec fn name_spec(self) -> Seq<char> {
        match self {
            WireField::BlockHash => "block_hash"@,
            WireField::Proposer => "proposer"@,
        }
    }

    /// The name of the field, as it appears on the wire schema.
    pub fn name(&self) -> (r: &'static str)
        ensures
            r@ == self.name_spec(),
    {
        match self {
            WireField::BlockHash => "block_hash",
            WireField::Proposer => "proposer",
        }
    }
}

/// Why an encode or decode call failed.
#[derive(Clone, Copy, Debug, PartialEq, Eq, Structural)]
pub enum CodecError {
    /// A required embedded-message slot was absent on the wire.
    MissingField(WireField),
    /// An embedded value did not have the expected byte length.
    InvalidLength { field: WireField, len: usize },
    /// The proposal's own round was nil, which has no unsigned wire
    /// representation; building such a proposal is a contract breach in the
    /// producer, and no placeholder value is ever encoded for it.
    NilRound,
}

} // verus!
