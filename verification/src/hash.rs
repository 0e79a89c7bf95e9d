//! The content identifier of a proposed block.

use vstd::prelude::*;
use crate::encoding::extend_from;

verus! {

/// How many bytes a block hash or an address occupies: the width of a field
/// element, the value type both are built from.
pub const FELT_BYTES: usize = 32;

/// The hash of a proposed block: a 32-byte field element.
#[derive(Clone, Debug, PartialEq, Eq)]
pub struct BlockHash {
    bytes: Vec<u8>,
}

impl View for BlockHash {
    type V = Seq<u8>;

    closed spec fn view(&self) -> Seq<u8> {
        self.bytes@
    }
}

impl BlockHash {
    /// Whether the hash holds exactly as many bytes as a field element.
    pub open spec fn wf(&self) -> bool {
        self@.len() == FELT_BYTES
    }

    /// A hash from its raw bytes.
    pub fn new(bytes: Vec<u8>) -> (r: BlockHash)
        requires
            bytes@.len() == FELT_BYTES,
        ensures
            r@ == bytes@,
            r.wf(),
    {
        BlockHash { bytes }
    }

    /// A fresh copy of the hash's bytes.
    pub fn to_vec(&self) -> (r: Vec<u8>)
        ensures
            r@ == self@,
    {
        let mut r: Vec<u8> = Vec::new();
        extend_from(&mut r, &self.bytes);
        r
    }

    /// The hash's bytes, borrowed.
    pub fn as_bytes(&self) -> (r: &Vec<u8>)
        ensures
            r@ == self@,
    {
        &self.bytes
    }
}

} // verus!
