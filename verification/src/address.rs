//! The identity of the node making a proposal.

use vstd::prelude::*;
use crate::encoding::extend_from;
use crate::hash::FELT_BYTES;

verus! {

/// The address of the proposing node: a 32-byte field element.
#[derive(Clone, Debug, PartialEq, Eq)]
pub struct Address {
    bytes: Vec<u8>,
}

impl View for Address {
    type V = Seq<u8>;

    closed spec fn view(&self) -> Seq<u8> {
        self.bytes@
    }
}

impl Address {
    /// Whether the address holds exactly as many bytes as a field element.
    pub open spec fn wf(&self) -> bool {
        self@.len() == FELT_BYTES
    }

    /// An address from its raw bytes.
    pub fn new(bytes: Vec<u8>) -> (r: Address)
        requires
            bytes@.len() == FELT_BYTES,
        ensures
            r@ == bytes@,
            r.wf(),
    {
        Address { bytes }
    }

    /// A fresh copy of the address's bytes.
    pub fn to_vec(&self) -> (r: Vec<u8>)
        ensures
            r@ == self@,
    {
        let mut r: Vec<u8> = Vec::new();
        extend_from(&mut r, &self.bytes);
        r
    }

    /// The address's bytes, borrowed.
    pub fn as_bytes(&self) -> (r: &Vec<u8>)
        ensures
            r@ == self@,
    {
        &self.bytes
    }
}

} // verus!
