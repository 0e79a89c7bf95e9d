//! The wire form of a proposal: the message structs the codec maps to and
//! from, and their serialization to bytes.
//!
//! Field numbers are fixed by the schema and must never be renumbered:
//! `block_number` = 1, `fork_id` = 2, `round` = 3, `block_hash` = 4,
//! `pol_round` = 5, `proposer` = 6. Embedded hash and address messages carry
//! their bytes in field 1.

use vstd::prelude::*;
use crate::encoding::bytes_field;
use crate::encoding::msg_field;
use crate::encoding::opt_u32_field;
use crate::encoding::put_bytes_field;
use crate::encoding::put_msg_field;
use crate::encoding::put_opt_u32_field;
use crate::encoding::put_u64_field;
use crate::encoding::u64_field;

verus! {

/// The wire fragment of a block hash: one `bytes` field.
#[derive(Clone, Debug, PartialEq, Eq)]
pub struct RawHash {
    pub elements: Vec<u8>,
}

/// The wire fragment of an address: one `bytes` field.
#[derive(Clone, Debug, PartialEq, Eq)]
pub struct RawAddress {
    pub elements: Vec<u8>,
}

/// The wire message a proposal is carried as. The two embedded messages and
/// `pol_round` are optional slots; absence of `block_hash` or `proposer` is a
/// decode error, absence of `pol_round` stands for the nil round.
#[derive(Clone, Debug, PartialEq, Eq)]
pub struct RawProposal {
    pub block_number: u64,
    pub fork_id: u64,
    pub round: u32,
    pub block_hash: Option<RawHash>,
    pub pol_round: Option<u32>,
    pub proposer: Option<RawAddress>,
}

/// The mathematical value of a [`RawProposal`].
#[verifier::ext_equal]
pub struct RawProposalV {
    pub block_number: u64,
    pub fork_id: u64,
    pub round: u32,
    pub block_hash: Option<Seq<u8>>,
    pub pol_round: Option<u32>,
    pub proposer: Option<Seq<u8>>,
}

impl View for RawHash {
    type V = Seq<u8>;

    open spec fn view(&self) -> Seq<u8> {
        self.elements@
    }
}

impl View for RawAddress {
    type V = Seq<u8>;

    open spec fn view(&self) -> Seq<u8> {
        self.elements@
    }
}

impl View for RawProposal {
    type V = RawProposalV;

    open spec fn view(&self) -> RawProposalV {
        RawProposalV {
            block_number: self.block_number,
            fork_id: self.fork_id,
            round: self.round,
            block_hash: match self.block_hash {
                Option::None => Option::None,
                Option::Some(h) => Option::Some(h@),
            },
            pol_round: self.pol_round,
            proposer: match self.proposer {
                Option::None => Option::None,
                Option::Some(a) => Option::Some(a@),
            },
        }
    }
}

/// The payload of an embedded hash or address message: its bytes as field 1.
pub open spec fn fragment_bytes(b: Seq<u8>) -> Seq<u8> {
    bytes_field(0x0a, b)
}

/// The byte serialization of a proposal wire message: each present field in
/// schema order, scalar zeroes omitted, nothing else. One message value has
/// exactly one serialization, which is what makes signing over it sound.
pub open spec fn wire_bytes(r: RawProposalV) -> Seq<u8> {
    u64_field(0x08, r.block_number) + u64_field(0x10, r.fork_id)
        + u64_field(0x18, r.round as u64)
        + msg_field(0x22, match r.block_hash {
            Option::None => Option::None,
            Option::Some(b) => Option::Some(fragment_bytes(b)),
        }) + opt_u32_field(0x28, r.pol_round)
        + msg_field(0x32, match r.proposer {
            Option::None => Option::None,
            Option::Some(b) => Option::Some(fragment_bytes(b)),
        })
}

impl RawHash {
    /// The serialized payload of the embedded hash message.
    pub fn to_payload(&self) -> (r: Vec<u8>)
        ensures
            r@ == fragment_bytes(self@),
    {
        let mut r: Vec<u8> = Vec::new();
        put_bytes_field(&mut r, 0x0a, &self.elements);
        proof {
            assert(r@ =~= fragment_bytes(self@));
        }
        r
    }
}

impl RawAddress {
    /// The serialized payload of the embedded address message.
    pub fn to_payload(&self) -> (r: Vec<u8>)
        ensures
            r@ == fragment_bytes(self@),
    {
        let mut r: Vec<u8> = Vec::new();
        put_bytes_field(&mut r, 0x0a, &self.elements);
        proof {
            assert(r@ =~= fragment_bytes(self@));
        }
        r
    }
}

impl RawProposal {
    /// Serializes the message, byte for byte as [`wire_bytes`] states.
    pub fn to_bytes(&self) -> (r: Vec<u8>)
        ensures
            r@ == wire_bytes(self@),
    {
        let mut out: Vec<u8> = Vec::new();
        put_u64_field(&mut out, 0x08, self.block_number);
        put_u64_field(&mut out, 0x10, self.fork_id);
        put_u64_field(&mut out, 0x18, self.round as u64);
        match &self.block_hash {
            Option::None => {}
            Option::Some(h) => {
                let payload = h.to_payload();
                put_msg_field(&mut out, 0x22, &payload);
            }
        }
        put_opt_u32_field(&mut out, 0x28, self.pol_round);
        match &self.proposer {
            Option::None => {}
            Option::Some(a) => {
                let payload = a.to_payload();
                put_msg_field(&mut out, 0x32, &payload);
            }
        }
        proof {
            assert(out@ =~= wire_bytes(self@));
        }
        out
    }
}

} // verus!
