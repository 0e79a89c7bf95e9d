//! The proposal entity and its codec: the mapping to and from the wire
//! message, and the canonical signing payload.

use vstd::prelude::*;
use vstd::pervasive::unreached;
use crate::address::Address;
use crate::buf::bytes_from_vec;
use crate::buf::bytes_view;
use crate::error::CodecError;
use crate::error::WireField;
use crate::hash::BlockHash;
use crate::hash::FELT_BYTES;
use crate::height::Height;
use crate::round::Round;
use crate::wire::RawAddress;
use crate::wire::RawHash;
use crate::wire::RawProposal;
use crate::wire::RawProposalV;
use crate::wire::wire_bytes;

verus! {

/// "Proposer `proposer` proposes the block `block_hash` for `height`, in
/// round `round`, justified by a proof of lock observed in `pol_round`."
///
/// `round` must be concrete: a proposal is only ever made in an actual
/// round. `pol_round` may be nil, meaning no prior lock.
#[derive(Clone, Debug, PartialEq, Eq)]
pub struct Proposal {
    pub height: Height,
    pub round: Round,
    pub block_hash: BlockHash,
    pub pol_round: Round,
    pub proposer: Address,
}

/// The mathematical value of a [`Proposal`]: its five fields, with byte
/// sequences in place of the two field-element types.
#[verifier::ext_equal]
pub struct ProposalV {
    pub height: Height,
    pub round: Round,
    pub block_hash: Seq<u8>,
    pub pol_round: Round,
    pub proposer: Seq<u8>,
}

impl View for Proposal {
    type V = ProposalV;

    open spec fn view(&self) -> ProposalV {
        ProposalV {
            height: self.height,
            round: self.round,
            block_hash: self.block_hash@,
            pol_round: self.pol_round,
            proposer: self.proposer@,
        }
    }
}

/// The wire message a proposal maps to. Meaningful only for a non-nil
/// `round`. `pol_round` is the one place nil is representable on the wire,
/// as absence; `block_hash` and `proposer` are always present on encode.
pub open spec fn to_proto_v(p: ProposalV) -> RawProposalV {
    RawProposalV {
        block_number: p.height.block_number,
        fork_id: p.height.fork_id,
        round: p.round->Val_0,
        block_hash: Option::Some(p.block_hash),
        pol_round: p.pol_round.as_option(),
        proposer: Option::Some(p.proposer),
    }
}

/// The proposal a wire message decodes to, or the single error rejecting it.
/// A message decodes if and only if both embedded slots are present and hold
/// field-element-sized payloads; no partial proposal is ever produced.
pub open spec fn from_proto_v(r: RawProposalV) -> Result<ProposalV, CodecError> {
    match r.block_hash {
        Option::None => Result::Err(CodecError::MissingField(WireField::BlockHash)),
        Option::Some(h) => if h.len() != FELT_BYTES {
            Result::Err(CodecError::InvalidLength {
                field: WireField::BlockHash,
                len: h.len() as usize,
            })
        } else {
            match r.proposer {
                Option::None => Result::Err(CodecError::MissingField(WireField::Proposer)),
                Option::Some(a) => if a.len() != FELT_BYTES {
                    Result::Err(CodecError::InvalidLength {
                        field: WireField::Proposer,
                        len: a.len() as usize,
                    })
                } else {
                    Result::Ok(ProposalV {
                        height: Height { block_number: r.block_number, fork_id: r.fork_id },
                        round: Round::Val(r.round),
                        block_hash: h,
                        pol_round: Round::of_option(r.pol_round),
                        proposer: a,
                    })
                },
            }
        },
    }
}

/// The canonical signing payload of a proposal: the byte serialization of
/// its wire message.
pub open spec fn sign_bytes_v(p: ProposalV) -> Seq<u8> {
    wire_bytes(to_proto_v(p))
}

impl Proposal {
    /// Whether the embedded values hold as many bytes as a field element.
    pub open spec fn wf(&self) -> bool {
        self.block_hash.wf() && self.proposer.wf()
    }

    /// A proposal from its five fields. Pure construction: no validation
    /// beyond what the field types themselves enforce.
    pub fn new(
        height: Height,
        round: Round,
        block_hash: BlockHash,
        pol_round: Round,
        proposer: Address,
    ) -> (r: Proposal)
        ensures
            r == (Proposal { height, round, block_hash, pol_round, proposer }),
    {
        Proposal { height, round, block_hash, pol_round, proposer }
    }

    /// Maps the proposal to its wire message. Fails exactly when `round` is
    /// nil, which has no unsigned wire representation; no sentinel value is
    /// ever encoded in its place.
    pub fn to_proto(&self) -> (r: Result<RawProposal, CodecError>)
        ensures
            r is Ok <==> !self.round.is_nil(),
            r matches Result::Err(e) ==> e == CodecError::NilRound,
            r matches Result::Ok(w) ==> w@ == to_proto_v(self@),
    {
        let round_u32: u32 = match self.round.as_u32() {
            Option::Some(v) => v,
            Option::None => {
                return Result::Err(CodecError::NilRound);
            }
        };
        let w = RawProposal {
            block_number: self.height.block_number,
            fork_id: self.height.fork_id,
            round: round_u32,
            block_hash: Option::Some(RawHash { elements: self.block_hash.to_vec() }),
            pol_round: self.pol_round.as_u32(),
            proposer: Option::Some(RawAddress { elements: self.proposer.to_vec() }),
        };
        proof {
            assert(w@ =~= to_proto_v(self@));
        }
        Result::Ok(w)
    }

    /// Decodes a wire message, as [`from_proto_v`] states: any field-level
    /// failure rejects the whole message with that single error.
    pub fn from_proto(raw: RawProposal) -> (r: Result<Proposal, CodecError>)
        ensures
            (match r {
                Result::Ok(p) => from_proto_v(raw@) matches Result::Ok(v) && p@ == v && p.wf(),
                Result::Err(e) => from_proto_v(raw@) matches Result::Err(e2) && e == e2,
            }),
    {
        let RawProposal { block_number, fork_id, round, block_hash, pol_round, proposer } = raw;
        let h = match block_hash {
            Option::Some(h) => h,
            Option::None => {
                return Result::Err(CodecError::MissingField(WireField::BlockHash));
            }
        };
        if h.elements.len() != FELT_BYTES {
            return Result::Err(CodecError::InvalidLength {
                field: WireField::BlockHash,
                len: h.elements.len(),
            });
        }
        let decoded_hash = BlockHash::new(h.elements);
        let a = match proposer {
            Option::Some(a) => a,
            Option::None => {
                return Result::Err(CodecError::MissingField(WireField::Proposer));
            }
        };
        if a.elements.len() != FELT_BYTES {
            return Result::Err(CodecError::InvalidLength {
                field: WireField::Proposer,
                len: a.elements.len(),
            });
        }
        let decoded_proposer = Address::new(a.elements);
        let p = Proposal {
            height: Height::new(block_number, fork_id),
            round: Round::new(round),
            block_hash: decoded_hash,
            pol_round: Round::from_option(pol_round),
            proposer: decoded_proposer,
        };
        proof {
            assert(from_proto_v(raw@) matches Result::Ok(v) && p@ =~= v);
        }
        Result::Ok(p)
    }

    /// The canonical signing payload: the serialized wire form of the
    /// proposal, byte for byte, as [`sign_bytes_v`] states. A nil round has
    /// no payload, so reaching this with one is a contract breach in the
    /// caller; the payload is produced, never signed or sent.
    pub fn to_sign_bytes(&self) -> (r: bytes::Bytes)
        requires
            !self.round.is_nil(),
        ensures
            bytes_view(r) == sign_bytes_v(self@),
    {
        let w = match self.to_proto() {
            Result::Ok(w) => w,
            Result::Err(_) => unreached(),
        };
        let out = w.to_bytes();
        bytes_from_vec(out)
    }
}

/// Round trip: decoding the wire message a well-formed proposal with a
/// non-nil round encodes to yields back that very proposal.
pub proof fn lemma_round_trip(p: Proposal)
    requires
        p.wf(),
        !p.round.is_nil(),
    ensures
        from_proto_v(to_proto_v(p@)) == Result::<ProposalV, CodecError>::Ok(p@),
{
    let w = to_proto_v(p@);
    assert(from_proto_v(w) matches Result::Ok(v) && v =~= p@);
}

/// Determinism: logically equal proposals have the same wire message and so
/// the same signing payload, in every call and every process.
pub proof fn lemma_sign_bytes_deterministic(a: Proposal, b: Proposal)
    requires
        a@ == b@,
    ensures
        sign_bytes_v(a@) == sign_bytes_v(b@),
{
}

/// Nil pol-round preservation: a nil `pol_round` encodes as an absent
/// optional field and decodes back to nil; a concrete `pol_round` of `k`
/// rides through encoding and decoding as exactly `k`.
pub proof fn lemma_pol_round_preserved(p: Proposal)
    requires
        p.wf(),
        !p.round.is_nil(),
    ensures
        p.pol_round is Nil <==> to_proto_v(p@).pol_round is None,
        p.pol_round matches Round::Val(k) ==> to_proto_v(p@).pol_round == Option::Some(k),
        from_proto_v(to_proto_v(p@)) matches Result::Ok(v) && v.pol_round == p.pol_round,
{
    lemma_round_trip(p);
}

} // verus!
