use proposal_codec::address::Address;
use proposal_codec::error::CodecError;
use proposal_codec::error::WireField;
use proposal_codec::hash::BlockHash;
use proposal_codec::height::Height;
use proposal_codec::proposal::Proposal;
use proposal_codec::round::Round;
use proposal_codec::wire::RawAddress;
use proposal_codec::wire::RawHash;
use proposal_codec::wire::RawProposal;

fn hash_bytes(fill: u8) -> Vec<u8> {
    vec![fill; 32]
}

fn sample_proposal(round: Round, pol_round: Round) -> Proposal {
    Proposal::new(
        Height::new(42, 0),
        round,
        BlockHash::new(hash_bytes(0x11)),
        pol_round,
        Address::new(hash_bytes(0x22)),
    )
}

fn raw_proposal(block_hash: Option<RawHash>, proposer: Option<RawAddress>) -> RawProposal {
    RawProposal {
        block_number: 42,
        fork_id: 0,
        round: 3,
        block_hash,
        pol_round: None,
        proposer,
    }
}

#[test]
fn round_trip_identity() {
    let p = sample_proposal(Round::Val(3), Round::Val(1));
    let wire = p.to_proto().expect("round is concrete");
    let decoded = Proposal::from_proto(wire).expect("all fields present");
    assert_eq!(decoded, p);
    assert_eq!(decoded.block_hash.as_bytes(), &hash_bytes(0x11));
    assert_eq!(decoded.proposer.as_bytes(), &hash_bytes(0x22));
}

#[test]
fn sign_bytes_deterministic() {
    let p = sample_proposal(Round::Val(3), Round::Nil);
    let q = sample_proposal(Round::Val(3), Round::Nil);
    assert_eq!(p.to_sign_bytes(), p.to_sign_bytes());
    assert_eq!(p.to_sign_bytes(), q.to_sign_bytes());
    assert_eq!(p.clone().to_sign_bytes(), p.to_sign_bytes());
}

#[test]
fn nil_pol_round_absent_and_preserved() {
    let p = sample_proposal(Round::Val(3), Round::Nil);
    let wire = p.to_proto().expect("round is concrete");
    assert_eq!(wire.pol_round, None);
    let decoded = Proposal::from_proto(wire).expect("all fields present");
    assert_eq!(decoded.pol_round, Round::Nil);
}

#[test]
fn concrete_pol_round_preserved() {
    let p = sample_proposal(Round::Val(3), Round::Val(7));
    let wire = p.to_proto().expect("round is concrete");
    assert_eq!(wire.pol_round, Some(7));
    let decoded = Proposal::from_proto(wire).expect("all fields present");
    assert_eq!(decoded.pol_round, Round::Val(7));
}

#[test]
fn zero_pol_round_is_present_on_wire() {
    let p = sample_proposal(Round::Val(3), Round::Val(0));
    let wire = p.to_proto().expect("round is concrete");
    assert_eq!(wire.pol_round, Some(0));
    let decoded = Proposal::from_proto(wire).expect("all fields present");
    assert_eq!(decoded.pol_round, Round::Val(0));
}

#[test]
fn missing_block_hash_rejected() {
    let raw = raw_proposal(None, Some(RawAddress { elements: hash_bytes(0x22) }));
    let err = Proposal::from_proto(raw).expect_err("block_hash is absent");
    assert_eq!(err, CodecError::MissingField(WireField::BlockHash));
    assert_eq!(WireField::BlockHash.name(), "block_hash");
}

#[test]
fn missing_proposer_rejected() {
    let raw = raw_proposal(Some(RawHash { elements: hash_bytes(0x11) }), None);
    let err = Proposal::from_proto(raw).expect_err("proposer is absent");
    assert_eq!(err, CodecError::MissingField(WireField::Proposer));
    assert_eq!(WireField::Proposer.name(), "proposer");
}

#[test]
fn both_fields_missing_rejected() {
    let raw = raw_proposal(None, None);
    let err = Proposal::from_proto(raw).expect_err("both slots are absent");
    assert!(matches!(err, CodecError::MissingField(_)));
}

#[test]
fn undersized_block_hash_rejected() {
    let raw = raw_proposal(
        Some(RawHash { elements: vec![0x11; 31] }),
        Some(RawAddress { elements: hash_bytes(0x22) }),
    );
    let err = Proposal::from_proto(raw).expect_err("hash is one byte short");
    assert_eq!(
        err,
        CodecError::InvalidLength { field: WireField::BlockHash, len: 31 }
    );
}

#[test]
fn oversized_proposer_rejected() {
    let raw = raw_proposal(
        Some(RawHash { elements: hash_bytes(0x11) }),
        Some(RawAddress { elements: vec![0x22; 33] }),
    );
    let err = Proposal::from_proto(raw).expect_err("address is one byte long");
    assert_eq!(
        err,
        CodecError::InvalidLength { field: WireField::Proposer, len: 33 }
    );
}

#[test]
fn nil_round_encode_rejected() {
    let p = sample_proposal(Round::Nil, Round::Nil);
    assert_eq!(p.to_proto(), Err(CodecError::NilRound));
}

#[test]
fn zero_round_is_a_valid_round() {
    let p = sample_proposal(Round::Val(0), Round::Nil);
    let wire = p.to_proto().expect("round zero is concrete");
    assert_eq!(wire.round, 0);
    let decoded = Proposal::from_proto(wire).expect("all fields present");
    assert_eq!(decoded.round, Round::Val(0));
}

#[test]
fn round_conversions() {
    assert_eq!(Round::new(5), Round::Val(5));
    assert_eq!(Round::new(5).as_u32(), Some(5));
    assert_eq!(Round::Nil.as_u32(), None);
    assert_eq!(Round::from_option(None), Round::Nil);
    assert_eq!(Round::from_option(Some(2)), Round::Val(2));
}

#[test]
fn concrete_example_round_trips_bit_for_bit() {
    let p = sample_proposal(Round::Val(3), Round::Nil);
    let wire = p.to_proto().expect("round is concrete");
    assert_eq!(wire.block_number, 42);
    assert_eq!(wire.fork_id, 0);
    assert_eq!(wire.round, 3);
    assert_eq!(wire.pol_round, None);
    assert_eq!(
        wire.block_hash.as_ref().map(|h| h.elements.clone()),
        Some(hash_bytes(0x11))
    );

    let mut expected: Vec<u8> = Vec::new();
    expected.extend([0x08, 42]); // block_number = 42
    // fork_id = 0 is omitted
    expected.extend([0x18, 3]); // round = 3
    expected.extend([0x22, 34, 0x0a, 32]); // block_hash, 34-byte message
    expected.extend(hash_bytes(0x11));
    // pol_round is absent
    expected.extend([0x32, 34, 0x0a, 32]); // proposer, 34-byte message
    expected.extend(hash_bytes(0x22));

    let sign = p.to_sign_bytes();
    assert_eq!(sign.as_ref(), expected.as_slice());

    let decoded = Proposal::from_proto(wire).expect("all fields present");
    assert_eq!(decoded, p);
    assert_eq!(decoded.to_sign_bytes(), sign);
}
