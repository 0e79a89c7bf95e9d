use proposal_codec::wire::RawHash;
use proposal_codec::wire::RawProposal;

fn bare_raw() -> RawProposal {
    RawProposal {
        block_number: 0,
        fork_id: 0,
        round: 0,
        block_hash: None,
        pol_round: None,
        proposer: None,
    }
}

#[test]
fn zero_scalars_and_absent_slots_serialize_to_nothing() {
    assert_eq!(bare_raw().to_bytes(), Vec::<u8>::new());
}

#[test]
fn multi_byte_varints() {
    let raw = RawProposal { block_number: 300, fork_id: 1, ..bare_raw() };
    // 300 = 0b10_0101100: low seven bits with the high bit set, then 0b10.
    assert_eq!(raw.to_bytes(), vec![0x08, 0xac, 0x02, 0x10, 0x01]);
}

#[test]
fn largest_scalar_values() {
    let raw = RawProposal { block_number: u64::MAX, round: u32::MAX, ..bare_raw() };
    let expected = vec![
        0x08, 0xff, 0xff, 0xff, 0xff, 0xff, 0xff, 0xff, 0xff, 0xff, 0x01, // block_number
        0x18, 0xff, 0xff, 0xff, 0xff, 0x0f, // round
    ];
    assert_eq!(raw.to_bytes(), expected);
}

#[test]
fn present_pol_round_zero_serializes() {
    let raw = RawProposal { pol_round: Some(0), ..bare_raw() };
    assert_eq!(raw.to_bytes(), vec![0x28, 0x00]);
}

#[test]
fn embedded_message_framing() {
    let raw = RawProposal {
        block_hash: Some(RawHash { elements: vec![0xaa, 0xbb, 0xcc] }),
        ..bare_raw()
    };
    // field 4, 5-byte message: bytes field 1 of length 3.
    assert_eq!(raw.to_bytes(), vec![0x22, 0x05, 0x0a, 0x03, 0xaa, 0xbb, 0xcc]);
}

#[test]
fn empty_embedded_message_is_present_but_empty() {
    let raw = RawProposal {
        block_hash: Some(RawHash { elements: Vec::new() }),
        ..bare_raw()
    };
    // An empty hash message still marks the slot present: tag, length zero.
    assert_eq!(raw.to_bytes(), vec![0x22, 0x00]);
}
