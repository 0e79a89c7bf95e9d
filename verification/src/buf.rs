//! The byte buffer handed to signers, backed by `bytes::Bytes`.

use vstd::prelude::*;

verus! {

/// Declares `bytes::Bytes` as an opaque buffer type, so that signing
/// payloads can be handed out in the form signers expect.
#[verifier::external_type_specification]
#[verifier::external_body]
pub struct ExBytes(bytes::Bytes);

/// The bytes a `bytes::Bytes` buffer holds.
pub uninterp spec fn bytes_view(b: bytes::Bytes) -> Seq<u8>;

/// Relies on `bytes::Bytes::from(Vec<u8>)`: the buffer takes over exactly
/// the vector's bytes, neither copied around nor reordered.
#[verifier::external_body]
pub(crate) fn bytes_from_vec(v: Vec<u8>) -> (r: bytes::Bytes)
    ensures
        bytes_view(r) == v@,
{
    bytes::Bytes::from(v)
}

} // verus!
