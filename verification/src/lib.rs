//! Codec for consensus `Proposal` messages: construction, a deterministic
//! wire encoding and decoding, and derivation of the canonical byte payload
//! that cryptographic signatures cover.

pub mod address;
pub mod buf;
pub mod encoding;
pub mod error;
pub mod hash;
pub mod height;
pub mod proposal;
pub mod round;
pub mod wire;
