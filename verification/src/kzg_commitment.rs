use vstd::prelude::*;

verus! {

/// The version byte that prefixes a versioned hash of a KZG commitment.
pub const VERSIONED_HASH_VERSION_KZG: u8 = 1;

/// A KZG commitment: a compressed BLS12-381 G1 point of 48 bytes.
#[derive(Clone, Copy, Debug)]
pub struct KzgCommitment(pub [u8; 48]);

} // verus!
