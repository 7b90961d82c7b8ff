use vstd::prelude::*;

verus! {

/// A KZG proof: a compressed BLS12-381 G1 point of 48 bytes.
#[derive(Clone, Copy, Debug)]
pub struct KzgProof(pub [u8; 48]);

} // verus!
