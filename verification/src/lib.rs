//! KZG commitments for blobs and data-column cells, in a form that does no
//! cryptographic work, together with the tree-hash and reporting logic of the
//! `new-payload-request` inspection command.

mod kzg_commitment;
mod kzg_proof;

pub mod fake_crypto;
pub mod merkle;
pub mod fork;
pub mod payload_request;
pub mod validation;
pub mod hex_text;
pub mod output;

use vstd::prelude::*;

pub use crate::kzg_commitment::{KzgCommitment, VERSIONED_HASH_VERSION_KZG};
pub use crate::kzg_proof::KzgProof;
pub use crate::fake_crypto::{
    Blob, Bytes32, Bytes48, Cell, CellIndex, CellRef, CellsAndKzgProofs, Error, Kzg, KzgBlobRef,
};

verus! {

pub const BYTES_PER_COMMITMENT: usize = 48;

pub const BYTES_PER_PROOF: usize = 48;

/// 4096 field elements of 32 bytes each.
pub const BYTES_PER_BLOB: usize = 131072;

pub const BYTES_PER_FIELD_ELEMENT: usize = 32;

pub const FIELD_ELEMENTS_PER_BLOB: usize = 4096;

pub const BYTES_PER_CELL: usize = 2048;

pub const CELLS_PER_EXT_BLOB: usize = 128;

} // verus!
