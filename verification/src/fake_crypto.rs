//! KZG context for builds without the C compiler: every verification
//! succeeds and every computation returns a value of zero bytes.

use crate::{KzgCommitment, KzgProof, BYTES_PER_BLOB, BYTES_PER_CELL, CELLS_PER_EXT_BLOB};
use vstd::prelude::*;

verus! {

pub type Blob = [u8; BYTES_PER_BLOB];

pub type Bytes32 = [u8; 32];

pub type Bytes48 = [u8; 48];

pub type Cell = [u8; BYTES_PER_CELL];

pub type CellRef<'a> = &'a Cell;

pub type CellIndex = u64;

pub type CellsAndKzgProofs = ([Cell; CELLS_PER_EXT_BLOB], [KzgProof; CELLS_PER_EXT_BLOB]);

pub type KzgBlobRef<'a> = &'a [u8; BYTES_PER_BLOB];

#[derive(Debug)]
pub enum Error {
    /// An error from initialising the trusted setup.
    TrustedSetupError(String),
    /// The kzg verification failed
    KzgVerificationFailed,
    /// Misc indexing error
    InconsistentArrayLength(String),
    /// Error reconstructing data columns.
    ReconstructFailed(String),
    /// Kzg was not initialized with PeerDAS enabled.
    DASContextUninitialized,
}

/// `n` bytes, all zero.
pub open spec fn zero_bytes(n: nat) -> Seq<u8> {
    Seq::new(n, |_i: int| 0u8)
}

/// A proof whose 48 bytes are all zero.
pub open spec fn is_zero_proof(p: KzgProof) -> bool {
    p.0@ == zero_bytes(48)
}

/// A commitment whose 48 bytes are all zero.
pub open spec fn is_zero_commitment(c: KzgCommitment) -> bool {
    c.0@ == zero_bytes(48)
}

/// Every cell is zero bytes and every proof is the zero proof.
pub open spec fn is_zero_cells_and_proofs(r: CellsAndKzgProofs) -> bool {
    &&& forall|i: int| 0 <= i < CELLS_PER_EXT_BLOB ==> #[trigger] r.0[i]@ == zero_bytes(BYTES_PER_CELL as nat)
    &&& forall|i: int| 0 <= i < CELLS_PER_EXT_BLOB ==> is_zero_proof(#[trigger] r.1[i])
}

/// The placeholders are zero byte for byte: `n` zero bytes are `n` bytes of
/// value 0, a zero proof or commitment has 48 of them, and zero cells and
/// proofs have all 128 cells of 2048 zero bytes and all 128 proofs zero.
pub proof fn lemma_placeholders_are_zero(
    n: nat,
    p: KzgProof,
    c: KzgCommitment,
    r: CellsAndKzgProofs,
)
    ensures
        zero_bytes(n).len() == n,
        forall|k: int| 0 <= k < n ==> #[trigger] zero_bytes(n)[k] == 0u8,
        is_zero_proof(p) ==> forall|k: int| 0 <= k < 48 ==> #[trigger] p.0[k] == 0u8,
        is_zero_commitment(c) ==> forall|k: int| 0 <= k < 48 ==> #[trigger] c.0[k] == 0u8,
        is_zero_cells_and_proofs(r) ==> forall|i: int, k: int|
            0 <= i < 128 && 0 <= k < 2048 ==> #[trigger] r.0[i][k] == 0u8,
        is_zero_cells_and_proofs(r) ==> forall|i: int, k: int|
            0 <= i < 128 && 0 <= k < 48 ==> #[trigger] r.1[i].0[k] == 0u8,
{
    if is_zero_cells_and_proofs(r) {
        assert forall|i: int, k: int| 0 <= i < 128 && 0 <= k < 2048 implies #[trigger] r.0[i][k]
            == 0u8 by {
            assert(r.0[i]@ == zero_bytes(BYTES_PER_CELL as nat));
            assert(r.0[i]@[k] == zero_bytes(2048)[k]);
        }
        assert forall|i: int, k: int| 0 <= i < 128 && 0 <= k < 48 implies #[trigger] r.1[i].0[k]
            == 0u8 by {
            assert(is_zero_proof(r.1[i]));
            assert(r.1[i].0@[k] == zero_bytes(48)[k]);
        }
    }
    if is_zero_proof(p) {
        assert forall|k: int| 0 <= k < 48 implies #[trigger] p.0[k] == 0u8 by {
            assert(p.0@[k] == zero_bytes(48)[k]);
        }
    }
    if is_zero_commitment(c) {
        assert forall|k: int| 0 <= k < 48 implies #[trigger] c.0[k] == 0u8 by {
            assert(c.0@[k] == zero_bytes(48)[k]);
        }
    }
}

/// The four inputs of a cell batch are of one length.
pub open spec fn cell_batch_lengths_agree(
    n_cells: nat,
    n_proofs: nat,
    n_indices: nat,
    n_commitments: nat,
) -> bool {
    n_proofs == n_cells && n_indices == n_cells && n_commitments == n_cells
}

/// A batch whose cells, proofs, indices and commitments are all `n` long
/// passes the length check, whatever `n` is.
pub proof fn lemma_equal_lengths_agree(n: nat)
    ensures
        cell_batch_lengths_agree(n, n, n, n),
{
}

/// A batch in which the proofs, the indices or the commitments differ in
/// number from the cells fails the length check.
pub proof fn lemma_unequal_lengths_disagree(
    n_cells: nat,
    n_proofs: nat,
    n_indices: nat,
    n_commitments: nat,
)
    requires
        n_proofs != n_cells || n_indices != n_cells || n_commitments != n_cells,
    ensures
        !cell_batch_lengths_agree(n_cells, n_proofs, n_indices, n_commitments),
{
}

/// The message carried by the error for inconsistent batch lengths.
pub open spec fn invalid_data_column_message() -> Seq<char> {
    seq!['I', 'n', 'v', 'a', 'l', 'i', 'd', ' ', 'd', 'a', 't', 'a', ' ', 'c', 'o', 'l', 'u', 'm', 'n']
}

fn zero_proof() -> (p: KzgProof)
    ensures
        is_zero_proof(p),
{
    let bytes: Bytes48 = [0u8; 48];
    assert(bytes@ =~= zero_bytes(48));
    KzgProof(bytes)
}

fn zero_cells_and_proofs() -> (r: CellsAndKzgProofs)
    ensures
        is_zero_cells_and_proofs(r),
{
    let cell: Cell = [0u8; 2048];
    assert(cell@ =~= zero_bytes(BYTES_PER_CELL as nat));
    let cells: [Cell; CELLS_PER_EXT_BLOB] = [cell; 128];
    let proofs: [KzgProof; CELLS_PER_EXT_BLOB] = [zero_proof(); 128];
    (cells, proofs)
}

/// The cells and proofs that the context computes, given with one index and
/// one commitment per cell, pass the length check of a cell batch.
pub proof fn lemma_computed_cells_fit_a_batch(
    r: CellsAndKzgProofs,
    indices: Seq<CellIndex>,
    commitments: Seq<Bytes48>,
)
    requires
        indices.len() == CELLS_PER_EXT_BLOB,
        commitments.len() == CELLS_PER_EXT_BLOB,
    ensures
        cell_batch_lengths_agree(r.0@.len(), r.1@.len(), indices.len(), commitments.len()),
{
}

/// Fake Kzg context that does no real cryptographic operations.
#[derive(Debug, Clone)]
pub struct Kzg;

impl Kzg {
    pub fn new_from_trusted_setup(_trusted_setup: &[u8]) -> (res: Result<Self, Error>)
        ensures
            res is Ok,
    {
        Ok(Self)
    }

    pub fn new_from_trusted_setup_no_precomp(_trusted_setup: &[u8]) -> (res: Result<Self, Error>)
        ensures
            res is Ok,
    {
        Ok(Self)
    }

    /// Compute the kzg proof given a blob and its kzg commitment.
    pub fn compute_blob_kzg_proof(&self, _blob: &Blob, _kzg_commitment: KzgCommitment) -> (res:
        Result<KzgProof, Error>)
        ensures
            res matches Ok(p) && is_zero_proof(p),
    {
        Ok(zero_proof())
    }

    /// Verify a kzg proof given the blob, kzg commitment and kzg proof.
    pub fn verify_blob_kzg_proof(
        &self,
        _blob: &Blob,
        _kzg_commitment: KzgCommitment,
        _kzg_proof: KzgProof,
    ) -> (res: Result<(), Error>)
        ensures
            res is Ok,
    {
        Ok(())
    }

    /// Verify a batch of blob commitment proof triplets.
    pub fn verify_blob_kzg_proof_batch(
        &self,
        _blobs: &[Blob],
        _kzg_commitments: &[KzgCommitment],
        _kzg_proofs: &[KzgProof],
    ) -> (res: Result<(), Error>)
        ensures
            res is Ok,
    {
        Ok(())
    }

    /// Converts a blob to a kzg commitment.
    pub fn blob_to_kzg_commitment(&self, _blob: &Blob) -> (res: Result<KzgCommitment, Error>)
        ensures
            res matches Ok(c) && is_zero_commitment(c),
    {
        let bytes: Bytes48 = [0u8; 48];
        assert(bytes@ =~= zero_bytes(48));
        Ok(KzgCommitment(bytes))
    }

    /// Computes the kzg proof for a given `blob` and an evaluation point `z`
    pub fn compute_kzg_proof(&self, _blob: &Blob, _z: &Bytes32) -> (res: Result<
        (KzgProof, Bytes32),
        Error,
    >)
        ensures
            res matches Ok((p, y)) && is_zero_proof(p) && y@ == zero_bytes(32),
    {
        let y: Bytes32 = [0u8; 32];
        assert(y@ =~= zero_bytes(32));
        Ok((zero_proof(), y))
    }

    /// Verifies a `kzg_proof` for a `kzg_commitment` that evaluating a polynomial at `z` results in `y`
    pub fn verify_kzg_proof(
        &self,
        _kzg_commitment: KzgCommitment,
        _z: &Bytes32,
        _y: &Bytes32,
        _kzg_proof: KzgProof,
    ) -> (res: Result<bool, Error>)
        ensures
            res == Ok::<bool, Error>(true),
    {
        Ok(true)
    }

    /// Computes the cells and associated proofs for a given `blob`.
    pub fn compute_cells_and_proofs(&self, _blob: KzgBlobRef<'_>) -> (res: Result<
        CellsAndKzgProofs,
        Error,
    >)
        ensures
            res matches Ok(r) && is_zero_cells_and_proofs(r),
    {
        Ok(zero_cells_and_proofs())
    }

    /// Computes the cells for a given `blob`.
    pub fn compute_cells(&self, _blob: KzgBlobRef<'_>) -> (res: Result<
        [Cell; CELLS_PER_EXT_BLOB],
        Error,
    >)
        ensures
            res matches Ok(cells) && forall|i: int|
                0 <= i < CELLS_PER_EXT_BLOB ==> #[trigger] cells[i]@ == zero_bytes(
                    BYTES_PER_CELL as nat,
                ),
    {
        Ok([[0u8; 2048]; 128])
    }

    /// Verifies a batch of cell-proof-commitment triplets.
    ///
    /// Succeeds exactly when the cells, proofs, indices and commitments are
    /// of one length; otherwise reports the inconsistency with no cell index.
    pub fn verify_cell_proof_batch(
        &self,
        cells: &[CellRef<'_>],
        kzg_proofs: &[Bytes48],
        indices: Vec<CellIndex>,
        kzg_commitments: &[Bytes48],
    ) -> (res: Result<(), (Option<u64>, Error)>)
        ensures
            res is Ok <==> cell_batch_lengths_agree(
                cells@.len(),
                kzg_proofs@.len(),
                indices@.len(),
                kzg_commitments@.len(),
            ),
            res is Ok <==> (kzg_proofs@.len() == cells@.len() && indices@.len() == cells@.len()
                && kzg_commitments@.len() == cells@.len()),
            res matches Err((idx, e)) ==> (idx is None && (e matches Error::InconsistentArrayLength(
                msg,
            ) && msg@ == invalid_data_column_message())),
    {
        let expected_len = cells.len();

        if kzg_proofs.len() != expected_len || indices.len() != expected_len
            || kzg_commitments.len() != expected_len {
            let msg = "Invalid data column".to_string();
            proof {
                reveal_strlit("Invalid data column");
                assert(msg@ =~= invalid_data_column_message());
            }
            return Err((None, Error::InconsistentArrayLength(msg)));
        }
        Ok(())
    }

    pub fn recover_cells_and_compute_kzg_proofs(
        &self,
        _cell_ids: &[u64],
        _cells: &[CellRef<'_>],
    ) -> (res: Result<CellsAndKzgProofs, Error>)
        ensures
            res matches Ok(r) && is_zero_cells_and_proofs(r),
    {
        Ok(zero_cells_and_proofs())
    }
}

} // verus!
