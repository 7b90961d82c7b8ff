use kzg::{
    Error, Kzg, KzgCommitment, KzgProof, BYTES_PER_BLOB, BYTES_PER_CELL, BYTES_PER_COMMITMENT,
    BYTES_PER_FIELD_ELEMENT, BYTES_PER_PROOF, CELLS_PER_EXT_BLOB, FIELD_ELEMENTS_PER_BLOB,
    VERSIONED_HASH_VERSION_KZG,
};

fn kzg() -> Kzg {
    Kzg::new_from_trusted_setup(&[1, 2, 3]).expect("fake setup always succeeds")
}

#[test]
fn constants_match_the_eip() {
    assert_eq!(BYTES_PER_BLOB, FIELD_ELEMENTS_PER_BLOB * BYTES_PER_FIELD_ELEMENT);
    assert_eq!(BYTES_PER_BLOB, 131072);
    assert_eq!(BYTES_PER_COMMITMENT, 48);
    assert_eq!(BYTES_PER_PROOF, 48);
    assert_eq!(BYTES_PER_CELL, 2048);
    assert_eq!(CELLS_PER_EXT_BLOB, 128);
    assert_eq!(VERSIONED_HASH_VERSION_KZG, 1);
}

#[test]
fn trusted_setups_are_always_accepted() {
    assert!(Kzg::new_from_trusted_setup(&[]).is_ok());
    assert!(Kzg::new_from_trusted_setup(&[0xff; 100]).is_ok());
    assert!(Kzg::new_from_trusted_setup_no_precomp(&[]).is_ok());
    assert!(Kzg::new_from_trusted_setup_no_precomp(&[7; 3]).is_ok());
}

#[test]
fn blob_proof_and_commitment_are_zero() {
    let kzg = kzg();
    let blob = [0xabu8; BYTES_PER_BLOB];
    let commitment = kzg.blob_to_kzg_commitment(&blob).unwrap();
    assert_eq!(commitment.0, [0u8; 48]);
    let proof = kzg
        .compute_blob_kzg_proof(&blob, KzgCommitment([5u8; 48]))
        .unwrap();
    assert_eq!(proof.0, [0u8; 48]);
}

#[test]
fn blob_verification_always_succeeds() {
    let kzg = kzg();
    let blob = [3u8; BYTES_PER_BLOB];
    assert!(kzg
        .verify_blob_kzg_proof(&blob, KzgCommitment([9u8; 48]), KzgProof([8u8; 48]))
        .is_ok());
    let blobs = vec![[1u8; BYTES_PER_BLOB]];
    assert!(kzg
        .verify_blob_kzg_proof_batch(&blobs, &[KzgCommitment([1u8; 48])], &[])
        .is_ok());
    assert!(kzg.verify_blob_kzg_proof_batch(&[], &[], &[]).is_ok());
}

#[test]
fn kzg_proof_at_point_is_zero_and_verifies() {
    let kzg = kzg();
    let blob = [4u8; BYTES_PER_BLOB];
    let (proof, y) = kzg.compute_kzg_proof(&blob, &[1u8; 32]).unwrap();
    assert_eq!(proof.0, [0u8; 48]);
    assert_eq!(y, [0u8; 32]);
    let ok = kzg
        .verify_kzg_proof(KzgCommitment([2u8; 48]), &[3u8; 32], &[4u8; 32], KzgProof([5u8; 48]))
        .unwrap();
    assert!(ok);
}

#[test]
fn cells_and_proofs_are_zero() {
    let kzg = kzg();
    let blob = [6u8; BYTES_PER_BLOB];
    let (cells, proofs) = kzg.compute_cells_and_proofs(&blob).unwrap();
    assert_eq!(cells.len(), CELLS_PER_EXT_BLOB);
    assert!(cells.iter().all(|c| c.iter().all(|b| *b == 0)));
    assert!(proofs.iter().all(|p| p.0 == [0u8; 48]));
    let cells = kzg.compute_cells(&blob).unwrap();
    assert!(cells.iter().all(|c| c.iter().all(|b| *b == 0)));
}

#[test]
fn recovered_cells_and_proofs_are_zero() {
    let kzg = kzg();
    let cell = [9u8; BYTES_PER_CELL];
    let (cells, proofs) = kzg
        .recover_cells_and_compute_kzg_proofs(&[0, 1], &[&cell, &cell])
        .unwrap();
    assert!(cells.iter().all(|c| c.iter().all(|b| *b == 0)));
    assert!(proofs.iter().all(|p| p.0 == [0u8; 48]));
}

#[test]
fn cell_batch_of_consistent_lengths_verifies() {
    let kzg = kzg();
    let cell = [1u8; BYTES_PER_CELL];
    let res = kzg.verify_cell_proof_batch(
        &[&cell, &cell],
        &[[0u8; 48], [1u8; 48]],
        vec![3, 4],
        &[[2u8; 48], [3u8; 48]],
    );
    assert!(res.is_ok());
    assert!(kzg.verify_cell_proof_batch(&[], &[], vec![], &[]).is_ok());
}

fn assert_inconsistent(res: Result<(), (Option<u64>, Error)>) {
    match res {
        Err((None, Error::InconsistentArrayLength(msg))) => assert_eq!(msg, "Invalid data column"),
        other => panic!("expected an inconsistent-length error, got {:?}", other),
    }
}

#[test]
fn cell_batch_with_wrong_proof_count_is_refused() {
    let kzg = kzg();
    let cell = [1u8; BYTES_PER_CELL];
    assert_inconsistent(kzg.verify_cell_proof_batch(&[&cell], &[], vec![0], &[[0u8; 48]]));
}

#[test]
fn cell_batch_with_wrong_index_count_is_refused() {
    let kzg = kzg();
    let cell = [1u8; BYTES_PER_CELL];
    assert_inconsistent(kzg.verify_cell_proof_batch(
        &[&cell],
        &[[0u8; 48]],
        vec![0, 1],
        &[[0u8; 48]],
    ));
}

#[test]
fn cell_batch_with_wrong_commitment_count_is_refused() {
    let kzg = kzg();
    let cell = [1u8; BYTES_PER_CELL];
    assert_inconsistent(kzg.verify_cell_proof_batch(&[&cell], &[[0u8; 48]], vec![0], &[]));
}

#[test]
fn computed_cells_pass_the_batch_length_check() {
    let kzg = kzg();
    let blob = [2u8; BYTES_PER_BLOB];
    let (cells, proofs) = kzg.compute_cells_and_proofs(&blob).unwrap();
    let cell_refs: Vec<&[u8; BYTES_PER_CELL]> = cells.iter().collect();
    let proof_bytes: Vec<[u8; 48]> = proofs.iter().map(|p| p.0).collect();
    let indices: Vec<u64> = (0..CELLS_PER_EXT_BLOB as u64).collect();
    let commitments = vec![[0u8; 48]; CELLS_PER_EXT_BLOB];
    assert!(kzg
        .verify_cell_proof_batch(&cell_refs, &proof_bytes, indices, &commitments)
        .is_ok());
}
