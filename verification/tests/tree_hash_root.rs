use kzg::merkle::tree_hash_list;
use kzg::payload_request::{compute_new_payload_request_tree_hash, PayloadRequestRoots};

fn reference_root(bytes: &[u8], leaves: usize) -> [u8; 32] {
    tree_hash::merkle_root(bytes, leaves).0
}

fn hex32(s: &str) -> [u8; 32] {
    let v = hex::decode(s).unwrap();
    let mut out = [0u8; 32];
    out.copy_from_slice(&v);
    out
}

#[test]
fn empty_list_has_zero_root() {
    assert_eq!(tree_hash_list(&[]), [0u8; 32]);
}

#[test]
fn single_hash_list_root_is_the_hash() {
    let h = [0x11u8; 32];
    assert_eq!(tree_hash_list(&[h]), h);
}

#[test]
fn two_zero_hashes_give_the_known_zero_node() {
    assert_eq!(
        tree_hash_list(&[[0u8; 32], [0u8; 32]]),
        hex32("f5a5fd42d16a20302798ef6ed309979b43003d2320d9f0e8ea9831a92759fb4b")
    );
}

#[test]
fn list_root_matches_reference_merkleization() {
    for n in 1..9usize {
        let list: Vec<[u8; 32]> = (0..n).map(|i| [i as u8 + 1; 32]).collect();
        let bytes: Vec<u8> = list.iter().flat_map(|h| h.iter().copied()).collect();
        assert_eq!(tree_hash_list(&list), reference_root(&bytes, n), "n = {}", n);
    }
}

#[test]
fn bellatrix_and_capella_roots_are_the_payload_root() {
    let payload_root = [0x42u8; 32];
    assert_eq!(
        compute_new_payload_request_tree_hash(&PayloadRequestRoots::Bellatrix { payload_root }),
        payload_root
    );
    assert_eq!(
        compute_new_payload_request_tree_hash(&PayloadRequestRoots::Capella { payload_root }),
        payload_root
    );
}

#[test]
fn deneb_root_hashes_three_leaves() {
    let payload_root = [1u8; 32];
    let versioned_hashes = vec![[2u8; 32], [3u8; 32]];
    let parent_beacon_block_root = [4u8; 32];
    let list_root = tree_hash_list(&versioned_hashes);
    let mut bytes = Vec::new();
    bytes.extend_from_slice(&payload_root);
    bytes.extend_from_slice(&list_root);
    bytes.extend_from_slice(&parent_beacon_block_root);
    let root = compute_new_payload_request_tree_hash(&PayloadRequestRoots::Deneb {
        payload_root,
        versioned_hashes,
        parent_beacon_block_root,
    });
    assert_eq!(root, reference_root(&bytes, 3));
    assert_ne!(root, payload_root);
}

#[test]
fn deneb_root_with_no_versioned_hashes_uses_the_zero_leaf() {
    let payload_root = [7u8; 32];
    let parent_beacon_block_root = [8u8; 32];
    let mut bytes = Vec::new();
    bytes.extend_from_slice(&payload_root);
    bytes.extend_from_slice(&[0u8; 32]);
    bytes.extend_from_slice(&parent_beacon_block_root);
    let root = compute_new_payload_request_tree_hash(&PayloadRequestRoots::Deneb {
        payload_root,
        versioned_hashes: vec![],
        parent_beacon_block_root,
    });
    assert_eq!(root, reference_root(&bytes, 3));
}

#[test]
fn electra_fulu_gloas_roots_hash_four_leaves() {
    let payload_root = [1u8; 32];
    let versioned_hashes = vec![[2u8; 32]];
    let parent_beacon_block_root = [4u8; 32];
    let execution_requests_root = [5u8; 32];
    let mut bytes = Vec::new();
    bytes.extend_from_slice(&payload_root);
    bytes.extend_from_slice(&versioned_hashes[0]);
    bytes.extend_from_slice(&parent_beacon_block_root);
    bytes.extend_from_slice(&execution_requests_root);
    let expected = reference_root(&bytes, 4);
    let electra = PayloadRequestRoots::Electra {
        payload_root,
        versioned_hashes: versioned_hashes.clone(),
        parent_beacon_block_root,
        execution_requests_root,
    };
    let fulu = PayloadRequestRoots::Fulu {
        payload_root,
        versioned_hashes: versioned_hashes.clone(),
        parent_beacon_block_root,
        execution_requests_root,
    };
    let gloas = PayloadRequestRoots::Gloas {
        payload_root,
        versioned_hashes,
        parent_beacon_block_root,
        execution_requests_root,
    };
    assert_eq!(compute_new_payload_request_tree_hash(&electra), expected);
    assert_eq!(compute_new_payload_request_tree_hash(&fulu), expected);
    assert_eq!(compute_new_payload_request_tree_hash(&gloas), expected);
}

#[test]
fn deneb_root_is_the_four_leaf_root_with_a_zero_last_leaf() {
    let payload_root = [9u8; 32];
    let versioned_hashes = vec![[8u8; 32]];
    let parent_beacon_block_root = [7u8; 32];
    let mut bytes = Vec::new();
    bytes.extend_from_slice(&payload_root);
    bytes.extend_from_slice(&versioned_hashes[0]);
    bytes.extend_from_slice(&parent_beacon_block_root);
    bytes.extend_from_slice(&[0u8; 32]);
    let root = compute_new_payload_request_tree_hash(&PayloadRequestRoots::Deneb {
        payload_root,
        versioned_hashes,
        parent_beacon_block_root,
    });
    assert_eq!(root, reference_root(&bytes, 4));
}

#[test]
fn list_root_pads_to_a_power_of_two() {
    let list = vec![[1u8; 32], [2u8; 32], [3u8; 32]];
    let mut padded = list.clone();
    padded.push([0u8; 32]);
    assert_eq!(tree_hash_list(&list), tree_hash_list(&padded));
}
