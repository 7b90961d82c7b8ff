//! The tree-hash root of a `NewPayloadRequest`, over the roots of its parts.

use crate::merkle::{
    leaf_capacity, list_root, max_leaf_count, merkle_hasher_finish, merkle_hasher_with_leaves,
    merkle_hasher_write, merkle_root_of, tree_hash_list, Hash256,
};
use vstd::prelude::*;

verus! {

/// What the tree hash of a new-payload request reads, by fork: the tree-hash
/// root of its execution payload, its versioned hashes, the parent beacon
/// block root and the tree-hash root of its execution requests.
pub enum PayloadRequestRoots {
    Bellatrix { payload_root: Hash256 },
    Capella { payload_root: Hash256 },
    Deneb { payload_root: Hash256, versioned_hashes: Vec<Hash256>, parent_beacon_block_root: Hash256 },
    Electra {
        payload_root: Hash256,
        versioned_hashes: Vec<Hash256>,
        parent_beacon_block_root: Hash256,
        execution_requests_root: Hash256,
    },
    Fulu {
        payload_root: Hash256,
        versioned_hashes: Vec<Hash256>,
        parent_beacon_block_root: Hash256,
        execution_requests_root: Hash256,
    },
    Gloas {
        payload_root: Hash256,
        versioned_hashes: Vec<Hash256>,
        parent_beacon_block_root: Hash256,
        execution_requests_root: Hash256,
    },
}

/// The root over the payload root, the root of the versioned hashes, the
/// parent beacon block root and, where there is one, the execution requests
/// root: three or four leaves in a tree with room for four.
pub open spec fn blob_request_root(
    payload_root: Hash256,
    versioned_hashes: Seq<Hash256>,
    parent_beacon_block_root: Hash256,
    execution_requests_root: Option<Hash256>,
) -> Seq<u8> {
    match execution_requests_root {
        None => merkle_root_of(
            payload_root@ + list_root(versioned_hashes) + parent_beacon_block_root@,
            4,
        ),
        Some(r) => merkle_root_of(
            payload_root@ + list_root(versioned_hashes) + parent_beacon_block_root@ + r@,
            4,
        ),
    }
}

/// The tree-hash root of a request: before Deneb that of its payload alone.
pub open spec fn request_root(request: PayloadRequestRoots) -> Seq<u8> {
    match request {
        PayloadRequestRoots::Bellatrix { payload_root } => payload_root@,
        PayloadRequestRoots::Capella { payload_root } => payload_root@,
        PayloadRequestRoots::Deneb { payload_root, versioned_hashes, parent_beacon_block_root } =>
            blob_request_root(payload_root, versioned_hashes@, parent_beacon_block_root, None),
        PayloadRequestRoots::Electra {
            payload_root,
            versioned_hashes,
            parent_beacon_block_root,
            execution_requests_root,
        } => blob_request_root(
            payload_root,
            versioned_hashes@,
            parent_beacon_block_root,
            Some(execution_requests_root),
        ),
        PayloadRequestRoots::Fulu {
            payload_root,
            versioned_hashes,
            parent_beacon_block_root,
            execution_requests_root,
        } => blob_request_root(
            payload_root,
            versioned_hashes@,
            parent_beacon_block_root,
            Some(execution_requests_root),
        ),
        PayloadRequestRoots::Gloas {
            payload_root,
            versioned_hashes,
            parent_beacon_block_root,
            execution_requests_root,
        } => blob_request_root(
            payload_root,
            versioned_hashes@,
            parent_beacon_block_root,
            Some(execution_requests_root),
        ),
    }
}

/// The versioned hashes of a request, empty before Deneb.
pub open spec fn request_versioned_hashes(request: PayloadRequestRoots) -> Seq<Hash256> {
    match request {
        PayloadRequestRoots::Bellatrix { .. } => Seq::empty(),
        PayloadRequestRoots::Capella { .. } => Seq::empty(),
        PayloadRequestRoots::Deneb { versioned_hashes, .. } => versioned_hashes@,
        PayloadRequestRoots::Electra { versioned_hashes, .. } => versioned_hashes@,
        PayloadRequestRoots::Fulu { versioned_hashes, .. } => versioned_hashes@,
        PayloadRequestRoots::Gloas { versioned_hashes, .. } => versioned_hashes@,
    }
}

/// What each part of a request contributes to its tree-hash root. Before
/// Deneb the root is that of the payload. From Deneb on it is the Merkle root,
/// in a tree with room for four leaves, over the payload root, the root of the
/// versioned hashes and the parent beacon block root, and for Electra, Fulu
/// and Gloas the execution requests root as fourth leaf, however many
/// versioned hashes there are; for Deneb the fourth leaf is zero padding.
pub proof fn lemma_request_root_leaves(request: PayloadRequestRoots)
    ensures
        match request {
            PayloadRequestRoots::Bellatrix { payload_root } => request_root(request)
                == payload_root@,
            PayloadRequestRoots::Capella { payload_root } => request_root(request) == payload_root@,
            PayloadRequestRoots::Deneb {
                payload_root,
                versioned_hashes,
                parent_beacon_block_root,
            } => request_root(request) == merkle_root_of(
                payload_root@ + list_root(versioned_hashes@) + parent_beacon_block_root@,
                4,
            ),
            PayloadRequestRoots::Electra {
                payload_root,
                versioned_hashes,
                parent_beacon_block_root,
                execution_requests_root,
            } => request_root(request) == merkle_root_of(
                payload_root@ + list_root(versioned_hashes@) + parent_beacon_block_root@
                    + execution_requests_root@,
                4,
            ),
            PayloadRequestRoots::Fulu {
                payload_root,
                versioned_hashes,
                parent_beacon_block_root,
                execution_requests_root,
            } => request_root(request) == merkle_root_of(
                payload_root@ + list_root(versioned_hashes@) + parent_beacon_block_root@
                    + execution_requests_root@,
                4,
            ),
            PayloadRequestRoots::Gloas {
                payload_root,
                versioned_hashes,
                parent_beacon_block_root,
                execution_requests_root,
            } => request_root(request) == merkle_root_of(
                payload_root@ + list_root(versioned_hashes@) + parent_beacon_block_root@
                    + execution_requests_root@,
                4,
            ),
        },
{
}

/// Two requests of one fork whose parts are equal.
pub open spec fn same_request(r1: PayloadRequestRoots, r2: PayloadRequestRoots) -> bool {
    match (r1, r2) {
        (
            PayloadRequestRoots::Bellatrix { payload_root: p1 },
            PayloadRequestRoots::Bellatrix { payload_root: p2 },
        ) => p1 == p2,
        (
            PayloadRequestRoots::Capella { payload_root: p1 },
            PayloadRequestRoots::Capella { payload_root: p2 },
        ) => p1 == p2,
        (
            PayloadRequestRoots::Deneb {
                payload_root: p1,
                versioned_hashes: v1,
                parent_beacon_block_root: b1,
            },
            PayloadRequestRoots::Deneb {
                payload_root: p2,
                versioned_hashes: v2,
                parent_beacon_block_root: b2,
            },
        ) => p1 == p2 && v1@ == v2@ && b1 == b2,
        (
            PayloadRequestRoots::Electra {
                payload_root: p1,
                versioned_hashes: v1,
                parent_beacon_block_root: b1,
                execution_requests_root: e1,
            },
            PayloadRequestRoots::Electra {
                payload_root: p2,
                versioned_hashes: v2,
                parent_beacon_block_root: b2,
                execution_requests_root: e2,
            },
        ) => p1 == p2 && v1@ == v2@ && b1 == b2 && e1 == e2,
        (
            PayloadRequestRoots::Fulu {
                payload_root: p1,
                versioned_hashes: v1,
                parent_beacon_block_root: b1,
                execution_requests_root: e1,
            },
            PayloadRequestRoots::Fulu {
                payload_root: p2,
                versioned_hashes: v2,
                parent_beacon_block_root: b2,
                execution_requests_root: e2,
            },
        ) => p1 == p2 && v1@ == v2@ && b1 == b2 && e1 == e2,
        (
            PayloadRequestRoots::Gloas {
                payload_root: p1,
                versioned_hashes: v1,
                parent_beacon_block_root: b1,
                execution_requests_root: e1,
            },
            PayloadRequestRoots::Gloas {
                payload_root: p2,
                versioned_hashes: v2,
                parent_beacon_block_root: b2,
                execution_requests_root: e2,
            },
        ) => p1 == p2 && v1@ == v2@ && b1 == b2 && e1 == e2,
        _ => false,
    }
}

/// Requests of one fork with equal parts have one tree-hash root.
pub proof fn lemma_equal_requests_equal_roots(r1: PayloadRequestRoots, r2: PayloadRequestRoots)
    requires
        same_request(r1, r2),
    ensures
        request_root(r1) == request_root(r2),
{
}

fn blob_request_tree_hash(
    payload_root: &Hash256,
    versioned_hashes: &Vec<Hash256>,
    parent_beacon_block_root: &Hash256,
    execution_requests_root: Option<&Hash256>,
) -> (root: Hash256)
    requires
        versioned_hashes@.len() <= max_leaf_count(),
    ensures
        root@ == blob_request_root(
            *payload_root,
            versioned_hashes@,
            *parent_beacon_block_root,
            match execution_requests_root {
                Some(r) => Some(*r),
                None => None,
            },
        ),
{
    let leaves: usize = match execution_requests_root {
        Some(_) => 4,
        None => 3,
    };
    let mut hasher = merkle_hasher_with_leaves(leaves);
    assert(leaf_capacity(1) == 1);
    assert(leaf_capacity(2) == 2);
    assert(leaf_capacity(3) == 4);
    assert(leaf_capacity(4) == 4);

    // Hash execution payload
    merkle_hasher_write(&mut hasher, payload_root.as_slice()).expect(
        "should write execution payload hash",
    );
    assert(Seq::<u8>::empty() + payload_root@ =~= payload_root@);

    // Hash versioned hashes (as a list)
    let versioned_hashes_root = tree_hash_list(versioned_hashes.as_slice());
    merkle_hasher_write(&mut hasher, versioned_hashes_root.as_slice()).expect(
        "should write versioned hashes",
    );

    // Hash parent beacon block root
    merkle_hasher_write(&mut hasher, parent_beacon_block_root.as_slice()).expect(
        "should write parent beacon block root",
    );

    // Hash execution requests
    match execution_requests_root {
        Some(r) => {
            merkle_hasher_write(&mut hasher, r.as_slice()).expect(
                "should write execution requests",
            );
        },
        None => {},
    }
    merkle_hasher_finish(hasher).expect("should finish hashing")
}

/// Computes the tree hash root of the entire NewPayloadRequest structure.
/// This includes the execution payload, versioned hashes, parent beacon block root,
/// and execution requests (depending on the fork).
pub fn compute_new_payload_request_tree_hash(request: &PayloadRequestRoots) -> (root: Hash256)
    requires
        request_versioned_hashes(*request).len() <= max_leaf_count(),
    ensures
        root@ == request_root(*request),
{
    match request {
        // For Bellatrix/Capella, only hash the execution payload
        PayloadRequestRoots::Bellatrix { payload_root } => *payload_root,
        PayloadRequestRoots::Capella { payload_root } => *payload_root,
        // For Deneb+, hash execution payload + versioned hashes + parent beacon block root
        PayloadRequestRoots::Deneb { payload_root, versioned_hashes, parent_beacon_block_root } => {
            blob_request_tree_hash(payload_root, versioned_hashes, parent_beacon_block_root, None)
        },
        // For Electra+, also hash the execution requests
        PayloadRequestRoots::Electra {
            payload_root,
            versioned_hashes,
            parent_beacon_block_root,
            execution_requests_root,
        } => blob_request_tree_hash(
            payload_root,
            versioned_hashes,
            parent_beacon_block_root,
            Some(execution_requests_root),
        ),
        PayloadRequestRoots::Fulu {
            payload_root,
            versioned_hashes,
            parent_beacon_block_root,
            execution_requests_root,
        } => blob_request_tree_hash(
            payload_root,
            versioned_hashes,
            parent_beacon_block_root,
            Some(execution_requests_root),
        ),
        PayloadRequestRoots::Gloas {
            payload_root,
            versioned_hashes,
            parent_beacon_block_root,
            execution_requests_root,
        } => blob_request_tree_hash(
            payload_root,
            versioned_hashes,
            parent_beacon_block_root,
            Some(execution_requests_root),
        ),
    }
}

} // verus!
