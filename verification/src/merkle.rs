//! Merkle roots of 32-byte leaves, computed by `tree_hash::MerkleHasher`.

use crate::fake_crypto::zero_bytes;
use tree_hash::Error as MerkleError;
use tree_hash::MerkleHasher;
use vstd::arithmetic::power2::{lemma2_to64, lemma_pow2_unfold, pow2};
use vstd::prelude::*;

verus! {

/// A 32-byte hash, as `tree_hash` computes them.
pub type Hash256 = [u8; 32];

/// `tree_hash::MerkleHasher`, held opaque.
#[verifier::external_type_specification]
#[verifier::external_body]
pub struct ExMerkleHasher(tree_hash::MerkleHasher);

/// `tree_hash::Error`, held opaque.
#[verifier::external_type_specification]
#[verifier::external_body]
pub struct ExMerkleError(MerkleError);

/// The bytes written to a Merkle hasher so far, in the order written.
pub uninterp spec fn hasher_written(h: MerkleHasher) -> Seq<u8>;

/// The number of leaves that a Merkle hasher has room for: a power of two.
pub uninterp spec fn hasher_leaf_count(h: MerkleHasher) -> nat;

/// The root that `MerkleHasher::finish` gives for `bytes` written to a hasher
/// with room for `leaf_count` leaves (missing leaves taken as zero).
pub uninterp spec fn merkle_root_of(bytes: Seq<u8>, leaf_count: nat) -> Seq<u8>;

/// The smallest power of two that is at least `n` and at least 1: the
/// number of leaves that `MerkleHasher::with_leaves(n)` makes room for.
pub open spec fn leaf_capacity(n: nat) -> nat
    decreases n,
{
    if n <= 1 {
        1
    } else {
        2 * leaf_capacity(((n + 1) / 2) as nat)
    }
}

/// A hasher made for `n` leaves has room for them.
pub proof fn lemma_leaf_capacity_holds(n: nat)
    ensures
        n <= leaf_capacity(n),
        1 <= leaf_capacity(n),
    decreases n,
{
    if n > 1 {
        lemma_leaf_capacity_holds(((n + 1) / 2) as nat);
    }
}

/// `n` bytes fit in the leaves that `h` was made for.
pub open spec fn fits_leaves(n: nat, h: MerkleHasher) -> bool {
    n <= 32 * hasher_leaf_count(h)
}

/// The largest leaf count that a hasher is made for here: 2^49 leaves on a
/// 64-bit machine, 2^29 otherwise. Above it `MerkleHasher` overflows a shift
/// when it counts leaves, or needs a padding hash of a height that
/// `tree_hash` has not precomputed (it has them up to height 48).
pub open spec fn max_leaf_count() -> int {
    if usize::BITS == 64 {
        0x2_0000_0000_0000
    } else {
        0x2000_0000
    }
}

/// `MerkleHasher::with_leaves`: an empty hasher with room for `num_leaves`
/// leaves rounded up to a power of two (one leaf for a count of zero). The
/// count is kept to `max_leaf_count()`, under which `write` and `finish`
/// behave as stated.
#[verifier::external_body]
pub(crate) fn merkle_hasher_with_leaves(num_leaves: usize) -> (h: MerkleHasher)
    requires
        num_leaves <= max_leaf_count(),
    ensures
        hasher_written(h) == Seq::<u8>::empty(),
        hasher_leaf_count(h) == leaf_capacity(num_leaves as nat),
{
    MerkleHasher::with_leaves(num_leaves)
}

/// `MerkleHasher::write`: appends bytes to the leaves. Its leaf count never
/// changes. It succeeds whenever everything written fits in the leaves that
/// the hasher was made for (at most `max_leaf_count()`, which
/// `merkle_hasher_with_leaves` asks); what it holds after a failure is left
/// unsaid.
#[verifier::external_body]
pub(crate) fn merkle_hasher_write(h: &mut MerkleHasher, bytes: &[u8]) -> (res: Result<(), MerkleError>)
    ensures
        hasher_leaf_count(*final(h)) == hasher_leaf_count(*old(h)),
        fits_leaves(hasher_written(*old(h)).len() + bytes@.len(), *old(h)) ==> res is Ok,
        fits_leaves(hasher_written(*old(h)).len() + bytes@.len(), *old(h)) ==> hasher_written(
            *final(h),
        ) == hasher_written(*old(h)) + bytes@,
{
    h.write(bytes)
}

/// `MerkleHasher::finish`: the root of the tree over what was written, for
/// the leaf count the hasher was made with. It succeeds whenever what was
/// written fits in those leaves (at most `max_leaf_count()`, so that every
/// padding hash it needs is precomputed).
#[verifier::external_body]
pub(crate) fn merkle_hasher_finish(h: MerkleHasher) -> (res: Result<Hash256, MerkleError>)
    ensures
        fits_leaves(hasher_written(h).len(), h) ==> res is Ok,
        res matches Ok(root) ==> root@ == merkle_root_of(hasher_written(h), hasher_leaf_count(h)),
{
    h.finish().map(|root| root.0)
}

/// The hashes of `list`, one after another.
pub open spec fn concat_hashes(list: Seq<Hash256>) -> Seq<u8>
    decreases list.len(),
{
    if list.len() == 0 {
        Seq::empty()
    } else {
        concat_hashes(list.drop_last()) + list.last()@
    }
}

/// The tree-hash root of a list of hashes: zero for the empty list, else the
/// Merkle root with one leaf per hash, padded with zero leaves to a power of
/// two.
pub open spec fn list_root(list: Seq<Hash256>) -> Seq<u8> {
    if list.len() == 0 {
        zero_bytes(32)
    } else {
        merkle_root_of(concat_hashes(list), leaf_capacity(list.len()))
    }
}

proof fn lemma_concat_hashes_len(list: Seq<Hash256>)
    ensures
        concat_hashes(list).len() == 32 * list.len(),
    decreases list.len(),
{
    if list.len() > 0 {
        lemma_concat_hashes_len(list.drop_last());
    }
}

/// The bytes of a list of hashes are the hashes themselves, in order and
/// unchanged: byte `j` of hash `i` stands at place `32 * i + j`.
pub proof fn lemma_concat_hashes_bytes(list: Seq<Hash256>)
    ensures
        concat_hashes(list).len() == 32 * list.len(),
        forall|i: int, j: int|
            0 <= i < list.len() && 0 <= j < 32 ==> concat_hashes(list)[32 * i + j]
                == #[trigger] list[i]@[j],
    decreases list.len(),
{
    lemma_concat_hashes_len(list);
    if list.len() > 0 {
        let init = list.drop_last();
        lemma_concat_hashes_bytes(init);
        assert forall|i: int, j: int| 0 <= i < list.len() && 0 <= j < 32 implies concat_hashes(
            list,
        )[32 * i + j] == #[trigger] list[i]@[j] by {
            if i < list.len() - 1 {
                assert(init[i] == list[i]);
                assert(list[i]@[j] == init[i]@[j]);
            }
        }
    }
}

/// The root of a non-empty list of hashes is the Merkle root over the bytes
/// of its hashes, in order and unchanged, in a tree with room for the
/// smallest power of two of leaves that holds one leaf per hash.
pub proof fn lemma_list_root_over_hash_bytes(list: Seq<Hash256>, bytes: Seq<u8>)
    requires
        list.len() > 0,
        bytes.len() == 32 * list.len(),
        forall|i: int, j: int|
            0 <= i < list.len() && 0 <= j < 32 ==> bytes[32 * i + j] == #[trigger] list[i]@[j],
    ensures
        list_root(list) == merkle_root_of(bytes, leaf_capacity(list.len())),
{
    lemma_concat_hashes_bytes(list);
    assert forall|k: int| 0 <= k < bytes.len() implies bytes[k] == concat_hashes(list)[k] by {
        let i = k / 32;
        let j = k % 32;
        assert(k == 32 * i + j);
        assert(0 <= i < list.len());
        assert(list[i]@[j] == bytes[32 * i + j]);
    }
    assert(bytes =~= concat_hashes(list));
}

/// The root of the empty list of hashes is 32 zero bytes.
pub proof fn lemma_empty_list_root()
    ensures
        list_root(Seq::<Hash256>::empty()).len() == 32,
        forall|k: int| 0 <= k < 32 ==> list_root(Seq::<Hash256>::empty())[k] == 0u8,
{
}

/// A hasher made for `n` leaves has room for the smallest power of two of
/// leaves that is at least `n` (one leaf for zero or one): `2^k` with
/// `n <= 2^k`, and `2^(k-1) < n` unless `k` is zero.
pub proof fn lemma_leaf_capacity_is_least_power_of_two(n: nat) -> (k: nat)
    ensures
        leaf_capacity(n) == pow2(k),
        n <= pow2(k),
        k == 0 || pow2((k - 1) as nat) < n,
    decreases n,
{
    lemma2_to64();
    if n <= 1 {
        0
    } else {
        let m = ((n + 1) / 2) as nat;
        let k0 = lemma_leaf_capacity_is_least_power_of_two(m);
        lemma_pow2_unfold(k0 + 1);
        if k0 > 0 {
            lemma_pow2_unfold(k0);
        }
        k0 + 1
    }
}

/// Computes the tree hash root of a list of hashes (versioned hashes).
pub fn tree_hash_list(list: &[Hash256]) -> (root: Hash256)
    requires
        list@.len() <= max_leaf_count(),
    ensures
        root@ == list_root(list@),
{
    if list.len() == 0 {
        let zero: Hash256 = [0u8; 32];
        assert(zero@ =~= zero_bytes(32));
        return zero;
    }
    let mut hasher = merkle_hasher_with_leaves(list.len());
    proof {
        lemma_leaf_capacity_holds(list@.len());
    }
    let n = list.len();
    let mut i: usize = 0;
    while i < n
        invariant
            n == list@.len(),
            0 <= i <= n,
            hasher_leaf_count(hasher) == leaf_capacity(n as nat),
            n <= leaf_capacity(n as nat),
            hasher_written(hasher) == concat_hashes(list@.take(i as int)),
        decreases n - i,
    {
        proof {
            lemma_concat_hashes_len(list@.take(i as int));
            assert(list@.take(i + 1).drop_last() =~= list@.take(i as int));
        }
        merkle_hasher_write(&mut hasher, list[i].as_slice()).expect("should write hash");
        i = i + 1;
    }
    proof {
        assert(list@.take(n as int) =~= list@);
        lemma_concat_hashes_len(list@);
    }
    merkle_hasher_finish(hasher).expect("should finish hashing")
}

} // verus!
