# kzg

A verified Rust library (Verus) with two parts.

- A KZG context for builds without a C compiler (`src/fake_crypto.rs`). It does
  no cryptography: every verification succeeds, every computation returns zero
  bytes, and a batch of cells is checked only for consistent lengths. The
  commitment and proof types are in `src/kzg_commitment.rs` and
  `src/kzg_proof.rs`, and the sizes are constants in `src/lib.rs`.
- The logic of the `new-payload-request` inspection command:
  - `src/merkle.rs`: tree-hash roots of lists of hashes, computed with
    `tree_hash::MerkleHasher`.
  - `src/payload_request.rs`: the tree-hash root of a request, by fork.
  - `src/validation.rs`: which checks a request goes through, and in what
    order.
  - `src/output.rs` and `src/hex_text.rs`: the summary that is written out.
  - `src/fork.rs`: the forks.

`app/` is the command itself. It fetches the block, runs the checks, and writes
the JSON. It needs the beacon-chain crates of its own workspace.
