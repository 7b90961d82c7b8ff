//! The summary of a new-payload request that is written out: its fork, its
//! tree-hash root, the outcome of its checks and the fields of its execution
//! payload, with bytes written as `0x`-prefixed lower-case hex.

use crate::fork::{fork_text, has_blobs, has_withdrawals, lemma_fork_features, ForkName};
use crate::hex_text::{hex_lower, hex_string, prefix_0x, prefixed, prefixed_hex};
use crate::merkle::Hash256;
use crate::validation::ValidationReport;
use vstd::prelude::*;

verus! {

/// A withdrawal of an execution payload.
#[derive(Clone, Copy, Debug)]
pub struct Withdrawal {
    pub index: u64,
    pub validator_index: u64,
    pub address: [u8; 20],
    pub amount: u64,
}

/// The fields of an execution payload that are written out. The block hashes
/// and the base fee come as the text that their types display; withdrawals
/// and blob gas are `None` where the payload has none.
pub struct ExecutionPayloadFields {
    pub parent_hash: String,
    pub fee_recipient: [u8; 20],
    pub state_root: Hash256,
    pub receipts_root: Hash256,
    pub logs_bloom: Vec<u8>,
    pub prev_randao: Hash256,
    pub block_number: u64,
    pub gas_limit: u64,
    pub gas_used: u64,
    pub timestamp: u64,
    pub extra_data: Vec<u8>,
    pub base_fee_per_gas: String,
    pub block_hash: String,
    pub transactions: Vec<Vec<u8>>,
    pub withdrawals: Option<Vec<Withdrawal>>,
    pub blob_gas_used: Option<u64>,
    pub excess_blob_gas: Option<u64>,
}

/// What a new-payload request carries beside its payload, by fork; the
/// execution requests come SSZ-encoded.
pub enum RequestExtras {
    Bellatrix,
    Capella,
    Deneb { versioned_hashes: Vec<Hash256>, parent_beacon_block_root: Hash256 },
    Electra {
        versioned_hashes: Vec<Hash256>,
        parent_beacon_block_root: Hash256,
        execution_requests: Vec<u8>,
    },
    Fulu {
        versioned_hashes: Vec<Hash256>,
        parent_beacon_block_root: Hash256,
        execution_requests: Vec<u8>,
    },
    Gloas {
        versioned_hashes: Vec<Hash256>,
        parent_beacon_block_root: Hash256,
        execution_requests: Vec<u8>,
    },
}

/// A new-payload request: its execution payload and what it carries beside it.
pub struct PayloadRequestFields {
    pub payload: ExecutionPayloadFields,
    pub extras: RequestExtras,
}

/// A withdrawal as written out.
#[derive(Debug)]
pub struct WithdrawalOutput {
    pub index: u64,
    pub validator_index: u64,
    pub address: String,
    pub amount: u64,
}

/// An execution payload as written out.
#[derive(Debug)]
pub struct ExecutionPayloadOutput {
    pub parent_hash: String,
    pub fee_recipient: String,
    pub state_root: String,
    pub receipts_root: String,
    pub logs_bloom: String,
    pub prev_randao: String,
    pub block_number: u64,
    pub gas_limit: u64,
    pub gas_used: u64,
    pub timestamp: u64,
    pub extra_data: String,
    pub base_fee_per_gas: String,
    pub block_hash: String,
    pub transactions: Vec<String>,
    pub withdrawals: Option<Vec<WithdrawalOutput>>,
    pub blob_gas_used: Option<u64>,
    pub excess_blob_gas: Option<u64>,
}

/// The whole summary as written out; the last three fields are `None`
/// where the request carries no such thing.
#[derive(Debug)]
pub struct PayloadRequestOutput {
    pub fork: String,
    pub tree_hash_root: String,
    pub validation: ValidationReport,
    pub execution_payload: ExecutionPayloadOutput,
    pub versioned_hashes: Option<Vec<String>>,
    pub parent_beacon_block_root: Option<String>,
    pub execution_requests: Option<String>,
}

/// Each string is the `0x`-hex of the byte string at its place.
pub open spec fn hex_of_each(out: Seq<String>, items: Seq<Vec<u8>>) -> bool {
    &&& out.len() == items.len()
    &&& forall|i: int| 0 <= i < items.len() ==> #[trigger] out[i]@ == prefixed_hex(items[i]@)
}

/// Each string is the `0x`-hex of the hash at its place.
pub open spec fn hex_of_each_hash(out: Seq<String>, items: Seq<Hash256>) -> bool {
    &&& out.len() == items.len()
    &&& forall|i: int| 0 <= i < items.len() ==> #[trigger] out[i]@ == prefixed_hex(items[i]@)
}

/// A withdrawal written out: its numbers as they are, its address in hex.
pub open spec fn withdrawal_written(o: WithdrawalOutput, w: Withdrawal) -> bool {
    &&& o.index == w.index
    &&& o.validator_index == w.validator_index
    &&& o.address@ == prefixed_hex(w.address@)
    &&& o.amount == w.amount
}

/// Each withdrawal written out at its place.
pub open spec fn withdrawals_written(out: Seq<WithdrawalOutput>, ws: Seq<Withdrawal>) -> bool {
    &&& out.len() == ws.len()
    &&& forall|i: int| 0 <= i < ws.len() ==> #[trigger] withdrawal_written(out[i], ws[i])
}

/// The payload written out for a block of `fork`: withdrawals from Capella
/// on, blob gas from Deneb on, each where the payload has it.
pub open spec fn payload_written(
    o: ExecutionPayloadOutput,
    p: ExecutionPayloadFields,
    fork: ForkName,
) -> bool {
    &&& o.parent_hash@ == prefixed(p.parent_hash@)
    &&& o.fee_recipient@ == prefixed_hex(p.fee_recipient@)
    &&& o.state_root@ == prefixed_hex(p.state_root@)
    &&& o.receipts_root@ == prefixed_hex(p.receipts_root@)
    &&& o.logs_bloom@ == prefixed_hex(p.logs_bloom@)
    &&& o.prev_randao@ == prefixed_hex(p.prev_randao@)
    &&& o.block_number == p.block_number
    &&& o.gas_limit == p.gas_limit
    &&& o.gas_used == p.gas_used
    &&& o.timestamp == p.timestamp
    &&& o.extra_data@ == prefixed_hex(p.extra_data@)
    &&& o.base_fee_per_gas@ == p.base_fee_per_gas@
    &&& o.block_hash@ == prefixed(p.block_hash@)
    &&& hex_of_each(o.transactions@, p.transactions@)
    &&& (if has_withdrawals(fork) && p.withdrawals is Some {
        o.withdrawals matches Some(ws) && withdrawals_written(ws@, p.withdrawals->0@)
    } else {
        o.withdrawals is None
    })
    &&& o.blob_gas_used == (if has_blobs(fork) {
        p.blob_gas_used
    } else {
        None
    })
    &&& o.excess_blob_gas == (if has_blobs(fork) {
        p.excess_blob_gas
    } else {
        None
    })
}

/// The versioned hashes, the parent beacon block root and the execution
/// requests written out: those that the request carries, and no others.
pub open spec fn extras_written(o: PayloadRequestOutput, extras: RequestExtras) -> bool {
    match extras {
        RequestExtras::Bellatrix => o.versioned_hashes is None && o.parent_beacon_block_root is None
            && o.execution_requests is None,
        RequestExtras::Capella => o.versioned_hashes is None && o.parent_beacon_block_root is None
            && o.execution_requests is None,
        RequestExtras::Deneb { versioned_hashes, parent_beacon_block_root } => {
            &&& o.versioned_hashes matches Some(v) && hex_of_each_hash(v@, versioned_hashes@)
            &&& o.parent_beacon_block_root matches Some(r) && r@ == prefixed_hex(
                parent_beacon_block_root@,
            )
            &&& o.execution_requests is None
        },
        RequestExtras::Electra { versioned_hashes, parent_beacon_block_root, execution_requests } => {
            &&& o.versioned_hashes matches Some(v) && hex_of_each_hash(v@, versioned_hashes@)
            &&& o.parent_beacon_block_root matches Some(r) && r@ == prefixed_hex(
                parent_beacon_block_root@,
            )
            &&& o.execution_requests matches Some(e) && e@ == prefixed_hex(execution_requests@)
        },
        RequestExtras::Fulu { versioned_hashes, parent_beacon_block_root, execution_requests } => {
            &&& o.versioned_hashes matches Some(v) && hex_of_each_hash(v@, versioned_hashes@)
            &&& o.parent_beacon_block_root matches Some(r) && r@ == prefixed_hex(
                parent_beacon_block_root@,
            )
            &&& o.execution_requests matches Some(e) && e@ == prefixed_hex(execution_requests@)
        },
        RequestExtras::Gloas { versioned_hashes, parent_beacon_block_root, execution_requests } => {
            &&& o.versioned_hashes matches Some(v) && hex_of_each_hash(v@, versioned_hashes@)
            &&& o.parent_beacon_block_root matches Some(r) && r@ == prefixed_hex(
                parent_beacon_block_root@,
            )
            &&& o.execution_requests matches Some(e) && e@ == prefixed_hex(execution_requests@)
        },
    }
}

/// The summary written out for a request of `fork`.
pub open spec fn output_written(
    o: PayloadRequestOutput,
    request: PayloadRequestFields,
    fork: ForkName,
    validation: ValidationReport,
    tree_hash_root: Hash256,
) -> bool {
    &&& o.fork@ == fork_text(fork)
    &&& o.tree_hash_root@ == prefixed_hex(tree_hash_root@)
    &&& o.validation == validation
    &&& payload_written(o.execution_payload, request.payload, fork)
    &&& extras_written(o, request.extras)
}

/// The payload fields that every fork writes: the block hashes as their
/// text behind `0x`, the byte fields as `0x`-hex, the numbers and the base fee
/// as they are, and each transaction as `0x`-hex at its place.
pub proof fn lemma_payload_fields_written(
    o: ExecutionPayloadOutput,
    p: ExecutionPayloadFields,
    fork: ForkName,
)
    requires
        payload_written(o, p, fork),
    ensures
        o.parent_hash@ == seq!['0', 'x'] + p.parent_hash@,
        o.block_hash@ == seq!['0', 'x'] + p.block_hash@,
        o.fee_recipient@ == seq!['0', 'x'] + hex_lower(p.fee_recipient@),
        o.state_root@ == seq!['0', 'x'] + hex_lower(p.state_root@),
        o.receipts_root@ == seq!['0', 'x'] + hex_lower(p.receipts_root@),
        o.logs_bloom@ == seq!['0', 'x'] + hex_lower(p.logs_bloom@),
        o.prev_randao@ == seq!['0', 'x'] + hex_lower(p.prev_randao@),
        o.extra_data@ == seq!['0', 'x'] + hex_lower(p.extra_data@),
        o.block_number == p.block_number,
        o.gas_limit == p.gas_limit,
        o.gas_used == p.gas_used,
        o.timestamp == p.timestamp,
        o.base_fee_per_gas@ == p.base_fee_per_gas@,
        o.transactions@.len() == p.transactions@.len(),
        forall|i: int|
            0 <= i < p.transactions@.len() ==> #[trigger] o.transactions@[i]@ == seq!['0', 'x']
                + hex_lower(p.transactions@[i]@),
{
}

/// Withdrawals are written for Capella and every later fork, each at its
/// place with its numbers as they are and its address as `0x`-hex, whenever
/// the payload has them; before Capella, or when the payload has none, they
/// are left out.
pub proof fn lemma_withdrawals_written_from_capella_on(
    o: ExecutionPayloadOutput,
    p: ExecutionPayloadFields,
    fork: ForkName,
)
    requires
        payload_written(o, p, fork),
    ensures
        (fork is Capella || fork is Deneb || fork is Electra || fork is Fulu || fork is Gloas)
            && p.withdrawals is Some ==> {
            &&& o.withdrawals is Some
            &&& o.withdrawals->0@.len() == p.withdrawals->0@.len()
            &&& forall|i: int|
                0 <= i < p.withdrawals->0@.len() ==> {
                    &&& (#[trigger] o.withdrawals->0@[i]).index == p.withdrawals->0@[i].index
                    &&& o.withdrawals->0@[i].validator_index
                        == p.withdrawals->0@[i].validator_index
                    &&& o.withdrawals->0@[i].amount == p.withdrawals->0@[i].amount
                    &&& o.withdrawals->0@[i].address@ == seq!['0', 'x'] + hex_lower(
                        p.withdrawals->0@[i].address@,
                    )
                }
        },
        fork is Base || fork is Altair || fork is Bellatrix || p.withdrawals is None
            ==> o.withdrawals is None,
{
    lemma_fork_features(fork);
    if has_withdrawals(fork) && p.withdrawals is Some {
        let ws = o.withdrawals->0@;
        assert forall|i: int| 0 <= i < p.withdrawals->0@.len() implies {
            &&& (#[trigger] ws[i]).index == p.withdrawals->0@[i].index
            &&& ws[i].validator_index == p.withdrawals->0@[i].validator_index
            &&& ws[i].amount == p.withdrawals->0@[i].amount
            &&& ws[i].address@ == seq!['0', 'x'] + hex_lower(p.withdrawals->0@[i].address@)
        } by {
            assert(withdrawal_written(ws[i], p.withdrawals->0@[i]));
        }
    }
}

/// Blob gas is written, as the payload has it, for Deneb and every later
/// fork, and left out before Deneb.
pub proof fn lemma_blob_gas_written_from_deneb_on(
    o: ExecutionPayloadOutput,
    p: ExecutionPayloadFields,
    fork: ForkName,
)
    requires
        payload_written(o, p, fork),
    ensures
        fork is Deneb || fork is Electra || fork is Fulu || fork is Gloas ==> o.blob_gas_used
            == p.blob_gas_used && o.excess_blob_gas == p.excess_blob_gas,
        fork is Base || fork is Altair || fork is Bellatrix || fork is Capella ==> o.blob_gas_used
            is None && o.excess_blob_gas is None,
{
    lemma_fork_features(fork);
}

/// What a request carries beside its payload is written by its variant:
/// nothing for Bellatrix and Capella; the versioned hashes, each as `0x`-hex
/// at its place, and the parent beacon block root for Deneb; and for
/// Electra, Fulu and Gloas also the SSZ bytes of the execution requests as
/// `0x`-hex.
pub proof fn lemma_extras_written_by_variant(o: PayloadRequestOutput, extras: RequestExtras)
    requires
        extras_written(o, extras),
    ensures
        match extras {
            RequestExtras::Bellatrix => o.versioned_hashes is None && o.parent_beacon_block_root
                is None && o.execution_requests is None,
            RequestExtras::Capella => o.versioned_hashes is None && o.parent_beacon_block_root
                is None && o.execution_requests is None,
            RequestExtras::Deneb { versioned_hashes, parent_beacon_block_root } => {
                &&& o.versioned_hashes is Some
                &&& o.versioned_hashes->0@.len() == versioned_hashes@.len()
                &&& forall|i: int|
                    0 <= i < versioned_hashes@.len() ==> (#[trigger] o.versioned_hashes->0@[i])@
                        == seq!['0', 'x'] + hex_lower(versioned_hashes@[i]@)
                &&& o.parent_beacon_block_root is Some
                &&& o.parent_beacon_block_root->0@ == seq!['0', 'x'] + hex_lower(
                    parent_beacon_block_root@,
                )
                &&& o.execution_requests is None
            },
            RequestExtras::Electra {
                versioned_hashes,
                parent_beacon_block_root,
                execution_requests,
            } => {
                &&& o.versioned_hashes is Some
                &&& o.versioned_hashes->0@.len() == versioned_hashes@.len()
                &&& forall|i: int|
                    0 <= i < versioned_hashes@.len() ==> (#[trigger] o.versioned_hashes->0@[i])@
                        == seq!['0', 'x'] + hex_lower(versioned_hashes@[i]@)
                &&& o.parent_beacon_block_root is Some
                &&& o.parent_beacon_block_root->0@ == seq!['0', 'x'] + hex_lower(
                    parent_beacon_block_root@,
                )
                &&& o.execution_requests is Some
                &&& o.execution_requests->0@ == seq!['0', 'x'] + hex_lower(execution_requests@)
            },
            RequestExtras::Fulu { versioned_hashes, parent_beacon_block_root, execution_requests } => {
                &&& o.versioned_hashes is Some
                &&& o.versioned_hashes->0@.len() == versioned_hashes@.len()
                &&& forall|i: int|
                    0 <= i < versioned_hashes@.len() ==> (#[trigger] o.versioned_hashes->0@[i])@
                        == seq!['0', 'x'] + hex_lower(versioned_hashes@[i]@)
                &&& o.parent_beacon_block_root is Some
                &&& o.parent_beacon_block_root->0@ == seq!['0', 'x'] + hex_lower(
                    parent_beacon_block_root@,
                )
                &&& o.execution_requests is Some
                &&& o.execution_requests->0@ == seq!['0', 'x'] + hex_lower(execution_requests@)
            },
            RequestExtras::Gloas { versioned_hashes, parent_beacon_block_root, execution_requests } => {
                &&& o.versioned_hashes is Some
                &&& o.versioned_hashes->0@.len() == versioned_hashes@.len()
                &&& forall|i: int|
                    0 <= i < versioned_hashes@.len() ==> (#[trigger] o.versioned_hashes->0@[i])@
                        == seq!['0', 'x'] + hex_lower(versioned_hashes@[i]@)
                &&& o.parent_beacon_block_root is Some
                &&& o.parent_beacon_block_root->0@ == seq!['0', 'x'] + hex_lower(
                    parent_beacon_block_root@,
                )
                &&& o.execution_requests is Some
                &&& o.execution_requests->0@ == seq!['0', 'x'] + hex_lower(execution_requests@)
            },
        },
{
}

/// The summary names the fork as the chain does, gives the tree-hash root
/// as `0x`-hex and carries the report of the checks unchanged.
pub proof fn lemma_summary_header_written(
    o: PayloadRequestOutput,
    request: PayloadRequestFields,
    fork: ForkName,
    validation: ValidationReport,
    tree_hash_root: Hash256,
)
    requires
        output_written(o, request, fork, validation, tree_hash_root),
    ensures
        o.fork@ == fork_text(fork),
        o.tree_hash_root@ == seq!['0', 'x'] + hex_lower(tree_hash_root@),
        o.validation == validation,
        payload_written(o.execution_payload, request.payload, fork),
        extras_written(o, request.extras),
{
}

fn hex_strings(items: &Vec<Vec<u8>>) -> (out: Vec<String>)
    ensures
        hex_of_each(out@, items@),
{
    let mut out: Vec<String> = Vec::new();
    let n = items.len();
    let mut i: usize = 0;
    while i < n
        invariant
            n == items@.len(),
            0 <= i <= n,
            out@.len() == i,
            forall|j: int| 0 <= j < i ==> #[trigger] out@[j]@ == prefixed_hex(items@[j]@),
        decreases n - i,
    {
        out.push(hex_string(items[i].as_slice()));
        i = i + 1;
    }
    out
}

fn hash_hex_strings(items: &Vec<Hash256>) -> (out: Vec<String>)
    ensures
        hex_of_each_hash(out@, items@),
{
    let mut out: Vec<String> = Vec::new();
    let n = items.len();
    let mut i: usize = 0;
    while i < n
        invariant
            n == items@.len(),
            0 <= i <= n,
            out@.len() == i,
            forall|j: int| 0 <= j < i ==> #[trigger] out@[j]@ == prefixed_hex(items@[j]@),
        decreases n - i,
    {
        out.push(hex_string(items[i].as_slice()));
        i = i + 1;
    }
    out
}

fn withdrawal_outputs(ws: &Vec<Withdrawal>) -> (out: Vec<WithdrawalOutput>)
    ensures
        withdrawals_written(out@, ws@),
{
    let mut out: Vec<WithdrawalOutput> = Vec::new();
    let n = ws.len();
    let mut i: usize = 0;
    while i < n
        invariant
            n == ws@.len(),
            0 <= i <= n,
            out@.len() == i,
            forall|j: int| 0 <= j < i ==> #[trigger] withdrawal_written(out@[j], ws@[j]),
        decreases n - i,
    {
        let w = ws[i];
        out.push(
            WithdrawalOutput {
                index: w.index,
                validator_index: w.validator_index,
                address: hex_string(w.address.as_slice()),
                amount: w.amount,
            },
        );
        i = i + 1;
    }
    out
}

fn payload_output(p: &ExecutionPayloadFields, fork_name: ForkName) -> (o: ExecutionPayloadOutput)
    ensures
        payload_written(o, *p, fork_name),
{
    // Add Capella+ fields
    let withdrawals = match fork_name {
        ForkName::Capella | ForkName::Deneb | ForkName::Electra | ForkName::Fulu | ForkName::Gloas => {
            match &p.withdrawals {
                Some(ws) => Some(withdrawal_outputs(ws)),
                None => None,
            }
        },
        _ => None,
    };
    // Add Deneb+ fields
    let (blob_gas_used, excess_blob_gas) = match fork_name {
        ForkName::Deneb | ForkName::Electra | ForkName::Fulu | ForkName::Gloas => (
            p.blob_gas_used,
            p.excess_blob_gas,
        ),
        _ => (None, None),
    };
    ExecutionPayloadOutput {
        parent_hash: prefix_0x(p.parent_hash.as_str()),
        fee_recipient: hex_string(p.fee_recipient.as_slice()),
        state_root: hex_string(p.state_root.as_slice()),
        receipts_root: hex_string(p.receipts_root.as_slice()),
        logs_bloom: hex_string(p.logs_bloom.as_slice()),
        prev_randao: hex_string(p.prev_randao.as_slice()),
        block_number: p.block_number,
        gas_limit: p.gas_limit,
        gas_used: p.gas_used,
        timestamp: p.timestamp,
        extra_data: hex_string(p.extra_data.as_slice()),
        base_fee_per_gas: p.base_fee_per_gas.clone(),
        block_hash: prefix_0x(p.block_hash.as_str()),
        transactions: hex_strings(&p.transactions),
        withdrawals,
        blob_gas_used,
        excess_blob_gas,
    }
}

/// Builds the summary of a request of `fork_name`, whose checks came out as
/// `validation` and whose tree-hash root is `tree_hash_root`.
pub fn build_json_output(
    request: &PayloadRequestFields,
    fork_name: ForkName,
    validation: ValidationReport,
    tree_hash_root: Hash256,
) -> (res: Result<PayloadRequestOutput, String>)
    ensures
        res matches Ok(o) && output_written(o, *request, fork_name, validation, tree_hash_root),
{
    let execution_payload = payload_output(&request.payload, fork_name);

    // Add versioned hashes for Deneb+
    let (versioned_hashes, parent_beacon_block_root, execution_requests) = match &request.extras {
        RequestExtras::Deneb { versioned_hashes, parent_beacon_block_root } => (
            Some(hash_hex_strings(versioned_hashes)),
            Some(hex_string(parent_beacon_block_root.as_slice())),
            None,
        ),
        RequestExtras::Electra { versioned_hashes, parent_beacon_block_root, execution_requests } => (
            Some(hash_hex_strings(versioned_hashes)),
            Some(hex_string(parent_beacon_block_root.as_slice())),
            Some(hex_string(execution_requests.as_slice())),
        ),
        RequestExtras::Fulu { versioned_hashes, parent_beacon_block_root, execution_requests } => (
            Some(hash_hex_strings(versioned_hashes)),
            Some(hex_string(parent_beacon_block_root.as_slice())),
            Some(hex_string(execution_requests.as_slice())),
        ),
        RequestExtras::Gloas { versioned_hashes, parent_beacon_block_root, execution_requests } => (
            Some(hash_hex_strings(versioned_hashes)),
            Some(hex_string(parent_beacon_block_root.as_slice())),
            Some(hex_string(execution_requests.as_slice())),
        ),
        _ => (None, None, None),
    };

    Ok(
        PayloadRequestOutput {
            fork: fork_name.to_string(),
            tree_hash_root: hex_string(tree_hash_root.as_slice()),
            validation,
            execution_payload,
            versioned_hashes,
            parent_beacon_block_root,
            execution_requests,
        },
    )
}

} // verus!
