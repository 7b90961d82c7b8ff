use kzg::fork::ForkName;
use kzg::output::{
    build_json_output, ExecutionPayloadFields, PayloadRequestFields, RequestExtras, Withdrawal,
};
use kzg::validation::ValidationReport;

fn payload() -> ExecutionPayloadFields {
    ExecutionPayloadFields {
        parent_hash: "abcd".to_string(),
        fee_recipient: [0x11; 20],
        state_root: [0x22; 32],
        receipts_root: [0x33; 32],
        logs_bloom: vec![0x00, 0xff],
        prev_randao: [0x44; 32],
        block_number: 7,
        gas_limit: 30_000_000,
        gas_used: 21_000,
        timestamp: 1_700_000_000,
        extra_data: vec![0xde, 0xad, 0xbe, 0xef],
        base_fee_per_gas: "1000000007".to_string(),
        block_hash: "0x1234".to_string(),
        transactions: vec![vec![0x02, 0xf8], vec![]],
        withdrawals: Some(vec![Withdrawal {
            index: 1,
            validator_index: 2,
            address: [0xab; 20],
            amount: 3,
        }]),
        blob_gas_used: Some(131072),
        excess_blob_gas: Some(0),
    }
}

fn report(versioned: Option<bool>) -> ValidationReport {
    ValidationReport {
        block_hash_valid: true,
        versioned_hashes_valid: versioned,
        optimistic_sync_verifications_passed: true,
    }
}

#[test]
fn payload_fields_are_written_in_hex() {
    let request = PayloadRequestFields { payload: payload(), extras: RequestExtras::Bellatrix };
    let out = build_json_output(&request, ForkName::Bellatrix, report(None), [0x0f; 32]).unwrap();
    assert_eq!(out.fork, "bellatrix");
    assert_eq!(out.tree_hash_root, format!("0x{}", "0f".repeat(32)));
    let p = &out.execution_payload;
    assert_eq!(p.parent_hash, "0xabcd");
    assert_eq!(p.fee_recipient, format!("0x{}", "11".repeat(20)));
    assert_eq!(p.state_root, format!("0x{}", "22".repeat(32)));
    assert_eq!(p.receipts_root, format!("0x{}", "33".repeat(32)));
    assert_eq!(p.logs_bloom, "0x00ff");
    assert_eq!(p.prev_randao, format!("0x{}", "44".repeat(32)));
    assert_eq!(p.block_number, 7);
    assert_eq!(p.gas_limit, 30_000_000);
    assert_eq!(p.gas_used, 21_000);
    assert_eq!(p.timestamp, 1_700_000_000);
    assert_eq!(p.extra_data, "0xdeadbeef");
    assert_eq!(p.base_fee_per_gas, "1000000007");
    assert_eq!(p.block_hash, "0x0x1234");
    assert_eq!(p.transactions, vec!["0x02f8".to_string(), "0x".to_string()]);
    assert!(p.withdrawals.is_none());
    assert_eq!(p.blob_gas_used, None);
    assert_eq!(p.excess_blob_gas, None);
    assert!(out.versioned_hashes.is_none());
    assert!(out.parent_beacon_block_root.is_none());
    assert!(out.execution_requests.is_none());
    assert_eq!(out.validation.versioned_hashes_valid, None);
}

#[test]
fn capella_adds_withdrawals_only() {
    let request = PayloadRequestFields { payload: payload(), extras: RequestExtras::Capella };
    let out = build_json_output(&request, ForkName::Capella, report(None), [0; 32]).unwrap();
    let ws = out.execution_payload.withdrawals.as_ref().unwrap();
    assert_eq!(ws.len(), 1);
    assert_eq!(ws[0].index, 1);
    assert_eq!(ws[0].validator_index, 2);
    assert_eq!(ws[0].address, format!("0x{}", "ab".repeat(20)));
    assert_eq!(ws[0].amount, 3);
    assert_eq!(out.execution_payload.blob_gas_used, None);
    assert_eq!(out.execution_payload.excess_blob_gas, None);
}

#[test]
fn withdrawals_missing_from_the_payload_are_left_out() {
    let mut p = payload();
    p.withdrawals = None;
    let request = PayloadRequestFields { payload: p, extras: RequestExtras::Capella };
    let out = build_json_output(&request, ForkName::Capella, report(None), [0; 32]).unwrap();
    assert!(out.execution_payload.withdrawals.is_none());
}

#[test]
fn deneb_adds_blob_gas_versioned_hashes_and_parent_root() {
    let request = PayloadRequestFields {
        payload: payload(),
        extras: RequestExtras::Deneb {
            versioned_hashes: vec![[0x01; 32], [0xa0; 32]],
            parent_beacon_block_root: [0x55; 32],
        },
    };
    let out = build_json_output(&request, ForkName::Deneb, report(Some(true)), [0; 32]).unwrap();
    assert_eq!(out.fork, "deneb");
    assert_eq!(out.execution_payload.blob_gas_used, Some(131072));
    assert_eq!(out.execution_payload.excess_blob_gas, Some(0));
    assert!(out.execution_payload.withdrawals.is_some());
    assert_eq!(
        out.versioned_hashes.unwrap(),
        vec![format!("0x{}", "01".repeat(32)), format!("0x{}", "a0".repeat(32))]
    );
    assert_eq!(out.parent_beacon_block_root.unwrap(), format!("0x{}", "55".repeat(32)));
    assert!(out.execution_requests.is_none());
    assert_eq!(out.validation.versioned_hashes_valid, Some(true));
}

#[test]
fn electra_fulu_gloas_add_execution_requests() {
    for (fork, name) in [
        (ForkName::Electra, "electra"),
        (ForkName::Fulu, "fulu"),
        (ForkName::Gloas, "gloas"),
    ] {
        let extras = match fork {
            ForkName::Electra => RequestExtras::Electra {
                versioned_hashes: vec![],
                parent_beacon_block_root: [0x66; 32],
                execution_requests: vec![0x00, 0x01, 0xfe],
            },
            ForkName::Fulu => RequestExtras::Fulu {
                versioned_hashes: vec![],
                parent_beacon_block_root: [0x66; 32],
                execution_requests: vec![0x00, 0x01, 0xfe],
            },
            _ => RequestExtras::Gloas {
                versioned_hashes: vec![],
                parent_beacon_block_root: [0x66; 32],
                execution_requests: vec![0x00, 0x01, 0xfe],
            },
        };
        let request = PayloadRequestFields { payload: payload(), extras };
        let out = build_json_output(&request, fork, report(Some(true)), [0; 32]).unwrap();
        assert_eq!(out.fork, name);
        assert_eq!(out.versioned_hashes.unwrap(), Vec::<String>::new());
        assert_eq!(out.parent_beacon_block_root.unwrap(), format!("0x{}", "66".repeat(32)));
        assert_eq!(out.execution_requests.unwrap(), "0x0001fe");
        assert_eq!(out.execution_payload.blob_gas_used, Some(131072));
    }
}
