use kzg::fork::ForkName;
use kzg::validation::{require_post_merge, PayloadValidation, ValidationCheck};

const ALL_FORKS: [ForkName; 8] = [
    ForkName::Base,
    ForkName::Altair,
    ForkName::Bellatrix,
    ForkName::Capella,
    ForkName::Deneb,
    ForkName::Electra,
    ForkName::Fulu,
    ForkName::Gloas,
];

#[test]
fn fork_names_are_written_as_the_chain_names_them() {
    let names: Vec<String> = ALL_FORKS.iter().map(|f| f.to_string()).collect();
    assert_eq!(
        names,
        vec!["phase0", "altair", "bellatrix", "capella", "deneb", "electra", "fulu", "gloas"]
    );
}

#[test]
fn pre_merge_blocks_are_refused() {
    let e = require_post_merge(12, ForkName::Base).unwrap_err();
    assert_eq!(e.slot, 12);
    assert_eq!(e.fork, ForkName::Base);
    let e = require_post_merge(99, ForkName::Altair).unwrap_err();
    assert_eq!(e.slot, 99);
    assert_eq!(e.fork, ForkName::Altair);
    for fork in &ALL_FORKS[2..] {
        assert!(require_post_merge(5, *fork).is_ok());
    }
}

fn run_all_passing(fork: ForkName) -> (Vec<ValidationCheck>, PayloadValidation) {
    let mut v = PayloadValidation::new(fork);
    let mut seen = Vec::new();
    while let Some(check) = v.next_check() {
        seen.push(check);
        v = v.record(true).expect("a passing check moves on");
    }
    (seen, v)
}

#[test]
fn pre_deneb_requests_skip_the_versioned_hashes() {
    for fork in [ForkName::Bellatrix, ForkName::Capella] {
        let (seen, v) = run_all_passing(fork);
        assert_eq!(seen, vec![ValidationCheck::BlockHash, ValidationCheck::OptimisticSync]);
        let r = v.report();
        assert!(r.block_hash_valid);
        assert_eq!(r.versioned_hashes_valid, None);
        assert!(r.optimistic_sync_verifications_passed);
    }
}

#[test]
fn deneb_and_later_requests_check_versioned_hashes() {
    for fork in [ForkName::Deneb, ForkName::Electra, ForkName::Fulu, ForkName::Gloas] {
        let (seen, v) = run_all_passing(fork);
        assert_eq!(
            seen,
            vec![
                ValidationCheck::BlockHash,
                ValidationCheck::VersionedHashes,
                ValidationCheck::OptimisticSync
            ]
        );
        let r = v.report();
        assert!(r.block_hash_valid);
        assert_eq!(r.versioned_hashes_valid, Some(true));
        assert!(r.optimistic_sync_verifications_passed);
    }
}

#[test]
fn checks_start_with_nothing_passed() {
    let v = PayloadValidation::new(ForkName::Deneb);
    let r = v.report();
    assert!(!r.block_hash_valid);
    assert_eq!(r.versioned_hashes_valid, Some(false));
    assert!(!r.optimistic_sync_verifications_passed);
    assert_eq!(v.next_check(), Some(ValidationCheck::BlockHash));
}

#[test]
fn a_failed_check_is_named() {
    let v = PayloadValidation::new(ForkName::Electra);
    assert_eq!(v.record(false).unwrap_err(), ValidationCheck::BlockHash);
    let v = v.record(true).unwrap();
    assert_eq!(v.record(false).unwrap_err(), ValidationCheck::VersionedHashes);
    let v = v.record(true).unwrap();
    assert_eq!(v.record(false).unwrap_err(), ValidationCheck::OptimisticSync);

    let v = PayloadValidation::new(ForkName::Capella).record(true).unwrap();
    assert_eq!(v.record(false).unwrap_err(), ValidationCheck::OptimisticSync);
}
