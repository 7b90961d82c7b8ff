//! The checks that a new-payload request goes through before it is
//! reported, as a machine that names the next check to run and takes its
//! outcome.

use crate::fork::{has_blobs, is_pre_merge, ForkName};
use vstd::prelude::*;

verus! {

/// A block that was asked for but belongs to a fork without execution payloads.
#[derive(Clone, Copy, Debug)]
pub struct PreMergeBlock {
    pub slot: u64,
    pub fork: ForkName,
}

/// Refuses a block of a fork before the merge: it has no execution payload.
pub fn require_post_merge(slot: u64, fork: ForkName) -> (r: Result<(), PreMergeBlock>)
    ensures
        r is Ok <==> !is_pre_merge(fork),
        r matches Err(e) ==> e.slot == slot && e.fork == fork,
{
    match fork {
        ForkName::Base | ForkName::Altair => Err(PreMergeBlock { slot, fork }),
        _ => Ok(()),
    }
}

/// One integrity check of a new-payload request.
#[derive(Clone, Copy, Debug, PartialEq, Eq, Structural)]
pub enum ValidationCheck {
    BlockHash,
    VersionedHashes,
    OptimisticSync,
}

/// What is reported of the checks: the versioned hashes are `None` for a
/// fork that has none to check.
#[derive(Clone, Copy, Debug)]
pub struct ValidationReport {
    pub block_hash_valid: bool,
    pub versioned_hashes_valid: Option<bool>,
    pub optimistic_sync_verifications_passed: bool,
}

/// The checks run so far on a request of `fork`, and the one that comes next.
#[derive(Clone, Copy, Debug)]
pub struct PayloadValidation {
    pub fork: ForkName,
    pub report: ValidationReport,
    pub pending: Option<ValidationCheck>,
}

/// Before any check: nothing has passed, the block hash comes first.
pub open spec fn initial_validation(fork: ForkName) -> PayloadValidation {
    PayloadValidation {
        fork,
        report: ValidationReport {
            block_hash_valid: false,
            versioned_hashes_valid: Some(false),
            optimistic_sync_verifications_passed: false,
        },
        pending: Some(ValidationCheck::BlockHash),
    }
}

/// The state after the pending check of `v` has passed. The versioned hashes
/// are checked only for forks that have them; the optimistic-sync checks
/// come last.
pub open spec fn after_pass(v: PayloadValidation) -> PayloadValidation {
    match v.pending {
        Some(ValidationCheck::BlockHash) => PayloadValidation {
            fork: v.fork,
            report: ValidationReport {
                block_hash_valid: true,
                versioned_hashes_valid: if has_blobs(v.fork) {
                    v.report.versioned_hashes_valid
                } else {
                    None
                },
                optimistic_sync_verifications_passed: v.report.optimistic_sync_verifications_passed,
            },
            pending: if has_blobs(v.fork) {
                Some(ValidationCheck::VersionedHashes)
            } else {
                Some(ValidationCheck::OptimisticSync)
            },
        },
        Some(ValidationCheck::VersionedHashes) => PayloadValidation {
            fork: v.fork,
            report: ValidationReport {
                block_hash_valid: v.report.block_hash_valid,
                versioned_hashes_valid: Some(true),
                optimistic_sync_verifications_passed: v.report.optimistic_sync_verifications_passed,
            },
            pending: Some(ValidationCheck::OptimisticSync),
        },
        Some(ValidationCheck::OptimisticSync) => PayloadValidation {
            fork: v.fork,
            report: ValidationReport {
                block_hash_valid: v.report.block_hash_valid,
                versioned_hashes_valid: v.report.versioned_hashes_valid,
                optimistic_sync_verifications_passed: true,
            },
            pending: None,
        },
        None => v,
    }
}

/// The report of a request of `fork` that passed every check.
pub open spec fn all_passed_report(fork: ForkName) -> ValidationReport {
    ValidationReport {
        block_hash_valid: true,
        versioned_hashes_valid: if has_blobs(fork) {
            Some(true)
        } else {
            None
        },
        optimistic_sync_verifications_passed: true,
    }
}

impl PayloadValidation {
    /// Starts the checks of a request of `fork`.
    pub fn new(fork: ForkName) -> (v: PayloadValidation)
        ensures
            v == initial_validation(fork),
    {
        PayloadValidation {
            fork,
            report: ValidationReport {
                block_hash_valid: false,
                versioned_hashes_valid: Some(false),
                optimistic_sync_verifications_passed: false,
            },
            pending: Some(ValidationCheck::BlockHash),
        }
    }

    /// The check to run next, or `None` once every check has passed.
    pub fn next_check(&self) -> (c: Option<ValidationCheck>)
        ensures
            c == self.pending,
    {
        self.pending
    }

    /// Takes the outcome of the pending check: a failure stops the checks and
    /// names the check that failed; a pass moves on to the next check.
    pub fn record(&self, passed: bool) -> (r: Result<PayloadValidation, ValidationCheck>)
        requires
            self.pending is Some,
        ensures
            passed ==> r == Ok::<PayloadValidation, ValidationCheck>(after_pass(*self)),
            !passed ==> r == Err::<PayloadValidation, ValidationCheck>(self.pending->0),
    {
        let check = match self.pending {
            Some(c) => c,
            None => ValidationCheck::BlockHash,
        };
        if !passed {
            return Err(check);
        }
        let fork = self.fork;
        let blobs = match fork {
            ForkName::Deneb | ForkName::Electra | ForkName::Fulu | ForkName::Gloas => true,
            _ => false,
        };
        let report = self.report;
        match check {
            ValidationCheck::BlockHash => Ok(
                PayloadValidation {
                    fork,
                    report: ValidationReport {
                        block_hash_valid: true,
                        versioned_hashes_valid: if blobs {
                            report.versioned_hashes_valid
                        } else {
                            None
                        },
                        optimistic_sync_verifications_passed:
                            report.optimistic_sync_verifications_passed,
                    },
                    pending: if blobs {
                        Some(ValidationCheck::VersionedHashes)
                    } else {
                        Some(ValidationCheck::OptimisticSync)
                    },
                },
            ),
            ValidationCheck::VersionedHashes => Ok(
                PayloadValidation {
                    fork,
                    report: ValidationReport {
                        block_hash_valid: report.block_hash_valid,
                        versioned_hashes_valid: Some(true),
                        optimistic_sync_verifications_passed:
                            report.optimistic_sync_verifications_passed,
                    },
                    pending: Some(ValidationCheck::OptimisticSync),
                },
            ),
            ValidationCheck::OptimisticSync => Ok(
                PayloadValidation {
                    fork,
                    report: ValidationReport {
                        block_hash_valid: report.block_hash_valid,
                        versioned_hashes_valid: report.versioned_hashes_valid,
                        optimistic_sync_verifications_passed: true,
                    },
                    pending: None,
                },
            ),
        }
    }

    /// The report so far.
    pub fn report(&self) -> (r: ValidationReport)
        ensures
            r == self.report,
    {
        self.report
    }
}

/// The state of a request of `fork` once every check has passed.
pub open spec fn completed_validation(fork: ForkName) -> PayloadValidation {
    PayloadValidation { fork, report: all_passed_report(fork), pending: None }
}

/// A request that passes every check it is given ends, after exactly the
/// checks its fork requires (block hash, versioned hashes where the fork has
/// blobs, optimistic sync), with nothing pending and every applicable field
/// reported valid.
pub proof fn lemma_all_checks_pass(fork: ForkName)
    ensures
        has_blobs(fork) ==> after_pass(initial_validation(fork)).pending == Some(
            ValidationCheck::VersionedHashes,
        ),
        has_blobs(fork) ==> after_pass(after_pass(initial_validation(fork))).pending == Some(
            ValidationCheck::OptimisticSync,
        ),
        has_blobs(fork) ==> after_pass(after_pass(after_pass(initial_validation(fork))))
            == completed_validation(fork),
        !has_blobs(fork) ==> after_pass(initial_validation(fork)).pending == Some(
            ValidationCheck::OptimisticSync,
        ),
        !has_blobs(fork) ==> after_pass(after_pass(initial_validation(fork)))
            == completed_validation(fork),
{
}

/// The checks of a request start with the block hash. For Deneb and every
/// later fork the versioned hashes come next, then the optimistic-sync
/// checks; for Bellatrix and Capella the optimistic-sync checks come right
/// after the block hash. Once all have passed nothing is pending, and the
/// report says the block hash is valid, the optimistic-sync checks passed,
/// and the versioned hashes are valid from Deneb on and not reported before.
pub proof fn lemma_check_order(fork: ForkName)
    ensures
        initial_validation(fork).pending == Some(ValidationCheck::BlockHash),
        initial_validation(fork).fork == fork,
        (fork is Deneb || fork is Electra || fork is Fulu || fork is Gloas) ==> {
            let v1 = after_pass(initial_validation(fork));
            let v2 = after_pass(v1);
            let v3 = after_pass(v2);
            &&& v1.pending == Some(ValidationCheck::VersionedHashes)
            &&& v2.pending == Some(ValidationCheck::OptimisticSync)
            &&& v3.pending is None
            &&& v3.report.block_hash_valid
            &&& v3.report.versioned_hashes_valid == Some(true)
            &&& v3.report.optimistic_sync_verifications_passed
        },
        (fork is Bellatrix || fork is Capella) ==> {
            let v1 = after_pass(initial_validation(fork));
            let v2 = after_pass(v1);
            &&& v1.pending == Some(ValidationCheck::OptimisticSync)
            &&& v2.pending is None
            &&& v2.report.block_hash_valid
            &&& v2.report.versioned_hashes_valid is None
            &&& v2.report.optimistic_sync_verifications_passed
        },
{
}

} // verus!
