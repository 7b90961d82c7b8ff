//! The consensus forks that a beacon block may belong to.

use vstd::prelude::*;

verus! {

/// The forks of the beacon chain, oldest first.
#[derive(Clone, Copy, Debug, PartialEq, Eq, Structural)]
pub enum ForkName {
    Base,
    Altair,
    Bellatrix,
    Capella,
    Deneb,
    Electra,
    Fulu,
    Gloas,
}

/// Blocks of these forks carry no execution payload.
pub open spec fn is_pre_merge(fork: ForkName) -> bool {
    fork is Base || fork is Altair
}

/// Forks whose payloads carry withdrawals.
pub open spec fn has_withdrawals(fork: ForkName) -> bool {
    fork is Capella || fork is Deneb || fork is Electra || fork is Fulu || fork is Gloas
}

/// Forks whose payloads carry blob gas fields and whose requests carry
/// versioned hashes.
pub open spec fn has_blobs(fork: ForkName) -> bool {
    fork is Deneb || fork is Electra || fork is Fulu || fork is Gloas
}

/// The name under which a fork is written.
pub open spec fn fork_text(fork: ForkName) -> Seq<char> {
    match fork {
        ForkName::Base => "phase0"@,
        ForkName::Altair => "altair"@,
        ForkName::Bellatrix => "bellatrix"@,
        ForkName::Capella => "capella"@,
        ForkName::Deneb => "deneb"@,
        ForkName::Electra => "electra"@,
        ForkName::Fulu => "fulu"@,
        ForkName::Gloas => "gloas"@,
    }
}

/// Later forks keep what earlier forks brought: a fork with blobs has
/// withdrawals, and a fork with withdrawals has an execution payload.
pub proof fn lemma_fork_features_nest(fork: ForkName)
    ensures
        has_blobs(fork) ==> has_withdrawals(fork),
        has_withdrawals(fork) ==> !is_pre_merge(fork),
{
}

/// Which forks have what: Base and Altair have no execution payload;
/// Capella and every later fork have withdrawals; Deneb and every later fork
/// have blobs.
pub proof fn lemma_fork_features(fork: ForkName)
    ensures
        is_pre_merge(fork) <==> (fork is Base || fork is Altair),
        has_withdrawals(fork) <==> (fork is Capella || fork is Deneb || fork is Electra
            || fork is Fulu || fork is Gloas),
        has_blobs(fork) <==> (fork is Deneb || fork is Electra || fork is Fulu || fork is Gloas),
{
}

/// Each fork is written by its name on the chain; Base is `phase0`.
pub proof fn lemma_fork_names()
    ensures
        fork_text(ForkName::Base) == seq!['p', 'h', 'a', 's', 'e', '0'],
        fork_text(ForkName::Altair) == seq!['a', 'l', 't', 'a', 'i', 'r'],
        fork_text(ForkName::Bellatrix) == seq!['b', 'e', 'l', 'l', 'a', 't', 'r', 'i', 'x'],
        fork_text(ForkName::Capella) == seq!['c', 'a', 'p', 'e', 'l', 'l', 'a'],
        fork_text(ForkName::Deneb) == seq!['d', 'e', 'n', 'e', 'b'],
        fork_text(ForkName::Electra) == seq!['e', 'l', 'e', 'c', 't', 'r', 'a'],
        fork_text(ForkName::Fulu) == seq!['f', 'u', 'l', 'u'],
        fork_text(ForkName::Gloas) == seq!['g', 'l', 'o', 'a', 's'],
{
    reveal_strlit("phase0");
    reveal_strlit("altair");
    reveal_strlit("bellatrix");
    reveal_strlit("capella");
    reveal_strlit("deneb");
    reveal_strlit("electra");
    reveal_strlit("fulu");
    reveal_strlit("gloas");
    assert(fork_text(ForkName::Base) =~= seq!['p', 'h', 'a', 's', 'e', '0']);
    assert(fork_text(ForkName::Altair) =~= seq!['a', 'l', 't', 'a', 'i', 'r']);
    assert(fork_text(ForkName::Bellatrix) =~= seq!['b', 'e', 'l', 'l', 'a', 't', 'r', 'i', 'x']);
    assert(fork_text(ForkName::Capella) =~= seq!['c', 'a', 'p', 'e', 'l', 'l', 'a']);
    assert(fork_text(ForkName::Deneb) =~= seq!['d', 'e', 'n', 'e', 'b']);
    assert(fork_text(ForkName::Electra) =~= seq!['e', 'l', 'e', 'c', 't', 'r', 'a']);
    assert(fork_text(ForkName::Fulu) =~= seq!['f', 'u', 'l', 'u']);
    assert(fork_text(ForkName::Gloas) =~= seq!['g', 'l', 'o', 'a', 's']);
}

impl ForkName {
    /// The fork's name, as it is written in output.
    pub fn to_string(&self) -> (s: String)
        ensures
            s@ == fork_text(*self),
    {
        match self {
            ForkName::Base => String::from_str("phase0"),
            ForkName::Altair => String::from_str("altair"),
            ForkName::Bellatrix => String::from_str("bellatrix"),
            ForkName::Capella => String::from_str("capella"),
            ForkName::Deneb => String::from_str("deneb"),
            ForkName::Electra => String::from_str("electra"),
            ForkName::Fulu => String::from_str("fulu"),
            ForkName::Gloas => String::from_str("gloas"),
        }
    }
}

} // verus!
