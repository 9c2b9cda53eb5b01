//! What follows when consensus has built a ledger here.
use vstd::prelude::*;
use crate::build::finish::following;
use crate::consensus::counts::LedgerPoint;
use crate::ids::Uint256;

verus! {

/// One thing that is done about a ledger that consensus has built.
#[derive(Clone, Copy, Debug, PartialEq, Eq, Structural)]
pub enum BuiltEffect {
    InsertHistory,
    RegisterForValidations,
    /// No ledger is being built any more.
    ClearBuilding,
    /// The history learns which transactions consensus agreed on.
    RecordBuilt,
    /// It, or what the network has in its place, may become the validated ledger.
    CheckAccept,
}

pub open spec fn spec_store_effects(has_ledger_master: bool, hash: Uint256) -> Seq<BuiltEffect> {
    if has_ledger_master && hash != Uint256::spec_zero() {
        seq![BuiltEffect::InsertHistory, BuiltEffect::RegisterForValidations]
    } else {
        seq![BuiltEffect::RegisterForValidations]
    }
}

/// What is done so that the ledger can be found by its hash.
pub fn store_consensus_ledger(has_ledger_master: bool, hash: Uint256) -> (r: Vec<BuiltEffect>)
    ensures
        r@ == spec_store_effects(has_ledger_master, hash),
{
    let mut effects: Vec<BuiltEffect> = Vec::new();
    if has_ledger_master && hash.is_non_zero() {
        effects.push(BuiltEffect::InsertHistory);
    }
    effects.push(BuiltEffect::RegisterForValidations);
    proof {
        assert(effects@ =~= spec_store_effects(has_ledger_master, hash));
    }
    effects
}

pub open spec fn cleared(has_ledger_master: bool) -> Seq<BuiltEffect> {
    if has_ledger_master {
        seq![BuiltEffect::ClearBuilding]
    } else {
        Seq::empty()
    }
}

pub open spec fn recorded(has_ledger_master: bool, hash: Uint256) -> Seq<BuiltEffect> {
    if has_ledger_master && hash != Uint256::spec_zero() {
        seq![BuiltEffect::RecordBuilt]
    } else {
        Seq::empty()
    }
}

pub open spec fn spec_record_effects(has_ledger_master: bool, standalone: bool, hash: Uint256) -> Seq<
    BuiltEffect,
> {
    if standalone {
        cleared(has_ledger_master)
    } else {
        cleared(has_ledger_master) + recorded(has_ledger_master, hash)
            + seq![BuiltEffect::CheckAccept]
    }
}

/// What is done once the ledger is built. A node that is alone has nobody to ask about it.
pub fn record_consensus_built_ledger(has_ledger_master: bool, standalone: bool, hash: Uint256) -> (r: Vec<
    BuiltEffect,
>)
    ensures
        r@ == spec_record_effects(has_ledger_master, standalone, hash),
{
    let mut effects: Vec<BuiltEffect> = Vec::new();
    if has_ledger_master {
        effects.push(BuiltEffect::ClearBuilding);
    }
    if !standalone {
        if has_ledger_master && hash.is_non_zero() {
            effects.push(BuiltEffect::RecordBuilt);
        }
        effects.push(BuiltEffect::CheckAccept);
    }
    proof {
        assert(effects@ =~= spec_record_effects(has_ledger_master, standalone, hash));
    }
    effects
}

/// One step that follows once consensus has built a ledger.
#[derive(Clone, Copy, Debug, PartialEq, Eq, Structural)]
pub enum BuiltStep {
    /// It can be found by its hash.
    Store,
    /// It may become the validated ledger.
    Record,
    ProcessQueue,
    SweepLocalTransactions,
    RebuildOpenLedger,
    SetClosedSlot,
    InstallClosed,
    SetCurrentIndex(u32),
    SetQueueReport,
}

pub open spec fn slot(has_ledger_master: bool) -> Seq<BuiltStep> {
    if has_ledger_master {
        seq![BuiltStep::SetClosedSlot]
    } else {
        Seq::empty()
    }
}

pub open spec fn spec_built_steps(seq: u32, has_ledger_master: bool) -> Seq<BuiltStep> {
    seq![
        BuiltStep::Store,
        BuiltStep::Record,
        BuiltStep::ProcessQueue,
        BuiltStep::SweepLocalTransactions,
        BuiltStep::RebuildOpenLedger,
    ] + slot(has_ledger_master) + seq![
        BuiltStep::InstallClosed,
        BuiltStep::SetCurrentIndex(following(seq)),
        BuiltStep::SetQueueReport,
    ]
}

/// What follows once consensus has built a ledger, in order: the open ledger is built anew before
/// the ledger becomes the last closed one.
pub fn on_consensus_built_ledger(seq: u32, has_ledger_master: bool) -> (r: Vec<BuiltStep>)
    ensures
        r@ == spec_built_steps(seq, has_ledger_master),
{
    let mut steps: Vec<BuiltStep> = Vec::new();
    steps.push(BuiltStep::Store);
    steps.push(BuiltStep::Record);
    steps.push(BuiltStep::ProcessQueue);
    steps.push(BuiltStep::SweepLocalTransactions);
    steps.push(BuiltStep::RebuildOpenLedger);
    if has_ledger_master {
        steps.push(BuiltStep::SetClosedSlot);
    }
    steps.push(BuiltStep::InstallClosed);
    steps.push(BuiltStep::SetCurrentIndex(seq.saturating_add(1)));
    steps.push(BuiltStep::SetQueueReport);
    proof {
        assert(steps@ =~= spec_built_steps(seq, has_ledger_master));
    }
    steps
}

/// What is done about a ledger whose saving has failed after all.
#[derive(Clone, Copy, Debug, PartialEq, Eq, Structural)]
pub struct FailedSave {
    /// It is not complete any more.
    pub clear_seq: u32,
    /// This very ledger is asked for again.
    pub acquire: Option<LedgerPoint>,
}

/// What is done about a ledger whose saving has failed: it is forgotten, and asked for again by
/// its own hash.
pub fn failed_save(seq: u32, hash: Uint256, inbound: bool) -> (r: FailedSave)
    ensures
        r.clear_seq == seq,
        r.acquire == (if inbound {
            Some(LedgerPoint { hash, seq })
        } else {
            None
        }),
{
    FailedSave {
        clear_seq: seq,
        acquire: if inbound {
            Some(LedgerPoint { hash, seq })
        } else {
            None
        },
    }
}

/// A ledger that was taken in before it was safe on disk.
#[derive(Clone, Copy, Debug, PartialEq, Eq, Structural)]
pub struct ProvisionalLedgerIdentity {
    pub target_hash: Uint256,
    pub ledger_hash: Uint256,
    pub ledger_seq: u32,
    pub acquisition_id: u64,
    pub store_generation: u64,
    pub persistence_generation: u64,
}

/// Who forgets a ledger that could not be stored.
#[derive(Clone, Copy, Debug, PartialEq, Eq, Structural)]
pub struct Revocation {
    pub ledger_master: bool,
    pub validations: bool,
    pub state: bool,
}

/// Who forgets a ledger that could not be stored: everybody, if it is the one that was asked for,
/// and otherwise nobody.
pub fn revoke_provisional_inbound_ledger(
    identity: &ProvisionalLedgerIdentity,
    has_ledger_master: bool,
) -> (r: Revocation)
    ensures
        ({
            let same = identity.target_hash == identity.ledger_hash;
            r == (Revocation { ledger_master: same && has_ledger_master, validations: same, state: same })
        }),
{
    let same = identity.target_hash == identity.ledger_hash;
    Revocation { ledger_master: same && has_ledger_master, validations: same, state: same }
}

} // verus!
