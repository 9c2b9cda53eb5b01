//! From the applied transactions to the closed ledger.
use vstd::prelude::*;
use crate::build::accepted::{AcceptedEntry, BuildError};
use crate::build::passes::LedgerBuild;
use crate::ids::{Uint256, ViewError};

verus! {

/// When the new ledger becomes the last closed one.
#[derive(Clone, Copy, Debug, PartialEq, Eq, Structural)]
pub enum AcceptedLedgerLclInstall {
    /// As soon as it is built.
    Unconditional,
    /// After consensus and the open ledger have taken it in.
    Deferred,
}

/// What building a ledger leaves behind.
pub struct AcceptedLedgerOutcome {
    pub next_open_index: u32,
    /// The transactions that the next open ledger must not hold.
    pub completed_transaction_ids: Vec<Uint256>,
    /// The transactions that the next open ledger tries again.
    pub retry_transactions: Vec<Uint256>,
}

pub open spec fn following(seq: u32) -> u32 {
    if seq < u32::MAX {
        (seq + 1) as u32
    } else {
        seq
    }
}

/// What a complete build leaves behind.
pub fn accepted_outcome(build: LedgerBuild) -> (r: AcceptedLedgerOutcome)
    requires
        build@.wf(),
        build@.step() is Done,
    ensures
        r.next_open_index == following(build.closed_seq),
        r.completed_transaction_ids@ == build@.completed,
        r.retry_transactions@ == build@.pending,
{
    AcceptedLedgerOutcome {
        next_open_index: build.closed_seq.saturating_add(1),
        completed_transaction_ids: build.completed,
        retry_transactions: build.pending,
    }
}

/// What is there for storing the ledger.
pub struct StoreFacts {
    /// A store is attached, so the ledger must be stored before it counts.
    pub needs_durable_persistence: bool,
    pub ledger_has_writer: bool,
    pub store_has_writer: bool,
    pub ledger_has_batch_writer: bool,
    pub store_has_batch_writer: bool,
    pub persisted: Result<(), ViewError>,
}

/// What the store gives to the ledger so that it can be stored.
#[derive(Clone, Copy, Debug, PartialEq, Eq, Structural)]
pub struct StoredLedger {
    pub attach_writer: bool,
    pub attach_batch_writer: bool,
    pub stored: bool,
}

/// Stores the ledger, where there is a store: with the writers it has, or else those of the
/// store.
pub fn store_built_ledger(facts: &StoreFacts) -> (r: Result<StoredLedger, BuildError>)
    ensures
        r == (if !facts.needs_durable_persistence {
            Ok(StoredLedger { attach_writer: false, attach_batch_writer: false, stored: false })
        } else if !facts.ledger_has_writer && !facts.store_has_writer {
            Err(BuildError::MissingNodeWriter)
        } else if !facts.ledger_has_batch_writer && !facts.store_has_batch_writer {
            Err(BuildError::MissingNodeBatchWriter)
        } else {
            match facts.persisted {
                Err(error) => Err(BuildError::Persist { error }),
                Ok(_) => Ok(
                    StoredLedger {
                        attach_writer: !facts.ledger_has_writer,
                        attach_batch_writer: !facts.ledger_has_batch_writer,
                        stored: true,
                    },
                ),
            }
        }),
{
    if !facts.needs_durable_persistence {
        return Ok(
            StoredLedger { attach_writer: false, attach_batch_writer: false, stored: false },
        );
    }
    if !facts.ledger_has_writer && !facts.store_has_writer {
        return Err(BuildError::MissingNodeWriter);
    }
    if !facts.ledger_has_batch_writer && !facts.store_has_batch_writer {
        return Err(BuildError::MissingNodeBatchWriter);
    }
    match facts.persisted {
        Err(error) => Err(BuildError::Persist { error }),
        Ok(_) => Ok(
            StoredLedger {
                attach_writer: !facts.ledger_has_writer,
                attach_batch_writer: !facts.ledger_has_batch_writer,
                stored: true,
            },
        ),
    }
}

/// One thing that is done with a ledger once it is built.
#[derive(Clone, Copy, Debug, PartialEq, Eq, Structural)]
pub enum AfterBuild {
    /// The queue takes in what the ledger held.
    ProcessQueue,
    /// It becomes the last closed ledger at once.
    Install,
    /// What this node submitted and the ledger holds is done with.
    SweepLocalTransactions,
    /// It is saved at once, though not as the validated ledger.
    Save,
}

pub open spec fn spec_after_build(standalone: bool, lcl_install: AcceptedLedgerLclInstall) -> Seq<
    AfterBuild,
> {
    if lcl_install == AcceptedLedgerLclInstall::Deferred {
        seq![AfterBuild::ProcessQueue, AfterBuild::SweepLocalTransactions]
    } else if standalone {
        seq![
            AfterBuild::ProcessQueue,
            AfterBuild::Install,
            AfterBuild::SweepLocalTransactions,
            AfterBuild::Save,
        ]
    } else {
        seq![AfterBuild::ProcessQueue, AfterBuild::Install, AfterBuild::SweepLocalTransactions]
    }
}

/// What is done with a ledger once it is built, in order. Where consensus installs it later, it is
/// saved later too.
pub fn after_build(standalone: bool, lcl_install: AcceptedLedgerLclInstall) -> (r: Vec<AfterBuild>)
    ensures
        r@ == spec_after_build(standalone, lcl_install),
{
    let now = lcl_install == AcceptedLedgerLclInstall::Unconditional;
    let mut effects: Vec<AfterBuild> = Vec::new();
    effects.push(AfterBuild::ProcessQueue);
    if now {
        effects.push(AfterBuild::Install);
    }
    effects.push(AfterBuild::SweepLocalTransactions);
    if standalone && now {
        effects.push(AfterBuild::Save);
    }
    effects
}

/// What is done with the ledger that consensus has agreed on, once it is the last closed one.
#[derive(Clone, Copy, Debug, PartialEq, Eq, Structural)]
pub enum AfterInstall {
    Nothing,
    /// It counts as full at once, and publication moves on.
    SetFull,
    /// The validations for it are counted.
    CheckAccept,
}

/// What is done with the ledger that consensus has agreed on. It must be closed, and must not
/// change any more.
pub fn install_consensus_child(
    immutable: bool,
    open: bool,
    has_ledger_master: bool,
    standalone: bool,
) -> (r: AfterInstall)
    requires
        immutable,
        !open,
    ensures
        r == (if !has_ledger_master {
            AfterInstall::Nothing
        } else if standalone {
            AfterInstall::SetFull
        } else {
            AfterInstall::CheckAccept
        }),
{
    if !has_ledger_master {
        AfterInstall::Nothing
    } else if standalone {
        AfterInstall::SetFull
    } else {
        AfterInstall::CheckAccept
    }
}

/// How precise close times are where nobody agreed on them, in seconds.
pub const DEFAULT_CLOSE_RESOLUTION: u8 = 30;

/// Why a ledger was not accepted.
#[derive(Clone, Copy, Debug, PartialEq, Eq, Structural)]
pub enum AcceptError {
    Build(BuildError),
    /// It was built, and is not the last closed one.
    Missing,
}

/// The sequence of the next open ledger, once a ledger is accepted. `closed` says whether there is
/// a last closed ledger, and counts only of one that was built.
pub fn accept_ledger_with_txns(outcome: Result<AcceptedLedgerOutcome, BuildError>, closed: bool) -> (r: Result<
    u32,
    AcceptError,
>)
    ensures
        r == (match outcome {
            Err(error) => Err(AcceptError::Build(error)),
            Ok(outcome) => if closed {
                Ok(outcome.next_open_index)
            } else {
                Err(AcceptError::Missing)
            },
        }),
{
    match outcome {
        Err(error) => Err(AcceptError::Build(error)),
        Ok(outcome) => if closed {
            Ok(outcome.next_open_index)
        } else {
            Err(AcceptError::Missing)
        },
    }
}

/// That a transaction is in a ledger, and where.
#[derive(Clone, Copy, Debug, PartialEq, Eq, Structural)]
pub struct InLedger {
    pub transaction_id: Uint256,
    pub ledger_seq: u32,
    pub index: u32,
}

pub open spec fn told(entries: Seq<AcceptedEntry>, ledger_seq: u32) -> Seq<InLedger> {
    Seq::new(
        entries.len(),
        |i: int|
            InLedger { transaction_id: entries[i].transaction_id, ledger_seq, index: i as u32 },
    )
}

/// What is told of the transactions of a ledger once it is closed.
pub fn announcements(entries: &Vec<AcceptedEntry>, ledger_seq: u32) -> (r: Vec<InLedger>)
    ensures
        r@ == told(entries@, ledger_seq),
{
    let mut out: Vec<InLedger> = Vec::new();
    let mut i: usize = 0;
    while i < entries.len()
        invariant
            i <= entries@.len(),
            out@.len() == i,
            forall|j: int| 0 <= j < i ==> out@[j] == told(entries@, ledger_seq)[j],
        decreases entries@.len() - i,
    {
        out.push(
            InLedger { transaction_id: entries[i].transaction_id, ledger_seq, index: i as u32 },
        );
        i = i + 1;
    }
    proof {
        assert(out@ =~= told(entries@, ledger_seq));
    }
    out
}

} // verus!
