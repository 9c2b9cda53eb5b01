//! What follows when a ledger becomes the last closed one.
use vstd::prelude::*;
use crate::ids::Uint256;
use crate::queue::sandbox::{BaseHeader, OpenHeader, keeps_sandbox};

verus! {

/// Whether the ledger is already known by its hash.
#[derive(Clone, Copy, Debug, PartialEq, Eq, Structural)]
pub enum ClosedLedgerHistoryAction {
    Store,
    AlreadyStored,
}

/// What is known when a ledger becomes the last closed one.
#[derive(Clone, Copy, Debug, PartialEq, Eq, Structural)]
pub struct ClosedFacts {
    pub provisional: bool,
    pub header: BaseHeader,
    pub parent_hash: Uint256,
    /// The ledger that was the last closed one.
    pub previous_hash: Option<Uint256>,
    /// The state that submitted transactions are tried on.
    pub sandbox: Option<OpenHeader>,
    pub has_overlay: bool,
    pub history: ClosedLedgerHistoryAction,
    pub has_ledger_master: bool,
    pub immutable: bool,
}

/// One thing that is done when a ledger becomes the last closed one.
#[derive(Clone, Copy, Debug, PartialEq, Eq, Structural)]
pub enum ClosedEffect {
    ClearAccountSeqs,
    DropSandbox,
    NoteClosed,
    UpdateAmendments,
    SetHandshake { closed: Uint256, parent: Uint256 },
    InsertHistory,
    SweepHistory,
    RegisterForValidations,
    ScheduleTransactions,
}

impl ClosedFacts {
    pub open spec fn changed(self) -> bool {
        self.previous_hash != Some(self.header.hash)
    }

    pub open spec fn cleared(self) -> Seq<ClosedEffect> {
        if !self.changed() {
            Seq::empty()
        } else if self.sandbox matches Some(held) && held.stands_on(self.header) {
            seq![ClosedEffect::ClearAccountSeqs]
        } else {
            seq![ClosedEffect::ClearAccountSeqs, ClosedEffect::DropSandbox]
        }
    }

    pub open spec fn greeted(self) -> Seq<ClosedEffect> {
        if self.has_overlay {
            seq![ClosedEffect::SetHandshake { closed: self.header.hash, parent: self.parent_hash }]
        } else {
            Seq::empty()
        }
    }

    pub open spec fn stored(self) -> Seq<ClosedEffect> {
        if self.history == ClosedLedgerHistoryAction::Store && self.has_ledger_master
            && self.immutable {
            seq![
                ClosedEffect::InsertHistory,
                ClosedEffect::SweepHistory,
                ClosedEffect::RegisterForValidations,
            ]
        } else {
            Seq::empty()
        }
    }

    /// All that is done, in order. A ledger that is not safe on disk changes nothing.
    pub open spec fn effects(self) -> Seq<ClosedEffect> {
        if self.provisional {
            Seq::empty()
        } else {
            self.cleared() + seq![ClosedEffect::NoteClosed, ClosedEffect::UpdateAmendments]
                + self.greeted() + self.stored() + seq![ClosedEffect::ScheduleTransactions]
        }
    }
}

/// What is done when a ledger becomes the last closed one.
pub fn on_closed_ledger(facts: &ClosedFacts) -> (r: Vec<ClosedEffect>)
    ensures
        r@ == facts.effects(),
{
    let mut effects: Vec<ClosedEffect> = Vec::new();
    if facts.provisional {
        return effects;
    }
    let changed = match facts.previous_hash {
        Some(previous) => previous != facts.header.hash,
        None => true,
    };
    if changed {
        effects.push(ClosedEffect::ClearAccountSeqs);
        if !keeps_sandbox(facts.sandbox, facts.header) {
            effects.push(ClosedEffect::DropSandbox);
        }
    }
    effects.push(ClosedEffect::NoteClosed);
    effects.push(ClosedEffect::UpdateAmendments);
    if facts.has_overlay {
        effects.push(
            ClosedEffect::SetHandshake { closed: facts.header.hash, parent: facts.parent_hash },
        );
    }
    if facts.history == ClosedLedgerHistoryAction::Store && facts.has_ledger_master
        && facts.immutable {
        effects.push(ClosedEffect::InsertHistory);
        effects.push(ClosedEffect::SweepHistory);
        effects.push(ClosedEffect::RegisterForValidations);
    }
    effects.push(ClosedEffect::ScheduleTransactions);
    proof {
        assert(effects@ =~= facts.effects());
    }
    effects
}

/// The state that submitted transactions are tried on survives exactly where it stands on the new
/// ledger, or where the last closed ledger stays the same.
pub proof fn sandbox_survives_its_own_ledger(facts: ClosedFacts)
    requires
        !facts.provisional,
    ensures
        facts.effects().contains(ClosedEffect::DropSandbox) <==> facts.changed() && !(
        facts.sandbox matches Some(held) && held.stands_on(facts.header)),
{
    let effects = facts.effects();
    if facts.changed() && !(facts.sandbox matches Some(held) && held.stands_on(facts.header)) {
        assert(effects[1] == ClosedEffect::DropSandbox);
    }
    if effects.contains(ClosedEffect::DropSandbox) {
        let i = choose|i: int| 0 <= i < effects.len() && effects[i] == ClosedEffect::DropSandbox;
        assert(effects[i] == ClosedEffect::DropSandbox);
    }
}

/// What a ledger has for reading and writing its nodes, and what the store can give it.
#[derive(Clone, Copy, Debug, PartialEq, Eq, Structural)]
pub struct FetcherFacts {
    pub has_fetcher: bool,
    pub has_writer: bool,
    pub has_writer_result: bool,
    pub has_batch_writer_result: bool,
    pub state_backed: bool,
    pub tx_backed: bool,
    pub store_fetcher: bool,
    pub store_writer: bool,
    pub store_writer_result: bool,
    pub store_batch_writer_result: bool,
}

/// What a ledger is given.
#[derive(Clone, Copy, Debug, PartialEq, Eq, Structural)]
pub struct FetcherAttachment {
    pub fetcher: bool,
    pub writer: bool,
    pub writer_result: bool,
    pub batch_writer_result: bool,
}

impl FetcherFacts {
    pub open spec fn untouched(self) -> bool {
        ||| self.has_fetcher && self.has_writer_result && self.has_batch_writer_result
        ||| !self.state_backed && !self.tx_backed
        ||| !self.store_fetcher && !self.store_writer && !self.store_writer_result
            && !self.store_batch_writer_result
    }
}

/// What a ledger is given so that its nodes can be read and written; nothing where it has all it
/// needs, is not stored at all, or the store has nothing to give.
pub fn ledger_with_node_fetcher(facts: &FetcherFacts) -> (r: Option<FetcherAttachment>)
    ensures
        r == (if facts.untouched() {
            None
        } else {
            Some(
                FetcherAttachment {
                    fetcher: facts.store_fetcher,
                    writer: facts.store_writer && !facts.has_writer,
                    writer_result: facts.store_writer_result && !facts.has_writer_result,
                    batch_writer_result: facts.store_batch_writer_result
                        && !facts.has_batch_writer_result,
                },
            )
        }),
{
    if (facts.has_fetcher && facts.has_writer_result && facts.has_batch_writer_result) || (
    !facts.state_backed && !facts.tx_backed) {
        return None;
    }
    if !facts.store_fetcher && !facts.store_writer && !facts.store_writer_result
        && !facts.store_batch_writer_result {
        return None;
    }
    Some(
        FetcherAttachment {
            fetcher: facts.store_fetcher,
            writer: facts.store_writer && !facts.has_writer,
            writer_result: facts.store_writer_result && !facts.has_writer_result,
            batch_writer_result: facts.store_batch_writer_result && !facts.has_batch_writer_result,
        },
    )
}

} // verus!
