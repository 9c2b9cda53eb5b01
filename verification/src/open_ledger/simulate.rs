//! Trying a transaction without keeping anything of it.
use vstd::prelude::*;
use crate::ids::{AccountID, Uint256};
use crate::queue::base_fee::{INVALID_BATCH_BASE_FEE, fee_drops_as_i64};
use crate::queue::clear_ahead::ApplyResult;
use crate::queue::sandbox::BaseHeader;
use crate::submit::flags::ApplyFlags;
use crate::ter::admits_apply;

verus! {

/// The open ledger that a transaction is tried on.
#[derive(Clone, Copy, Debug, PartialEq, Eq, Structural)]
pub struct SimulationView {
    pub ledger_current_index: u32,
    pub base_fee_drops: u64,
    pub parent_hash: Uint256,
}

pub open spec fn spec_simulation_view(
    current: SimulationView,
    ledger_seq: u32,
    base_fee: u64,
    hash: Uint256,
) -> SimulationView {
    if current.ledger_current_index == 0 {
        SimulationView {
            ledger_current_index: ledger_seq,
            base_fee_drops: base_fee,
            parent_hash: hash,
        }
    } else {
        current
    }
}

/// The open ledger that a transaction is tried on: the current one, or, before there is one, a
/// view of the given ledger.
pub fn simulation_view(current: SimulationView, ledger_seq: u32, base_fee: u64, hash: Uint256) -> (r: SimulationView)
    ensures
        r == spec_simulation_view(current, ledger_seq, base_fee, hash),
{
    if current.ledger_current_index == 0 {
        SimulationView {
            ledger_current_index: ledger_seq,
            base_fee_drops: base_fee,
            parent_hash: hash,
        }
    } else {
        current
    }
}

/// What trying a transaction came to.
#[derive(Clone, Copy, Debug, PartialEq, Eq, Structural)]
pub struct SimulationOutcome {
    pub result: ApplyResult,
    pub ledger_seq: u32,
    pub close_time: u32,
    /// Its effects are written down.
    pub metadata: bool,
}

pub open spec fn spec_simulation_outcome(
    view: SimulationView,
    close_time: u32,
    result: ApplyResult,
    described: bool,
) -> SimulationOutcome {
    SimulationOutcome {
        result,
        ledger_seq: view.ledger_current_index,
        close_time,
        metadata: result.ter.likely_to_claim_fee() && described,
    }
}

/// What trying a transaction came to. Its effects are written down only where it would have taken
/// a fee; `described` says whether they could be.
pub fn simulation_outcome(
    view: SimulationView,
    close_time: u32,
    result: ApplyResult,
    described: bool,
) -> (r: SimulationOutcome)
    ensures
        r == spec_simulation_outcome(view, close_time, result, described),
{
    SimulationOutcome {
        result,
        ledger_seq: view.ledger_current_index,
        close_time,
        metadata: admits_apply(result.ter) && described,
    }
}

/// Which state something is done with.
#[derive(Clone, Copy, Debug, PartialEq, Eq, Structural)]
pub enum Held {
    /// The one that the node goes on with.
    Live,
    /// One of its own.
    Copy,
}

/// One thing that is asked for while a transaction is tried.
#[derive(Clone, Copy, Debug, PartialEq, Eq, Structural)]
pub enum SimulationCall {
    /// Copy the open ledger.
    CopyOpenLedger,
    /// Copy the state that submitted transactions are tried on.
    CopySandbox,
    /// Begin such a state on top of the given ledger.
    NewSandbox { base: BaseHeader, flags: ApplyFlags },
    /// Begin a state on top of that one, to try the transaction in.
    OpenState { flags: ApplyFlags },
    /// Begin a table of sequences.
    NewSequences,
    /// Copy the queue.
    CopyQueue,
    /// What waits of this account.
    AccountQueue { account: AccountID },
    /// Hand the transaction to the queue, which applies it or refuses it.
    ApplyByQueue {
        id: Uint256,
        flags: ApplyFlags,
        ledger_index: u32,
        open_ledger: Held,
        sandbox: Held,
        sequences: Held,
        queue: Held,
    },
    /// Write the effects of the transaction down.
    Describe { id: Uint256, ledger_index: u32, delivered: Option<u64> },
}

/// What the ledger and the queue answer while a transaction is tried. Each answer counts only where
/// the question comes up.
#[derive(Clone, Copy, Debug)]
pub struct SimulationRun {
    pub id: Uint256,
    pub account: AccountID,
    /// The open ledger, and the ledger that is given for want of one.
    pub current: SimulationView,
    pub ledger_seq: u32,
    pub ledger_base_fee: u64,
    pub ledger: BaseHeader,
    /// The state that submitted transactions are tried on is there.
    pub has_sandbox: bool,
    /// The close time of the copy of that state, or of the one that was begun.
    pub close_time: u32,
    pub result: ApplyResult,
    /// What was delivered, by the number under which the caller keeps the amount.
    pub delivered: Option<u64>,
    /// The effects could be written down.
    pub described: bool,
}

impl SimulationRun {
    /// The open ledger that the transaction is tried on.
    pub open spec fn tried_on(self) -> SimulationView {
        spec_simulation_view(
            self.current,
            self.ledger_seq,
            self.ledger_base_fee,
            self.ledger.hash,
        )
    }

    pub open spec fn outcome(self) -> SimulationOutcome {
        spec_simulation_outcome(self.tried_on(), self.close_time, self.result, self.described)
    }

    /// All that is asked for, in order.
    pub open spec fn calls(self) -> Seq<SimulationCall> {
        let flags = ApplyFlags::spec_dry_run();
        let ledger_index = self.tried_on().ledger_current_index;
        seq![
            SimulationCall::CopyOpenLedger,
            if self.has_sandbox {
                SimulationCall::CopySandbox
            } else {
                SimulationCall::NewSandbox { base: self.ledger, flags }
            },
            SimulationCall::OpenState { flags },
            SimulationCall::NewSequences,
            SimulationCall::CopyQueue,
            SimulationCall::AccountQueue { account: self.account },
            SimulationCall::ApplyByQueue {
                id: self.id,
                flags,
                ledger_index,
                open_ledger: Held::Copy,
                sandbox: Held::Copy,
                sequences: Held::Copy,
                queue: Held::Copy,
            },
        ] + if self.result.ter.likely_to_claim_fee() {
            seq![
                SimulationCall::Describe { id: self.id, ledger_index, delivered: self.delivered },
            ]
        } else {
            seq![]
        }
    }
}

/// Tries a transaction on copies of the open ledger, of the state on top of it and of the queue,
/// with sequences of its own, and without keeping anything of it. What is asked for on the way is
/// added to the calls.
pub fn simulate_transaction(run: &SimulationRun, calls: &mut Vec<SimulationCall>) -> (r: SimulationOutcome)
    ensures
        r == run.outcome(),
        final(calls)@ == old(calls)@ + run.calls(),
{
    let flags = ApplyFlags::dry_run();
    calls.push(SimulationCall::CopyOpenLedger);
    let view = simulation_view(run.current, run.ledger_seq, run.ledger_base_fee, run.ledger.hash);
    if run.has_sandbox {
        calls.push(SimulationCall::CopySandbox);
    } else {
        calls.push(SimulationCall::NewSandbox { base: run.ledger, flags });
    }
    let ledger_index: u32 = view.ledger_current_index;
    calls.push(SimulationCall::OpenState { flags });
    calls.push(SimulationCall::NewSequences);
    calls.push(SimulationCall::CopyQueue);
    calls.push(SimulationCall::AccountQueue { account: run.account });
    calls.push(
        SimulationCall::ApplyByQueue {
            id: run.id,
            flags,
            ledger_index,
            open_ledger: Held::Copy,
            sandbox: Held::Copy,
            sequences: Held::Copy,
            queue: Held::Copy,
        },
    );
    if admits_apply(run.result.ter) {
        calls.push(SimulationCall::Describe { id: run.id, ledger_index, delivered: run.delivered });
    }
    assert(calls@ =~= old(calls)@ + run.calls());
    simulation_outcome(view, run.close_time, run.result, run.described)
}

/// Trying a transaction leaves the node as it was: the queue is handed copies alone, each of them
/// made before, and is told that nothing is to be kept.
pub proof fn simulation_works_on_copies(run: SimulationRun, i: int)
    requires
        0 <= i < run.calls().len(),
    ensures
        run.calls()[i] matches SimulationCall::ApplyByQueue {
            flags,
            open_ledger,
            sandbox,
            sequences,
            queue,
            ..
        } ==> {
            &&& flags.dry_run
            &&& open_ledger == Held::Copy && sandbox == Held::Copy
            &&& sequences == Held::Copy && queue == Held::Copy
            &&& run.calls().take(i).contains(SimulationCall::CopyOpenLedger)
            &&& run.calls().take(i).contains(SimulationCall::NewSequences)
            &&& run.calls().take(i).contains(SimulationCall::CopyQueue)
        },
        run.outcome().metadata ==> run.outcome().result.ter.likely_to_claim_fee(),
{
    if run.calls()[i] is ApplyByQueue {
        assert(i == 6);
        let before = run.calls().take(i);
        assert(before[0] == SimulationCall::CopyOpenLedger);
        assert(before[3] == SimulationCall::NewSequences);
        assert(before[4] == SimulationCall::CopyQueue);
    }
}

/// What a transaction of a closed ledger paid, and what it had to.
#[derive(Clone, Copy, Debug, PartialEq, Eq, Structural)]
pub struct PaidFee {
    pub fee_drops: Option<i64>,
    pub calculated_base_fee: u64,
    pub default_base_fee: u64,
}

/// What the level of a fee is computed from.
#[derive(Clone, Copy, Debug, PartialEq, Eq, Structural)]
pub struct FeeLevelInputs {
    pub calculated_base_fee_drops: i64,
    pub fee_paid_drops: i64,
    pub default_base_fee_drops: i64,
}

pub open spec fn fits(fee: u64) -> bool {
    fee == INVALID_BATCH_BASE_FEE || fee <= i64::MAX
}

pub open spec fn as_drops(fee: u64) -> i64 {
    if fee == INVALID_BATCH_BASE_FEE {
        i64::MAX
    } else {
        fee as i64
    }
}

pub open spec fn spec_inputs(paid: PaidFee) -> FeeLevelInputs {
    FeeLevelInputs {
        calculated_base_fee_drops: as_drops(paid.calculated_base_fee),
        fee_paid_drops: match paid.fee_drops {
            Some(drops) => drops,
            None => 0,
        },
        default_base_fee_drops: as_drops(paid.default_base_fee),
    }
}

/// What the fee levels of a closed ledger are computed from, transaction by transaction; nothing
/// where its transactions cannot be read.
pub fn validated_fee_levels_for_closed_ledger(paid: &Option<Vec<PaidFee>>) -> (r: Vec<FeeLevelInputs>)
    requires
        paid matches Some(list) ==> forall|i: int|
            0 <= i < list@.len() ==> fits((#[trigger] list@[i]).calculated_base_fee) && fits(
                list@[i].default_base_fee,
            ),
    ensures
        match paid {
            None => r@.len() == 0,
            Some(list) => r@ == Seq::new(list@.len(), |i: int| spec_inputs(list@[i])),
        },
{
    let mut out: Vec<FeeLevelInputs> = Vec::new();
    if let Some(list) = paid {
        let mut i: usize = 0;
        while i < list.len()
            invariant
                i <= list@.len(),
                out@.len() == i,
                forall|j: int|
                    0 <= j < list@.len() ==> fits((#[trigger] list@[j]).calculated_base_fee)
                        && fits(list@[j].default_base_fee),
                forall|j: int| 0 <= j < i ==> out@[j] == spec_inputs(#[trigger] list@[j]),
            decreases list@.len() - i,
        {
            let entry = list[i];
            let fee_paid_drops: i64 = match entry.fee_drops {
                Some(drops) => drops,
                None => 0,
            };
            out.push(
                FeeLevelInputs {
                    calculated_base_fee_drops: fee_drops_as_i64(entry.calculated_base_fee),
                    fee_paid_drops,
                    default_base_fee_drops: fee_drops_as_i64(entry.default_base_fee),
                },
            );
            i = i + 1;
        }
        proof {
            assert(out@ =~= Seq::new(list@.len(), |i: int| spec_inputs(list@[i])));
        }
    }
    out
}

} // verus!
