//! One pass of publication, from the plan to the requests that it leaves behind.
use vstd::prelude::*;
use crate::consensus::built::ProvisionalLedgerIdentity;
use crate::consensus::counts::LedgerPoint;
use crate::ids::Uint256;
use crate::publication::advance::{
    Heads, PublicationAdvanceState, PublicationPlanIdentity, next_epoch,
};
use crate::publication::pass::{
    PublicationPass, PublishDecision, PublishFacts, PublishOutcome, ReplayRange, acquisitions,
    publish_full_ledger, replans, scheduled_replay, spec_acquisitions, spec_targets,
};

verus! {

/// A plan for publication.
pub struct PublicationPlan {
    pub decision: PublishDecision,
    /// The ledgers that it found, in order.
    pub found: Vec<LedgerPoint>,
    /// The first ledger that is not here.
    pub missing: Option<LedgerPoint>,
    /// The ledgers that may be asked for from the peers.
    pub candidates: Vec<LedgerPoint>,
}

/// What the node answers during one pass. Each answer counts only where the question comes up.
pub struct AdvanceRun {
    /// There is somebody who keeps the ledgers.
    pub available: bool,
    /// What is on its way under the hash of the ledger that publication waits for.
    pub observed: Option<ProvisionalLedgerIdentity>,
    pub heads: Heads,
    pub plan: PublicationPlan,
    /// The missing ledger turned out to be here, and the plan after that.
    pub resolved: bool,
    pub plan_again: PublicationPlan,
    /// The replay that goes with the plan, and the heads when it was made.
    pub replay: Option<ReplayRange>,
    pub planned_heads: Heads,
    /// What is known of each ledger that is to be published, in order.
    pub facts: Vec<PublishFacts>,
    pub ledger_fetch_size: u32,
    pub inbound: bool,
    /// Ledgers can be replayed.
    pub replays: bool,
}

/// One thing that is asked for during a pass.
#[derive(Clone, Copy, Debug, PartialEq, Eq, Structural)]
pub enum AdvanceCall {
    Plan,
    /// Look for a ledger by its hash.
    Resolve(Uint256),
    PlanReplay,
    /// Make a ledger the full one.
    SetFull(LedgerPoint),
    SetPublished(LedgerPoint),
    /// The node no longer waits for a ledger of the network.
    ClearNeedNetworkLedger,
    WakeConsensus,
    TellPublished(LedgerPoint),
    SetUpOrderBooks(LedgerPoint),
    Acquire(LedgerPoint),
    Replay(ReplayRange),
}

/// What is asked for to publish one ledger.
pub open spec fn publish_calls(target: LedgerPoint, facts: PublishFacts) -> Seq<AdvanceCall> {
    match facts.outcome() {
        PublishOutcome::Deferred(_) | PublishOutcome::Provisional => seq![],
        PublishOutcome::NotFull(_) => seq![AdvanceCall::SetFull(target)],
        PublishOutcome::Published => seq![
            AdvanceCall::SetFull(target),
            AdvanceCall::SetPublished(target),
            AdvanceCall::ClearNeedNetworkLedger,
            AdvanceCall::WakeConsensus,
            AdvanceCall::TellPublished(target),
            AdvanceCall::SetUpOrderBooks(target),
        ],
    }
}

/// The state once a ledger was to be published: another plan is asked for where it was, and
/// publication waits where it has to.
pub open spec fn state_with(state: PublicationAdvanceState, outcome: PublishOutcome) -> PublicationAdvanceState {
    match outcome {
        PublishOutcome::Published => state.requested(),
        PublishOutcome::Deferred(identity) => state.waiting_for(identity),
        _ => state,
    }
}

/// What is asked for to publish the ledgers from the `from`th one on: the first that cannot be
/// published is the last that is tried.
pub open spec fn front_calls(targets: Seq<LedgerPoint>, facts: Seq<PublishFacts>, from: int) -> Seq<
    AdvanceCall,
>
    decreases targets.len() - from,
{
    if from < 0 || from >= targets.len() {
        seq![]
    } else {
        publish_calls(targets[from], facts[from]) + if facts[from].outcome()
            == PublishOutcome::Published {
            front_calls(targets, facts, from + 1)
        } else {
            seq![]
        }
    }
}

/// The state once the ledgers from the `from`th one on were to be published.
pub open spec fn front_state(
    state: PublicationAdvanceState,
    targets: Seq<LedgerPoint>,
    facts: Seq<PublishFacts>,
    from: int,
) -> PublicationAdvanceState
    decreases targets.len() - from,
{
    if from < 0 || from >= targets.len() {
        state
    } else {
        let next = state_with(state, facts[from].outcome());
        if facts[from].outcome() == PublishOutcome::Published {
            front_state(next, targets, facts, from + 1)
        } else {
            next
        }
    }
}

/// What is asked for from the peers.
pub open spec fn acquire_calls(points: Seq<LedgerPoint>) -> Seq<AdvanceCall> {
    Seq::new(points.len(), |i: int| AdvanceCall::Acquire(points[i]))
}

impl AdvanceRun {
    /// The plan that is carried out: it is made anew where the ledger that it lacks is here after
    /// all.
    pub open spec fn chosen(self) -> PublicationPlan {
        if self.plan.missing is Some && self.resolved {
            self.plan_again
        } else {
            self.plan
        }
    }

    pub open spec fn targets(self) -> Seq<LedgerPoint> {
        spec_targets(self.chosen().decision, self.chosen().found@)
    }

    /// Something is known of every ledger that is to be published.
    pub open spec fn wf(self) -> bool {
        self.facts@.len() >= self.targets().len()
    }

    pub open spec fn identity(self) -> PublicationPlanIdentity {
        PublicationPlanIdentity {
            validated: self.planned_heads.validated,
            published: self.planned_heads.published,
            missing: self.chosen().missing,
        }
    }

    /// The pass has something to plan.
    pub open spec fn due(self, state: PublicationAdvanceState) -> bool {
        self.available && !state.refreshed(self.observed).idle(self.heads)
    }

    /// What is asked for to make the plan.
    pub open spec fn plan_calls(self) -> Seq<AdvanceCall> {
        match self.plan.missing {
            None => seq![AdvanceCall::Plan, AdvanceCall::PlanReplay],
            Some(missing) => if self.resolved {
                seq![
                    AdvanceCall::Plan,
                    AdvanceCall::Resolve(missing.hash),
                    AdvanceCall::Plan,
                    AdvanceCall::PlanReplay,
                ]
            } else {
                seq![
                    AdvanceCall::Plan,
                    AdvanceCall::Resolve(missing.hash),
                    AdvanceCall::PlanReplay,
                ]
            },
        }
    }

    /// What is asked for from the peers, and to be replayed, while a chain is published.
    pub open spec fn fetch_calls(self) -> Seq<AdvanceCall> {
        acquire_calls(
            spec_acquisitions(
                self.chosen().decision,
                self.chosen().candidates@,
                self.ledger_fetch_size,
                self.inbound,
            ),
        ) + match self.replay {
            Some(range) => if self.chosen().decision == PublishDecision::Sequential
                && self.replays {
                seq![AdvanceCall::Replay(range)]
            } else {
                seq![]
            },
            None => seq![],
        }
    }

    /// All that is asked for, in order.
    pub open spec fn calls(self, state: PublicationAdvanceState) -> Seq<AdvanceCall> {
        if self.due(state) {
            self.plan_calls() + front_calls(self.targets(), self.facts@, 0) + self.fetch_calls()
        } else {
            seq![]
        }
    }

    /// The state after the pass. Only the request that was there at its start is done with: those
    /// that the published ledgers make stay.
    pub open spec fn state_after(self, state: PublicationAdvanceState) -> PublicationAdvanceState {
        let refreshed = state.refreshed(self.observed);
        if !self.available {
            state
        } else if refreshed.idle(self.heads) {
            refreshed
        } else {
            front_state(refreshed, self.targets(), self.facts@, 0).committed(
                refreshed.requested_epoch,
                self.identity(),
            )
        }
    }
}

fn publish(
    target: LedgerPoint,
    facts: &PublishFacts,
    state: &mut PublicationAdvanceState,
    calls: &mut Vec<AdvanceCall>,
) -> (r: PublishOutcome)
    ensures
        r == facts.outcome(),
        *final(state) == state_with(*old(state), r),
        final(calls)@ == old(calls)@ + publish_calls(target, *facts),
{
    let outcome = publish_full_ledger(facts);
    match outcome {
        PublishOutcome::Deferred(identity) => {
            state.retain_publication_provisional_deferral(identity);
        },
        PublishOutcome::Provisional => {},
        PublishOutcome::NotFull(_) => {
            calls.push(AdvanceCall::SetFull(target));
        },
        PublishOutcome::Published => {
            calls.push(AdvanceCall::SetFull(target));
            calls.push(AdvanceCall::SetPublished(target));
            calls.push(AdvanceCall::ClearNeedNetworkLedger);
            state.request_publication_advance();
            calls.push(AdvanceCall::WakeConsensus);
            calls.push(AdvanceCall::TellPublished(target));
            calls.push(AdvanceCall::SetUpOrderBooks(target));
        },
    }
    outcome
}

fn publish_front(
    targets: Vec<LedgerPoint>,
    decision: PublishDecision,
    facts: &Vec<PublishFacts>,
    state: &mut PublicationAdvanceState,
    calls: &mut Vec<AdvanceCall>,
)
    requires
        facts@.len() >= spec_targets(decision, targets@).len(),
    ensures
        *final(state) == front_state(*old(state), spec_targets(decision, targets@), facts@, 0),
        final(calls)@ == old(calls)@ + front_calls(spec_targets(decision, targets@), facts@, 0),
{
    let mut pass = PublicationPass::start(decision, targets);
    let count: usize = pass.targets.len();
    let ghost all = pass.targets@;
    let ghost first = *state;
    let ghost before = calls@;
    loop
        invariant
            pass.wf(),
            pass.targets@ == all,
            count == all.len(),
            facts@.len() >= all.len(),
            pass.stopped ==> front_state(first, all, facts@, 0) == *state && before + front_calls(
                all,
                facts@,
                0,
            ) == calls@,
            !pass.stopped ==> front_state(first, all, facts@, 0) == front_state(
                *state,
                all,
                facts@,
                pass.published as int,
            ) && before + front_calls(all, facts@, 0) == calls@ + front_calls(
                all,
                facts@,
                pass.published as int,
            ),
        ensures
            *state == front_state(first, all, facts@, 0),
            calls@ == before + front_calls(all, facts@, 0),
        decreases all.len() - pass.published + (if pass.stopped {
            0int
        } else {
            1
        }),
    {
        let target = match pass.next() {
            Some(target) => target,
            None => {
                proof {
                    assert(calls@ + Seq::<AdvanceCall>::empty() =~= calls@);
                }
                break;
            },
        };
        let position: usize = pass.published;
        let ghost asked = calls@;
        let outcome = publish(target, &facts[position], state, calls);
        proof {
            let rest = if outcome == PublishOutcome::Published {
                front_calls(all, facts@, position + 1)
            } else {
                seq![]
            };
            assert(front_calls(all, facts@, position as int) == publish_calls(
                all[position as int],
                facts@[position as int],
            ) + rest);
            assert(asked + front_calls(all, facts@, position as int) =~= calls@ + rest);
        }
        pass.note(outcome);
    }
}

fn ask_peers(points: &Vec<LedgerPoint>, calls: &mut Vec<AdvanceCall>)
    ensures
        final(calls)@ == old(calls)@ + acquire_calls(points@),
{
    let ghost before = calls@;
    let mut i: usize = 0;
    while i < points.len()
        invariant
            i <= points@.len(),
            calls@ == before + acquire_calls(points@.take(i as int)),
        decreases points@.len() - i,
    {
        calls.push(AdvanceCall::Acquire(points[i]));
        i = i + 1;
        proof {
            assert(calls@ =~= before + acquire_calls(points@.take(i as int)));
        }
    }
    proof {
        assert(points@.take(i as int) =~= points@);
    }
}

/// One pass of publication: makes a plan where one is due, publishes what it found up to the
/// first ledger that cannot be, and asks for what is missing. What is asked for on the way is
/// added to the calls.
pub fn try_advance_publication(
    run: AdvanceRun,
    state: &mut PublicationAdvanceState,
    calls: &mut Vec<AdvanceCall>,
)
    requires
        run.wf(),
    ensures
        *final(state) == run.state_after(*old(state)),
        final(calls)@ == old(calls)@ + run.calls(*old(state)),
{
    let ghost whole = run;
    if !run.available {
        return;
    }
    state.refresh_publication_provisional_deferral(run.observed);
    let epoch: u64 = match state.begin(run.heads) {
        Some(epoch) => epoch,
        None => {
            return;
        },
    };
    calls.push(AdvanceCall::Plan);
    let mut again = false;
    if let Some(missing) = run.plan.missing {
        calls.push(AdvanceCall::Resolve(missing.hash));
        again = replans(true, run.resolved);
        if again {
            calls.push(AdvanceCall::Plan);
        }
    }
    let plan = if again {
        run.plan_again
    } else {
        run.plan
    };
    calls.push(AdvanceCall::PlanReplay);
    let identity = PublicationPlanIdentity::from_report(run.planned_heads, plan.missing);
    let decision = plan.decision;
    publish_front(plan.found, decision, &run.facts, state, calls);
    let wanted = acquisitions(decision, &plan.candidates, run.ledger_fetch_size, run.inbound);
    ask_peers(&wanted, calls);
    if let Some(range) = scheduled_replay(decision, run.replay) {
        if run.replays {
            calls.push(AdvanceCall::Replay(range));
        }
    }
    state.commit(epoch, identity);
    proof {
        assert(identity == whole.identity());
        assert(calls@ =~= old(calls)@ + whole.calls(*old(state)));
    }
}

/// An epoch so many requests later.
pub open spec fn epoch_after(epoch: u64, requests: nat) -> u64
    decreases requests,
{
    if requests == 0 {
        epoch
    } else {
        next_epoch(epoch_after(epoch, (requests - 1) as nat))
    }
}

proof fn epochs_differ(epoch: u64, requests: nat)
    requires
        0 < requests < u64::MAX,
    ensures
        epoch_after(epoch, requests) != epoch,
        epoch > 0 ==> epoch_after(epoch, requests) == (if epoch + requests <= u64::MAX {
            epoch + requests
        } else {
            epoch + requests - u64::MAX
        }),
        epoch == 0 ==> epoch_after(epoch, requests) == requests,
    decreases requests,
{
    if requests > 1 {
        epochs_differ(epoch, (requests - 1) as nat);
    } else {
        assert(epoch_after(epoch, 0) == epoch);
    }
}

/// How many ledgers are published from the `from`th one on.
pub open spec fn published_from(targets: Seq<LedgerPoint>, facts: Seq<PublishFacts>, from: int) -> nat
    decreases targets.len() - from,
{
    if from < 0 || from >= targets.len() || facts[from].outcome() != PublishOutcome::Published {
        0
    } else {
        1 + published_from(targets, facts, from + 1)
    }
}

proof fn every_published_ledger_asks(
    state: PublicationAdvanceState,
    epoch: u64,
    asked: nat,
    targets: Seq<LedgerPoint>,
    facts: Seq<PublishFacts>,
    from: int,
)
    requires
        state.requested_epoch == epoch_after(epoch, asked),
    ensures
        front_state(state, targets, facts, from).requested_epoch == epoch_after(
            epoch,
            asked + published_from(targets, facts, from),
        ),
    decreases targets.len() - from,
{
    if 0 <= from < targets.len() && facts[from].outcome() == PublishOutcome::Published {
        every_published_ledger_asks(state.requested(), epoch, asked + 1, targets, facts, from + 1);
    }
}

/// A pass that publishes a ledger asks for another pass: there is something to plan afterwards,
/// whatever the heads are then. This leaves out passes that publish as many ledgers as there are
/// epochs.
pub proof fn publishing_asks_for_another_pass(
    run: AdvanceRun,
    state: PublicationAdvanceState,
    heads: Heads,
)
    requires
        run.wf(),
        run.due(state),
        0 < published_from(run.targets(), run.facts@, 0) < u64::MAX,
    ensures
        !run.state_after(state).idle(heads),
{
    let refreshed = state.refreshed(run.observed);
    let published = published_from(run.targets(), run.facts@, 0);
    assert(epoch_after(refreshed.requested_epoch, 0) == refreshed.requested_epoch);
    every_published_ledger_asks(
        refreshed,
        refreshed.requested_epoch,
        0,
        run.targets(),
        run.facts@,
        0,
    );
    epochs_differ(refreshed.requested_epoch, published);
}

/// A node that keeps no ledgers, or that has nothing to plan, asks for nothing and keeps its
/// requests and its last plan.
pub proof fn idle_pass_asks_for_nothing(run: AdvanceRun, state: PublicationAdvanceState)
    requires
        !run.due(state),
    ensures
        run.calls(state).len() == 0,
        run.state_after(state).requested_epoch == state.requested_epoch,
        run.state_after(state).planned_epoch == state.planned_epoch,
        run.state_after(state).last_plan == state.last_plan,
{
}

} // verus!
