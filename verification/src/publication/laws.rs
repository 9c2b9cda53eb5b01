//! What holds of every pass of publication.
use vstd::prelude::*;
use crate::consensus::built::ProvisionalLedgerIdentity;
use crate::consensus::counts::LedgerPoint;
use crate::publication::advance::{
    Heads, PublicationAdvanceState, PublicationPlanIdentity, ReplayEffect, ReplayTimers,
    has_active_ledger_replay_timers, next_epoch, taken_in,
};
use crate::publication::pass::{
    PublishDecision, PublishFacts, PublishOutcome, ReplayRange, progress, replans, scheduled_replay,
    spec_acquisitions, spec_targets,
};
use crate::publication::try_advance::{
    AdvanceCall, AdvanceRun, acquire_calls, front_calls, front_state, publish_calls, state_with,
};

verus! {

/// A chain is published ledger by ledger; where nothing was published, or too much lies between,
/// the last ledger alone; and nothing where there is nothing to publish.
pub proof fn what_a_plan_publishes(found: Seq<LedgerPoint>)
    ensures
        spec_targets(PublishDecision::Sequential, found) == found,
        spec_targets(PublishDecision::NothingToPublish, found).len() == 0,
        found.len() > 0 ==> spec_targets(PublishDecision::FirstPublished, found).len() == 1
            && spec_targets(PublishDecision::FirstPublished, found)[0] == found.last(),
        found.len() > 0 ==> spec_targets(PublishDecision::GapTooLarge, found).len() == 1
            && spec_targets(PublishDecision::GapTooLarge, found)[0] == found.last(),
        found.len() == 0 ==> spec_targets(PublishDecision::FirstPublished, found).len() == 0
            && spec_targets(PublishDecision::GapTooLarge, found).len() == 0,
{
}

/// A ledger is published exactly where it is safe on disk and can be made the full ledger; one that
/// is on its way here waits.
pub proof fn who_is_published(facts: PublishFacts)
    ensures
        facts.outcome() == PublishOutcome::Published <==> facts.identity is None
            && !facts.provisional && facts.set_full is Ok,
        facts.identity matches Some(identity) ==> facts.outcome() == PublishOutcome::Deferred(
            identity,
        ),
        facts.identity is None && facts.provisional ==> facts.outcome()
            == PublishOutcome::Provisional,
        facts.identity is None && !facts.provisional ==> (facts.set_full matches Err(error)
            ==> facts.outcome() == PublishOutcome::NotFull(error)),
{
}

/// Where every ledger can be published all of them are.
pub proof fn good_ledgers_are_all_published(outcomes: Seq<PublishOutcome>, n: int)
    requires
        0 <= n <= outcomes.len() <= usize::MAX,
        forall|i: int| 0 <= i < n ==> #[trigger] outcomes[i] == PublishOutcome::Published,
    ensures
        progress(outcomes, n).published == n,
        !progress(outcomes, n).stopped,
    decreases n,
{
    if n > 0 {
        good_ledgers_are_all_published(outcomes, n - 1);
        assert(outcomes[n - 1] == PublishOutcome::Published);
    }
}

/// Publishing a ledger makes it the full and the published one and tells of it, in this order; one
/// that waits is not touched.
pub proof fn what_publishing_a_ledger_does(target: LedgerPoint, facts: PublishFacts)
    ensures
        facts.outcome() == PublishOutcome::Published ==> {
            let calls = publish_calls(target, facts);
            &&& calls.len() == 6
            &&& calls[0] == AdvanceCall::SetFull(target)
            &&& calls[1] == AdvanceCall::SetPublished(target)
            &&& calls[2] == AdvanceCall::ClearNeedNetworkLedger
            &&& calls[3] == AdvanceCall::WakeConsensus
            &&& calls[4] == AdvanceCall::TellPublished(target)
            &&& calls[5] == AdvanceCall::SetUpOrderBooks(target)
        },
        facts.identity is Some || facts.provisional ==> publish_calls(target, facts).len() == 0,
        facts.outcome() is NotFull ==> publish_calls(target, facts).len() == 1 && publish_calls(
            target,
            facts,
        )[0] == AdvanceCall::SetFull(target),
{
}

/// A published ledger asks for another plan, one that has to wait is waited for, and nothing else
/// about the state changes.
pub proof fn what_publishing_leaves_behind(
    state: PublicationAdvanceState,
    identity: ProvisionalLedgerIdentity,
    outcome: PublishOutcome,
)
    ensures
        state.requested_epoch < u64::MAX ==> state_with(
            state,
            PublishOutcome::Published,
        ).requested_epoch == state.requested_epoch + 1,
        state_with(state, PublishOutcome::Deferred(identity)).provisional_deferral matches Some(
            waiting,
        ) && waiting.identity == identity && (waiting.suppression_logged <==> (
        state.provisional_deferral matches Some(before) && before.identity == identity)),
        !(outcome is Published) ==> state_with(state, outcome).requested_epoch
            == state.requested_epoch,
        !(outcome is Deferred) ==> state_with(state, outcome).provisional_deferral
            == state.provisional_deferral,
        state_with(state, outcome).planned_epoch == state.planned_epoch,
        state_with(state, outcome).last_plan == state.last_plan,
{
}

/// Ledgers are published one after the other, and the first that cannot be is the last that is
/// tried.
pub proof fn ledgers_are_published_in_order(
    state: PublicationAdvanceState,
    targets: Seq<LedgerPoint>,
    facts: Seq<PublishFacts>,
    from: int,
)
    requires
        0 <= from <= targets.len(),
    ensures
        from == targets.len() ==> front_calls(targets, facts, from).len() == 0 && front_state(
            state,
            targets,
            facts,
            from,
        ) == state,
        from < targets.len() && facts[from].outcome() == PublishOutcome::Published ==> front_calls(
            targets,
            facts,
            from,
        ) == publish_calls(targets[from], facts[from]) + front_calls(targets, facts, from + 1)
            && front_state(state, targets, facts, from) == front_state(
            state.requested(),
            targets,
            facts,
            from + 1,
        ),
        from < targets.len() && facts[from].outcome() != PublishOutcome::Published ==> front_calls(
            targets,
            facts,
            from,
        ) == publish_calls(targets[from], facts[from]),
{
}

/// The peers are asked for the first of the ledgers that are missing, one fewer than may be fetched
/// at once, and only while a chain is published.
pub proof fn what_the_peers_are_asked_for(candidates: Seq<LedgerPoint>, size: u32, i: int)
    ensures
        ({
            let asked = spec_acquisitions(PublishDecision::Sequential, candidates, size, true);
            &&& asked.len() <= candidates.len()
            &&& size > 0 ==> asked.len() <= size - 1
            &&& asked.len() == candidates.len() || asked.len() + 1 == size || (size == 0
                && asked.len() == 0)
            &&& 0 <= i < asked.len() ==> asked[i] == candidates[i]
            &&& 0 <= i < asked.len() ==> acquire_calls(asked)[i] == AdvanceCall::Acquire(
                candidates[i],
            )
            &&& acquire_calls(asked).len() == asked.len()
        }),
        spec_acquisitions(PublishDecision::Sequential, candidates, size, false).len() == 0,
        spec_acquisitions(PublishDecision::FirstPublished, candidates, size, true).len() == 0,
        spec_acquisitions(PublishDecision::GapTooLarge, candidates, size, true).len() == 0,
        spec_acquisitions(PublishDecision::NothingToPublish, candidates, size, true).len() == 0,
{
}

/// A replay goes with a chain alone, and a plan is made anew where what it lacked is here after
/// all.
pub proof fn replays_and_new_plans(
    decision: PublishDecision,
    planned: Option<ReplayRange>,
    missing: bool,
    resolved: bool,
    replay: Option<ReplayRange>,
    again: bool,
)
    requires
        call_ensures(scheduled_replay, (decision, planned), replay),
        call_ensures(replans, (missing, resolved), again),
    ensures
        decision == PublishDecision::Sequential ==> replay == planned,
        decision != PublishDecision::Sequential ==> replay is None,
        again <==> missing && resolved,
{
}

/// There is something to plan exactly where a plan was asked for since the last one, where there
/// was none yet, or where a head has moved.
pub proof fn when_there_is_something_to_plan(state: PublicationAdvanceState, heads: Heads)
    ensures
        state.idle(heads) <==> state.planned_epoch == state.requested_epoch && (
        state.last_plan matches Some(plan) && plan.validated == heads.validated && plan.published
            == heads.published),
{
}

/// Asking counts up, and is never zero; a plan that is carried out is the last plan, for what was
/// asked.
pub proof fn asking_and_planning(
    state: PublicationAdvanceState,
    epoch: u64,
    plan: PublicationPlanIdentity,
)
    ensures
        state.requested_epoch < u64::MAX ==> state.requested().requested_epoch
            == state.requested_epoch + 1,
        next_epoch(u64::MAX) == 1,
        state.requested().planned_epoch == state.planned_epoch,
        state.requested().last_plan == state.last_plan,
        state.committed(epoch, plan).planned_epoch == epoch,
        state.committed(epoch, plan).last_plan == Some(plan),
        state.committed(epoch, plan).requested_epoch == state.requested_epoch,
        state.committed(epoch, plan).provisional_deferral == state.provisional_deferral,
{
}

/// A ledger is waited for as long as the very same one is on its way.
pub proof fn waiting_ends(
    state: PublicationAdvanceState,
    observed: Option<ProvisionalLedgerIdentity>,
)
    ensures
        state.provisional_deferral matches Some(waiting) ==> (observed == Some(waiting.identity)
            ==> state.refreshed(observed).provisional_deferral == state.provisional_deferral),
        state.provisional_deferral matches Some(waiting) ==> (observed != Some(waiting.identity)
            ==> state.refreshed(observed).provisional_deferral is None),
        state.provisional_deferral is None ==> state.refreshed(observed).provisional_deferral is None,
        state.refreshed(observed).requested_epoch == state.requested_epoch,
        state.refreshed(observed).planned_epoch == state.planned_epoch,
        state.refreshed(observed).last_plan == state.last_plan,
{
}

/// A pass that is due plans, publishes what it planned and asks for what is missing; the plan that
/// is carried out is the new one where the first lacked a ledger that is here.
pub proof fn a_pass_that_is_due(run: AdvanceRun, state: PublicationAdvanceState)
    requires
        run.available,
        !state.refreshed(run.observed).idle(run.heads),
    ensures
        ({
            let calls = run.calls(state);
            let after = run.state_after(state);
            &&& calls[0] == AdvanceCall::Plan
            &&& run.plan.missing is None ==> calls[1] == AdvanceCall::PlanReplay
            &&& run.plan.missing matches Some(point) ==> calls[1] == AdvanceCall::Resolve(
                point.hash,
            )
            &&& run.plan.missing is Some && run.resolved ==> calls[2] == AdvanceCall::Plan && calls[3]
                == AdvanceCall::PlanReplay && run.chosen() == run.plan_again
            &&& run.plan.missing is Some && !run.resolved ==> calls[2] == AdvanceCall::PlanReplay
            &&& run.plan.missing is None || !run.resolved ==> run.chosen() == run.plan
            &&& after.planned_epoch == state.requested_epoch
            &&& after.last_plan matches Some(plan) && plan.validated
                == run.planned_heads.validated && plan.published == run.planned_heads.published
                && plan.missing == run.chosen().missing
        }),
{
}

/// What a chain lacks is asked for, and what was planned is replayed where it can be.
pub proof fn what_a_pass_fetches(run: AdvanceRun, range: ReplayRange)
    ensures
        run.chosen().decision == PublishDecision::Sequential && run.replays && run.replay == Some(
            range,
        ) ==> run.fetch_calls().last() == AdvanceCall::Replay(range),
        run.chosen().decision != PublishDecision::Sequential ==> run.fetch_calls().len() == 0,
        run.chosen().decision == PublishDecision::Sequential && run.inbound
            && run.chosen().candidates@.len() > 0 && run.ledger_fetch_size > 1
            ==> run.fetch_calls()[0] == AdvanceCall::Acquire(run.chosen().candidates@[0]),
{
}

/// Every ledger whose replay is complete is taken in, and may become the validated one.
pub proof fn replayed_ledgers_are_taken_in(n: int, i: int)
    requires
        0 <= i < n <= usize::MAX,
    ensures
        taken_in(n).len() == 2 * n,
        taken_in(n)[2 * i] == ReplayEffect::Store(i as usize),
        taken_in(n)[2 * i + 1] == ReplayEffect::CheckAccept(i as usize),
    decreases n,
{
    if n > 1 {
        replayed_ledgers_are_taken_in(
            n - 1,
            if i < n - 1 {
                i
            } else {
                0
            },
        );
    } else {
        assert(taken_in(0).len() == 0);
    }
}

/// A replay is under way where there is any work on it, and where nobody can say.
pub proof fn replays_under_way(timers: Option<ReplayTimers>, r: bool)
    requires
        call_ensures(has_active_ledger_replay_timers, (timers,), r),
    ensures
        timers is None ==> r,
        timers matches Some(busy) ==> (r <==> busy.active_tasks > 0 || busy.active_skip_lists > 0
            || busy.active_deltas > 0),
{
}

/// A plan holds as long as neither head has moved since it was made.
pub proof fn plans_hold_until_a_head_moves(
    heads: Heads,
    later: Heads,
    missing: Option<LedgerPoint>,
    plan: PublicationPlanIdentity,
    holds: bool,
)
    requires
        call_ensures(PublicationPlanIdentity::from_report, (heads, missing), plan),
        call_ensures(PublicationPlanIdentity::matches_heads, (&plan, later), holds),
    ensures
        holds <==> heads.validated == later.validated && heads.published == later.published,
        plan.missing == missing,
        plan.validated == heads.validated,
        plan.published == heads.published,
{
}

} // verus!
