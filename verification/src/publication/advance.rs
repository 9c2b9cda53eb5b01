//! When there is something to plan.
use vstd::prelude::*;
use crate::consensus::built::ProvisionalLedgerIdentity;
use crate::consensus::counts::LedgerPoint;

verus! {

/// The ledgers at the head: the one that is validated, and the one that is published.
#[derive(Clone, Copy, Debug, PartialEq, Eq, Structural)]
pub struct Heads {
    pub validated: Option<LedgerPoint>,
    pub published: Option<LedgerPoint>,
}

/// What a plan was made from.
#[derive(Clone, Copy, Debug, PartialEq, Eq, Structural)]
pub struct PublicationPlanIdentity {
    pub validated: Option<LedgerPoint>,
    pub published: Option<LedgerPoint>,
    /// The first ledger that is not here.
    pub missing: Option<LedgerPoint>,
}

impl PublicationPlanIdentity {
    pub open spec fn made_for(self, heads: Heads) -> bool {
        self.validated == heads.validated && self.published == heads.published
    }

    /// What a plan was made from.
    pub fn from_report(heads: Heads, missing: Option<LedgerPoint>) -> (r: PublicationPlanIdentity)
        ensures
            r.made_for(heads),
            r.missing == missing,
    {
        PublicationPlanIdentity { validated: heads.validated, published: heads.published, missing }
    }

    /// Whether the heads have not moved since the plan was made.
    pub fn matches_heads(&self, heads: Heads) -> (r: bool)
        ensures
            r == self.made_for(heads),
    {
        self.validated == heads.validated && self.published == heads.published
    }
}

/// A ledger that waits until it is safe on disk.
#[derive(Clone, Copy, Debug, PartialEq, Eq, Structural)]
pub struct PublicationDeferral {
    pub identity: ProvisionalLedgerIdentity,
    pub suppression_logged: bool,
}

/// What has been asked for, and what has been planned. Requests that come while a plan is carried
/// out are kept for the next one.
#[derive(Clone, Copy, Debug, PartialEq, Eq, Structural)]
pub struct PublicationAdvanceState {
    pub requested_epoch: u64,
    pub planned_epoch: u64,
    pub last_plan: Option<PublicationPlanIdentity>,
    pub provisional_deferral: Option<PublicationDeferral>,
}

/// The epoch after this one; it is never zero.
pub open spec fn next_epoch(epoch: u64) -> u64 {
    if epoch == u64::MAX {
        1
    } else {
        (epoch + 1) as u64
    }
}

impl PublicationAdvanceState {
    pub open spec fn spec_new() -> PublicationAdvanceState {
        PublicationAdvanceState {
            requested_epoch: 1,
            planned_epoch: 0,
            last_plan: None,
            provisional_deferral: None,
        }
    }

    /// At the start one plan is asked for.
    pub fn new() -> (r: PublicationAdvanceState)
        ensures
            r == PublicationAdvanceState::spec_new(),
    {
        PublicationAdvanceState {
            requested_epoch: 1,
            planned_epoch: 0,
            last_plan: None,
            provisional_deferral: None,
        }
    }

    /// Nothing has been asked for, and the heads have not moved.
    pub open spec fn idle(self, heads: Heads) -> bool {
        self.planned_epoch == self.requested_epoch && (self.last_plan matches Some(plan)
            && plan.made_for(heads))
    }

    /// One more plan is asked for.
    pub open spec fn requested(self) -> PublicationAdvanceState {
        PublicationAdvanceState { requested_epoch: next_epoch(self.requested_epoch), ..self }
    }

    /// The plan for an epoch has been carried out.
    pub open spec fn committed(self, epoch: u64, plan: PublicationPlanIdentity) -> PublicationAdvanceState {
        PublicationAdvanceState { planned_epoch: epoch, last_plan: Some(plan), ..self }
    }

    /// Publication waits for this ledger.
    pub open spec fn waiting_for(self, identity: ProvisionalLedgerIdentity) -> PublicationAdvanceState {
        PublicationAdvanceState {
            provisional_deferral: Some(
                PublicationDeferral {
                    identity,
                    suppression_logged: self.provisional_deferral matches Some(existing)
                        && existing.identity == identity,
                },
            ),
            ..self
        }
    }

    /// Publication waits only for a ledger that is still on its way.
    pub open spec fn refreshed(self, observed: Option<ProvisionalLedgerIdentity>) -> PublicationAdvanceState {
        PublicationAdvanceState {
            provisional_deferral: match self.provisional_deferral {
                Some(retained) => if observed == Some(retained.identity) {
                    Some(retained)
                } else {
                    None
                },
                None => None,
            },
            ..self
        }
    }

    /// Asks for a plan.
    pub fn request_publication_advance(&mut self)
        ensures
            *final(self) == old(self).requested(),
    {
        let next: u64 = self.requested_epoch.wrapping_add(1);
        self.requested_epoch = if next < 1 {
            1
        } else {
            next
        };
    }

    /// The epoch to plan for, if there is something to plan.
    pub fn begin(&self, heads: Heads) -> (r: Option<u64>)
        ensures
            r == (if self.idle(heads) {
                None
            } else {
                Some(self.requested_epoch)
            }),
    {
        let unchanged = match self.last_plan {
            Some(plan) => plan.matches_heads(heads),
            None => false,
        };
        if self.planned_epoch == self.requested_epoch && unchanged {
            None
        } else {
            Some(self.requested_epoch)
        }
    }

    /// The plan for an epoch has been carried out.
    pub fn commit(&mut self, epoch: u64, plan: PublicationPlanIdentity)
        ensures
            *final(self) == old(self).committed(epoch, plan),
    {
        self.planned_epoch = epoch;
        self.last_plan = Some(plan);
    }

    /// Publication waits for this ledger. That it still waits is noted the second time.
    pub fn retain_publication_provisional_deferral(&mut self, identity: ProvisionalLedgerIdentity)
        ensures
            *final(self) == old(self).waiting_for(identity),
    {
        let again = match self.provisional_deferral {
            Some(existing) => existing.identity == identity,
            None => false,
        };
        self.provisional_deferral = Some(PublicationDeferral { identity, suppression_logged: again });
    }

    /// Publication no longer waits once the ledger it waits for is not on its way any more.
    /// `observed` is what is on its way under the hash of that ledger.
    pub fn refresh_publication_provisional_deferral(
        &mut self,
        observed: Option<ProvisionalLedgerIdentity>,
    )
        ensures
            *final(self) == old(self).refreshed(observed),
    {
        if let Some(retained) = self.provisional_deferral {
            let same = match observed {
                Some(identity) => identity == retained.identity,
                None => false,
            };
            if !same {
                self.provisional_deferral = None;
            }
        }
    }
}

/// A request that comes while a plan is carried out is not lost: there is something to plan
/// afterwards, whatever the plan was.
pub proof fn request_survives_the_pass(
    before: PublicationAdvanceState,
    plan: PublicationPlanIdentity,
    heads: Heads,
)
    ensures
        !before.requested().committed(before.requested_epoch, plan).idle(heads),
{
}

/// Once a plan is carried out and neither a request came nor a head moved, there is nothing to
/// plan.
pub proof fn quiet_after_the_pass(
    before: PublicationAdvanceState,
    plan: PublicationPlanIdentity,
    heads: Heads,
)
    requires
        plan.made_for(heads),
    ensures
        before.committed(before.requested_epoch, plan).idle(heads),
{
}

/// At the start there is something to plan, whatever the heads are.
pub proof fn first_pass_is_due(heads: Heads)
    ensures
        !PublicationAdvanceState::spec_new().idle(heads),
{
}

/// Whether work on the replay of ledgers is under way. Where nobody can say, it is.
pub fn has_active_ledger_replay_timers(timers: Option<ReplayTimers>) -> (r: bool)
    ensures
        r == (match timers {
            None => true,
            Some(timers) => timers.active_tasks != 0 || timers.active_skip_lists != 0
                || timers.active_deltas != 0,
        }),
{
    match timers {
        None => true,
        Some(timers) => timers.active_tasks != 0 || timers.active_skip_lists != 0
            || timers.active_deltas != 0,
    }
}

/// What is done once the replay of ledgers has been driven on.
#[derive(Clone, Copy, Debug, PartialEq, Eq, Structural)]
pub enum ReplayEffect {
    /// The ledger with this number among those that are complete can be found by its hash.
    Store(usize),
    /// That ledger may become the validated one.
    CheckAccept(usize),
    RequestAdvance,
    Advance,
}

pub open spec fn taken_in(n: int) -> Seq<ReplayEffect>
    decreases n,
{
    if n <= 0 {
        Seq::empty()
    } else {
        taken_in(n - 1).push(ReplayEffect::Store((n - 1) as usize)).push(
            ReplayEffect::CheckAccept((n - 1) as usize),
        )
    }
}

/// What is done once the replay of ledgers has been driven on: every ledger that is complete is
/// taken in, and publication is planned anew even where there is none. Where the replay could not
/// be driven, nothing is.
pub fn drive_ledger_replay_timers(completed: Option<usize>) -> (r: Vec<ReplayEffect>)
    ensures
        r@ == (match completed {
            None => Seq::empty(),
            Some(count) => taken_in(count as int) + seq![
                ReplayEffect::RequestAdvance,
                ReplayEffect::Advance,
            ],
        }),
{
    let mut effects: Vec<ReplayEffect> = Vec::new();
    if let Some(count) = completed {
        let mut i: usize = 0;
        while i < count
            invariant
                i <= count,
                effects@ == taken_in(i as int),
            decreases count - i,
        {
            effects.push(ReplayEffect::Store(i));
            effects.push(ReplayEffect::CheckAccept(i));
            i = i + 1;
        }
        effects.push(ReplayEffect::RequestAdvance);
        effects.push(ReplayEffect::Advance);
        proof {
            assert(effects@ =~= taken_in(count as int) + seq![
                ReplayEffect::RequestAdvance,
                ReplayEffect::Advance,
            ]);
        }
    }
    effects
}

/// What the replay of ledgers is busy with.
#[derive(Clone, Copy, Debug, PartialEq, Eq, Structural)]
pub struct ReplayTimers {
    pub active_tasks: usize,
    pub active_skip_lists: usize,
    pub active_deltas: usize,
}

} // verus!
