//! Carrying out a plan.
use vstd::prelude::*;
use crate::consensus::built::ProvisionalLedgerIdentity;
use crate::consensus::counts::LedgerPoint;
use crate::ids::ViewError;

verus! {

/// What kind of plan it is.
#[derive(Clone, Copy, Debug, PartialEq, Eq, Structural)]
pub enum PublishDecision {
    NothingToPublish,
    /// Nothing was published yet: the validated ledger is.
    FirstPublished,
    /// The published ledger lies too far back: the validated one is published in its place.
    GapTooLarge,
    /// One ledger after the other.
    Sequential,
}

/// The ledgers that a plan publishes, in order.
pub open spec fn spec_targets(decision: PublishDecision, found: Seq<LedgerPoint>) -> Seq<LedgerPoint> {
    match decision {
        PublishDecision::NothingToPublish => Seq::empty(),
        PublishDecision::FirstPublished | PublishDecision::GapTooLarge => if found.len() == 0 {
            Seq::empty()
        } else {
            seq![found.last()]
        },
        PublishDecision::Sequential => found,
    }
}

/// What is known of a ledger that is to be published. Whether it can be made the full ledger
/// counts only where nothing holds it back.
pub struct PublishFacts {
    /// It is on its way here, as this.
    pub identity: Option<ProvisionalLedgerIdentity>,
    pub provisional: bool,
    pub set_full: Result<(), ViewError>,
}

/// What became of a ledger that was to be published.
#[derive(Clone, Copy, Debug, PartialEq, Eq, Structural)]
pub enum PublishOutcome {
    /// It is published; the node no longer waits for a ledger of the network, and another plan is
    /// asked for.
    Published,
    /// It waits until it is safe on disk.
    Deferred(ProvisionalLedgerIdentity),
    /// It is not safe on disk, and nobody knows when it will be.
    Provisional,
    /// It could not be made the full ledger.
    NotFull(ViewError),
}

impl PublishFacts {
    pub open spec fn outcome(self) -> PublishOutcome {
        match self.identity {
            Some(identity) => PublishOutcome::Deferred(identity),
            None => if self.provisional {
                PublishOutcome::Provisional
            } else {
                match self.set_full {
                    Ok(_) => PublishOutcome::Published,
                    Err(error) => PublishOutcome::NotFull(error),
                }
            },
        }
    }
}

/// What becomes of a ledger that is to be published.
pub fn publish_full_ledger(facts: &PublishFacts) -> (r: PublishOutcome)
    ensures
        r == facts.outcome(),
{
    if let Some(identity) = facts.identity {
        return PublishOutcome::Deferred(identity);
    }
    if facts.provisional {
        return PublishOutcome::Provisional;
    }
    match facts.set_full {
        Ok(_) => PublishOutcome::Published,
        Err(error) => PublishOutcome::NotFull(error),
    }
}

/// How far a pass has come: how many ledgers are published, and whether it has stopped.
#[derive(Clone, Copy, Debug, PartialEq, Eq, Structural)]
pub struct PassProgress {
    pub published: usize,
    pub stopped: bool,
}

impl PassProgress {
    /// One ledger further. Those behind one that could not be published are not tried.
    pub open spec fn after(self, outcome: PublishOutcome) -> PassProgress {
        if self.stopped {
            self
        } else if outcome == PublishOutcome::Published {
            PassProgress { published: (self.published + 1) as usize, ..self }
        } else {
            PassProgress { stopped: true, ..self }
        }
    }
}

/// How far a pass has come with the first `n` outcomes, one for each ledger that was tried.
pub open spec fn progress(outcomes: Seq<PublishOutcome>, n: int) -> PassProgress
    decreases n,
{
    if n <= 0 {
        PassProgress { published: 0, stopped: false }
    } else {
        progress(outcomes, n - 1).after(outcomes[n - 1])
    }
}

/// A plan that is being carried out.
pub struct PublicationPass {
    pub targets: Vec<LedgerPoint>,
    /// How many of them are published.
    pub published: usize,
    /// One of them could not be published: those behind it are not tried.
    pub stopped: bool,
}

impl PublicationPass {
    pub open spec fn wf(self) -> bool {
        self.published <= self.targets@.len()
    }

    pub open spec fn spec_progress(self) -> PassProgress {
        PassProgress { published: self.published, stopped: self.stopped }
    }

    /// Starts to carry out a plan. `found` are the ledgers that it found, in order.
    pub fn start(decision: PublishDecision, found: Vec<LedgerPoint>) -> (r: PublicationPass)
        ensures
            r.wf(),
            r.targets@ == spec_targets(decision, found@),
            r.spec_progress() == (PassProgress { published: 0, stopped: false }),
    {
        let targets = match decision {
            PublishDecision::NothingToPublish => Vec::new(),
            PublishDecision::FirstPublished | PublishDecision::GapTooLarge => {
                let mut last: Vec<LedgerPoint> = Vec::new();
                if found.len() > 0 {
                    last.push(found[found.len() - 1]);
                }
                last
            },
            PublishDecision::Sequential => found,
        };
        proof {
            assert(targets@ =~= spec_targets(decision, found@));
        }
        PublicationPass { targets, published: 0, stopped: false }
    }

    /// The ledger to publish next, if any.
    pub fn next(&self) -> (r: Option<LedgerPoint>)
        requires
            self.wf(),
        ensures
            r == (if self.stopped || self.published == self.targets@.len() {
                None
            } else {
                Some(self.targets@[self.published as int])
            }),
    {
        if self.stopped || self.published == self.targets.len() {
            None
        } else {
            Some(self.targets[self.published])
        }
    }

    /// Takes in what became of that ledger.
    pub fn note(&mut self, outcome: PublishOutcome)
        requires
            old(self).wf(),
            !old(self).stopped,
            old(self).published < old(self).targets@.len(),
        ensures
            final(self).wf(),
            final(self).targets@ == old(self).targets@,
            final(self).spec_progress() == old(self).spec_progress().after(outcome),
    {
        let count: usize = self.targets.len();
        assert(self.published < count);
        if outcome == PublishOutcome::Published {
            self.published = self.published + 1;
        } else {
            self.stopped = true;
        }
    }
}

/// What has been published is always the front of the plan: no ledger is shown before the one it
/// follows, and none behind one that failed.
pub proof fn published_is_the_front(outcomes: Seq<PublishOutcome>, n: int)
    requires
        0 <= n <= outcomes.len() <= usize::MAX,
    ensures
        progress(outcomes, n).published <= n,
        forall|k: int|
            0 <= k < progress(outcomes, n).published ==> #[trigger] outcomes[k]
                == PublishOutcome::Published,
        progress(outcomes, n).stopped ==> progress(outcomes, n).published < n && outcomes[progress(
            outcomes,
            n,
        ).published as int] != PublishOutcome::Published,
        !progress(outcomes, n).stopped ==> progress(outcomes, n).published == n,
    decreases n,
{
    if n > 0 {
        published_is_the_front(outcomes, n - 1);
    }
}

pub open spec fn spec_acquisitions(
    decision: PublishDecision,
    candidates: Seq<LedgerPoint>,
    ledger_fetch_size: u32,
    inbound: bool,
) -> Seq<LedgerPoint> {
    let limit = if ledger_fetch_size == 0 {
        0
    } else {
        ledger_fetch_size - 1
    };
    if decision == PublishDecision::Sequential && inbound {
        candidates.take(
            if candidates.len() < limit {
                candidates.len() as int
            } else {
                limit
            },
        )
    } else {
        Seq::empty()
    }
}

/// The ledgers that are asked for from the peers while a chain is published: the first ones that
/// are missing, one fewer than may be fetched at once.
pub fn acquisitions(
    decision: PublishDecision,
    candidates: &Vec<LedgerPoint>,
    ledger_fetch_size: u32,
    inbound: bool,
) -> (r: Vec<LedgerPoint>)
    ensures
        r@ == spec_acquisitions(decision, candidates@, ledger_fetch_size, inbound),
{
    let mut out: Vec<LedgerPoint> = Vec::new();
    if decision != PublishDecision::Sequential || !inbound {
        return out;
    }
    let limit: usize = ledger_fetch_size.saturating_sub(1) as usize;
    let mut i: usize = 0;
    while i < candidates.len() && i < limit
        invariant
            i <= candidates@.len(),
            i <= limit,
            out@ == candidates@.take(i as int),
        decreases candidates@.len() - i,
    {
        out.push(candidates[i]);
        i = i + 1;
        proof {
            assert(candidates@.take(i as int) =~= candidates@.take(i - 1).push(candidates@[i - 1]));
        }
    }
    out
}

/// Ledgers that are computed anew out of their transactions instead of being fetched.
#[derive(Clone, Copy, Debug, PartialEq, Eq, Structural)]
pub struct ReplayRange {
    pub finish: crate::ids::Uint256,
    pub total_ledgers: u32,
}

/// The replay that is scheduled: the one that was planned, while a chain is published.
pub fn scheduled_replay(decision: PublishDecision, planned: Option<ReplayRange>) -> (r: Option<
    ReplayRange,
>)
    ensures
        r == (if decision == PublishDecision::Sequential {
            planned
        } else {
            None
        }),
{
    if decision == PublishDecision::Sequential {
        planned
    } else {
        None
    }
}

/// Whether the plan is made anew: the ledger that it lacks turned out to be here.
pub fn replans(missing: bool, resolved: bool) -> (r: bool)
    ensures
        r == (missing && resolved),
{
    missing && resolved
}

/// A ledger on its way here is never published, and neither is one that is not safe on disk.
pub proof fn provisional_is_not_published(facts: PublishFacts)
    requires
        facts.identity is Some || facts.provisional,
    ensures
        facts.outcome() != PublishOutcome::Published,
{
}

} // verus!
