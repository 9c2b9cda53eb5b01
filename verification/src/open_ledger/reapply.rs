//! Putting transactions back into the open ledger, each at most once.
use vstd::prelude::*;
use crate::ids::{Uint256, ViewError};
use crate::open_ledger::rebase::lists;
use crate::queue::clear_ahead::{ApplyResult, not_applied};
use crate::queue::direct::{clear_ahead_apply, spec_apply_admitted};
use crate::ter::Ter;

verus! {

/// What has found its way back into the open ledger.
pub struct Reapplied {
    /// Everything that was applied, parts of batches too.
    pub applied_ids: Vec<Uint256>,
    /// What stands in the open ledger itself.
    pub recorded: Vec<Uint256>,
}

/// What became of a transaction that was to go back into the open ledger.
#[derive(Clone, Copy, Debug, PartialEq, Eq, Structural)]
pub enum Recovery {
    /// The closed ledger holds it.
    InParent,
    /// Whether the closed ledger holds it could not be read.
    LookupFailed(ViewError),
    /// It was tried.
    Tried(ApplyResult),
}

/// What looking a transaction up in the closed ledger comes to, where it is not to be tried.
pub open spec fn left_out(in_parent: Result<bool, ViewError>) -> Option<Recovery> {
    match in_parent {
        Ok(true) => Some(Recovery::InParent),
        Ok(false) => None,
        Err(error) => Some(Recovery::LookupFailed(error)),
    }
}

/// A transaction that is tried again. Each answer counts only where the question comes up.
pub struct ReapplyAttempt {
    pub id: Uint256,
    pub preflight: Ter,
    pub preclaim: Ter,
    /// What its application came to.
    pub outcome: ApplyResult,
    pub inner: Vec<Uint256>,
}

impl ReapplyAttempt {
    pub open spec fn result(self) -> ApplyResult {
        spec_apply_admitted(self.preflight, self.preclaim, self.outcome)
    }
}

impl Reapplied {
    pub open spec fn wf(self) -> bool {
        &&& self.recorded@.no_duplicates()
        &&& forall|i: int|
            0 <= i < self.recorded@.len() ==> self.applied_ids@.contains(#[trigger] self.recorded@[i])
    }

    /// Nothing has found its way back yet.
    pub fn new() -> (r: Reapplied)
        ensures
            r.wf(),
            r.applied_ids@.len() == 0,
            r.recorded@.len() == 0,
    {
        Reapplied { applied_ids: Vec::new(), recorded: Vec::new() }
    }

    /// Tries a transaction again. One that is applied already is refused.
    pub fn reapply_open_ledger_record(&mut self, attempt: &ReapplyAttempt) -> (r: ApplyResult)
        requires
            old(self).wf(),
        ensures
            final(self).wf(),
            r == (if old(self).applied_ids@.contains(attempt.id) {
                not_applied(Ter::TEF_ALREADY)
            } else {
                attempt.result()
            }),
            final(self).applied_ids@ == (if r.applied {
                old(self).applied_ids@.push(attempt.id) + attempt.inner@
            } else {
                old(self).applied_ids@
            }),
            final(self).recorded@ == (if r.applied {
                old(self).recorded@.push(attempt.id)
            } else {
                old(self).recorded@
            }),
    {
        if lists(&self.applied_ids, attempt.id) {
            return ApplyResult { ter: Ter::TEF_ALREADY, applied: false };
        }
        let result = clear_ahead_apply(attempt.preflight, attempt.preclaim, attempt.outcome);
        if result.applied {
            let ghost before = self.applied_ids@;
            let ghost recorded = self.recorded@;
            self.applied_ids.push(attempt.id);
            self.recorded.push(attempt.id);
            let ghost base = self.applied_ids@;
            let mut i: usize = 0;
            while i < attempt.inner.len()
                invariant
                    i <= attempt.inner@.len(),
                    self.applied_ids@ == base + attempt.inner@.take(i as int),
                    self.recorded@ == recorded.push(attempt.id),
                decreases attempt.inner@.len() - i,
            {
                self.applied_ids.push(attempt.inner[i]);
                i = i + 1;
                proof {
                    assert(attempt.inner@.take(i as int) =~= attempt.inner@.take(i - 1).push(
                        attempt.inner@[i - 1],
                    ));
                    assert(self.applied_ids@ =~= base + attempt.inner@.take(i as int));
                }
            }
            proof {
                assert(attempt.inner@.take(i as int) =~= attempt.inner@);
                let all = self.applied_ids@;
                assert forall|k: int| 0 <= k < self.recorded@.len() implies all.contains(
                    #[trigger] self.recorded@[k],
                ) by {
                    if k < recorded.len() {
                        let j = choose|j: int| 0 <= j < before.len() && before[j] == recorded[k];
                        assert(before.contains(recorded[k]));
                        assert(all[j] == recorded[k]);
                    } else {
                        assert(all[before.len() as int] == attempt.id);
                    }
                }
                assert forall|a: int, b: int|
                    0 <= a < self.recorded@.len() && 0 <= b < self.recorded@.len() && a
                        != b implies self.recorded@[a] != self.recorded@[b] by {
                    if a == recorded.len() {
                        assert(before.contains(recorded[b]));
                    }
                    if b == recorded.len() {
                        assert(before.contains(recorded[a]));
                    }
                }
            }
        }
        result
    }

    /// Puts a transaction back, unless the closed ledger holds it, or that could not be read.
    pub fn recover(&mut self, in_parent: Result<bool, ViewError>, attempt: &ReapplyAttempt) -> (r: Recovery)
        requires
            old(self).wf(),
        ensures
            final(self).wf(),
            match left_out(in_parent) {
                Some(why) => r == why && *final(self) == *old(self),
                None => {
                    let result = if old(self).applied_ids@.contains(attempt.id) {
                        not_applied(Ter::TEF_ALREADY)
                    } else {
                        attempt.result()
                    };
                    &&& r == Recovery::Tried(result)
                    &&& final(self).applied_ids@ == (if result.applied {
                        old(self).applied_ids@.push(attempt.id) + attempt.inner@
                    } else {
                        old(self).applied_ids@
                    })
                    &&& final(self).recorded@ == (if result.applied {
                        old(self).recorded@.push(attempt.id)
                    } else {
                        old(self).recorded@
                    })
                },
            },
    {
        match in_parent {
            Ok(true) => Recovery::InParent,
            Err(error) => Recovery::LookupFailed(error),
            Ok(false) => Recovery::Tried(self.reapply_open_ledger_record(attempt)),
        }
    }

    /// Puts a transaction of this node back by way of the queue, unless the closed ledger holds it,
    /// or that could not be read.
    pub fn recover_local(
        &mut self,
        in_parent: Result<bool, ViewError>,
        id: Uint256,
        outcome: ApplyResult,
    ) -> (r: Recovery)
        requires
            old(self).wf(),
        ensures
            final(self).wf(),
            final(self).recorded@ == old(self).recorded@,
            match left_out(in_parent) {
                Some(why) => r == why && *final(self) == *old(self),
                None => {
                    let result = if old(self).applied_ids@.contains(id) {
                        not_applied(Ter::TEF_ALREADY)
                    } else {
                        outcome
                    };
                    &&& r == Recovery::Tried(result)
                    &&& final(self).applied_ids@ == (if result.applied {
                        old(self).applied_ids@.push(id)
                    } else {
                        old(self).applied_ids@
                    })
                },
            },
    {
        match in_parent {
            Ok(true) => Recovery::InParent,
            Err(error) => Recovery::LookupFailed(error),
            Ok(false) => Recovery::Tried(self.apply_local_open_ledger_record_with_txq(id, outcome)),
        }
    }

    /// Tries a transaction of this node again by way of the queue, which enters it into the open
    /// ledger itself. `outcome` is what the queue says, and counts only of one that is not
    /// applied already.
    pub fn apply_local_open_ledger_record_with_txq(&mut self, id: Uint256, outcome: ApplyResult) -> (r: ApplyResult)
        requires
            old(self).wf(),
        ensures
            final(self).wf(),
            r == (if old(self).applied_ids@.contains(id) {
                not_applied(Ter::TEF_ALREADY)
            } else {
                outcome
            }),
            final(self).applied_ids@ == (if r.applied {
                old(self).applied_ids@.push(id)
            } else {
                old(self).applied_ids@
            }),
            final(self).recorded@ == old(self).recorded@,
    {
        if lists(&self.applied_ids, id) {
            return ApplyResult { ter: Ter::TEF_ALREADY, applied: false };
        }
        if outcome.applied {
            let ghost before = self.applied_ids@;
            self.applied_ids.push(id);
            proof {
                assert forall|k: int| 0 <= k < self.recorded@.len() implies self.applied_ids@.contains(
                    #[trigger] self.recorded@[k],
                ) by {
                    assert(before.contains(self.recorded@[k]));
                    let j = choose|j: int| 0 <= j < before.len() && before[j] == self.recorded@[k];
                    assert(self.applied_ids@[j] == self.recorded@[k]);
                }
            }
        }
        outcome
    }
}

} // verus!
