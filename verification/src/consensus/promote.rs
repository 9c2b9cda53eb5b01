//! What follows when a ledger becomes the validated one.
use vstd::prelude::*;
use crate::consensus::accept::{Adoption, adopt_ledger};
use crate::consensus::median::{
    in_order, median_validation_sign_time, middle, remote_fee,
};
use crate::consensus::status::needed_validations;

verus! {

/// What is known of a ledger that may become the validated one.
pub struct CandidateFacts {
    /// It is not yet safe on disk.
    pub provisional: bool,
    /// There is somebody to keep it.
    pub available: bool,
    pub seq: u32,
    pub close_time: u32,
    pub current_valid_seq: u32,
    /// When the trusted validators signed for it, one time each.
    pub sign_times: Vec<u32>,
    pub quorum: usize,
    /// The node runs by itself.
    pub standalone: bool,
    /// What the close time is by now.
    pub now: u32,
    /// Its validations and its time were found good enough, as the check that is asked for answers.
    /// Counts only for a ledger that lies beyond the validated one.
    pub accepted: bool,
    /// The fees that the validators of it and of its parent ask for.
    pub ledger_fees: Vec<u32>,
    pub parent_fees: Vec<u32>,
    pub load_base: u32,
    pub base_fee: u64,
}

/// One thing that is done when a ledger becomes the validated one, or to find out whether it does.
#[derive(Clone, Copy, Debug, PartialEq, Eq, Structural)]
pub enum PromotionEffect {
    /// Whether so many trusted validations, of so many needed, and the time are good enough.
    CheckAccept { count: usize, needed: usize, now: u32 },
    /// It becomes the validated ledger, as old as its validations.
    SetValidLedger { sign_time: u32 },
    RequestPublicationAdvance,
    /// Own transactions that it holds are no longer kept.
    SweepLocalTransactions,
    InsertHistory,
    RegisterForValidations,
    MarkComplete { seq: u32 },
    NotifyValidated,
    /// The age that counts is that of the validations.
    SetValidatedCloseTime { sign_time: u32 },
    Save,
    SetRemoteFee { fee: u32 },
    UpdateBaseFee { base_fee: u64 },
    AdvancePublication,
}

impl CandidateFacts {
    pub open spec fn adoption(self) -> Adoption {
        if self.provisional {
            Adoption::Provisional
        } else if !self.available {
            Adoption::Unavailable
        } else if self.seq <= self.current_valid_seq {
            Adoption::NotAdvancing
        } else if self.accepted {
            Adoption::Adopted
        } else {
            Adoption::Rejected
        }
    }

    /// When the validators signed: the middle of their times, or when the ledger closed where
    /// they are no quorum.
    pub open spec fn sign_time(self) -> u32 {
        if self.quorum == 0 || self.sign_times@.len() < self.quorum {
            self.close_time
        } else {
            middle(self.sign_times@)
        }
    }

    /// The fee in the middle of those that are asked for.
    pub open spec fn fee(self) -> u32 {
        let fees = self.ledger_fees@ + self.parent_fees@;
        if fees.len() == 0 {
            self.load_base
        } else {
            in_order(fees)[fees.len() as int / 2]
        }
    }

    /// The ledger is safe on disk, has somebody to keep it and lies beyond the validated one.
    pub open spec fn is_checked(self) -> bool {
        !self.provisional && self.available && self.seq > self.current_valid_seq
    }

    /// What is asked for to find out whether the ledger is accepted.
    pub open spec fn check(self) -> PromotionEffect {
        PromotionEffect::CheckAccept {
            count: self.sign_times@.len() as usize,
            needed: if self.standalone {
                0
            } else {
                self.quorum
            },
            now: self.now,
        }
    }

    /// All that is done, in order: first the ledger is checked, then it is shown to everybody, then
    /// it is saved, and publication moves on at the end.
    pub open spec fn effects(self) -> Seq<PromotionEffect> {
        if !self.is_checked() {
            Seq::empty()
        } else if self.accepted {
            seq![
                self.check(),
                PromotionEffect::SetValidLedger { sign_time: self.sign_time() },
                PromotionEffect::RequestPublicationAdvance,
                PromotionEffect::SweepLocalTransactions,
                PromotionEffect::InsertHistory,
                PromotionEffect::RegisterForValidations,
                PromotionEffect::MarkComplete { seq: self.seq },
                PromotionEffect::NotifyValidated,
                PromotionEffect::SetValidatedCloseTime { sign_time: self.sign_time() },
                PromotionEffect::Save,
                PromotionEffect::SetRemoteFee { fee: self.fee() },
                PromotionEffect::UpdateBaseFee { base_fee: self.base_fee },
                PromotionEffect::AdvancePublication,
            ]
        } else {
            seq![self.check()]
        }
    }
}

/// What becomes of a ledger that may become the validated one, and what is done about it.
pub fn check_accept_ledger(facts: CandidateFacts) -> (r: (Adoption, Vec<PromotionEffect>))
    requires
        facts.ledger_fees@.len() + facts.parent_fees@.len() <= usize::MAX,
    ensures
        r.0 == facts.adoption(),
        r.1@ == facts.effects(),
{
    let adoption = adopt_ledger(
        facts.provisional,
        facts.available,
        facts.seq,
        facts.current_valid_seq,
        facts.accepted,
    );
    let ghost whole = facts;
    let mut effects: Vec<PromotionEffect> = Vec::new();
    if matches!(adoption, Adoption::Adopted | Adoption::Rejected) {
        effects.push(
            PromotionEffect::CheckAccept {
                count: facts.sign_times.len(),
                needed: needed_validations(facts.standalone, facts.quorum),
                now: facts.now,
            },
        );
    }
    if adoption != Adoption::Adopted {
        assert(effects@ =~= whole.effects());
        return (adoption, effects);
    }
    let seq: u32 = facts.seq;
    let base_fee: u64 = facts.base_fee;
    let sign_time: u32 = median_validation_sign_time(
        facts.sign_times,
        facts.quorum,
        facts.close_time,
    );
    let fee: u32 = remote_fee(facts.ledger_fees, facts.parent_fees, facts.load_base);
    effects.push(PromotionEffect::SetValidLedger { sign_time });
    effects.push(PromotionEffect::RequestPublicationAdvance);
    effects.push(PromotionEffect::SweepLocalTransactions);
    effects.push(PromotionEffect::InsertHistory);
    effects.push(PromotionEffect::RegisterForValidations);
    effects.push(PromotionEffect::MarkComplete { seq });
    effects.push(PromotionEffect::NotifyValidated);
    effects.push(PromotionEffect::SetValidatedCloseTime { sign_time });
    effects.push(PromotionEffect::Save);
    effects.push(PromotionEffect::SetRemoteFee { fee });
    effects.push(PromotionEffect::UpdateBaseFee { base_fee });
    effects.push(PromotionEffect::AdvancePublication);
    proof {
        assert(effects@ =~= whole.effects());
    }
    (adoption, effects)
}

/// The validated ledger only ever moves on: whatever is adopted lies beyond it.
pub proof fn validated_ledger_moves_on(facts: CandidateFacts)
    requires
        facts.adoption() == Adoption::Adopted,
    ensures
        facts.seq > facts.current_valid_seq,
        !facts.provisional,
{
}

/// A ledger that is not adopted changes nothing at all: no more than the check is asked for.
pub proof fn only_adoption_has_effects(facts: CandidateFacts)
    requires
        facts.adoption() != Adoption::Adopted,
    ensures
        forall|i: int| 0 <= i < facts.effects().len() ==> (#[trigger] facts.effects()[i]) is CheckAccept,
{
}

/// No ledger is adopted without a check of its trusted validations, against as many as are needed,
/// and of the time.
pub proof fn adoption_is_checked(facts: CandidateFacts)
    requires
        facts.adoption() == Adoption::Adopted,
    ensures
        facts.accepted,
        facts.effects().len() > 0,
        facts.effects()[0] == facts.check(),
{
}

/// A ledger is saved only after it has become the validated one, and publication moves on only
/// after that.
pub proof fn shown_then_saved_then_published(facts: CandidateFacts, i: int, j: int, k: int)
    requires
        0 <= i < facts.effects().len(),
        0 <= j < facts.effects().len(),
        0 <= k < facts.effects().len(),
        facts.effects()[i] is SetValidLedger,
        facts.effects()[j] is Save,
        facts.effects()[k] is AdvancePublication,
    ensures
        i < j < k,
{
}

/// What is done when a ledger is told to be validated.
#[derive(Clone, Copy, Debug, PartialEq, Eq, Structural)]
pub enum ValidatedEffect {
    Note,
    InsertHistory,
    RegisterForValidations,
    UpdateAmendments,
    BlockAmendments,
    UpdateWarnings,
    NotifyStore,
}

/// What is known when a ledger is told to be validated. That it enables an amendment that this
/// node does not know counts only for a node that is not blocked yet.
#[derive(Clone, Copy, Debug, PartialEq, Eq, Structural)]
pub struct ValidatedFacts {
    pub provisional: bool,
    pub has_ledger_master: bool,
    pub immutable: bool,
    pub blocked: bool,
    pub unsupported_enabled: bool,
    pub has_store: bool,
}

impl ValidatedFacts {
    pub open spec fn indexed(self) -> Seq<ValidatedEffect> {
        if self.has_ledger_master && self.immutable {
            seq![ValidatedEffect::InsertHistory, ValidatedEffect::RegisterForValidations]
        } else {
            Seq::empty()
        }
    }

    pub open spec fn warned(self) -> Seq<ValidatedEffect> {
        if self.blocked {
            Seq::empty()
        } else if self.unsupported_enabled {
            seq![ValidatedEffect::BlockAmendments]
        } else {
            seq![ValidatedEffect::UpdateWarnings]
        }
    }

    pub open spec fn stored(self) -> Seq<ValidatedEffect> {
        if self.has_store {
            seq![ValidatedEffect::NotifyStore]
        } else {
            Seq::empty()
        }
    }

    pub open spec fn effects(self) -> Seq<ValidatedEffect> {
        seq![ValidatedEffect::Note] + self.indexed() + seq![ValidatedEffect::UpdateAmendments]
            + self.warned() + self.stored()
    }
}

/// What is done when a ledger is told to be validated; nothing while it is not safe on disk.
pub fn on_validated_ledger(facts: ValidatedFacts) -> (r: Option<Vec<ValidatedEffect>>)
    ensures
        match r {
            None => facts.provisional,
            Some(effects) => !facts.provisional && effects@ == facts.effects(),
        },
{
    if facts.provisional {
        return None;
    }
    let mut effects: Vec<ValidatedEffect> = Vec::new();
    effects.push(ValidatedEffect::Note);
    if facts.has_ledger_master && facts.immutable {
        effects.push(ValidatedEffect::InsertHistory);
        effects.push(ValidatedEffect::RegisterForValidations);
    }
    effects.push(ValidatedEffect::UpdateAmendments);
    if !facts.blocked {
        if facts.unsupported_enabled {
            effects.push(ValidatedEffect::BlockAmendments);
        } else {
            effects.push(ValidatedEffect::UpdateWarnings);
        }
    }
    if facts.has_store {
        effects.push(ValidatedEffect::NotifyStore);
    }
    proof {
        assert(effects@ =~= facts.effects());
    }
    Some(effects)
}

/// A node that meets an amendment it does not know is blocked from then on, unless it is already.
pub proof fn unknown_amendment_blocks(facts: ValidatedFacts)
    ensures
        facts.effects().contains(ValidatedEffect::BlockAmendments) <==> !facts.blocked
            && facts.unsupported_enabled,
{
    let effects = facts.effects();
    if !facts.blocked && facts.unsupported_enabled {
        let i = 2 + facts.indexed().len();
        assert(effects[i as int] == ValidatedEffect::BlockAmendments);
    }
    if effects.contains(ValidatedEffect::BlockAmendments) {
        let i = choose|i: int|
            0 <= i < effects.len() && effects[i] == ValidatedEffect::BlockAmendments;
        assert(effects[i] == ValidatedEffect::BlockAmendments);
    }
}

} // verus!
