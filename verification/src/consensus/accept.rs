//! Taking a ledger for validated.
use vstd::prelude::*;
use crate::consensus::counts::{
    CurrentValidation, LedgerPoint, best_alternate, consensus_built_current_validation_counts,
    is_best, tally,
};
use crate::consensus::status::should_check_tracking_on_validation_resolver_miss;
use crate::ids::Uint256;
use crate::ord_map::OrdMap;

verus! {

/// What is done about a validation that has come in.
#[derive(Clone, Copy, Debug, PartialEq, Eq, Structural)]
pub enum ObservedAction {
    /// It is for a ledger below the validated one.
    Ignore,
    /// Its ledger is validated already, or is just being built here.
    Defer,
    /// Its ledger is looked for.
    Resolve,
}

/// What a validation comes to.
#[derive(Clone, Copy, Debug, PartialEq, Eq, Structural)]
pub struct Observation {
    pub action: ObservedAction,
    /// A quorum stands behind the ledger: whatever comes next must go with it.
    pub anchors: bool,
}

pub open spec fn spec_observe(
    seq: u32,
    current_valid_seq: u32,
    validation_count: usize,
    quorum: usize,
    building: Option<u32>,
) -> Observation {
    if seq == 0 {
        Observation { action: ObservedAction::Resolve, anchors: false }
    } else if seq < current_valid_seq {
        Observation { action: ObservedAction::Ignore, anchors: false }
    } else {
        Observation {
            action: if seq == current_valid_seq || building == Some(seq) {
                ObservedAction::Defer
            } else {
                ObservedAction::Resolve
            },
            anchors: validation_count >= quorum,
        }
    }
}

/// What a validation for the ledger with this sequence comes to; a sequence of zero is one that
/// the validation does not name.
pub fn observe_validation(
    seq: u32,
    current_valid_seq: u32,
    validation_count: usize,
    quorum: usize,
    building: Option<u32>,
) -> (r: Observation)
    ensures
        r == spec_observe(seq, current_valid_seq, validation_count, quorum, building),
{
    if seq == 0 {
        return Observation { action: ObservedAction::Resolve, anchors: false };
    }
    if seq < current_valid_seq {
        return Observation { action: ObservedAction::Ignore, anchors: false };
    }
    let anchors = validation_count >= quorum;
    let building_same_seq = match building {
        Some(building) => building == seq,
        None => false,
    };
    if seq == current_valid_seq || building_same_seq {
        Observation { action: ObservedAction::Defer, anchors }
    } else {
        Observation { action: ObservedAction::Resolve, anchors }
    }
}

/// What follows the search for the ledger of a validation.
#[derive(Clone, Copy, Debug, PartialEq, Eq, Structural)]
pub enum Resolution {
    /// It is here: it may be taken for validated.
    Consider,
    /// It is asked for from the peers, and the peers are measured by it where that is due.
    Acquire { check_tracking: bool },
}

/// What follows the search for the ledger of a validation.
pub fn resolve_validation(
    found: bool,
    seq: u32,
    valid_ledger_seq: u32,
    validation_count: usize,
    quorum: usize,
) -> (r: Resolution)
    ensures
        r == (if found {
            Resolution::Consider
        } else {
            Resolution::Acquire {
                check_tracking: seq != 0 && valid_ledger_seq == 0 && validation_count >= quorum,
            }
        }),
{
    if found {
        Resolution::Consider
    } else {
        Resolution::Acquire {
            check_tracking: should_check_tracking_on_validation_resolver_miss(
                seq,
                valid_ledger_seq,
                validation_count,
                quorum,
            ),
        }
    }
}

/// What is known when a validation has come in. Whether the ledger is here counts only where it
/// is looked for.
#[derive(Clone, Copy, Debug, PartialEq, Eq, Structural)]
pub struct ValidationFacts {
    pub available: bool,
    pub point: LedgerPoint,
    pub valid_ledger_seq: u32,
    /// How many trusted validators stand behind the ledger.
    pub validation_count: usize,
    pub quorum: usize,
    pub building: Option<u32>,
    pub found: bool,
    pub has_overlay: bool,
    pub inbound: bool,
}

/// One thing that is done about a validation.
#[derive(Clone, Copy, Debug, PartialEq, Eq, Structural)]
pub enum ValidationEffect {
    NoteAnchor(LedgerPoint),
    CheckTracking(u32),
    Acquire(LedgerPoint),
    Consider,
}

impl ValidationFacts {
    /// A validation that names no sequence has no count.
    pub open spec fn count(self) -> usize {
        if self.point.seq == 0 {
            0
        } else {
            self.validation_count
        }
    }

    pub open spec fn observed(self) -> Observation {
        spec_observe(
            self.point.seq,
            self.valid_ledger_seq,
            self.validation_count,
            self.quorum,
            self.building,
        )
    }

    pub open spec fn anchored(self) -> Seq<ValidationEffect> {
        if self.observed().anchors {
            seq![ValidationEffect::NoteAnchor(self.point)]
        } else {
            Seq::empty()
        }
    }

    pub open spec fn measured(self) -> Seq<ValidationEffect> {
        if self.point.seq != 0 && self.valid_ledger_seq == 0 && self.count() >= self.quorum
            && self.has_overlay {
            seq![ValidationEffect::CheckTracking(self.point.seq)]
        } else {
            Seq::empty()
        }
    }

    pub open spec fn asked_for(self) -> Seq<ValidationEffect> {
        if self.inbound {
            seq![ValidationEffect::Acquire(self.point)]
        } else {
            Seq::empty()
        }
    }

    pub open spec fn resolved(self) -> Seq<ValidationEffect> {
        if self.observed().action != ObservedAction::Resolve {
            Seq::empty()
        } else if self.found {
            seq![ValidationEffect::Consider]
        } else {
            self.measured() + self.asked_for()
        }
    }

    pub open spec fn effects(self) -> Seq<ValidationEffect> {
        if self.available {
            self.anchored() + self.resolved()
        } else {
            Seq::empty()
        }
    }
}

/// What is done about a validation that has come in.
pub fn check_accept_hash_seq(facts: &ValidationFacts) -> (r: Vec<ValidationEffect>)
    ensures
        r@ == facts.effects(),
{
    let mut effects: Vec<ValidationEffect> = Vec::new();
    if !facts.available {
        return effects;
    }
    let observation = observe_validation(
        facts.point.seq,
        facts.valid_ledger_seq,
        facts.validation_count,
        facts.quorum,
        facts.building,
    );
    if observation.anchors {
        effects.push(ValidationEffect::NoteAnchor(facts.point));
    }
    if observation.action == ObservedAction::Resolve {
        let count: usize = if facts.point.seq == 0 {
            0
        } else {
            facts.validation_count
        };
        match resolve_validation(
            facts.found,
            facts.point.seq,
            facts.valid_ledger_seq,
            count,
            facts.quorum,
        ) {
            Resolution::Consider => {
                effects.push(ValidationEffect::Consider);
            },
            Resolution::Acquire { check_tracking } => {
                if check_tracking && facts.has_overlay {
                    effects.push(ValidationEffect::CheckTracking(facts.point.seq));
                }
                if facts.inbound {
                    effects.push(ValidationEffect::Acquire(facts.point));
                }
            },
        }
    }
    proof {
        assert(effects@ =~= facts.effects());
    }
    effects
}

/// What becomes of a ledger that may be taken for validated.
#[derive(Clone, Copy, Debug, PartialEq, Eq, Structural)]
pub enum Adoption {
    /// It is not yet safe on disk.
    Provisional,
    /// There is nobody to keep it.
    Unavailable,
    /// It lies no further than the validated one.
    NotAdvancing,
    /// It was not accepted.
    Rejected,
    /// It is the validated ledger now.
    Adopted,
}

/// What becomes of a ledger. `accepted` says whether its quorum and its time were good enough; it
/// counts only for one that would advance.
pub fn adopt_ledger(
    provisional: bool,
    available: bool,
    seq: u32,
    current_valid_seq: u32,
    accepted: bool,
) -> (r: Adoption)
    ensures
        r == (if provisional {
            Adoption::Provisional
        } else if !available {
            Adoption::Unavailable
        } else if seq <= current_valid_seq {
            Adoption::NotAdvancing
        } else if accepted {
            Adoption::Adopted
        } else {
            Adoption::Rejected
        }),
        r == Adoption::Adopted ==> seq > current_valid_seq && !provisional && accepted,
{
    if provisional {
        return Adoption::Provisional;
    }
    if !available {
        return Adoption::Unavailable;
    }
    if seq <= current_valid_seq {
        return Adoption::NotAdvancing;
    }
    if accepted {
        Adoption::Adopted
    } else {
        Adoption::Rejected
    }
}

/// Which ledgers are checked once a ledger has been built here.
#[derive(Clone, Copy, Debug, PartialEq, Eq, Structural)]
pub struct BuiltChecks {
    /// The built ledger itself.
    pub built: bool,
    /// Another one, that the network validated in its place.
    pub alternate: Option<LedgerPoint>,
}

/// Which ledgers are checked once a ledger has been built here: the built one, unless it lies no
/// further than what is validated; and, where that did not make it the validated one, the ledger
/// furthest ahead that more current validations than needed stand behind. `valid_seq_after` is
/// the validated sequence after the check of the built one, and `known` holds the sequences of
/// ledgers that are known here.
pub fn consensus_built_check_accept(
    built_seq: u32,
    valid_seq: u32,
    valid_seq_after: u32,
    needed: usize,
    current: &Vec<CurrentValidation>,
    known: &OrdMap<Uint256, u32>,
) -> (r: BuiltChecks)
    requires
        known.wf(),
    ensures
        r.built == (built_seq > valid_seq),
        if built_seq > valid_seq && valid_seq_after < built_seq {
            is_best(tally(current@), known@, needed, valid_seq, r.alternate)
        } else {
            r.alternate is None
        },
{
    if built_seq <= valid_seq {
        return BuiltChecks { built: false, alternate: None };
    }
    if valid_seq_after >= built_seq {
        return BuiltChecks { built: true, alternate: None };
    }
    let counts = consensus_built_current_validation_counts(current);
    BuiltChecks { built: true, alternate: best_alternate(&counts, known, needed, valid_seq) }
}

/// A validation below the validated ledger changes nothing: it is neither looked for nor kept as
/// an anchor.
pub proof fn old_validations_are_ignored(
    seq: u32,
    current_valid_seq: u32,
    validation_count: usize,
    quorum: usize,
    building: Option<u32>,
)
    requires
        0 < seq < current_valid_seq,
    ensures
        spec_observe(seq, current_valid_seq, validation_count, quorum, building) == (Observation {
            action: ObservedAction::Ignore,
            anchors: false,
        }),
{
}

} // verus!
