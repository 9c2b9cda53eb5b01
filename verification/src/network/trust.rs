//! Whom a node trusts.
use vstd::prelude::*;
use crate::ids::ViewError;

verus! {

/// What is done with a list of validators that was taken in.
#[derive(Clone, Copy, Debug, PartialEq, Eq, Structural)]
pub struct ListFollowup {
    pub broadcast: bool,
    pub persist: bool,
}

/// What became of a list of validators, by its place among all that can: the better, the lower.
#[derive(Clone, Copy, Debug, PartialEq, Eq, Structural)]
pub struct ListDisposition {
    pub rank: u32,
}

/// What is done with lists of validators. They are handed on where the best of them did no worse than
/// a list whose sequence is known already, and kept where their publisher is known.
pub fn apply_validator_lists(
    best: ListDisposition,
    known_sequence: ListDisposition,
    has_publisher: bool,
) -> (r: ListFollowup)
    ensures
        r.broadcast == (best.rank <= known_sequence.rank),
        r.persist == has_publisher,
{
    ListFollowup { broadcast: best.rank <= known_sequence.rank, persist: has_publisher }
}

/// What changes when the trusted validators are determined anew.
pub struct TrustFacts {
    /// Reading the validators that are not counted for the moment.
    pub negative_unl: Result<(), ViewError>,
    pub added: usize,
    pub removed: usize,
    pub unl_blocked: bool,
}

/// One thing that is done when the trusted validators are determined anew.
#[derive(Clone, Copy, Debug, PartialEq, Eq, Structural)]
pub enum TrustEffect {
    SetNegativeUnl,
    UpdateTrusted,
    SetUnlBlocked(bool),
    TellValidations,
    TellAmendments,
}

impl TrustFacts {
    pub open spec fn effects(self) -> Seq<TrustEffect> {
        let always = seq![
            TrustEffect::SetNegativeUnl,
            TrustEffect::UpdateTrusted,
            TrustEffect::SetUnlBlocked(self.unl_blocked),
        ];
        if self.added == 0 && self.removed == 0 {
            always
        } else {
            always + seq![TrustEffect::TellValidations, TrustEffect::TellAmendments]
        }
    }
}

/// What is done when the trusted validators are determined anew, before a round of consensus.
/// Where the ledger cannot be read, nothing is.
pub fn refresh_validator_trust_for_consensus(facts: &TrustFacts) -> (r: Result<Vec<TrustEffect>, ViewError>)
    ensures
        match facts.negative_unl {
            Err(error) => r matches Err(e) && e == error,
            Ok(_) => r matches Ok(effects) && effects@ == facts.effects(),
        },
{
    if let Err(error) = facts.negative_unl {
        return Err(error);
    }
    let mut effects: Vec<TrustEffect> = Vec::new();
    effects.push(TrustEffect::SetNegativeUnl);
    effects.push(TrustEffect::UpdateTrusted);
    effects.push(TrustEffect::SetUnlBlocked(facts.unl_blocked));
    if facts.added != 0 || facts.removed != 0 {
        effects.push(TrustEffect::TellValidations);
        effects.push(TrustEffect::TellAmendments);
    }
    proof {
        assert(effects@ =~= facts.effects());
    }
    Ok(effects)
}

/// Whether the list of validators can be used is brought up to date even where nobody joined and
/// nobody left.
pub proof fn blocking_is_always_updated(facts: TrustFacts)
    ensures
        facts.effects().contains(TrustEffect::SetUnlBlocked(facts.unl_blocked)),
{
    assert(facts.effects()[2] == TrustEffect::SetUnlBlocked(facts.unl_blocked));
}

/// Keeping the manifests of the validators, then those of the publishers. The second is not tried
/// where the first fails.
pub fn persist_manifest_caches(validators: Result<(), ViewError>, publishers: Result<(), ViewError>) -> (r: Result<
    (),
    ViewError,
>)
    ensures
        r == (match validators {
            Err(error) => Err(error),
            Ok(_) => publishers,
        }),
{
    match validators {
        Err(error) => Err(error),
        Ok(_) => publishers,
    }
}

} // verus!
