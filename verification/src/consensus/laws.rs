//! What holds of every ledger that the network agrees on, or may.
use vstd::prelude::*;
use vstd::relations::{sorted_by, total_ordering};
use crate::consensus::accept::{
    Adoption, ObservedAction, Resolution, ValidationEffect, ValidationFacts, adopt_ledger,
    resolve_validation, spec_observe,
};
use crate::consensus::acceptor::{
    AcceptJob, AcceptedEffect, PendingValidation, QueueStopping, accept_ledger,
    spawn_consensus_accept_job, spec_accepted_effects,
};
use crate::consensus::built::{
    BuiltEffect, BuiltStep, FailedSave, ProvisionalLedgerIdentity, Revocation, failed_save,
    revoke_provisional_inbound_ledger, spec_built_steps, spec_record_effects, spec_store_effects,
};
use crate::consensus::counts::{
    CurrentValidation, LedgerPoint, ValidationCount, candidate_seq,
    consensus_built_alternate_threshold_met, is_best, tally,
};
use crate::consensus::median::{at_most, in_order, median_validation_sign_time, middle, remote_fee};
use crate::consensus::mode::{
    AcceptedLedger, OperatingMode, StoreMode, promoted_mode, set_shamap_store_operating_mode,
};
use crate::consensus::promote::{CandidateFacts, PromotionEffect, ValidatedEffect, ValidatedFacts};
use crate::consensus::status::{
    ClosedAt, advertised_ledger_range, consensus_closed_ledger, consensus_previous_ledger,
    consensus_status_event, earliest_ledger_fetch, needed_validations,
    preferred_lcl_matches_local_or_parent, should_check_tracking_on_validation_resolver_miss,
    transaction_close_time_seconds,
};
use crate::ids::Uint256;

verus! {

/// A validation beyond the validated ledger has its ledger looked for, unless that is just being
/// built here; one for the validated ledger is put off; and where a quorum stands behind it, it is
/// an anchor.
pub proof fn validations_are_followed(
    seq: u32,
    valid: u32,
    count: usize,
    quorum: usize,
    building: Option<u32>,
)
    ensures
        ({
            let seen = spec_observe(seq, valid, count, quorum, building);
            &&& seq > valid && building != Some(seq) ==> seen.action == ObservedAction::Resolve
            &&& seq > valid && building == Some(seq) ==> seen.action == ObservedAction::Defer
            &&& seq == valid && seq > 0 ==> seen.action == ObservedAction::Defer
            &&& 0 < seq < valid ==> seen.action == ObservedAction::Ignore
            &&& seq == 0 ==> seen.action == ObservedAction::Resolve
            &&& seen.anchors <==> seq > 0 && seq >= valid && count >= quorum
        }),
{
}

/// What is done about a validation: its anchor is noted, its ledger is considered where it is here,
/// and asked for from whoever can be asked where it is not; and while nothing is validated the
/// peers are measured by one that a quorum stands behind.
pub proof fn what_is_done_about_a_validation(facts: ValidationFacts)
    ensures
        ({
            let done = facts.effects();
            let seq = facts.point.seq;
            let sought = facts.available && (seq == 0 || (seq > facts.valid_ledger_seq
                && facts.building != Some(seq)));
            let quorum = facts.validation_count >= facts.quorum;
            &&& done.contains(ValidationEffect::NoteAnchor(facts.point)) <==> facts.available && seq
                > 0 && seq >= facts.valid_ledger_seq && quorum
            &&& done.contains(ValidationEffect::Consider) <==> sought && facts.found
            &&& done.contains(ValidationEffect::Acquire(facts.point)) <==> sought && !facts.found
                && facts.inbound
            &&& done.contains(ValidationEffect::CheckTracking(seq)) <==> sought && !facts.found
                && seq > 0 && facts.valid_ledger_seq == 0 && quorum && facts.has_overlay
            &&& !facts.available ==> done.len() == 0
        }),
{
    let done = facts.effects();
    let first = facts.anchored();
    let second = facts.resolved();
    if facts.available {
        assert(first.len() > 0 ==> done[0] == first[0]);
        assert(second.len() > 0 ==> done[first.len() as int] == second[0]);
        assert(second.len() > 1 ==> done[(first.len() + 1) as int] == second[1]);
        if !facts.found && facts.observed().action == ObservedAction::Resolve {
            let measured = facts.measured();
            assert(measured.len() > 0 ==> second[0] == measured[0]);
            assert(facts.inbound ==> second[measured.len() as int] == ValidationEffect::Acquire(
                facts.point,
            ));
        }
    }
}

/// A ledger that is found may be taken for validated; one that is not is asked for.
pub proof fn searches_come_to_something(
    found: bool,
    seq: u32,
    valid: u32,
    count: usize,
    quorum: usize,
    r: Resolution,
)
    requires
        call_ensures(resolve_validation, (found, seq, valid, count, quorum), r),
    ensures
        found ==> r == Resolution::Consider,
        !found ==> (r matches Resolution::Acquire { check_tracking } && (check_tracking <==> seq > 0
            && valid == 0 && count >= quorum)),
{
}

/// A ledger is adopted exactly where it is safe on disk, has somebody to keep it, lies beyond the
/// validated one and was accepted; what stands against it is the first of these.
pub proof fn ledgers_are_adopted(facts: CandidateFacts, r: Adoption)
    requires
        call_ensures(
            adopt_ledger,
            (
                facts.provisional,
                facts.available,
                facts.seq,
                facts.current_valid_seq,
                facts.accepted,
            ),
            r,
        ),
    ensures
        facts.adoption() == r,
        r == Adoption::Adopted <==> !facts.provisional && facts.available && facts.seq
            > facts.current_valid_seq && facts.accepted,
        r == Adoption::Provisional <==> facts.provisional,
        r == Adoption::Unavailable <==> !facts.provisional && !facts.available,
        r == Adoption::NotAdvancing <==> !facts.provisional && facts.available && facts.seq
            <= facts.current_valid_seq,
{
}

/// A ledger that is adopted becomes the validated one, is found by everybody and saved, and the
/// fees and the publication follow it. The check that comes first counts its trusted validations
/// against as many as are needed: none where the node is alone.
pub proof fn what_is_done_with_an_adopted_ledger(facts: CandidateFacts)
    requires
        facts.sign_times@.len() <= usize::MAX,
    ensures
        ({
            let done = facts.effects();
            &&& facts.adoption() == Adoption::Adopted || facts.adoption() == Adoption::Rejected
                ==> done[0] == (PromotionEffect::CheckAccept {
                count: facts.sign_times@.len() as usize,
                needed: if facts.standalone {
                    0
                } else {
                    facts.quorum
                },
                now: facts.now,
            })
            &&& facts.adoption() == Adoption::Rejected ==> done.len() == 1
            &&& facts.adoption() == Adoption::Adopted ==> done.len() == 13 && done[1] == (
            PromotionEffect::SetValidLedger { sign_time: facts.sign_time() }) && done[2]
                == PromotionEffect::RequestPublicationAdvance && done[3]
                == PromotionEffect::SweepLocalTransactions && done[4]
                == PromotionEffect::InsertHistory && done[5]
                == PromotionEffect::RegisterForValidations && done[6] == (
            PromotionEffect::MarkComplete { seq: facts.seq }) && done[7]
                == PromotionEffect::NotifyValidated && done[8] == (
            PromotionEffect::SetValidatedCloseTime { sign_time: facts.sign_time() }) && done[9]
                == PromotionEffect::Save && done[10] == (PromotionEffect::SetRemoteFee {
                fee: facts.fee(),
            }) && done[11] == (PromotionEffect::UpdateBaseFee { base_fee: facts.base_fee })
                && done[12] == PromotionEffect::AdvancePublication
        }),
{
}

proof fn what_is_in_order_stays(values: Seq<u32>)
    requires
        sorted_by(values, at_most()),
    ensures
        in_order(values) == values,
{
    assert(total_ordering(at_most()));
    values.lemma_sort_by_ensures(at_most());
    vstd::seq_lib::lemma_sorted_unique(values, in_order(values), at_most());
}

/// Of values in ascending order the middle is the one in the middle, and half way between the two
/// in the middle where there are two.
pub proof fn the_middle_lies_in_the_middle(values: Seq<u32>, half: int)
    requires
        values.len() > 0,
        forall|i: int, j: int| 0 <= i < j < values.len() ==> values[i] <= values[j],
    ensures
        values.len() == 2 * half + 1 ==> middle(values) == values[half],
        values.len() == 2 * half ==> middle(values) == (values[half - 1] + values[half]) / 2,
{
    assert(sorted_by(values, at_most()));
    what_is_in_order_stays(values);
}

/// The validators signed at the middle of their times, and where they are no quorum the ledger
/// counts as old as it is.
pub proof fn sign_times_need_a_quorum(times: Vec<u32>, quorum: usize, fallback: u32, r: u32)
    requires
        call_ensures(median_validation_sign_time, (times, quorum, fallback), r),
    ensures
        quorum > 0 && times@.len() >= quorum ==> r == middle(times@),
        quorum == 0 || times@.len() < quorum ==> r == fallback,
{
}

/// The time that counts for a candidate is that of its validators where they are a quorum, and else
/// that at which it closed.
pub proof fn candidates_are_as_old_as_their_validations(facts: CandidateFacts)
    ensures
        facts.quorum > 0 && facts.sign_times@.len() >= facts.quorum ==> facts.sign_time() == middle(
            facts.sign_times@,
        ),
        facts.quorum == 0 || facts.sign_times@.len() < facts.quorum ==> facts.sign_time()
            == facts.close_time,
        facts.ledger_fees@.len() == 0 && facts.parent_fees@.len() == 0 ==> facts.fee()
            == facts.load_base,
{
}

/// The fee that counts is the one in the middle of those that the validators of a ledger and of its
/// parent ask for, and the upper of two.
pub proof fn the_fee_in_the_middle_counts(
    ledger_fees: Vec<u32>,
    parent_fees: Vec<u32>,
    load_base: u32,
    r: u32,
)
    requires
        call_ensures(remote_fee, (ledger_fees, parent_fees, load_base), r),
        forall|i: int, j: int|
            0 <= i < j < (ledger_fees@ + parent_fees@).len() ==> (ledger_fees@ + parent_fees@)[i]
                <= (ledger_fees@ + parent_fees@)[j],
    ensures
        ledger_fees@.len() + parent_fees@.len() == 0 ==> r == load_base,
        ledger_fees@.len() + parent_fees@.len() > 0 ==> r == (ledger_fees@ + parent_fees@)[(
        ledger_fees@.len() + parent_fees@.len()) as int / 2],
{
    let fees = ledger_fees@ + parent_fees@;
    assert(sorted_by(fees, at_most()));
    what_is_in_order_stays(fees);
}

/// Another ledger than the one that was built needs more validations than are needed, and lies
/// where its validations say, or where it is known to.
pub proof fn alternates_need_more_than_enough(
    candidates: Map<Uint256, ValidationCount>,
    known: Map<Uint256, u32>,
    needed: usize,
    valid: u32,
    best: Option<LedgerPoint>,
    other: Uint256,
)
    requires
        is_best(candidates, known, needed, valid, best),
    ensures
        best matches Some(point) ==> candidates.contains_key(point.hash)
            && candidates[point.hash].count > needed && point.seq > valid && (point.seq
            == candidates[point.hash].seq || (candidates[point.hash].seq == 0 && known.contains_key(
            point.hash,
        ) && point.seq == known[point.hash])),
        candidates.contains_key(other) && candidates[other].count > needed && candidates[other].seq
            > valid ==> (best matches Some(point) && point.seq >= candidates[other].seq),
        candidates.contains_key(other) && candidates[other].count > needed && candidates[other].seq
            == 0 && known.contains_key(other) && known[other] > valid ==> (best matches Some(point)
            && point.seq >= known[other]),
{
    if candidates.contains_key(other) && candidates[other].count > needed {
        let seq = candidate_seq(candidates, known, other);
        assert(seq > valid ==> crate::consensus::counts::eligible(
            candidates,
            known,
            other,
            needed,
            valid,
        ));
    }
}

/// More than enough is more than needed.
pub proof fn as_many_as_needed_are_not_enough(count: usize, needed: usize, r: bool)
    requires
        call_ensures(consensus_built_alternate_threshold_met, (count, needed), r),
    ensures
        r <==> count > needed,
{
}

/// A node that has connected follows the network as soon as it waits for no ledger, and follows it
/// in full once its ledger is a recent one.
pub proof fn nodes_are_lifted(need: bool, fresh: bool)
    ensures
        !need && fresh ==> promoted_mode(OperatingMode::Connected, need, fresh)
            == OperatingMode::Full && promoted_mode(OperatingMode::Syncing, need, fresh)
            == OperatingMode::Full && promoted_mode(OperatingMode::Tracking, need, fresh)
            == OperatingMode::Full,
        !need && !fresh ==> promoted_mode(OperatingMode::Connected, need, fresh)
            == OperatingMode::Tracking && promoted_mode(OperatingMode::Syncing, need, fresh)
            == OperatingMode::Tracking && promoted_mode(OperatingMode::Tracking, need, fresh)
            == OperatingMode::Tracking,
        need ==> forall|mode: OperatingMode| #[trigger] promoted_mode(mode, need, fresh) == mode,
        promoted_mode(OperatingMode::Full, need, fresh) == OperatingMode::Full,
        promoted_mode(OperatingMode::Disconnected, need, fresh) == OperatingMode::Disconnected,
{
}

/// The modes are ordered by how far they have come, and a ledger is recent for twice the precision
/// of its close time.
pub proof fn modes_are_ordered_and_ledgers_age(ledger: AcceptedLedger, now: u32)
    ensures
        OperatingMode::Disconnected.spec_rank() < OperatingMode::Connected.spec_rank()
            < OperatingMode::Syncing.spec_rank() < OperatingMode::Tracking.spec_rank()
            < OperatingMode::Full.spec_rank(),
        ledger.fresh(now) <==> now - ledger.close_time <= ledger.close_time_resolution
            + ledger.close_time_resolution,
{
}

/// A store that is full makes the node full, and another one connects it.
pub proof fn stores_lift_nodes(has_store: bool, mode: StoreMode, r: Option<OperatingMode>)
    requires
        call_ensures(set_shamap_store_operating_mode, (has_store, mode), r),
    ensures
        !has_store ==> r is None,
        has_store && mode == StoreMode::Full ==> r == Some(OperatingMode::Full),
        has_store && mode == StoreMode::Other ==> r == Some(OperatingMode::Connected),
{
}

/// Once a ledger is accepted the peers are told of it, it is validated where a validation waits for
/// it, and consensus goes on, whatever happened.
pub proof fn accepted_ledgers_are_told_and_validated(
    hash: Option<Uint256>,
    seq: u32,
    close_time: u32,
    pending: Option<PendingValidation>,
)
    ensures
        ({
            let done = spec_accepted_effects(hash, seq, close_time, pending);
            &&& done.last() == AcceptedEffect::Wake
            &&& hash is None ==> done.len() == 1
            &&& hash matches Some(closed) ==> {
                &&& done[0] == (AcceptedEffect::TellStatus { event: 2, have_correct_lcl: true })
                &&& pending is None ==> done.len() == 2
                &&& pending matches Some(waiting) ==> done.len() == 3 && (
                done[1] matches AcceptedEffect::Validate(own) && own.ledger_hash == closed
                    && own.ledger_seq == seq && own.consensus_hash == waiting.consensus_hash
                    && own.full == waiting.proposing && own.sign_time >= 1 && (close_time >= 1
                    ==> own.sign_time == close_time))
            }
        }),
{
}

/// What was agreed on is done by somebody, and the sequence behind it is told where it could be
/// handed on.
pub proof fn agreements_are_not_dropped(
    scheduled: bool,
    seq: u32,
    r: Result<u32, QueueStopping>,
    job: AcceptJob,
)
    requires
        call_ensures(accept_ledger, (scheduled, seq), r),
        call_ensures(spawn_consensus_accept_job, (scheduled,), job),
    ensures
        !scheduled ==> r is Err && job == AcceptJob::RunInPlace,
        scheduled ==> job == AcceptJob::Queued,
        scheduled && seq < u32::MAX ==> (r matches Ok(next) && next == seq + 1),
{
}

/// A ledger that consensus has built is registered for validations and kept in the history where it
/// has a hash; then nothing is being built any more, and, in a network, it may become the validated
/// one.
pub proof fn what_is_done_with_a_ledger_of_consensus(master: bool, standalone: bool, hash: Uint256)
    ensures
        ({
            let named = hash.hi != 0 || hash.lo != 0;
            let stored = spec_store_effects(master, hash);
            let recorded = spec_record_effects(master, standalone, hash);
            &&& stored.last() == BuiltEffect::RegisterForValidations
            &&& stored.contains(BuiltEffect::InsertHistory) <==> master && named
            &&& recorded.contains(BuiltEffect::ClearBuilding) <==> master
            &&& recorded.contains(BuiltEffect::RecordBuilt) <==> master && named && !standalone
            &&& recorded.contains(BuiltEffect::CheckAccept) <==> !standalone
            &&& !standalone ==> recorded.last() == BuiltEffect::CheckAccept
        }),
{
    let named = hash.hi != 0 || hash.lo != 0;
    assert(named <==> hash != Uint256::spec_zero());
    let stored = spec_store_effects(master, hash);
    let recorded = spec_record_effects(master, standalone, hash);
    if master && named {
        assert(stored[0] == BuiltEffect::InsertHistory);
        if !standalone {
            assert(recorded[1] == BuiltEffect::RecordBuilt);
        }
    }
    if master {
        assert(recorded[0] == BuiltEffect::ClearBuilding);
    }
    if !standalone {
        assert(recorded[recorded.len() - 1] == BuiltEffect::CheckAccept);
    }
}

/// The steps behind a ledger that consensus has built come in this order, and lead to the next
/// sequence.
pub proof fn steps_behind_a_built_ledger(seq: u32, master: bool)
    requires
        seq < u32::MAX,
    ensures
        ({
            let steps = spec_built_steps(seq, master);
            let n = steps.len() as int;
            &&& steps[0] == BuiltStep::Store
            &&& steps[1] == BuiltStep::Record
            &&& steps[2] == BuiltStep::ProcessQueue
            &&& steps[3] == BuiltStep::SweepLocalTransactions
            &&& steps[4] == BuiltStep::RebuildOpenLedger
            &&& master ==> steps[5] == BuiltStep::SetClosedSlot && n == 9
            &&& !master ==> n == 8
            &&& steps[n - 3] == BuiltStep::InstallClosed
            &&& steps[n - 2] matches BuiltStep::SetCurrentIndex(next) && next == seq + 1
            &&& steps[n - 1] == BuiltStep::SetQueueReport
        }),
{
}

/// A ledger that could not be saved, or stored, is forgotten, and the very same is asked for again.
pub proof fn lost_ledgers_are_asked_for_again(
    seq: u32,
    hash: Uint256,
    inbound: bool,
    identity: ProvisionalLedgerIdentity,
    master: bool,
    save: FailedSave,
    revocation: Revocation,
)
    requires
        call_ensures(failed_save, (seq, hash, inbound), save),
        call_ensures(revoke_provisional_inbound_ledger, (&identity, master), revocation),
    ensures
        save.clear_seq == seq,
        inbound ==> (save.acquire matches Some(point) && point.hash == hash && point.seq == seq),
        !inbound ==> save.acquire is None,
        identity.target_hash == identity.ledger_hash ==> revocation.validations && revocation.state
            && revocation.ledger_master == master,
        identity.target_hash != identity.ledger_hash ==> !revocation.validations
            && !revocation.state && !revocation.ledger_master,
{
}

/// A node on the wrong ledger says that it has lost its way; it needs no validations where it is
/// alone, and has no reason to jump to the ledger it is on, or to the one before.
pub proof fn what_a_node_says_and_needs(
    event: i32,
    right: bool,
    standalone: bool,
    quorum: usize,
    local: Uint256,
    parent: Uint256,
    preferred: Uint256,
    says: i32,
    needs: usize,
    stays: bool,
)
    requires
        call_ensures(consensus_status_event, (event, right), says),
        call_ensures(needed_validations, (standalone, quorum), needs),
        call_ensures(preferred_lcl_matches_local_or_parent, (local, parent, preferred), stays),
    ensures
        right ==> says == event,
        !right ==> says == 4,
        standalone ==> needs == 0,
        !standalone ==> needs == quorum,
        stays <==> preferred == local || preferred == parent,
{
}

/// A node offers the ledgers that it has, keeps and still fetches, and fetches so many before the
/// last closed one.
pub proof fn which_ledgers_are_offered(
    full: (u32, u32),
    online: Option<u32>,
    fetch: u32,
    closed: Option<u32>,
    depth: u32,
    offered: (u32, u32),
    earliest: u32,
)
    requires
        call_ensures(advertised_ledger_range, (full, online, fetch), offered),
        call_ensures(earliest_ledger_fetch, (closed, depth), earliest),
    ensures
        offered.1 == full.1,
        offered.0 >= full.0,
        offered.0 >= fetch,
        online matches Some(seq) ==> offered.0 >= seq,
        offered.0 == full.0 || offered.0 == fetch || online == Some(offered.0),
        closed is None ==> earliest == 0,
        closed matches Some(seq) ==> (seq >= depth ==> earliest + depth == seq) && (seq < depth
            ==> earliest == 0),
{
}

/// A round starts from the parent of the open ledger wherever that is known: as the closed ledger,
/// in the history, or as the validated one; and without a parent from the closed ledger, or the
/// validated one.
pub proof fn rounds_start_from_the_parent(
    parent: Uint256,
    closed: Option<LedgerPoint>,
    validated: Option<LedgerPoint>,
    history: Option<LedgerPoint>,
    previous: Option<LedgerPoint>,
    last: Option<LedgerPoint>,
)
    requires
        call_ensures(consensus_previous_ledger, (parent, closed, validated, history), previous),
        call_ensures(consensus_closed_ledger, (closed, validated), last),
    ensures
        closed is Some ==> last == closed,
        closed is None ==> last == validated,
        parent.hi == 0 && parent.lo == 0 ==> previous == last,
        parent.hi != 0 || parent.lo != 0 ==> {
            &&& last matches Some(point) ==> (point.hash == parent ==> previous == last)
            &&& !(last matches Some(point) && point.hash == parent) && history is Some ==> previous
                == history
            &&& !(last matches Some(point) && point.hash == parent) && history is None && (
            validated matches Some(point) && point.hash == parent) ==> previous == validated
            &&& history is None ==> (previous matches Some(point) ==> point.hash == parent)
        },
{
    assert((parent.hi == 0 && parent.lo == 0) <==> parent == Uint256::spec_zero());
}

/// The time at which a ledger closed is told of the validated, the published and the closed ledger,
/// and of no other.
pub proof fn close_times_are_told(
    seq: u32,
    validated: Option<ClosedAt>,
    published: Option<ClosedAt>,
    closed: Option<ClosedAt>,
    r: Option<i64>,
)
    requires
        call_ensures(transaction_close_time_seconds, (seq, validated, published, closed), r),
    ensures
        validated matches Some(at) ==> (at.seq == seq ==> r == Some(at.close_time as i64)),
        !(validated matches Some(at) && at.seq == seq) ==> (published matches Some(at) ==> (at.seq
            == seq ==> r == Some(at.close_time as i64))),
        !(validated matches Some(at) && at.seq == seq) && !(published matches Some(at) && at.seq
            == seq) ==> (closed matches Some(at) ==> (at.seq == seq ==> r == Some(
            at.close_time as i64,
        ))),
        !(validated matches Some(at) && at.seq == seq) && !(published matches Some(at) && at.seq
            == seq) && !(closed matches Some(at) && at.seq == seq) ==> r is None,
{
}

/// A ledger that is told to be validated is noted, kept where it may be, and the amendments, the
/// warnings and the store follow it.
pub proof fn what_is_done_with_a_validated_ledger(facts: ValidatedFacts)
    ensures
        ({
            let done = facts.effects();
            &&& done[0] == ValidatedEffect::Note
            &&& done.contains(ValidatedEffect::InsertHistory) <==> facts.has_ledger_master
                && facts.immutable
            &&& done.contains(ValidatedEffect::RegisterForValidations) <==> facts.has_ledger_master
                && facts.immutable
            &&& done.contains(ValidatedEffect::UpdateAmendments)
            &&& done.contains(ValidatedEffect::UpdateWarnings) <==> !facts.blocked
                && !facts.unsupported_enabled
            &&& done.contains(ValidatedEffect::NotifyStore) <==> facts.has_store
        }),
{
    let done = facts.effects();
    let k = facts.indexed().len() as int;
    let w = facts.warned().len() as int;
    if facts.has_ledger_master && facts.immutable {
        assert(done[1] == ValidatedEffect::InsertHistory);
        assert(done[2] == ValidatedEffect::RegisterForValidations);
    }
    assert(done[1 + k] == ValidatedEffect::UpdateAmendments);
    if w > 0 {
        assert(done[2 + k] == facts.warned()[0]);
    }
    if facts.has_store {
        assert(done[2 + k + w] == ValidatedEffect::NotifyStore);
    }
}

/// A ledger that is not known here tells how far the peers are where a quorum stands behind it, it
/// names its sequence, and nothing is validated yet; more validations never make it tell less.
pub proof fn unknown_ledgers_tell_how_far_peers_are(
    seq: u32,
    valid: u32,
    count: usize,
    more: usize,
    quorum: usize,
    told: bool,
    told_by_more: bool,
)
    requires
        call_ensures(
            should_check_tracking_on_validation_resolver_miss,
            (seq, valid, count, quorum),
            told,
        ),
        call_ensures(
            should_check_tracking_on_validation_resolver_miss,
            (seq, valid, more, quorum),
            told_by_more,
        ),
        count <= more,
    ensures
        told ==> told_by_more,
        seq == 0 ==> !told,
        valid > 0 ==> !told,
        count < quorum ==> !told,
        count == quorum && seq > 0 && valid == 0 ==> told,
{
}

/// A ledger has as many votes as there are validations of it, and is known where it has one.
pub proof fn validations_are_counted(validations: Seq<CurrentValidation>, hash: Uint256)
    requires
        validations.len() <= usize::MAX,
    ensures
        ({
            let of_it = validations.filter(|v: CurrentValidation| v.hash == hash);
            let counts = tally(validations);
            &&& counts.contains_key(hash) <==> of_it.len() > 0
            &&& counts.contains_key(hash) ==> counts[hash].count == of_it.len()
        }),
    decreases validations.len(),
{
    reveal(Seq::filter);
    if validations.len() > 0 {
        let rest = validations.drop_last();
        let pick = |v: CurrentValidation| v.hash == hash;
        validations_are_counted(rest, hash);
        assert(rest.filter(pick).len() <= rest.len()) by {
            rest.lemma_filter_len(pick);
        }
    }
}

/// The first validation of a ledger that names its sequence says what it is.
pub proof fn the_first_named_sequence_counts(
    validations: Seq<CurrentValidation>,
    hash: Uint256,
    first: int,
)
    requires
        0 <= first < validations.len(),
        validations[first].hash == hash,
        validations[first].seq != 0,
        forall|k: int|
            0 <= k < first && (#[trigger] validations[k]).hash == hash ==> validations[k].seq == 0,
    ensures
        tally(validations).contains_key(hash),
        tally(validations)[hash].seq == validations[first].seq,
    decreases validations.len(),
{
    let rest = validations.drop_last();
    if first < rest.len() {
        the_first_named_sequence_counts(rest, hash, first);
    } else {
        unnamed_sequences_stay_unnamed(rest, hash);
    }
}

proof fn unnamed_sequences_stay_unnamed(validations: Seq<CurrentValidation>, hash: Uint256)
    requires
        forall|k: int|
            0 <= k < validations.len() && (#[trigger] validations[k]).hash == hash
                ==> validations[k].seq == 0,
    ensures
        tally(validations).contains_key(hash) ==> tally(validations)[hash].seq == 0,
    decreases validations.len(),
{
    if validations.len() > 0 {
        let rest = validations.drop_last();
        assert forall|k: int| 0 <= k < rest.len() && (#[trigger] rest[k]).hash == hash implies rest[k].seq
            == 0 by {
            assert(validations[k].hash == hash);
        }
        unnamed_sequences_stay_unnamed(rest, hash);
        assert(validations[validations.len() - 1] == validations.last());
    }
}

} // verus!
