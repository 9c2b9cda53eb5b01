//! What holds of everything that a node tells others.
use vstd::prelude::*;
use crate::consensus::mode::OperatingMode;
use crate::ids::{Uint256, ViewError};
use crate::network::closed::{
    ClosedEffect, ClosedFacts, ClosedLedgerHistoryAction, FetcherAttachment, FetcherFacts,
    ledger_with_node_fetcher,
};
use crate::network::fees::{FeeChangeReporter, ServerFeeSummary, spec_mul_div, spec_payload};
use crate::network::lists::{
    ListBroadcast, ListPeer, PublishedList, SentList, broadcast_v1_validator_list, published_list,
    receivers,
};
use crate::network::manifests::{CachedManifest, ManifestLimits, places, spec_selected};
use crate::network::published::{PublishedEffect, spec_published_effects, told_transactions};
use crate::network::relay::{
    ProposedTransaction, RelayEnvelope, RelayUntrustedPolicy, publish_proposed_transaction,
    queue_relay_envelope,
};
use crate::network::status::{
    ClosedLedgerFacts, LedgerClosedNotification, LoadFees, ModeChangePayload, ModeLabel,
    OwnValidation, StatusChange, ToldHeader, broadcast_consensus_status_change,
    ledger_closed_notification, mode_change_payload, network_ops_operating_mode_string_for_admin,
    own_validation, validation_seen_time,
};
use crate::network::trust::{
    ListDisposition, ListFollowup, TrustEffect, TrustFacts, apply_validator_lists,
    persist_manifest_caches,
};
use crate::ter::Ter;

verus! {

/// A closed ledger has the sequences start anew where it is another than before, is noted and,
/// where it may be kept and is not yet, goes into the history; the peers greet with it, and the
/// transactions that wait are scheduled in any case.
pub proof fn what_is_done_with_a_closed_ledger(facts: ClosedFacts)
    ensures
        facts.provisional ==> facts.effects().len() == 0,
        !facts.provisional ==> {
            let done = facts.effects();
            let kept = facts.history == ClosedLedgerHistoryAction::Store && facts.has_ledger_master
                && facts.immutable;
            &&& done.contains(ClosedEffect::ClearAccountSeqs) <==> facts.previous_hash != Some(
                facts.header.hash,
            )
            &&& done.contains(ClosedEffect::NoteClosed)
            &&& done.contains(ClosedEffect::UpdateAmendments)
            &&& done.contains(
                ClosedEffect::SetHandshake { closed: facts.header.hash, parent: facts.parent_hash },
            ) <==> facts.has_overlay
            &&& done.contains(ClosedEffect::InsertHistory) <==> kept
            &&& done.contains(ClosedEffect::SweepHistory) <==> kept
            &&& done.contains(ClosedEffect::RegisterForValidations) <==> kept
            &&& done.last() == ClosedEffect::ScheduleTransactions
        },
{
    if !facts.provisional {
        let done = facts.effects();
        let c = facts.cleared().len() as int;
        let g = facts.greeted().len() as int;
        if c > 0 {
            assert(done[0] == ClosedEffect::ClearAccountSeqs);
        }
        assert(done[c] == ClosedEffect::NoteClosed);
        assert(done[c + 1] == ClosedEffect::UpdateAmendments);
        if facts.has_overlay {
            assert(done[c + 2] is SetHandshake);
        }
        if facts.stored().len() > 0 {
            assert(done[c + 2 + g] == ClosedEffect::InsertHistory);
            assert(done[c + 3 + g] == ClosedEffect::SweepHistory);
            assert(done[c + 4 + g] == ClosedEffect::RegisterForValidations);
        }
    }
}

/// A ledger is given of the store what it has not, and is left alone where it has all it needs, is
/// not stored at all, or the store has nothing.
pub proof fn what_a_ledger_is_given(facts: FetcherFacts, r: Option<FetcherAttachment>)
    requires
        call_ensures(ledger_with_node_fetcher, (&facts,), r),
    ensures
        ({
            let complete = facts.has_fetcher && facts.has_writer_result
                && facts.has_batch_writer_result;
            let stored = facts.state_backed || facts.tx_backed;
            let gives = facts.store_fetcher || facts.store_writer || facts.store_writer_result
                || facts.store_batch_writer_result;
            &&& r is Some <==> !complete && stored && gives
            &&& r matches Some(given) ==> {
                &&& given.fetcher == facts.store_fetcher
                &&& given.writer <==> facts.store_writer && !facts.has_writer
                &&& given.writer_result <==> facts.store_writer_result && !facts.has_writer_result
                &&& given.batch_writer_result <==> facts.store_batch_writer_result
                    && !facts.has_batch_writer_result
            }
        }),
{
}

/// A product divided is the whole part of the quotient, wherever that fits.
pub proof fn quotients_are_whole_parts(value: u64, mul: u64, div: u64)
    requires
        div > 0,
    ensures
        spec_mul_div(value, mul, div) matches Some(quotient) ==> quotient * div <= value * mul < (
        quotient + 1) * div,
        value * mul < div * 0x1_0000_0000_0000_0000 ==> spec_mul_div(value, mul, div) is Some,
{
    let all = value * mul;
    let d = div as int;
    assert(all >= 0) by (nonlinear_arith)
        requires
            all == value * mul,
    ;
    vstd::arithmetic::div_mod::lemma_fundamental_div_mod(all, d);
    vstd::arithmetic::div_mod::lemma_mod_bound(all, d);
    vstd::arithmetic::div_mod::lemma_div_pos_is_pos(all, d);
    let q = all / d;
    assert(q * d == d * q) by (nonlinear_arith);
    assert((q + 1) * d == d * q + d) by (nonlinear_arith);
    if all < d * 0x1_0000_0000_0000_0000 {
        assert(q < 0x1_0000_0000_0000_0000) by (nonlinear_arith)
            requires
                d * q <= all,
                all < d * 0x1_0000_0000_0000_0000,
                d > 0,
        ;
    }
}

/// Fees are raised by the load of the server or by what the open ledger asks for above the
/// reference, whichever is more; clients are told each part as it is.
pub proof fn what_fees_are_told(summary: ServerFeeSummary, mode: OperatingMode)
    requires
        summary.reference_fee_level > 0,
    ensures
        ({
            let told = spec_payload(summary, mode);
            &&& told.server_status == mode
            &&& told.load_base == summary.load_base_server
            &&& told.load_factor_server == summary.load_factor_server
            &&& told.load_factor == summary.load_factor_server || told.load_factor
                == summary.escalation()
            &&& told.load_factor >= summary.load_factor_server
            &&& told.load_factor >= summary.escalation()
            &&& told.load_factor_fee_escalation == summary.open_ledger_fee_level
            &&& told.load_factor_fee_queue == summary.min_processing_fee_level
            &&& told.load_factor_fee_reference == summary.reference_fee_level
            &&& told.base_fee == summary.base_fee
        }),
        spec_mul_div(
            summary.open_ledger_fee_level,
            summary.load_base_server as u64,
            summary.reference_fee_level,
        ) matches Some(raised) ==> summary.escalation() == raised,
        spec_mul_div(
            summary.open_ledger_fee_level,
            summary.load_base_server as u64,
            summary.reference_fee_level,
        ) is None ==> summary.escalation() == u64::MAX,
{
}

/// Fees are told where there is somebody to tell them and they are not what was told last.
pub proof fn when_fees_are_told(
    reporter: FeeChangeReporter,
    publisher: bool,
    summary: ServerFeeSummary,
)
    ensures
        reporter.spec_due(publisher, summary) <==> publisher && (
        reporter.last_summary matches Some(last) ==> last != summary),
{
}

/// A peer is sent a list where it takes lists, has an older one or none, and did not send it; and
/// nobody else is.
pub proof fn who_is_sent_a_list(peers: Seq<ListPeer>, skip: Seq<u64>, sequence: u64, i: int)
    requires
        0 <= i < peers.len(),
    ensures
        peers[i].propagates && !skip.contains(peers[i].id) && (peers[i].sequence matches Some(last)
            ==> last < sequence) && sequence > 0 ==> receivers(peers, skip, sequence).contains(
            peers[i].id,
        ),
    decreases peers.len(),
{
    let all = receivers(peers, skip, sequence);
    let rest = receivers(peers.drop_last(), skip, sequence);
    if peers[i].propagates && !skip.contains(peers[i].id) && (peers[i].sequence matches Some(last)
        ==> last < sequence) && sequence > 0 {
        if i == peers.len() - 1 {
            assert(all[all.len() - 1] == peers[i].id);
        } else {
            who_is_sent_a_list(peers.drop_last(), skip, sequence, i);
            let k = choose|k: int| 0 <= k < rest.len() && rest[k] == peers[i].id;
            assert(all[k] == peers[i].id);
        }
    }
}

/// Whoever is sent a list is one of the peers, takes lists and lacks it.
pub proof fn nobody_else_is_sent_a_list(
    peers: Seq<ListPeer>,
    skip: Seq<u64>,
    sequence: u64,
    id: u64,
)
    requires
        receivers(peers, skip, sequence).contains(id),
    ensures
        exists|i: int|
            0 <= i < peers.len() && (#[trigger] peers[i]).id == id && peers[i].propagates && (
            peers[i].sequence matches Some(last) ==> last < sequence) && sequence > 0,
    decreases peers.len(),
{
    let all = receivers(peers, skip, sequence);
    let rest = receivers(peers.drop_last(), skip, sequence);
    let k = choose|k: int| 0 <= k < all.len() && all[k] == id;
    if k < rest.len() {
        assert(rest[k] == id);
        nobody_else_is_sent_a_list(peers.drop_last(), skip, sequence, id);
        let i = choose|i: int|
            0 <= i < peers.drop_last().len() && (#[trigger] peers.drop_last()[i]).id == id
                && peers.drop_last()[i].propagates && (
            peers.drop_last()[i].sequence matches Some(last) ==> last < sequence) && sequence > 0;
        assert(peers[i].id == id);
    } else {
        assert(peers[peers.len() - 1].id == id);
    }
}

/// A list is handed on in its first version and with its own signature.
pub proof fn lists_are_handed_on_as_they_are(broadcast: ListBroadcast, r: Option<SentList>)
    requires
        call_ensures(broadcast_v1_validator_list, (broadcast,), r),
    ensures
        r matches Some(sent) ==> sent.version == 1 && broadcast.has_publisher
            && broadcast.has_overlay && (broadcast.signature matches Some(signature)
            && sent.signature@ == signature@) && (broadcast.to_skip matches Some(skip)
            && sent.receivers@ == receivers(broadcast.peers@, skip@, broadcast.sequence)),
{
}

/// A manifest is handed on, as far as there is room, where it is no longer than it may be and makes
/// one.
pub proof fn which_manifests_are_handed_on(
    manifests: Seq<CachedManifest>,
    listed: bool,
    i: int,
)
    requires
        0 <= i < manifests.len(),
        manifests[i].len <= 358,
        manifests[i].well_formed,
        manifests[i].listed == listed,
    ensures
        places(manifests, listed).contains(manifests[i].index),
    decreases manifests.len(),
{
    let all = places(manifests, listed);
    let rest = places(manifests.drop_last(), listed);
    if i == manifests.len() - 1 {
        assert(all[all.len() - 1] == manifests[i].index);
    } else {
        which_manifests_are_handed_on(manifests.drop_last(), listed, i);
        let k = choose|k: int| 0 <= k < rest.len() && rest[k] == manifests[i].index;
        assert(all[k] == manifests[i].index);
    }
}

/// No manifest is handed on that is too long or makes none, nor for the wrong kind of validator.
pub proof fn which_manifests_are_not_handed_on(
    manifests: Seq<CachedManifest>,
    listed: bool,
    index: usize,
)
    requires
        places(manifests, listed).contains(index),
    ensures
        exists|i: int|
            0 <= i < manifests.len() && (#[trigger] manifests[i]).index == index && manifests[i].len
                <= 358 && manifests[i].well_formed && manifests[i].listed == listed,
    decreases manifests.len(),
{
    let all = places(manifests, listed);
    let rest = places(manifests.drop_last(), listed);
    let k = choose|k: int| 0 <= k < all.len() && all[k] == index;
    if k < rest.len() {
        assert(rest[k] == index);
        which_manifests_are_not_handed_on(manifests.drop_last(), listed, index);
        let i = choose|i: int|
            0 <= i < manifests.drop_last().len() && (#[trigger] manifests.drop_last()[i]).index
                == index && manifests.drop_last()[i].len <= 358
                && manifests.drop_last()[i].well_formed && manifests.drop_last()[i].listed
                == listed;
        assert(manifests[i].index == index);
    } else {
        assert(manifests[manifests.len() - 1].index == index);
    }
}

/// Manifests of listed validators come before the others, each kind in its order and up to its
/// limit.
pub proof fn listed_manifests_come_first(
    manifests: Seq<CachedManifest>,
    limits: ManifestLimits,
    i: int,
)
    ensures
        ({
            let listed = places(manifests, true);
            let others = places(manifests, false);
            let sent = spec_selected(manifests, limits);
            let first = if listed.len() <= limits.max_trusted_count {
                listed.len() as int
            } else {
                limits.max_trusted_count as int
            };
            &&& 0 <= i < first ==> sent[i] == listed[i]
            &&& 0 <= i < others.len() && i < limits.max_untrusted_count ==> sent[first + i]
                == others[i]
            &&& others.len() <= limits.max_untrusted_count ==> sent.len() == first + others.len()
            &&& others.len() > limits.max_untrusted_count ==> sent.len() == first
                + limits.max_untrusted_count
        }),
{
}

/// A published ledger is noted; whoever listens for closed ledgers is told, and the subscribers of
/// the ledger and of each of its transactions, where there are any.
pub proof fn who_is_told_of_a_published_ledger(
    listener: bool,
    subscribers: bool,
    transactions: Option<usize>,
)
    ensures
        ({
            let told = spec_published_effects(listener, subscribers, transactions);
            let at: int = if listener {
                2
            } else {
                1
            };
            &&& told[0] == PublishedEffect::Note
            &&& listener ==> told[1] == PublishedEffect::TellCloseListener
            &&& subscribers ==> told[at] == PublishedEffect::TellLedgerStream
            &&& !subscribers ==> told.len() == at
            &&& subscribers && transactions is None ==> told.len() == at + 1
            &&& subscribers ==> (transactions matches Some(count) ==> told.skip(at + 1)
                == told_transactions(count as int))
        }),
{
    let told = spec_published_effects(listener, subscribers, transactions);
    if let Some(count) = transactions {
        if subscribers {
            let at: int = if listener {
                2
            } else {
                1
            };
            assert(told.skip(at + 1) =~= told_transactions(count as int));
        }
    }
}

/// A transaction is handed on as it is, as a current one, with the time of this node and what it
/// made of it; clients are told of it unless it is a part of a batch, and never as final.
pub proof fn how_transactions_are_handed_on(
    raw: Vec<u8>,
    now: u64,
    queued: bool,
    inner: bool,
    publisher: bool,
    index: u32,
    hash: Uint256,
    result: Ter,
    envelope: RelayEnvelope,
    told: Option<ProposedTransaction>,
)
    requires
        call_ensures(queue_relay_envelope, (raw, now, queued), envelope),
        call_ensures(publish_proposed_transaction, (inner, publisher, index, hash, result), told),
    ensures
        envelope.raw_transaction@ == raw@,
        envelope.status == 2,
        envelope.receive_timestamp == Some(now),
        envelope.deferred == Some(queued),
        told is Some <==> publisher && !inner,
        told matches Some(proposed) ==> proposed.hash == hash && proposed.engine_result == result
            && proposed.ledger_current_index == index && !proposed.validated,
        RelayUntrustedPolicy::All.relays(),
        !RelayUntrustedPolicy::Trusted.relays(),
        !RelayUntrustedPolicy::DropUntrusted.relays(),
{
}

/// The trust in validators is brought up to date in this order, and those who count validations and
/// amendments are told where somebody joined or left.
pub proof fn how_trust_is_refreshed(facts: TrustFacts)
    ensures
        ({
            let done = facts.effects();
            let moved = facts.added > 0 || facts.removed > 0;
            &&& done[0] == TrustEffect::SetNegativeUnl
            &&& done[1] == TrustEffect::UpdateTrusted
            &&& done[2] == TrustEffect::SetUnlBlocked(facts.unl_blocked)
            &&& moved ==> done.len() == 5 && done[3] == TrustEffect::TellValidations && done[4]
                == TrustEffect::TellAmendments
            &&& !moved ==> done.len() == 3
        }),
{
}

/// Lists are handed on where the best of them is no worse than one that is known, and kept where
/// their publisher is; and manifests are kept of both kinds, the first failure counts.
pub proof fn what_is_done_with_lists(
    best: ListDisposition,
    known: ListDisposition,
    publisher: bool,
    validators: Result<(), ViewError>,
    publishers: Result<(), ViewError>,
    followup: ListFollowup,
    kept: Result<(), ViewError>,
)
    requires
        call_ensures(apply_validator_lists, (best, known, publisher), followup),
        call_ensures(persist_manifest_caches, (validators, publishers), kept),
    ensures
        followup.broadcast <==> best.rank <= known.rank,
        followup.persist == publisher,
        validators is Err ==> kept == validators,
        validators is Ok ==> kept == publishers,
{
}

/// The peers are told of the very ledger, of what happened, or that the node lost its way, and of
/// the ledgers that it has.
pub proof fn what_peers_are_told(
    header: ToldHeader,
    event: i32,
    right: bool,
    range: Option<(u32, u32)>,
    online: Option<u32>,
    fetch: u32,
    time: u64,
    told: StatusChange,
)
    requires
        call_ensures(
            broadcast_consensus_status_change,
            (&header, event, right, range, online, fetch, time),
            told,
        ),
    ensures
        told.ledger_seq == header.seq,
        told.ledger_hash == header.hash,
        told.ledger_hash_previous == header.parent_hash,
        told.network_time == time,
        right ==> told.new_event == event,
        !right ==> told.new_event == 4,
        range is None ==> told.first_seq == 0 && told.last_seq == 0,
        range matches Some(full) ==> told.last_seq == full.1 && told.first_seq >= full.0
            && told.first_seq >= fetch && (online matches Some(seq) ==> told.first_seq >= seq) && (
        told.first_seq == full.0 || told.first_seq == fetch || online == Some(told.first_seq)),
{
}

/// A change of the mode is told with the load and the fee of the closed ledger, or the validated
/// one; no change is not told. Only the administrator hears that the node proposes.
pub proof fn how_modes_are_told(
    previous: OperatingMode,
    mode: OperatingMode,
    fees: LoadFees,
    closed: Option<u64>,
    validated: Option<u64>,
    admin: bool,
    proposing: bool,
    told: Option<ModeChangePayload>,
    label: ModeLabel,
)
    requires
        call_ensures(mode_change_payload, (previous, mode, fees, closed, validated), told),
        call_ensures(network_ops_operating_mode_string_for_admin, (admin, mode, proposing), label),
    ensures
        told is Some <==> previous != mode,
        told matches Some(change) ==> {
            &&& change.server_status == mode
            &&& change.load_base == fees.load_base
            &&& change.load_factor >= fees.local_fee && change.load_factor >= fees.cluster_fee
            &&& change.load_factor == fees.local_fee || change.load_factor == fees.cluster_fee
            &&& closed matches Some(fee) ==> change.base_fee == fee
            &&& closed is None ==> (validated matches Some(fee) ==> change.base_fee == fee)
            &&& closed is None && validated is None ==> change.base_fee == 0
        },
        label == ModeLabel::Proposing <==> admin && proposing && mode == OperatingMode::Full,
        label != ModeLabel::Proposing ==> label == ModeLabel::Mode(mode),
{
}

/// A closed ledger is told as it is; its transactions count as none where they cannot be read, the
/// units of fees are told while there are any, and which ledgers the node has from the time it
/// synchronizes.
pub proof fn how_closed_ledgers_are_told(
    ledger: ClosedLedgerFacts,
    network: u32,
    units: u32,
    mode: OperatingMode,
    master: bool,
    told: LedgerClosedNotification,
)
    requires
        call_ensures(ledger_closed_notification, (&ledger, network, units, mode, master), told),
    ensures
        told.ledger_index == ledger.seq,
        told.ledger_hash == ledger.hash,
        told.ledger_time == ledger.close_time,
        told.network_id == network,
        told.fee_base == ledger.fee_base,
        told.reserve_base == ledger.reserve_base,
        told.reserve_inc == ledger.reserve_inc,
        ledger.txn_count matches Some(count) ==> told.txn_count == count,
        ledger.txn_count is None ==> told.txn_count == 0,
        ledger.xrp_fees_enabled ==> told.fee_ref is None,
        !ledger.xrp_fees_enabled ==> told.fee_ref == Some(units as u64),
        told.validated_ledgers <==> master && (mode == OperatingMode::Syncing || mode
            == OperatingMode::Tracking || mode == OperatingMode::Full),
{
}

/// A validation was seen when it says, or else now; and this node signs for the very ledger that it
/// has accepted, when that closed.
pub proof fn how_validations_are_timed(
    seen: u32,
    now: u32,
    close_time: u32,
    hash: Uint256,
    agreed: Uint256,
    seq: u32,
    proposing: bool,
    r: u32,
    own: OwnValidation,
)
    requires
        call_ensures(validation_seen_time, (seen, now), r),
        call_ensures(own_validation, (close_time, hash, agreed, seq, proposing), own),
    ensures
        seen > 0 ==> r == seen,
        seen == 0 ==> r == now,
        own.ledger_hash == hash,
        own.consensus_hash == agreed,
        own.ledger_seq == seq,
        own.full == proposing,
        close_time > 0 ==> own.sign_time == close_time,
        close_time == 0 ==> own.sign_time == 1,
{
}

/// A list is published just where its manifest, its contents and its signature are all there, and
/// then it is made of these.
pub proof fn lists_are_published_whole(
    manifest: Option<String>,
    blob: Option<String>,
    signature: Option<String>,
    r: Option<PublishedList>,
)
    requires
        call_ensures(published_list, (manifest, blob, signature), r),
    ensures
        r is Some <==> manifest is Some && blob is Some && signature is Some,
        r matches Some(list) ==> manifest == Some(list.manifest) && blob == Some(list.blob)
            && signature == Some(list.signature),
{
}

/// A change of the fees is told where somebody tells it and it is new, and remembered only where it
/// was told.
pub proof fn told_fees_are_remembered(
    reporter: &mut FeeChangeReporter,
    publisher: bool,
    summary: ServerFeeSummary,
    scheduled: bool,
    r: bool,
)
    requires
        call_ensures(
            FeeChangeReporter::report_fee_change,
            (reporter, publisher, summary, scheduled),
            r,
        ),
    ensures
        old(reporter).last_summary == Some(summary) ==> !r,
        !publisher || !scheduled ==> !r,
        publisher && scheduled && old(reporter).last_summary != Some(summary) ==> r,
        r ==> final(reporter).last_summary == Some(summary),
        !r ==> final(reporter).last_summary == old(reporter).last_summary,
{
}

} // verus!
