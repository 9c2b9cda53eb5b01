use xrpld_app::consensus::accept::{
    adopt_ledger, check_accept_hash_seq, consensus_built_check_accept, observe_validation,
    resolve_validation, Adoption, ObservedAction, Resolution, ValidationEffect, ValidationFacts,
};
use xrpld_app::consensus::acceptor::{
    accept_ledger, accepted_effects, spawn_consensus_accept_job, AcceptJob, AcceptedEffect,
    PendingValidation, QueueStopping, ACCEPTED_LEDGER,
};
use xrpld_app::consensus::built::{
    failed_save, on_consensus_built_ledger, record_consensus_built_ledger,
    revoke_provisional_inbound_ledger, store_consensus_ledger, BuiltEffect, BuiltStep,
    ProvisionalLedgerIdentity, Revocation,
};
use xrpld_app::consensus::counts::{
    best_alternate, consensus_built_alternate_threshold_met,
    consensus_built_current_validation_counts, CurrentValidation, LedgerPoint, ValidationCount,
};
use xrpld_app::consensus::median::{median_validation_sign_time, remote_fee, sort_values};
use xrpld_app::consensus::mode::{
    promote_operating_mode_after_accepted_ledger, set_shamap_store_operating_mode, AcceptedLedger,
    OperatingMode, StoreMode,
};
use xrpld_app::consensus::promote::{
    check_accept_ledger, on_validated_ledger, CandidateFacts, PromotionEffect, ValidatedEffect,
    ValidatedFacts,
};
use xrpld_app::consensus::status::{
    advertised_ledger_range, consensus_closed_ledger, consensus_previous_ledger,
    consensus_status_event, earliest_ledger_fetch, needed_validations,
    preferred_lcl_matches_local_or_parent, should_check_tracking_on_validation_resolver_miss,
    transaction_close_time_seconds, ClosedAt, LOST_SYNC,
};
use xrpld_app::ids::Uint256;
use xrpld_app::network::status::OwnValidation;
use xrpld_app::ord_map::OrdMap;

fn id(lo: u128) -> Uint256 {
    Uint256 { hi: 0, lo }
}

fn point(lo: u128, seq: u32) -> LedgerPoint {
    LedgerPoint { hash: id(lo), seq }
}

#[test]
fn the_middle_of_the_times() {
    assert_eq!(sort_values(&vec![3, 1, 2, 1]), vec![1, 1, 2, 3]);
    assert_eq!(median_validation_sign_time(vec![30, 10, 20], 3, 7), 20);
    assert_eq!(median_validation_sign_time(vec![40, 10, 21, 30], 3, 7), 25);
    assert_eq!(median_validation_sign_time(vec![30, 10], 3, 7), 7);
    assert_eq!(median_validation_sign_time(vec![30, 10], 0, 7), 7);
    assert_eq!(
        median_validation_sign_time(vec![u32::MAX, u32::MAX], 1, 7),
        u32::MAX
    );
}

#[test]
fn the_fee_in_the_middle() {
    assert_eq!(remote_fee(vec![300, 256], vec![512], 256), 300);
    assert_eq!(remote_fee(vec![300], vec![512], 256), 512);
    assert_eq!(remote_fee(vec![], vec![], 256), 256);
}

#[test]
fn validations_are_counted() {
    let validations = vec![
        CurrentValidation { hash: id(2), seq: 0 },
        CurrentValidation { hash: id(1), seq: 9 },
        CurrentValidation { hash: id(2), seq: 8 },
        CurrentValidation { hash: id(2), seq: 7 },
    ];
    let counts = consensus_built_current_validation_counts(&validations);
    assert_eq!(counts.get(id(2)), Some(ValidationCount { count: 3, seq: 8 }));
    assert_eq!(counts.get(id(1)), Some(ValidationCount { count: 1, seq: 9 }));
    assert_eq!(counts.get(id(3)), None);
    assert!(consensus_built_alternate_threshold_met(3, 2));
    assert!(!consensus_built_alternate_threshold_met(2, 2));
}

#[test]
fn the_ledger_furthest_ahead_is_looked_at() {
    let mut validations = vec![];
    for _ in 0..3 {
        validations.push(CurrentValidation { hash: id(1), seq: 12 });
        validations.push(CurrentValidation { hash: id(2), seq: 0 });
    }
    validations.push(CurrentValidation { hash: id(3), seq: 99 });
    let counts = consensus_built_current_validation_counts(&validations);
    let mut known: OrdMap<Uint256, u32> = OrdMap::new();
    assert_eq!(best_alternate(&counts, &known, 2, 10), Some(point(1, 12)));
    known.insert(id(2), 13);
    assert_eq!(best_alternate(&counts, &known, 2, 10), Some(point(2, 13)));
    assert_eq!(best_alternate(&counts, &known, 2, 13), None);
    assert_eq!(best_alternate(&counts, &known, 3, 10), None);
    let checks = consensus_built_check_accept(11, 10, 10, 2, &validations, &known);
    assert!(checks.built && checks.alternate == Some(point(2, 13)));
    let done = consensus_built_check_accept(11, 10, 11, 2, &validations, &known);
    assert!(done.built && done.alternate.is_none());
    let old = consensus_built_check_accept(10, 10, 10, 2, &validations, &known);
    assert!(!old.built && old.alternate.is_none());
}

#[test]
fn validations_come_in() {
    let seen = observe_validation(5, 6, 9, 3, None);
    assert!(seen.action == ObservedAction::Ignore && !seen.anchors);
    let same = observe_validation(6, 6, 9, 3, None);
    assert!(same.action == ObservedAction::Defer && same.anchors);
    let building = observe_validation(7, 6, 2, 3, Some(7));
    assert!(building.action == ObservedAction::Defer && !building.anchors);
    let new = observe_validation(7, 6, 3, 3, Some(8));
    assert!(new.action == ObservedAction::Resolve && new.anchors);
    let unnamed = observe_validation(0, 6, 3, 3, None);
    assert!(unnamed.action == ObservedAction::Resolve && !unnamed.anchors);
    assert_eq!(resolve_validation(true, 7, 0, 3, 3), Resolution::Consider);
    assert_eq!(
        resolve_validation(false, 7, 0, 3, 3),
        Resolution::Acquire { check_tracking: true }
    );
}

#[test]
fn something_is_done_about_a_validation() {
    let facts = ValidationFacts {
        available: true,
        point: point(4, 7),
        valid_ledger_seq: 0,
        validation_count: 3,
        quorum: 3,
        building: None,
        found: false,
        has_overlay: true,
        inbound: true,
    };
    assert_eq!(
        check_accept_hash_seq(&facts),
        vec![
            ValidationEffect::NoteAnchor(point(4, 7)),
            ValidationEffect::CheckTracking(7),
            ValidationEffect::Acquire(point(4, 7)),
        ]
    );
    assert_eq!(
        check_accept_hash_seq(&ValidationFacts { found: true, ..facts }),
        vec![ValidationEffect::NoteAnchor(point(4, 7)), ValidationEffect::Consider]
    );
    assert!(check_accept_hash_seq(&ValidationFacts { available: false, ..facts }).is_empty());
    let old = ValidationFacts { valid_ledger_seq: 8, ..facts };
    assert!(check_accept_hash_seq(&old).is_empty());
}

#[test]
fn ledgers_are_adopted() {
    assert_eq!(adopt_ledger(true, true, 9, 1, true), Adoption::Provisional);
    assert_eq!(adopt_ledger(false, false, 9, 1, true), Adoption::Unavailable);
    assert_eq!(adopt_ledger(false, true, 9, 9, true), Adoption::NotAdvancing);
    assert_eq!(adopt_ledger(false, true, 9, 8, false), Adoption::Rejected);
    assert_eq!(adopt_ledger(false, true, 9, 8, true), Adoption::Adopted);
}

fn candidate(seq: u32) -> CandidateFacts {
    CandidateFacts {
        provisional: false,
        available: true,
        seq,
        close_time: 500,
        current_valid_seq: 8,
        sign_times: vec![503, 501, 502],
        quorum: 3,
        standalone: false,
        now: 510,
        accepted: true,
        ledger_fees: vec![256],
        parent_fees: vec![300],
        load_base: 256,
        base_fee: 10,
    }
}

#[test]
fn a_ledger_becomes_the_validated_one() {
    let (adoption, effects) = check_accept_ledger(candidate(9));
    assert_eq!(adoption, Adoption::Adopted);
    assert_eq!(
        effects,
        vec![
            PromotionEffect::CheckAccept { count: 3, needed: 3, now: 510 },
            PromotionEffect::SetValidLedger { sign_time: 502 },
            PromotionEffect::RequestPublicationAdvance,
            PromotionEffect::SweepLocalTransactions,
            PromotionEffect::InsertHistory,
            PromotionEffect::RegisterForValidations,
            PromotionEffect::MarkComplete { seq: 9 },
            PromotionEffect::NotifyValidated,
            PromotionEffect::SetValidatedCloseTime { sign_time: 502 },
            PromotionEffect::Save,
            PromotionEffect::SetRemoteFee { fee: 300 },
            PromotionEffect::UpdateBaseFee { base_fee: 10 },
            PromotionEffect::AdvancePublication,
        ]
    );
    let (adoption, effects) = check_accept_ledger(candidate(8));
    assert!(adoption == Adoption::NotAdvancing && effects.is_empty());
    let alone = CandidateFacts {
        standalone: true,
        accepted: false,
        ..candidate(9)
    };
    let (adoption, effects) = check_accept_ledger(alone);
    assert_eq!(adoption, Adoption::Rejected);
    assert_eq!(
        effects,
        vec![PromotionEffect::CheckAccept { count: 3, needed: 0, now: 510 }]
    );
}

#[test]
fn a_validated_ledger_is_told_of() {
    let facts = ValidatedFacts {
        provisional: false,
        has_ledger_master: true,
        immutable: true,
        blocked: false,
        unsupported_enabled: true,
        has_store: true,
    };
    assert_eq!(
        on_validated_ledger(facts),
        Some(vec![
            ValidatedEffect::Note,
            ValidatedEffect::InsertHistory,
            ValidatedEffect::RegisterForValidations,
            ValidatedEffect::UpdateAmendments,
            ValidatedEffect::BlockAmendments,
            ValidatedEffect::NotifyStore,
        ])
    );
    let blocked = ValidatedFacts { blocked: true, immutable: false, has_store: false, ..facts };
    assert_eq!(
        on_validated_ledger(blocked),
        Some(vec![ValidatedEffect::Note, ValidatedEffect::UpdateAmendments])
    );
    assert_eq!(on_validated_ledger(ValidatedFacts { provisional: true, ..facts }), None);
}

#[test]
fn accepted_ledgers_lift_the_mode() {
    let ledger = AcceptedLedger { hash: id(1), close_time: 1_000, close_time_resolution: 10 };
    let lift = |published, mode, need, now| {
        promote_operating_mode_after_accepted_ledger(&ledger, published, mode, need, now)
    };
    let own = Some(id(1));
    assert_eq!(lift(own, OperatingMode::Connected, false, 1_020), Some(OperatingMode::Full));
    assert_eq!(lift(own, OperatingMode::Syncing, false, 1_021), Some(OperatingMode::Tracking));
    assert_eq!(lift(own, OperatingMode::Tracking, false, 1_021), None);
    assert_eq!(lift(own, OperatingMode::Connected, true, 1_000), None);
    assert_eq!(lift(own, OperatingMode::Disconnected, false, 1_000), None);
    assert_eq!(lift(Some(id(2)), OperatingMode::Connected, false, 1_000), None);
    assert_eq!(lift(None, OperatingMode::Connected, false, 1_000), None);
    assert!(OperatingMode::Full.at_least(OperatingMode::Syncing));
    assert!(!OperatingMode::Connected.at_least(OperatingMode::Syncing));
    assert_eq!(
        set_shamap_store_operating_mode(true, StoreMode::Full),
        Some(OperatingMode::Full)
    );
    assert_eq!(set_shamap_store_operating_mode(false, StoreMode::Full), None);
}

#[test]
fn work_is_handed_on() {
    assert_eq!(accept_ledger(true, 9), Ok(10));
    assert_eq!(accept_ledger(true, u32::MAX), Ok(u32::MAX));
    assert_eq!(accept_ledger(false, 9), Err(QueueStopping));
    let pending = PendingValidation { consensus_hash: id(5), proposing: true };
    assert_eq!(
        accepted_effects(Some(id(4)), 9, 0, Some(pending)),
        vec![
            AcceptedEffect::TellStatus { event: ACCEPTED_LEDGER, have_correct_lcl: true },
            AcceptedEffect::Validate(OwnValidation {
                sign_time: 1,
                ledger_hash: id(4),
                consensus_hash: id(5),
                ledger_seq: 9,
                full: true,
            }),
            AcceptedEffect::Wake,
        ]
    );
    assert_eq!(accepted_effects(None, 9, 0, Some(pending)), vec![AcceptedEffect::Wake]);
}

#[test]
fn a_ledger_was_built() {
    assert_eq!(
        store_consensus_ledger(true, id(1)),
        vec![BuiltEffect::InsertHistory, BuiltEffect::RegisterForValidations]
    );
    assert_eq!(
        store_consensus_ledger(true, Uint256::zero()),
        vec![BuiltEffect::RegisterForValidations]
    );
    assert_eq!(
        record_consensus_built_ledger(true, false, id(1)),
        vec![BuiltEffect::ClearBuilding, BuiltEffect::RecordBuilt, BuiltEffect::CheckAccept]
    );
    assert_eq!(
        record_consensus_built_ledger(true, true, id(1)),
        vec![BuiltEffect::ClearBuilding]
    );
    let steps = on_consensus_built_ledger(9, true);
    assert_eq!(steps[4], BuiltStep::RebuildOpenLedger);
    assert_eq!(steps[5], BuiltStep::SetClosedSlot);
    assert_eq!(steps[7], BuiltStep::SetCurrentIndex(10));
    assert_eq!(on_consensus_built_ledger(9, false).len(), 8);
}

#[test]
fn what_could_not_be_stored_is_forgotten() {
    let failed = failed_save(9, id(3), true);
    assert_eq!((failed.clear_seq, failed.acquire), (9, Some(point(3, 9))));
    assert_eq!(failed_save(9, id(3), false).acquire, None);
    let identity = ProvisionalLedgerIdentity {
        target_hash: id(3),
        ledger_hash: id(3),
        ledger_seq: 9,
        acquisition_id: 1,
        store_generation: 1,
        persistence_generation: 1,
    };
    assert_eq!(
        revoke_provisional_inbound_ledger(&identity, false),
        Revocation { ledger_master: false, validations: true, state: true }
    );
    let other = ProvisionalLedgerIdentity { ledger_hash: id(4), ..identity };
    assert_eq!(
        revoke_provisional_inbound_ledger(&other, true),
        Revocation { ledger_master: false, validations: false, state: false }
    );
}

#[test]
fn what_a_node_says_of_itself() {
    assert_eq!(consensus_status_event(2, true), 2);
    assert_eq!(consensus_status_event(2, false), LOST_SYNC);
    assert_eq!(advertised_ledger_range((10, 90), Some(20), 15), (20, 90));
    assert_eq!(advertised_ledger_range((10, 90), None, 5), (10, 90));
    assert_eq!(needed_validations(true, 5), 0);
    assert_eq!(needed_validations(false, 5), 5);
    assert!(should_check_tracking_on_validation_resolver_miss(7, 0, 5, 5));
    assert!(!should_check_tracking_on_validation_resolver_miss(0, 0, 5, 5));
    assert!(!should_check_tracking_on_validation_resolver_miss(7, 1, 5, 5));
    assert!(preferred_lcl_matches_local_or_parent(id(1), id(2), id(2)));
    assert!(!preferred_lcl_matches_local_or_parent(id(1), id(2), id(3)));
    assert_eq!(earliest_ledger_fetch(Some(100), 30), 70);
    assert_eq!(earliest_ledger_fetch(Some(10), 30), 0);
    assert_eq!(earliest_ledger_fetch(None, 30), 0);
}

#[test]
fn where_the_next_round_starts() {
    let closed = Some(point(1, 5));
    let validated = Some(point(2, 4));
    assert_eq!(consensus_closed_ledger(closed, validated), closed);
    assert_eq!(consensus_closed_ledger(None, validated), validated);
    let from = |parent, closed, in_history| {
        consensus_previous_ledger(parent, closed, validated, in_history)
    };
    assert_eq!(from(Uint256::zero(), closed, None), closed);
    assert_eq!(from(id(1), closed, None), closed);
    assert_eq!(from(id(3), closed, Some(point(3, 3))), Some(point(3, 3)));
    assert_eq!(from(id(2), closed, None), validated);
    assert_eq!(from(id(9), closed, None), None);
    let at = |seq, close_time| Some(ClosedAt { seq, close_time });
    assert!(transaction_close_time_seconds(4, at(4, 70), at(3, 60), at(5, 80)).is_some());
    assert_eq!(transaction_close_time_seconds(9, at(4, 70), at(3, 60), at(5, 80)), None);
}

#[test]
fn an_agreement_is_never_dropped() {
    assert_eq!(spawn_consensus_accept_job(true), AcceptJob::Queued);
    assert_eq!(spawn_consensus_accept_job(false), AcceptJob::RunInPlace);
}
