use xrpld_app::consensus::mode::OperatingMode;
use xrpld_app::consensus::status::LOST_SYNC;
use xrpld_app::ids::{AccountID, Uint256, ViewError};
use xrpld_app::network::closed::{
    ledger_with_node_fetcher, on_closed_ledger, ClosedEffect, ClosedFacts,
    ClosedLedgerHistoryAction, FetcherFacts,
};
use xrpld_app::network::fees::{
    fee_change_payload, mul_div, FeeChangeReporter, ServerFeeSummary,
};
use xrpld_app::network::lists::{
    broadcast_v1_validator_list, list_receivers, published_list, read_published_list,
    ListBroadcast, ListPeer, LIST_VERSION,
};
use xrpld_app::network::manifests::{manifests_message, CachedManifest, ManifestLimits};
use xrpld_app::network::published::{on_published_ledger, PublishedEffect};
use xrpld_app::network::relay::{
    publish_proposed_transaction, queue_relay_envelope, RelayUntrustedPolicy, STATUS_CURRENT,
};
use xrpld_app::network::status::{
    broadcast_consensus_status_change, ledger_closed_notification, mode_change_payload,
    network_ops_operating_mode_string_for_admin, own_validation, validation_seen_time,
    ClosedLedgerFacts, LoadFees, ModeLabel, ToldHeader,
};
use xrpld_app::network::trust::{
    apply_validator_lists, persist_manifest_caches, refresh_validator_trust_for_consensus,
    ListDisposition,
    TrustEffect, TrustFacts,
};
use xrpld_app::queue::sandbox::{BaseHeader, OpenHeader};
use xrpld_app::root::application::{ApplicationRoot, LedgerHead, PendingReplayStartup};
use xrpld_app::root::components::Components;
use xrpld_app::root::options::{ApplicationRootOptions, NodeConfig, ServiceSetup, StartUpType};
use xrpld_app::root::startup::{
    attach_server_ports_from_config, fd_required, load_cluster_nodes_from_config,
    starts_sntp_client, OpenFiles, StartError,
};
use xrpld_app::ter::Ter;

const ERROR: ViewError = ViewError { id: 4 };

fn id(lo: u128) -> Uint256 {
    Uint256 { hi: 0, lo }
}

fn summary() -> ServerFeeSummary {
    ServerFeeSummary {
        load_factor_server: 300,
        load_base_server: 256,
        base_fee: 10,
        min_processing_fee_level: 256,
        open_ledger_fee_level: 512,
        reference_fee_level: 256,
    }
}

#[test]
fn fees_are_told_when_they_change() {
    assert_eq!(mul_div(512, 256, 256), Some(512));
    assert_eq!(mul_div(u64::MAX, u64::MAX, u64::MAX), Some(u64::MAX));
    assert_eq!(mul_div(u64::MAX, 2, 1), None);
    assert_eq!(mul_div(7, 3, 2), Some(10));
    assert_eq!(summary().load_factor(), 512);
    let loaded = ServerFeeSummary { load_factor_server: 900, ..summary() };
    assert_eq!(loaded.load_factor(), 900);
    let steep = ServerFeeSummary { open_ledger_fee_level: u64::MAX, reference_fee_level: 1, ..summary() };
    assert_eq!(steep.load_factor(), u64::MAX);
    let payload = fee_change_payload(summary(), OperatingMode::Full);
    assert_eq!((payload.load_base, payload.load_factor), (256, 512));
    assert_eq!(payload.load_factor_fee_escalation, 512);
    assert_eq!(payload.load_factor_fee_queue, 256);
    let mut reporter = FeeChangeReporter::new();
    assert!(!reporter.report_fee_change(false, summary(), true));
    assert!(!reporter.report_fee_change(true, summary(), false));
    assert!(reporter.report_fee_change(true, summary(), true));
    assert!(!reporter.due(true, summary()));
    assert!(!reporter.report_fee_change(true, summary(), true));
    assert!(reporter.due(true, loaded));
}

fn document(text: &str) -> serde_json::Value {
    serde_json::from_str(text).unwrap()
}

#[test]
fn lists_are_read() {
    let list =
        read_published_list(&document(r#"{"manifest":"m","blob":"b","signature":"s"}"#)).unwrap();
    assert_eq!((list.manifest, list.blob, list.signature), ("m".into(), "b".into(), "s".into()));
    assert!(read_published_list(&document(r#"{"manifest":"m","blob":"b"}"#)).is_none());
    let number = document(r#"{"manifest":"m","blob":3,"signature":"s"}"#);
    assert!(read_published_list(&number).is_none());
    assert!(read_published_list(&document(r#"["manifest","blob","signature"]"#)).is_none());
    assert!(read_published_list(&document("null")).is_none());
    assert!(published_list(Some("m".into()), None, Some("s".into())).is_none());
}

#[test]
fn lists_are_handed_on() {
    let peer = |id, propagates, sequence| ListPeer { id, propagates, sequence };
    let peers = || {
        vec![
            peer(1, true, None),
            peer(2, false, None),
            peer(3, true, Some(5)),
            peer(4, true, Some(4)),
            peer(5, true, None),
        ]
    };
    assert_eq!(list_receivers(&peers(), &vec![5], 5), vec![1, 4]);
    let text = r#"{"manifest":"m","blob":"b","signature":"0a"}"#;
    let broadcast = |to_skip, document, signature| ListBroadcast {
        has_publisher: true,
        to_skip,
        document,
        signature,
        has_overlay: true,
        peers: peers(),
        sequence: 5,
    };
    let all = || broadcast(Some(vec![]), Some(document(text)), Some(vec![10]));
    let sent = broadcast_v1_validator_list(all()).unwrap();
    assert_eq!((sent.manifest, sent.blob), ("m".to_owned(), "b".to_owned()));
    assert_eq!((sent.signature, sent.version), (vec![10], LIST_VERSION));
    assert_eq!(sent.receivers, vec![1, 4, 5]);
    assert!(broadcast_v1_validator_list(ListBroadcast { to_skip: None, ..all() }).is_none());
    assert!(broadcast_v1_validator_list(ListBroadcast { signature: None, ..all() }).is_none());
    assert!(broadcast_v1_validator_list(ListBroadcast { document: None, ..all() }).is_none());
    let part = Some(document(r#"{"manifest":"m","blob":"b"}"#));
    assert!(broadcast_v1_validator_list(ListBroadcast { document: part, ..all() }).is_none());
    assert!(broadcast_v1_validator_list(ListBroadcast { has_publisher: false, ..all() }).is_none());
    assert!(broadcast_v1_validator_list(ListBroadcast { has_overlay: false, ..all() }).is_none());
}

#[test]
fn manifests_are_selected() {
    let manifest = |index, len, listed| CachedManifest { index, len, well_formed: true, listed };
    let cache = vec![
        manifest(0, 358, false),
        manifest(1, 359, true),
        manifest(2, 100, true),
        CachedManifest { well_formed: false, ..manifest(3, 100, true) },
        manifest(4, 100, true),
        manifest(5, 100, false),
    ];
    let limits = ManifestLimits { max_trusted_count: 1, max_untrusted_count: 9 };
    assert_eq!(manifests_message(&cache, limits), Some(vec![2, 0, 5]));
    let none = ManifestLimits { max_trusted_count: 0, max_untrusted_count: 0 };
    assert_eq!(manifests_message(&cache, none), None);
}

#[test]
fn peers_and_clients_are_told() {
    let header = ToldHeader { seq: 9, hash: id(1), parent_hash: id(2) };
    let told =
        broadcast_consensus_status_change(&header, 2, true, Some((3, 9)), Some(5), 4, 77);
    assert_eq!((told.new_event, told.first_seq, told.last_seq), (2, 5, 9));
    assert_eq!((told.ledger_hash, told.ledger_hash_previous), (id(1), id(2)));
    let lost = broadcast_consensus_status_change(&header, 2, false, None, Some(5), 4, 77);
    assert_eq!((lost.new_event, lost.first_seq, lost.last_seq), (LOST_SYNC, 0, 0));
    let fees = LoadFees { load_base: 256, local_fee: 300, cluster_fee: 400 };
    let payload = mode_change_payload(
        OperatingMode::Syncing,
        OperatingMode::Full,
        fees,
        None,
        Some(12),
    )
    .unwrap();
    assert_eq!((payload.load_factor, payload.base_fee), (400, 12));
    let same = OperatingMode::Full;
    assert!(mode_change_payload(same, same, fees, Some(10), None).is_none());
    let label = network_ops_operating_mode_string_for_admin;
    assert_eq!(label(true, OperatingMode::Full, true), ModeLabel::Proposing);
    assert_eq!(label(false, OperatingMode::Full, true), ModeLabel::Mode(OperatingMode::Full));
    assert_eq!(
        label(true, OperatingMode::Tracking, true),
        ModeLabel::Mode(OperatingMode::Tracking)
    );
}

#[test]
fn a_closed_ledger_is_described() {
    let ledger = ClosedLedgerFacts {
        seq: 9,
        hash: id(1),
        close_time: 70,
        fee_base: 10,
        reserve_base: 1_000,
        reserve_inc: 200,
        txn_count: Some(3),
        xrp_fees_enabled: false,
    };
    let told = ledger_closed_notification(&ledger, 5, 10, OperatingMode::Syncing, true);
    assert_eq!((told.ledger_index, told.txn_count, told.fee_ref), (9, 3, Some(10)));
    assert!(told.validated_ledgers);
    let later = ClosedLedgerFacts { xrp_fees_enabled: true, txn_count: None, ..ledger };
    let told = ledger_closed_notification(&later, 5, 10, OperatingMode::Connected, true);
    assert_eq!((told.txn_count, told.fee_ref, told.validated_ledgers), (0, None, false));
    assert_eq!(validation_seen_time(0, 9), 9);
    assert_eq!(validation_seen_time(4, 9), 4);
    let own = own_validation(0, id(1), id(2), 9, false);
    assert_eq!((own.sign_time, own.ledger_hash, own.full), (1, id(1), false));
}

#[test]
fn transactions_are_handed_on() {
    let envelope = queue_relay_envelope(vec![1, 2], 55, true);
    assert_eq!(envelope.raw_transaction, vec![1, 2]);
    assert_eq!(envelope.status, STATUS_CURRENT);
    assert_eq!((envelope.receive_timestamp, envelope.deferred), (Some(55), Some(true)));
    let told = publish_proposed_transaction(false, true, 9, id(1), Ter::TER_QUEUED).unwrap();
    assert_eq!((told.ledger_current_index, told.engine_result), (9, Ter::TER_QUEUED));
    assert!(!told.validated);
    assert!(publish_proposed_transaction(true, true, 9, id(1), Ter::TES_SUCCESS).is_none());
    assert!(publish_proposed_transaction(false, false, 9, id(1), Ter::TES_SUCCESS).is_none());
    assert!(RelayUntrustedPolicy::All.should_relay());
    assert!(!RelayUntrustedPolicy::Trusted.should_relay());
    assert!(!RelayUntrustedPolicy::DropUntrusted.should_relay());
}

#[test]
fn a_published_ledger_is_told_of() {
    assert_eq!(
        on_published_ledger(true, true, Some(2)),
        vec![
            PublishedEffect::Note,
            PublishedEffect::TellCloseListener,
            PublishedEffect::TellLedgerStream,
            PublishedEffect::TellTransaction(0),
            PublishedEffect::TellProposedTransaction(0),
            PublishedEffect::TellTransaction(1),
            PublishedEffect::TellProposedTransaction(1),
        ]
    );
    assert_eq!(on_published_ledger(false, false, Some(2)), vec![PublishedEffect::Note]);
    assert_eq!(on_published_ledger(false, true, None).len(), 2);
}

#[test]
fn trust_is_determined_anew() {
    let facts =
        TrustFacts { negative_unl: Ok(()), added: 0, removed: 0, unl_blocked: true };
    assert_eq!(
        refresh_validator_trust_for_consensus(&facts),
        Ok(vec![
            TrustEffect::SetNegativeUnl,
            TrustEffect::UpdateTrusted,
            TrustEffect::SetUnlBlocked(true),
        ])
    );
    let joined = TrustFacts { added: 1, ..facts };
    assert_eq!(refresh_validator_trust_for_consensus(&joined).unwrap().len(), 5);
    let failed = TrustFacts { negative_unl: Err(ERROR), ..joined };
    assert_eq!(refresh_validator_trust_for_consensus(&failed), Err(ERROR));
    let rank = |rank| ListDisposition { rank };
    let kept = apply_validator_lists(rank(5), rank(4), true);
    assert!(!kept.broadcast && kept.persist);
    let told = apply_validator_lists(rank(4), rank(4), false);
    assert!(told.broadcast && !told.persist);
    assert_eq!(persist_manifest_caches(Ok(()), Err(ERROR)), Err(ERROR));
    assert_eq!(persist_manifest_caches(Err(ERROR), Ok(())), Err(ERROR));
    assert_eq!(persist_manifest_caches(Ok(()), Ok(())), Ok(()));
}

#[test]
fn a_ledger_becomes_the_last_closed_one() {
    let header = BaseHeader { hash: id(2), close_time: 9 };
    let facts = ClosedFacts {
        provisional: false,
        header,
        parent_hash: id(1),
        previous_hash: Some(id(1)),
        sandbox: Some(OpenHeader { parent_hash: id(1), parent_close_time: 3 }),
        has_overlay: true,
        history: ClosedLedgerHistoryAction::Store,
        has_ledger_master: true,
        immutable: true,
    };
    assert_eq!(
        on_closed_ledger(&facts),
        vec![
            ClosedEffect::ClearAccountSeqs,
            ClosedEffect::DropSandbox,
            ClosedEffect::NoteClosed,
            ClosedEffect::UpdateAmendments,
            ClosedEffect::SetHandshake { closed: id(2), parent: id(1) },
            ClosedEffect::InsertHistory,
            ClosedEffect::SweepHistory,
            ClosedEffect::RegisterForValidations,
            ClosedEffect::ScheduleTransactions,
        ]
    );
    let own = ClosedFacts {
        sandbox: Some(OpenHeader { parent_hash: id(2), parent_close_time: 9 }),
        ..facts
    };
    assert!(!on_closed_ledger(&own).contains(&ClosedEffect::DropSandbox));
    let same = ClosedFacts { previous_hash: Some(id(2)), ..facts };
    assert_eq!(on_closed_ledger(&same)[0], ClosedEffect::NoteClosed);
    assert!(on_closed_ledger(&ClosedFacts { provisional: true, ..facts }).is_empty());
    let fetchers = FetcherFacts {
        has_fetcher: false,
        has_writer: true,
        has_writer_result: false,
        has_batch_writer_result: false,
        state_backed: true,
        tx_backed: false,
        store_fetcher: true,
        store_writer: true,
        store_writer_result: true,
        store_batch_writer_result: false,
    };
    let given = ledger_with_node_fetcher(&fetchers).unwrap();
    assert!(given.fetcher && !given.writer && given.writer_result && !given.batch_writer_result);
    assert!(ledger_with_node_fetcher(&FetcherFacts { state_backed: false, ..fetchers }).is_none());
}

fn config() -> NodeConfig {
    NodeConfig {
        standalone: false,
        start_valid: false,
        start_up: StartUpType::Normal,
        start_ledger: None,
        do_import: false,
        validation_quorum: Some(3),
        network_quorum: 1,
        path_search_old: 2,
        path_search: 2,
        path_search_fast: 2,
        path_search_max: 3,
        relay_untrusted_validations: RelayUntrustedPolicy::All,
        relay_untrusted_proposals: RelayUntrustedPolicy::Trusted,
    }
}

fn limits() -> ManifestLimits {
    ManifestLimits { max_trusted_count: 5, max_untrusted_count: 6 }
}

#[test]
fn a_node_is_set_up() {
    let options = ApplicationRootOptions::for_workers(0);
    assert_eq!((options.io_threads, options.job_queue_threads), (0, 1));
    assert_eq!(options.ledger_fetch_depth, u32::MAX);
    let plain = ApplicationRoot::new(4, limits(), config());
    assert_eq!((plain.io_threads, plain.job_queue_threads), (4, 4));
    assert_eq!(plain.services, ServiceSetup::usual());
    let idle = ApplicationRootOptions {
        job_queue_threads: 0,
        services: ServiceSetup { fee_setup: 3, ..ServiceSetup::usual() },
        ..ApplicationRootOptions::default()
    };
    let idle = ApplicationRoot::with_options(idle, limits(), config());
    assert_eq!((idle.io_threads, idle.job_queue_threads), (1, 1));
    assert_eq!(idle.services.fee_setup, 3);
    assert_eq!(plain.operating_mode, OperatingMode::Disconnected);
    assert_eq!(plain.config.validation_quorum, Some(3));
    assert_eq!(plain.config.start_up, StartUpType::Fresh);
    let options = ApplicationRootOptions {
        start_valid: true,
        standalone: true,
        quorum: Some(7),
        network_id: 21,
        elb_support: true,
        ..ApplicationRootOptions::default()
    };
    let mut node = ApplicationRoot::with_options(options, limits(), config());
    assert_eq!(node.operating_mode, OperatingMode::Full);
    assert!(node.standalone() && node.elb_support_enabled());
    assert_eq!((node.network_id(), node.config.validation_quorum), (21, Some(7)));
    node.attach_network(None);
    assert_eq!(node.network_id(), 0);
    assert_eq!(node.manifest_limits(), limits());
    node.configure_manifest_limits(ManifestLimits { max_trusted_count: 1, ..limits() });
    assert_eq!(node.manifest_limits().max_trusted_count, 1);
}

#[test]
fn settings_change() {
    let mut node = ApplicationRoot::new(1, limits(), config());
    node.set_path_search_levels(4, 5, 6);
    assert_eq!(
        (node.config.path_search_old, node.config.path_search, node.config.path_search_fast),
        (4, 5, 6)
    );
    assert_eq!(node.set_path_search_max(9), 3);
    assert_eq!(node.config.path_search_max, 9);
    assert!(node.relay_untrusted_validations() && !node.relay_untrusted_proposals());
    assert!(node.set_relay_untrusted_validations(false));
    assert!(!node.relay_untrusted_validations());
    assert!(!node.set_relay_untrusted_proposals(true));
    assert!(node.relay_untrusted_proposals());
    assert_eq!(
        node.set_relay_untrusted_proposals_policy(RelayUntrustedPolicy::DropUntrusted),
        RelayUntrustedPolicy::All
    );
    assert_eq!(
        node.set_relay_untrusted_validations_policy(RelayUntrustedPolicy::All),
        RelayUntrustedPolicy::Trusted
    );
    node.set_max_disallowed_ledger(8);
    node.set_need_network_ledger(true);
    node.set_amendment_blocked(true);
    node.set_unl_blocked(true);
    assert_eq!(node.max_disallowed_ledger, 8);
    assert!(node.need_network_ledger && node.amendment_blocked && node.unl_blocked);
    assert_eq!(
        node.set_network_ops_operating_mode(OperatingMode::Tracking),
        OperatingMode::Disconnected
    );
}

#[test]
fn signals_are_taken_once() {
    let mut node = ApplicationRoot::new(1, limits(), config());
    assert!(!node.take_fetch_pack_ready());
    node.signal_fetch_pack_ready();
    assert!(node.take_fetch_pack_ready() && !node.take_fetch_pack_ready());
    node.notify_consensus_event();
    assert!(node.take_consensus_event() && !node.take_consensus_event());
    let before = node.publication_advance.requested_epoch;
    node.request_publication_advance();
    assert_eq!(node.publication_advance.requested_epoch, before + 1);
    assert!(node.take_consensus_event());
    assert!(node.report_fee_change(true, summary(), true));
    assert!(!node.report_fee_change(true, summary(), true));
    node.defer_replay_startup(PendingReplayStartup {
        parent_hash: id(5),
        parent_seq: 4,
        start_ledger: Some("5".into()),
        trap_tx_hash: None,
    });
    assert!(!node.clear_pending_replay_startup(id(6)));
    assert_eq!(node.pending_replay_startup().as_ref().unwrap().parent_seq, 4);
    assert!(node.clear_pending_replay_startup(id(5)));
    assert!(node.pending_replay_startup().is_none());
}

#[test]
fn a_node_points_at_ledgers() {
    let mut node = ApplicationRoot::new(1, limits(), config());
    let head = |seq, close_time| LedgerHead { hash: id(seq as u128), seq, close_time };
    assert_eq!((node.closed_ledger_seq(), node.earliest_ledger_fetch(3)), (None, 0));
    node.note_closed_ledger(head(10, 100));
    node.note_published_ledger(head(8, 80));
    node.note_validated_ledger_for_sync(head(9, 90));
    assert_eq!(node.closed_ledger_seq(), Some(10));
    assert_eq!(node.published_ledger_seq(), Some(8));
    assert_eq!(node.validated_ledger_seq(), Some(9));
    assert_eq!(node.earliest_ledger_fetch(3), 7);
    assert_eq!(node.transaction_close_time_seconds(8), Some(80));
    assert_eq!(node.transaction_close_time_seconds(7), None);
    let account = AccountID { hi: 0, lo: 3 };
    node.note_open_ledger_tx(account, 4);
    assert_eq!(node.network_ops_current_account_seq(account, None), Some(5));
    node.clear_open_ledger_account_seqs();
    assert_eq!(node.network_ops_current_account_seq(account, Some(2)), Some(2));
}

fn parts() -> Components {
    Components {
        node_store: true,
        perf_log: false,
        ledger_master: false,
        network_ops: false,
        consensus: false,
        shamap_store_service: false,
        overlay_runtime: true,
        bound_nodestore: false,
        bound_ledger: false,
        bound_consensus: false,
        bound_validator_site: false,
        bound_perf_log: false,
        bound_shamap_store: false,
        bound_overlay: false,
    }
}

#[test]
fn parts_are_put_together() {
    let mut node = parts();
    node.bind_default_component_runtimes();
    assert!(node.bound_nodestore && node.bound_ledger && node.bound_consensus);
    assert!(node.bound_validator_site && !node.bound_perf_log);
    assert!(node.ledger_master && node.network_ops && node.consensus);
    let once = node;
    node.bind_default_component_runtimes();
    assert_eq!(node, once);
    let mut bare = parts();
    assert!(bare.attach_default_network_ops_runtime());
    assert!(bare.ledger_master && !bare.attach_default_network_ops_runtime());
    assert!(!bare.attach_default_ledger_master_runtime());
    assert!(bare.attach_default_consensus_runtime() && bare.bound_consensus);
    bare.attach_shamap_store_service();
    assert!(bare.shamap_store_service && bare.bound_shamap_store);
    bare.bind_shamap_store();
    assert!(!bare.shamap_store_service && bare.bound_shamap_store);
    bare.bind_overlay();
    assert!(!bare.overlay_runtime && bare.bound_overlay);
}

#[test]
fn a_node_starts() {
    let files = OpenFiles {
        server_ports: Some(100),
        shamap_store: Some(2),
        node_store: Some(1_000),
        bindings: 0,
    };
    assert_eq!(fd_required(&files), 1_233);
    let none = OpenFiles { server_ports: None, shamap_store: None, node_store: None, bindings: 9 };
    assert_eq!(fd_required(&none), 1_024);
    assert_eq!(fd_required(&OpenFiles { bindings: 4_000, ..none }), 4_000);
    assert!(starts_sntp_client(2, false));
    assert!(!starts_sntp_client(0, false) && !starts_sntp_client(2, true));
    assert_eq!(load_cluster_nodes_from_config(0, false), Ok(false));
    assert_eq!(load_cluster_nodes_from_config(2, true), Ok(true));
    assert_eq!(load_cluster_nodes_from_config(2, false), Err(StartError::InvalidCluster));
    assert_eq!(attach_server_ports_from_config(true, true, Ok(())), Ok(false));
    assert_eq!(attach_server_ports_from_config(false, true, Ok(())), Ok(true));
    assert_eq!(
        attach_server_ports_from_config(false, true, Err(ERROR)),
        Err(StartError::Ports(ERROR))
    );
}
