//! What holds of every node, from its start on.
use vstd::prelude::*;
use crate::consensus::mode::OperatingMode;
use crate::ids::{AccountID, Uint256, ViewError};
use crate::network::manifests::ManifestLimits;
use crate::network::relay::RelayUntrustedPolicy;
use crate::root::application::{ApplicationRoot, LedgerHead, PendingReplayStartup, head_seq};
use crate::root::components::{Components, with_consensus, with_defaults, with_network_ops};
use crate::root::options::{ApplicationRootOptions, NodeConfig, StartUpType};
use crate::root::startup::{
    OpenFiles, StartError, attach_server_ports_from_config, fd_required,
    load_cluster_nodes_from_config, starts_sntp_client,
};

verus! {

/// A node asks for as many files as its parts need: its own and those of its ports and stores, of a
/// store
/// at least five, and more than a thousand in any case.
pub proof fn how_many_files_a_node_needs(files: OpenFiles, r: usize)
    requires
        call_ensures(fd_required, (&files,), r),
    ensures
        ({
            let ports = match files.server_ports {
                Some(n) => n as int,
                None => 0,
            };
            let of = |store: Option<usize>|
                match store {
                    Some(n) => if n < 5 {
                        5
                    } else {
                        n as int
                    },
                    None => 0,
                };
            let own = 128 + ports + of(files.shamap_store) + of(files.node_store);
            &&& r >= own && r >= files.bindings && r >= 1024
            &&& r == own || r == files.bindings || r == 1024
        }),
{
}

/// The clock is compared where there is something to compare it with, once; a cluster is loaded
/// where one
/// is named, and ports are set up once where they are asked for.
pub proof fn what_a_node_starts(
    servers: usize,
    running: bool,
    entries: usize,
    loaded: bool,
    already: bool,
    configured: bool,
    built: Result<(), ViewError>,
    clock: bool,
    cluster: Result<bool, StartError>,
    ports: Result<bool, StartError>,
)
    requires
        call_ensures(starts_sntp_client, (servers, running), clock),
        call_ensures(load_cluster_nodes_from_config, (entries, loaded), cluster),
        call_ensures(attach_server_ports_from_config, (already, configured, built), ports),
    ensures
        clock <==> servers > 0 && !running,
        entries == 0 ==> cluster == Ok::<bool, StartError>(false),
        entries > 0 && loaded ==> cluster == Ok::<bool, StartError>(true),
        entries > 0 && !loaded ==> cluster == Err::<bool, StartError>(StartError::InvalidCluster),
        already || !configured ==> ports == Ok::<bool, StartError>(false),
        !already && configured && built is Ok ==> ports == Ok::<bool, StartError>(true),
        !already && configured ==> (built matches Err(error) ==> ports == Err::<bool, StartError>(
            StartError::Ports(error),
        )),
{
}

/// Whoever processes transactions has somebody who keeps the ledgers, and whoever takes part in
/// consensus
/// has both; nothing that was there goes.
pub proof fn parts_bring_what_they_need(parts: Components)
    ensures
        with_network_ops(parts).network_ops,
        !parts.network_ops ==> with_network_ops(parts).ledger_master,
        with_consensus(parts).consensus,
        !parts.consensus ==> with_consensus(parts).network_ops && with_consensus(
            parts,
        ).ledger_master && with_consensus(parts).bound_consensus,
        ({
            let after = with_consensus(parts);
            &&& parts.network_ops ==> after.network_ops
            &&& parts.ledger_master ==> after.ledger_master
            &&& after.node_store == parts.node_store
            &&& after.perf_log == parts.perf_log
            &&& after.shamap_store_service == parts.shamap_store_service
            &&& after.overlay_runtime == parts.overlay_runtime
            &&& after.bound_ledger == parts.bound_ledger
            &&& after.bound_overlay == parts.bound_overlay
        }),
{
}

/// What is there is bound: a store and a log only where there is one, the ledgers, consensus and
/// the lists
/// of validators in any case.
pub proof fn what_is_bound(parts: Components)
    ensures
        ({
            let after = with_defaults(parts);
            &&& after.bound_nodestore <==> parts.bound_nodestore || parts.node_store
            &&& after.bound_perf_log <==> parts.bound_perf_log || parts.perf_log
            &&& after.bound_ledger
            &&& !parts.bound_ledger ==> after.ledger_master
            &&& !parts.bound_consensus ==> after.consensus
            &&& after.bound_validator_site
            &&& after.bound_shamap_store == parts.bound_shamap_store
            &&& after.bound_overlay == parts.bound_overlay
            &&& after.overlay_runtime == parts.overlay_runtime
            &&& after.shamap_store_service == parts.shamap_store_service
            &&& after.node_store == parts.node_store
        }),
{
}

/// A node that nothing else is asked of starts fresh in the main network, with as many workers as
/// are asked
/// for and one at least, and looks as far back as there is anything.
pub proof fn how_a_node_is_set_up(workers: usize)
    ensures
        ({
            let options = ApplicationRootOptions::spec_for_workers(workers);
            &&& options.io_threads == workers
            &&& options.job_queue_threads >= 1
            &&& workers >= 1 ==> options.job_queue_threads == workers
            &&& options.network_id == 0
            &&& !options.start_valid && !options.elb_support && !options.standalone
                && !options.import
            &&& options.start_type == StartUpType::Fresh
            &&& options.start_ledger is None
            &&& options.quorum is None
            &&& options.network_quorum == 1
            &&& options.ledger_fetch_depth == u32::MAX
            &&& options.services.fee_setup == 0 && options.services.collector_params == 0
                && options.services.load_manager_timing == 0
        }),
{
}

/// A node that has just been set up does as it was asked, has somebody to work, points at no ledger
/// and waits for nothing; it follows the network in full only where it starts with a valid ledger.
pub proof fn a_new_node_has_seen_nothing(
    root: ApplicationRoot,
    options: ApplicationRootOptions,
    limits: ManifestLimits,
    defaults: NodeConfig,
)
    requires
        call_ensures(ApplicationRoot::with_options, (options, limits, defaults), root),
    ensures
        root.wf(),
        root.io_threads == options.io_threads,
        root.job_queue_threads >= 1,
        options.job_queue_threads >= 1 ==> root.job_queue_threads == options.job_queue_threads,
        root.config.standalone == options.standalone,
        root.config.start_valid == options.start_valid,
        root.config.start_up == options.start_type,
        root.config.start_ledger == options.start_ledger,
        root.config.do_import == options.import,
        root.config.network_quorum == options.network_quorum,
        options.quorum is Some ==> root.config.validation_quorum == options.quorum,
        options.quorum is None ==> root.config.validation_quorum == defaults.validation_quorum,
        root.network_id == options.network_id,
        root.elb_support == options.elb_support,
        root.ledger_fetch_depth == options.ledger_fetch_depth,
        root.manifest_limits == limits,
        options.start_valid ==> root.operating_mode == OperatingMode::Full,
        !options.start_valid ==> root.operating_mode == OperatingMode::Disconnected,
        root.closed is None && root.published is None && root.validated is None,
        !root.need_network_ledger && !root.amendment_blocked && !root.unl_blocked,
        !root.fetch_pack_ready && !root.consensus_pending,
        root.pending_replay_startup is None,
        root.publication_advance.requested_epoch != root.publication_advance.planned_epoch,
        root.publication_advance.last_plan is None,
        root.max_disallowed_ledger == 0,
        root.fee_reporter.last_summary is None,
        forall|account: AccountID| !(#[trigger] root.open_seqs.next@.contains_key(account)),
{
}

/// What a node tells of the ledgers it points at is what they are.
pub proof fn a_node_tells_its_heads(
    root: ApplicationRoot,
    closed: Option<u32>,
    published: Option<u32>,
    validated: Option<u32>,
    head: LedgerHead,
)
    requires
        call_ensures(ApplicationRoot::closed_ledger_seq, (&root,), closed),
        call_ensures(ApplicationRoot::published_ledger_seq, (&root,), published),
        call_ensures(ApplicationRoot::validated_ledger_seq, (&root,), validated),
    ensures
        root.closed == Some(head) ==> closed == Some(head.seq),
        root.published == Some(head) ==> published == Some(head.seq),
        root.validated == Some(head) ==> validated == Some(head.seq),
        root.closed is None ==> closed is None,
        root.published is None ==> published is None,
        root.validated is None ==> validated is None,
        head_seq(None) is None,
{
}

/// A node serves so many ledgers before its last closed one, and says when those closed that it
/// points at.
pub proof fn a_node_tells_of_its_ledgers(
    root: ApplicationRoot,
    depth: u32,
    seq: u32,
    earliest: u32,
    time: Option<i64>,
)
    requires
        call_ensures(ApplicationRoot::earliest_ledger_fetch, (&root, depth), earliest),
        call_ensures(ApplicationRoot::transaction_close_time_seconds, (&root, seq), time),
    ensures
        root.closed matches Some(head) ==> (head.seq >= depth ==> earliest + depth == head.seq) && (
        head.seq < depth ==> earliest == 0),
        root.closed is None ==> earliest == 0,
        root.validated matches Some(head) ==> (head.seq == seq ==> time == Some(
            head.close_time as i64,
        )),
        !(root.validated matches Some(head) && head.seq == seq) ==> (
        root.published matches Some(head) ==> (head.seq == seq ==> time == Some(
            head.close_time as i64,
        ))),
        !(root.validated matches Some(head) && head.seq == seq) && !(
        root.published matches Some(head) && head.seq == seq) ==> (root.closed matches Some(head)
            ==> (head.seq == seq ==> time == Some(head.close_time as i64))),
        !(root.validated matches Some(head) && head.seq == seq) && !(
        root.published matches Some(head) && head.seq == seq) && !(root.closed matches Some(head)
            && head.seq == seq) ==> time is None,
{
}

/// A node says of itself what it was set up with, and what the open ledger says of an account.
pub proof fn a_node_says_what_it_is(
    root: ApplicationRoot,
    account: AccountID,
    latest: Option<u32>,
    standalone: bool,
    network: u32,
    balanced: bool,
    limits: ManifestLimits,
    next: Option<u32>,
)
    requires
        call_ensures(ApplicationRoot::standalone, (&root,), standalone),
        call_ensures(ApplicationRoot::network_id, (&root,), network),
        call_ensures(ApplicationRoot::elb_support_enabled, (&root,), balanced),
        call_ensures(ApplicationRoot::manifest_limits, (&root,), limits),
        call_ensures(
            ApplicationRoot::network_ops_current_account_seq,
            (&root, account, latest),
            next,
        ),
    ensures
        standalone == root.config.standalone,
        network == root.network_id,
        balanced == root.elb_support,
        limits == root.manifest_limits,
        root.open_seqs.next@.contains_key(account) ==> next == Some(root.open_seqs.next@[account]),
        !root.open_seqs.next@.contains_key(account) ==> next == latest,
{
}

/// Those who wait for ledgers are told that some came.
pub proof fn ledgers_that_came_are_signalled(root: &mut ApplicationRoot)
    requires
        call_ensures(ApplicationRoot::signal_fetch_pack_ready, (root,), ()),
    ensures
        final(root).fetch_pack_ready,
        *final(root) == (ApplicationRoot {
            fetch_pack_ready: final(root).fetch_pack_ready,
            ..*old(root)
        }),
{
}

/// That ledgers came is told once, and just where some did.
pub proof fn ledgers_that_came_are_told_once(root: &mut ApplicationRoot, r: bool)
    requires
        call_ensures(ApplicationRoot::take_fetch_pack_ready, (root,), r),
    ensures
        !final(root).fetch_pack_ready,
        r == old(root).fetch_pack_ready,
        *final(root) == (ApplicationRoot {
            fetch_pack_ready: final(root).fetch_pack_ready,
            ..*old(root)
        }),
{
}

/// Consensus is told that something happened.
pub proof fn events_are_signalled(root: &mut ApplicationRoot)
    requires
        call_ensures(ApplicationRoot::notify_consensus_event, (root,), ()),
    ensures
        final(root).consensus_pending,
        *final(root) == (ApplicationRoot {
            consensus_pending: final(root).consensus_pending,
            ..*old(root)
        }),
{
}

/// That something happened is told once, and just where something did.
pub proof fn events_are_told_once(root: &mut ApplicationRoot, r: bool)
    requires
        call_ensures(ApplicationRoot::take_consensus_event, (root,), r),
    ensures
        !final(root).consensus_pending,
        r == old(root).consensus_pending,
        *final(root) == (ApplicationRoot {
            consensus_pending: final(root).consensus_pending,
            ..*old(root)
        }),
{
}

/// A ledger that was closed is the last closed one, and neither published nor validated by that.
pub proof fn closed_ledgers_are_noted(root: &mut ApplicationRoot, head: LedgerHead)
    requires
        call_ensures(ApplicationRoot::note_closed_ledger, (root, head), ()),
    ensures
        final(root).closed == Some(head),
        *final(root) == (ApplicationRoot { closed: final(root).closed, ..*old(root) }),
{
}

/// A ledger that was published is the last published one, and neither closed nor validated by that.
pub proof fn published_ledgers_are_noted(root: &mut ApplicationRoot, head: LedgerHead)
    requires
        call_ensures(ApplicationRoot::note_published_ledger, (root, head), ()),
    ensures
        final(root).published == Some(head),
        *final(root) == (ApplicationRoot { published: final(root).published, ..*old(root) }),
{
}

/// A ledger that was validated is the last validated one, and neither closed nor published by that.
pub proof fn validated_ledgers_are_noted(root: &mut ApplicationRoot, head: LedgerHead)
    requires
        call_ensures(ApplicationRoot::note_validated_ledger_for_sync, (root, head), ()),
    ensures
        final(root).validated == Some(head),
        *final(root) == (ApplicationRoot { validated: final(root).validated, ..*old(root) }),
{
}

/// The node is in the mode it was put in, and tells the one before.
pub proof fn modes_are_set(root: &mut ApplicationRoot, mode: OperatingMode, r: OperatingMode)
    requires
        call_ensures(ApplicationRoot::set_network_ops_operating_mode, (root, mode), r),
    ensures
        final(root).operating_mode == mode,
        r == old(root).operating_mode,
        *final(root) == (ApplicationRoot {
            operating_mode: final(root).operating_mode,
            ..*old(root)
        }),
{
}

/// Whether amendments block the node is as it was set.
pub proof fn amendments_block_as_set(root: &mut ApplicationRoot, blocked: bool)
    requires
        call_ensures(ApplicationRoot::set_amendment_blocked, (root, blocked), ()),
    ensures
        final(root).amendment_blocked == blocked,
        *final(root) == (ApplicationRoot {
            amendment_blocked: final(root).amendment_blocked,
            ..*old(root)
        }),
{
}

/// Whether the lack of a list blocks the node is as it was set.
pub proof fn lists_block_as_set(root: &mut ApplicationRoot, blocked: bool)
    requires
        call_ensures(ApplicationRoot::set_unl_blocked, (root, blocked), ()),
    ensures
        final(root).unl_blocked == blocked,
        *final(root) == (ApplicationRoot { unl_blocked: final(root).unl_blocked, ..*old(root) }),
{
}

/// Whether the node waits for a ledger is as it was set.
pub proof fn waiting_for_a_ledger_is_as_set(root: &mut ApplicationRoot, waits: bool)
    requires
        call_ensures(ApplicationRoot::set_need_network_ledger, (root, waits), ()),
    ensures
        final(root).need_network_ledger == waits,
        *final(root) == (ApplicationRoot {
            need_network_ledger: final(root).need_network_ledger,
            ..*old(root)
        }),
{
}

/// The ledger below which nothing is validated again is as it was set.
pub proof fn the_lowest_ledger_is_as_set(root: &mut ApplicationRoot, seq: u32)
    requires
        call_ensures(ApplicationRoot::set_max_disallowed_ledger, (root, seq), ()),
    ensures
        final(root).max_disallowed_ledger == seq,
        *final(root) == (ApplicationRoot {
            max_disallowed_ledger: final(root).max_disallowed_ledger,
            ..*old(root)
        }),
{
}

/// How many manifests are handed on is as it was set.
pub proof fn limits_are_as_set(root: &mut ApplicationRoot, limits: ManifestLimits)
    requires
        call_ensures(ApplicationRoot::configure_manifest_limits, (root, limits), ()),
    ensures
        final(root).manifest_limits == limits,
        *final(root) == (ApplicationRoot {
            manifest_limits: final(root).manifest_limits,
            ..*old(root)
        }),
{
}

/// A replay that was put off waits for what it was put off with.
pub proof fn replays_are_put_off(root: &mut ApplicationRoot, pending: PendingReplayStartup)
    requires
        call_ensures(ApplicationRoot::defer_replay_startup, (root, pending), ()),
    ensures
        final(root).pending_replay_startup == Some(pending),
        *final(root) == (ApplicationRoot {
            pending_replay_startup: final(root).pending_replay_startup,
            ..*old(root)
        }),
{
}

/// The highest level of the search is as it was set, and the one before is told.
pub proof fn the_highest_level_is_as_set(root: &mut ApplicationRoot, level: u32, r: u32)
    requires
        call_ensures(ApplicationRoot::set_path_search_max, (root, level), r),
    ensures
        final(root).config.path_search_max == level,
        r == old(root).config.path_search_max,
        final(root).config == (NodeConfig {
            path_search_max: final(root).config.path_search_max,
            ..old(root).config
        }),
        *final(root) == (ApplicationRoot { config: final(root).config, ..*old(root) }),
{
}

/// Whose validations are handed on is as it was set, and the policy before is told.
pub proof fn validations_are_handed_on_as_set(root: &mut ApplicationRoot, policy: RelayUntrustedPolicy, r: RelayUntrustedPolicy)
    requires
        call_ensures(ApplicationRoot::set_relay_untrusted_validations_policy, (root, policy), r),
    ensures
        final(root).config.relay_untrusted_validations == policy,
        r == old(root).config.relay_untrusted_validations,
        final(root).config == (NodeConfig {
            relay_untrusted_validations: final(root).config.relay_untrusted_validations,
            ..old(root).config
        }),
        *final(root) == (ApplicationRoot { config: final(root).config, ..*old(root) }),
{
}

/// Whose proposals are handed on is as it was set, and the policy before is told.
pub proof fn proposals_are_handed_on_as_set(root: &mut ApplicationRoot, policy: RelayUntrustedPolicy, r: RelayUntrustedPolicy)
    requires
        call_ensures(ApplicationRoot::set_relay_untrusted_proposals_policy, (root, policy), r),
    ensures
        final(root).config.relay_untrusted_proposals == policy,
        r == old(root).config.relay_untrusted_proposals,
        final(root).config == (NodeConfig {
            relay_untrusted_proposals: final(root).config.relay_untrusted_proposals,
            ..old(root).config
        }),
        *final(root) == (ApplicationRoot { config: final(root).config, ..*old(root) }),
{
}

/// The ordinary levels of the search are as they were set, each in its place; the highest stays.
pub proof fn levels_are_as_set(root: &mut ApplicationRoot, slow: u32, usual: u32, fast: u32)
    requires
        call_ensures(ApplicationRoot::set_path_search_levels, (root, slow, usual, fast), ()),
    ensures
        final(root).config.path_search_old == slow,
        final(root).config.path_search == usual,
        final(root).config.path_search_fast == fast,
        final(root).config.path_search_max == old(root).config.path_search_max,
        final(root).config.relay_untrusted_validations
            == old(root).config.relay_untrusted_validations,
        final(root).config.relay_untrusted_proposals == old(root).config.relay_untrusted_proposals,
        *final(root) == (ApplicationRoot { config: final(root).config, ..*old(root) }),
{
}

/// A node that joins a network is in that one, and in the main one where it names none.
pub proof fn networks_are_joined(root: &mut ApplicationRoot, network: Option<u32>)
    requires
        call_ensures(ApplicationRoot::attach_network, (root, network), ()),
    ensures
        network matches Some(id) ==> final(root).network_id == id,
        network is None ==> final(root).network_id == 0,
        *final(root) == (ApplicationRoot { network_id: final(root).network_id, ..*old(root) }),
{
}

/// A replay that waits begins when the ledger comes that it waits for, and with no other.
pub proof fn replays_wait_for_their_ledger(root: &mut ApplicationRoot, parent: Uint256, r: bool)
    requires
        call_ensures(ApplicationRoot::clear_pending_replay_startup, (root, parent), r),
    ensures
        old(root).pending_replay_startup is None ==> !r,
        old(root).pending_replay_startup matches Some(pending) ==> (r <==> pending.parent_hash
            == parent),
        r ==> final(root).pending_replay_startup is None,
        !r ==> final(root).pending_replay_startup == old(root).pending_replay_startup,
        final(root).closed == old(root).closed,
        final(root).published == old(root).published,
        final(root).validated == old(root).validated,
        final(root).config == old(root).config,
{
}

/// The state of the ledgers is there once it was asked for, and made only the first time.
pub proof fn ledger_states_are_made_once(parts: &mut Components, created: bool)
    requires
        call_ensures(Components::attach_default_ledger_master_runtime, (parts,), created),
    ensures
        final(parts).ledger_master,
        created <==> !old(parts).ledger_master,
        *final(parts) == (Components { ledger_master: true, ..*old(parts) }),
{
}

/// A store is bound with its service; one that is bound from elsewhere has none here.
pub proof fn stores_are_attached(parts: &mut Components)
    requires
        call_ensures(Components::attach_shamap_store_service, (parts,), ()),
    ensures
        final(parts).shamap_store_service && final(parts).bound_shamap_store,
        final(parts).overlay_runtime == old(parts).overlay_runtime,
        final(parts).bound_overlay == old(parts).bound_overlay,
{
}

/// A store that is bound from elsewhere is bound, without a service of the node's own.
pub proof fn stores_are_bound(parts: &mut Components)
    requires
        call_ensures(Components::bind_shamap_store, (parts,), ()),
    ensures
        !final(parts).shamap_store_service && final(parts).bound_shamap_store,
        final(parts).overlay_runtime == old(parts).overlay_runtime,
        final(parts).bound_overlay == old(parts).bound_overlay,
{
}

/// Peers that are bound from elsewhere are bound, without connections of the node's own.
pub proof fn peers_are_bound(parts: &mut Components)
    requires
        call_ensures(Components::bind_overlay, (parts,), ()),
    ensures
        !final(parts).overlay_runtime && final(parts).bound_overlay,
        final(parts).shamap_store_service == old(parts).shamap_store_service,
        final(parts).bound_shamap_store == old(parts).bound_shamap_store,
{
}

/// Handing on what the untrusted say is all or nothing, and whether it was done before is told.
pub proof fn handing_on_is_all_or_nothing(root: &mut ApplicationRoot, relay: bool, r: bool)
    requires
        call_ensures(ApplicationRoot::set_relay_untrusted_validations, (root, relay), r),
    ensures
        r <==> old(root).config.relay_untrusted_validations == RelayUntrustedPolicy::All,
        relay ==> final(root).config.relay_untrusted_validations == RelayUntrustedPolicy::All,
        !relay ==> final(root).config.relay_untrusted_validations == RelayUntrustedPolicy::Trusted,
        final(root).config.relay_untrusted_proposals == old(root).config.relay_untrusted_proposals,
{
}

/// The same holds of proposals.
pub proof fn handing_on_proposals_is_all_or_nothing(root: &mut ApplicationRoot, relay: bool, r: bool)
    requires
        call_ensures(ApplicationRoot::set_relay_untrusted_proposals, (root, relay), r),
    ensures
        r <==> old(root).config.relay_untrusted_proposals == RelayUntrustedPolicy::All,
        relay ==> final(root).config.relay_untrusted_proposals == RelayUntrustedPolicy::All,
        !relay ==> final(root).config.relay_untrusted_proposals == RelayUntrustedPolicy::Trusted,
        final(root).config.relay_untrusted_validations
            == old(root).config.relay_untrusted_validations,
{
}

/// Asking for publication is asking anew, and consensus is to look.
pub proof fn publication_is_asked_for(root: &mut ApplicationRoot)
    requires
        call_ensures(ApplicationRoot::request_publication_advance, (root,), ()),
    ensures
        final(root).publication_advance.requested_epoch
            != old(root).publication_advance.requested_epoch,
        old(root).publication_advance.requested_epoch < u64::MAX ==> final(root).publication_advance.requested_epoch == old(root).publication_advance.requested_epoch + 1,
        final(root).consensus_pending,
        final(root).closed == old(root).closed,
        final(root).published == old(root).published,
        final(root).validated == old(root).validated,
{
}

} // verus!
