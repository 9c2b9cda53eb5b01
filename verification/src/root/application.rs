//! The state that holds a node together.
use vstd::prelude::*;
use crate::consensus::mode::OperatingMode;
use crate::consensus::status::{self, ClosedAt};
use crate::ids::{AccountID, Uint256};
use crate::network::fees::{FeeChangeReporter, ServerFeeSummary};
use crate::network::manifests::ManifestLimits;
use crate::network::relay::RelayUntrustedPolicy;
use crate::open_ledger::seqs::{OpenLedgerSeqs, noted};
use crate::publication::advance::{PublicationAdvanceState, next_epoch};
use crate::root::options::{ApplicationRootOptions, NodeConfig, ServiceSetup};

verus! {

/// The start of a replay that waits for the ledger it begins with.
pub struct PendingReplayStartup {
    pub parent_hash: Uint256,
    pub parent_seq: u32,
    pub start_ledger: Option<String>,
    pub trap_tx_hash: Option<Uint256>,
}

/// A ledger that a node points at.
#[derive(Clone, Copy, Debug, PartialEq, Eq, Structural)]
pub struct LedgerHead {
    pub hash: Uint256,
    pub seq: u32,
    pub close_time: u32,
}

pub open spec fn head_seq(head: Option<LedgerHead>) -> Option<u32> {
    match head {
        Some(head) => Some(head.seq),
        None => None,
    }
}

fn seq_of(head: &Option<LedgerHead>) -> (r: Option<u32>)
    ensures
        r == head_seq(*head),
{
    match head {
        Some(head) => Some(head.seq),
        None => None,
    }
}

pub open spec fn head_close(head: Option<LedgerHead>) -> Option<ClosedAt> {
    match head {
        Some(head) => Some(ClosedAt { seq: head.seq, close_time: head.close_time }),
        None => None,
    }
}

fn close_of(head: &Option<LedgerHead>) -> (r: Option<ClosedAt>)
    ensures
        r == head_close(*head),
{
    match head {
        Some(head) => Some(ClosedAt { seq: head.seq, close_time: head.close_time }),
        None => None,
    }
}

/// The state that holds a node together.
pub struct ApplicationRoot {
    pub config: NodeConfig,
    /// How many threads wait for others, and how many work. There is always one that works.
    pub io_threads: usize,
    pub job_queue_threads: usize,
    pub services: ServiceSetup,
    pub network_id: u32,
    pub elb_support: bool,
    pub ledger_fetch_depth: u32,
    pub manifest_limits: ManifestLimits,
    pub operating_mode: OperatingMode,
    pub need_network_ledger: bool,
    pub amendment_blocked: bool,
    pub unl_blocked: bool,
    pub closed: Option<LedgerHead>,
    pub published: Option<LedgerHead>,
    pub validated: Option<LedgerHead>,
    pub open_seqs: OpenLedgerSeqs,
    pub publication_advance: PublicationAdvanceState,
    pub fee_reporter: FeeChangeReporter,
    pub fetch_pack_ready: bool,
    pub pending_replay_startup: Option<PendingReplayStartup>,
    /// Something has happened that consensus should look at.
    pub consensus_pending: bool,
    pub max_disallowed_ledger: u32,
}

impl ApplicationRoot {
    pub open spec fn wf(self) -> bool {
        self.open_seqs.next.wf()
    }

    /// The node is set up like this, and has seen nothing yet.
    pub open spec fn is_set_up(
        self,
        options: ApplicationRootOptions,
        limits: ManifestLimits,
        default_config: NodeConfig,
    ) -> bool {
        &&& self.io_threads == options.io_threads
        &&& self.job_queue_threads == (if options.job_queue_threads < 1 {
            1
        } else {
            options.job_queue_threads
        })
        &&& self.services == options.services
        &&& self.config.standalone == options.standalone
        &&& self.config.start_valid == options.start_valid
        &&& self.config.start_up == options.start_type
        &&& self.config.start_ledger == options.start_ledger
        &&& self.config.do_import == options.import
        &&& self.config.validation_quorum == (if options.quorum is Some {
            options.quorum
        } else {
            default_config.validation_quorum
        })
        &&& self.config.network_quorum == options.network_quorum
        &&& self.config.path_search_old == default_config.path_search_old
        &&& self.config.path_search == default_config.path_search
        &&& self.config.path_search_fast == default_config.path_search_fast
        &&& self.config.path_search_max == default_config.path_search_max
        &&& self.config.relay_untrusted_validations == default_config.relay_untrusted_validations
        &&& self.config.relay_untrusted_proposals == default_config.relay_untrusted_proposals
        &&& self.network_id == options.network_id
        &&& self.elb_support == options.elb_support
        &&& self.ledger_fetch_depth == options.ledger_fetch_depth
        &&& self.manifest_limits == limits
        &&& self.operating_mode == (if options.start_valid {
            OperatingMode::Full
        } else {
            OperatingMode::Disconnected
        })
        &&& !self.need_network_ledger && !self.amendment_blocked && !self.unl_blocked
        &&& self.closed is None && self.published is None && self.validated is None
        &&& self.open_seqs.next@ == Map::<AccountID, u32>::empty()
        &&& self.open_seqs.sandbox is None
        &&& self.publication_advance == PublicationAdvanceState::spec_new()
        &&& self.fee_reporter.last_summary is None
        &&& !self.fetch_pack_ready
        &&& self.pending_replay_startup is None
        &&& !self.consensus_pending
        &&& self.max_disallowed_ledger == 0
    }

    /// A node that is set up like this, and has seen nothing yet. One that starts with a valid
    /// ledger follows the network in full from the start. `limits` are how many manifests it hands
    /// on, and `default_config` is what holds where the options say nothing.
    pub fn with_options(
        options: ApplicationRootOptions,
        limits: ManifestLimits,
        default_config: NodeConfig,
    ) -> (r: ApplicationRoot)
        ensures
            r.wf(),
            r.is_set_up(options, limits, default_config),
    {
        let quorum = match options.quorum {
            Some(quorum) => Some(quorum),
            None => default_config.validation_quorum,
        };
        ApplicationRoot {
            config: NodeConfig {
                standalone: options.standalone,
                start_valid: options.start_valid,
                start_up: options.start_type,
                start_ledger: options.start_ledger,
                do_import: options.import,
                validation_quorum: quorum,
                network_quorum: options.network_quorum,
                ..default_config
            },
            io_threads: options.io_threads,
            job_queue_threads: if options.job_queue_threads < 1 {
                1
            } else {
                options.job_queue_threads
            },
            services: options.services,
            network_id: options.network_id,
            elb_support: options.elb_support,
            ledger_fetch_depth: options.ledger_fetch_depth,
            manifest_limits: limits,
            operating_mode: if options.start_valid {
                OperatingMode::Full
            } else {
                OperatingMode::Disconnected
            },
            need_network_ledger: false,
            amendment_blocked: false,
            unl_blocked: false,
            closed: None,
            published: None,
            validated: None,
            open_seqs: OpenLedgerSeqs::new(),
            publication_advance: PublicationAdvanceState::new(),
            fee_reporter: FeeChangeReporter::new(),
            fetch_pack_ready: false,
            pending_replay_startup: None,
            consensus_pending: false,
            max_disallowed_ledger: 0,
        }
    }

    /// A node with this many workers, and nothing else asked for.
    pub fn new(worker_threads: usize, limits: ManifestLimits, default_config: NodeConfig) -> (r: ApplicationRoot)
        ensures
            r.wf(),
            r.is_set_up(
                ApplicationRootOptions::spec_for_workers(worker_threads),
                limits,
                default_config,
            ),
    {
        ApplicationRoot::with_options(
            ApplicationRootOptions::for_workers(worker_threads),
            limits,
            default_config,
        )
    }

    /// Whether the node has no network.
    pub fn standalone(&self) -> (r: bool)
        ensures
            r == self.config.standalone,
    {
        self.config.standalone
    }

    /// The network that the node belongs to.
    pub fn network_id(&self) -> (r: u32)
        ensures
            r == self.network_id,
    {
        self.network_id
    }

    /// The node is connected to the peers of a network; without a name it is the main one.
    pub fn attach_network(&mut self, network_id: Option<u32>)
        ensures
            final(self).network_id == (match network_id {
                Some(id) => id,
                None => 0,
            }),
            *final(self) == (ApplicationRoot { network_id: final(self).network_id, ..*old(self) }),
    {
        self.network_id = match network_id {
            Some(id) => id,
            None => 0,
        };
    }

    /// Whether balancers may ask for the health of the node.
    pub fn elb_support_enabled(&self) -> (r: bool)
        ensures
            r == self.elb_support,
    {
        self.elb_support
    }

    /// Sets the levels of the search for payment paths, but for the highest.
    pub fn set_path_search_levels(&mut self, path_search_old: u32, path_search: u32, path_search_fast: u32)
        ensures
            *final(self) == (ApplicationRoot {
                config: NodeConfig {
                    path_search_old,
                    path_search,
                    path_search_fast,
                    ..old(self).config
                },
                ..*old(self)
            }),
    {
        self.config.path_search_old = path_search_old;
        self.config.path_search = path_search;
        self.config.path_search_fast = path_search_fast;
    }

    /// Sets the highest level of the search for payment paths, and tells the one before.
    pub fn set_path_search_max(&mut self, path_search_max: u32) -> (r: u32)
        ensures
            r == old(self).config.path_search_max,
            *final(self) == (ApplicationRoot {
                config: NodeConfig { path_search_max, ..old(self).config },
                ..*old(self)
            }),
    {
        let previous: u32 = self.config.path_search_max;
        self.config.path_search_max = path_search_max;
        previous
    }

    /// Whether validations are handed on from those who are not trusted.
    pub fn relay_untrusted_validations(&self) -> (r: bool)
        ensures
            r == self.config.relay_untrusted_validations.relays(),
    {
        self.config.relay_untrusted_validations.should_relay()
    }

    /// Whether proposals are handed on from those who are not trusted.
    pub fn relay_untrusted_proposals(&self) -> (r: bool)
        ensures
            r == self.config.relay_untrusted_proposals.relays(),
    {
        self.config.relay_untrusted_proposals.should_relay()
    }

    /// Sets whose validations are handed on, and tells whose were before.
    pub fn set_relay_untrusted_validations_policy(&mut self, policy: RelayUntrustedPolicy) -> (r: RelayUntrustedPolicy)
        ensures
            r == old(self).config.relay_untrusted_validations,
            *final(self) == (ApplicationRoot {
                config: NodeConfig { relay_untrusted_validations: policy, ..old(self).config },
                ..*old(self)
            }),
    {
        let previous = self.config.relay_untrusted_validations;
        self.config.relay_untrusted_validations = policy;
        previous
    }

    /// Sets whether everybody's validations are handed on, and tells whether they were before.
    pub fn set_relay_untrusted_validations(&mut self, relay: bool) -> (r: bool)
        ensures
            r == old(self).config.relay_untrusted_validations.relays(),
            *final(self) == (ApplicationRoot {
                config: NodeConfig {
                    relay_untrusted_validations: if relay {
                        RelayUntrustedPolicy::All
                    } else {
                        RelayUntrustedPolicy::Trusted
                    },
                    ..old(self).config
                },
                ..*old(self)
            }),
    {
        self.set_relay_untrusted_validations_policy(
            if relay {
                RelayUntrustedPolicy::All
            } else {
                RelayUntrustedPolicy::Trusted
            },
        ).should_relay()
    }

    /// Sets whose proposals are handed on, and tells whose were before.
    pub fn set_relay_untrusted_proposals_policy(&mut self, policy: RelayUntrustedPolicy) -> (r: RelayUntrustedPolicy)
        ensures
            r == old(self).config.relay_untrusted_proposals,
            *final(self) == (ApplicationRoot {
                config: NodeConfig { relay_untrusted_proposals: policy, ..old(self).config },
                ..*old(self)
            }),
    {
        let previous = self.config.relay_untrusted_proposals;
        self.config.relay_untrusted_proposals = policy;
        previous
    }

    /// Sets whether everybody's proposals are handed on, and tells whether they were before.
    pub fn set_relay_untrusted_proposals(&mut self, relay: bool) -> (r: bool)
        ensures
            r == old(self).config.relay_untrusted_proposals.relays(),
            *final(self) == (ApplicationRoot {
                config: NodeConfig {
                    relay_untrusted_proposals: if relay {
                        RelayUntrustedPolicy::All
                    } else {
                        RelayUntrustedPolicy::Trusted
                    },
                    ..old(self).config
                },
                ..*old(self)
            }),
    {
        self.set_relay_untrusted_proposals_policy(
            if relay {
                RelayUntrustedPolicy::All
            } else {
                RelayUntrustedPolicy::Trusted
            },
        ).should_relay()
    }

    /// How many manifests are handed on.
    pub fn manifest_limits(&self) -> (r: ManifestLimits)
        ensures
            r == self.manifest_limits,
    {
        self.manifest_limits
    }

    /// Sets how many manifests are handed on.
    pub fn configure_manifest_limits(&mut self, manifest_limits: ManifestLimits)
        ensures
            *final(self) == (ApplicationRoot { manifest_limits, ..*old(self) }),
    {
        self.manifest_limits = manifest_limits;
    }

    /// Ledgers have come in: those who wait for one should look.
    pub fn signal_fetch_pack_ready(&mut self)
        ensures
            *final(self) == (ApplicationRoot { fetch_pack_ready: true, ..*old(self) }),
    {
        self.fetch_pack_ready = true;
    }

    /// Whether ledgers have come in since this was last asked.
    pub fn take_fetch_pack_ready(&mut self) -> (r: bool)
        ensures
            r == old(self).fetch_pack_ready,
            *final(self) == (ApplicationRoot { fetch_pack_ready: false, ..*old(self) }),
    {
        let ready = self.fetch_pack_ready;
        self.fetch_pack_ready = false;
        ready
    }

    /// The start of a replay waits for the ledger it begins with.
    pub fn defer_replay_startup(&mut self, pending: PendingReplayStartup)
        ensures
            *final(self) == (ApplicationRoot {
                pending_replay_startup: Some(pending),
                ..*old(self)
            }),
    {
        self.pending_replay_startup = Some(pending);
    }

    /// The start of a replay that waits, if any does.
    pub fn pending_replay_startup(&self) -> (r: &Option<PendingReplayStartup>)
        ensures
            *r == self.pending_replay_startup,
    {
        &self.pending_replay_startup
    }

    /// The ledger has come that a replay begins with. One that waits for another ledger goes on
    /// waiting.
    pub fn clear_pending_replay_startup(&mut self, parent_hash: Uint256) -> (r: bool)
        ensures
            r == (old(self).pending_replay_startup matches Some(pending) && pending.parent_hash
                == parent_hash),
            r ==> *final(self) == (ApplicationRoot { pending_replay_startup: None, ..*old(self) }),
            !r ==> *final(self) == *old(self),
    {
        let same = match &self.pending_replay_startup {
            Some(pending) => pending.parent_hash == parent_hash,
            None => false,
        };
        if same {
            self.pending_replay_startup = None;
        }
        same
    }

    /// Something has happened that consensus should look at.
    pub fn notify_consensus_event(&mut self)
        ensures
            *final(self) == (ApplicationRoot { consensus_pending: true, ..*old(self) }),
    {
        self.consensus_pending = true;
    }

    /// Whether something has happened since consensus last looked.
    pub fn take_consensus_event(&mut self) -> (r: bool)
        ensures
            r == old(self).consensus_pending,
            *final(self) == (ApplicationRoot { consensus_pending: false, ..*old(self) }),
    {
        let pending = self.consensus_pending;
        self.consensus_pending = false;
        pending
    }

    /// Asks for publication to be planned, and wakes consensus to it.
    pub fn request_publication_advance(&mut self)
        ensures
            *final(self) == (ApplicationRoot {
                publication_advance: PublicationAdvanceState {
                    requested_epoch: next_epoch(old(self).publication_advance.requested_epoch),
                    ..old(self).publication_advance
                },
                consensus_pending: true,
                ..*old(self)
            }),
    {
        self.publication_advance.request_publication_advance();
        self.notify_consensus_event();
    }

    /// Tells clients that fees have changed, if they have.
    pub fn report_fee_change(&mut self, has_publisher: bool, summary: ServerFeeSummary, scheduled: bool) -> (r: bool)
        ensures
            r == (old(self).fee_reporter.spec_due(has_publisher, summary) && scheduled),
            *final(self) == (ApplicationRoot {
                fee_reporter: FeeChangeReporter {
                    last_summary: if r {
                        Some(summary)
                    } else {
                        old(self).fee_reporter.last_summary
                    },
                },
                ..*old(self)
            }),
    {
        self.fee_reporter.report_fee_change(has_publisher, summary, scheduled)
    }

    /// Nothing below this ledger is to be validated again.
    pub fn set_max_disallowed_ledger(&mut self, seq: u32)
        ensures
            *final(self) == (ApplicationRoot { max_disallowed_ledger: seq, ..*old(self) }),
    {
        self.max_disallowed_ledger = seq;
    }

    /// Whether the node waits for a ledger of the network.
    pub fn set_need_network_ledger(&mut self, need_network_ledger: bool)
        ensures
            *final(self) == (ApplicationRoot { need_network_ledger, ..*old(self) }),
    {
        self.need_network_ledger = need_network_ledger;
    }

    /// Whether the network has rules that the node does not know.
    pub fn set_amendment_blocked(&mut self, amendment_blocked: bool)
        ensures
            *final(self) == (ApplicationRoot { amendment_blocked, ..*old(self) }),
    {
        self.amendment_blocked = amendment_blocked;
    }

    /// Whether the node has no list of validators that it can use.
    pub fn set_unl_blocked(&mut self, unl_blocked: bool)
        ensures
            *final(self) == (ApplicationRoot { unl_blocked, ..*old(self) }),
    {
        self.unl_blocked = unl_blocked;
    }

    /// Sets how far the node has come, and tells how far it had come before. `normalized` is the
    /// mode that fits the age of its validated ledger.
    pub fn set_network_ops_operating_mode(&mut self, normalized: OperatingMode) -> (r: OperatingMode)
        ensures
            r == old(self).operating_mode,
            *final(self) == (ApplicationRoot { operating_mode: normalized, ..*old(self) }),
    {
        let previous = self.operating_mode;
        self.operating_mode = normalized;
        previous
    }

    /// The last closed ledger is this one.
    pub fn note_closed_ledger(&mut self, head: LedgerHead)
        ensures
            *final(self) == (ApplicationRoot { closed: Some(head), ..*old(self) }),
    {
        self.closed = Some(head);
    }

    /// The last published ledger is this one.
    pub fn note_published_ledger(&mut self, head: LedgerHead)
        ensures
            *final(self) == (ApplicationRoot { published: Some(head), ..*old(self) }),
    {
        self.published = Some(head);
    }

    /// The last validated ledger is this one.
    pub fn note_validated_ledger_for_sync(&mut self, head: LedgerHead)
        ensures
            *final(self) == (ApplicationRoot { validated: Some(head), ..*old(self) }),
    {
        self.validated = Some(head);
    }

    /// The sequence of the last closed ledger.
    pub fn closed_ledger_seq(&self) -> (r: Option<u32>)
        ensures
            r == head_seq(self.closed),
    {
        seq_of(&self.closed)
    }

    /// The sequence of the last published ledger.
    pub fn published_ledger_seq(&self) -> (r: Option<u32>)
        ensures
            r == head_seq(self.published),
    {
        seq_of(&self.published)
    }

    /// The sequence of the last validated ledger.
    pub fn validated_ledger_seq(&self) -> (r: Option<u32>)
        ensures
            r == head_seq(self.validated),
    {
        seq_of(&self.validated)
    }

    /// The first ledger that the node still serves.
    pub fn earliest_ledger_fetch(&self, fetch_depth: u32) -> (r: u32)
        ensures
            r == (match head_seq(self.closed) {
                Some(seq) => if seq >= fetch_depth {
                    seq - fetch_depth
                } else {
                    0
                },
                None => 0,
            }),
    {
        status::earliest_ledger_fetch(self.closed_ledger_seq(), fetch_depth)
    }

    /// When the ledger with this sequence closed, if the node still points at it.
    pub fn transaction_close_time_seconds(&self, ledger_seq: u32) -> (r: Option<i64>)
        ensures
            r == status::first_time(
                status::closed_at(head_close(self.validated), ledger_seq),
                status::first_time(
                    status::closed_at(head_close(self.published), ledger_seq),
                    status::closed_at(head_close(self.closed), ledger_seq),
                ),
            ),
    {
        status::transaction_close_time_seconds(
            ledger_seq,
            close_of(&self.validated),
            close_of(&self.published),
            close_of(&self.closed),
        )
    }

    /// A transaction of the account has gone into the open ledger.
    pub fn note_open_ledger_tx(&mut self, account: AccountID, tx_seq: u32)
        requires
            old(self).wf(),
        ensures
            final(self).wf(),
            final(self).open_seqs.next@ == noted(old(self).open_seqs.next@, account, tx_seq),
            final(self).open_seqs.sandbox == old(self).open_seqs.sandbox,
            *final(self) == (ApplicationRoot { open_seqs: final(self).open_seqs, ..*old(self) }),
    {
        self.open_seqs.note_open_ledger_tx(account, tx_seq);
    }

    /// The open ledger starts anew.
    pub fn clear_open_ledger_account_seqs(&mut self)
        ensures
            final(self).wf(),
            final(self).open_seqs.next@ == Map::<AccountID, u32>::empty(),
            final(self).open_seqs.sandbox is None,
            *final(self) == (ApplicationRoot { open_seqs: final(self).open_seqs, ..*old(self) }),
    {
        self.open_seqs.clear_open_ledger_account_seqs();
    }

    /// The next sequence of an account: what the open ledger says, or else the latest ledger.
    pub fn network_ops_current_account_seq(&self, account: AccountID, in_latest_ledger: Option<u32>) -> (r: Option<
        u32,
    >)
        requires
            self.wf(),
        ensures
            r == (if self.open_seqs.next@.contains_key(account) {
                Some(self.open_seqs.next@[account])
            } else {
                in_latest_ledger
            }),
    {
        self.open_seqs.network_ops_current_account_seq(account, in_latest_ledger)
    }
}

} // verus!
