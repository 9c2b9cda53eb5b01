//! How a node is set up.
use vstd::prelude::*;
use crate::network::relay::RelayUntrustedPolicy;

verus! {

/// Which ledger a node starts with.
#[derive(Clone, Copy, Debug, PartialEq, Eq, Structural)]
pub enum StartUpType {
    Fresh,
    Normal,
    Load,
    LoadFile,
    Replay,
    Network,
}

/// How a node is set up.
pub struct ApplicationRootOptions {
    pub io_threads: usize,
    pub job_queue_threads: usize,
    pub network_id: u32,
    pub start_valid: bool,
    pub elb_support: bool,
    pub standalone: bool,
    pub start_type: StartUpType,
    pub start_ledger: Option<String>,
    pub import: bool,
    pub quorum: Option<usize>,
    pub network_quorum: usize,
    pub ledger_fetch_depth: u32,
    pub services: ServiceSetup,
}

/// How the services around a node are set up, each by the number under which the caller keeps its
/// setup. Zero is the usual one.
#[derive(Clone, Copy, Debug, PartialEq, Eq, Structural)]
pub struct ServiceSetup {
    /// The fees that the node votes for.
    pub fee_setup: u64,
    /// What is measured, and where it goes.
    pub collector_params: u64,
    /// How long the node may be busy before it counts as overloaded.
    pub load_manager_timing: u64,
}

impl ServiceSetup {
    pub open spec fn spec_usual() -> ServiceSetup {
        ServiceSetup { fee_setup: 0, collector_params: 0, load_manager_timing: 0 }
    }

    /// The usual setup.
    pub fn usual() -> (r: ServiceSetup)
        ensures
            r == ServiceSetup::spec_usual(),
    {
        ServiceSetup { fee_setup: 0, collector_params: 0, load_manager_timing: 0 }
    }
}

impl ApplicationRootOptions {
    /// How a node with this many workers is set up where nothing else is asked for.
    pub open spec fn spec_for_workers(worker_threads: usize) -> ApplicationRootOptions {
        ApplicationRootOptions {
            io_threads: worker_threads,
            job_queue_threads: if worker_threads < 1 {
                1
            } else {
                worker_threads
            },
            network_id: 0,
            start_valid: false,
            elb_support: false,
            standalone: false,
            start_type: StartUpType::Fresh,
            start_ledger: None,
            import: false,
            quorum: None,
            network_quorum: 1,
            ledger_fetch_depth: u32::MAX,
            services: ServiceSetup::spec_usual(),
        }
    }

    /// How a node with this many workers is set up where nothing else is asked for: there is
    /// always somebody to do the work.
    pub fn for_workers(worker_threads: usize) -> (r: ApplicationRootOptions)
        ensures
            r == ApplicationRootOptions::spec_for_workers(worker_threads),
    {
        let base = ApplicationRootOptions::default();
        ApplicationRootOptions {
            io_threads: worker_threads,
            job_queue_threads: if worker_threads < 1 {
                1
            } else {
                worker_threads
            },
            ..base
        }
    }
}

impl Default for ApplicationRootOptions {
    fn default() -> (r: Self)
        ensures
            r == ApplicationRootOptions::spec_for_workers(1),
    {
        ApplicationRootOptions {
            io_threads: 1,
            job_queue_threads: 1,
            network_id: 0,
            start_valid: false,
            elb_support: false,
            standalone: false,
            start_type: StartUpType::Fresh,
            start_ledger: None,
            import: false,
            quorum: None,
            network_quorum: 1,
            ledger_fetch_depth: u32::MAX,
            services: ServiceSetup::usual(),
        }
    }
}

/// What a node keeps of its setup.
pub struct NodeConfig {
    pub standalone: bool,
    pub start_valid: bool,
    pub start_up: StartUpType,
    pub start_ledger: Option<String>,
    pub do_import: bool,
    pub validation_quorum: Option<usize>,
    pub network_quorum: usize,
    pub path_search_old: u32,
    pub path_search: u32,
    pub path_search_fast: u32,
    pub path_search_max: u32,
    pub relay_untrusted_validations: RelayUntrustedPolicy,
    pub relay_untrusted_proposals: RelayUntrustedPolicy,
}

} // verus!
