//! The parts that a node is put together from.
use vstd::prelude::*;

verus! {

/// Which parts are there, and which are bound to the life of the node.
#[derive(Clone, Copy, Debug, PartialEq, Eq, Structural)]
pub struct Components {
    pub node_store: bool,
    pub perf_log: bool,
    pub ledger_master: bool,
    pub network_ops: bool,
    pub consensus: bool,
    pub shamap_store_service: bool,
    pub overlay_runtime: bool,
    pub bound_nodestore: bool,
    pub bound_ledger: bool,
    pub bound_consensus: bool,
    pub bound_validator_site: bool,
    pub bound_perf_log: bool,
    pub bound_shamap_store: bool,
    pub bound_overlay: bool,
}

/// The parts once those are there that the processing of transactions needs.
pub open spec fn with_network_ops(parts: Components) -> Components {
    if parts.network_ops {
        parts
    } else {
        Components { ledger_master: true, network_ops: true, ..parts }
    }
}

/// The parts once those are there that consensus needs.
pub open spec fn with_consensus(parts: Components) -> Components {
    if parts.consensus {
        parts
    } else {
        Components {
            ledger_master: true,
            consensus: true,
            bound_consensus: true,
            ..with_network_ops(parts)
        }
    }
}

pub open spec fn with_bound_store(parts: Components) -> Components {
    Components { bound_nodestore: parts.bound_nodestore || parts.node_store, ..parts }
}

pub open spec fn with_bound_ledger(parts: Components) -> Components {
    if parts.bound_ledger {
        parts
    } else {
        Components { ledger_master: true, bound_ledger: true, ..parts }
    }
}

pub open spec fn with_bound_consensus(parts: Components) -> Components {
    if parts.bound_consensus {
        parts
    } else {
        with_consensus(parts)
    }
}

/// The parts once everything is bound that can be.
pub open spec fn with_defaults(parts: Components) -> Components {
    let bound = with_bound_consensus(with_bound_ledger(with_bound_store(parts)));
    Components {
        bound_validator_site: true,
        bound_perf_log: bound.bound_perf_log || bound.perf_log,
        ..bound
    }
}

impl Components {
    /// Sees to it that somebody keeps the ledgers, and tells whether nobody did before.
    pub fn attach_default_ledger_master_runtime(&mut self) -> (created: bool)
        ensures
            created == !old(self).ledger_master,
            *final(self) == (Components { ledger_master: true, ..*old(self) }),
    {
        let created = !self.ledger_master;
        self.ledger_master = true;
        created
    }

    /// Sees to it that somebody processes transactions, and tells whether nobody did before.
    pub fn attach_default_network_ops_runtime(&mut self) -> (created: bool)
        ensures
            created == !old(self).network_ops,
            *final(self) == with_network_ops(*old(self)),
    {
        if self.network_ops {
            return false;
        }
        self.attach_default_ledger_master_runtime();
        self.network_ops = true;
        true
    }

    /// Sees to it that somebody takes part in consensus, and tells whether nobody did before.
    pub fn attach_default_consensus_runtime(&mut self) -> (created: bool)
        ensures
            created == !old(self).consensus,
            *final(self) == with_consensus(*old(self)),
    {
        if self.consensus {
            return false;
        }
        self.attach_default_network_ops_runtime();
        self.attach_default_ledger_master_runtime();
        self.bound_consensus = true;
        self.consensus = true;
        true
    }

    /// Binds what is not bound yet to the life of the node.
    pub fn bind_default_component_runtimes(&mut self)
        ensures
            *final(self) == with_defaults(*old(self)),
    {
        if !self.bound_nodestore && self.node_store {
            self.bound_nodestore = true;
        }
        if !self.bound_ledger {
            self.attach_default_ledger_master_runtime();
            self.bound_ledger = true;
        }
        if !self.bound_consensus {
            self.attach_default_consensus_runtime();
        }
        if !self.bound_validator_site {
            self.bound_validator_site = true;
        }
        if !self.bound_perf_log && self.perf_log {
            self.bound_perf_log = true;
        }
    }

    /// A store for old ledgers that the node knows in all its detail.
    pub fn attach_shamap_store_service(&mut self)
        ensures
            *final(self) == (Components {
                shamap_store_service: true,
                bound_shamap_store: true,
                ..*old(self)
            }),
    {
        self.bound_shamap_store = true;
        self.shamap_store_service = true;
    }

    /// A store for old ledgers that the node can only start and stop.
    pub fn bind_shamap_store(&mut self)
        ensures
            *final(self) == (Components {
                shamap_store_service: false,
                bound_shamap_store: true,
                ..*old(self)
            }),
    {
        self.shamap_store_service = false;
        self.bound_shamap_store = true;
    }

    /// Peers that the node can only start and stop.
    pub fn bind_overlay(&mut self)
        ensures
            *final(self) == (Components {
                overlay_runtime: false,
                bound_overlay: true,
                ..*old(self)
            }),
    {
        self.overlay_runtime = false;
        self.bound_overlay = true;
    }
}

/// Once everything is bound, the ledgers, consensus and the lists of validators are, and binding
/// everything a second time changes nothing.
pub proof fn binding_twice_is_binding_once(parts: Components)
    requires
        parts.consensus ==> parts.bound_consensus,
    ensures
        with_defaults(parts).bound_ledger,
        with_defaults(parts).bound_consensus,
        with_defaults(parts).bound_validator_site,
        with_defaults(with_defaults(parts)) == with_defaults(parts),
{
}

} // verus!
