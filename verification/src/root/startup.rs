//! What a node decides while it starts.
use vstd::prelude::*;
use crate::ids::ViewError;

verus! {

/// Files that a node keeps open for itself.
pub const OWN_FILES: usize = 128;

/// Files that a store keeps open at least.
pub const STORE_FILES: usize = 5;

/// Files that a node asks for at least.
pub const LEAST_FILES: usize = 1024;

/// How many files the parts of a node keep open, where they are there.
#[derive(Clone, Copy, Debug, PartialEq, Eq, Structural)]
pub struct OpenFiles {
    pub server_ports: Option<usize>,
    pub shamap_store: Option<usize>,
    pub node_store: Option<usize>,
    /// What all parts that are bound need together.
    pub bindings: usize,
}

pub open spec fn most(a: int, b: int) -> int {
    if a < b {
        b
    } else {
        a
    }
}

impl OpenFiles {
    pub open spec fn own(self) -> int {
        OWN_FILES + (match self.server_ports {
            Some(files) => files as int,
            None => 0,
        }) + (match self.shamap_store {
            Some(files) => most(files as int, STORE_FILES as int),
            None => 0,
        }) + (match self.node_store {
            Some(files) => most(files as int, STORE_FILES as int),
            None => 0,
        })
    }
}

fn at_least(files: usize, least: usize) -> (r: usize)
    ensures
        r == most(files as int, least as int),
{
    if files < least {
        least
    } else {
        files
    }
}

/// How many files a node must be able to open.
pub fn fd_required(files: &OpenFiles) -> (r: usize)
    requires
        files.own() <= usize::MAX,
    ensures
        r == most(most(files.own(), files.bindings as int), LEAST_FILES as int),
{
    let mut needed: usize = OWN_FILES;
    if let Some(ports) = files.server_ports {
        needed = needed + ports;
    }
    if let Some(store) = files.shamap_store {
        needed = needed + at_least(store, STORE_FILES);
    }
    if let Some(store) = files.node_store {
        needed = needed + at_least(store, STORE_FILES);
    }
    at_least(at_least(needed, files.bindings), LEAST_FILES)
}

/// A node asks for no fewer files than its parts need.
pub proof fn files_cover_every_part(files: OpenFiles)
    ensures
        most(most(files.own(), files.bindings as int), LEAST_FILES as int) >= files.own(),
        most(most(files.own(), files.bindings as int), LEAST_FILES as int) >= files.bindings,
        files.own() >= OWN_FILES,
{
}

/// Whether the clock is compared with others: only if there are any, and not twice.
pub fn starts_sntp_client(servers: usize, running: bool) -> (r: bool)
    ensures
        r == (servers != 0 && !running),
{
    servers != 0 && !running
}

/// Why a node cannot start.
#[derive(Clone, Copy, Debug, PartialEq, Eq, Structural)]
pub enum StartError {
    /// An entry of the cluster cannot be understood.
    InvalidCluster,
    /// The ports of the server cannot be set up.
    Ports(ViewError),
}

/// Loads the other nodes of the cluster, and tells whether there are any. `loaded` says whether
/// the entries could be understood, and counts only where there are some.
pub fn load_cluster_nodes_from_config(entries: usize, loaded: bool) -> (r: Result<bool, StartError>)
    ensures
        r == (if entries == 0 {
            Ok(false)
        } else if loaded {
            Ok(true)
        } else {
            Err(StartError::InvalidCluster)
        }),
{
    if entries == 0 {
        return Ok(false);
    }
    if loaded {
        Ok(true)
    } else {
        Err(StartError::InvalidCluster)
    }
}

/// Sets up the ports of the server, and tells whether it did: not twice, and not without being
/// asked to. `built` counts only where it does.
pub fn attach_server_ports_from_config(
    already: bool,
    configured: bool,
    built: Result<(), ViewError>,
) -> (r: Result<bool, StartError>)
    ensures
        r == (if already || !configured {
            Ok(false)
        } else {
            match built {
                Ok(_) => Ok(true),
                Err(error) => Err(StartError::Ports(error)),
            }
        }),
{
    if already || !configured {
        return Ok(false);
    }
    match built {
        Ok(_) => Ok(true),
        Err(error) => Err(StartError::Ports(error)),
    }
}

} // verus!
