//! The local orchestrator: a four-node fleet under docker compose.
//!
//! The crate decides every command line and URL of a local run; the
//! caller executes them. The compose file is the deployment artifact:
//! its presence is checked by the process layer before this
//! orchestrator's plans run.

use vstd::prelude::*;
use vstd::string::StringExecFns;

use crate::num::{dec_rep, u64_to_string};

verus! {

/// Base port of the first node's RPC endpoint; the four local nodes
/// listen on consecutive ports starting here.
pub const BASE_RPC_PORT: u16 = 26657;

/// How many nodes a local fleet runs.
pub const LOCAL_COMMITTEE_SIZE: usize = 4;

/// The RPC port serving transaction `index` when submissions go
/// round-robin over the four local nodes.
pub fn node_port(index: usize) -> (port: u16)
    ensures
        port == BASE_RPC_PORT + index % 4,
        BASE_RPC_PORT <= port <= BASE_RPC_PORT + 3,
{
    BASE_RPC_PORT + (index % 4) as u16
}

/// The name of local node `index`'s container.
pub open spec fn container_name_spec(index: int) -> Seq<char> {
    "mysticeti-node"@ + dec_rep(index as nat)
}

/// A local URL on `port` under `path`.
pub open spec fn local_url_spec(port: int, path: Seq<char>) -> Seq<char> {
    "http://localhost:"@ + dec_rep(port as nat) + path
}

/// Drives one run against the container fleet described by a compose
/// file.
pub struct LocalNetworkOrchestrator {
    /// The compose file describing the fleet.
    pub docker_compose_path: String,
}

impl LocalNetworkOrchestrator {
    /// An orchestrator over the given compose file. The caller is
    /// responsible for checking that the file exists before running
    /// any plan.
    pub fn new(docker_compose_path: String) -> (r: Self)
        ensures
            r.docker_compose_path == docker_compose_path,
    {
        LocalNetworkOrchestrator { docker_compose_path }
    }

    /// The arguments bringing the fleet up, detached.
    pub fn start_network_args(&self) -> (r: Vec<String>)
        ensures
            r@.len() == 3,
            r@[0]@ == "compose"@,
            r@[1]@ == "up"@,
            r@[2]@ == "-d"@,
    {
        let mut r: Vec<String> = Vec::new();
        r.push("compose".to_owned());
        r.push("up".to_owned());
        r.push("-d".to_owned());
        r
    }

    /// The arguments tearing the fleet down, keeping its volumes.
    pub fn stop_network_args(&self) -> (r: Vec<String>)
        ensures
            r@.len() == 2,
            r@[0]@ == "compose"@,
            r@[1]@ == "down"@,
    {
        let mut r: Vec<String> = Vec::new();
        r.push("compose".to_owned());
        r.push("down".to_owned());
        r
    }

    /// The argument lists of a thorough teardown, in order: bring the
    /// fleet down with its volumes, then prune orphaned containers,
    /// then prune orphaned volumes.
    pub fn stop_network_thorough_args(&self) -> (r: Vec<Vec<String>>)
        ensures
            r@.len() == 3,
            r@[0]@.len() == 3 && r@[0]@[0]@ == "compose"@ && r@[0]@[1]@ == "down"@ && r@[0]@[2]@
                == "-v"@,
            r@[1]@.len() == 3 && r@[1]@[0]@ == "container"@ && r@[1]@[1]@ == "prune"@ && r@[1]@[2]@
                == "-f"@,
            r@[2]@.len() == 3 && r@[2]@[0]@ == "volume"@ && r@[2]@[1]@ == "prune"@ && r@[2]@[2]@
                == "-f"@,
    {
        let mut down: Vec<String> = Vec::new();
        down.push("compose".to_owned());
        down.push("down".to_owned());
        down.push("-v".to_owned());
        let mut containers: Vec<String> = Vec::new();
        containers.push("container".to_owned());
        containers.push("prune".to_owned());
        containers.push("-f".to_owned());
        let mut volumes: Vec<String> = Vec::new();
        volumes.push("volume".to_owned());
        volumes.push("prune".to_owned());
        volumes.push("-f".to_owned());
        let mut r: Vec<Vec<String>> = Vec::new();
        r.push(down);
        r.push(containers);
        r.push(volumes);
        r
    }

    /// The container name of local node `index`.
    pub fn container_name(&self, index: u64) -> (r: String)
        ensures
            r@ == container_name_spec(index as int),
    {
        let mut s = "mysticeti-node".to_owned();
        s.append(u64_to_string(index).as_str());
        s
    }

    /// The health endpoint of local node `index`.
    pub fn node_health_url(&self, index: usize) -> (r: String)
        requires
            index < LOCAL_COMMITTEE_SIZE,
        ensures
            r@ == local_url_spec(BASE_RPC_PORT + index, "/health"@),
    {
        let mut s = "http://localhost:".to_owned();
        s.append(u64_to_string(BASE_RPC_PORT as u64 + index as u64).as_str());
        s.append("/health");
        proof {
            assert(s@ =~= local_url_spec(BASE_RPC_PORT + index, "/health"@));
        }
        s
    }

    /// The submission endpoint for transaction `index`, round-robin
    /// across the four local nodes.
    pub fn submission_url(&self, index: usize) -> (r: String)
        ensures
            r@ == local_url_spec(BASE_RPC_PORT + index % 4, "/broadcast_tx_async"@),
    {
        let port = node_port(index);
        let mut s = "http://localhost:".to_owned();
        s.append(u64_to_string(port as u64).as_str());
        s.append("/broadcast_tx_async");
        proof {
            assert(s@ =~= local_url_spec(BASE_RPC_PORT + index % 4, "/broadcast_tx_async"@));
        }
        s
    }
}

} // verus!
