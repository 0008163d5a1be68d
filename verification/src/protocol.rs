//! The protocol abstraction: what the engine needs from a deployable
//! protocol, and the per-validator private configuration.
//!
//! Swapping the implementation of these traits is the only change
//! needed to benchmark a different protocol with the same engine.

use vstd::prelude::*;
use vstd::string::StringExecFns;

use crate::benchmark::BenchmarkParameters;
use crate::instance::Instance;
use crate::num::{dec_rep, u64_to_string};

verus! {

/// Turns abstract benchmark parameters into the concrete commands that
/// deploy one protocol: its OS dependencies, the directories holding
/// persistent state (for cleanup), a cleanup command, the genesis
/// command over the fleet, a monitor command, and per-instance node and
/// client start commands.
pub trait ProtocolCommands<B> {
    /// OS packages every node needs installed.
    fn protocol_dependencies(&self) -> Vec<String>;

    /// The directories holding persistent state, to remove on a
    /// thorough cleanup.
    fn db_directories(&self) -> Vec<String>;

    /// Commands tearing down whatever a previous run left behind.
    fn cleanup_commands(&self) -> Vec<String>;

    /// The command generating genesis for this fleet.
    fn genesis_command(&self, instances: &Vec<Instance>) -> String;

    /// The command each instance runs to surface its node's logs.
    fn monitor_command(&self, instances: Vec<Instance>) -> Vec<(Instance, String)>;

    /// The command each instance runs to start its node. A run deploys
    /// one instance per committee seat.
    fn node_command(&self, instances: Vec<Instance>, parameters: &BenchmarkParameters<B>) -> Vec<
        (Instance, String),
    >
        requires
            parameters.nodes > 0,
            instances@.len() == parameters.nodes,
            instances@.len() <= 0xFFFF_FFFF,
    ;

    /// The command each instance runs to start its load client.
    fn client_command(&self, instances: Vec<Instance>, parameters: &BenchmarkParameters<B>) -> Vec<
        (Instance, String),
    >;
}

/// Where the engine scrapes a protocol's metrics.
pub trait ProtocolMetrics {
    /// The metrics URL of each instance's node.
    fn nodes_metrics_path(&self, instances: Vec<Instance>) -> Vec<(Instance, String)>;

    /// The metrics URL of each instance's load client.
    fn clients_metrics_path(&self, instances: Vec<Instance>) -> Vec<(Instance, String)>;
}

/// A validator's private storage directory.
#[derive(Debug, Clone)]
pub struct StorageDir {
    pub path: String,
}

/// The private configuration of one validator: who it is and where its
/// state lives. The directory itself is created by the process layer.
#[derive(Debug, Clone)]
pub struct PrivateConfig {
    pub authority_index: u32,
    pub storage_path: StorageDir,
}

/// The file name holding `authority`'s private configuration, relative
/// to the working directory.
pub open spec fn private_config_filename_spec(authority: int) -> Seq<char> {
    "private/"@ + dec_rep(authority as nat) + ".yaml"@
}

impl PrivateConfig {
    /// A private configuration storing under `path`.
    pub fn new(path: String, authority_index: u32) -> (r: Self)
        ensures
            r.authority_index == authority_index,
            r.storage_path.path == path,
    {
        PrivateConfig { authority_index, storage_path: StorageDir { path } }
    }

    /// The private configuration of `authority_index` for a benchmark:
    /// its state lives under `dir/val-<index>`, with a keypair that the
    /// deployment derives predictably.
    pub fn new_for_benchmarks(dir: &str, authority_index: u32) -> (r: Self)
        ensures
            r.authority_index == authority_index,
            r.storage_path.path@ == dir@ + "/val-"@ + dec_rep(authority_index as nat),
    {
        let mut path = dir.to_owned();
        path.append("/val-");
        path.append(u64_to_string(authority_index as u64).as_str());
        proof {
            assert(path@ =~= dir@ + "/val-"@ + dec_rep(authority_index as nat));
        }
        PrivateConfig { authority_index, storage_path: StorageDir { path } }
    }

    /// The file name of `authority`'s private configuration.
    pub fn default_filename(authority: u32) -> (r: String)
        ensures
            r@ == private_config_filename_spec(authority as int),
    {
        let mut s = "private/".to_owned();
        s.append(u64_to_string(authority as u64).as_str());
        s.append(".yaml");
        proof {
            assert(s@ =~= private_config_filename_spec(authority as int));
        }
        s
    }

    /// Where this validator stores its state.
    pub fn storage(&self) -> (r: &StorageDir)
        ensures
            *r == self.storage_path,
    {
        &self.storage_path
    }
}

} // verus!
