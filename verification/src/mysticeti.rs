//! The Mysticeti protocol behind the engine's protocol abstraction.
//!
//! Every transaction is interpreted as both owned and shared; the one
//! benchmark flavour is the transaction size in bytes. The command
//! strings are pinned exactly by the `*_spec` functions beside them.

use vstd::prelude::*;
use vstd::string::StrSliceExecFns;
use vstd::string::StringExecFns;

use crate::benchmark::{BenchmarkParameters, BenchmarkType};
use crate::error::OrchestratorError;
use crate::instance::Instance;
use crate::num::{dec_rep, parse_u128_at, u128_to_string, u64_to_string, usize_to_string};
use crate::protocol::{private_config_filename_spec, PrivateConfig, ProtocolCommands, ProtocolMetrics};
use crate::settings::Settings;

verus! {

/// The Prometheus counter holding a run's elapsed time.
pub const METRIC_BENCHMARK_DURATION: &'static str = "benchmark_duration";

/// The Prometheus counter holding the number of finalized transactions.
pub const METRIC_TOTAL_TRANSACTIONS: &'static str = "latency_s_count";

/// The Prometheus histogram of end-to-end latency.
pub const METRIC_LATENCY_BUCKETS: &'static str = "latency_s";

/// The Prometheus counter holding the cumulative latency.
pub const METRIC_LATENCY_SUM: &'static str = "latency_s_sum";

/// The Prometheus counter holding the cumulative squared latency.
pub const METRIC_LATENCY_SQUARED_SUM: &'static str = "latency_squared_s";

/// The benchmark flavour Mysticeti supports: the transaction size.
#[derive(Debug, Clone, Copy, PartialEq, Eq, Structural)]
pub struct MysticetiBenchmarkType {
    /// The transaction size in bytes.
    pub transaction_size: usize,
}

impl MysticetiBenchmarkType {
    /// A flavour submitting transactions of `transaction_size` bytes.
    pub fn new(transaction_size: usize) -> (r: Self)
        ensures
            r.transaction_size == transaction_size,
    {
        MysticetiBenchmarkType { transaction_size }
    }
}

impl BenchmarkType for MysticetiBenchmarkType {
    /// The default flavour: 512-byte transactions.
    open spec fn spec_default() -> Self {
        MysticetiBenchmarkType { transaction_size: 512 }
    }

    fn default_value() -> (r: Self) {
        MysticetiBenchmarkType { transaction_size: 512 }
    }
}

impl Default for MysticetiBenchmarkType {
    /// The default flavour: 512-byte transactions.
    fn default() -> (r: Self)
        ensures
            r.transaction_size == 512,
    {
        MysticetiBenchmarkType { transaction_size: 512 }
    }
}

impl core::str::FromStr for MysticetiBenchmarkType {
    type Err = OrchestratorError;

    /// Read a flavour from its transaction size in decimal.
    fn from_str(s: &str) -> Result<Self, OrchestratorError> {
        match parse_u128_at(s, 0) {
            Some((value, end)) => {
                if end == s.unicode_len() && value <= usize::MAX as u128 {
                    Ok(MysticetiBenchmarkType { transaction_size: value as usize })
                } else {
                    Err(
                        OrchestratorError::Configuration {
                            message: "invalid transaction size".to_owned(),
                        },
                    )
                }
            },
            None => Err(
                OrchestratorError::Configuration {
                    message: "invalid transaction size".to_owned(),
                },
            ),
        }
    }
}

/// The instances' addresses joined by single spaces.
pub open spec fn ips_joined(instances: Seq<Instance>) -> Seq<char>
    decreases instances.len(),
{
    if instances.len() == 0 {
        Seq::empty()
    } else if instances.len() == 1 {
        instances[0].main_ip@
    } else {
        ips_joined(instances.drop_last()) + " "@ + instances.last().main_ip@
    }
}

/// The genesis command over a fleet: load the toolchain environment,
/// then generate a committee over the instances' addresses under the
/// working directory.
pub open spec fn genesis_command_spec(working_dir: Seq<char>, instances: Seq<Instance>) -> Seq<
    char,
> {
    "source $HOME/.cargo/env && RUSTFLAGS=-C\\ target-cpu=native cargo run --release --bin mysticeti -- benchmark-genesis --ips "@
        + ips_joined(instances) + " --working-directory "@ + working_dir
}

/// The start command of the node at `authority`: write a start script
/// exporting the per-node rate and the transaction size, make it
/// executable, and run it.
pub open spec fn node_command_spec(
    working_dir: Seq<char>,
    authority: int,
    load_per_node: int,
    transaction_size: int,
) -> Seq<char> {
    "echo -e '#!/bin/bash -e\\nsource $HOME/.cargo/env\\nexport TPS="@ + dec_rep(
        load_per_node as nat,
    ) + "\\nexport TRANSACTION_SIZE="@ + dec_rep(transaction_size as nat)
        + "\\nRUSTFLAGS=-C\\ target-cpu=native cargo run --release --bin mysticeti -- run --authority "@
        + dec_rep(authority as nat) + " --committee-path "@ + working_dir
        + "/committee.yaml --parameters-path "@ + working_dir
        + "/parameters.yaml --private-config-path "@ + working_dir + "/"@
        + private_config_filename_spec(authority)
        + "' > mysticeti-start.sh && chmod +x mysticeti-start.sh && ./mysticeti-start.sh"@
}

/// The metrics URL of the instance at `index`.
pub open spec fn metrics_path_spec(instance: Instance, index: int) -> Seq<char> {
    "http://"@ + instance.main_ip@ + ":"@ + dec_rep((8000 + index) as nat) + "/metrics"@
}

/// All configuration information to run a Mysticeti validator or
/// client.
pub struct MysticetiProtocol {
    /// The directory every deployment path hangs under.
    pub working_dir: String,
}

impl MysticetiProtocol {
    /// The command generator for the testbed described by `settings`.
    pub fn new(settings: &Settings) -> (r: Self)
        ensures
            r.working_dir@ == settings.working_dir@,
    {
        MysticetiProtocol { working_dir: settings.working_dir.clone() }
    }

    /// The start command of the node at `authority` under `parameters`:
    /// exactly [`node_command_spec`], with the per-node rate being the
    /// total load split evenly over the committee.
    pub fn node_start_command(
        &self,
        authority: u32,
        parameters: &BenchmarkParameters<MysticetiBenchmarkType>,
    ) -> (r: String)
        requires
            parameters.nodes > 0,
        ensures
            r@ == node_command_spec(
                self.working_dir@,
                authority as int,
                (parameters.load / parameters.nodes) as int,
                parameters.benchmark_type.transaction_size as int,
            ),
    {
        let tps = usize_to_string(parameters.load / parameters.nodes);
        let size = usize_to_string(parameters.benchmark_type.transaction_size);
        let index = u64_to_string(authority as u64);
        let mut s = "echo -e '#!/bin/bash -e\\nsource $HOME/.cargo/env\\nexport TPS=".to_owned();
        s.append(tps.as_str());
        s.append("\\nexport TRANSACTION_SIZE=");
        s.append(size.as_str());
        s.append(
            "\\nRUSTFLAGS=-C\\ target-cpu=native cargo run --release --bin mysticeti -- run --authority ",
        );
        s.append(index.as_str());
        s.append(" --committee-path ");
        s.append(self.working_dir.as_str());
        s.append("/committee.yaml --parameters-path ");
        s.append(self.working_dir.as_str());
        s.append("/parameters.yaml --private-config-path ");
        s.append(self.working_dir.as_str());
        s.append("/");
        let config = PrivateConfig::default_filename(authority);
        s.append(config.as_str());
        s.append("' > mysticeti-start.sh && chmod +x mysticeti-start.sh && ./mysticeti-start.sh");
        proof {
            assert(s@ =~= node_command_spec(
                self.working_dir@,
                authority as int,
                (parameters.load / parameters.nodes) as int,
                parameters.benchmark_type.transaction_size as int,
            ));
        }
        s
    }
}

impl ProtocolCommands<MysticetiBenchmarkType> for MysticetiProtocol {
    /// Mysticeti needs no OS packages beyond the base image.
    fn protocol_dependencies(&self) -> Vec<String> {
        Vec::new()
    }

    /// The validators' storage, one glob under the working directory.
    fn db_directories(&self) -> (r: Vec<String>)
        ensures
            r@.len() == 1,
            r@[0]@ == self.working_dir@ + "/private/val-*/*"@,
    {
        let mut path = self.working_dir.clone();
        path.append("/private/val-*/*");
        let mut r: Vec<String> = Vec::new();
        r.push(path);
        r
    }

    /// Stop every node process.
    fn cleanup_commands(&self) -> (r: Vec<String>)
        ensures
            r@.len() == 1,
            r@[0]@ == "killall mysticeti"@,
    {
        let mut r: Vec<String> = Vec::new();
        r.push("killall mysticeti".to_owned());
        r
    }

    /// The genesis command over the fleet: exactly
    /// [`genesis_command_spec`].
    fn genesis_command(&self, instances: &Vec<Instance>) -> (r: String)
        ensures
            r@ == genesis_command_spec(self.working_dir@, instances@),
    {
        let mut ips = String::new();
        let mut i: usize = 0;
        while i < instances.len()
            invariant
                i <= instances@.len(),
                ips@ == ips_joined(instances@.subrange(0, i as int)),
            decreases instances@.len() - i,
        {
            proof {
                assert(instances@.subrange(0, i + 1).drop_last() =~= instances@.subrange(
                    0,
                    i as int,
                ));
            }
            if i > 0 {
                ips.append(" ");
            }
            ips.append(instances[i].main_ip.as_str());
            i = i + 1;
        }
        proof {
            assert(instances@.subrange(0, instances@.len() as int) =~= instances@);
        }
        let mut s =
            "source $HOME/.cargo/env && RUSTFLAGS=-C\\ target-cpu=native cargo run --release --bin mysticeti -- benchmark-genesis --ips ".to_owned();
        s.append(ips.as_str());
        s.append(" --working-directory ");
        s.append(self.working_dir.as_str());
        proof {
            assert(s@ =~= genesis_command_spec(self.working_dir@, instances@));
        }
        s
    }

    /// Follow the node process and dump its log when it exits.
    fn monitor_command(&self, instances: Vec<Instance>) -> (r: Vec<(Instance, String)>)
        ensures
            r@.len() == instances@.len(),
            forall|i: int|
                0 <= i < r@.len() ==> #[trigger] r@[i].0 == instances@[i] && r@[i].1@
                    == "tail -f --pid=$(pidof mysticeti) -f /dev/null; tail -100 node.log"@,
    {
        let ghost orig = instances@;
        let mut rest = instances;
        let mut r: Vec<(Instance, String)> = Vec::new();
        while rest.len() > 0
            invariant
                r@.len() + rest@.len() == orig.len(),
                rest@ == orig.skip(r@.len() as int),
                forall|k: int|
                    0 <= k < r@.len() ==> #[trigger] r@[k].0 == orig[k] && r@[k].1@
                        == "tail -f --pid=$(pidof mysticeti) -f /dev/null; tail -100 node.log"@,
            decreases rest@.len(),
        {
            let ghost done = r@.len() as int;
            let instance = rest.remove(0);
            proof {
                assert(orig.skip(done)[0] == orig[done]);
                assert(orig.skip(done).remove(0) =~= orig.skip(done + 1));
            }
            r.push(
                (
                    instance,
                    "tail -f --pid=$(pidof mysticeti) -f /dev/null; tail -100 node.log".to_owned(),
                ),
            );
        }
        r
    }

    /// Each instance starts the node of its position in the fleet:
    /// exactly [`node_command_spec`] per instance.
    fn node_command(
        &self,
        instances: Vec<Instance>,
        parameters: &BenchmarkParameters<MysticetiBenchmarkType>,
    ) -> (r: Vec<(Instance, String)>)
        ensures
            r@.len() == instances@.len(),
            forall|i: int|
                0 <= i < r@.len() ==> #[trigger] r@[i].0 == instances@[i] && r@[i].1@
                    == node_command_spec(
                    self.working_dir@,
                    i,
                    (parameters.load / parameters.nodes) as int,
                    parameters.benchmark_type.transaction_size as int,
                ),
    {
        let ghost orig = instances@;
        let mut rest = instances;
        let n = rest.len();
        proof {
            assert(orig.len() == n);
        }
        let mut r: Vec<(Instance, String)> = Vec::new();
        let mut index: u32 = 0;
        while rest.len() > 0
            invariant
                parameters.nodes > 0,
                orig.len() <= 0xFFFF_FFFF,
                r@.len() + rest@.len() == orig.len(),
                index == r@.len(),
                rest@ == orig.skip(r@.len() as int),
                forall|k: int|
                    0 <= k < r@.len() ==> #[trigger] r@[k].0 == orig[k] && r@[k].1@
                        == node_command_spec(
                        self.working_dir@,
                        k,
                        (parameters.load / parameters.nodes) as int,
                        parameters.benchmark_type.transaction_size as int,
                    ),
            decreases rest@.len(),
        {
            let ghost done = r@.len() as int;
            let instance = rest.remove(0);
            proof {
                assert(orig.skip(done)[0] == orig[done]);
                assert(orig.skip(done).remove(0) =~= orig.skip(done + 1));
            }
            let command = self.node_start_command(index, parameters);
            r.push((instance, command));
            index = index + 1;
        }
        r
    }

    /// Mysticeti drives load from the nodes themselves; there is no
    /// separate client to start.
    fn client_command(
        &self,
        _instances: Vec<Instance>,
        _parameters: &BenchmarkParameters<MysticetiBenchmarkType>,
    ) -> (r: Vec<(Instance, String)>)
        ensures
            r@.len() == 0,
    {
        Vec::new()
    }
}

impl ProtocolMetrics for MysticetiProtocol {
    /// Each node serves its metrics on a port derived from its
    /// position in the fleet: exactly [`metrics_path_spec`].
    fn nodes_metrics_path(&self, instances: Vec<Instance>) -> (r: Vec<(Instance, String)>)
        ensures
            r@.len() == instances@.len(),
            forall|i: int|
                0 <= i < r@.len() ==> #[trigger] r@[i].0 == instances@[i] && r@[i].1@
                    == metrics_path_spec(instances@[i], i),
    {
        let ghost orig = instances@;
        let mut rest = instances;
        let n = rest.len();
        proof {
            assert(orig.len() == n);
        }
        let mut r: Vec<(Instance, String)> = Vec::new();
        let mut index: u64 = 0;
        while rest.len() > 0
            invariant
                r@.len() + rest@.len() == orig.len(),
                index == r@.len(),
                orig.len() <= usize::MAX,
                rest@ == orig.skip(r@.len() as int),
                forall|k: int|
                    0 <= k < r@.len() ==> #[trigger] r@[k].0 == orig[k] && r@[k].1@
                        == metrics_path_spec(orig[k], k),
            decreases rest@.len(),
        {
            let ghost done = r@.len() as int;
            let instance = rest.remove(0);
            proof {
                assert(orig.skip(done)[0] == orig[done]);
                assert(orig.skip(done).remove(0) =~= orig.skip(done + 1));
            }
            let mut url = "http://".to_owned();
            url.append(instance.main_ip.as_str());
            url.append(":");
            url.append(u128_to_string(8000u128 + index as u128).as_str());
            url.append("/metrics");
            proof {
                assert(url@ =~= metrics_path_spec(orig[done], done));
            }
            r.push((instance, url));
            index = index + 1;
        }
        r
    }

    /// Until a dedicated benchmark client exists, clients are scraped
    /// where the nodes are.
    fn clients_metrics_path(&self, instances: Vec<Instance>) -> (r: Vec<(Instance, String)>)
        ensures
            r@.len() == instances@.len(),
            forall|i: int|
                0 <= i < r@.len() ==> #[trigger] r@[i].0 == instances@[i] && r@[i].1@
                    == metrics_path_spec(instances@[i], i),
    {
        self.nodes_metrics_path(instances)
    }
}

} // verus!
