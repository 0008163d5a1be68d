//! The remote orchestrator: a four-node fleet driven over SSH.
//!
//! Every remote operation is planned here as a finished SSH command
//! line, one per node; the process layer runs the commands — fanned
//! out, one task per node — and hands back one outcome per node.
//! Fan-out is best-effort: a failing node is surfaced by name by
//! [`RemoteNetworkOrchestrator::summarize_fleet_outcomes`] while the
//! others proceed.

use vstd::prelude::*;
use vstd::string::StringExecFns;

use crate::error::OrchestratorError;
use crate::num::{dec_rep, u64_to_string, usize_to_string};
use crate::ssh::{ssh_command_spec, RemoteNode};

verus! {

/// How many nodes a remote fleet runs.
pub const REMOTE_COMMITTEE_SIZE: usize = 4;

/// The command starting a node's container: detached, its RPC and
/// bridge ports published, state under the node's data directory.
pub open spec fn container_start_spec(n: RemoteNode) -> Seq<char> {
    "docker run -d --name mysticeti-node"@ + dec_rep(n.authority_index as nat) + " -p "@ + dec_rep(
        n.rpc_port as nat,
    ) + ":26657 -p "@ + dec_rep(n.abci_port as nat) + ":"@ + dec_rep(n.abci_port as nat)
        + " -v ~/mysticeti-data:/app/data -e RUST_LOG=info scalarorg/mysticeti:latest --authority-index "@
        + dec_rep(n.authority_index as nat) + " --rpc-port 26657 --abci-port "@ + dec_rep(
        n.abci_port as nat,
    ) + " --working-directory /app/data"@
}

/// The command stopping and removing a node's container.
pub open spec fn container_stop_spec(n: RemoteNode) -> Seq<char> {
    "docker stop mysticeti-node"@ + dec_rep(n.authority_index as nat)
        + " && docker rm mysticeti-node"@ + dec_rep(n.authority_index as nat)
}

/// A URL on a node's RPC port under `path`.
pub open spec fn node_url_spec(n: RemoteNode, path: Seq<char>) -> Seq<char> {
    "http://"@ + n.host@ + ":"@ + dec_rep(n.rpc_port as nat) + path
}

/// The node indices whose outcome reports failure, in order.
pub open spec fn failed_of(s: Seq<(u32, bool)>) -> Seq<u32>
    decreases s.len(),
{
    if s.len() == 0 {
        Seq::empty()
    } else {
        let rest = failed_of(s.drop_last());
        if s.last().1 {
            rest
        } else {
            rest.push(s.last().0)
        }
    }
}

/// The indices rendered as text, comma-separated.
pub open spec fn indices_text(ids: Seq<u32>) -> Seq<char>
    decreases ids.len(),
{
    if ids.len() == 0 {
        Seq::empty()
    } else if ids.len() == 1 {
        dec_rep(ids[0] as nat)
    } else {
        indices_text(ids.drop_last()) + ", "@ + dec_rep(ids.last() as nat)
    }
}

/// Drives one run against a fleet of remote nodes.
pub struct RemoteNetworkOrchestrator {
    /// The fleet, one node per authority index.
    pub nodes: Vec<RemoteNode>,
}

impl RemoteNetworkOrchestrator {
    /// An orchestrator over the given fleet, which must hold exactly
    /// one node per seat of the committee.
    pub fn new(nodes: Vec<RemoteNode>) -> (r: Result<Self, OrchestratorError>)
        ensures
            r is Ok <==> nodes@.len() == REMOTE_COMMITTEE_SIZE,
            r matches Ok(o) ==> o.nodes == nodes,
            r matches Err(e) ==> (e matches OrchestratorError::Configuration { message }
                && message@ == "expected "@ + dec_rep(REMOTE_COMMITTEE_SIZE as nat) + " nodes, got "@
                + dec_rep(nodes@.len())),
    {
        if nodes.len() == REMOTE_COMMITTEE_SIZE {
            Ok(RemoteNetworkOrchestrator { nodes })
        } else {
            let mut message = "expected ".to_owned();
            message.append(usize_to_string(REMOTE_COMMITTEE_SIZE).as_str());
            message.append(" nodes, got ");
            message.append(usize_to_string(nodes.len()).as_str());
            proof {
                assert(message@ =~= "expected "@ + dec_rep(REMOTE_COMMITTEE_SIZE as nat)
                    + " nodes, got "@ + dec_rep(nodes@.len()));
            }
            Err(OrchestratorError::Configuration { message })
        }
    }

    /// The per-node SSH commands checking that a container runtime is
    /// present, in fleet order.
    pub fn setup_check_plan(&self) -> (r: Vec<String>)
        ensures
            r@.len() == self.nodes@.len(),
            forall|i: int|
                0 <= i < r@.len() ==> #[trigger] r@[i]@ == ssh_command_spec(
                    self.nodes@[i],
                    "docker --version"@,
                ),
    {
        let mut r: Vec<String> = Vec::new();
        let mut i: usize = 0;
        while i < self.nodes.len()
            invariant
                i <= self.nodes@.len(),
                r@.len() == i,
                forall|k: int|
                    0 <= k < i ==> #[trigger] r@[k]@ == ssh_command_spec(
                        self.nodes@[k],
                        "docker --version"@,
                    ),
            decreases self.nodes@.len() - i,
        {
            r.push(self.nodes[i].ssh_command("docker --version"));
            i = i + 1;
        }
        r
    }

    /// The commands installing a container runtime on a node that
    /// lacks one, in order, before SSH wrapping.
    pub fn docker_install_commands() -> (r: Vec<String>)
        ensures
            r@.len() == 7,
            r@[0]@ == "sudo apt-get update"@,
            r@[1]@
                == "sudo apt-get install -y apt-transport-https ca-certificates curl gnupg lsb-release"@,
            r@[2]@
                == "curl -fsSL https://download.docker.com/linux/ubuntu/gpg | sudo gpg --dearmor -o /usr/share/keyrings/docker-archive-keyring.gpg"@,
            r@[3]@
                == "echo \"deb [arch=amd64 signed-by=/usr/share/keyrings/docker-archive-keyring.gpg] https://download.docker.com/linux/ubuntu $(lsb_release -cs) stable\" | sudo tee /etc/apt/sources.list.d/docker.list > /dev/null"@,
            r@[4]@ == "sudo apt-get update"@,
            r@[5]@ == "sudo apt-get install -y docker-ce docker-ce-cli containerd.io"@,
            r@[6]@ == "sudo usermod -aG docker $USER"@,
    {
        let mut r: Vec<String> = Vec::new();
        r.push("sudo apt-get update".to_owned());
        r.push(
            "sudo apt-get install -y apt-transport-https ca-certificates curl gnupg lsb-release".to_owned(),
        );
        r.push(
            "curl -fsSL https://download.docker.com/linux/ubuntu/gpg | sudo gpg --dearmor -o /usr/share/keyrings/docker-archive-keyring.gpg".to_owned(),
        );
        r.push(
            "echo \"deb [arch=amd64 signed-by=/usr/share/keyrings/docker-archive-keyring.gpg] https://download.docker.com/linux/ubuntu $(lsb_release -cs) stable\" | sudo tee /etc/apt/sources.list.d/docker.list > /dev/null".to_owned(),
        );
        r.push("sudo apt-get update".to_owned());
        r.push("sudo apt-get install -y docker-ce docker-ce-cli containerd.io".to_owned());
        r.push("sudo usermod -aG docker $USER".to_owned());
        r
    }

    /// The per-node SSH commands preparing the data directory, pulling
    /// the image and starting the container, in that order per node.
    pub fn start_plan(&self) -> (r: Vec<Vec<String>>)
        ensures
            r@.len() == self.nodes@.len(),
            forall|i: int|
                0 <= i < r@.len() ==> {
                    &&& #[trigger] r@[i]@.len() == 3
                    &&& r@[i]@[0]@ == ssh_command_spec(
                        self.nodes@[i],
                        "mkdir -p ~/mysticeti-data"@,
                    )
                    &&& r@[i]@[1]@ == ssh_command_spec(
                        self.nodes@[i],
                        "docker pull scalarorg/mysticeti:latest"@,
                    )
                    &&& r@[i]@[2]@ == ssh_command_spec(
                        self.nodes@[i],
                        container_start_spec(self.nodes@[i]),
                    )
                },
    {
        let mut r: Vec<Vec<String>> = Vec::new();
        let mut i: usize = 0;
        while i < self.nodes.len()
            invariant
                i <= self.nodes@.len(),
                r@.len() == i,
                forall|k: int|
                    0 <= k < i ==> {
                        &&& #[trigger] r@[k]@.len() == 3
                        &&& r@[k]@[0]@ == ssh_command_spec(
                            self.nodes@[k],
                            "mkdir -p ~/mysticeti-data"@,
                        )
                        &&& r@[k]@[1]@ == ssh_command_spec(
                            self.nodes@[k],
                            "docker pull scalarorg/mysticeti:latest"@,
                        )
                        &&& r@[k]@[2]@ == ssh_command_spec(
                            self.nodes@[k],
                            container_start_spec(self.nodes@[k]),
                        )
                    },
            decreases self.nodes@.len() - i,
        {
            let node = &self.nodes[i];
            let mut per_node: Vec<String> = Vec::new();
            per_node.push(node.ssh_command("mkdir -p ~/mysticeti-data"));
            per_node.push(node.ssh_command("docker pull scalarorg/mysticeti:latest"));
            let start = Self::container_start_command(node);
            per_node.push(node.ssh_command(start.as_str()));
            r.push(per_node);
            i = i + 1;
        }
        r
    }

    /// The per-node SSH commands stopping and removing the containers.
    pub fn stop_plan(&self) -> (r: Vec<String>)
        ensures
            r@.len() == self.nodes@.len(),
            forall|i: int|
                0 <= i < r@.len() ==> #[trigger] r@[i]@ == ssh_command_spec(
                    self.nodes@[i],
                    container_stop_spec(self.nodes@[i]),
                ),
    {
        let mut r: Vec<String> = Vec::new();
        let mut i: usize = 0;
        while i < self.nodes.len()
            invariant
                i <= self.nodes@.len(),
                r@.len() == i,
                forall|k: int|
                    0 <= k < i ==> #[trigger] r@[k]@ == ssh_command_spec(
                        self.nodes@[k],
                        container_stop_spec(self.nodes@[k]),
                    ),
            decreases self.nodes@.len() - i,
        {
            let node = &self.nodes[i];
            let stop = Self::container_stop_command(node);
            r.push(node.ssh_command(stop.as_str()));
            i = i + 1;
        }
        r
    }

    /// The command starting `node`'s container, before SSH wrapping.
    pub fn container_start_command(node: &RemoteNode) -> (r: String)
        ensures
            r@ == container_start_spec(*node),
    {
        let index = u64_to_string(node.authority_index as u64);
        let rpc = u64_to_string(node.rpc_port as u64);
        let abci = u64_to_string(node.abci_port as u64);
        let mut s = "docker run -d --name mysticeti-node".to_owned();
        s.append(index.as_str());
        s.append(" -p ");
        s.append(rpc.as_str());
        s.append(":26657 -p ");
        s.append(abci.as_str());
        s.append(":");
        s.append(abci.as_str());
        s.append(
            " -v ~/mysticeti-data:/app/data -e RUST_LOG=info scalarorg/mysticeti:latest --authority-index ",
        );
        s.append(index.as_str());
        s.append(" --rpc-port 26657 --abci-port ");
        s.append(abci.as_str());
        s.append(" --working-directory /app/data");
        proof {
            assert(s@ =~= container_start_spec(*node));
        }
        s
    }

    /// The command stopping `node`'s container, before SSH wrapping.
    pub fn container_stop_command(node: &RemoteNode) -> (r: String)
        ensures
            r@ == container_stop_spec(*node),
    {
        let index = u64_to_string(node.authority_index as u64);
        let mut s = "docker stop mysticeti-node".to_owned();
        s.append(index.as_str());
        s.append(" && docker rm mysticeti-node");
        s.append(index.as_str());
        proof {
            assert(s@ =~= container_stop_spec(*node));
        }
        s
    }

    /// The health endpoint of each node, in fleet order.
    pub fn health_urls(&self) -> (r: Vec<String>)
        ensures
            r@.len() == self.nodes@.len(),
            forall|i: int|
                0 <= i < r@.len() ==> #[trigger] r@[i]@ == node_url_spec(
                    self.nodes@[i],
                    "/health"@,
                ),
    {
        let mut r: Vec<String> = Vec::new();
        let mut i: usize = 0;
        while i < self.nodes.len()
            invariant
                i <= self.nodes@.len(),
                r@.len() == i,
                forall|k: int|
                    0 <= k < i ==> #[trigger] r@[k]@ == node_url_spec(
                        self.nodes@[k],
                        "/health"@,
                    ),
            decreases self.nodes@.len() - i,
        {
            r.push(Self::node_url(&self.nodes[i], "/health"));
            i = i + 1;
        }
        r
    }

    /// The submission endpoint for transaction `index`, round-robin
    /// across the fleet.
    pub fn submission_url(&self, index: usize) -> (r: String)
        requires
            self.nodes@.len() > 0,
        ensures
            r@ == node_url_spec(
                self.nodes@[(index as int) % (self.nodes@.len() as int)],
                "/broadcast_tx_async"@,
            ),
    {
        let node = &self.nodes[index % self.nodes.len()];
        Self::node_url(node, "/broadcast_tx_async")
    }

    /// A URL on `node`'s RPC port under `path`.
    pub fn node_url(node: &RemoteNode, path: &str) -> (r: String)
        ensures
            r@ == node_url_spec(*node, path@),
    {
        let mut s = "http://".to_owned();
        s.append(node.host.as_str());
        s.append(":");
        s.append(u64_to_string(node.rpc_port as u64).as_str());
        s.append(path);
        proof {
            assert(s@ =~= node_url_spec(*node, path@));
        }
        s
    }

    /// Fold the per-node outcomes of one fleet operation: success only
    /// when every node succeeded, otherwise one error naming exactly
    /// the nodes that failed. The operation itself is best-effort —
    /// every outcome handed in here was attempted, whatever the others
    /// did.
    pub fn summarize_fleet_outcomes(operation: &str, outcomes: &Vec<(u32, bool)>) -> (r: Result<
        (),
        OrchestratorError,
    >)
        ensures
            r is Ok <==> failed_of(outcomes@).len() == 0,
            r matches Err(e) ==> (e matches OrchestratorError::Protocol { message } && message@
                == operation@ + " failed on node "@ + indices_text(failed_of(outcomes@))),
    {
        let mut failed: Vec<u32> = Vec::new();
        let mut i: usize = 0;
        while i < outcomes.len()
            invariant
                i <= outcomes@.len(),
                failed@ == failed_of(outcomes@.subrange(0, i as int)),
            decreases outcomes@.len() - i,
        {
            proof {
                assert(outcomes@.subrange(0, i + 1).drop_last() =~= outcomes@.subrange(
                    0,
                    i as int,
                ));
            }
            let (index, success) = outcomes[i];
            if !success {
                failed.push(index);
            }
            i = i + 1;
        }
        proof {
            assert(outcomes@.subrange(0, outcomes@.len() as int) =~= outcomes@);
        }
        if failed.len() == 0 {
            Ok(())
        } else {
            let mut list = String::new();
            let mut j: usize = 0;
            while j < failed.len()
                invariant
                    j <= failed@.len(),
                    list@ == indices_text(failed@.subrange(0, j as int)),
                decreases failed@.len() - j,
            {
                proof {
                    assert(failed@.subrange(0, j + 1).drop_last() =~= failed@.subrange(
                        0,
                        j as int,
                    ));
                }
                if j > 0 {
                    list.append(", ");
                }
                list.append(u64_to_string(failed[j] as u64).as_str());
                j = j + 1;
            }
            proof {
                assert(failed@.subrange(0, failed@.len() as int) =~= failed@);
            }
            let mut message = operation.to_owned();
            message.append(" failed on node ");
            message.append(list.as_str());
            Err(OrchestratorError::Protocol { message })
        }
    }
}

} // verus!
