//! Remote nodes and the SSH command lines that reach them.
//!
//! A remote command runs non-interactively with host-key checking
//! disabled (the fleet is a disposable testbed) and a bounded
//! connection timeout. The full command line is pinned character by
//! character by [`ssh_command_spec`].

use vstd::prelude::*;
use vstd::string::StringExecFns;

use crate::error::OrchestratorError;
use crate::num::{dec_rep, parse_number_spec, parse_u128_at, u64_to_string};

verus! {

/// The RPC port every node serves clients on.
pub const REMOTE_RPC_PORT: u16 = 26657;

/// The base of the per-node bridge port range: node `i` exposes its
/// bridge on this port plus `i`.
pub const REMOTE_ABCI_PORT_BASE: u16 = 26670;

/// One node of a remote fleet: its address, SSH credentials and the
/// ports its roles listen on, derived from the authority index.
#[derive(Debug, Clone)]
pub struct RemoteNode {
    pub host: String,
    pub port: u16,
    pub ssh_user: String,
    pub ssh_key_path: String,
    pub authority_index: u32,
    pub rpc_port: u16,
    pub abci_port: u16,
    pub connect_timeout_secs: u64,
}

/// What a port given as text parses to: the whole string must be one
/// decimal number that fits a `u16`.
pub open spec fn spec_parse_port(s: Seq<char>) -> Option<u16> {
    match parse_number_spec(s, 0) {
        Some(p) => if p.1 == s.len() && p.0 <= u16::MAX {
            Some(p.0 as u16)
        } else {
            None
        },
        None => None,
    }
}

/// Parse a port number; the whole string must be the number.
pub fn parse_port(s: &str) -> (r: Option<u16>)
    ensures
        r == spec_parse_port(s@),
{
    match parse_u128_at(s, 0) {
        Some((value, end)) => {
            if end == s.unicode_len() && value <= u16::MAX as u128 {
                Some(value as u16)
            } else {
                None
            }
        },
        None => None,
    }
}

/// The exact SSH command line reaching `n` to run `command`.
pub open spec fn ssh_command_spec(n: RemoteNode, command: Seq<char>) -> Seq<char> {
    "ssh -i "@ + n.ssh_key_path@ + " -p "@ + dec_rep(n.port as nat) + " "@ + n.ssh_user@ + "@"@
        + n.host@ + " -o StrictHostKeyChecking=no -o ConnectTimeout="@ + dec_rep(
        n.connect_timeout_secs as nat,
    ) + " '"@ + command + "'"@
}

impl RemoteNode {
    /// Build the node at `index` from configuration text, typically
    /// environment values gathered by the caller: a host is required;
    /// SSH port, user and key fall back to the testbed defaults. The
    /// role ports are derived from the index alone.
    pub fn from_values(
        index: u32,
        host: String,
        port_text: Option<String>,
        user: Option<String>,
        key: Option<String>,
        connect_timeout_secs: u64,
    ) -> (r: Result<RemoteNode, OrchestratorError>)
        requires
            index <= u16::MAX - REMOTE_ABCI_PORT_BASE,
        ensures
            r is Err <==> (port_text matches Some(t) && spec_parse_port(t@) is None),
            r matches Err(e) ==> (e matches OrchestratorError::Configuration { message }
                && message@ == "invalid SSH port for node "@ + dec_rep(index as nat)),
            r matches Ok(n) ==> {
                &&& n.host == host
                &&& n.port == (match port_text {
                    Some(t) => spec_parse_port(t@).unwrap(),
                    None => 22u16,
                })
                &&& n.ssh_user@ == (match user {
                    Some(u) => u@,
                    None => "ubuntu"@,
                })
                &&& n.ssh_key_path@ == (match key {
                    Some(k) => k@,
                    None => "~/.ssh/id_rsa"@,
                })
                &&& n.authority_index == index
                &&& n.rpc_port == REMOTE_RPC_PORT
                &&& n.abci_port == REMOTE_ABCI_PORT_BASE + index
                &&& n.connect_timeout_secs == connect_timeout_secs
            },
    {
        let port: u16;
        match &port_text {
            Some(t) => {
                match parse_port(t.as_str()) {
                    Some(p) => {
                        port = p;
                    },
                    None => {
                        let mut message = "invalid SSH port for node ".to_owned();
                        message.append(u64_to_string(index as u64).as_str());
                        proof {
                            assert(message@ =~= "invalid SSH port for node "@ + dec_rep(
                                index as nat,
                            ));
                        }
                        return Err(OrchestratorError::Configuration { message });
                    },
                }
            },
            None => {
                port = 22;
            },
        }
        let ssh_user = match user {
            Some(u) => u,
            None => "ubuntu".to_owned(),
        };
        let ssh_key_path = match key {
            Some(k) => k,
            None => "~/.ssh/id_rsa".to_owned(),
        };
        Ok(
            RemoteNode {
                host,
                port,
                ssh_user,
                ssh_key_path,
                authority_index: index,
                rpc_port: REMOTE_RPC_PORT,
                abci_port: REMOTE_ABCI_PORT_BASE + index as u16,
                connect_timeout_secs,
            },
        )
    }

    /// The SSH command line running `command` on this node,
    /// non-interactive, with host-key checking disabled and the node's
    /// connection timeout: exactly [`ssh_command_spec`].
    pub fn ssh_command(&self, command: &str) -> (r: String)
        ensures
            r@ == ssh_command_spec(*self, command@),
    {
        let mut s = "ssh -i ".to_owned();
        s.append(self.ssh_key_path.as_str());
        s.append(" -p ");
        let port_text = u64_to_string(self.port as u64);
        s.append(port_text.as_str());
        s.append(" ");
        s.append(self.ssh_user.as_str());
        s.append("@");
        s.append(self.host.as_str());
        s.append(" -o StrictHostKeyChecking=no -o ConnectTimeout=");
        let timeout_text = u64_to_string(self.connect_timeout_secs);
        s.append(timeout_text.as_str());
        s.append(" '");
        s.append(command);
        s.append("'");
        proof {
            assert(s@ =~= ssh_command_spec(*self, command@));
        }
        s
    }
}

/// Fold the observations of one remote execution into this layer's
/// result: a timeout and an unreachable or unauthenticated host are
/// errors of their own kinds, while a non-zero remote exit is not an
/// error at this layer — the exit status is handed to the caller, who
/// decides its relevance.
pub fn ssh_outcome(
    reached: bool,
    authenticated: bool,
    timed_out: bool,
    exit_status: i32,
) -> (r: Result<i32, OrchestratorError>)
    ensures
        timed_out ==> (r matches Err(e) && e matches OrchestratorError::Timeout { message }
            && message@ == "remote command timed out"@),
        !timed_out && !reached ==> (r matches Err(e) && e matches OrchestratorError::Connection {
            message,
        } && message@ == "host unreachable"@),
        !timed_out && reached && !authenticated ==> (r matches Err(e) && e
            matches OrchestratorError::Connection { message } && message@
            == "authentication failed"@),
        !timed_out && reached && authenticated ==> r == Ok::<i32, OrchestratorError>(exit_status),
{
    if timed_out {
        Err(OrchestratorError::Timeout { message: "remote command timed out".to_owned() })
    } else if !reached {
        Err(OrchestratorError::Connection { message: "host unreachable".to_owned() })
    } else if !authenticated {
        Err(OrchestratorError::Connection { message: "authentication failed".to_owned() })
    } else {
        Ok(exit_status)
    }
}

} // verus!
