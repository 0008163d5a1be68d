//! Crash-fault schedules over a node set.
//!
//! A fault model either crashes a fixed set of nodes for the whole run
//! or crashes and recovers them on a fixed interval. A model is only
//! meaningful when fewer nodes fail than the committee holds; that check
//! runs before any deployment starts.

use vstd::prelude::*;
use vstd::string::StringExecFns;

use crate::error::OrchestratorError;
use crate::num::usize_to_string;

verus! {

/// How nodes fail during a run.
#[derive(Debug, Clone, Copy, PartialEq, Eq, Structural)]
pub enum FaultsType {
    /// The faulty nodes stay down for the whole run.
    Permanent { faults: usize },
    /// The faulty nodes crash and recover, a crash every `interval_secs`.
    CrashRecovery { faults: usize, interval_secs: u64 },
}

impl Default for FaultsType {
    /// A fault-free schedule.
    fn default() -> (r: Self)
        ensures
            r == (FaultsType::Permanent { faults: 0 }),
    {
        FaultsType::Permanent { faults: 0 }
    }
}

impl FaultsType {
    /// How many nodes the schedule takes down.
    pub open spec fn spec_faults(&self) -> usize {
        match self {
            FaultsType::Permanent { faults } => *faults,
            FaultsType::CrashRecovery { faults, .. } => *faults,
        }
    }

    /// How many nodes the schedule takes down.
    pub fn number_of_faults(&self) -> (n: usize)
        ensures
            n == self.spec_faults(),
    {
        match self {
            FaultsType::Permanent { faults } => *faults,
            FaultsType::CrashRecovery { faults, .. } => *faults,
        }
    }

    /// Check the schedule against a committee size: a run needs at
    /// least one node that never fails, so exactly the models with
    /// `faults < nodes` pass.
    pub fn validate(&self, nodes: usize) -> (r: Result<(), OrchestratorError>)
        ensures
            r is Ok <==> self.spec_faults() < nodes,
            r matches Err(e) ==> (e matches OrchestratorError::Configuration { message }
                && message@ == "fault model needs "@ + crate::num::dec_rep(
                self.spec_faults() as nat,
            ) + " faulty nodes but the committee has only "@ + crate::num::dec_rep(nodes as nat)),
    {
        if self.number_of_faults() < nodes {
            Ok(())
        } else {
            let mut message = "fault model needs ".to_owned();
            message.append(usize_to_string(self.number_of_faults()).as_str());
            message.append(" faulty nodes but the committee has only ");
            message.append(usize_to_string(nodes).as_str());
            proof {
                assert(message@ =~= "fault model needs "@ + crate::num::dec_rep(
                    self.spec_faults() as nat,
                ) + " faulty nodes but the committee has only "@ + crate::num::dec_rep(
                    nodes as nat,
                ));
            }
            Err(OrchestratorError::Configuration { message })
        }
    }
}

} // verus!
