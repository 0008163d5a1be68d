//! The error taxonomy of the engine.
//!
//! Configuration errors are fatal and detected before a run starts;
//! connection, timeout and protocol errors are per-node and usually
//! non-fatal to a fleet operation; a search-state error reports a
//! generator whose bound invariant no longer holds.

use vstd::prelude::*;

verus! {

/// One error of the orchestration engine, with a human-readable message.
#[derive(Debug, Clone)]
pub enum OrchestratorError {
    /// A missing or malformed setting: bad fault count, missing host, …
    Configuration { message: String },
    /// A node could not be reached over SSH or HTTP.
    Connection { message: String },
    /// A phase (readiness poll, load drive) ran out of time.
    Timeout { message: String },
    /// A remote command finished with a non-zero exit on every node.
    Protocol { message: String },
    /// The breaking-point search reached an incoherent bound state.
    SearchState { message: String },
}

impl OrchestratorError {
    /// The message carried by any variant.
    pub open spec fn spec_message(&self) -> Seq<char> {
        match self {
            OrchestratorError::Configuration { message } => message@,
            OrchestratorError::Connection { message } => message@,
            OrchestratorError::Timeout { message } => message@,
            OrchestratorError::Protocol { message } => message@,
            OrchestratorError::SearchState { message } => message@,
        }
    }

    /// Read the message of this error.
    pub fn message(&self) -> (m: &String)
        ensures
            m@ == self.spec_message(),
    {
        match self {
            OrchestratorError::Configuration { message } => message,
            OrchestratorError::Connection { message } => message,
            OrchestratorError::Timeout { message } => message,
            OrchestratorError::Protocol { message } => message,
            OrchestratorError::SearchState { message } => message,
        }
    }
}

} // verus!
