//! A provisioned machine of the testbed.

use vstd::prelude::*;

verus! {

/// One provisioned unit of the fleet, supplied by the cloud layer.
#[derive(Debug, Clone)]
pub struct Instance {
    pub id: String,
    pub region: String,
    /// The main address, in textual form, as commands embed it.
    pub main_ip: String,
    pub tags: Vec<String>,
    pub specs: String,
    pub status: String,
}

impl Instance {
    /// Whether the cloud layer reports the instance as usable.
    pub fn is_active(&self) -> (r: bool)
        ensures
            r == (self.status@ == "running"@),
    {
        self.status.eq(&"running".to_owned())
    }
}

} // verus!
