//! Static testbed settings: where the fleet lives and where results go.

use vstd::prelude::*;

verus! {

/// The cloud provider hosting a remote testbed.
#[derive(Debug, Clone, Copy, PartialEq, Eq, Structural)]
pub enum CloudProvider {
    Aws,
    Vultr,
}

/// The source repository deployed on every node.
#[derive(Debug, Clone)]
pub struct Repository {
    /// Where to clone from.
    pub url: String,
    /// The commit or branch to check out.
    pub commit: String,
}

/// Everything fixed for a whole benchmark campaign: the testbed's
/// identity, credentials, machine shape and directory layout.
#[derive(Debug, Clone)]
pub struct Settings {
    pub testbed_id: String,
    pub cloud_provider: CloudProvider,
    pub token_file: String,
    pub ssh_private_key_file: String,
    pub ssh_public_key_file: Option<String>,
    pub regions: Vec<String>,
    pub specs: String,
    pub repository: Repository,
    pub working_dir: String,
    pub results_dir: String,
    pub logs_dir: String,
}

impl Settings {
    /// A small fixed settings value for unit tests.
    pub fn new_for_test() -> (r: Settings)
        ensures
            r.specs@ == "t3.medium"@,
            r.working_dir@ == "test"@,
    {
        Settings {
            testbed_id: "test".to_owned(),
            cloud_provider: CloudProvider::Aws,
            token_file: "test".to_owned(),
            ssh_private_key_file: "test".to_owned(),
            ssh_public_key_file: None,
            regions: vec!["us-west-1".to_owned()],
            specs: "t3.medium".to_owned(),
            repository: Repository {
                url: "https://github.com/test/test".to_owned(),
                commit: "test".to_owned(),
            },
            working_dir: "test".to_owned(),
            results_dir: "test".to_owned(),
            logs_dir: "test".to_owned(),
        }
    }
}

} // verus!
