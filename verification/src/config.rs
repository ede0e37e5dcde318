pub mod loader;

use vstd::prelude::*;

verus! {

/// Per-repository policy, fetched fresh per event and read-only while that
/// event is processed.
#[derive(Debug, Clone, Copy)]
pub struct Config {
    pub allow_flaky_retry: bool,
    pub max_job_duration: u64,
}

impl Default for Config {
    /// The policy used when a repository supplies no configuration of its
    /// own.
    fn default() -> (c: Config)
        ensures
            c.allow_flaky_retry == true,
            c.max_job_duration == 3600,
    {
        Config { allow_flaky_retry: true, max_job_duration: 3600 }
    }
}

} // verus!
