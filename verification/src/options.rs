//! Options of a worker that concern how it gets its jobs.

use vstd::prelude::*;

use crate::local_queue::config::LocalQueueConfig;

verus! {

/// How a worker gets its jobs.
pub struct WorkerOptions {
    /// The local queue, if there is one.
    pub local_queue_config: Option<LocalQueueConfig>,
    /// Flags of jobs that the worker must not take.
    pub forbidden_flags: Vec<String>,
}

impl Default for WorkerOptions {
    /// No local queue, and no forbidden flag.
    fn default() -> (options: Self)
        ensures
            options.local_queue_config is None,
            options.forbidden_flags@ == Seq::<String>::empty(),
    {
        WorkerOptions { local_queue_config: None, forbidden_flags: Vec::new() }
    }
}

impl WorkerOptions {
    /// Enables the local queue with the specified configuration.
    ///
    /// The local queue fetches jobs in batches to reduce the load on the database,
    /// trading latency for throughput. Jobs are cached locally and distributed to
    /// workers without further queries until the cache is empty. Jobs that are not
    /// taken within the time to live go back to the database.
    ///
    /// One coordinator divides the process-wide size fairly over all registered task
    /// identifiers. Workers with forbidden flags bypass the local queue and fetch
    /// directly, on the same bounded claim path.
    pub fn local_queue(self, config: LocalQueueConfig) -> (options: Self)
        ensures
            options == (WorkerOptions { local_queue_config: Some(config), ..self }),
    {
        WorkerOptions { local_queue_config: Some(config), ..self }
    }

    /// The local queue that the worker uses: the configured one, but none if the
    /// worker has forbidden flags.
    pub open spec fn active_config(self) -> Option<LocalQueueConfig> {
        if self.forbidden_flags@.len() == 0 {
            self.local_queue_config
        } else {
            None
        }
    }

    /// The local queue that the worker uses, if it uses one.
    pub fn active_local_queue(&self) -> (config: Option<LocalQueueConfig>)
        ensures
            config == self.active_config(),
            self.forbidden_flags@.len() > 0 ==> config is None,
            self.forbidden_flags@.len() == 0 ==> config == self.local_queue_config,
    {
        if self.forbidden_flags.len() == 0 {
            self.local_queue_config
        } else {
            None
        }
    }
}

/// Law: a worker uses the local queue that it was given if and only if it has no
/// forbidden flag.
pub proof fn law_forbidden_flags_bypass_the_local_queue(options: WorkerOptions)
    ensures
        options.forbidden_flags@.len() > 0 ==> options.active_config() is None,
        options.forbidden_flags@.len() == 0 ==> options.active_config()
            == options.local_queue_config,
{
}

} // verus!
