//! A worker and the runners that it hands its jobs to.

use std::sync::Arc;
use std::time::Duration;

use vstd::prelude::*;

use crate::local_queue::state::{LocalQueue, LocalQueueParams};
use crate::options::WorkerOptions;
use crate::schema::Schema;
use crate::shared::share;

verus! {

/// How a worker shuts down.
#[derive(Debug, Clone, Copy)]
pub struct ShutdownConfig {
    /// How long running work may take to come to its end.
    pub grace_period: Duration,
}

/// A worker. `handles` holds what it shares with its runners: the registered jobs,
/// the database, the task details, the claim coordinator, the shutdown signal, the
/// extensions, the hooks and the batchers.
pub struct Worker<H> {
    pub worker_id: String,
    pub schema: Schema,
    pub options: WorkerOptions,
    pub concurrency: usize,
    pub poll_interval: Duration,
    pub use_local_time: bool,
    pub shutdown_config: ShutdownConfig,
    pub handles: Arc<H>,
}

/// What it takes to run jobs of a worker.
pub struct WorkerRunner<H, T> {
    pub worker_id: String,
    pub schema: Schema,
    pub use_local_time: bool,
    pub shutdown_config: ShutdownConfig,
    pub handles: Arc<H>,
    /// Counts the accepted jobs, if they come from a local queue.
    pub accepted_tracker: Option<Arc<T>>,
}

impl<H> Worker<H> {
    /// Creates a runner of this worker. It shares the handles of the worker and does
    /// not count accepted jobs.
    pub fn runner<T>(&self) -> (runner: WorkerRunner<H, T>)
        ensures
            runner.worker_id == self.worker_id,
            runner.schema == self.schema,
            runner.use_local_time == self.use_local_time,
            runner.shutdown_config == self.shutdown_config,
            runner.handles == self.handles,
            runner.accepted_tracker is None,
    {
        WorkerRunner {
            worker_id: self.worker_id.clone(),
            schema: self.schema.clone(),
            use_local_time: self.use_local_time,
            shutdown_config: self.shutdown_config,
            handles: share(&self.handles),
            accepted_tracker: None,
        }
    }

    /// Creates the local queue of this worker, if it uses one, together with the
    /// number of signals that its channel has to hold.
    pub fn create_local_queue<C>(&self) -> (created: Option<(LocalQueue<C>, usize)>)
        requires
            self.options.active_config() is Some ==> self.concurrency * 2 <= usize::MAX,
        ensures
            self.options.forbidden_flags@.len() > 0 ==> created is None,
            self.options.forbidden_flags@.len() == 0 ==> (created is Some
                <==> self.options.local_queue_config is Some),
            created matches Some((queue, signals)) ==> self.options.local_queue_config == Some(
                queue.0.config,
            ),
            match self.options.active_config() {
                None => created is None,
                Some(config) => created matches Some((queue, signals)) && {
                    &&& signals == self.concurrency * 2
                    &&& queue.0.config == config
                    &&& queue.0.worker_id == self.worker_id
                    &&& queue.0.poll_interval == self.poll_interval
                    &&& queue.0.continuous
                    &&& queue.0.shutdown_grace_period == self.shutdown_config.grace_period
                    &&& queue.0.wf()
                    &&& queue.0.is_new(
                        LocalQueueParams {
                            config,
                            worker_id: self.worker_id,
                            poll_interval: self.poll_interval,
                            continuous: true,
                            shutdown_grace_period: self.shutdown_config.grace_period,
                        },
                    )
                },
            },
    {
        match self.options.active_local_queue() {
            None => None,
            Some(config) => {
                let queue: LocalQueue<C> = LocalQueue::new(
                    LocalQueueParams {
                        config,
                        worker_id: self.worker_id.clone(),
                        poll_interval: self.poll_interval,
                        continuous: true,
                        shutdown_grace_period: self.shutdown_config.grace_period,
                    },
                );
                Some((queue, self.concurrency * 2))
            },
        }
    }
}

} // verus!
