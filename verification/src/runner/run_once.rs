//! Workers that process all available jobs and then stop.

use vstd::prelude::*;

use crate::claim_coordinator::ClaimCoordinator;
use crate::job::Job;

verus! {

/// A job under way in a worker that runs once: what is needed when it is over.
#[derive(Debug, Clone, Copy, PartialEq, Eq, Structural)]
pub struct RunOnceJob {
    pub task_id: i32,
    /// Whether the job has an ordering key, so that its end may free another job.
    pub has_queue: bool,
}

impl RunOnceJob {
    /// Notes what is needed of a job.
    pub fn of<C>(job: &Job<C>) -> (run: Self)
        ensures
            run == (RunOnceJob { task_id: job.task_id, has_queue: job.job_queue_id is Some }),
    {
        RunOnceJob { task_id: job.task_id, has_queue: job.job_queue_id.is_some() }
    }

    /// Says whether another job is to be claimed now that this one is over, however it
    /// ended. If so, the scan of its task starts from the beginning: the job that was
    /// waiting for this one may stand anywhere.
    pub fn job_processed(&self, coordinator: &mut ClaimCoordinator) -> (claim_next: bool)
        ensures
            claim_next == self.has_queue,
            !claim_next ==> *final(coordinator) == *old(coordinator),
            claim_next ==> {
                &&& final(coordinator).same_setup(*old(coordinator))
                &&& final(coordinator).state.queue_rotation == old(
                    coordinator,
                ).state.queue_rotation
                &&& final(coordinator).state.ordering_cursors@ == old(
                    coordinator,
                ).state.ordering_cursors@.insert(self.task_id, None)
                &&& final(coordinator).state.cursor(self.task_id) is None
            },
            old(coordinator).wf() ==> final(coordinator).wf(),
    {
        if !self.has_queue {
            return false;
        }
        coordinator.restart_task_scan(self.task_id);
        true
    }

    /// The job to go on with, if the claim brought one in. A claim that failed counts
    /// as one that brought in nothing.
    pub fn next_job<C, E>(claim: Result<Option<Job<C>>, E>) -> (job: Option<Job<C>>)
        ensures
            job == match claim {
                Ok(claimed) => claimed,
                Err(_) => None,
            },
    {
        match claim {
            Ok(claimed) => claimed,
            Err(_) => None,
        }
    }
}

} // verus!
