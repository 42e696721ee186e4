//! Names of the database objects that the statements mention.

use vstd::prelude::*;

verus! {

/// Qualified names of the worker's tables and functions in one database schema.
///
/// Every name is ready to stand in a statement: it carries the schema and is quoted
/// where it has to be.
pub struct Schema {
    /// The private table of jobs.
    pub jobs: String,
    /// The private table of job queues, one row per ordering key.
    pub job_queues: String,
    /// The private table with the single worker-control row.
    pub worker_control: String,
    /// The function that removes a job by its key.
    pub remove_job: String,
    /// The function that completes jobs.
    pub complete_jobs: String,
    /// The function that fails jobs for good.
    pub permanently_fail_jobs: String,
    /// The function that reschedules jobs.
    pub reschedule_jobs: String,
    /// The function that unlocks what workers hold.
    pub force_unlock_workers: String,
}

impl Clone for Schema {
    fn clone(&self) -> (copy: Self)
        ensures
            copy == *self,
    {
        Schema {
            jobs: self.jobs.clone(),
            job_queues: self.job_queues.clone(),
            worker_control: self.worker_control.clone(),
            remove_job: self.remove_job.clone(),
            complete_jobs: self.complete_jobs.clone(),
            permanently_fail_jobs: self.permanently_fail_jobs.clone(),
            reschedule_jobs: self.reschedule_jobs.clone(),
            force_unlock_workers: self.force_unlock_workers.clone(),
        }
    }
}

} // verus!
