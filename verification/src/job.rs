//! Jobs as the worker sees them.

use vstd::prelude::*;

verus! {

/// A row of the jobs table. `columns` holds whatever the worker carries along
/// without reading it: payload, priority, attempts and the rest.
#[derive(Debug, PartialEq, Eq)]
pub struct DbJob<C> {
    pub id: i64,
    /// The ordering key, if the job has one.
    pub job_queue_id: Option<i32>,
    pub task_id: i32,
    pub columns: C,
}

/// A job together with the identifier of its task.
#[derive(Debug, PartialEq, Eq)]
pub struct Job<C> {
    pub id: i64,
    /// The ordering key, if the job has one.
    pub job_queue_id: Option<i32>,
    pub task_id: i32,
    pub task_identifier: String,
    pub columns: C,
}

impl<C> Job<C> {
    /// Whether this job is the row `row` under the identifier `identifier`.
    pub open spec fn is_row(self, row: DbJob<C>, identifier: Seq<char>) -> bool {
        &&& self.id == row.id
        &&& self.job_queue_id == row.job_queue_id
        &&& self.task_id == row.task_id
        &&& self.columns == row.columns
        &&& self.task_identifier@ == identifier
    }

    /// Adds the identifier of the task to a row.
    pub fn from_db_job(row: DbJob<C>, task_identifier: String) -> (job: Self)
        ensures
            job.is_row(row, task_identifier@),
            job.id == row.id,
            job.job_queue_id == row.job_queue_id,
            job.task_id == row.task_id,
            job.columns == row.columns,
            job.task_identifier == task_identifier,
    {
        Job {
            id: row.id,
            job_queue_id: row.job_queue_id,
            task_id: row.task_id,
            task_identifier,
            columns: row.columns,
        }
    }
}

/// Law: a job is a row if and only if it carries every column of the row, and the
/// identifier. Nothing else makes it one.
pub proof fn law_a_job_carries_its_row<C>(job: Job<C>, row: DbJob<C>, identifier: Seq<char>)
    ensures
        job.is_row(row, identifier) <==> {
            &&& job.id == row.id
            &&& job.job_queue_id == row.job_queue_id
            &&& job.task_id == row.task_id
            &&& job.columns == row.columns
            &&& job.task_identifier@ == identifier
        },
{
}

} // verus!
