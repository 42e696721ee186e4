//! The statement that claims a batch of jobs of several tasks.

use vstd::prelude::*;
use vstd::string::*;

use crate::schema::Schema;

verus! {

/// Opens the statement in front of the common table expression for the pause
/// switch.
pub const BATCH_CONTROL: &'static str = "with ";

/// Opens the job queues that are free, with their first due job.
pub const BATCH_QUEUES: &'static str = ",
available_queues as materialized (
    select
        job_queues.id,
        candidate.id as candidate_id,
        candidate.priority as candidate_priority,
        candidate.run_at as candidate_run_at
        from ";

/// Looks at the jobs of each queue.
pub const BATCH_QUEUE_JOBS: &'static str = " as job_queues
        cross join worker_control
        cross join lateral (
            select jobs.id, jobs.priority, jobs.run_at
            from ";

/// Keeps the available jobs that are due at the time that follows.
pub const BATCH_QUEUE_DUE: &'static str = " as jobs
            where jobs.job_queue_id = job_queues.id
            and jobs.is_available = true
            and jobs.run_at <= ";

/// Keeps the jobs of the given tasks.
pub const BATCH_QUEUE_TASKS: &'static str = "
            and jobs.task_id = any($2::int[])
            ";

/// Locks at most a batch of queues and goes on to the jobs without a queue.
pub const BATCH_UNQUEUED: &'static str = "
            order by jobs.priority asc, jobs.run_at asc, jobs.id asc
            limit 1
        ) as candidate
        where worker_control.paused = false
        and job_queues.is_available = true
        order by candidate.priority asc, candidate.run_at asc, candidate.id asc
        limit $3::int
        for update of job_queues
        skip locked
),
queued_candidates as materialized (
    select
        available_queues.candidate_id as id,
        available_queues.candidate_priority as priority,
        available_queues.candidate_run_at as run_at
        from available_queues
),
unqueued_candidates as materialized (
    select jobs.id, jobs.priority, jobs.run_at
        from ";

/// Keeps the available jobs without a queue that are due at the time that follows.
pub const BATCH_UNQUEUED_DUE: &'static str = " as jobs
        cross join worker_control
        where jobs.is_available = true
        and worker_control.paused = false
        and jobs.job_queue_id is null
        and jobs.run_at <= ";

/// Keeps the jobs of the given tasks.
pub const BATCH_UNQUEUED_TASKS: &'static str = "
        and jobs.task_id = any($2::int[])
        ";

/// Locks at most a batch of jobs, passing over those that others hold, and cuts the
/// candidates down to the batch.
pub const BATCH_SELECT: &'static str = "
        order by jobs.priority asc, jobs.run_at asc, jobs.id asc
        limit $3::int
        for update of jobs
        skip locked
),
candidate_ids as materialized (
    select candidates.id
    from (
        select * from queued_candidates
        union all
        select * from unqueued_candidates
    ) as candidates
    order by candidates.priority asc, candidates.run_at asc, candidates.id asc
    limit $3::int
),
j as (
    select jobs.job_queue_id, jobs.priority, jobs.run_at, jobs.id
        from ";

/// Keeps the candidates that are still available and due at the time that follows.
pub const BATCH_SELECT_DUE: &'static str = " as jobs
        inner join candidate_ids on candidate_ids.id = jobs.id
        cross join worker_control
        where jobs.is_available = true
        and worker_control.paused = false
        and jobs.run_at <= ";

/// Keeps the jobs of the given tasks.
pub const BATCH_SELECT_TASKS: &'static str = "
        and jobs.task_id = any($2::int[])
        ";

/// Locks the candidates in front of the clause that marks their queues.
pub const BATCH_MARK_QUEUES: &'static str = "
        order by jobs.priority asc, jobs.run_at asc, jobs.id asc
        for update
        of jobs
        skip locked
    ) ";

/// Goes on to the jobs themselves.
pub const BATCH_MARK_JOBS: &'static str = "
        update ";

/// Marks the jobs as held by the worker since the time that follows.
pub const BATCH_MARK_TIME: &'static str = " as jobs
            set
                attempts = jobs.attempts + 1,
                locked_by = $1::text,
                locked_at = ";

/// Returns the jobs.
pub const BATCH_RETURN: &'static str = "
            from j
            where jobs.id = j.id
            returning *
";

/// Clauses that the batch statement is put together from. Each of them is written
/// for the parameter numbers of the statement that it goes into.
pub struct BatchClauses {
    /// The common table expression `worker_control` with the pause switch.
    pub worker_control_cte: String,
    /// What keeps out jobs with a flag to skip.
    pub flag_clause: String,
    /// The current time.
    pub now_clause: String,
    /// What marks the queues of the claimed jobs.
    pub update_queue_clause: String,
}

/// Text of the batch statement over the given tables. The flag clause stands apart,
/// because it drops out where no flag is to be skipped.
pub open spec fn batch_sql_text(
    jobs: Seq<char>,
    job_queues: Seq<char>,
    clauses: BatchClauses,
    flag_clause: Seq<char>,
) -> Seq<char> {
    BATCH_CONTROL@ + clauses.worker_control_cte@ + BATCH_QUEUES@ + job_queues
        + BATCH_QUEUE_JOBS@ + jobs + BATCH_QUEUE_DUE@ + clauses.now_clause@
        + BATCH_QUEUE_TASKS@ + flag_clause + BATCH_UNQUEUED@ + jobs + BATCH_UNQUEUED_DUE@
        + clauses.now_clause@ + BATCH_UNQUEUED_TASKS@ + flag_clause + BATCH_SELECT@
        + jobs + BATCH_SELECT_DUE@ + clauses.now_clause@ + BATCH_SELECT_TASKS@
        + flag_clause + BATCH_MARK_QUEUES@ + clauses.update_queue_clause@
        + BATCH_MARK_JOBS@ + jobs + BATCH_MARK_TIME@ + clauses.now_clause@ + BATCH_RETURN@
}

/// Builds the statement that claims a batch of jobs.
///
/// Its parameters are the worker, the tasks and the size of the batch, followed by
/// those that the clauses need.
pub fn batch_get_jobs_sql(schema: &Schema, clauses: &BatchClauses, has_flags: bool) -> (sql: String)
    ensures
        sql@ == batch_sql_text(
            schema.jobs@,
            schema.job_queues@,
            *clauses,
            if has_flags {
                clauses.flag_clause@
            } else {
                ""@
            },
        ),
{
    let jobs: &str = schema.jobs.as_str();
    let job_queues: &str = schema.job_queues.as_str();
    let worker_control_cte: &str = clauses.worker_control_cte.as_str();
    let now_clause: &str = clauses.now_clause.as_str();
    let update_queue_clause: &str = clauses.update_queue_clause.as_str();
    let flag_clause: &str = if has_flags {
        clauses.flag_clause.as_str()
    } else {
        ""
    };
    let mut sql: String = BATCH_CONTROL.to_string();
    sql.append(worker_control_cte);
    sql.append(BATCH_QUEUES);
    sql.append(job_queues);
    sql.append(BATCH_QUEUE_JOBS);
    sql.append(jobs);
    sql.append(BATCH_QUEUE_DUE);
    sql.append(now_clause);
    sql.append(BATCH_QUEUE_TASKS);
    sql.append(flag_clause);
    sql.append(BATCH_UNQUEUED);
    sql.append(jobs);
    sql.append(BATCH_UNQUEUED_DUE);
    sql.append(now_clause);
    sql.append(BATCH_UNQUEUED_TASKS);
    sql.append(flag_clause);
    sql.append(BATCH_SELECT);
    sql.append(jobs);
    sql.append(BATCH_SELECT_DUE);
    sql.append(now_clause);
    sql.append(BATCH_SELECT_TASKS);
    sql.append(flag_clause);
    sql.append(BATCH_MARK_QUEUES);
    sql.append(update_queue_clause);
    sql.append(BATCH_MARK_JOBS);
    sql.append(jobs);
    sql.append(BATCH_MARK_TIME);
    sql.append(now_clause);
    sql.append(BATCH_RETURN);
    sql
}

/// Law: the statement is one fixed text with the tables and the clauses in their
/// places. For any two schemas and sets of clauses the text around them is the same.
pub proof fn law_batch_text_holds_its_clauses(
    jobs: Seq<char>,
    job_queues: Seq<char>,
    clauses: BatchClauses,
    flag_clause: Seq<char>,
)
    ensures
        batch_sql_text(jobs, job_queues, clauses, flag_clause) == BATCH_CONTROL@
            + clauses.worker_control_cte@ + BATCH_QUEUES@ + job_queues
            + BATCH_QUEUE_JOBS@ + jobs + BATCH_QUEUE_DUE@ + clauses.now_clause@
            + BATCH_QUEUE_TASKS@ + flag_clause + BATCH_UNQUEUED@ + jobs + BATCH_UNQUEUED_DUE@
            + clauses.now_clause@ + BATCH_UNQUEUED_TASKS@ + flag_clause + BATCH_SELECT@ + jobs
            + BATCH_SELECT_DUE@ + clauses.now_clause@ + BATCH_SELECT_TASKS@ + flag_clause
            + BATCH_MARK_QUEUES@ + clauses.update_queue_clause@ + BATCH_MARK_JOBS@ + jobs
            + BATCH_MARK_TIME@ + clauses.now_clause@ + BATCH_RETURN@,
{
}

} // verus!
