//! The statement that claims jobs of one task.

use vstd::prelude::*;
use vstd::string::*;

use crate::schema::Schema;

verus! {

/// Opens the walk over the ordering keys of the task.
pub const CLAIM_SCAN_FIRST: &'static str = "with recursive ordering_scan(job_queue_id, ordinal) as materialized (
    select first_key.job_queue_id, 1
    from lateral (
        select jobs.job_queue_id
        from ";

/// Finds the first key behind the cursor and goes on to the step.
pub const CLAIM_SCAN_NEXT: &'static str = " as jobs
        where jobs.task_id = $2::int
        and jobs.is_available = true
        and jobs.job_queue_id is not null
        and jobs.job_queue_id > coalesce($4::int, 0)
        order by jobs.job_queue_id
        limit 1
    ) as first_key

    union all

    select next_key.job_queue_id, ordering_scan.ordinal + 1
    from ordering_scan
    cross join lateral (
        select jobs.job_queue_id
        from ";

/// Takes at most two keys for each job of the quota and goes on to the locks.
pub const CLAIM_LOCK_QUEUES: &'static str = " as jobs
        where jobs.task_id = $2::int
        and jobs.is_available = true
        and jobs.job_queue_id is not null
        and jobs.job_queue_id > ordering_scan.job_queue_id
        order by jobs.job_queue_id
        limit 1
    ) as next_key
    where ordering_scan.ordinal < ($3::int * 2)
),
locked_queues as materialized (
    select job_queues.id, ordering_scan.ordinal
    from ordering_scan
    inner join ";

/// Locks the ordering rows that are free and reports how far the walk got.
pub const CLAIM_QUEUED: &'static str = " as job_queues
        on job_queues.id = ordering_scan.job_queue_id
    where job_queues.is_available = true
    order by ordering_scan.ordinal
    limit $3::int
    for update of job_queues
    skip locked
),
progress as materialized (
    select case
        when (select count(*) from ordering_scan) < ($3::int * 2)
         and (select count(*) from locked_queues) = (select count(*) from ordering_scan)
        then null::int
        else coalesce(
            (select max(id)::int from locked_queues),
            (select max(job_queue_id)::int from ordering_scan)
        )
    end as next_ordering_cursor
),
queued_candidates as materialized (
    select candidate.id, candidate.run_at, candidate.priority
    from locked_queues
    cross join lateral (
        select jobs.id, jobs.run_at, jobs.priority
        from ";

/// Takes the first due job of each locked key and goes on to jobs without a key.
pub const CLAIM_UNQUEUED: &'static str = " as jobs
        where jobs.task_id = $2::int
        and jobs.job_queue_id = locked_queues.id
        and jobs.is_available = true
        and jobs.run_at <= coalesce($6::timestamptz, now())
        and (cardinality($5::text[]) = 0 or (jobs.flags ?| $5::text[]) is not true)
        order by jobs.run_at, jobs.priority, jobs.id
        limit 1
    ) as candidate
),
unqueued_candidates as materialized (
    select jobs.id, jobs.run_at, jobs.priority
    from ";

/// Locks due jobs without a key, passing over those that others hold, and cuts the
/// candidates down to the quota.
pub const CLAIM_SELECT: &'static str = " as jobs
    where jobs.task_id = $2::int
    and jobs.job_queue_id is null
    and jobs.is_available = true
    and jobs.run_at <= coalesce($6::timestamptz, now())
    and (cardinality($5::text[]) = 0 or (jobs.flags ?| $5::text[]) is not true)
    order by jobs.run_at, jobs.priority, jobs.id
    limit $3::int
    for update of jobs
    skip locked
),
candidate_ids as materialized (
    select candidates.id
    from (
        select * from queued_candidates
        union all
        select * from unqueued_candidates
    ) as candidates
    order by candidates.run_at, candidates.priority, candidates.id
    limit $3::int
),
selected as materialized (
    select jobs.id, jobs.job_queue_id
    from ";

/// Locks the candidates that are still due.
pub const CLAIM_MARK_QUEUES: &'static str = " as jobs
    inner join candidate_ids on candidate_ids.id = jobs.id
    where jobs.task_id = $2::int
    and jobs.is_available = true
    and jobs.run_at <= coalesce($6::timestamptz, now())
    and (cardinality($5::text[]) = 0 or (jobs.flags ?| $5::text[]) is not true)
    order by jobs.run_at, jobs.priority, jobs.id
    limit $3::int
    for update of jobs
    skip locked
),
lock_ordering_rows as (
    update ";

/// Marks the ordering rows as held by the worker.
pub const CLAIM_MARK_JOBS: &'static str = " as job_queues
    set locked_by = $1::text,
        locked_at = coalesce($6::timestamptz, now())
    from selected
    where selected.job_queue_id = job_queues.id
),
claimed as (
    update ";

/// Marks the jobs as held by the worker and returns them with the cursor.
pub const CLAIM_RETURN: &'static str = " as jobs
    set attempts = jobs.attempts + 1,
        locked_by = $1::text,
        locked_at = coalesce($6::timestamptz, now())
    from selected
    where jobs.id = selected.id
    returning jobs.*
)
select
    claimed.id,
    claimed.job_queue_id,
    claimed.payload,
    claimed.priority,
    claimed.run_at,
    claimed.attempts,
    claimed.max_attempts,
    claimed.last_error,
    claimed.created_at,
    claimed.updated_at,
    claimed.key,
    claimed.revision,
    claimed.locked_at,
    claimed.locked_by,
    claimed.flags,
    claimed.task_id,
    progress.next_ordering_cursor
from progress
left join claimed on true
order by claimed.run_at, claimed.priority, claimed.id
";

/// Text of the claim statement over the given tables.
pub open spec fn claim_sql_text(jobs: Seq<char>, job_queues: Seq<char>) -> Seq<char> {
    CLAIM_SCAN_FIRST@ + jobs + CLAIM_SCAN_NEXT@ + jobs + CLAIM_LOCK_QUEUES@ + job_queues
        + CLAIM_QUEUED@ + jobs + CLAIM_UNQUEUED@ + jobs + CLAIM_SELECT@ + jobs
        + CLAIM_MARK_QUEUES@ + job_queues + CLAIM_MARK_JOBS@ + jobs + CLAIM_RETURN@
}

/// Builds the statement that claims jobs of one task.
///
/// Its parameters are the worker, the task, the quota, the ordering cursor, the
/// flags to skip and the time, in this order.
pub fn claim_queue_jobs_sql(schema: &Schema) -> (sql: String)
    ensures
        sql@ == claim_sql_text(schema.jobs@, schema.job_queues@),
{
    let jobs: &str = schema.jobs.as_str();
    let job_queues: &str = schema.job_queues.as_str();
    let mut sql: String = CLAIM_SCAN_FIRST.to_string();
    sql.append(jobs);
    sql.append(CLAIM_SCAN_NEXT);
    sql.append(jobs);
    sql.append(CLAIM_LOCK_QUEUES);
    sql.append(job_queues);
    sql.append(CLAIM_QUEUED);
    sql.append(jobs);
    sql.append(CLAIM_UNQUEUED);
    sql.append(jobs);
    sql.append(CLAIM_SELECT);
    sql.append(jobs);
    sql.append(CLAIM_MARK_QUEUES);
    sql.append(job_queues);
    sql.append(CLAIM_MARK_JOBS);
    sql.append(jobs);
    sql.append(CLAIM_RETURN);
    sql
}

/// Law: the statement is one fixed text with the names of the two tables in their
/// places. For any two pairs of tables the text around the names is the same.
pub proof fn law_claim_text_names_the_tables(jobs: Seq<char>, job_queues: Seq<char>)
    ensures
        claim_sql_text(jobs, job_queues) == CLAIM_SCAN_FIRST@ + jobs + CLAIM_SCAN_NEXT@ + jobs
            + CLAIM_LOCK_QUEUES@
            + job_queues + CLAIM_QUEUED@ + jobs + CLAIM_UNQUEUED@ + jobs + CLAIM_SELECT@ + jobs
            + CLAIM_MARK_QUEUES@ + job_queues + CLAIM_MARK_JOBS@ + jobs + CLAIM_RETURN@,
{
}

} // verus!
