use graphile_worker::queries::claim_queue_jobs::{
    claim_queue_jobs, lock_worker_control, queue_claim_from_rows, read_worker_control,
    worker_control_from_row, ClaimRequest, ClaimRow, ControlRow, QueueClaim, WorkerControlState,
    NEXT_ORDERING_CURSOR_COLUMN, PAUSED_COLUMN, PAUSE_REASON_COLUMN,
};
use graphile_worker::job::{DbJob, Job};
use graphile_worker::queries::claim_sql::claim_queue_jobs_sql;
use graphile_worker::query::{DbValue, Query};
use graphile_worker::schema::Schema;
use graphile_worker::time::Timestamp;

fn schema() -> Schema {
    Schema {
        jobs: "w._private_jobs".to_string(),
        job_queues: "w._private_job_queues".to_string(),
        worker_control: "w._private_worker_control".to_string(),
        remove_job: "w.remove_job".to_string(),
        complete_jobs: "w.complete_jobs".to_string(),
        permanently_fail_jobs: "w.permanently_fail_jobs".to_string(),
        reschedule_jobs: "w.reschedule_jobs".to_string(),
        force_unlock_workers: "w.force_unlock_workers".to_string(),
    }
}

fn row(id: i64, cursor: Option<i32>) -> ClaimRow<&'static str, &'static str> {
    ClaimRow {
        next_ordering_cursor: Ok(cursor),
        job: Ok(Some(DbJob { id, job_queue_id: Some(7), task_id: 3, columns: "columns" })),
    }
}

#[test]
fn the_claim_statement_is_written_out_in_full() {
    let jobs = "w._private_jobs";
    let job_queues = "w._private_job_queues";
    let expected = format!(
        "with recursive ordering_scan(job_queue_id, ordinal) as materialized (
    select first_key.job_queue_id, 1
    from lateral (
        select jobs.job_queue_id
        from {jobs} as jobs
        where jobs.task_id = $2::int
        and jobs.is_available = true
        and jobs.job_queue_id is not null
        and jobs.job_queue_id > coalesce($4::int, 0)
        order by jobs.job_queue_id
        limit 1
    ) as first_key

    union all

    select next_key.job_queue_id, ordering_scan.ordinal + 1
    from ordering_scan
    cross join lateral (
        select jobs.job_queue_id
        from {jobs} as jobs
        where jobs.task_id = $2::int
        and jobs.is_available = true
        and jobs.job_queue_id is not null
        and jobs.job_queue_id > ordering_scan.job_queue_id
        order by jobs.job_queue_id
        limit 1
    ) as next_key
    where ordering_scan.ordinal < ($3::int * 2)
),
locked_queues as materialized (
    select job_queues.id, ordering_scan.ordinal
    from ordering_scan
    inner join {job_queues} as job_queues
        on job_queues.id = ordering_scan.job_queue_id
    where job_queues.is_available = true
    order by ordering_scan.ordinal
    limit $3::int
    for update of job_queues
    skip locked
),
progress as materialized (
    select case
        when (select count(*) from ordering_scan) < ($3::int * 2)
         and (select count(*) from locked_queues) = (select count(*) from ordering_scan)
        then null::int
        else coalesce(
            (select max(id)::int from locked_queues),
            (select max(job_queue_id)::int from ordering_scan)
        )
    end as next_ordering_cursor
),
queued_candidates as materialized (
    select candidate.id, candidate.run_at, candidate.priority
    from locked_queues
    cross join lateral (
        select jobs.id, jobs.run_at, jobs.priority
        from {jobs} as jobs
        where jobs.task_id = $2::int
        and jobs.job_queue_id = locked_queues.id
        and jobs.is_available = true
        and jobs.run_at <= coalesce($6::timestamptz, now())
        and (cardinality($5::text[]) = 0 or (jobs.flags ?| $5::text[]) is not true)
        order by jobs.run_at, jobs.priority, jobs.id
        limit 1
    ) as candidate
),
unqueued_candidates as materialized (
    select jobs.id, jobs.run_at, jobs.priority
    from {jobs} as jobs
    where jobs.task_id = $2::int
    and jobs.job_queue_id is null
    and jobs.is_available = true
    and jobs.run_at <= coalesce($6::timestamptz, now())
    and (cardinality($5::text[]) = 0 or (jobs.flags ?| $5::text[]) is not true)
    order by jobs.run_at, jobs.priority, jobs.id
    limit $3::int
    for update of jobs
    skip locked
),
candidate_ids as materialized (
    select candidates.id
    from (
        select * from queued_candidates
        union all
        select * from unqueued_candidates
    ) as candidates
    order by candidates.run_at, candidates.priority, candidates.id
    limit $3::int
),
selected as materialized (
    select jobs.id, jobs.job_queue_id
    from {jobs} as jobs
    inner join candidate_ids on candidate_ids.id = jobs.id
    where jobs.task_id = $2::int
    and jobs.is_available = true
    and jobs.run_at <= coalesce($6::timestamptz, now())
    and (cardinality($5::text[]) = 0 or (jobs.flags ?| $5::text[]) is not true)
    order by jobs.run_at, jobs.priority, jobs.id
    limit $3::int
    for update of jobs
    skip locked
),
lock_ordering_rows as (
    update {job_queues} as job_queues
    set locked_by = $1::text,
        locked_at = coalesce($6::timestamptz, now())
    from selected
    where selected.job_queue_id = job_queues.id
),
claimed as (
    update {jobs} as jobs
    set attempts = jobs.attempts + 1,
        locked_by = $1::text,
        locked_at = coalesce($6::timestamptz, now())
    from selected
    where jobs.id = selected.id
    returning jobs.*
)
select
    claimed.id,
    claimed.job_queue_id,
    claimed.payload,
    claimed.priority,
    claimed.run_at,
    claimed.attempts,
    claimed.max_attempts,
    claimed.last_error,
    claimed.created_at,
    claimed.updated_at,
    claimed.key,
    claimed.revision,
    claimed.locked_at,
    claimed.locked_by,
    claimed.flags,
    claimed.task_id,
    progress.next_ordering_cursor
from progress
left join claimed on true
order by claimed.run_at, claimed.priority, claimed.id
"
    );
    assert_eq!(claim_queue_jobs_sql(&schema()), expected);
}

#[test]
fn unkeyed_candidates_are_locked_past_rows_that_others_hold() {
    let sql = claim_queue_jobs_sql(&schema());
    let start = sql.find("unqueued_candidates as materialized").expect("the part is there");
    let part = &sql[start..];
    let part = &part[..part.find("\n),").expect("the part ends")];
    assert!(part.contains("limit $3::int"));
    assert!(part.contains("for update of jobs"));
    assert!(part.contains("skip locked"));
}

#[test]
fn a_claim_carries_its_parameters_in_order() {
    let now = Timestamp { seconds: 1_700_000_000, nanos: 5 };
    let flags = vec!["slow".to_string(), "big".to_string()];
    let request: ClaimRequest<()> =
        claim_queue_jobs(&schema(), "worker", 3, &flags, 4, Some(11), Some(now));
    assert_eq!(
        request,
        ClaimRequest::Fetch(Query {
            sql: claim_queue_jobs_sql(&schema()),
            params: vec![
                DbValue::Text("worker".to_string()),
                DbValue::I32(3),
                DbValue::I32(4),
                DbValue::I32Opt(Some(11)),
                DbValue::TextArray(flags),
                DbValue::TimestampTzOpt(Some(now)),
            ],
        })
    );
}

#[test]
fn a_claim_without_quota_claims_nothing_and_keeps_the_cursor() {
    for quota in [0, -1, i32::MIN] {
        let request: ClaimRequest<()> =
            claim_queue_jobs(&schema(), "worker", 3, &[], quota, Some(11), None);
        assert_eq!(
            request,
            ClaimRequest::Claimed(QueueClaim { jobs: vec![], next_ordering_cursor: Some(11) })
        );
    }
}

#[test]
fn rows_become_jobs_under_the_identifier() {
    let claim = queue_claim_from_rows(vec![row(1, Some(9)), row(2, Some(9))], "email");
    let job = |id: i64| Job {
        id,
        job_queue_id: Some(7),
        task_id: 3,
        task_identifier: "email".to_string(),
        columns: "columns",
    };
    assert_eq!(
        claim,
        Ok(QueueClaim { jobs: vec![job(1), job(2)], next_ordering_cursor: Some(9) })
    );
}

#[test]
fn an_empty_claim_still_moves_the_cursor() {
    let rows: Vec<ClaimRow<(), ()>> =
        vec![ClaimRow { next_ordering_cursor: Ok(Some(4)), job: Ok(None) }];
    assert_eq!(
        queue_claim_from_rows(rows, "email"),
        Ok(QueueClaim { jobs: vec![], next_ordering_cursor: Some(4) })
    );
}

#[test]
fn no_rows_reset_the_cursor() {
    let rows: Vec<ClaimRow<(), ()>> = vec![];
    assert_eq!(
        queue_claim_from_rows(rows, "email"),
        Ok(QueueClaim { jobs: vec![], next_ordering_cursor: None })
    );
}

#[test]
fn the_first_unreadable_row_is_the_error() {
    let mut first = row(1, None);
    first.job = Err("first job");
    let mut second = row(2, None);
    second.job = Err("second job");
    second.next_ordering_cursor = Err("second cursor");
    assert_eq!(
        queue_claim_from_rows(vec![row(0, None), first, second], "email"),
        Err("first job")
    );

    let mut bad_cursor = row(1, None);
    bad_cursor.next_ordering_cursor = Err("cursor");
    bad_cursor.job = Err("job");
    assert_eq!(queue_claim_from_rows(vec![bad_cursor], "email"), Err("cursor"));
}

#[test]
fn a_later_cursor_is_not_read() {
    let mut second = row(2, None);
    second.next_ordering_cursor = Err("not read");
    let claim = queue_claim_from_rows(vec![row(1, Some(5)), second], "email");
    assert_eq!(claim.map(|claim| claim.next_ordering_cursor), Ok(Some(5)));
}

#[test]
fn the_control_row_is_read_with_and_without_a_lock() {
    let text = "select paused, pause_reason from w._private_worker_control where id = true";
    assert_eq!(
        read_worker_control(&schema()),
        Query { sql: text.to_string(), params: vec![] }
    );
    assert_eq!(
        lock_worker_control(&schema()),
        Query { sql: format!("{text} for share"), params: vec![] }
    );
}

#[test]
fn control_columns_are_read_in_order() {
    let ok: Result<WorkerControlState, &str> = worker_control_from_row(ControlRow {
        paused: Ok(true),
        pause_reason: Ok(Some("upgrade".to_string())),
    });
    assert_eq!(
        ok,
        Ok(WorkerControlState { paused: true, pause_reason: Some("upgrade".to_string()) })
    );
    assert_eq!(
        worker_control_from_row(ControlRow {
            paused: Err("paused"),
            pause_reason: Err("pause_reason"),
        }),
        Err("paused")
    );
    assert_eq!(
        worker_control_from_row(ControlRow { paused: Ok(true), pause_reason: Err("reason") }),
        Err("reason")
    );
}

#[test]
fn the_statements_return_the_columns_that_are_read() {
    let sql = claim_queue_jobs_sql(&schema());
    assert!(sql.contains(&format!("    progress.{NEXT_ORDERING_CURSOR_COLUMN}\n")));
    let sql = read_worker_control(&schema()).sql;
    assert!(sql.starts_with(&format!("select {PAUSED_COLUMN}, {PAUSE_REASON_COLUMN} from ")));
}
