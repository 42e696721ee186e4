use graphile_worker::job::{DbJob, Job};
use graphile_worker::queries::batch_get_jobs::{
    batch_get_jobs, batch_jobs_from_rows, batch_query_from_clauses, number_batch_params, BatchParams,
};
use graphile_worker::queries::batch_sql::BatchClauses;
use graphile_worker::queries::rows::fetch_db_jobs;
use graphile_worker::query::DbValue;
use graphile_worker::schema::Schema;
use graphile_worker::tasks::TaskDetails;
use graphile_worker::time::Timestamp;

fn schema() -> Schema {
    Schema {
        jobs: "w._private_jobs".to_string(),
        job_queues: "w._private_job_queues".to_string(),
        worker_control: "w._private_worker_control".to_string(),
        remove_job: "w.remove_job".to_string(),
        complete_jobs: "w.complete_jobs".to_string(),
        permanently_fail_jobs: "w.permanently_fail_jobs".to_string(),
        reschedule_jobs: "w.reschedule_jobs".to_string(),
        force_unlock_workers: "w.force_unlock_workers".to_string(),
    }
}

fn details() -> TaskDetails {
    TaskDetails { tasks: vec![(4, "a".to_string()), (2, "b".to_string())] }
}

fn clauses() -> BatchClauses {
    BatchClauses {
        worker_control_cte: "worker_control as (select false as paused)".to_string(),
        flag_clause: "and flags_are_fine($4::text[])".to_string(),
        now_clause: "now()".to_string(),
        update_queue_clause: ", q as (select 1)".to_string(),
    }
}

fn statement(flag_clause: &str) -> String {
    let jobs = "w._private_jobs";
    let job_queues = "w._private_job_queues";
    let worker_control_cte = "worker_control as (select false as paused)";
    let now_clause = "now()";
    let update_queue_clause = ", q as (select 1)";
    format!(
        "with {worker_control_cte},
available_queues as materialized (
    select
        job_queues.id,
        candidate.id as candidate_id,
        candidate.priority as candidate_priority,
        candidate.run_at as candidate_run_at
        from {job_queues} as job_queues
        cross join worker_control
        cross join lateral (
            select jobs.id, jobs.priority, jobs.run_at
            from {jobs} as jobs
            where jobs.job_queue_id = job_queues.id
            and jobs.is_available = true
            and jobs.run_at <= {now_clause}
            and jobs.task_id = any($2::int[])
            {flag_clause}
            order by jobs.priority asc, jobs.run_at asc, jobs.id asc
            limit 1
        ) as candidate
        where worker_control.paused = false
        and job_queues.is_available = true
        order by candidate.priority asc, candidate.run_at asc, candidate.id asc
        limit $3::int
        for update of job_queues
        skip locked
),
queued_candidates as materialized (
    select
        available_queues.candidate_id as id,
        available_queues.candidate_priority as priority,
        available_queues.candidate_run_at as run_at
        from available_queues
),
unqueued_candidates as materialized (
    select jobs.id, jobs.priority, jobs.run_at
        from {jobs} as jobs
        cross join worker_control
        where jobs.is_available = true
        and worker_control.paused = false
        and jobs.job_queue_id is null
        and jobs.run_at <= {now_clause}
        and jobs.task_id = any($2::int[])
        {flag_clause}
        order by jobs.priority asc, jobs.run_at asc, jobs.id asc
        limit $3::int
        for update of jobs
        skip locked
),
candidate_ids as materialized (
    select candidates.id
    from (
        select * from queued_candidates
        union all
        select * from unqueued_candidates
    ) as candidates
    order by candidates.priority asc, candidates.run_at asc, candidates.id asc
    limit $3::int
),
j as (
    select jobs.job_queue_id, jobs.priority, jobs.run_at, jobs.id
        from {jobs} as jobs
        inner join candidate_ids on candidate_ids.id = jobs.id
        cross join worker_control
        where jobs.is_available = true
        and worker_control.paused = false
        and jobs.run_at <= {now_clause}
        and jobs.task_id = any($2::int[])
        {flag_clause}
        order by jobs.priority asc, jobs.run_at asc, jobs.id asc
        for update
        of jobs
        skip locked
    ) {update_queue_clause}
        update {jobs} as jobs
            set
                attempts = jobs.attempts + 1,
                locked_by = $1::text,
                locked_at = {now_clause}
            from j
            where jobs.id = j.id
            returning *
"
    )
}

fn db_job(id: i64, task_id: i32) -> DbJob<()> {
    DbJob { id, job_queue_id: None, task_id, columns: () }
}

#[test]
fn the_batch_statement_is_written_out_in_full() {
    let flags = vec!["slow".to_string()];
    let query =
        batch_query_from_clauses(&details(), &schema(), &clauses(), "worker", &flags, 3, None);
    assert_eq!(query.sql, statement("and flags_are_fine($4::text[])"));
    let query =
        batch_query_from_clauses(&details(), &schema(), &clauses(), "worker", &[], 3, None);
    assert_eq!(query.sql, statement(""));
}

#[test]
fn optional_parameters_are_numbered_without_a_gap() {
    let flags = vec!["slow".to_string()];
    let now = Some(Timestamp { seconds: 12, nanos: 3 });
    assert_eq!(number_batch_params(&[], None), BatchParams { flags: None, now: None });
    assert_eq!(number_batch_params(&flags, None), BatchParams { flags: Some(4), now: None });
    assert_eq!(number_batch_params(&[], now), BatchParams { flags: None, now: Some(4) });
    assert_eq!(number_batch_params(&flags, now), BatchParams { flags: Some(4), now: Some(5) });
}

#[test]
fn clauses_are_written_for_the_numbers_of_the_statement() {
    let now = Timestamp { seconds: 12, nanos: 3 };
    let flags = vec!["slow".to_string()];
    let write = |params: BatchParams| BatchClauses {
        flag_clause: format!("flags ${}", params.flags.unwrap_or(0)),
        now_clause: format!("${}::timestamptz", params.now.unwrap_or(0)),
        ..clauses()
    };
    let query = batch_get_jobs(&details(), &schema(), write, "worker", &flags, 3, Some(now));
    assert!(query.sql.contains("and jobs.run_at <= $5::timestamptz\n"));
    assert!(query.sql.contains("            flags $4\n"));
    assert_eq!(query.params[3], DbValue::TextArray(flags));
    assert_eq!(query.params[4], DbValue::TimestampTz(now));
    let query = batch_get_jobs(&details(), &schema(), write, "worker", &[], 3, Some(now));
    assert!(query.sql.contains("and jobs.run_at <= $4::timestamptz\n"));
    assert!(!query.sql.contains("flags $"));
    assert_eq!(query.params[3], DbValue::TimestampTz(now));
}

#[test]
fn parameters_stand_where_they_are_numbered() {
    let now = Timestamp { seconds: 12, nanos: 3 };
    let flags = vec!["slow".to_string()];
    let always = || {
        vec![
            DbValue::Text("worker".to_string()),
            DbValue::I32Array(vec![4, 2]),
            DbValue::I32(3),
        ]
    };
    let params = |flags: &[String], now: Option<Timestamp>| {
        batch_query_from_clauses(&details(), &schema(), &clauses(), "worker", flags, 3, now)
            .params
    };
    assert_eq!(params(&[], None), always());
    let mut with_now = always();
    with_now.push(DbValue::TimestampTz(now));
    assert_eq!(params(&[], Some(now)), with_now);
    let mut with_both = always();
    with_both.push(DbValue::TextArray(flags.clone()));
    with_both.push(DbValue::TimestampTz(now));
    assert_eq!(params(&flags, Some(now)), with_both);
}

#[test]
fn batch_rows_get_the_identifier_of_their_task() {
    let rows: Vec<Result<DbJob<()>, &str>> =
        vec![Ok(db_job(1, 2)), Ok(db_job(2, 4)), Ok(db_job(3, 9))];
    let jobs = batch_jobs_from_rows(rows, &details()).expect("all rows can be read");
    let job = |id: i64, task_id: i32, identifier: &str| Job {
        id,
        job_queue_id: None,
        task_id,
        task_identifier: identifier.to_string(),
        columns: (),
    };
    assert_eq!(jobs, vec![job(1, 2, "b"), job(2, 4, "a"), job(3, 9, "")]);
}

#[test]
fn the_first_unreadable_batch_row_is_the_error() {
    let rows = || vec![Ok(db_job(1, 2)), Err("first"), Err("second")];
    assert_eq!(batch_jobs_from_rows(rows(), &details()), Err("first"));
    assert_eq!(fetch_db_jobs(rows()), Err("first"));
}

#[test]
fn readable_rows_are_collected_in_order() {
    let rows: Vec<Result<DbJob<()>, &str>> = vec![Ok(db_job(2, 2)), Ok(db_job(1, 4))];
    assert_eq!(fetch_db_jobs(rows), Ok(vec![db_job(2, 2), db_job(1, 4)]));
}
