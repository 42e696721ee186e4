use graphile_worker::actions::{
    complete_jobs, force_unlock_workers, permanently_fail_jobs, remove_job, reschedule_jobs,
    set_worker_pause, worker_control_state, worker_control_state_from_row,
    worker_pause_update_from_row, ControlColumns, RescheduleJobOptions, WorkerControlState,
    WorkerPauseUpdate, PAUSED_COLUMN, PAUSE_REASON_COLUMN, PREVIOUS_PAUSED_COLUMN,
    PREVIOUS_PAUSE_REASON_COLUMN, PREVIOUS_UPDATED_AT_COLUMN, UPDATED_AT_COLUMN,
};
use graphile_worker::query::{DbValue, Query};
use graphile_worker::schema::Schema;
use graphile_worker::time::Timestamp;

fn schema() -> Schema {
    Schema {
        jobs: "w._private_jobs".to_string(),
        job_queues: "w._private_job_queues".to_string(),
        worker_control: "w._private_worker_control".to_string(),
        remove_job: "w.remove_job".to_string(),
        complete_jobs: "w.complete_jobs".to_string(),
        permanently_fail_jobs: "w.permanently_fail_jobs".to_string(),
        reschedule_jobs: "w.reschedule_jobs".to_string(),
        force_unlock_workers: "w.force_unlock_workers".to_string(),
    }
}

fn time(seconds: i64) -> Timestamp {
    Timestamp { seconds, nanos: 0 }
}

fn columns(paused: bool, reason: Option<&str>, seconds: i64) -> ControlColumns<&'static str> {
    ControlColumns {
        paused: Ok(paused),
        pause_reason: Ok(reason.map(str::to_string)),
        updated_at: Ok(time(seconds)),
    }
}

fn state(paused: bool, reason: Option<&str>, seconds: i64) -> WorkerControlState {
    WorkerControlState {
        paused,
        pause_reason: reason.map(str::to_string),
        updated_at: time(seconds),
    }
}

#[test]
fn the_control_state_is_selected() {
    assert_eq!(
        worker_control_state(&schema()),
        Query {
            sql: "select paused, pause_reason, updated_at\nfrom w._private_worker_control\nwhere id = true;\n".to_string(),
            params: vec![],
        }
    );
}

#[test]
fn a_pause_locks_the_row_and_returns_both_states() {
    let query = set_worker_pause(&schema(), Some("upgrade"));
    assert_eq!(query.params, vec![DbValue::TextOpt(Some("upgrade".to_string()))]);
    assert_eq!(
        query.sql,
        "with previous as materialized (
    select paused, pause_reason, updated_at
    from w._private_worker_control
    where id = true
    for update
),
updated as (
    update w._private_worker_control as worker_control
    set
        paused = $1::text is not null,
        pause_reason = $1::text,
        updated_at = case
            when worker_control.pause_reason is distinct from $1::text then now()
            else worker_control.updated_at
        end
    from previous
    where worker_control.id = true
    returning
        previous.paused as previous_paused,
        previous.pause_reason as previous_pause_reason,
        previous.updated_at as previous_updated_at,
        worker_control.paused,
        worker_control.pause_reason,
        worker_control.updated_at
)
select * from updated;
"
    );
    assert_eq!(
        set_worker_pause(&schema(), None).params,
        vec![DbValue::TextOpt(None)]
    );
}

#[test]
fn control_rows_are_read_column_by_column() {
    assert_eq!(
        worker_control_state_from_row(columns(true, Some("upgrade"), 5)),
        Ok(state(true, Some("upgrade"), 5))
    );
    let mut row = columns(false, None, 5);
    row.updated_at = Err("updated_at");
    assert_eq!(worker_control_state_from_row(row), Err("updated_at"));
    let mut row = columns(false, None, 5);
    row.updated_at = Err("updated_at");
    row.pause_reason = Err("pause_reason");
    assert_eq!(worker_control_state_from_row(row), Err("pause_reason"));
    let mut row = columns(false, None, 5);
    row.pause_reason = Err("pause_reason");
    row.paused = Err("paused");
    assert_eq!(worker_control_state_from_row(row), Err("paused"));
}

#[test]
fn a_pause_update_holds_the_state_before_and_after() {
    assert_eq!(
        worker_pause_update_from_row(columns(false, None, 1), columns(true, Some("x"), 2)),
        Ok(WorkerPauseUpdate {
            previous: state(false, None, 1),
            current: state(true, Some("x"), 2),
        })
    );
    let mut previous = columns(false, None, 1);
    previous.updated_at = Err("previous");
    let mut current = columns(true, None, 1);
    current.paused = Err("current");
    assert_eq!(worker_pause_update_from_row(previous, current), Err("previous"));
    let mut current = columns(true, None, 1);
    current.paused = Err("current");
    assert_eq!(
        worker_pause_update_from_row(columns(false, None, 1), current),
        Err("current")
    );
}

#[test]
fn jobs_are_acted_on_through_functions() {
    assert_eq!(
        remove_job(&schema(), "key"),
        Query {
            sql: "select * from w.remove_job($1::text);\n".to_string(),
            params: vec![DbValue::Text("key".to_string())],
        }
    );
    assert_eq!(
        complete_jobs(&schema(), &[3, 1]),
        Query {
            sql: "select * from w.complete_jobs($1::bigint[]);\n".to_string(),
            params: vec![DbValue::I64Array(vec![3, 1])],
        }
    );
    assert_eq!(
        permanently_fail_jobs(&schema(), &[3], "broken"),
        Query {
            sql: "select * from w.permanently_fail_jobs($1::bigint[], $2::text);\n".to_string(),
            params: vec![DbValue::I64Array(vec![3]), DbValue::Text("broken".to_string())],
        }
    );
    assert_eq!(
        force_unlock_workers(&schema(), &["one", "two"]),
        Query {
            sql: "select * from w.force_unlock_workers($1::text[]);\n".to_string(),
            params: vec![DbValue::TextArray(vec!["one".to_string(), "two".to_string()])],
        }
    );
}

#[test]
fn rescheduling_passes_on_what_is_given() {
    let options = RescheduleJobOptions {
        run_at: Some(time(9)),
        priority: Some(-3),
        attempts: None,
        max_attempts: Some(i16::MAX),
    };
    assert_eq!(
        reschedule_jobs(&schema(), &[7], options),
        Query {
            sql: "select * from w.reschedule_jobs(
    $1::bigint[],
    run_at := $2::timestamptz,
    priority := $3::int,
    attempts := $4::int,
    max_attempts := $5::int
);
"
            .to_string(),
            params: vec![
                DbValue::I64Array(vec![7]),
                DbValue::TimestampTzOpt(Some(time(9))),
                DbValue::I32Opt(Some(-3)),
                DbValue::I32Opt(None),
                DbValue::I32Opt(Some(32767)),
            ],
        }
    );
}

#[test]
fn the_pause_statement_returns_the_columns_that_are_read() {
    let sql = set_worker_pause(&schema(), None).sql;
    for (previous, current) in [
        (PREVIOUS_PAUSED_COLUMN, PAUSED_COLUMN),
        (PREVIOUS_PAUSE_REASON_COLUMN, PAUSE_REASON_COLUMN),
        (PREVIOUS_UPDATED_AT_COLUMN, UPDATED_AT_COLUMN),
    ] {
        assert!(sql.contains(&format!("previous.{current} as {previous},")));
        assert!(sql.contains(&format!("        worker_control.{current}")));
    }
    let sql = worker_control_state(&schema()).sql;
    let columns = format!("{PAUSED_COLUMN}, {PAUSE_REASON_COLUMN}, {UPDATED_AT_COLUMN}");
    assert!(sql.contains(&format!("select {columns}\n")));
}
