//! Administrative actions: pausing claims, and acting on given jobs or workers.
//!
//! Every action is one statement. Rows that come back are read by the functions
//! beside it, or by [`crate::queries::rows::fetch_db_jobs`] where they are jobs.

use vstd::prelude::*;
use vstd::string::*;

use crate::query::{DbValue, Query};
use crate::schema::Schema;
use crate::time::Timestamp;

verus! {

/// Reads the worker-control row from the table that follows.
pub const CONTROL_SELECT: &'static str = "select paused, pause_reason, updated_at
from ";

/// Picks the single row.
pub const CONTROL_WHERE: &'static str = "
where id = true;
";

/// Locks the worker-control row of the table that follows.
pub const PAUSE_PREVIOUS: &'static str = "with previous as materialized (
    select paused, pause_reason, updated_at
    from ";

/// Keeps the row as it was, and goes on to the update.
pub const PAUSE_UPDATE: &'static str = "
    where id = true
    for update
),
updated as (
    update ";

/// Sets the reason, and the time only if the reason is another one, and returns both
/// states.
pub const PAUSE_RETURN: &'static str = " as worker_control
    set
        paused = $1::text is not null,
        pause_reason = $1::text,
        updated_at = case
            when worker_control.pause_reason is distinct from $1::text then now()
            else worker_control.updated_at
        end
    from previous
    where worker_control.id = true
    returning
        previous.paused as previous_paused,
        previous.pause_reason as previous_pause_reason,
        previous.updated_at as previous_updated_at,
        worker_control.paused,
        worker_control.pause_reason,
        worker_control.updated_at
)
select * from updated;
";

/// Calls the function that follows.
pub const CALL: &'static str = "select * from ";

/// Arguments of the removal.
pub const REMOVE_JOB_ARGS: &'static str = "($1::text);
";

/// Arguments of the completion.
pub const COMPLETE_JOBS_ARGS: &'static str = "($1::bigint[]);
";

/// Arguments of the final failure.
pub const FAIL_JOBS_ARGS: &'static str = "($1::bigint[], $2::text);
";

/// Arguments of the rescheduling.
pub const RESCHEDULE_JOBS_ARGS: &'static str = "(
    $1::bigint[],
    run_at := $2::timestamptz,
    priority := $3::int,
    attempts := $4::int,
    max_attempts := $5::int
);
";

/// Arguments of the unlocking.
pub const UNLOCK_ARGS: &'static str = "($1::text[]);
";

/// Column of the worker-control row: whether claims are paused.
pub const PAUSED_COLUMN: &'static str = "paused";

/// Column of the worker-control row: why claims are paused.
pub const PAUSE_REASON_COLUMN: &'static str = "pause_reason";

/// Column of the worker-control row: when the reason last changed.
pub const UPDATED_AT_COLUMN: &'static str = "updated_at";

/// Column of a pause update: whether claims were paused before.
pub const PREVIOUS_PAUSED_COLUMN: &'static str = "previous_paused";

/// Column of a pause update: why claims were paused before.
pub const PREVIOUS_PAUSE_REASON_COLUMN: &'static str = "previous_pause_reason";

/// Column of a pause update: when the reason had last changed before.
pub const PREVIOUS_UPDATED_AT_COLUMN: &'static str = "previous_updated_at";

/// The worker-control row.
#[derive(Debug, Clone, PartialEq, Eq)]
pub struct WorkerControlState {
    pub paused: bool,
    pub pause_reason: Option<String>,
    /// When the reason last changed.
    pub updated_at: Timestamp,
}

/// The worker-control row before and after a pause or a resumption.
#[derive(Debug, Clone, PartialEq, Eq)]
pub struct WorkerPauseUpdate {
    pub previous: WorkerControlState,
    pub current: WorkerControlState,
}

/// Columns of the worker-control row, each as it was read or could not be. The
/// state that a pause update found goes under the names that begin with `previous`.
pub struct ControlColumns<E> {
    pub paused: Result<bool, E>,
    pub pause_reason: Result<Option<String>, E>,
    pub updated_at: Result<Timestamp, E>,
}

/// What to change about jobs that are rescheduled. What is not given stays.
#[derive(Debug, Clone, Copy, PartialEq, Eq, Structural)]
pub struct RescheduleJobOptions {
    pub run_at: Option<Timestamp>,
    pub priority: Option<i16>,
    pub attempts: Option<i16>,
    pub max_attempts: Option<i16>,
}

/// The first column that could not be read, if there is one.
pub open spec fn column_failure<E>(columns: ControlColumns<E>) -> Option<E> {
    match columns.paused {
        Err(error) => Some(error),
        Ok(_) => match columns.pause_reason {
            Err(error) => Some(error),
            Ok(_) => match columns.updated_at {
                Err(error) => Some(error),
                Ok(_) => None,
            },
        },
    }
}

/// Whether a state is what the columns hold.
pub open spec fn holds<E>(columns: ControlColumns<E>, state: WorkerControlState) -> bool {
    &&& columns.paused == Ok::<bool, E>(state.paused)
    &&& columns.pause_reason == Ok::<Option<String>, E>(state.pause_reason)
    &&& columns.updated_at == Ok::<Timestamp, E>(state.updated_at)
}

/// A smaller number in a parameter for a larger one.
pub open spec fn widened(number: Option<i16>) -> Option<i32> {
    match number {
        Some(value) => Some(value as i32),
        None => None,
    }
}

/// Makes room for a larger number.
fn widen(number: Option<i16>) -> (wide: Option<i32>)
    ensures
        wide == widened(number),
        wide is Some <==> number is Some,
        number matches Some(value) ==> wide == Some(value as i32),
{
    match number {
        Some(value) => Some(value as i32),
        None => None,
    }
}

/// Copies numbers of jobs.
fn copy_ids(ids: &[i64]) -> (copy: Vec<i64>)
    ensures
        copy@ == ids@,
{
    let mut copy: Vec<i64> = Vec::with_capacity(ids.len());
    let mut i: usize = 0;
    while i < ids.len()
        invariant
            i <= ids@.len(),
            copy@ == ids@.take(i as int),
        decreases ids@.len() - i,
    {
        copy.push(ids[i]);
        i += 1;
        assert(copy@ =~= ids@.take(i as int));
    }
    assert(ids@.take(i as int) =~= ids@);
    copy
}

/// Law: a number that is given stays given and stays the same, zero and negative
/// numbers like all others, and one that is not given stays so.
pub proof fn law_widening_keeps_the_number(number: i16)
    ensures
        widened(Some(number)) matches Some(wide) && wide == number,
        widened(None) is None,
{
}

/// Law: different options make different parameters. What is rescheduled to can be read
/// back from the parameter.
pub proof fn law_widening_loses_nothing(one: Option<i16>, other: Option<i16>)
    requires
        widened(one) == widened(other),
    ensures
        one == other,
{
}

/// Law: columns hold a state if and only if each of them was read and holds its part.
/// Columns that hold a state have no failure, and columns without one hold a state.
pub proof fn law_readable_columns_hold_a_state<E>(
    columns: ControlColumns<E>,
    state: WorkerControlState,
)
    ensures
        holds(columns, state) <==> {
            &&& columns.paused == Ok::<bool, E>(state.paused)
            &&& columns.pause_reason == Ok::<Option<String>, E>(state.pause_reason)
            &&& columns.updated_at == Ok::<Timestamp, E>(state.updated_at)
        },
        column_failure(columns) is None <==> columns.paused is Ok && columns.pause_reason is Ok
            && columns.updated_at is Ok,
        columns.paused matches Err(error) ==> column_failure(columns) == Some(error),
        columns.paused is Ok ==> (columns.pause_reason matches Err(error) ==> column_failure(
            columns,
        ) == Some(error)),
        columns.paused is Ok && columns.pause_reason is Ok ==> (columns.updated_at matches Err(
            error,
        ) ==> column_failure(columns) == Some(error)),
{
}

/// Law: every worker stands in the list, in its place.
pub proof fn law_str_texts_are_those_of_the_list(list: Seq<&str>, index: int)
    ensures
        str_texts(list).len() == list.len(),
        0 <= index < list.len() ==> str_texts(list)[index] == list[index]@,
{
}

/// Builds the read of the worker-control row.
pub fn worker_control_state(schema: &Schema) -> (query: Query)
    ensures
        query@.sql == CONTROL_SELECT@ + schema.worker_control@ + CONTROL_WHERE@,
        query.sql@ == CONTROL_SELECT@ + schema.worker_control@ + CONTROL_WHERE@,
        query.params@.len() == 0,
        query@.params == Seq::<crate::query::DbParam>::empty(),
{
    let mut sql: String = CONTROL_SELECT.to_string();
    sql.append(schema.worker_control.as_str());
    sql.append(CONTROL_WHERE);
    let query = Query { sql, params: Vec::new() };
    assert(query@.params =~= Seq::<crate::query::DbParam>::empty());
    query
}

/// Builds the statement that pauses claims for the given reason, or resumes them if
/// there is none.
pub fn set_worker_pause(schema: &Schema, pause_reason: Option<&str>) -> (query: Query)
    ensures
        query@.sql == PAUSE_PREVIOUS@ + schema.worker_control@ + PAUSE_UPDATE@
            + schema.worker_control@ + PAUSE_RETURN@,
        query.sql@ == PAUSE_PREVIOUS@ + schema.worker_control@ + PAUSE_UPDATE@
            + schema.worker_control@ + PAUSE_RETURN@,
        query.params@.len() == 1,
        query.params@[0] is TextOpt,
        query.params@[0]->TextOpt_0 is Some <==> pause_reason is Some,
        pause_reason matches Some(reason) ==> (query.params@[0] matches DbValue::TextOpt(
            Some(text),
        ) && text@ == reason@),
        query@.params == seq![
            crate::query::DbParam::TextOpt(
                match pause_reason {
                    Some(reason) => Some(reason@),
                    None => None,
                },
            ),
        ],
{
    let mut sql: String = PAUSE_PREVIOUS.to_string();
    sql.append(schema.worker_control.as_str());
    sql.append(PAUSE_UPDATE);
    sql.append(schema.worker_control.as_str());
    sql.append(PAUSE_RETURN);
    let reason: Option<String> = match pause_reason {
        Some(reason) => Some(reason.to_string()),
        None => None,
    };
    let query = Query { sql, params: vec![DbValue::TextOpt(reason)] };
    assert(query@.params =~= seq![
        crate::query::DbParam::TextOpt(
            match pause_reason {
                Some(reason) => Some(reason@),
                None => None,
            },
        ),
    ]);
    query
}

/// Reads a worker-control row. The first column that cannot be read is an error.
pub fn worker_control_state_from_row<E>(columns: ControlColumns<E>) -> (state: Result<
    WorkerControlState,
    E,
>)
    ensures
        match state {
            Ok(state) => holds(columns, state),
            Err(error) => column_failure(columns) == Some(error),
        },
        state matches Ok(read) ==> columns.paused == Ok::<bool, E>(read.paused)
            && columns.pause_reason == Ok::<Option<String>, E>(read.pause_reason)
            && columns.updated_at == Ok::<Timestamp, E>(read.updated_at),
        state matches Err(error) ==> {
            ||| columns.paused == Err::<bool, E>(error)
            ||| columns.paused is Ok && columns.pause_reason == Err::<Option<String>, E>(error)
            ||| columns.paused is Ok && columns.pause_reason is Ok && columns.updated_at == Err::<
                Timestamp,
                E,
            >(error)
        },
{
    let paused: bool = match columns.paused {
        Err(error) => {
            return Err(error);
        },
        Ok(paused) => paused,
    };
    let pause_reason: Option<String> = match columns.pause_reason {
        Err(error) => {
            return Err(error);
        },
        Ok(pause_reason) => pause_reason,
    };
    let updated_at: Timestamp = match columns.updated_at {
        Err(error) => {
            return Err(error);
        },
        Ok(updated_at) => updated_at,
    };
    Ok(WorkerControlState { paused, pause_reason, updated_at })
}

/// Reads what a pause or a resumption returned. The columns of the previous state
/// come first.
pub fn worker_pause_update_from_row<E>(
    previous: ControlColumns<E>,
    current: ControlColumns<E>,
) -> (update: Result<WorkerPauseUpdate, E>)
    ensures
        match update {
            Ok(update) => holds(previous, update.previous) && holds(current, update.current),
            Err(error) => match column_failure(previous) {
                Some(first) => error == first,
                None => column_failure(current) == Some(error),
            },
        },
        update matches Ok(read) ==> {
            &&& previous.paused == Ok::<bool, E>(read.previous.paused)
            &&& previous.pause_reason == Ok::<Option<String>, E>(read.previous.pause_reason)
            &&& previous.updated_at == Ok::<Timestamp, E>(read.previous.updated_at)
            &&& current.paused == Ok::<bool, E>(read.current.paused)
            &&& current.pause_reason == Ok::<Option<String>, E>(read.current.pause_reason)
            &&& current.updated_at == Ok::<Timestamp, E>(read.current.updated_at)
        },
{
    let previous: WorkerControlState = match worker_control_state_from_row(previous) {
        Err(error) => {
            return Err(error);
        },
        Ok(state) => state,
    };
    let current: WorkerControlState = match worker_control_state_from_row(current) {
        Err(error) => {
            return Err(error);
        },
        Ok(state) => state,
    };
    Ok(WorkerPauseUpdate { previous, current })
}

/// Builds the removal of the job with the given key.
pub fn remove_job(schema: &Schema, job_key: &str) -> (query: Query)
    ensures
        query@.sql == CALL@ + schema.remove_job@ + REMOVE_JOB_ARGS@,
        query@.params == seq![crate::query::DbParam::Text(job_key@)],
        query.sql@ == CALL@ + schema.remove_job@ + REMOVE_JOB_ARGS@,
        query.params@.len() == 1,
        query.params@[0] matches DbValue::Text(text) && text@ == job_key@,
{
    let mut sql: String = CALL.to_string();
    sql.append(schema.remove_job.as_str());
    sql.append(REMOVE_JOB_ARGS);
    let query = Query { sql, params: vec![DbValue::Text(job_key.to_string())] };
    assert(query@.params =~= seq![crate::query::DbParam::Text(job_key@)]);
    query
}

/// Builds the completion of jobs.
pub fn complete_jobs(schema: &Schema, ids: &[i64]) -> (query: Query)
    ensures
        query@.sql == CALL@ + schema.complete_jobs@ + COMPLETE_JOBS_ARGS@,
        query@.params == seq![crate::query::DbParam::I64Array(ids@)],
        query.sql@ == CALL@ + schema.complete_jobs@ + COMPLETE_JOBS_ARGS@,
        query.params@.len() == 1,
        query.params@[0] matches DbValue::I64Array(numbers) && numbers@ == ids@,
{
    let mut sql: String = CALL.to_string();
    sql.append(schema.complete_jobs.as_str());
    sql.append(COMPLETE_JOBS_ARGS);
    let query = Query { sql, params: vec![DbValue::I64Array(copy_ids(ids))] };
    assert(query@.params =~= seq![crate::query::DbParam::I64Array(ids@)]);
    query
}

/// Builds the final failure of jobs, for the given reason.
pub fn permanently_fail_jobs(schema: &Schema, ids: &[i64], reason: &str) -> (query: Query)
    ensures
        query@.sql == CALL@ + schema.permanently_fail_jobs@ + FAIL_JOBS_ARGS@,
        query@.params == seq![
            crate::query::DbParam::I64Array(ids@),
            crate::query::DbParam::Text(reason@),
        ],
        query.sql@ == CALL@ + schema.permanently_fail_jobs@ + FAIL_JOBS_ARGS@,
        query.params@.len() == 2,
        query.params@[0] matches DbValue::I64Array(numbers) && numbers@ == ids@,
        query.params@[1] matches DbValue::Text(text) && text@ == reason@,
{
    let mut sql: String = CALL.to_string();
    sql.append(schema.permanently_fail_jobs.as_str());
    sql.append(FAIL_JOBS_ARGS);
    let query = Query {
        sql,
        params: vec![DbValue::I64Array(copy_ids(ids)), DbValue::Text(reason.to_string())],
    };
    assert(query@.params =~= seq![
        crate::query::DbParam::I64Array(ids@),
        crate::query::DbParam::Text(reason@),
    ]);
    query
}

/// Builds the rescheduling of jobs.
pub fn reschedule_jobs(schema: &Schema, ids: &[i64], options: RescheduleJobOptions) -> (query:
    Query)
    ensures
        query@.sql == CALL@ + schema.reschedule_jobs@ + RESCHEDULE_JOBS_ARGS@,
        query@.params == seq![
            crate::query::DbParam::I64Array(ids@),
            crate::query::DbParam::TimestampTzOpt(options.run_at),
            crate::query::DbParam::I32Opt(widened(options.priority)),
            crate::query::DbParam::I32Opt(widened(options.attempts)),
            crate::query::DbParam::I32Opt(widened(options.max_attempts)),
        ],
        query.sql@ == CALL@ + schema.reschedule_jobs@ + RESCHEDULE_JOBS_ARGS@,
        query.params@.len() == 5,
        query.params@[0] matches DbValue::I64Array(numbers) && numbers@ == ids@,
        query.params@[1] == DbValue::TimestampTzOpt(options.run_at),
        query.params@[2] == DbValue::I32Opt(
            match options.priority {
                Some(priority) => Some(priority as i32),
                None => None,
            },
        ),
        query.params@[3] == DbValue::I32Opt(
            match options.attempts {
                Some(attempts) => Some(attempts as i32),
                None => None,
            },
        ),
        query.params@[4] == DbValue::I32Opt(
            match options.max_attempts {
                Some(max_attempts) => Some(max_attempts as i32),
                None => None,
            },
        ),
{
    let mut sql: String = CALL.to_string();
    sql.append(schema.reschedule_jobs.as_str());
    sql.append(RESCHEDULE_JOBS_ARGS);
    let query = Query {
        sql,
        params: vec![
            DbValue::I64Array(copy_ids(ids)),
            DbValue::TimestampTzOpt(options.run_at),
            DbValue::I32Opt(widen(options.priority)),
            DbValue::I32Opt(widen(options.attempts)),
            DbValue::I32Opt(widen(options.max_attempts)),
        ],
    };
    assert(query@.params =~= seq![
        crate::query::DbParam::I64Array(ids@),
        crate::query::DbParam::TimestampTzOpt(options.run_at),
        crate::query::DbParam::I32Opt(widened(options.priority)),
        crate::query::DbParam::I32Opt(widened(options.attempts)),
        crate::query::DbParam::I32Opt(widened(options.max_attempts)),
    ]);
    query
}

/// The texts of a list.
pub open spec fn str_texts(list: Seq<&str>) -> Seq<Seq<char>> {
    list.map_values(|text: &str| text@)
}

/// Builds the statement that unlocks what the given workers hold.
pub fn force_unlock_workers(schema: &Schema, worker_ids: &[&str]) -> (query: Query)
    ensures
        query@.sql == CALL@ + schema.force_unlock_workers@ + UNLOCK_ARGS@,
        query@.params == seq![crate::query::DbParam::TextArray(str_texts(worker_ids@))],
        query.sql@ == CALL@ + schema.force_unlock_workers@ + UNLOCK_ARGS@,
        query.params@.len() == 1,
        query.params@[0] matches DbValue::TextArray(ids) && ids@.len() == worker_ids@.len()
            && forall|i: int| 0 <= i < ids@.len() ==> (#[trigger] ids@[i])@ == worker_ids@[i]@,
{
    let mut sql: String = CALL.to_string();
    sql.append(schema.force_unlock_workers.as_str());
    sql.append(UNLOCK_ARGS);
    let mut ids: Vec<String> = Vec::with_capacity(worker_ids.len());
    let mut i: usize = 0;
    while i < worker_ids.len()
        invariant
            i <= worker_ids@.len(),
            ids@.len() == i,
            forall|k: int| 0 <= k < i ==> (#[trigger] ids@[k])@ == worker_ids@[k]@,
        decreases worker_ids@.len() - i,
    {
        let id: &str = worker_ids[i];
        ids.push(id.to_string());
        i += 1;
    }
    assert(crate::query::texts(ids@) =~= str_texts(worker_ids@));
    let query = Query { sql, params: vec![DbValue::TextArray(ids)] };
    assert(query@.params =~= seq![crate::query::DbParam::TextArray(str_texts(worker_ids@))]);
    query
}

} // verus!
