//! The claim of a batch of jobs of several tasks.

use vstd::prelude::*;

use crate::job::{DbJob, Job};
use crate::queries::batch_sql::{batch_get_jobs_sql, BatchClauses};
use crate::queries::rows::fetch_db_jobs;
use crate::query::{copy_strings, DbValue, Query};
use crate::schema::Schema;
use crate::tasks::TaskDetails;
use crate::time::Timestamp;

verus! {

/// Numbers of the parameters of the batch statement that are not always there.
#[derive(Debug, Clone, Copy, PartialEq, Eq, Structural)]
pub struct BatchParams {
    /// The flags to skip, if there are any.
    pub flags: Option<u8>,
    /// The time, if it does not come from the database.
    pub now: Option<u8>,
}

/// The optional parameters follow the three that are always there, the flags before
/// the time, without a gap.
pub open spec fn batch_params(has_flags: bool, has_now: bool) -> BatchParams {
    BatchParams {
        flags: if has_flags {
            Some(4u8)
        } else {
            None
        },
        now: if !has_now {
            None
        } else if has_flags {
            Some(5u8)
        } else {
            Some(4u8)
        },
    }
}

/// The numbers for given flags and a given time.
pub open spec fn statement_params(
    flags_to_skip: Seq<String>,
    now: Option<Timestamp>,
) -> BatchParams {
    batch_params(flags_to_skip.len() > 0, now is Some)
}

/// Numbers the optional parameters of the batch statement: the flags if any are to be
/// skipped, and the time if it is given.
pub fn number_batch_params(flags_to_skip: &[String], now: Option<Timestamp>) -> (params:
    BatchParams)
    ensures
        params == batch_params(flags_to_skip@.len() > 0, now is Some),
        params.flags == if flags_to_skip@.len() > 0 {
            Some(4u8)
        } else {
            None::<u8>
        },
        params.now == match now {
            None => None::<u8>,
            Some(_) => if flags_to_skip@.len() > 0 {
                Some(5u8)
            } else {
                Some(4u8)
            },
        },
{
    let mut next_param: u8 = 4;
    let flags: Option<u8> = if flags_to_skip.len() > 0 {
        let number: u8 = next_param;
        next_param = next_param + 1;
        Some(number)
    } else {
        None
    };
    let now: Option<u8> = if now.is_some() {
        Some(next_param)
    } else {
        None
    };
    BatchParams { flags, now }
}

/// Parameters of the batch statement.
pub open spec fn batch_values(
    worker_id: Seq<char>,
    task_ids: Seq<i32>,
    batch_size: i32,
    flags_to_skip: Seq<Seq<char>>,
    now: Option<Timestamp>,
) -> Seq<crate::query::DbParam> {
    let always = seq![
        crate::query::DbParam::Text(worker_id),
        crate::query::DbParam::I32Array(task_ids),
        crate::query::DbParam::I32(batch_size),
    ];
    let with_flags = if flags_to_skip.len() > 0 {
        always.push(crate::query::DbParam::TextArray(flags_to_skip))
    } else {
        always
    };
    match now {
        Some(time) => with_flags.push(crate::query::DbParam::TimestampTz(time)),
        None => with_flags,
    }
}

/// The batch statement with its parameters.
pub open spec fn batch_query(
    tasks: Seq<(i32, String)>,
    schema: Schema,
    clauses: BatchClauses,
    worker_id: Seq<char>,
    flags_to_skip: Seq<Seq<char>>,
    batch_size: i32,
    now: Option<Timestamp>,
) -> crate::query::QueryText {
    crate::query::QueryText {
        sql: crate::queries::batch_sql::batch_sql_text(
            schema.jobs@,
            schema.job_queues@,
            clauses,
            if flags_to_skip.len() > 0 {
                clauses.flag_clause@
            } else {
                ""@
            },
        ),
        params: batch_values(worker_id, crate::tasks::ids(tasks), batch_size, flags_to_skip, now),
    }
}

/// Builds the claim of up to `batch_size` jobs of the registered tasks.
///
/// The clauses come from `write_clauses`, which is told the numbers of the parameters
/// that the statement has.
pub fn batch_get_jobs<W: FnOnce(BatchParams) -> BatchClauses>(
    task_details: &TaskDetails,
    schema: &Schema,
    write_clauses: W,
    worker_id: &str,
    flags_to_skip: &[String],
    batch_size: i32,
    now: Option<Timestamp>,
) -> (query: Query)
    requires
        call_requires(write_clauses, (statement_params(flags_to_skip@, now),)),
    ensures
        exists|clauses: BatchClauses|
            #[trigger] call_ensures(
                write_clauses,
                (statement_params(flags_to_skip@, now),),
                clauses,
            ) && query@ == batch_query(
                task_details.tasks@,
                *schema,
                clauses,
                worker_id@,
                crate::query::texts(flags_to_skip@),
                batch_size,
                now,
            ),
{
    let clauses: BatchClauses = write_clauses(number_batch_params(flags_to_skip, now));
    batch_query_from_clauses(
        task_details,
        schema,
        &clauses,
        worker_id,
        flags_to_skip,
        batch_size,
        now,
    )
}

/// Builds the claim of a batch from given clauses.
pub fn batch_query_from_clauses(
    task_details: &TaskDetails,
    schema: &Schema,
    clauses: &BatchClauses,
    worker_id: &str,
    flags_to_skip: &[String],
    batch_size: i32,
    now: Option<Timestamp>,
) -> (query: Query)
    ensures
        query@ == batch_query(
            task_details.tasks@,
            *schema,
            *clauses,
            worker_id@,
            crate::query::texts(flags_to_skip@),
            batch_size,
            now,
        ),
        query.params@.len() >= 3,
        query.params@[0] matches DbValue::Text(text) && text@ == worker_id@,
        query.params@[1] matches DbValue::I32Array(task_ids) && task_ids@.len()
            == task_details.tasks@.len() && forall|i: int|
            0 <= i < task_ids@.len() ==> #[trigger] task_ids@[i] == task_details.tasks@[i].0,
        query.params@[2] == DbValue::I32(batch_size),
        flags_to_skip@.len() > 0 ==> query.params@.len() > 3 && (query.params@[3] matches
            DbValue::TextArray(flags) && flags@ == flags_to_skip@),
        now matches Some(time) ==> query.params@.last() == DbValue::TimestampTz(time),
        query.params@.len() == 3 + (if flags_to_skip@.len() > 0 {
            1int
        } else {
            0
        }) + (if now is Some {
            1int
        } else {
            0
        }),
{
    let has_flags: bool = flags_to_skip.len() > 0;
    let sql: String = batch_get_jobs_sql(schema, clauses, has_flags);
    let mut params: Vec<DbValue> = vec![
        DbValue::Text(worker_id.to_string()),
        DbValue::I32Array(task_details.task_ids()),
        DbValue::I32(batch_size),
    ];
    if has_flags {
        params.push(DbValue::TextArray(copy_strings(flags_to_skip)));
    }
    if let Some(time) = now {
        params.push(DbValue::TimestampTz(time));
    }
    let query = Query { sql, params };
    assert(query@.params =~= batch_values(
        worker_id@,
        crate::tasks::ids(task_details.tasks@),
        batch_size,
        crate::query::texts(flags_to_skip@),
        now,
    ));
    query
}

/// Turns the rows of the batch statement into jobs, each under the identifier of its
/// task. A job of a task that is not registered goes under the empty one.
pub fn batch_jobs_from_rows<C, E>(
    rows: Vec<Result<DbJob<C>, E>>,
    task_details: &TaskDetails,
) -> (jobs: Result<Vec<Job<C>>, E>)
    ensures
        match crate::queries::rows::first_failure(rows@) {
            Some(error) => jobs == Err::<Vec<Job<C>>, E>(error),
            None => jobs matches Ok(all) && all@.len() == rows@.len() && forall|i: int|
                0 <= i < rows@.len() ==> (#[trigger] all@[i]).is_row(
                    rows@[i]->Ok_0,
                    crate::tasks::identifier_or_empty(
                        task_details.tasks@,
                        (rows@[i]->Ok_0).task_id,
                    ),
                ),
        },
        match jobs {
            Ok(all) => all@.len() == rows@.len() && forall|i: int|
                0 <= i < rows@.len() ==> {
                    &&& rows@[i] == Ok::<DbJob<C>, E>(
                        DbJob {
                            id: (#[trigger] all@[i]).id,
                            job_queue_id: all@[i].job_queue_id,
                            task_id: all@[i].task_id,
                            columns: all@[i].columns,
                        },
                    )
                    &&& is_identifier_of(
                        task_details.tasks@,
                        all@[i].task_id,
                        all@[i].task_identifier@,
                    )
                },
            Err(error) => exists|i: int|
                0 <= i < rows@.len() && #[trigger] rows@[i] == Err::<DbJob<C>, E>(error) && forall|
                    k: int,
                |
                    0 <= k < i ==> (#[trigger] rows@[k]) is Ok,
        },
{
    let ghost given = rows@;
    let db_jobs: Vec<DbJob<C>> = match fetch_db_jobs(rows) {
        Err(error) => {
            return Err(error);
        },
        Ok(db_jobs) => db_jobs,
    };
    let ghost read = db_jobs@;
    let mut jobs: Vec<Job<C>> = Vec::with_capacity(db_jobs.len());
    for row in it: db_jobs
        invariant
            it.seq() == read,
            read == crate::queries::rows::row_values(given),
            jobs@.len() == it.index(),
            forall|i: int|
                0 <= i < it.index() ==> (#[trigger] jobs@[i]).is_row(
                    given[i]->Ok_0,
                    crate::tasks::identifier_or_empty(
                        task_details.tasks@,
                        (given[i]->Ok_0).task_id,
                    ),
                ),
            forall|i: int|
                0 <= i < it.index() ==> is_identifier_of(
                    task_details.tasks@,
                    (#[trigger] jobs@[i]).task_id,
                    jobs@[i].task_identifier@,
                ),
    {
        let ghost index: int = it.index();
        assert(row == read[index]);
        let task_identifier: String = task_details.get_or_empty(row.task_id);
        jobs.push(Job::from_db_job(row, task_identifier));
    }
    Ok(jobs)
}

/// Whether a text is what the tasks have registered under a number: the identifier of
/// the first task with that number, or nothing at all if there is none.
pub open spec fn is_identifier_of(
    tasks: Seq<(i32, String)>,
    task_id: i32,
    identifier: Seq<char>,
) -> bool {
    ||| exists|i: int|
        0 <= i < tasks.len() && (#[trigger] tasks[i]).0 == task_id && identifier == tasks[i].1@
            && forall|k: int| 0 <= k < i ==> (#[trigger] tasks[k]).0 != task_id
    ||| {
        &&& identifier == ""@
        &&& forall|i: int| 0 <= i < tasks.len() ==> (#[trigger] tasks[i]).0 != task_id
    }
}

/// Law: a batch carries its worker, its tasks and its size first, whatever follows, and
/// then the flags and the time that it was built from, as far as they are given.
pub proof fn law_a_batch_carries_what_it_is_for(
    worker_id: Seq<char>,
    task_ids: Seq<i32>,
    batch_size: i32,
    flags_to_skip: Seq<Seq<char>>,
    now: Option<Timestamp>,
)
    ensures
        ({
            let values = batch_values(worker_id, task_ids, batch_size, flags_to_skip, now);
            &&& values[0] == crate::query::DbParam::Text(worker_id)
            &&& values[1] == crate::query::DbParam::I32Array(task_ids)
            &&& values[2] == crate::query::DbParam::I32(batch_size)
            &&& flags_to_skip.len() > 0 ==> values[3] == crate::query::DbParam::TextArray(
                flags_to_skip,
            )
            &&& now matches Some(time) ==> values.last() == crate::query::DbParam::TimestampTz(time)
            &&& values.len() == 3 + (if flags_to_skip.len() > 0 {
                1int
            } else {
                0
            }) + (if now is Some {
                1int
            } else {
                0
            })
        }),
{
}

/// Law: the optional parameters are numbered from four on without a gap, the flags
/// before the time, and one has a number if and only if it is given.
pub proof fn law_batch_params_are_numbered_in_order(has_flags: bool, has_now: bool)
    ensures
        batch_params(has_flags, has_now).flags is Some <==> has_flags,
        batch_params(has_flags, has_now).now is Some <==> has_now,
        has_flags ==> batch_params(has_flags, has_now).flags == Some(4u8),
        has_now && !has_flags ==> batch_params(has_flags, has_now).now == Some(4u8),
        has_now && has_flags ==> batch_params(has_flags, has_now).now == Some(5u8),
{
}

/// Law: the batch statement is put together from its tables and clauses. The flag clause
/// stands in it if and only if a flag is to be skipped.
pub proof fn law_batch_statement_has_the_flag_clause_for_flags(
    tasks: Seq<(i32, String)>,
    schema: Schema,
    clauses: BatchClauses,
    worker_id: Seq<char>,
    flags_to_skip: Seq<Seq<char>>,
    batch_size: i32,
    now: Option<Timestamp>,
)
    ensures
        ({
            let query = batch_query(
                tasks,
                schema,
                clauses,
                worker_id,
                flags_to_skip,
                batch_size,
                now,
            );
            &&& flags_to_skip.len() > 0 ==> query.sql
                == crate::queries::batch_sql::batch_sql_text(
                schema.jobs@,
                schema.job_queues@,
                clauses,
                clauses.flag_clause@,
            )
            &&& flags_to_skip.len() == 0 ==> query.sql
                == crate::queries::batch_sql::batch_sql_text(
                schema.jobs@,
                schema.job_queues@,
                clauses,
                ""@,
            )
            &&& query.params == batch_values(
                worker_id,
                tasks.map_values(|task: (i32, String)| task.0),
                batch_size,
                flags_to_skip,
                now,
            )
        }),
{
    assert(crate::tasks::ids(tasks) =~= tasks.map_values(|task: (i32, String)| task.0));
}

/// Law: the parameters stand where their numbers say.
pub proof fn law_batch_params_are_where_numbered(
    worker_id: Seq<char>,
    task_ids: Seq<i32>,
    batch_size: i32,
    flags_to_skip: Seq<Seq<char>>,
    now: Option<Timestamp>,
)
    ensures
        ({
            let numbers = batch_params(flags_to_skip.len() > 0, now is Some);
            let values = batch_values(worker_id, task_ids, batch_size, flags_to_skip, now);
            &&& numbers.flags matches Some(number) ==> values[number - 1]
                == crate::query::DbParam::TextArray(flags_to_skip)
            &&& numbers.now matches Some(number) ==> values[number - 1]
                == crate::query::DbParam::TimestampTz(now->0)
            &&& values.len() == 3 + (if numbers.flags is Some {
                1int
            } else {
                0
            }) + (if numbers.now is Some {
                1int
            } else {
                0
            })
        }),
{
}

} // verus!
