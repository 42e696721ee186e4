//! The worker-control row and the claim of jobs of one task.

use vstd::prelude::*;
use vstd::string::*;

use crate::job::{DbJob, Job};
use crate::queries::claim_sql::claim_queue_jobs_sql;
use crate::query::{copy_strings, DbValue, Query};
use crate::schema::Schema;
use crate::time::Timestamp;

verus! {

/// Column of the worker-control row: whether claims are paused.
pub const PAUSED_COLUMN: &'static str = "paused";

/// Column of the worker-control row: why claims are paused.
pub const PAUSE_REASON_COLUMN: &'static str = "pause_reason";

/// Column of the claim statement: where the next scan goes on.
pub const NEXT_ORDERING_CURSOR_COLUMN: &'static str = "next_ordering_cursor";

/// What the worker-control row says: whether claims are paused, and why.
#[derive(Debug, Clone, PartialEq, Eq)]
pub struct WorkerControlState {
    pub paused: bool,
    pub pause_reason: Option<String>,
}

/// Columns of the worker-control row, [`PAUSED_COLUMN`] and [`PAUSE_REASON_COLUMN`],
/// each as it was read or could not be.
pub struct ControlRow<E> {
    pub paused: Result<bool, E>,
    pub pause_reason: Result<Option<String>, E>,
}

/// Text of the statement that reads the worker-control row.
pub open spec fn control_sql_text(worker_control: Seq<char>) -> Seq<char> {
    "select paused, pause_reason from "@ + worker_control + " where id = true"@
}

/// Builds the plain read of the single worker-control row.
///
/// The read takes no lock. A pause that commits between it and a claim lets one last
/// wave through.
pub fn read_worker_control(schema: &Schema) -> (query: Query)
    ensures
        query@.sql == control_sql_text(schema.worker_control@),
        query.sql@ == "select paused, pause_reason from "@ + schema.worker_control@
            + " where id = true"@,
        query.params@.len() == 0,
        query@.params == Seq::<crate::query::DbParam>::empty(),
{
    let mut sql: String = "select paused, pause_reason from ".to_string();
    sql.append(schema.worker_control.as_str());
    sql.append(" where id = true");
    let query = Query { sql, params: Vec::new() };
    assert(query@.params =~= Seq::<crate::query::DbParam>::empty());
    query
}

/// Builds the read that opens a claim wave. It shares a lock on the worker-control
/// row until the wave's transaction ends, so that a pause waits for the wave and a
/// wave waits for the pause.
pub fn lock_worker_control(schema: &Schema) -> (query: Query)
    ensures
        query@.sql == control_sql_text(schema.worker_control@) + " for share"@,
        query.sql@ == "select paused, pause_reason from "@ + schema.worker_control@
            + " where id = true"@ + " for share"@,
        query.params@.len() == 0,
        query@.params == Seq::<crate::query::DbParam>::empty(),
{
    let mut query: Query = read_worker_control(schema);
    query.sql.append(" for share");
    query
}

/// Reads the worker-control row. A column that could not be read is an error, the
/// first one if there are several.
pub fn worker_control_from_row<E>(row: ControlRow<E>) -> (control: Result<WorkerControlState, E>)
    ensures
        match control {
            Ok(state) => row.paused == Ok::<bool, E>(state.paused) && row.pause_reason == Ok::<
                Option<String>,
                E,
            >(state.pause_reason),
            Err(error) => match row.paused {
                Err(e) => error == e,
                Ok(_) => row.pause_reason == Err::<Option<String>, E>(error),
            },
        },
{
    match row.paused {
        Err(error) => Err(error),
        Ok(paused) => match row.pause_reason {
            Err(error) => Err(error),
            Ok(pause_reason) => Ok(WorkerControlState { paused, pause_reason }),
        },
    }
}

/// The result of one bounded claim for a single task.
#[derive(Debug, PartialEq, Eq)]
pub struct QueueClaim<C> {
    pub jobs: Vec<Job<C>>,
    /// Last ordering row that was looked at. `None` means that the pass reached the
    /// end.
    pub next_ordering_cursor: Option<i32>,
}

/// What a claim needs: nothing from the database, or one statement.
#[derive(Debug, PartialEq, Eq)]
pub enum ClaimRequest<C> {
    Claimed(QueueClaim<C>),
    Fetch(Query),
}

/// A row that the claim statement returned. It carries the cursor in
/// [`NEXT_ORDERING_CURSOR_COLUMN`], and a job unless the claim came out empty.
pub struct ClaimRow<C, E> {
    pub next_ordering_cursor: Result<Option<i32>, E>,
    pub job: Result<Option<DbJob<C>>, E>,
}

/// The claim statement with its parameters.
pub open spec fn claim_query(
    schema: Schema,
    worker_id: Seq<char>,
    task_id: i32,
    flags_to_skip: Seq<Seq<char>>,
    quota: i32,
    ordering_cursor: Option<i32>,
    now: Option<Timestamp>,
) -> crate::query::QueryText {
    crate::query::QueryText {
        sql: crate::queries::claim_sql::claim_sql_text(schema.jobs@, schema.job_queues@),
        params: seq![
            crate::query::DbParam::Text(worker_id),
            crate::query::DbParam::I32(task_id),
            crate::query::DbParam::I32(quota),
            crate::query::DbParam::I32Opt(ordering_cursor),
            crate::query::DbParam::TextArray(flags_to_skip),
            crate::query::DbParam::TimestampTzOpt(now),
        ],
    }
}

/// Starts a claim of up to `quota` jobs of exactly one task.
///
/// Without a positive quota there is nothing to claim, and the cursor stays where it
/// is. Otherwise the caller runs the statement inside the transaction in which it
/// observed the worker-control row, and hands the rows to [`queue_claim_from_rows`].
pub fn claim_queue_jobs<C>(
    schema: &Schema,
    worker_id: &str,
    task_id: i32,
    flags_to_skip: &[String],
    quota: i32,
    ordering_cursor: Option<i32>,
    now: Option<Timestamp>,
) -> (request: ClaimRequest<C>)
    ensures
        match request {
            ClaimRequest::Claimed(claim) => {
                &&& quota <= 0
                &&& claim.jobs@ == Seq::<Job<C>>::empty()
                &&& claim.next_ordering_cursor == ordering_cursor
            },
            ClaimRequest::Fetch(query) => {
                &&& quota > 0
                &&& query@ == claim_query(
                    *schema,
                    worker_id@,
                    task_id,
                    crate::query::texts(flags_to_skip@),
                    quota,
                    ordering_cursor,
                    now,
                )
                &&& query.params@.len() == 6
                &&& query.params@[0] matches DbValue::Text(text) && text@ == worker_id@
                &&& query.params@[1] == DbValue::I32(task_id)
                &&& query.params@[2] == DbValue::I32(quota)
                &&& query.params@[3] == DbValue::I32Opt(ordering_cursor)
                &&& query.params@[4] matches DbValue::TextArray(flags) && flags@ == flags_to_skip@
                &&& query.params@[5] == DbValue::TimestampTzOpt(now)
            },
        },
{
    if quota <= 0 {
        return ClaimRequest::Claimed(
            QueueClaim { jobs: Vec::new(), next_ordering_cursor: ordering_cursor },
        );
    }
    let sql: String = claim_queue_jobs_sql(schema);
    let params: Vec<DbValue> = vec![
        DbValue::Text(worker_id.to_string()),
        DbValue::I32(task_id),
        DbValue::I32(quota),
        DbValue::I32Opt(ordering_cursor),
        DbValue::TextArray(copy_strings(flags_to_skip)),
        DbValue::TimestampTzOpt(now),
    ];
    let query = Query { sql, params };
    assert(query@.params =~= claim_query(
        *schema,
        worker_id@,
        task_id,
        crate::query::texts(flags_to_skip@),
        quota,
        ordering_cursor,
        now,
    ).params);
    ClaimRequest::Fetch(query)
}

/// The first job that could not be read, if there is one.
pub open spec fn job_failure<C, E>(rows: Seq<ClaimRow<C, E>>) -> Option<E>
    decreases rows.len(),
{
    if rows.len() == 0 {
        None
    } else {
        match job_failure(rows.drop_last()) {
            Some(error) => Some(error),
            None => match rows.last().job {
                Err(error) => Some(error),
                Ok(_) => None,
            },
        }
    }
}

/// Why rows make no claim: the cursor of the first row, and otherwise the first job
/// that could not be read.
pub open spec fn row_failure<C, E>(rows: Seq<ClaimRow<C, E>>) -> Option<E> {
    if rows.len() > 0 && rows[0].next_ordering_cursor is Err {
        Some(rows[0].next_ordering_cursor->Err_0)
    } else {
        job_failure(rows)
    }
}

/// The cursor that rows carry: that of the first row, and none if there is no row.
pub open spec fn row_cursor<C, E>(rows: Seq<ClaimRow<C, E>>) -> Option<i32> {
    if rows.len() == 0 {
        None
    } else {
        rows[0].next_ordering_cursor->Ok_0
    }
}

/// The jobs that rows carry, in the order of the rows.
pub open spec fn row_jobs<C, E>(rows: Seq<ClaimRow<C, E>>) -> Seq<DbJob<C>>
    decreases rows.len(),
{
    if rows.len() == 0 {
        Seq::empty()
    } else {
        match rows.last().job {
            Ok(Some(job)) => row_jobs(rows.drop_last()).push(job),
            _ => row_jobs(rows.drop_last()),
        }
    }
}

/// The rows that hold a job.
pub open spec fn rows_with_jobs<C, E>(rows: Seq<ClaimRow<C, E>>) -> Seq<ClaimRow<C, E>> {
    rows.filter(|row: ClaimRow<C, E>| row.job matches Ok(Some(_)))
}

/// Whether jobs are the given rows, each under the identifier.
pub open spec fn are_rows<C>(
    jobs: Seq<Job<C>>,
    rows: Seq<DbJob<C>>,
    identifier: Seq<char>,
) -> bool {
    &&& jobs.len() == rows.len()
    &&& forall|i: int| 0 <= i < jobs.len() ==> (#[trigger] jobs[i]).is_row(rows[i], identifier)
}

/// Turns the rows of the claim statement into a claim. Every job goes under the
/// identifier of the task that was claimed for.
pub fn queue_claim_from_rows<C, E>(
    rows: Vec<ClaimRow<C, E>>,
    task_identifier: &str,
) -> (claim: Result<QueueClaim<C>, E>)
    ensures
        match claim {
            Ok(claimed) => {
                &&& row_failure(rows@) is None
                &&& claimed.next_ordering_cursor == row_cursor(rows@)
                &&& are_rows(claimed.jobs@, row_jobs(rows@), task_identifier@)
            },
            Err(error) => row_failure(rows@) == Some(error),
        },
        match claim {
            Ok(claimed) => {
                &&& forall|i: int| 0 <= i < rows@.len() ==> (#[trigger] rows@[i]).job is Ok
                &&& rows@.len() == 0 ==> claimed.next_ordering_cursor is None
                &&& rows@.len() > 0 ==> rows@[0].next_ordering_cursor == Ok::<Option<i32>, E>(
                    claimed.next_ordering_cursor,
                )
                &&& claimed.jobs@.len() == rows_with_jobs(rows@).len()
                &&& forall|i: int|
                    0 <= i < claimed.jobs@.len() ==> {
                        &&& rows_with_jobs(rows@)[i].job == Ok::<Option<DbJob<C>>, E>(
                            Some(
                                DbJob {
                                    id: (#[trigger] claimed.jobs@[i]).id,
                                    job_queue_id: claimed.jobs@[i].job_queue_id,
                                    task_id: claimed.jobs@[i].task_id,
                                    columns: claimed.jobs@[i].columns,
                                },
                            ),
                        )
                        &&& claimed.jobs@[i].task_identifier@ == task_identifier@
                    }
            },
            Err(error) => {
                ||| rows@.len() > 0 && rows@[0].next_ordering_cursor == Err::<Option<i32>, E>(error)
                ||| {
                    &&& rows@[0].next_ordering_cursor is Ok
                    &&& exists|i: int|
                        0 <= i < rows@.len() && (#[trigger] rows@[i]).job == Err::<
                            Option<DbJob<C>>,
                            E,
                        >(error) && forall|k: int| 0 <= k < i ==> (#[trigger] rows@[k]).job is Ok
                }
            },
        },
{
    let ghost given = rows@;
    let mut next_ordering_cursor: Option<i32> = None;
    let mut jobs: Vec<Job<C>> = Vec::with_capacity(rows.len());
    let mut first: bool = true;
    for row in it: rows
        invariant
            it.seq() == given,
            first <==> it.index() == 0,
            forall|k: int| 0 <= k < it.index() ==> (#[trigger] given[k]).job is Ok,
            job_failure(given.take(it.index())) is None,
            it.index() > 0 ==> given[0].next_ordering_cursor is Ok,
            next_ordering_cursor == row_cursor(given.take(it.index())),
            are_rows(jobs@, row_jobs(given.take(it.index())), task_identifier@),
    {
        let ghost index: int = it.index();
        proof {
            assert(row == given[index]);
            assert(given.take(index + 1).drop_last() =~= given.take(index));
            lemma_first_failure_stays(given, index + 1);
        }
        if first {
            first = false;
            match row.next_ordering_cursor {
                Err(error) => {
                    return Err(error);
                },
                Ok(cursor) => {
                    next_ordering_cursor = cursor;
                },
            }
        }
        match row.job {
            Err(error) => {
                return Err(error);
            },
            Ok(None) => {},
            Ok(Some(job)) => {
                jobs.push(Job::from_db_job(job, task_identifier.to_string()));
            },
        }
    }
    assert(given.take(given.len() as int) =~= given);
    proof {
        law_row_jobs_are_those_of_the_rows(given);
    }
    Ok(QueueClaim { jobs, next_ordering_cursor })
}

/// Law: rows give one job for each of them that holds one, and just that job, in the
/// order of the rows.
pub proof fn law_row_jobs_are_those_of_the_rows<C, E>(rows: Seq<ClaimRow<C, E>>)
    ensures
        row_jobs(rows).len() == rows.filter(
            |row: ClaimRow<C, E>| row.job matches Ok(Some(_)),
        ).len(),
        forall|i: int|
            0 <= i < row_jobs(rows).len() ==> rows.filter(
                |row: ClaimRow<C, E>| row.job matches Ok(Some(_)),
            )[i].job == Ok::<Option<DbJob<C>>, E>(Some(#[trigger] row_jobs(rows)[i])),
    decreases rows.len(),
{
    let holds = |row: ClaimRow<C, E>| row.job matches Ok(Some(_));
    if rows.len() == 0 {
        rows.lemma_filter_len(holds);
    } else {
        let front = rows.drop_last();
        law_row_jobs_are_those_of_the_rows(front);
        front.lemma_filter_push(rows.last(), holds);
        assert(front.push(rows.last()) =~= rows);
    }
}

/// Law: if every row holds a job, there are as many jobs as rows, each in the place of
/// its row. No job that the database has locked is left behind.
pub proof fn law_no_locked_job_is_lost<C, E>(rows: Seq<ClaimRow<C, E>>, index: int)
    requires
        forall|i: int| 0 <= i < rows.len() ==> ((#[trigger] rows[i]).job matches Ok(Some(_))),
    ensures
        job_failure(rows) is None,
        row_jobs(rows).len() == rows.len(),
        0 <= index < rows.len() ==> rows[index].job == Ok::<Option<DbJob<C>>, E>(
            Some(row_jobs(rows)[index]),
        ),
    decreases rows.len(),
{
    if rows.len() > 0 {
        let front = rows.drop_last();
        assert forall|i: int| 0 <= i < front.len() implies ((#[trigger] front[i]).job matches Ok(
            Some(_),
        )) by {
            assert(rows[i].job matches Ok(Some(_)));
        }
        assert(rows[rows.len() - 1].job matches Ok(Some(_)));
        law_no_locked_job_is_lost(front, index);
    }
}

/// Law: a claim fails if and only if the first cursor or any job cannot be read. The
/// cursor of the first row comes before all jobs, and an earlier job before a later
/// one. Otherwise the claim carries the cursor of the first row.
pub proof fn law_first_unreadable_part_fails<C, E>(rows: Seq<ClaimRow<C, E>>, index: int)
    requires
        0 <= index < rows.len(),
        forall|i: int| 0 <= i < index ==> (#[trigger] rows[i]).job is Ok,
    ensures
        rows[0].next_ordering_cursor matches Err(error) ==> row_failure(rows) == Some(error),
        rows[0].next_ordering_cursor is Ok ==> (rows[index].job matches Err(error)
            ==> row_failure(rows) == Some(error)),
        rows[0].next_ordering_cursor matches Ok(cursor) ==> row_cursor(rows) == cursor,
        row_failure(rows) is None ==> rows[index].job is Ok,
{
    if rows[index].job is Err {
        lemma_no_earlier_failure(rows, index);
        assert(rows.take(index + 1).drop_last() =~= rows.take(index));
        assert(rows.take(index + 1).last() == rows[index]);
        lemma_first_failure_stays(rows, index + 1);
    }
}

/// Readable jobs are no failure.
proof fn lemma_no_earlier_failure<C, E>(rows: Seq<ClaimRow<C, E>>, count: int)
    requires
        0 <= count <= rows.len(),
        forall|i: int| 0 <= i < count ==> (#[trigger] rows[i]).job is Ok,
    ensures
        job_failure(rows.take(count)) is None,
    decreases count,
{
    if count > 0 {
        lemma_no_earlier_failure(rows, count - 1);
        assert(rows.take(count).drop_last() =~= rows.take(count - 1));
        assert(rows[count - 1].job is Ok);
    }
}

/// Law: the control statement asks the given table for the switch and the reason of its
/// one row.
pub proof fn law_control_text_names_the_table(worker_control: Seq<char>)
    ensures
        control_sql_text(worker_control) == "select paused, pause_reason from "@ + worker_control
            + " where id = true"@,
{
}

/// Law: a claim statement names the worker, the task, the quota, the cursor, the flags
/// and the time that it was built from, each as its own parameter and unchanged, and
/// its text depends on the tables alone.
pub proof fn law_a_claim_carries_what_it_is_for(
    schema: Schema,
    worker_id: Seq<char>,
    task_id: i32,
    flags_to_skip: Seq<Seq<char>>,
    quota: i32,
    ordering_cursor: Option<i32>,
    now: Option<Timestamp>,
)
    ensures
        ({
            let query = claim_query(
                schema,
                worker_id,
                task_id,
                flags_to_skip,
                quota,
                ordering_cursor,
                now,
            );
            &&& query.params.len() == 6
            &&& query.params[0] == crate::query::DbParam::Text(worker_id)
            &&& query.params[1] == crate::query::DbParam::I32(task_id)
            &&& query.params[2] == crate::query::DbParam::I32(quota)
            &&& query.params[3] == crate::query::DbParam::I32Opt(ordering_cursor)
            &&& query.params[4] == crate::query::DbParam::TextArray(flags_to_skip)
            &&& query.params[5] == crate::query::DbParam::TimestampTzOpt(now)
            &&& query.sql == crate::queries::claim_sql::claim_sql_text(
                schema.jobs@,
                schema.job_queues@,
            )
        }),
{
}

/// A failure among the first rows is the failure of all of them.
proof fn lemma_first_failure_stays<C, E>(rows: Seq<ClaimRow<C, E>>, count: int)
    requires
        0 <= count <= rows.len(),
    ensures
        job_failure(rows.take(count)) is Some ==> job_failure(rows) == job_failure(
            rows.take(count),
        ),
    decreases rows.len(),
{
    if count == rows.len() {
        assert(rows.take(count) =~= rows);
    } else {
        lemma_first_failure_stays(rows.drop_last(), count);
        assert(rows.drop_last().take(count) =~= rows.take(count));
    }
}

} // verus!
