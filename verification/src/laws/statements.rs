//! Laws of the statements and of the rows that they return.

use vstd::prelude::*;

use crate::actions::{
    complete_jobs, force_unlock_workers, permanently_fail_jobs, remove_job, reschedule_jobs,
    set_worker_pause, worker_control_state, worker_control_state_from_row,
    worker_pause_update_from_row, ControlColumns, RescheduleJobOptions, WorkerControlState,
    WorkerPauseUpdate,
};
use crate::job::{DbJob, Job};
use crate::queries::batch_get_jobs::{
    batch_get_jobs, batch_jobs_from_rows, batch_query_from_clauses, number_batch_params,
    BatchParams,
};
use crate::queries::batch_sql::{batch_get_jobs_sql, BatchClauses};
use crate::queries::claim_queue_jobs::{
    claim_queue_jobs, lock_worker_control, queue_claim_from_rows, read_worker_control,
    worker_control_from_row, ClaimRequest, ClaimRow, ControlRow, QueueClaim,
};
use crate::queries::claim_sql::claim_queue_jobs_sql;
use crate::queries::rows::fetch_db_jobs;
use crate::query::{copy_strings, DbValue, Query};
use crate::schema::Schema;
use crate::tasks::{identifier_not_after, sort_tasks, TaskDetails};
use crate::time::{claim_time, Timestamp};

verus! {

/// Law: a claim asks the database for nothing if its quota is not positive, and keeps the
/// cursor. Otherwise it asks for exactly what it was given, each part as a parameter of
/// its own, in the text of the claim statement.
pub proof fn law_claims_ask_for_what_was_given<C>(
    schema: &Schema,
    worker_id: &str,
    task_id: i32,
    flags_to_skip: &[String],
    quota: i32,
    ordering_cursor: Option<i32>,
    now: Option<Timestamp>,
    request: ClaimRequest<C>,
    sql: String,
)
    requires
        call_ensures(
            claim_queue_jobs::<C>,
            (schema, worker_id, task_id, flags_to_skip, quota, ordering_cursor, now),
            request,
        ),
        call_ensures(claim_queue_jobs_sql, (schema,), sql),
    ensures
        request is Fetch <==> quota > 0,
        request matches ClaimRequest::Claimed(claim) ==> claim.jobs@.len() == 0
            && claim.next_ordering_cursor == ordering_cursor,
        request matches ClaimRequest::Fetch(query) ==> {
            &&& query.sql@ == sql@
            &&& query.params@.len() == 6
            &&& query.params@[0] matches DbValue::Text(text) && text@ == worker_id@
            &&& query.params@[1] == DbValue::I32(task_id)
            &&& query.params@[2] == DbValue::I32(quota)
            &&& query.params@[3] == DbValue::I32Opt(ordering_cursor)
            &&& query.params@[4] matches DbValue::TextArray(flags) && flags@ == flags_to_skip@
            &&& query.params@[5] == DbValue::TimestampTzOpt(now)
        },
{
}

/// Law: every row that holds a job becomes a job under the identifier, with all of its
/// columns, in the order of the rows, and rows without a job become none. If all rows
/// hold one, the jobs are the rows.
pub proof fn law_claimed_rows_become_jobs<C, E>(
    rows: Vec<ClaimRow<C, E>>,
    task_identifier: &str,
    claim: Result<QueueClaim<C>, E>,
)
    requires
        call_ensures(queue_claim_from_rows::<C, E>, (rows, task_identifier), claim),
    ensures
        claim is Ok <==> (rows@.len() > 0 ==> rows@[0].next_ordering_cursor is Ok) && forall|
            i: int,
        |
            0 <= i < rows@.len() ==> (#[trigger] rows@[i]).job is Ok,
        claim matches Ok(claimed) ==> {
            &&& claimed.jobs@.len() == rows@.filter(
                |row: ClaimRow<C, E>| row.job matches Ok(Some(_)),
            ).len()
            &&& claimed.next_ordering_cursor is Some ==> rows@.len() > 0
            &&& rows@.len() > 0 ==> rows@[0].next_ordering_cursor == Ok::<Option<i32>, E>(
                claimed.next_ordering_cursor,
            )
            &&& (forall|i: int|
                0 <= i < rows@.len() ==> ((#[trigger] rows@[i]).job matches Ok(Some(_)))) ==> {
                &&& claimed.jobs@.len() == rows@.len()
                &&& forall|i: int|
                    0 <= i < rows@.len() ==> (#[trigger] rows@[i]).job == Ok::<
                        Option<DbJob<C>>,
                        E,
                    >(
                        Some(
                            DbJob {
                                id: claimed.jobs@[i].id,
                                job_queue_id: claimed.jobs@[i].job_queue_id,
                                task_id: claimed.jobs@[i].task_id,
                                columns: claimed.jobs@[i].columns,
                            },
                        ),
                    ) && claimed.jobs@[i].task_identifier@ == task_identifier@
            }
        },
        rows@.len() > 0 ==> (rows@[0].next_ordering_cursor matches Err(error) ==> claim == Err::<
            QueueClaim<C>,
            E,
        >(error)),
{
    if let Ok(claimed) = claim {
        crate::queries::claim_queue_jobs::law_row_jobs_are_those_of_the_rows(rows@);
        if forall|i: int|
            0 <= i < rows@.len() ==> ((#[trigger] rows@[i]).job matches Ok(Some(_))) {
            crate::queries::claim_queue_jobs::law_no_locked_job_is_lost(rows@, 0);
            assert forall|i: int| 0 <= i < rows@.len() implies (#[trigger] rows@[i]).job == Ok::<
                Option<DbJob<C>>,
                E,
            >(
                Some(
                    DbJob {
                        id: claimed.jobs@[i].id,
                        job_queue_id: claimed.jobs@[i].job_queue_id,
                        task_id: claimed.jobs@[i].task_id,
                        columns: claimed.jobs@[i].columns,
                    },
                ),
            ) && claimed.jobs@[i].task_identifier@ == task_identifier@ by {
                crate::queries::claim_queue_jobs::law_no_locked_job_is_lost(rows@, i);
                assert(claimed.jobs@[i].is_row(
                    crate::queries::claim_queue_jobs::row_jobs(rows@)[i],
                    task_identifier@,
                ));
            }
        }
    }
}

/// Law: the control row is read from the given table, and locking it is the same read
/// with a shared lock.
pub proof fn law_locking_reads_the_same_row(schema: &Schema, read: Query, locked: Query)
    requires
        call_ensures(read_worker_control, (schema,), read),
        call_ensures(lock_worker_control, (schema,), locked),
    ensures
        read.sql@ == "select paused, pause_reason from "@ + schema.worker_control@
            + " where id = true"@,
        locked.sql@ == read.sql@ + " for share"@,
        read.params@.len() == 0,
        locked.params@.len() == 0,
{
}

/// Law: a control row is read if and only if both columns were, and says what they hold.
pub proof fn law_control_rows_say_what_they_hold<E>(
    row: ControlRow<E>,
    control: Result<crate::queries::claim_queue_jobs::WorkerControlState, E>,
)
    requires
        call_ensures(worker_control_from_row::<E>, (row,), control),
    ensures
        control is Ok <==> row.paused is Ok && row.pause_reason is Ok,
        control matches Ok(state) ==> row.paused == Ok::<bool, E>(state.paused)
            && row.pause_reason == Ok::<Option<String>, E>(state.pause_reason),
        row.paused matches Err(error) ==> control == Err::<
            crate::queries::claim_queue_jobs::WorkerControlState,
            E,
        >(error),
        row.paused is Ok ==> (row.pause_reason matches Err(error) ==> control == Err::<
            crate::queries::claim_queue_jobs::WorkerControlState,
            E,
        >(error)),
{
}

/// Law: jobs are read if and only if every row could be, and then each stands in its
/// place. Otherwise the first failure comes out.
pub proof fn law_rows_are_read_all_or_none<C, E>(
    rows: Vec<Result<DbJob<C>, E>>,
    jobs: Result<Vec<DbJob<C>>, E>,
    index: int,
)
    requires
        call_ensures(fetch_db_jobs::<C, E>, (rows,), jobs),
        0 <= index < rows@.len(),
    ensures
        jobs matches Ok(all) ==> all@.len() == rows@.len() && rows@[index] == Ok::<DbJob<C>, E>(
            all@[index],
        ),
        rows@[index] is Err && (forall|k: int| 0 <= k < index ==> (#[trigger] rows@[k]) is Ok)
            ==> jobs == Err::<Vec<DbJob<C>>, E>(rows@[index]->Err_0),
{
    if rows@[index] is Err {
        crate::queries::rows::law_no_failure_is_passed_over(rows@, index);
    }
}

/// Law: a row of a registered task becomes a job under the identifier of that task, the
/// first one with its number, with all of its columns. A row of a task that is not
/// registered goes under the empty identifier.
pub proof fn law_batch_rows_go_under_their_task<C, E>(
    rows: Vec<Result<DbJob<C>, E>>,
    details: &TaskDetails,
    jobs: Result<Vec<Job<C>>, E>,
    row: int,
    task: int,
)
    requires
        call_ensures(batch_jobs_from_rows::<C, E>, (rows, details), jobs),
        0 <= row < rows@.len(),
        0 <= task < details.tasks@.len(),
        forall|k: int|
            0 <= k < task ==> (#[trigger] details.tasks@[k]).0 != details.tasks@[task].0,
    ensures
        jobs matches Ok(all) ==> {
            &&& all@.len() == rows@.len()
            &&& rows@[row] == Ok::<DbJob<C>, E>(
                DbJob {
                    id: all@[row].id,
                    job_queue_id: all@[row].job_queue_id,
                    task_id: all@[row].task_id,
                    columns: all@[row].columns,
                },
            )
            &&& all@[row].task_id == details.tasks@[task].0 ==> all@[row].task_identifier@
                == details.tasks@[task].1@
            &&& (forall|k: int|
                0 <= k < details.tasks@.len() ==> (#[trigger] details.tasks@[k]).0
                    != all@[row].task_id) ==> all@[row].task_identifier@ == ""@
        },
        jobs is Ok ==> rows@[row] is Ok,
{
    if let Ok(all) = jobs {
        crate::tasks::law_registered_tasks_are_found(details.tasks@, task);
        if forall|k: int|
            0 <= k < details.tasks@.len() ==> (#[trigger] details.tasks@[k]).0
                != all@[row].task_id {
            crate::tasks::law_unknown_tasks_have_no_identifier(
                details.tasks@,
                all@[row].task_id,
            );
        }
        assert(all@[row].is_row(
            rows@[row]->Ok_0,
            crate::tasks::identifier_or_empty(details.tasks@, (rows@[row]->Ok_0).task_id),
        ));
    }
}

/// Law: a batch asks for exactly what it was given. The optional parameters stand where
/// they are numbered, and the flag clause stands in the text if and only if flags are to
/// be skipped.
pub proof fn law_batches_ask_for_what_was_given(
    details: &TaskDetails,
    schema: &Schema,
    clauses: &BatchClauses,
    worker_id: &str,
    flags_to_skip: &[String],
    batch_size: i32,
    now: Option<Timestamp>,
    query: Query,
    numbers: BatchParams,
)
    requires
        call_ensures(
            batch_query_from_clauses,
            (details, schema, clauses, worker_id, flags_to_skip, batch_size, now),
            query,
        ),
        call_ensures(number_batch_params, (flags_to_skip, now), numbers),
    ensures
        query.params@[0] matches DbValue::Text(text) && text@ == worker_id@,
        query.params@[1] matches DbValue::I32Array(task_ids) && task_ids@.len()
            == details.tasks@.len() && forall|i: int|
            0 <= i < task_ids@.len() ==> #[trigger] task_ids@[i] == details.tasks@[i].0,
        query.params@[2] == DbValue::I32(batch_size),
        numbers.flags is Some <==> flags_to_skip@.len() > 0,
        numbers.flags matches Some(number) ==> (query.params@[number - 1] matches
            DbValue::TextArray(flags) && flags@ == flags_to_skip@),
        numbers.now is Some <==> now is Some,
        numbers.now matches Some(number) ==> query.params@[number - 1] == DbValue::TimestampTz(
            now->0,
        ),
        query.params@.len() == 3 + (if numbers.flags is Some {
            1int
        } else {
            0
        }) + (if numbers.now is Some {
            1int
        } else {
            0
        }),
        query.sql@ == crate::queries::batch_sql::batch_sql_text(
            schema.jobs@,
            schema.job_queues@,
            *clauses,
            if flags_to_skip@.len() > 0 {
                clauses.flag_clause@
            } else {
                ""@
            },
        ),
{
    assert(crate::query::texts(flags_to_skip@).len() == flags_to_skip@.len());
    assert(query.sql@ == query@.sql);
}

/// Law: the text of a batch holds the tables, and each clause in its places. The flag
/// clause stands in all three of its places or in none.
pub proof fn law_the_batch_text_holds_its_parts(
    schema: &Schema,
    clauses: &BatchClauses,
    has_flags: bool,
    sql: String,
)
    requires
        call_ensures(batch_get_jobs_sql, (schema, clauses, has_flags), sql),
    ensures
        exists|flag_clause: Seq<char>| #[trigger]
            crate::queries::batch_sql::batch_sql_text(
                schema.jobs@,
                schema.job_queues@,
                *clauses,
                flag_clause,
            ) == sql@ && (has_flags ==> flag_clause == clauses.flag_clause@) && (!has_flags
                ==> flag_clause.len() == 0),
{
    reveal_strlit("");
    let flag_clause = if has_flags {
        clauses.flag_clause@
    } else {
        ""@
    };
    assert(crate::queries::batch_sql::batch_sql_text(
        schema.jobs@,
        schema.job_queues@,
        *clauses,
        flag_clause,
    ) == sql@);
}

/// Law: the clauses of a batch are written for the parameters that it has. Whoever writes
/// them is told the number of the flags if there are any, and of the time if it is given,
/// and what is written is what stands in the statement.
pub proof fn law_clauses_are_written_for_their_parameters<
    W: FnOnce(BatchParams) -> BatchClauses,
>(
    details: &TaskDetails,
    schema: &Schema,
    write_clauses: W,
    worker_id: &str,
    flags_to_skip: &[String],
    batch_size: i32,
    now: Option<Timestamp>,
    query: Query,
)
    requires
        call_ensures(
            batch_get_jobs::<W>,
            (details, schema, write_clauses, worker_id, flags_to_skip, batch_size, now),
            query,
        ),
    ensures
        query@.params[0] == crate::query::DbParam::Text(worker_id@),
        query@.params[2] == crate::query::DbParam::I32(batch_size),
        exists|clauses: BatchClauses, numbers: BatchParams|
            {
                &&& #[trigger] call_ensures(write_clauses, (numbers,), clauses)
                &&& numbers.flags == if flags_to_skip@.len() > 0 {
                    Some(4u8)
                } else {
                    None::<u8>
                }
                &&& numbers.now is Some <==> now is Some
                &&& numbers.now matches Some(number) ==> query@.params[number - 1]
                    == crate::query::DbParam::TimestampTz(now->0)
                &&& numbers.flags matches Some(number) ==> query@.params[number - 1]
                    == crate::query::DbParam::TextArray(
                    flags_to_skip@.map_values(|flag: String| flag@),
                )
                &&& query@.sql == crate::queries::batch_sql::batch_sql_text(
                    schema.jobs@,
                    schema.job_queues@,
                    clauses,
                    if flags_to_skip@.len() > 0 {
                        clauses.flag_clause@
                    } else {
                        ""@
                    },
                )
            },
{
    let numbers = crate::queries::batch_get_jobs::statement_params(flags_to_skip@, now);
    let clauses = choose|clauses: BatchClauses|
        #[trigger] call_ensures(write_clauses, (numbers,), clauses) && query@
            == crate::queries::batch_get_jobs::batch_query(
            details.tasks@,
            *schema,
            clauses,
            worker_id@,
            crate::query::texts(flags_to_skip@),
            batch_size,
            now,
        );
    assert(call_ensures(write_clauses, (numbers,), clauses));
    assert(crate::query::texts(flags_to_skip@) =~= flags_to_skip@.map_values(
        |flag: String| flag@,
    ));
}

/// Law: sorting puts every task in order by its identifier and keeps all of them, and
/// sorting what is sorted changes nothing about that.
pub proof fn law_sorting_puts_tasks_in_order(
    tasks: &mut Vec<(i32, String)>,
    done: (),
    left: int,
    right: int,
)
    requires
        call_ensures(sort_tasks, (tasks,), done),
        0 <= left <= right < final(tasks)@.len(),
    ensures
        final(tasks)@.to_multiset() == old(tasks)@.to_multiset(),
        final(tasks)@.len() == old(tasks)@.len(),
        crate::tasks::identifier_le(final(tasks)@[left].1@, final(tasks)@[right].1@),
{
    crate::tasks::law_order_is_a_rearrangement(old(tasks)@);
    crate::tasks::law_identifiers_are_totally_ordered(
        final(tasks)@[left].1@,
        final(tasks)@[right].1@,
        final(tasks)@[right].1@,
    );
}

/// Law: of two identifiers one comes first, and both ways only if their bytes are in
/// order both ways.
pub proof fn law_identifiers_compare_both_ways(a: &str, b: &str, forth: bool, back: bool)
    requires
        call_ensures(identifier_not_after, (a, b), forth),
        call_ensures(identifier_not_after, (b, a), back),
    ensures
        forth || back,
        forth <==> crate::tasks::identifier_le(a@, b@),
{
    crate::tasks::law_identifiers_are_totally_ordered(a@, b@, b@);
}

/// Law: the registered tasks are handed out as they are, number by number, and every
/// number leads to the identifier of the first task that has it.
pub proof fn law_details_hand_out_their_tasks(
    details: &TaskDetails,
    entries: Vec<(i32, String)>,
    task_ids: Vec<i32>,
    task: int,
    identifier: String,
)
    requires
        call_ensures(TaskDetails::entries, (details,), entries),
        call_ensures(TaskDetails::task_ids, (details,), task_ids),
        0 <= task < details.tasks@.len(),
        forall|k: int|
            0 <= k < task ==> (#[trigger] details.tasks@[k]).0 != details.tasks@[task].0,
        call_ensures(TaskDetails::get_or_empty, (details, details.tasks@[task].0), identifier),
    ensures
        entries@ == details.tasks@,
        task_ids@.len() == details.tasks@.len(),
        task_ids@[task] == details.tasks@[task].0,
        identifier@ == details.tasks@[task].1@,
{
    crate::tasks::law_registered_tasks_are_found(details.tasks@, task);
}

/// Law: pausing passes on the reason, and resuming passes on that there is none. Both are
/// the same statement on the given table.
pub proof fn law_pausing_passes_on_the_reason(
    schema: &Schema,
    reason: &str,
    pause: Query,
    resume: Query,
)
    requires
        call_ensures(set_worker_pause, (schema, Some(reason)), pause),
        call_ensures(set_worker_pause, (schema, None), resume),
    ensures
        pause.params@.len() == 1 && resume.params@.len() == 1,
        pause.params@[0] matches DbValue::TextOpt(Some(text)) && text@ == reason@,
        resume.params@[0] == DbValue::TextOpt(None),
        pause.sql@ == resume.sql@,
        pause.sql@ == crate::actions::PAUSE_PREVIOUS@ + schema.worker_control@
            + crate::actions::PAUSE_UPDATE@ + schema.worker_control@
            + crate::actions::PAUSE_RETURN@,
{
}

/// Law: the control state is read without parameters from the given table.
pub proof fn law_the_control_state_is_read_from_its_table(schema: &Schema, query: Query)
    requires
        call_ensures(worker_control_state, (schema,), query),
    ensures
        query.params@.len() == 0,
        query.sql@ == crate::actions::CONTROL_SELECT@ + schema.worker_control@
            + crate::actions::CONTROL_WHERE@,
{
}

/// Law: columns are read all or none, and the first that cannot be read is told.
pub proof fn law_columns_are_read_all_or_none<E>(
    columns: ControlColumns<E>,
    state: Result<WorkerControlState, E>,
)
    requires
        call_ensures(worker_control_state_from_row::<E>, (columns,), state),
    ensures
        state is Ok <==> columns.paused is Ok && columns.pause_reason is Ok
            && columns.updated_at is Ok,
        state matches Ok(read) ==> columns.paused == Ok::<bool, E>(read.paused)
            && columns.pause_reason == Ok::<Option<String>, E>(read.pause_reason)
            && columns.updated_at == Ok::<Timestamp, E>(read.updated_at),
        columns.paused matches Err(error) ==> state == Err::<WorkerControlState, E>(error),
        columns.paused is Ok ==> (columns.pause_reason matches Err(error) ==> state == Err::<
            WorkerControlState,
            E,
        >(error)),
{
}

/// Law: a pause update is made of two states, each read from its own columns.
pub proof fn law_an_update_holds_both_states<E>(
    previous: ControlColumns<E>,
    current: ControlColumns<E>,
    update: Result<WorkerPauseUpdate, E>,
    before: Result<WorkerControlState, E>,
    now: Result<WorkerControlState, E>,
)
    requires
        call_ensures(worker_pause_update_from_row::<E>, (previous, current), update),
        call_ensures(worker_control_state_from_row::<E>, (previous,), before),
        call_ensures(worker_control_state_from_row::<E>, (current,), now),
    ensures
        update is Ok <==> before is Ok && now is Ok,
        update matches Ok(both) ==> before == Ok::<WorkerControlState, E>(both.previous) && now
            == Ok::<WorkerControlState, E>(both.current),
        before matches Err(error) ==> update == Err::<WorkerPauseUpdate, E>(error),
{
}

/// Law: removing, completing and failing jobs pass on the key, the numbers and the reason
/// as they are, each to its own function.
pub proof fn law_actions_pass_on_their_jobs(
    schema: &Schema,
    job_key: &str,
    ids: &[i64],
    reason: &str,
    removal: Query,
    completion: Query,
    failure: Query,
)
    requires
        call_ensures(remove_job, (schema, job_key), removal),
        call_ensures(complete_jobs, (schema, ids), completion),
        call_ensures(permanently_fail_jobs, (schema, ids, reason), failure),
    ensures
        removal.params@.len() == 1,
        removal.params@[0] matches DbValue::Text(text) && text@ == job_key@,
        removal.sql@ == crate::actions::CALL@ + schema.remove_job@
            + crate::actions::REMOVE_JOB_ARGS@,
        completion.params@.len() == 1,
        completion.params@[0] matches DbValue::I64Array(numbers) && numbers@ == ids@,
        completion.sql@ == crate::actions::CALL@ + schema.complete_jobs@
            + crate::actions::COMPLETE_JOBS_ARGS@,
        failure.params@.len() == 2,
        failure.params@[0] matches DbValue::I64Array(numbers) && numbers@ == ids@,
        failure.params@[1] matches DbValue::Text(text) && text@ == reason@,
        failure.sql@ == crate::actions::CALL@ + schema.permanently_fail_jobs@
            + crate::actions::FAIL_JOBS_ARGS@,
{
}

/// Law: rescheduling passes on each option if and only if it is given, and then as the
/// same number, zero and negative ones too.
pub proof fn law_rescheduling_passes_on_every_option(
    schema: &Schema,
    ids: &[i64],
    options: RescheduleJobOptions,
    query: Query,
    number: i16,
)
    requires
        call_ensures(reschedule_jobs, (schema, ids, options), query),
    ensures
        query.params@.len() == 5,
        query.params@[0] matches DbValue::I64Array(numbers) && numbers@ == ids@,
        query.params@[1] == DbValue::TimestampTzOpt(options.run_at),
        options.priority == Some(number) ==> (query.params@[2] matches DbValue::I32Opt(Some(wide))
            && wide == number),
        options.priority is None ==> query.params@[2] == DbValue::I32Opt(None),
        options.attempts == Some(number) ==> (query.params@[3] matches DbValue::I32Opt(Some(wide))
            && wide == number),
        options.attempts is None ==> query.params@[3] == DbValue::I32Opt(None),
        options.max_attempts == Some(number) ==> (query.params@[4] matches DbValue::I32Opt(
            Some(wide),
        ) && wide == number),
        options.max_attempts is None ==> query.params@[4] == DbValue::I32Opt(None),
        query.sql@ == crate::actions::CALL@ + schema.reschedule_jobs@
            + crate::actions::RESCHEDULE_JOBS_ARGS@,
{
}

/// Law: every worker that is to be unlocked is passed on, in its place.
pub proof fn law_unlocking_passes_on_every_worker(
    schema: &Schema,
    worker_ids: &[&str],
    query: Query,
    index: int,
)
    requires
        call_ensures(force_unlock_workers, (schema, worker_ids), query),
        0 <= index < worker_ids@.len(),
    ensures
        query.params@.len() == 1,
        query.params@[0] matches DbValue::TextArray(ids) && ids@.len() == worker_ids@.len()
            && ids@[index]@ == worker_ids@[index]@,
        query.sql@ == crate::actions::CALL@ + schema.force_unlock_workers@
            + crate::actions::UNLOCK_ARGS@,
{
}

/// Law: a row and its identifier make a job that has both and nothing else.
pub proof fn law_jobs_are_rows_with_an_identifier<C>(
    row: DbJob<C>,
    task_identifier: String,
    job: Job<C>,
)
    requires
        call_ensures(Job::<C>::from_db_job, (row, task_identifier), job),
    ensures
        row == (DbJob {
            id: job.id,
            job_queue_id: job.job_queue_id,
            task_id: job.task_id,
            columns: job.columns,
        }),
        job.task_identifier == task_identifier,
{
}

/// Law: copies are the same, a schema is copied with all its names, and the local clock is
/// read if and only if local time is in use.
pub proof fn law_copies_are_the_same(
    strings: &[String],
    copy: Vec<String>,
    schema: &Schema,
    schema_copy: Schema,
    use_local_time: bool,
    now: Option<Timestamp>,
)
    requires
        call_ensures(copy_strings, (strings,), copy),
        call_ensures(Schema::clone, (schema,), schema_copy),
        call_ensures(claim_time, (use_local_time,), now),
    ensures
        copy@ == strings@,
        schema_copy == *schema,
        now is Some <==> use_local_time,
{
}

} // verus!
