//! Rows that were read from the database, or could not be.

use vstd::prelude::*;

use crate::job::DbJob;

verus! {

/// The first row that could not be read, if there is one.
pub open spec fn first_failure<T, E>(rows: Seq<Result<T, E>>) -> Option<E>
    decreases rows.len(),
{
    if rows.len() == 0 {
        None
    } else {
        match rows[0] {
            Err(error) => Some(error),
            Ok(_) => first_failure(rows.skip(1)),
        }
    }
}

/// What rows hold that could be read.
pub open spec fn row_values<T, E>(rows: Seq<Result<T, E>>) -> Seq<T> {
    rows.map_values(|row: Result<T, E>| row->Ok_0)
}

/// Collects jobs. The first row that cannot be read is an error.
pub fn fetch_db_jobs<C, E>(rows: Vec<Result<DbJob<C>, E>>) -> (jobs: Result<Vec<DbJob<C>>, E>)
    ensures
        match first_failure(rows@) {
            Some(error) => jobs == Err::<Vec<DbJob<C>>, E>(error),
            None => jobs matches Ok(all) && all@ == row_values(rows@),
        },
        match jobs {
            Ok(all) => all@.len() == rows@.len() && forall|i: int|
                0 <= i < rows@.len() ==> #[trigger] rows@[i] == Ok::<DbJob<C>, E>(all@[i]),
            Err(error) => exists|i: int|
                0 <= i < rows@.len() && #[trigger] rows@[i] == Err::<DbJob<C>, E>(error) && forall|
                    k: int,
                |
                    0 <= k < i ==> (#[trigger] rows@[k]) is Ok,
        },
{
    let ghost given = rows@;
    let mut jobs: Vec<DbJob<C>> = Vec::with_capacity(rows.len());
    assert(given.skip(0) =~= given);
    for row in it: rows
        invariant
            it.seq() == given,
            first_failure(given) == first_failure(given.skip(it.index())),
            jobs@ == row_values(given.take(it.index())),
            forall|k: int|
                0 <= k < it.index() ==> #[trigger] given[k] == Ok::<DbJob<C>, E>(jobs@[k]),
    {
        let ghost index: int = it.index();
        assert(given.skip(index)[0] == given[index]);
        assert(given.skip(index).skip(1) =~= given.skip(index + 1));
        match row {
            Err(error) => {
                return Err(error);
            },
            Ok(job) => {
                jobs.push(job);
            },
        }
        assert(jobs@ =~= row_values(given.take(index + 1)));
    }
    assert(given.take(given.len() as int) =~= given);
    Ok(jobs)
}

/// Law: rows that can all be read are collected as they are, each in its place.
pub proof fn law_readable_rows_are_kept<T, E>(rows: Seq<Result<T, E>>, index: int)
    requires
        forall|i: int| 0 <= i < rows.len() ==> (#[trigger] rows[i]) is Ok,
    ensures
        first_failure(rows) is None,
        row_values(rows).len() == rows.len(),
        0 <= index < rows.len() ==> rows[index] == Ok::<T, E>(row_values(rows)[index]),
    decreases rows.len(),
{
    if rows.len() > 0 {
        let rest = rows.skip(1);
        assert(rows[0] is Ok);
        assert forall|i: int| 0 <= i < rest.len() implies (#[trigger] rest[i]) is Ok by {
            assert(rows[i + 1] is Ok);
        }
        law_readable_rows_are_kept(rest, 0);
    }
    if 0 <= index < rows.len() {
        assert(rows[index] is Ok);
    }
}

/// Law: rows are collected only if all of them could be read.
pub proof fn law_no_failure_is_passed_over<T, E>(rows: Seq<Result<T, E>>, index: int)
    requires
        0 <= index < rows.len(),
        rows[index] is Err,
    ensures
        first_failure(rows) is Some,
        (forall|i: int| 0 <= i < index ==> (#[trigger] rows[i]) is Ok) ==> first_failure(rows)
            == Some(rows[index]->Err_0),
    decreases rows.len(),
{
    if index > 0 && rows[0] is Ok {
        let rest = rows.skip(1);
        assert(rest[index - 1] == rows[index]);
        law_no_failure_is_passed_over(rest, index - 1);
        if forall|i: int| 0 <= i < index ==> (#[trigger] rows[i]) is Ok {
            assert forall|i: int| 0 <= i < index - 1 implies (#[trigger] rest[i]) is Ok by {
                assert(rows[i + 1] is Ok);
            }
        }
    } else if index > 0 {
        assert(rows[0] is Err);
    }
}

} // verus!
