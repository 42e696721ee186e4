//! Laws of the claim waves.

use vstd::prelude::*;

use crate::claim_coordinator::{
    count_claimed, ClaimCoordinator, ClaimWave, QueueJobs, WaveAction, WaveEvent, WavePhase,
    WaveRun, WaveStart,
};
use crate::claim_one::{take_first_job, ClaimOneAction, ClaimOneRun};
use crate::job::Job;
use crate::query::{DbValue, Query};
use crate::quotas::{allocate_quotas, next_rotation};
use crate::schema::Schema;
use crate::time::Timestamp;

verus! {

/// Law: a wave begins where the rotation stands, goes from each queue to the one behind
/// it, and gives every visited queue its even share. The slots come in order: whoever is
/// visited earlier gets at least as much, and at most one slot more.
pub proof fn law_slots_are_shared_in_turn(
    queue_count: usize,
    capacity: usize,
    start: usize,
    slots: Vec<(usize, usize)>,
    earlier: int,
    later: int,
)
    requires
        queue_count > 0,
        call_ensures(allocate_quotas, (queue_count, capacity, start), slots),
        0 <= earlier <= later < slots@.len(),
    ensures
        slots@[0].0 == start as int % queue_count as int,
        slots@[earlier].0 == (start + earlier) % queue_count as int,
        slots@[later].1 <= slots@[earlier].1 <= slots@[later].1 + 1,
        slots@[later].1 >= 1,
        slots@.len() <= queue_count && slots@.len() <= capacity,
        slots@.len() == queue_count || slots@.len() == capacity,
        crate::quotas::quota_total(
            slots@.map_values(|slot: (usize, usize)| (slot.0 as int, slot.1 as int)),
        ) == capacity,
{
    crate::quotas::law_quotas_spend_the_capacity(
        queue_count as int,
        capacity as int,
        start as int,
    );
    crate::quotas::law_allocation_is_even(
        queue_count as int,
        capacity as int,
        start as int,
        later,
        later,
    );
    assert(crate::quotas::allocation_view(slots@)[later].1 == slots@[later].1);
    assert(slots@.map_values(|slot: (usize, usize)| (slot.0 as int, slot.1 as int))
        =~= crate::quotas::allocation_view(slots@));
}

/// Law: the next wave goes on where this one stopped. If some queues were left out, it
/// begins behind the last visited one. Otherwise it begins one queue further than this
/// one did.
pub proof fn law_the_next_wave_goes_on(
    queue_count: usize,
    capacity: usize,
    start: usize,
    slots: Vec<(usize, usize)>,
    rotation: usize,
)
    requires
        queue_count > 0,
        capacity > 0,
        call_ensures(allocate_quotas, (queue_count, capacity, start), slots),
        call_ensures(next_rotation, (queue_count, capacity, start), rotation),
    ensures
        rotation < queue_count,
        slots@.len() < queue_count ==> rotation == (slots@.last().0 + 1) % queue_count as int,
        slots@.len() == queue_count && capacity > queue_count ==> rotation == (slots@[0].0 + 1)
            % queue_count as int,
{
    let count = queue_count as int;
    vstd::arithmetic::div_mod::lemma_mod_bound(
        start + (if capacity < queue_count {
            capacity as int
        } else {
            1
        }),
        count,
    );
    if slots@.len() < queue_count {
        let last = start + slots@.len() - 1;
        vstd::arithmetic::div_mod::lemma_add_mod_noop(last, 1, count);
        vstd::arithmetic::div_mod::lemma_add_mod_noop(last % count, 1, count);
        vstd::arithmetic::div_mod::lemma_mod_twice(last, count);
    } else {
        vstd::arithmetic::div_mod::lemma_add_mod_noop(start as int, 1, count);
        vstd::arithmetic::div_mod::lemma_add_mod_noop(start as int % count, 1, count);
        vstd::arithmetic::div_mod::lemma_mod_twice(start as int, count);
    }
}

/// Law: a coordinator keeps what it was made from, and remembers nothing yet.
pub proof fn law_a_new_coordinator_keeps_its_setup(
    schema: Schema,
    worker_id: String,
    forbidden_flags: Vec<String>,
    use_local_time: bool,
    coordinator: ClaimCoordinator,
)
    requires
        call_ensures(
            ClaimCoordinator::new,
            (schema, worker_id, forbidden_flags, use_local_time),
            coordinator,
        ),
    ensures
        coordinator.schema == schema,
        coordinator.worker_id == worker_id,
        coordinator.forbidden_flags == forbidden_flags,
        coordinator.use_local_time == use_local_time,
        coordinator.state.queue_rotation == 0,
        forall|task_id: i32| !coordinator.state.ordering_cursors@.contains_key(task_id),
{
}

/// Law: restarting a scan makes the task start from the beginning, and touches no other
/// task and nothing else.
pub proof fn law_restarting_touches_one_task(
    coordinator: &mut ClaimCoordinator,
    task_id: i32,
    done: (),
    other: i32,
)
    requires
        call_ensures(ClaimCoordinator::restart_task_scan, (coordinator, task_id), done),
        other != task_id,
    ensures
        final(coordinator).state.ordering_cursors@.contains_key(task_id)
            ==> final(coordinator).state.ordering_cursors@[task_id] is None,
        final(coordinator).state.ordering_cursors@.contains_key(other)
            == old(coordinator).state.ordering_cursors@.contains_key(other),
        old(coordinator).state.ordering_cursors@.contains_key(other)
            ==> final(coordinator).state.ordering_cursors@[other]
            == old(coordinator).state.ordering_cursors@[other],
        final(coordinator).state.queue_rotation == old(coordinator).state.queue_rotation,
        final(coordinator).worker_id == old(coordinator).worker_id,
        final(coordinator).schema == old(coordinator).schema,
        final(coordinator).forbidden_flags == old(coordinator).forbidden_flags,
        final(coordinator).use_local_time == old(coordinator).use_local_time,
{
}

/// Law: a wave has something to do if and only if it has capacity and tasks. It visits the
/// tasks in the order of their identifiers, from where the rotation stands, and forgets
/// none of them.
pub proof fn law_a_wave_starts_with_its_tasks<C>(
    coordinator: &ClaimCoordinator,
    capacity: usize,
    tasks: Vec<(i32, String)>,
    cancellable: bool,
    start: WaveStart<C>,
    visit: int,
    task: int,
)
    requires
        call_ensures(
            ClaimCoordinator::claim_wave::<C>,
            (coordinator, capacity, tasks, cancellable),
            start,
        ),
    ensures
        start is Begin <==> capacity > 0 && tasks@.len() > 0,
        start matches WaveStart::Finished(wave) ==> (wave matches ClaimWave::Claimed(queues)
            && queues@.len() == 0),
        start matches WaveStart::Begin(run) ==> {
            &&& run.phase == WavePhase::Beginning
            &&& run.capacity == capacity
            &&& run.cancellable == cancellable
            &&& run.now is None
            &&& run.claimed@.len() == 0 && run.next_cursors@.len() == 0
            &&& run.tasks@.to_multiset() == tasks@.to_multiset()
            &&& 0 < task < run.tasks@.len() ==> crate::tasks::identifier_le(
                run.tasks@[task - 1].1@,
                run.tasks@[task].1@,
            )
            &&& run.allocation@.len() == if capacity < tasks@.len() {
                capacity as int
            } else {
                tasks@.len() as int
            }
            &&& 0 <= visit < run.allocation@.len() ==> run.allocation@[visit].0 == (
            coordinator.state.queue_rotation + visit) % tasks@.len() as int
        },
{
}

/// Law: every claim that a wave asks for is made for the coordinator's own worker, with
/// its forbidden flags and the time of the wave. It names the task and the quota of the
/// next visit, and the cursor that the coordinator keeps for that task.
pub proof fn law_every_claim_is_for_this_worker<C, E>(
    coordinator: &mut ClaimCoordinator,
    run: &mut WaveRun<C>,
    event: WaveEvent<C, E>,
    query: Query,
)
    requires
        call_ensures(
            ClaimCoordinator::step::<C, E>,
            (coordinator, run, event),
            WaveAction::Fetch(query),
        ),
        old(run).wf(*old(coordinator)),
        old(run).awaits(event),
    ensures
        event is Control || event is Rows,
        query@.params[0] == crate::query::DbParam::Text(old(coordinator).worker_id@),
        query.params@[0] matches DbValue::Text(text) && text@ == old(coordinator).worker_id@,
        query.params@[4] matches DbValue::TextArray(flags) && flags@
            == old(coordinator).forbidden_flags@,
        query.params@[5] == DbValue::TimestampTzOpt(final(run).now),
        ({
            let visit = final(run).claimed@.len() as int;
            let slot = old(run).allocation@[visit];
            let task_id = old(run).tasks@[slot.0 as int].0;
            let cursors = old(coordinator).state.ordering_cursors@;
            &&& query.params@[1] == DbValue::I32(task_id)
            &&& query.params@[2] matches DbValue::I32(quota) && quota == if slot.1 <= i32::MAX {
                slot.1 as int
            } else {
                i32::MAX as int
            }
            &&& cursors.contains_key(task_id) ==> query.params@[3] == DbValue::I32Opt(
                cursors[task_id],
            )
            &&& !cursors.contains_key(task_id) ==> query.params@[3] == DbValue::I32Opt(None)
        }),
        query.params@.len() == 6,
        final(run).now is Some && event is Control ==> old(coordinator).use_local_time,
        old(coordinator).use_local_time && event is Control ==> final(run).now is Some,
        event is Rows ==> final(run).now == old(run).now,
{
}

/// Law: the coordinator stays as it is until a wave that has claimed is committed. Until
/// then every way out leaves it alone, and its setup never changes.
pub proof fn law_only_a_commit_changes_the_coordinator<C, E>(
    coordinator: &mut ClaimCoordinator,
    run: &mut WaveRun<C>,
    event: WaveEvent<C, E>,
    action: WaveAction<C, E>,
)
    requires
        call_ensures(ClaimCoordinator::step::<C, E>, (coordinator, run, event), action),
        old(run).awaits(event),
    ensures
        !(event is Committed && old(run).phase == WavePhase::Committing) ==> *final(coordinator)
            == *old(coordinator),
        final(coordinator).worker_id == old(coordinator).worker_id,
        final(coordinator).schema == old(coordinator).schema,
        final(coordinator).forbidden_flags == old(coordinator).forbidden_flags,
        final(coordinator).use_local_time == old(coordinator).use_local_time,
        event matches WaveEvent::Failed(error) ==> action == WaveAction::<C, E>::Return(Err(error)),
        event is ShutdownRequested ==> action == WaveAction::<C, E>::Return(Ok(None)),
        action == WaveAction::<C, E>::Return(Ok(None)) ==> old(run).cancellable,
        event is Begun ==> (action matches WaveAction::LockControl(query) && query.sql@
            == "select paused, pause_reason from "@ + old(coordinator).schema.worker_control@
            + " where id = true"@ + " for share"@),
        event matches WaveEvent::Control(control) ==> (control.paused <==> action is Commit) && (
        !control.paused <==> action is Fetch),
{
}

/// Law: a committed wave hands out everything that it claimed, and moves the rotation on.
/// Each visited task goes on from where its scan stopped, the last visit under a number
/// counting, and a task that was not visited from where it was.
pub proof fn law_a_commit_hands_out_the_wave<C, E>(
    coordinator: &mut ClaimCoordinator,
    run: &mut WaveRun<C>,
    event: WaveEvent<C, E>,
    action: WaveAction<C, E>,
    visit: int,
    other: i32,
)
    requires
        call_ensures(ClaimCoordinator::step::<C, E>, (coordinator, run, event), action),
        event is Committed,
        old(run).phase == WavePhase::Committing,
        old(run).wf(*old(coordinator)),
        0 <= visit < old(run).allocation@.len(),
        forall|later: int|
            visit < later < old(run).allocation@.len() ==> #[trigger] old(run).task(later).0
                != old(run).task(visit).0,
        forall|any: int|
            0 <= any < old(run).allocation@.len() ==> #[trigger] old(run).task(any).0 != other,
    ensures
        action matches WaveAction::Return(Ok(Some(ClaimWave::Claimed(queues)))) && queues@
            == old(run).claimed@,
        final(coordinator).state.queue_rotation == (old(coordinator).state.queue_rotation + (if old(
            run,
        ).capacity < old(run).tasks@.len() {
            old(run).capacity as int
        } else {
            1
        })) % old(run).tasks@.len() as int,
        ({
            let task_id = old(run).tasks@[old(run).allocation@[visit].0 as int].0;
            let cursors = final(coordinator).state.ordering_cursors@;
            let before = old(coordinator).state.ordering_cursors@;
            &&& cursors.contains_key(task_id) && cursors[task_id]
                == old(run).next_cursors@[visit].1 || !cursors.contains_key(task_id) && old(
                run,
            ).next_cursors@[visit].1 is None
            &&& cursors.contains_key(other) && before.contains_key(other) ==> cursors[other]
                == before[other]
        }),
{
    crate::claim_coordinator::law_settled_cursors(
        *old(coordinator),
        *old(run),
        *final(coordinator),
        visit,
    );
    crate::claim_coordinator::law_other_cursors_stay(
        *old(coordinator),
        *old(run),
        *final(coordinator),
        other,
    );
}

/// Law: a wave that is paused hands out nothing but that.
pub proof fn law_a_paused_wave_says_so<C, E>(
    coordinator: &mut ClaimCoordinator,
    run: &mut WaveRun<C>,
    event: WaveEvent<C, E>,
    action: WaveAction<C, E>,
)
    requires
        call_ensures(ClaimCoordinator::step::<C, E>, (coordinator, run, event), action),
        event is Committed,
        old(run).phase == WavePhase::CommittingPause,
    ensures
        action == WaveAction::<C, E>::Return(Ok(Some(ClaimWave::Paused))),
        *final(coordinator) == *old(coordinator),
{
}

/// Law: the rows of a claim are entered behind what was claimed before, under the task
/// that was visited. Every row with a job is entered, and the cursor of the first row is
/// kept for that task.
pub proof fn law_claimed_rows_are_entered<C, E>(
    coordinator: &mut ClaimCoordinator,
    run: &mut WaveRun<C>,
    rows: Vec<crate::queries::claim_queue_jobs::ClaimRow<C, E>>,
    action: WaveAction<C, E>,
    earlier: int,
    entered: int,
)
    requires
        call_ensures(
            ClaimCoordinator::step::<C, E>,
            (coordinator, run, WaveEvent::Rows(rows)),
            action,
        ),
        !(action is Return),
    ensures
        ({
            let visit = old(run).claimed@.len() as int;
            let task = old(run).tasks@[old(run).allocation@[visit].0 as int];
            &&& final(run).claimed@.len() == visit + 1
            &&& final(run).claimed@[visit].identifier@ == task.1@
            &&& final(run).claimed@[visit].jobs@.len() == rows@.filter(
                |row: crate::queries::claim_queue_jobs::ClaimRow<C, E>|
                    row.job matches Ok(Some(_)),
            ).len()
            &&& 0 <= entered < final(run).claimed@[visit].jobs@.len() ==> {
                let job = final(run).claimed@[visit].jobs@[entered];
                &&& rows@.filter(
                    |row: crate::queries::claim_queue_jobs::ClaimRow<C, E>|
                        row.job matches Ok(Some(_)),
                )[entered].job == Ok::<Option<crate::job::DbJob<C>>, E>(
                    Some(
                        crate::job::DbJob {
                            id: job.id,
                            job_queue_id: job.job_queue_id,
                            task_id: job.task_id,
                            columns: job.columns,
                        },
                    ),
                )
                &&& job.task_identifier@ == task.1@
            }
            &&& 0 <= earlier < visit ==> final(run).claimed@[earlier]
                == old(run).claimed@[earlier]
            &&& final(run).next_cursors@[visit].0 == task.0
            &&& rows@.len() > 0 ==> rows@[0].next_ordering_cursor == Ok::<Option<i32>, E>(
                final(run).next_cursors@[visit].1,
            )
            &&& action is Commit <==> visit + 1 == old(run).allocation@.len()
        }),
{
    if 0 <= earlier < old(run).claimed@.len() {
        assert(final(run).claimed@.take(old(run).claimed@.len() as int)[earlier]
            == final(run).claimed@[earlier]);
    }
}

/// Law: a wave is counted as all of its jobs.
pub proof fn law_waves_are_counted_in_full<C>(
    queues: &Vec<QueueJobs<C>>,
    count: usize,
    queue: int,
)
    requires
        call_ensures(count_claimed::<C>, (queues,), count),
        0 <= queue < queues@.len(),
    ensures
        count == crate::local_queue::fetch::received_all(queues@).len(),
        count >= queues@[queue].jobs@.len(),
        queues@.len() == 1 ==> count == queues@[0].jobs@.len(),
{
    crate::local_queue::fetch::law_all_received_jobs_are_counted(queues@);
    crate::claim_coordinator::lemma_claimed_prefix(queues@, queue + 1);
    assert(queues@.take(queue + 1).last() == queues@[queue]);
    if queues@.len() == 1 {
        crate::claim_coordinator::law_claimed_jobs_add_up(queues@, Seq::<QueueJobs<C>>::empty());
    }
}

/// Law: of what a wave claimed, the first job of the first queue that has any is taken,
/// and none only if there is none.
pub proof fn law_the_first_claimed_job_is_taken<C>(
    queues: Vec<QueueJobs<C>>,
    job: Option<Job<C>>,
    queue: int,
)
    requires
        call_ensures(take_first_job::<C>, (queues,), job),
        0 <= queue < queues@.len(),
        queues@[queue].jobs@.len() > 0,
        forall|k: int| 0 <= k < queue ==> (#[trigger] queues@[k]).jobs@.len() == 0,
    ensures
        job == Some(queues@[queue].jobs@[0]),
{
    crate::claim_one::law_first_job_comes_first(queues@, queue);
}

/// Law: a claim of one job goes through at most as many waves as there are tasks. A job
/// ends it, and so does a failure, a pause or a shutdown, each with its own answer. Only
/// an empty wave lets it go on.
pub proof fn law_one_job_ends_the_claim<C, E>(
    run: &mut ClaimOneRun,
    wave: Result<Option<ClaimWave<C>>, E>,
    action: ClaimOneAction<C, E>,
    queue: int,
)
    requires
        call_ensures(ClaimOneRun::observe::<C, E>, (run, wave), action),
    ensures
        final(run).waves_left == old(run).waves_left - 1,
        wave matches Err(error) ==> action == ClaimOneAction::<C, E>::Return(Err(error)),
        wave == Ok::<Option<ClaimWave<C>>, E>(None) ==> action == ClaimOneAction::<C, E>::Return(
            Ok(None),
        ),
        wave == Ok::<Option<ClaimWave<C>>, E>(Some(ClaimWave::Paused)) ==> action
            == ClaimOneAction::<C, E>::Return(Ok(None)),
        wave matches Ok(Some(ClaimWave::Claimed(queues))) ==> {
            &&& 0 <= queue < queues@.len() && queues@[queue].jobs@.len() > 0 && (forall|k: int|
                0 <= k < queue ==> (#[trigger] queues@[k]).jobs@.len() == 0) ==> action
                == ClaimOneAction::<C, E>::Return(Ok(Some(queues@[queue].jobs@[0])))
            &&& (forall|k: int| 0 <= k < queues@.len() ==> (#[trigger] queues@[k]).jobs@.len() == 0)
                ==> (action is ClaimWave <==> old(run).waves_left > 1) && (!(action is ClaimWave)
                ==> action == ClaimOneAction::<C, E>::Return(Ok(None)))
        },
{
    if let Ok(Some(ClaimWave::Claimed(queues))) = wave {
        if 0 <= queue < queues@.len() && queues@[queue].jobs@.len() > 0 && (forall|k: int|
            0 <= k < queue ==> (#[trigger] queues@[k]).jobs@.len() == 0) {
            crate::claim_one::law_first_job_comes_first(queues@, queue);
        }
        if forall|k: int| 0 <= k < queues@.len() ==> (#[trigger] queues@[k]).jobs@.len() == 0 {
            crate::claim_one::law_empty_queues_give_no_job(queues@);
        }
    }
}

/// Law: a claim of one job begins with a wave if and only if there are tasks, and has one
/// wave for each of them.
pub proof fn law_one_wave_for_each_task<C, E>(
    queue_count: usize,
    start: (ClaimOneRun, ClaimOneAction<C, E>),
)
    requires
        call_ensures(
            ClaimCoordinator::claim_one_until_shutdown::<C, E>,
            (queue_count,),
            start,
        ),
    ensures
        start.0.waves_left == queue_count,
        start.1 is ClaimWave <==> queue_count > 0,
        queue_count == 0 ==> start.1 == ClaimOneAction::<C, E>::Return(Ok(None)),
{
}

/// Law: a wave tells truly what it waits for: each event in the phase that it belongs to.
pub proof fn law_waves_tell_what_they_wait_for<C, E>(
    run: &WaveRun<C>,
    event: &WaveEvent<C, E>,
    waits: bool,
)
    requires
        call_ensures(WaveRun::<C>::is_awaiting::<E>, (run, event), waits),
    ensures
        waits <==> match *event {
            WaveEvent::Begun => run.phase == WavePhase::Beginning,
            WaveEvent::Control(_) => run.phase == WavePhase::Gating,
            WaveEvent::ShutdownRequested => run.phase == WavePhase::Gating && run.cancellable,
            WaveEvent::Rows(_) => run.phase == WavePhase::Claiming,
            WaveEvent::Committed => run.phase == WavePhase::Committing || run.phase
                == WavePhase::CommittingPause,
            WaveEvent::Failed(_) => run.phase != WavePhase::Finished,
        },
{
}

/// Law: a wave that is let through claims at the given time, for the first task of its
/// allocation, and for this worker.
pub proof fn law_an_open_gate_claims_at_once<C>(
    coordinator: &ClaimCoordinator,
    run: &mut WaveRun<C>,
    now: Option<Timestamp>,
    query: Query,
)
    requires
        call_ensures(ClaimCoordinator::open_gate::<C>, (coordinator, run, now), query),
    ensures
        final(run).now == now,
        final(run).phase == WavePhase::Claiming,
        query.params@[0] matches DbValue::Text(text) && text@ == coordinator.worker_id@,
        query.params@[1] == DbValue::I32(old(run).tasks@[old(run).allocation@[0].0 as int].0),
        query.params@[5] == DbValue::TimestampTzOpt(now),
{
}

} // verus!
