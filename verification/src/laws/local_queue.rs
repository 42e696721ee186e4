//! Laws of the local queue.

use std::time::Duration;

use vstd::prelude::*;

use crate::claim_coordinator::{ClaimWave, QueueJobs};
use crate::job::Job;
use crate::local_queue::buffers::QueueBuffers;
use crate::local_queue::config::{
    LocalQueueConfig, LocalQueueConfigBuilder, LocalQueueConfigError, RefetchDelayConfig,
};
use crate::local_queue::fetch::{
    Delivery, FetchLoopAction, FetchLoopEvent, FetchOutcome, FetchStart,
};
use crate::local_queue::release::{
    ReleaseEnd, ReleaseNext, ReleaseStart, ReturnFailure, TtlExpiry,
};
use crate::local_queue::retry::{LocalQueueError, ReturnJobsAction, ReturnJobsRun};
use crate::local_queue::state::{
    AcceptedWorkTracker, LocalQueue, LocalQueueMode, LocalQueueParams, ModeTransition,
    RefetchDelayState,
};

verus! {

/// Law: pushed jobs stand behind those of their identifier, every other queue keeps its
/// jobs, and an identifier that is new comes last.
pub proof fn law_pushed_jobs_go_to_their_queue<C>(
    buffers: &mut QueueBuffers<C>,
    identifier: String,
    jobs: Vec<Job<C>>,
    done: (),
    queue: int,
)
    requires
        call_ensures(QueueBuffers::<C>::push, (buffers, identifier, jobs), done),
        0 <= queue < old(buffers).queues@.len(),
    ensures
        queue < final(buffers).queues@.len(),
        final(buffers).queues@[queue].0@ == old(buffers).queues@[queue].0@,
        old(buffers).queues@[queue].0@ == identifier@ ==> final(buffers).queues@[queue].1@
            == old(buffers).queues@[queue].1@ + jobs@ && final(buffers).queues@.len()
            == old(buffers).queues@.len(),
        old(buffers).queues@[queue].0@ != identifier@ ==> final(buffers).queues@[queue].1@
            == old(buffers).queues@[queue].1@,
        final(buffers).next_queue == old(buffers).next_queue,
{
}

/// Law: jobs under a new identifier get a queue of their own, unless there are none.
pub proof fn law_new_identifiers_get_a_queue<C>(
    buffers: &mut QueueBuffers<C>,
    identifier: String,
    jobs: Vec<Job<C>>,
    done: (),
)
    requires
        call_ensures(QueueBuffers::<C>::push, (buffers, identifier, jobs), done),
        forall|k: int|
            0 <= k < old(buffers).queues@.len() ==> (#[trigger] old(buffers).queues@[k]).0@
                != identifier@,
    ensures
        jobs@.len() == 0 ==> *final(buffers) == *old(buffers),
        jobs@.len() > 0 ==> final(buffers).queues@.len() == old(buffers).queues@.len() + 1
            && final(buffers).queues@.last().0@ == identifier@
            && final(buffers).queues@.last().1@ == jobs@,
{
}

/// Law: a pop takes the oldest job of the queue whose turn comes first among those that
/// have jobs, leaves all others alone, and passes the turn on.
pub proof fn law_queues_take_turns<C>(
    buffers: &mut QueueBuffers<C>,
    job: Option<Job<C>>,
    queue: int,
    other: int,
)
    requires
        call_ensures(QueueBuffers::<C>::pop_round_robin, (buffers,), job),
        0 <= queue < old(buffers).queues@.len(),
        old(buffers).queues@[queue].1@.len() > 0,
        forall|k: int|
            0 <= k < old(buffers).queues@.len() && (k - old(buffers).next_queue) % (
            old(buffers).queues@.len() as int) < (queue - old(buffers).next_queue) % (
            old(buffers).queues@.len() as int) ==> (#[trigger] old(buffers).queues@[k]).1@.len()
                == 0,
        0 <= other < old(buffers).queues@.len() && other != queue,
    ensures
        job == Some(old(buffers).queues@[queue].1@[0]),
        final(buffers).queues@.len() == old(buffers).queues@.len(),
        final(buffers).queues@[queue].1@ == old(buffers).queues@[queue].1@.skip(1),
        final(buffers).queues@[other].1@ == old(buffers).queues@[other].1@,
        final(buffers).next_queue == (queue + 1) % old(buffers).queues@.len() as int,
{
    let before = *old(buffers);
    let after = *final(buffers);
    assert forall|k: int|
        0 <= k < before.contents().len() && crate::local_queue::buffers::turns_until(before, k)
            < crate::local_queue::buffers::turns_until(before, queue) implies (
    #[trigger] before.contents()[k]).1.len() == 0 by {
        assert(before.queues@[k].1@.len() == 0);
    }
    crate::local_queue::buffers::law_pop_serves_the_next_queue(before, job, after, queue);
    assert(after.contents()[other] == before.contents()[other]);
    assert(after.contents()[other].1 == after.queues@[other].1@);
}

/// Law: a pop gives nothing if and only if nothing is buffered.
pub proof fn law_a_pop_finds_what_there_is<C>(buffers: &mut QueueBuffers<C>, job: Option<Job<C>>)
    requires
        call_ensures(QueueBuffers::<C>::pop_round_robin, (buffers,), job),
    ensures
        job is None <==> forall|k: int|
            0 <= k < old(buffers).queues@.len() ==> (#[trigger] old(buffers).queues@[k]).1@.len()
                == 0,
{
}

/// Law: draining gives as many jobs as are counted, one queue after the other, and leaves
/// every queue empty.
pub proof fn law_draining_empties_the_buffers<C>(
    buffers: &mut QueueBuffers<C>,
    jobs: Vec<Job<C>>,
    queue: int,
)
    requires
        call_ensures(QueueBuffers::<C>::drain, (buffers,), jobs),
        0 <= queue < old(buffers).queues@.len(),
    ensures
        jobs@ == crate::local_queue::buffers::all_jobs(
            old(buffers).queues@.map_values(
                |queue: (String, std::collections::VecDeque<Job<C>>)| (queue.0@, queue.1@),
            ),
        ),
        final(buffers).queues@.len() == old(buffers).queues@.len(),
        final(buffers).queues@[queue].0@ == old(buffers).queues@[queue].0@,
        final(buffers).queues@[queue].1@.len() == 0,
        old(buffers).queues@.len() == 1 ==> jobs@ == old(buffers).queues@[0].1@,
        final(buffers).next_queue == old(buffers).next_queue,
{
    let contents = old(buffers).contents();
    assert(contents =~= old(buffers).queues@.map_values(
        |queue: (String, std::collections::VecDeque<Job<C>>)| (queue.0@, queue.1@),
    ));
    if contents.len() == 1 {
        crate::local_queue::buffers::law_jobs_go_queue_by_queue(
            contents,
            Seq::<(Seq<char>, Seq<Job<C>>)>::empty(),
        );
    }
}

/// Law: new buffers are empty, and buffers are counted as all the jobs in them.
pub proof fn law_buffers_are_counted_in_full<C>(
    fresh: QueueBuffers<C>,
    buffers: &QueueBuffers<C>,
    count: usize,
)
    requires
        call_ensures(QueueBuffers::<C>::new, (), fresh),
        call_ensures(QueueBuffers::<C>::len, (buffers,), count),
    ensures
        fresh.queues@.len() == 0,
        fresh.next_queue == 0,
        count == crate::local_queue::buffers::all_jobs(buffers.contents()).len(),
        count == 0 <==> forall|k: int|
            0 <= k < buffers.queues@.len() ==> (#[trigger] buffers.queues@[k]).1@.len() == 0,
        buffers.queues@.len() == 1 ==> count == buffers.queues@[0].1@.len(),
{
    if buffers.queues@.len() == 1 {
        crate::local_queue::buffers::law_jobs_go_queue_by_queue(
            buffers.contents(),
            Seq::<(Seq<char>, Seq<Job<C>>)>::empty(),
        );
        assert(buffers.contents()[0].1 == buffers.queues@[0].1@);
    }
}

/// Law: a mode is taken on unless the queue is released, and told if it is another one.
pub proof fn law_modes_are_taken_on<C>(
    queue: &mut LocalQueue<C>,
    new_mode: LocalQueueMode,
    change: Option<ModeTransition>,
)
    requires
        call_ensures(LocalQueue::<C>::set_mode, (queue, new_mode), change),
    ensures
        old(queue).0.mode == LocalQueueMode::Released ==> *final(queue) == *old(queue)
            && change is None,
        old(queue).0.mode != LocalQueueMode::Released ==> final(queue).0.mode == new_mode,
        change is Some <==> final(queue).0.mode != old(queue).0.mode,
        change matches Some(told) ==> told.old_mode == old(queue).0.mode && told.new_mode
            == new_mode,
        final(queue).0.job_queues == old(queue).0.job_queues,
{
}

/// Law: a released queue gives no job and stays as it is. Any other gives one if and only
/// if one is buffered. Whoever asks after an expiry, or takes the last job, sends the queue
/// back to polling, and nobody else changes its mode.
pub proof fn law_jobs_are_given_until_released<C>(
    queue: &mut LocalQueue<C>,
    result: (Option<Job<C>>, Option<ModeTransition>),
)
    requires
        call_ensures(LocalQueue::<C>::get_job, (queue,), result),
    ensures
        old(queue).0.mode == LocalQueueMode::Released ==> result.0 is None && result.1 is None
            && *final(queue) == *old(queue),
        old(queue).0.mode != LocalQueueMode::Released ==> {
            &&& result.0 is Some <==> exists|k: int|
                0 <= k < old(queue).0.job_queues.queues@.len() && (
                #[trigger] old(queue).0.job_queues.queues@[k]).1@.len() > 0
            &&& old(queue).0.mode == LocalQueueMode::TtlExpired ==> final(queue).0.mode
                == LocalQueueMode::Polling
            &&& old(queue).0.mode == LocalQueueMode::Waiting ==> (final(queue).0.mode
                == LocalQueueMode::Polling <==> result.0 is Some && forall|k: int|
                0 <= k < final(queue).0.job_queues.queues@.len() ==> (
                #[trigger] final(queue).0.job_queues.queues@[k]).1@.len() == 0)
            &&& final(queue).0.mode != LocalQueueMode::Polling ==> final(queue).0.mode
                == old(queue).0.mode
        },
        result.1 is Some <==> final(queue).0.mode != old(queue).0.mode,
        result.1 matches Some(told) ==> told.old_mode == old(queue).0.mode && told.new_mode
            == final(queue).0.mode,
        final(queue).0.accepted_tracker == old(queue).0.accepted_tracker,
{
}

/// Law: jobs are given in turn. The job that a queue gives is the oldest of the identifier
/// whose turn comes first among those that have jobs.
pub proof fn law_given_jobs_come_in_turn<C>(
    queue: &mut LocalQueue<C>,
    result: (Option<Job<C>>, Option<ModeTransition>),
    index: int,
)
    requires
        call_ensures(LocalQueue::<C>::get_job, (queue,), result),
        old(queue).0.mode != LocalQueueMode::Released,
        0 <= index < old(queue).0.job_queues.queues@.len(),
        old(queue).0.job_queues.queues@[index].1@.len() > 0,
        forall|k: int|
            0 <= k < old(queue).0.job_queues.queues@.len() && (k
                - old(queue).0.job_queues.next_queue) % (
            old(queue).0.job_queues.queues@.len() as int) < (index
                - old(queue).0.job_queues.next_queue) % (
            old(queue).0.job_queues.queues@.len() as int) ==> (
            #[trigger] old(queue).0.job_queues.queues@[k]).1@.len() == 0,
    ensures
        result.0 == Some(old(queue).0.job_queues.queues@[index].1@[0]),
        final(queue).0.job_queues.queues@.len() == old(queue).0.job_queues.queues@.len(),
        final(queue).0.job_queues.queues@[index].1@
            == old(queue).0.job_queues.queues@[index].1@.skip(1),
        final(queue).0.job_queues.next_queue == (index + 1)
            % old(queue).0.job_queues.queues@.len() as int,
{
    let before = old(queue).0.job_queues;
    let after = final(queue).0.job_queues;
    assert forall|k: int|
        0 <= k < before.contents().len() && crate::local_queue::buffers::turns_until(before, k)
            < crate::local_queue::buffers::turns_until(before, index) implies (
    #[trigger] before.contents()[k]).1.len() == 0 by {
        assert(before.queues@[k].1@.len() == 0);
    }
    crate::local_queue::buffers::law_pop_serves_the_next_queue(before, result.0, after, index);
    assert(after.contents().len() == after.queues@.len());
    assert(after.contents()[index].1 == after.queues@[index].1@);
}

/// Law: the fetch loop stops if and only if the queue is released, or is released by it
/// because it is not to keep polling. In any other mode but polling it waits for a change,
/// whatever room there is. While polling it fetches as soon as nothing stands in the way.
pub proof fn law_the_fetch_loop_lives_until_release<C>(
    queue: &mut LocalQueue<C>,
    event: FetchLoopEvent,
    action: FetchLoopAction,
)
    requires
        call_ensures(LocalQueue::<C>::schedule_fetch, (queue, event), action),
    ensures
        action is Stop <==> old(queue).0.mode == LocalQueueMode::Released,
        action is StopReleased <==> event == FetchLoopEvent::Fetched && old(queue).0.mode
            == LocalQueueMode::Polling && !old(queue).0.continuous,
        action is Stop || action is StopReleased <==> final(queue).0.mode
            == LocalQueueMode::Released,
        old(queue).0.mode != LocalQueueMode::Released && old(queue).0.mode
            != LocalQueueMode::Polling ==> action is AwaitState && *final(queue) == *old(queue),
        event == FetchLoopEvent::Woken ==> *final(queue) == *old(queue),
        event == FetchLoopEvent::Woken && old(queue).0.mode == LocalQueueMode::Polling ==> {
            let busy = old(queue).0.fetch_in_progress || old(queue).0.refetch_delay.active;
            let full = old(queue).0.accepted_tracker.accepted >= old(queue).0.config.size;
            &&& busy ==> action is AwaitState
            &&& !busy && full ==> action is AwaitStateOrCapacity
            &&& !busy && !full ==> action is Fetch
        },
        event == FetchLoopEvent::Fetched && old(queue).0.mode == LocalQueueMode::Polling
            && old(queue).0.continuous ==> {
            let wanted = old(queue).0.fetch_again
                || old(queue).0.refetch_delay.fetch_on_complete;
            &&& !wanted <==> action is SleepOrState
            &&& action matches FetchLoopAction::SleepOrState(pause) ==> pause
                == old(queue).0.poll_interval
            &&& !final(queue).0.fetch_again && !final(queue).0.refetch_delay.fetch_on_complete
        },
{
}

/// Law: a fetch claims exactly what is free, one wave at a time and none during a delay,
/// which remembers that a fetch was wanted.
pub proof fn law_a_fetch_claims_what_is_free<C>(queue: &mut LocalQueue<C>, start: FetchStart)
    requires
        call_ensures(LocalQueue::<C>::start_fetch, (queue,), start),
    ensures
        start is ClaimWave <==> !old(queue).0.fetch_in_progress
            && !old(queue).0.refetch_delay.active,
        start matches FetchStart::ClaimWave(capacity) ==> {
            &&& old(queue).0.accepted_tracker.accepted <= old(queue).0.config.size ==> capacity
                + old(queue).0.accepted_tracker.accepted == old(queue).0.config.size
            &&& old(queue).0.accepted_tracker.accepted > old(queue).0.config.size ==> capacity == 0
            &&& final(queue).0.fetch_in_progress
        },
        !old(queue).0.fetch_in_progress && old(queue).0.refetch_delay.active
            ==> final(queue).0.refetch_delay.fetch_on_complete,
        final(queue).0.accepted_tracker == old(queue).0.accepted_tracker,
        final(queue).0.mode == old(queue).0.mode,
{
}

/// Law: everything that a wave claimed is delivered. A queue that found nothing and is not
/// to keep polling is released. A delay follows if one is configured, the jobs are no more
/// than its threshold, and the wave did not use up its capacity. A paused or failed wave
/// leads to nothing.
pub proof fn law_everything_claimed_is_delivered<C, E>(
    queue: &mut LocalQueue<C>,
    capacity: usize,
    result: Result<ClaimWave<C>, E>,
    outcome: FetchOutcome<C, E>,
)
    requires
        call_ensures(LocalQueue::<C>::finish_fetch::<E>, (queue, capacity, result), outcome),
    ensures
        !final(queue).0.fetch_in_progress,
        final(queue).0.mode == old(queue).0.mode,
        final(queue).0.job_queues == old(queue).0.job_queues,
        final(queue).0.accepted_tracker == old(queue).0.accepted_tracker,
        result matches Err(error) ==> outcome == FetchOutcome::<C, E>::Failed(error),
        result == Ok::<ClaimWave<C>, E>(ClaimWave::Paused) ==> outcome is Paused,
        result matches Ok(ClaimWave::Claimed(queues)) ==> (outcome matches FetchOutcome::Fetched {
            jobs_count,
            delay,
            delivery,
        } && {
            &&& jobs_count == crate::local_queue::fetch::received_all(queues@).len()
            &&& delivery is Jobs <==> jobs_count > 0
            &&& delivery matches Delivery::Jobs { queues: delivered, fetched_max } ==> delivered
                == queues && (fetched_max <==> capacity > 0 && jobs_count >= capacity)
            &&& delivery is Release <==> jobs_count == 0 && !old(queue).0.continuous
            &&& old(queue).0.config.refetch_delay is None ==> delay is None
            &&& old(queue).0.config.refetch_delay matches Some(configured) ==> (delay is Some
                <==> jobs_count <= configured.threshold && !(capacity > 0 && jobs_count
                >= capacity)) && (delay matches Some(chosen) ==> chosen == configured)
        }),
{
}

/// Law: received jobs are all buffered beside those that were, all of them count as
/// accepted, and the queue waits for them to be taken unless it is released.
pub proof fn law_received_jobs_are_buffered_and_counted<C>(
    queue: &mut LocalQueue<C>,
    queues: Vec<QueueJobs<C>>,
    change: Option<ModeTransition>,
)
    requires
        call_ensures(LocalQueue::<C>::received_jobs, (queue, queues), change),
    ensures
        final(queue).0.accepted_tracker.accepted == old(queue).0.accepted_tracker.accepted
            + crate::local_queue::fetch::received_all(queues@).len(),
        crate::local_queue::buffers::all_jobs(final(queue).0.job_queues.contents()).to_multiset()
            == crate::local_queue::buffers::all_jobs(
            old(queue).0.job_queues.contents(),
        ).to_multiset().add(crate::local_queue::fetch::received_all(queues@).to_multiset()),
        old(queue).0.mode != LocalQueueMode::Released ==> final(queue).0.mode
            == LocalQueueMode::Waiting,
        old(queue).0.mode == LocalQueueMode::Released ==> final(queue).0.mode
            == LocalQueueMode::Released && change is None,
{
}

/// Law: jobs expire only while they wait, and then all of them. They are returned if there
/// are any.
pub proof fn law_waiting_jobs_expire_together<C>(
    queue: &mut LocalQueue<C>,
    expiry: TtlExpiry<C>,
    returned: Option<Vec<Job<C>>>,
)
    requires
        call_ensures(LocalQueue::<C>::set_mode_ttl_expired, (queue,), expiry),
        call_ensures(TtlExpiry::<C>::jobs_to_return, (expiry,), returned),
    ensures
        old(queue).0.mode != LocalQueueMode::Waiting ==> returned is None && *final(queue)
            == *old(queue),
        old(queue).0.mode == LocalQueueMode::Waiting ==> {
            let waiting = crate::local_queue::buffers::all_jobs(old(queue).0.job_queues.contents());
            &&& final(queue).0.mode == LocalQueueMode::TtlExpired
            &&& returned is Some <==> waiting.len() > 0
            &&& returned matches Some(jobs) ==> jobs@ == waiting
            &&& final(queue).0.buffered() == 0
        },
        final(queue).0.accepted_tracker == old(queue).0.accepted_tracker,
{
}

/// Law: settled jobs are accepted no more, and nothing else changes.
pub proof fn law_settled_jobs_are_let_go<C>(queue: &mut LocalQueue<C>, count: usize, done: ())
    requires
        call_ensures(LocalQueue::<C>::settle, (queue, count), done),
    ensures
        final(queue).0.accepted_tracker.accepted == old(queue).0.accepted_tracker.accepted - count,
        final(queue).0.mode == old(queue).0.mode,
        final(queue).0.job_queues == old(queue).0.job_queues,
{
}

/// Law: expired jobs are settled however their return ended, and announced if it went well.
pub proof fn law_expired_jobs_are_settled<C>(
    queue: &mut LocalQueue<C>,
    count: usize,
    result: &Result<(), LocalQueueError>,
    announce: Option<usize>,
)
    requires
        call_ensures(LocalQueue::<C>::ttl_jobs_returned, (queue, count, result), announce),
    ensures
        final(queue).0.accepted_tracker.accepted == old(queue).0.accepted_tracker.accepted - count,
        final(queue).0.mode == old(queue).0.mode,
        announce is Some <==> *result is Ok,
        announce matches Some(told) ==> told == count,
{
}

/// Law: the first release stops the queue for good and leaves it the grace period. Every
/// later one gets the answer of the first and changes nothing.
pub proof fn law_a_release_is_made_once<C>(queue: &mut LocalQueue<C>, start: ReleaseStart)
    requires
        call_ensures(LocalQueue::<C>::release, (queue,), start),
    ensures
        !old(queue).0.release_finished ==> final(queue).0.mode == LocalQueueMode::Released
            && !final(queue).0.refetch_delay.active && start == ReleaseStart::StopClaims(
            old(queue).0.shutdown_grace_period,
        ),
        old(queue).0.release_finished ==> *final(queue) == *old(queue),
        old(queue).0.release_finished && old(queue).0.release_error is None ==> start
            == ReleaseStart::Finished(Ok(())),
        old(queue).0.release_finished ==> (old(queue).0.release_error matches Some(text) ==> start
            == ReleaseStart::Finished(Err(LocalQueueError::ReturnJobsError(text)))),
        final(queue).0.job_queues == old(queue).0.job_queues,
        final(queue).0.accepted_tracker == old(queue).0.accepted_tracker,
{
}

/// Law: a release returns everything that is buffered, and is finished at once only if
/// nothing is.
pub proof fn law_a_release_collects_everything<C>(queue: &mut LocalQueue<C>, next: ReleaseNext<C>)
    requires
        call_ensures(LocalQueue::<C>::collect_released, (queue,), next),
        old(queue).0.wf(),
    ensures
        ({
            let waiting = crate::local_queue::buffers::all_jobs(old(queue).0.job_queues.contents());
            &&& next is Return <==> waiting.len() > 0
            &&& next matches ReleaseNext::Return(jobs) ==> jobs@ == waiting
            &&& final(queue).0.release_finished <==> waiting.len() == 0
        }),
        final(queue).0.buffered() == 0,
        final(queue).0.accepted_tracker == old(queue).0.accepted_tracker,
{
    crate::local_queue::buffers::law_every_job_is_counted(old(queue).0.job_queues.contents());
}

/// Law: a release that ends settles its jobs and is finished. What it failed with is the
/// answer, and its text is kept for everyone who asks later.
pub proof fn law_a_release_ends_with_its_answer<C>(
    queue: &mut LocalQueue<C>,
    count: usize,
    result: Result<(), ReturnFailure>,
    end: ReleaseEnd,
)
    requires
        call_ensures(LocalQueue::<C>::finish_release, (queue, count, result), end),
        old(queue).0.wf(),
        !old(queue).0.release_finished,
    ensures
        final(queue).0.release_finished,
        final(queue).0.mode == LocalQueueMode::Released,
        final(queue).0.accepted_tracker.accepted == old(queue).0.accepted_tracker.accepted - count,
        end.result is Ok <==> result is Ok,
        end.announce is Some <==> result is Ok,
        end.announce matches Some(told) ==> told == count,
        result matches Err(failure) ==> end.result == Err::<(), LocalQueueError>(failure.error)
            && final(queue).0.release_error == Some(failure.message),
        result is Ok ==> final(queue).0.release_error is None,
{
}

/// Law: a return that goes well ends well. One that fails is tried again as long as
/// attempts are left, each time after one more failure, and then fails with the number of
/// attempts and the last error.
pub proof fn law_returns_are_tried_again(
    run: &mut ReturnJobsRun,
    result: Result<(), String>,
    action: ReturnJobsAction,
)
    requires
        call_ensures(ReturnJobsRun::observe, (run, result), action),
    ensures
        final(run).max_attempts == old(run).max_attempts,
        result is Ok ==> *final(run) == *old(run) && action == ReturnJobsAction::Return(Ok(())),
        result matches Err(error) ==> {
            &&& final(run).attempt == old(run).attempt + 1
            &&& action is RetryAfter <==> old(run).attempt + 1 < old(run).max_attempts
            &&& action matches ReturnJobsAction::RetryAfter(failures) ==> failures
                == old(run).attempt
            &&& action matches ReturnJobsAction::Return(answer) ==> (answer matches Err(
                LocalQueueError::ReturnJobsError(text),
            ) && text@ == "Failed after "@ + crate::local_queue::retry::decimal_text(
                (old(run).attempt + 1) as nat,
            ) + " attempts: "@ + error@)
        },
{
}

/// Law: returns begin without a failure and keep their limit.
pub proof fn law_returns_begin_without_a_failure(max_attempts: u32, run: ReturnJobsRun)
    requires
        call_ensures(ReturnJobsRun::new, (max_attempts,), run),
    ensures
        run.attempt == 0,
        run.max_attempts == max_attempts,
{
}

/// Law: accepted jobs are counted up and down one for one, and what is free is what the
/// accepted ones leave of the size.
pub proof fn law_accepted_jobs_are_counted(
    tracker: &mut AcceptedWorkTracker,
    count: usize,
    done: (),
    size: usize,
    free: usize,
)
    requires
        call_ensures(AcceptedWorkTracker::accept, (tracker, count), done),
        call_ensures(AcceptedWorkTracker::free_capacity, (&*final(tracker), size), free),
    ensures
        final(tracker).accepted == old(tracker).accepted + count,
        old(tracker).accepted + count <= size ==> free + old(tracker).accepted + count == size,
        old(tracker).accepted + count > size ==> free == 0,
{
}

/// Law: jobs that are settled are counted down one for one.
pub proof fn law_settled_jobs_are_counted_down(
    tracker: &mut AcceptedWorkTracker,
    count: usize,
    done: (),
)
    requires
        call_ensures(AcceptedWorkTracker::settled, (tracker, count), done),
    ensures
        final(tracker).accepted + count == old(tracker).accepted,
{
}

/// Law: what is not configured is a hundred jobs for five minutes without a delay, and a
/// delay that never began.
pub proof fn law_defaults_are_as_promised(config: LocalQueueConfig, delay: RefetchDelayState)
    requires
        call_ensures(LocalQueueConfig::default, (), config),
        call_ensures(RefetchDelayState::default, (), delay),
    ensures
        config.size == 100,
        crate::time::duration_nanos(config.ttl) == 300 * 1_000_000_000,
        config.refetch_delay is None,
        !delay.active && !delay.fetch_on_complete,
        delay.counter == 0,
        delay.abort_threshold == usize::MAX,
{
}

/// Law: a new queue has not started, holds nothing and keeps what it was made from.
pub proof fn law_a_new_queue_is_empty<C>(params: LocalQueueParams, queue: LocalQueue<C>)
    requires
        call_ensures(LocalQueue::<C>::new, (params,), queue),
    ensures
        queue.0.mode == LocalQueueMode::Starting,
        queue.0.job_queues.queues@.len() == 0,
        queue.0.accepted_tracker.accepted == 0,
        queue.0.config == params.config,
        queue.0.worker_id == params.worker_id,
        queue.0.poll_interval == params.poll_interval,
        queue.0.shutdown_grace_period == params.shutdown_grace_period,
        queue.0.continuous == params.continuous,
        !queue.0.release_finished && queue.0.release_error is None,
        !queue.0.fetch_in_progress && !queue.0.refetch_delay.active,
{
}

/// Law: a configuration passes if and only if its size is a positive quota and its delay is
/// no longer than the poll interval.
pub proof fn law_configurations_pass_if_they_fit(
    config: &LocalQueueConfig,
    poll_interval: Duration,
    result: Result<(), LocalQueueConfigError>,
)
    requires
        call_ensures(LocalQueueConfig::validate, (config, poll_interval), result),
    ensures
        ({
            let too_long = config.refetch_delay matches Some(delay) && crate::time::duration_nanos(
                delay.duration,
            ) > crate::time::duration_nanos(poll_interval);
            &&& result is Ok <==> !too_long && 0 < config.size <= i32::MAX
            &&& too_long ==> result == Err::<(), LocalQueueConfigError>(
                LocalQueueConfigError::RefetchDelayExceedsPollInterval {
                    duration: config.refetch_delay->0.duration,
                    poll_interval,
                },
            )
            &&& !too_long && config.size == 0 ==> result == Err::<(), LocalQueueConfigError>(
                LocalQueueConfigError::EmptySize,
            )
            &&& !too_long && config.size > i32::MAX ==> result == Err::<(), LocalQueueConfigError>(
                LocalQueueConfigError::SizeTooLarge { size: config.size, max: i32::MAX },
            )
        }),
{
}

/// Law: a builder remembers what is set, whatever else is set, and fills in the defaults:
/// a hundred jobs for five minutes, without a delay.
pub proof fn law_builders_remember_what_is_set(
    empty: LocalQueueConfigBuilder,
    size: usize,
    sized: LocalQueueConfigBuilder,
    ttl: Duration,
    timed: LocalQueueConfigBuilder,
    delay: RefetchDelayConfig,
    delayed: LocalQueueConfigBuilder,
    full: LocalQueueConfig,
    plain: LocalQueueConfig,
)
    requires
        call_ensures(LocalQueueConfig::builder, (), empty),
        call_ensures(LocalQueueConfigBuilder::size, (empty, size), sized),
        call_ensures(LocalQueueConfigBuilder::ttl, (sized, ttl), timed),
        call_ensures(LocalQueueConfigBuilder::refetch_delay, (timed, delay), delayed),
        call_ensures(LocalQueueConfigBuilder::build, (delayed,), full),
        call_ensures(LocalQueueConfigBuilder::build, (empty,), plain),
    ensures
        full.size == size,
        full.ttl == ttl,
        full.refetch_delay == Some(delay),
        plain.size == 100,
        crate::time::duration_nanos(plain.ttl) == 300 * 1_000_000_000,
        plain.refetch_delay is None,
{
}

/// Law: replacing one value of a configuration keeps the others.
pub proof fn law_replacing_keeps_the_rest(
    config: LocalQueueConfig,
    size: usize,
    sized: LocalQueueConfig,
    ttl: Duration,
    timed: LocalQueueConfig,
    delay: RefetchDelayConfig,
    delayed: LocalQueueConfig,
)
    requires
        call_ensures(LocalQueueConfig::with_size, (config, size), sized),
        call_ensures(LocalQueueConfig::with_ttl, (config, ttl), timed),
        call_ensures(LocalQueueConfig::with_refetch_delay, (config, delay), delayed),
    ensures
        sized.size == size && sized.ttl == config.ttl && sized.refetch_delay
            == config.refetch_delay,
        timed.size == config.size && timed.ttl == ttl && timed.refetch_delay
            == config.refetch_delay,
        delayed.size == config.size && delayed.ttl == config.ttl && delayed.refetch_delay == Some(
            delay,
        ),
{
}

/// Law: replacing one value of a delay keeps the others.
pub proof fn law_replacing_keeps_the_rest_of_a_delay(
    config: RefetchDelayConfig,
    duration: Duration,
    timed: RefetchDelayConfig,
    number: usize,
    bounded: RefetchDelayConfig,
    cut_short: RefetchDelayConfig,
)
    requires
        call_ensures(RefetchDelayConfig::with_duration, (config, duration), timed),
        call_ensures(RefetchDelayConfig::with_threshold, (config, number), bounded),
        call_ensures(RefetchDelayConfig::with_max_abort_threshold, (config, number), cut_short),
    ensures
        timed.duration == duration && timed.threshold == config.threshold
            && timed.max_abort_threshold == config.max_abort_threshold,
        bounded.duration == config.duration && bounded.threshold == number
            && bounded.max_abort_threshold == config.max_abort_threshold,
        cut_short.duration == config.duration && cut_short.threshold == config.threshold
            && cut_short.max_abort_threshold == number,
{
}

} // verus!
