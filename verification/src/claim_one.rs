//! Claims of a single job, for callers that keep no buffer.
//!
//! A wave of capacity one visits one task. The claim runs as many such waves as
//! there are tasks, so that each of them is looked at once.

use vstd::prelude::*;

use crate::claim_coordinator::{ClaimCoordinator, ClaimWave, QueueJobs};
use crate::job::Job;

verus! {

/// A claim of one job under way.
#[derive(Debug, Clone, Copy, PartialEq, Eq, Structural)]
pub struct ClaimOneRun {
    /// How many waves may still be run, the one under way included.
    pub waves_left: usize,
}

/// What a claim of one job asks the caller to do.
#[derive(Debug, PartialEq, Eq)]
pub enum ClaimOneAction<C, E> {
    /// Run a wave of capacity one that a shutdown may call off.
    ClaimWave,
    /// The claim is over.
    Return(Result<Option<Job<C>>, E>),
}

/// The first job of the first queue that has one.
pub open spec fn first_job<C>(queues: Seq<QueueJobs<C>>) -> Option<Job<C>>
    decreases queues.len(),
{
    if queues.len() == 0 {
        None
    } else if queues[0].jobs@.len() > 0 {
        Some(queues[0].jobs@[0])
    } else {
        first_job(queues.skip(1))
    }
}

/// Takes the first job out of what a wave claimed.
pub fn take_first_job<C>(queues: Vec<QueueJobs<C>>) -> (job: Option<Job<C>>)
    ensures
        job == first_job(queues@),
        match job {
            Some(taken) => exists|i: int|
                0 <= i < queues@.len() && (#[trigger] queues@[i]).jobs@.len() > 0 && taken
                    == queues@[i].jobs@[0] && forall|k: int|
                    0 <= k < i ==> (#[trigger] queues@[k]).jobs@.len() == 0,
            None => forall|i: int|
                0 <= i < queues@.len() ==> (#[trigger] queues@[i]).jobs@.len() == 0,
        },
{
    let ghost given = queues@;
    assert(given.skip(0) =~= given);
    for queue in it: queues
        invariant
            it.seq() == given,
            forall|k: int| 0 <= k < it.index() ==> (#[trigger] given[k]).jobs@.len() == 0,
            first_job(given) == first_job(given.skip(it.index())),
    {
        let ghost index: int = it.index();
        assert(given.skip(index)[0] == given[index]);
        assert(given.skip(index).skip(1) =~= given.skip(index + 1));
        let mut jobs: Vec<Job<C>> = queue.jobs;
        if jobs.len() > 0 {
            return Some(jobs.remove(0));
        }
    }
    None
}

impl ClaimCoordinator {
    /// Starts a claim of one job over `queue_count` tasks. Without tasks it is over at
    /// once and empty-handed.
    pub fn claim_one_until_shutdown<C, E>(queue_count: usize) -> (start: (
        ClaimOneRun,
        ClaimOneAction<C, E>,
    ))
        ensures
            start.0.waves_left == queue_count,
            start.1 == if queue_count == 0 {
                ClaimOneAction::<C, E>::Return(Ok(None))
            } else {
                ClaimOneAction::<C, E>::ClaimWave
            },
    {
        let run = ClaimOneRun { waves_left: queue_count };
        if queue_count == 0 {
            (run, ClaimOneAction::Return(Ok(None)))
        } else {
            (run, ClaimOneAction::ClaimWave)
        }
    }
}

/// What comes of a wave that was run for a single job. A failure ends the claim, and
/// so does a wave that was paused or called off. A job ends it, too. A wave that
/// found none hands over to the next one, as long as any are left.
pub open spec fn claim_one_outcome<C, E>(
    waves_left: int,
    wave: Result<Option<ClaimWave<C>>, E>,
) -> ClaimOneAction<C, E> {
    match wave {
        Err(error) => ClaimOneAction::Return(Err(error)),
        Ok(None) => ClaimOneAction::Return(Ok(None)),
        Ok(Some(ClaimWave::Paused)) => ClaimOneAction::Return(Ok(None)),
        Ok(Some(ClaimWave::Claimed(queues))) => match first_job(queues@) {
            Some(job) => ClaimOneAction::Return(Ok(Some(job))),
            None => if waves_left > 1 {
                ClaimOneAction::ClaimWave
            } else {
                ClaimOneAction::Return(Ok(None))
            },
        },
    }
}

impl ClaimOneRun {
    /// Takes the outcome of the wave under way and says what is to be done next.
    pub fn observe<C, E>(&mut self, wave: Result<Option<ClaimWave<C>>, E>) -> (action:
        ClaimOneAction<C, E>)
        requires
            old(self).waves_left > 0,
        ensures
            final(self).waves_left == old(self).waves_left - 1,
            action == claim_one_outcome(old(self).waves_left as int, wave),
            wave matches Err(error) ==> action == ClaimOneAction::<C, E>::Return(Err(error)),
            wave == Ok::<Option<ClaimWave<C>>, E>(None) ==> action == ClaimOneAction::<
                C,
                E,
            >::Return(Ok(None)),
            wave == Ok::<Option<ClaimWave<C>>, E>(Some(ClaimWave::Paused)) ==> action
                == ClaimOneAction::<C, E>::Return(Ok(None)),
            wave matches Ok(Some(ClaimWave::Claimed(queues))) ==> {
                ||| exists|i: int|
                    0 <= i < queues@.len() && (#[trigger] queues@[i]).jobs@.len() > 0 && action
                        == ClaimOneAction::<C, E>::Return(Ok(Some(queues@[i].jobs@[0])))
                        && forall|k: int|
                        0 <= k < i ==> (#[trigger] queues@[k]).jobs@.len() == 0
                ||| {
                    &&& forall|i: int|
                        0 <= i < queues@.len() ==> (#[trigger] queues@[i]).jobs@.len() == 0
                    &&& action == if old(self).waves_left > 1 {
                        ClaimOneAction::<C, E>::ClaimWave
                    } else {
                        ClaimOneAction::<C, E>::Return(Ok(None))
                    }
                }
            },
            action is ClaimWave ==> final(self).waves_left > 0,
    {
        self.waves_left = self.waves_left - 1;
        match wave {
            Err(error) => ClaimOneAction::Return(Err(error)),
            Ok(None) => ClaimOneAction::Return(Ok(None)),
            Ok(Some(ClaimWave::Paused)) => ClaimOneAction::Return(Ok(None)),
            Ok(Some(ClaimWave::Claimed(queues))) => {
                match take_first_job(queues) {
                    Some(job) => ClaimOneAction::Return(Ok(Some(job))),
                    None => {
                        if self.waves_left > 0 {
                            ClaimOneAction::ClaimWave
                        } else {
                            ClaimOneAction::Return(Ok(None))
                        }
                    },
                }
            },
        }
    }
}

/// Law: a claim of one job runs at most one wave for each task, and in that many
/// waves every task is visited exactly once with room for exactly one job.
pub proof fn law_claim_one_looks_at_every_task(queue_count: int, start: int, queue: int)
    requires
        0 <= queue < queue_count,
    ensures
        crate::quotas::slots_over_waves(queue_count, 1, start, queue, queue_count as nat) == 1,
        exists|wave: nat|
            wave < queue_count && crate::quotas::allocation(
                queue_count,
                1,
                #[trigger] crate::quotas::rotation_after_waves(queue_count, 1, start, wave),
            ) =~= seq![(queue, 1int)],
{
    crate::quotas::law_full_turn_is_fair(queue_count, 1, start, queue);
    crate::quotas::law_every_queue_is_reached(queue_count, 1, start, queue, queue_count as nat);
    let wave = choose|wave: nat|
        wave < queue_count && #[trigger] crate::quotas::quota_of_queue(
            queue_count,
            1,
            crate::quotas::rotation_after_waves(queue_count, 1, start, wave),
            queue,
        ) > 0;
    let rotation = crate::quotas::rotation_after_waves(queue_count, 1, start, wave);
    let slots = crate::quotas::allocation(queue_count, 1, rotation);
    crate::quotas::law_quota_of_queue_is_allocated(queue_count, 1, rotation, queue);
    crate::quotas::law_quotas_spend_the_capacity(queue_count, 1, rotation);
    assert(slots.len() == 1);
    assert(slots[0].0 == queue);
    assert(slots.drop_last() =~= Seq::<(int, int)>::empty());
    assert(crate::quotas::quota_total(slots.drop_last()) == 0);
    assert(slots[0].1 == 1);
    assert(slots =~= seq![(queue, 1int)]);
}

/// Law: the job that is taken from a wave goes under the identifier of the queue
/// that it was taken from.
pub proof fn law_first_job_is_labelled<C>(queues: Seq<QueueJobs<C>>)
    requires
        forall|i: int| 0 <= i < queues.len() ==> (#[trigger] queues[i]).labelled(),
    ensures
        first_job(queues) matches Some(job) ==> exists|i: int|
            0 <= i < queues.len() && (#[trigger] queues[i]).jobs@.len() > 0 && job
                == queues[i].jobs@[0] && job.task_identifier@ == queues[i].identifier@,
    decreases queues.len(),
{
    if queues.len() > 0 {
        if queues[0].jobs@.len() > 0 {
            assert(queues[0].labelled());
        } else {
            let rest = queues.skip(1);
            assert forall|i: int| 0 <= i < rest.len() implies (#[trigger] rest[i]).labelled() by {
                assert(queues[i + 1].labelled());
            }
            law_first_job_is_labelled(rest);
            if let Some(job) = first_job(rest) {
                let i = choose|i: int|
                    0 <= i < rest.len() && (#[trigger] rest[i]).jobs@.len() > 0 && job
                        == rest[i].jobs@[0] && job.task_identifier@ == rest[i].identifier@;
                assert(queues[i + 1] == rest[i]);
            }
        }
    }
}

/// Law: the job that is taken is the first of the first queue that has any.
pub proof fn law_first_job_comes_first<C>(queues: Seq<QueueJobs<C>>, queue: int)
    requires
        0 <= queue < queues.len(),
        queues[queue].jobs@.len() > 0,
        forall|i: int| 0 <= i < queue ==> (#[trigger] queues[i]).jobs@.len() == 0,
    ensures
        first_job(queues) == Some(queues[queue].jobs@[0]),
    decreases queues.len(),
{
    if queue > 0 {
        let rest = queues.skip(1);
        assert(queues[0].jobs@.len() == 0);
        assert(rest[queue - 1] == queues[queue]);
        assert forall|i: int| 0 <= i < queue - 1 implies (#[trigger] rest[i]).jobs@.len() == 0 by {
            assert(rest[i] == queues[i + 1]);
        }
        law_first_job_comes_first(rest, queue - 1);
    }
}

/// Law: no job is taken from queues that are all empty.
pub proof fn law_empty_queues_give_no_job<C>(queues: Seq<QueueJobs<C>>)
    requires
        forall|i: int| 0 <= i < queues.len() ==> (#[trigger] queues[i]).jobs@.len() == 0,
    ensures
        first_job(queues) is None,
    decreases queues.len(),
{
    if queues.len() > 0 {
        let rest = queues.skip(1);
        assert(queues[0].jobs@.len() == 0);
        assert forall|i: int| 0 <= i < rest.len() implies (#[trigger] rest[i]).jobs@.len() == 0 by {
            assert(rest[i] == queues[i + 1]);
        }
        law_empty_queues_give_no_job(rest);
    }
}

/// Law: a claim of one job goes on only after a wave that found nothing, and only as
/// long as waves are left. It never turns a failure into an empty claim.
pub proof fn law_claim_one_goes_on_while_waves_are_left<C, E>(
    waves_left: int,
    wave: Result<Option<ClaimWave<C>>, E>,
)
    ensures
        claim_one_outcome(waves_left, wave) is ClaimWave <==> waves_left > 1 && (wave matches Ok(
            Some(ClaimWave::Claimed(queues)),
        ) && forall|i: int| 0 <= i < queues@.len() ==> (#[trigger] queues@[i]).jobs@.len() == 0),
        claim_one_outcome(waves_left, wave) matches ClaimOneAction::Return(Err(error))
            ==> wave == Err::<Option<ClaimWave<C>>, E>(error),
        wave matches Err(error) ==> claim_one_outcome(waves_left, wave) == ClaimOneAction::<
            C,
            E,
        >::Return(Err(error)),
{
    if let Ok(Some(ClaimWave::Claimed(queues))) = wave {
        if forall|i: int| 0 <= i < queues@.len() ==> (#[trigger] queues@[i]).jobs@.len() == 0 {
            law_empty_queues_give_no_job(queues@);
        } else {
            let i = choose|i: int|
                0 <= i < queues@.len() && (#[trigger] queues@[i]).jobs@.len() != 0;
            law_no_claimed_job_is_missed(queues@, i);
        }
    }
}

/// Law: nothing comes of a wave that claimed jobs only if it claimed none at all.
pub proof fn law_no_claimed_job_is_missed<C>(queues: Seq<QueueJobs<C>>, queue: int)
    requires
        0 <= queue < queues.len(),
        queues[queue].jobs@.len() > 0,
    ensures
        first_job(queues) is Some,
    decreases queues.len(),
{
    if queues[0].jobs@.len() == 0 {
        assert(queues.skip(1)[queue - 1] == queues[queue]);
        law_no_claimed_job_is_missed(queues.skip(1), queue - 1);
    }
}

} // verus!
