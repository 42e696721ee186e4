//! Giving buffered jobs back: when they waited too long, and at shutdown.

use std::time::Duration;

use vstd::prelude::*;

use crate::job::Job;
use crate::local_queue::retry::LocalQueueError;
use crate::local_queue::state::{
    AcceptedWorkTracker, LocalQueue, LocalQueueMode, LocalQueueState, RefetchDelayState,
};

verus! {

/// What the end of the time to live leads to.
#[derive(Debug, PartialEq, Eq)]
pub enum TtlExpiry<C> {
    /// Nothing: no jobs were waiting.
    NotWaiting,
    /// These jobs waited too long. If there are any, they go back to the database.
    Expired(Vec<Job<C>>),
}

impl<C> TtlExpiry<C> {
    /// The jobs to return, settle and announce. There are none if no jobs were
    /// waiting, or if none was buffered.
    pub fn jobs_to_return(self) -> (jobs: Option<Vec<Job<C>>>)
        ensures
            jobs == match self {
                TtlExpiry::Expired(expired) if expired@.len() > 0 => Some(expired),
                _ => None,
            },
    {
        match self {
            TtlExpiry::NotWaiting => None,
            TtlExpiry::Expired(expired) => {
                if expired.len() > 0 {
                    Some(expired)
                } else {
                    None
                }
            },
        }
    }
}

/// How a release starts.
#[derive(Debug, PartialEq, Eq)]
pub enum ReleaseStart {
    /// The release was finished before, with this result.
    Finished(Result<(), LocalQueueError>),
    /// Stop the timers, and give the fetch loop this long to come to its end. What
    /// it has claimed by then belongs to the queue; a claim that takes longer is
    /// called off.
    StopClaims(Duration),
}

/// How a release goes on when nothing is fetched any more.
#[derive(Debug, PartialEq, Eq)]
pub enum ReleaseNext<C> {
    /// The release is finished: no job was buffered.
    Finished,
    /// Return these jobs to the database.
    Return(Vec<Job<C>>),
}

/// Why jobs could not be returned, and how that reads.
pub struct ReturnFailure {
    pub error: LocalQueueError,
    pub message: String,
}

/// How a release ends.
#[derive(Debug, PartialEq, Eq)]
pub struct ReleaseEnd {
    pub result: Result<(), LocalQueueError>,
    /// Number of returned jobs, to be announced to the hooks.
    pub announce: Option<usize>,
}

/// The result that a finished release left for everyone who asks again.
pub open spec fn stored_result(release_error: Option<String>) -> Result<(), LocalQueueError> {
    match release_error {
        Some(error) => Err(LocalQueueError::ReturnJobsError(error)),
        None => Ok(()),
    }
}

impl<C> LocalQueueState<C> {
    /// The state with fewer accepted jobs.
    pub open spec fn with_settled(self, count: int) -> LocalQueueState<C> {
        LocalQueueState {
            accepted_tracker: AcceptedWorkTracker {
                accepted: (self.accepted_tracker.accepted - count) as usize,
            },
            ..self
        }
    }
}

impl<C> LocalQueue<C> {
    /// Takes back the jobs that wait, because they have waited for too long.
    pub fn set_mode_ttl_expired(&mut self) -> (expiry: TtlExpiry<C>)
        requires
            old(self).0.wf(),
        ensures
            final(self).0.wf(),
            crate::local_queue::capacity::capacity_step(
                old(self).0,
                crate::local_queue::capacity::CapacityStep::Quiet,
                final(self).0,
            ),
            expiry is Expired <==> old(self).0.mode == LocalQueueMode::Waiting,
            old(self).0.mode != LocalQueueMode::Waiting ==> *final(self) == *old(self),
            old(self).0.mode == LocalQueueMode::Waiting ==> final(self).0.mode
                == LocalQueueMode::TtlExpired,
            final(self).0.accepted_tracker == old(self).0.accepted_tracker,
            expiry matches TtlExpiry::Expired(jobs) ==> jobs@.to_multiset()
                == crate::local_queue::buffers::all_jobs(
                old(self).0.job_queues.contents(),
            ).to_multiset(),
            if old(self).0.mode != LocalQueueMode::Waiting {
                &&& expiry == TtlExpiry::<C>::NotWaiting
                &&& *final(self) == *old(self)
            } else {
                &&& expiry matches TtlExpiry::Expired(jobs) && jobs@
                    == crate::local_queue::buffers::all_jobs(old(self).0.job_queues.contents())
                    && jobs@.len() == old(self).0.buffered()
                &&& final(self).0 == (LocalQueueState {
                    mode: LocalQueueMode::TtlExpired,
                    job_queues: final(self).0.job_queues,
                    ..old(self).0
                })
                &&& final(self).0.job_queues.contents()
                    == crate::local_queue::buffers::queues_drained(
                    old(self).0.job_queues.contents(),
                )
                &&& final(self).0.job_queues.next_queue == old(self).0.job_queues.next_queue
                &&& final(self).0.buffered() == 0
            },
    {
        if self.0.mode != LocalQueueMode::Waiting {
            return TtlExpiry::NotWaiting;
        }
        self.0.mode = LocalQueueMode::TtlExpired;
        TtlExpiry::Expired(self.0.job_queues.drain())
    }

    /// Settles jobs that were taken out of the buffers and are done with: completed,
    /// failed or returned.
    pub fn settle(&mut self, jobs_count: usize)
        requires
            old(self).0.wf(),
            old(self).0.buffered() + jobs_count <= old(self).0.accepted_tracker.accepted,
        ensures
            final(self).0.wf(),
            final(self).0 == old(self).0.with_settled(jobs_count as int),
            final(self).0.accepted_tracker.accepted == old(self).0.accepted_tracker.accepted
                - jobs_count,
            final(self).0.mode == old(self).0.mode,
            final(self).0.job_queues == old(self).0.job_queues,
            crate::local_queue::capacity::capacity_step(
                old(self).0,
                crate::local_queue::capacity::CapacityStep::Settled(jobs_count as int),
                final(self).0,
            ),
    {
        self.0.accepted_tracker.settled(jobs_count);
    }

    /// Settles expired jobs, whether they could be returned or not. Only those that
    /// were returned are announced.
    pub fn ttl_jobs_returned(
        &mut self,
        jobs_count: usize,
        result: &Result<(), LocalQueueError>,
    ) -> (announce: Option<usize>)
        requires
            old(self).0.wf(),
            old(self).0.buffered() + jobs_count <= old(self).0.accepted_tracker.accepted,
        ensures
            final(self).0.wf(),
            final(self).0 == old(self).0.with_settled(jobs_count as int),
            final(self).0.accepted_tracker.accepted == old(self).0.accepted_tracker.accepted
                - jobs_count,
            final(self).0.mode == old(self).0.mode,
            final(self).0.job_queues == old(self).0.job_queues,
            crate::local_queue::capacity::capacity_step(
                old(self).0,
                crate::local_queue::capacity::CapacityStep::Settled(jobs_count as int),
                final(self).0,
            ),
            announce is Some <==> result is Ok,
            announce matches Some(count) ==> count == jobs_count,
            announce == if result is Ok {
                Some(jobs_count)
            } else {
                None
            },
    {
        self.settle(jobs_count);
        match result {
            Ok(_) => Some(jobs_count),
            Err(_) => None,
        }
    }

    /// Starts the release of the queue. Callers come one at a time, and each of them
    /// waits for the release that is under way. Whoever comes after a finished
    /// release gets its result.
    pub fn release(&mut self) -> (start: ReleaseStart)
        requires
            old(self).0.wf(),
        ensures
            final(self).0.wf(),
            crate::local_queue::capacity::capacity_step(
                old(self).0,
                crate::local_queue::capacity::CapacityStep::Quiet,
                final(self).0,
            ),
            start is Finished <==> old(self).0.release_finished,
            start matches ReleaseStart::Finished(Ok(_)) ==> old(self).0.release_error is None,
            start matches ReleaseStart::Finished(Err(LocalQueueError::ReturnJobsError(text)))
                ==> old(self).0.release_error == Some(text),
            old(self).0.release_finished ==> *final(self) == *old(self),
            !old(self).0.release_finished ==> final(self).0.mode == LocalQueueMode::Released
                && !final(self).0.refetch_delay.active && start == ReleaseStart::StopClaims(
                old(self).0.shutdown_grace_period,
            ),
            final(self).0.job_queues == old(self).0.job_queues,
            final(self).0.accepted_tracker == old(self).0.accepted_tracker,
            if old(self).0.release_finished {
                &&& start == ReleaseStart::Finished(stored_result(old(self).0.release_error))
                &&& *final(self) == *old(self)
            } else {
                &&& start == ReleaseStart::StopClaims(old(self).0.shutdown_grace_period)
                &&& final(self).0 == (LocalQueueState {
                    mode: LocalQueueMode::Released,
                    refetch_delay: RefetchDelayState {
                        active: false,
                        ..old(self).0.refetch_delay
                    },
                    ..old(self).0
                })
            },
    {
        if self.0.release_finished {
            return ReleaseStart::Finished(
                match &self.0.release_error {
                    Some(error) => Err(LocalQueueError::ReturnJobsError(error.clone())),
                    None => Ok(()),
                },
            );
        }
        self.0.mode = LocalQueueMode::Released;
        self.0.refetch_delay.active = false;
        ReleaseStart::StopClaims(self.0.shutdown_grace_period)
    }

    /// Collects the jobs that a release has to return. Without any, it is finished.
    pub fn collect_released(&mut self) -> (next: ReleaseNext<C>)
        requires
            old(self).0.wf(),
            old(self).0.mode == LocalQueueMode::Released,
            !old(self).0.release_finished,
        ensures
            final(self).0.wf(),
            crate::local_queue::capacity::capacity_step(
                old(self).0,
                crate::local_queue::capacity::CapacityStep::Quiet,
                final(self).0,
            ),
            final(self).0.buffered() == 0,
            final(self).0 == (LocalQueueState {
                job_queues: final(self).0.job_queues,
                release_finished: old(self).0.buffered() == 0,
                ..old(self).0
            }),
            final(self).0.job_queues.contents() == crate::local_queue::buffers::queues_drained(
                old(self).0.job_queues.contents(),
            ),
            final(self).0.job_queues.next_queue == old(self).0.job_queues.next_queue,
            if old(self).0.buffered() == 0 {
                next == ReleaseNext::<C>::Finished
            } else {
                next matches ReleaseNext::Return(jobs) && jobs@
                    == crate::local_queue::buffers::all_jobs(old(self).0.job_queues.contents())
                    && jobs@.len() == old(self).0.buffered()
            },
    {
        let jobs: Vec<Job<C>> = self.0.job_queues.drain();
        if jobs.len() == 0 {
            self.0.release_finished = true;
            ReleaseNext::Finished
        } else {
            ReleaseNext::Return(jobs)
        }
    }

    /// Finishes a release whose jobs were returned, or could not be. Either way they
    /// are settled. The failure is kept for those who ask later.
    pub fn finish_release(
        &mut self,
        jobs_count: usize,
        result: Result<(), ReturnFailure>,
    ) -> (end: ReleaseEnd)
        requires
            old(self).0.wf(),
            old(self).0.mode == LocalQueueMode::Released,
            !old(self).0.release_finished,
            old(self).0.buffered() + jobs_count <= old(self).0.accepted_tracker.accepted,
        ensures
            final(self).0.wf(),
            match result {
                Ok(_) => {
                    &&& final(self).0 == (LocalQueueState {
                        release_finished: true,
                        ..old(self).0.with_settled(jobs_count as int)
                    })
                    &&& end.result == Ok::<(), LocalQueueError>(())
                    &&& end.announce == Some(jobs_count)
                },
                Err(failure) => {
                    &&& final(self).0 == (LocalQueueState {
                        release_finished: true,
                        release_error: Some(failure.message),
                        ..old(self).0.with_settled(jobs_count as int)
                    })
                    &&& end.result == Err::<(), LocalQueueError>(failure.error)
                    &&& end.announce is None
                },
            },
            crate::local_queue::capacity::capacity_step(
                old(self).0,
                crate::local_queue::capacity::CapacityStep::Settled(jobs_count as int),
                final(self).0,
            ),
            stored_result(final(self).0.release_error) is Ok <==> result is Ok,
            final(self).0.release_finished,
            final(self).0.mode == LocalQueueMode::Released,
            final(self).0.accepted_tracker.accepted == old(self).0.accepted_tracker.accepted
                - jobs_count,
            result matches Ok(_) ==> end.result is Ok && end.announce == Some(jobs_count)
                && final(self).0.release_error is None,
            result matches Err(failure) ==> end.result == Err::<(), LocalQueueError>(failure.error)
                && end.announce is None && final(self).0.release_error == Some(failure.message),
    {
        self.settle(jobs_count);
        self.0.release_finished = true;
        match result {
            Ok(_) => ReleaseEnd { result: Ok(()), announce: Some(jobs_count) },
            Err(failure) => {
                self.0.release_error = Some(failure.message);
                ReleaseEnd { result: Err(failure.error), announce: None }
            },
        }
    }
}

/// Law: everyone who asks after a finished release gets the text that it failed with, or
/// hears that it did not fail.
pub proof fn law_a_finished_release_keeps_its_answer(text: String)
    ensures
        stored_result(None) == Ok::<(), LocalQueueError>(()),
        stored_result(Some(text)) == Err::<(), LocalQueueError>(
            LocalQueueError::ReturnJobsError(text),
        ),
{
}

/// Law: settling lets go of accepted jobs and of nothing else.
pub proof fn law_settling_changes_the_count_alone<C>(state: LocalQueueState<C>, count: int)
    requires
        0 <= count <= state.accepted_tracker.accepted,
    ensures
        state.with_settled(count).accepted_tracker.accepted == state.accepted_tracker.accepted
            - count,
        state.with_settled(count) == (LocalQueueState {
            accepted_tracker: state.with_settled(count).accepted_tracker,
            ..state
        }),
{
}

/// Law: what comes in and what is given back on release are the same jobs. If a wave
/// is buffered and nothing is taken out, the release returns every job of the wave
/// and every job that waited before it, each exactly once.
pub proof fn law_release_returns_every_job<C>(
    queues: Seq<(Seq<char>, Seq<Job<C>>)>,
    received: Seq<crate::claim_coordinator::QueueJobs<C>>,
    returned: Seq<Job<C>>,
)
    requires
        returned == crate::local_queue::buffers::all_jobs(
            crate::local_queue::fetch::queues_received(queues, received),
        ),
    ensures
        returned.to_multiset() == crate::local_queue::buffers::all_jobs(queues).to_multiset().add(
            crate::local_queue::fetch::received_all(received).to_multiset(),
        ),
{
    crate::local_queue::fetch::law_received_jobs_are_all_buffered(queues, received);
}

} // verus!
