//! Handing buffered jobs to workers.

use vstd::prelude::*;

use crate::job::Job;
use crate::local_queue::state::{LocalQueue, LocalQueueMode, LocalQueueState, ModeTransition};

verus! {

impl<C> LocalQueue<C> {
    /// Takes the next buffered job, if there is one. A released queue gives none.
    ///
    /// The queue goes back to polling when its last job leaves, and when someone asks
    /// for a job after the waiting ones have expired.
    pub fn get_job(&mut self) -> (result: (Option<Job<C>>, Option<ModeTransition>))
        requires
            old(self).0.wf(),
        ensures
            final(self).0.wf(),
            crate::local_queue::capacity::capacity_step(
                old(self).0,
                crate::local_queue::capacity::CapacityStep::Quiet,
                final(self).0,
            ),
            result.1 == crate::local_queue::state::transition(
                old(self).0.mode,
                final(self).0.mode,
            ),
            old(self).0.mode == LocalQueueMode::Released ==> result.0 is None && result.1 is None
                && *final(self) == *old(self),
            old(self).0.mode != LocalQueueMode::Released ==> {
                &&& result.0 is Some <==> exists|i: int|
                    0 <= i < old(self).0.job_queues.queues@.len() && (#[trigger] old(
                        self,
                    ).0.job_queues.queues@[i]).1@.len() > 0
                &&& final(self).0.mode == LocalQueueMode::Polling || final(self).0.mode == old(
                    self,
                ).0.mode
                &&& old(self).0.mode == LocalQueueMode::TtlExpired ==> final(self).0.mode
                    == LocalQueueMode::Polling
                &&& old(self).0.mode != LocalQueueMode::TtlExpired && old(self).0.mode
                    != LocalQueueMode::Polling ==> (final(self).0.mode == LocalQueueMode::Polling
                    <==> result.0 is Some && forall|i: int|
                    0 <= i < final(self).0.job_queues.queues@.len() ==> (
                    #[trigger] final(self).0.job_queues.queues@[i]).1@.len() == 0)
                &&& result.1 is Some <==> final(self).0.mode != old(self).0.mode
                &&& result.1 matches Some(change) ==> change.old_mode == old(self).0.mode
                    && change.new_mode == final(self).0.mode
                &&& final(self).0.accepted_tracker == old(self).0.accepted_tracker
            },
            if old(self).0.mode == LocalQueueMode::Released {
                &&& result.0 is None
                &&& *final(self) == *old(self)
            } else {
                &&& crate::local_queue::buffers::buffers_popped(
                    old(self).0.job_queues,
                    result.0,
                    final(self).0.job_queues,
                )
                &&& final(self).0.mode == if old(self).0.mode == LocalQueueMode::TtlExpired || (
                result.0 is Some && final(self).0.buffered() == 0) {
                    LocalQueueMode::Polling
                } else {
                    old(self).0.mode
                }
                &&& final(self).0 == (LocalQueueState {
                    mode: final(self).0.mode,
                    job_queues: final(self).0.job_queues,
                    ..old(self).0
                })
            },
    {
        if self.0.mode == LocalQueueMode::Released {
            return (None, None);
        }
        let old_mode: LocalQueueMode = self.0.mode;
        let job: Option<Job<C>> = self.0.job_queues.pop_round_robin();
        if old_mode == LocalQueueMode::TtlExpired || (job.is_some() && self.0.job_queues.len()
            == 0) {
            self.0.mode = LocalQueueMode::Polling;
        }
        proof {
            crate::local_queue::buffers::lemma_count_is_zero_iff_empty(self.0.job_queues);
        }
        let new_mode: LocalQueueMode = self.0.mode;
        if new_mode != old_mode {
            (job, Some(ModeTransition { old_mode, new_mode }))
        } else {
            (job, None)
        }
    }
}

} // verus!
