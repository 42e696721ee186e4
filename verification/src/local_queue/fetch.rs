//! Fetching jobs into the buffers.

use std::time::Duration;

use vstd::prelude::*;

use crate::claim_coordinator::{count_claimed, ClaimWave, QueueJobs};
use crate::job::Job;
use crate::local_queue::config::RefetchDelayConfig;
use crate::local_queue::state::{
    AcceptedWorkTracker, LocalQueue, LocalQueueMode, LocalQueueState, ModeTransition,
    RefetchDelayState,
};

verus! {

/// What the fetch loop was told to wait for.
#[derive(Debug, Clone, Copy, PartialEq, Eq, Structural)]
pub enum FetchLoopEvent {
    /// The loop starts, or what it waited for has happened.
    Woken,
    /// A fetch is over.
    Fetched,
}

/// What the fetch loop does next.
#[derive(Debug, PartialEq, Eq)]
pub enum FetchLoopAction {
    /// End the loop.
    Stop,
    /// Announce the change of mode and end the loop.
    StopReleased(ModeTransition),
    /// Wait until the state of the queue changes.
    AwaitState,
    /// Wait until the state changes or accepted jobs are settled.
    AwaitStateOrCapacity,
    /// Fetch, and come back with [`FetchLoopEvent::Fetched`].
    Fetch,
    /// Wait for this long, or until the state changes.
    SleepOrState(Duration),
}

/// How a fetch starts.
#[derive(Debug, Clone, Copy, PartialEq, Eq, Structural)]
pub enum FetchStart {
    /// There is nothing to fetch now.
    Skip,
    /// Run a claim wave of this capacity that nothing calls off.
    ClaimWave(usize),
}

/// What is to be done with the jobs of a fetch.
#[derive(Debug, PartialEq, Eq)]
pub enum Delivery<C> {
    /// Buffer the jobs.
    Jobs { queues: Vec<QueueJobs<C>>, fetched_max: bool },
    /// Release the queue: it found nothing and is not to keep polling.
    Release,
    Nothing,
}

/// What came of a fetch.
#[derive(Debug, PartialEq, Eq)]
pub enum FetchOutcome<C, E> {
    /// The wave went through.
    Fetched {
        /// Number of jobs, to be announced to the hooks.
        jobs_count: usize,
        /// The delay to start before anything else, if few jobs came in.
        delay: Option<RefetchDelayConfig>,
        delivery: Delivery<C>,
    },
    Paused,
    Failed(E),
}

impl<C> LocalQueueState<C> {
    /// Whether a fetch may start.
    pub open spec fn can_fetch(self) -> bool {
        self.mode == LocalQueueMode::Polling && !self.fetch_in_progress
            && !self.refetch_delay.active
    }

    /// Room for more jobs.
    pub open spec fn free(self) -> int {
        crate::local_queue::state::free_capacity(
            self.config.size as int,
            self.accepted_tracker.accepted as int,
        )
    }

    /// What the fetch loop does at its top: stop if the queue is released, wait if
    /// nothing may be fetched or nothing fits, and otherwise fetch.
    pub open spec fn fetch_plan(self) -> FetchLoopAction {
        if self.mode == LocalQueueMode::Released {
            FetchLoopAction::Stop
        } else if !self.can_fetch() {
            FetchLoopAction::AwaitState
        } else if self.free() == 0 {
            FetchLoopAction::AwaitStateOrCapacity
        } else {
            FetchLoopAction::Fetch
        }
    }

    /// Whether a fetch that brought in `jobs` jobs used up the capacity it asked for.
    pub open spec fn is_fetched_max(jobs: int, capacity: int) -> bool {
        jobs >= capacity && capacity > 0
    }

    /// The delay that follows a fetch: none if the fetch used up its capacity or
    /// brought in more jobs than the threshold.
    pub open spec fn delay_after(self, jobs: int, capacity: int) -> Option<RefetchDelayConfig> {
        match self.config.refetch_delay {
            Some(delay) if !Self::is_fetched_max(jobs, capacity) && jobs <= delay.threshold => Some(
                delay,
            ),
            _ => None,
        }
    }
}

/// The queues after those of a wave came in, one after the other.
pub open spec fn queues_received<C>(
    queues: Seq<(Seq<char>, Seq<Job<C>>)>,
    received: Seq<QueueJobs<C>>,
) -> Seq<(Seq<char>, Seq<Job<C>>)>
    decreases received.len(),
{
    if received.len() == 0 {
        queues
    } else {
        crate::local_queue::buffers::queues_pushed(
            queues_received(queues, received.drop_last()),
            received.last().identifier@,
            received.last().jobs@,
        )
    }
}

/// The jobs of a wave, one queue after the other.
pub open spec fn received_all<C>(received: Seq<QueueJobs<C>>) -> Seq<Job<C>>
    decreases received.len(),
{
    if received.len() == 0 {
        Seq::empty()
    } else {
        received_all(received.drop_last()) + received.last().jobs@
    }
}

impl<C> LocalQueue<C> {
    /// What the loop does at its top.
    fn plan_fetch(&self) -> (action: FetchLoopAction)
        ensures
            action == self.0.fetch_plan(),
            action is Stop <==> self.0.mode == LocalQueueMode::Released,
            !(action is StopReleased) && !(action is SleepOrState),
            action is AwaitState <==> self.0.mode != LocalQueueMode::Released && (self.0.mode
                != LocalQueueMode::Polling || self.0.fetch_in_progress
                || self.0.refetch_delay.active),
            action is AwaitStateOrCapacity <==> self.0.mode == LocalQueueMode::Polling
                && !self.0.fetch_in_progress && !self.0.refetch_delay.active
                && self.0.accepted_tracker.accepted >= self.0.config.size,
    {
        if self.0.mode == LocalQueueMode::Released {
            FetchLoopAction::Stop
        } else if !(self.0.mode == LocalQueueMode::Polling && !self.0.fetch_in_progress
            && !self.0.refetch_delay.active) {
            FetchLoopAction::AwaitState
        } else if self.0.accepted_tracker.free_capacity(self.0.config.size) == 0 {
            FetchLoopAction::AwaitStateOrCapacity
        } else {
            FetchLoopAction::Fetch
        }
    }

    /// Carries the fetch loop on by one event.
    ///
    /// The loop ends when the queue is released. A queue that is not to keep polling
    /// is released by the loop itself once a fetch leaves it polling. Otherwise the
    /// loop pauses for the poll interval after a fetch, unless another fetch was asked
    /// for in the meantime.
    pub fn schedule_fetch(&mut self, event: FetchLoopEvent) -> (action: FetchLoopAction)
        requires
            old(self).0.wf(),
        ensures
            final(self).0.wf(),
            crate::local_queue::capacity::capacity_step(
                old(self).0,
                crate::local_queue::capacity::CapacityStep::Quiet,
                final(self).0,
            ),
            action is Stop <==> old(self).0.mode == LocalQueueMode::Released,
            action is StopReleased <==> event == FetchLoopEvent::Fetched && old(self).0.mode
                == LocalQueueMode::Polling && !old(self).0.continuous,
            final(self).0.mode == LocalQueueMode::Released <==> action is Stop
                || action is StopReleased,
            !(action is StopReleased) ==> final(self).0.mode == old(self).0.mode,
            old(self).0.mode != LocalQueueMode::Polling && old(self).0.mode
                != LocalQueueMode::Released ==> action is AwaitState,
            event == FetchLoopEvent::Woken && old(self).0.mode == LocalQueueMode::Polling ==> {
                &&& action is AwaitState <==> old(self).0.fetch_in_progress || old(
                    self,
                ).0.refetch_delay.active
                &&& action is AwaitStateOrCapacity <==> !old(self).0.fetch_in_progress && !old(
                    self,
                ).0.refetch_delay.active && old(self).0.accepted_tracker.accepted >= old(
                    self,
                ).0.config.size
                &&& action is Fetch <==> !old(self).0.fetch_in_progress && !old(
                    self,
                ).0.refetch_delay.active && old(self).0.accepted_tracker.accepted < old(
                    self,
                ).0.config.size
            },
            event == FetchLoopEvent::Fetched && old(self).0.mode == LocalQueueMode::Polling && old(
                self,
            ).0.continuous ==> {
                let wanted = old(self).0.fetch_again || old(self).0.refetch_delay.fetch_on_complete;
                &&& !final(self).0.fetch_again && !final(self).0.refetch_delay.fetch_on_complete
                &&& !wanted ==> action == FetchLoopAction::SleepOrState(old(self).0.poll_interval)
                &&& wanted ==> {
                    &&& action is AwaitState <==> old(self).0.fetch_in_progress || old(
                        self,
                    ).0.refetch_delay.active
                    &&& action is AwaitStateOrCapacity <==> !old(self).0.fetch_in_progress && !old(
                        self,
                    ).0.refetch_delay.active && old(self).0.accepted_tracker.accepted >= old(
                        self,
                    ).0.config.size
                    &&& action is Fetch <==> !old(self).0.fetch_in_progress && !old(
                        self,
                    ).0.refetch_delay.active && old(self).0.accepted_tracker.accepted < old(
                        self,
                    ).0.config.size
                }
            },
            final(self).0.job_queues == old(self).0.job_queues,
            if event == FetchLoopEvent::Woken || old(self).0.mode != LocalQueueMode::Polling {
                &&& *final(self) == *old(self)
                &&& action == old(self).0.fetch_plan()
            } else if old(self).0.continuous {
                &&& final(self).0 == (LocalQueueState {
                    fetch_again: false,
                    refetch_delay: RefetchDelayState {
                        fetch_on_complete: false,
                        ..old(self).0.refetch_delay
                    },
                    ..old(self).0
                })
                &&& action == if old(self).0.fetch_again || old(
                    self,
                ).0.refetch_delay.fetch_on_complete {
                    final(self).0.fetch_plan()
                } else {
                    FetchLoopAction::SleepOrState(old(self).0.poll_interval)
                }
            } else {
                &&& final(self).0 == (LocalQueueState {
                    mode: LocalQueueMode::Released,
                    ..old(self).0
                })
                &&& action == FetchLoopAction::StopReleased(
                    ModeTransition {
                        old_mode: LocalQueueMode::Polling,
                        new_mode: LocalQueueMode::Released,
                    },
                )
            },
    {
        if event == FetchLoopEvent::Woken || self.0.mode != LocalQueueMode::Polling {
            return self.plan_fetch();
        }
        if !self.0.continuous {
            return match self.set_mode(LocalQueueMode::Released) {
                Some(change) => FetchLoopAction::StopReleased(change),
                None => FetchLoopAction::Stop,
            };
        }
        let should_fetch_again: bool = self.0.fetch_again;
        let refetch_delay_wants_fetch: bool = self.0.refetch_delay.fetch_on_complete;
        self.0.fetch_again = false;
        self.0.refetch_delay.fetch_on_complete = false;
        if should_fetch_again || refetch_delay_wants_fetch {
            self.plan_fetch()
        } else {
            FetchLoopAction::SleepOrState(self.0.poll_interval)
        }
    }

    /// Starts a fetch, unless one is under way or a delay is active. A fetch that a
    /// delay holds back is remembered and made up for when the delay is over.
    pub fn start_fetch(&mut self) -> (start: FetchStart)
        requires
            old(self).0.wf(),
        ensures
            final(self).0.wf(),
            start is ClaimWave <==> !old(self).0.fetch_in_progress && !old(
                self,
            ).0.refetch_delay.active,
            old(self).0.accepted_tracker.accepted <= old(self).0.config.size ==> (start matches
                FetchStart::ClaimWave(capacity) ==> capacity == old(self).0.config.size - old(
                self,
            ).0.accepted_tracker.accepted),
            crate::local_queue::capacity::capacity_step(
                old(self).0,
                match start {
                    FetchStart::Skip => crate::local_queue::capacity::CapacityStep::Quiet,
                    FetchStart::ClaimWave(
                        capacity,
                    ) => crate::local_queue::capacity::CapacityStep::FetchStarted(capacity as int),
                },
                final(self).0,
            ),
            start is ClaimWave ==> final(self).0.fetch_in_progress && !final(self).0.fetch_again
                && final(self).0.refetch_delay.counter == 0,
            !old(self).0.fetch_in_progress && old(self).0.refetch_delay.active
                ==> final(self).0.refetch_delay.fetch_on_complete
                && !final(self).0.fetch_in_progress,
            old(self).0.accepted_tracker.accepted > old(self).0.config.size ==> (start matches
                FetchStart::ClaimWave(capacity) ==> capacity == 0),
            final(self).0.mode == old(self).0.mode,
            final(self).0.job_queues == old(self).0.job_queues,
            final(self).0.accepted_tracker == old(self).0.accepted_tracker,
            if old(self).0.fetch_in_progress {
                &&& start == FetchStart::Skip
                &&& *final(self) == *old(self)
            } else if old(self).0.refetch_delay.active {
                &&& start == FetchStart::Skip
                &&& final(self).0 == (LocalQueueState {
                    refetch_delay: RefetchDelayState {
                        fetch_on_complete: true,
                        ..old(self).0.refetch_delay
                    },
                    ..old(self).0
                })
            } else {
                &&& start == FetchStart::ClaimWave(old(self).0.free() as usize)
                &&& final(self).0 == (LocalQueueState {
                    fetch_in_progress: true,
                    fetch_again: false,
                    refetch_delay: RefetchDelayState { counter: 0, ..old(self).0.refetch_delay },
                    ..old(self).0
                })
            },
    {
        if self.0.fetch_in_progress {
            return FetchStart::Skip;
        }
        if self.0.refetch_delay.active {
            self.0.refetch_delay.fetch_on_complete = true;
            return FetchStart::Skip;
        }
        self.0.fetch_in_progress = true;
        self.0.fetch_again = false;
        self.0.refetch_delay.counter = 0;
        FetchStart::ClaimWave(self.0.accepted_tracker.free_capacity(self.0.config.size))
    }

    /// Ends a fetch whose wave had the given capacity, and says what is to be done
    /// with what it brought in. A wave that was paused or failed changes nothing.
    pub fn finish_fetch<E>(&mut self, capacity: usize, result: Result<ClaimWave<C>, E>) -> (outcome:
        FetchOutcome<C, E>)
        requires
            old(self).0.wf(),
            result matches Ok(ClaimWave::Claimed(queues))
                ==> crate::claim_coordinator::claimed_count(queues@) <= usize::MAX,
        ensures
            final(self).0.wf(),
            final(self).0 == (LocalQueueState { fetch_in_progress: false, ..old(self).0 }),
            crate::local_queue::capacity::capacity_step(
                old(self).0,
                crate::local_queue::capacity::CapacityStep::FetchFinished(
                    match result {
                        Ok(ClaimWave::Claimed(queues)) => crate::claim_coordinator::claimed_count(
                            queues@,
                        ) as int,
                        _ => 0,
                    },
                ),
                final(self).0,
            ),
            !final(self).0.fetch_in_progress,
            final(self).0.mode == old(self).0.mode,
            final(self).0.job_queues == old(self).0.job_queues,
            final(self).0.accepted_tracker == old(self).0.accepted_tracker,
            result matches Ok(ClaimWave::Claimed(queues)) ==> (outcome matches
                FetchOutcome::Fetched { jobs_count, delay, delivery } && {
                &&& jobs_count == received_all(queues@).len()
                &&& delay == match old(self).0.config.refetch_delay {
                    Some(config) => if (capacity == 0 || jobs_count < capacity) && jobs_count
                        <= config.threshold {
                        Some(config)
                    } else {
                        None
                    },
                    None => None,
                }
                &&& jobs_count > 0 ==> (delivery matches Delivery::Jobs {
                    queues: delivered,
                    fetched_max,
                } && delivered == queues && fetched_max == (capacity > 0 && jobs_count
                    >= capacity))
                &&& jobs_count == 0 && old(self).0.continuous ==> delivery is Nothing
                &&& jobs_count == 0 && !old(self).0.continuous ==> delivery is Release
            }),
            match result {
                Err(error) => outcome == FetchOutcome::<C, E>::Failed(error),
                Ok(ClaimWave::Paused) => outcome == FetchOutcome::<C, E>::Paused,
                Ok(ClaimWave::Claimed(queues)) => {
                    let count = crate::claim_coordinator::claimed_count(queues@) as usize;
                    outcome == FetchOutcome::<C, E>::Fetched {
                        jobs_count: count,
                        delay: old(self).0.delay_after(count as int, capacity as int),
                        delivery: if count > 0 {
                            Delivery::Jobs {
                                queues,
                                fetched_max: LocalQueueState::<C>::is_fetched_max(
                                    count as int,
                                    capacity as int,
                                ),
                            }
                        } else if !old(self).0.continuous {
                            Delivery::Release
                        } else {
                            Delivery::Nothing
                        },
                    }
                },
            },
    {
        self.0.fetch_in_progress = false;
        match result {
            Err(error) => FetchOutcome::Failed(error),
            Ok(ClaimWave::Paused) => FetchOutcome::Paused,
            Ok(ClaimWave::Claimed(queues)) => {
                let jobs_count: usize = count_claimed(&queues);
                proof {
                    law_all_received_jobs_are_counted(queues@);
                }
                let fetched_max: bool = jobs_count >= capacity && capacity > 0;
                let delay: Option<RefetchDelayConfig> = match self.0.config.refetch_delay {
                    Some(refetch_delay) => {
                        if fetched_max || jobs_count > refetch_delay.threshold {
                            None
                        } else {
                            Some(refetch_delay)
                        }
                    },
                    None => None,
                };
                let delivery: Delivery<C> = if jobs_count > 0 {
                    Delivery::Jobs { queues, fetched_max }
                } else if !self.0.continuous {
                    Delivery::Release
                } else {
                    Delivery::Nothing
                };
                FetchOutcome::Fetched { jobs_count, delay, delivery }
            },
        }
    }

    /// Buffers what a fetch brought in. The jobs count as accepted from here on, and
    /// the queue waits for workers to take them. A queue that was released in the
    /// meantime keeps the jobs for its release to return.
    pub fn received_jobs(&mut self, queues: Vec<QueueJobs<C>>) -> (change: Option<ModeTransition>)
        requires
            old(self).0.wf(),
            old(self).0.accepted_tracker.accepted + crate::claim_coordinator::claimed_count(
                queues@,
            ) <= usize::MAX,
        ensures
            final(self).0.wf(),
            crate::local_queue::capacity::capacity_step(
                old(self).0,
                crate::local_queue::capacity::CapacityStep::Received(
                    crate::claim_coordinator::claimed_count(queues@) as int,
                ),
                final(self).0,
            ),
            final(self).0 == (LocalQueueState {
                mode: crate::local_queue::state::mode_after(
                    old(self).0.mode,
                    LocalQueueMode::Waiting,
                ),
                job_queues: final(self).0.job_queues,
                accepted_tracker: AcceptedWorkTracker {
                    accepted: (old(self).0.accepted_tracker.accepted
                        + crate::claim_coordinator::claimed_count(queues@)) as usize,
                },
                ..old(self).0
            }),
            final(self).0.job_queues.contents() == queues_received(
                old(self).0.job_queues.contents(),
                queues@,
            ),
            final(self).0.job_queues.next_queue == old(self).0.job_queues.next_queue,
            final(self).0.accepted_tracker.accepted == old(self).0.accepted_tracker.accepted
                + received_all(queues@).len(),
            old(self).0.mode != LocalQueueMode::Released ==> final(self).0.mode
                == LocalQueueMode::Waiting,
            old(self).0.mode == LocalQueueMode::Released ==> final(self).0.mode
                == LocalQueueMode::Released,
            change is Some <==> old(self).0.mode != LocalQueueMode::Released && old(self).0.mode
                != LocalQueueMode::Waiting,
            crate::local_queue::buffers::all_jobs(
                final(self).0.job_queues.contents(),
            ).to_multiset() == crate::local_queue::buffers::all_jobs(
                old(self).0.job_queues.contents(),
            ).to_multiset().add(received_all(queues@).to_multiset()),
            final(self).0.buffered() == old(self).0.buffered()
                + crate::claim_coordinator::claimed_count(queues@),
            change == crate::local_queue::state::transition(
                old(self).0.mode,
                final(self).0.mode,
            ),
    {
        let ghost given = queues@;
        let ghost contents = self.0.job_queues.contents();
        let count: usize = count_claimed(&queues);
        assert(given.take(0) =~= Seq::<QueueJobs<C>>::empty());
        for queue in it: queues
            invariant
                it.seq() == given,
                self.0 == (LocalQueueState { job_queues: self.0.job_queues, ..old(self).0 }),
                self.0.job_queues.wf(),
                self.0.job_queues.contents() == queues_received(contents, given.take(it.index())),
                self.0.job_queues.next_queue == old(self).0.job_queues.next_queue,
                self.0.buffered() == old(self).0.buffered()
                    + crate::claim_coordinator::claimed_count(given.take(it.index())),
                old(self).0.buffered() + crate::claim_coordinator::claimed_count(given)
                    <= usize::MAX,
        {
            let ghost index: int = it.index();
            proof {
                assert(given.take(index + 1).drop_last() =~= given.take(index));
                crate::claim_coordinator::lemma_claimed_prefix(given, index + 1);
            }
            self.0.job_queues.push(queue.identifier, queue.jobs);
        }
        assert(given.take(given.len() as int) =~= given);
        proof {
            law_all_received_jobs_are_counted(given);
            law_received_jobs_are_all_buffered(contents, given);
        }
        self.0.accepted_tracker.accept(count);
        self.set_mode(LocalQueueMode::Waiting)
    }
}

/// Law: the fetch loop does not stop before the queue is released, and it always stops
/// then. In every other mode but polling it waits for the state to change, whatever room
/// there is. While polling it waits likewise for a fetch or a delay that is under way,
/// waits for room if none is left, and otherwise fetches.
pub proof fn law_the_loop_runs_until_released<C>(state: LocalQueueState<C>)
    ensures
        state.fetch_plan() is Stop <==> state.mode == LocalQueueMode::Released,
        state.mode != LocalQueueMode::Released && state.mode != LocalQueueMode::Polling
            ==> state.fetch_plan() is AwaitState,
        state.mode == LocalQueueMode::Polling && (state.fetch_in_progress
            || state.refetch_delay.active) ==> state.fetch_plan() is AwaitState,
        state.mode == LocalQueueMode::Polling && !state.fetch_in_progress
            && !state.refetch_delay.active && state.accepted_tracker.accepted >= state.config.size
            ==> state.fetch_plan() is AwaitStateOrCapacity,
        state.mode == LocalQueueMode::Polling && !state.fetch_in_progress
            && !state.refetch_delay.active && state.accepted_tracker.accepted < state.config.size
            ==> state.fetch_plan() is Fetch,
{
}

/// Law: a delay follows a fetch if and only if one is configured, the fetch brought in no
/// more jobs than the threshold, and it did not use up a capacity that it had.
pub proof fn law_few_jobs_lead_to_a_delay<C>(state: LocalQueueState<C>, jobs: int, capacity: int)
    ensures
        LocalQueueState::<C>::is_fetched_max(jobs, capacity) <==> capacity > 0 && jobs >= capacity,
        state.config.refetch_delay is None ==> state.delay_after(jobs, capacity) is None,
        state.config.refetch_delay matches Some(delay) ==> {
            &&& state.delay_after(jobs, capacity) is Some <==> jobs <= delay.threshold && !(
            capacity > 0 && jobs >= capacity)
            &&& state.delay_after(jobs, capacity) matches Some(chosen) ==> chosen == delay
        },
{
}

/// Law: a wave is counted as all the jobs that it holds, one queue after the other.
pub proof fn law_all_received_jobs_are_counted<C>(received: Seq<QueueJobs<C>>)
    ensures
        received_all(received).len() == crate::claim_coordinator::claimed_count(received),
    decreases received.len(),
{
    if received.len() > 0 {
        law_all_received_jobs_are_counted(received.drop_last());
    }
}

/// Law: waves come in one queue after the other. Receiving two parts one by one is
/// receiving both, and one queue is received by pushing its jobs.
pub proof fn law_waves_come_in_queue_by_queue<C>(
    queues: Seq<(Seq<char>, Seq<Job<C>>)>,
    one: Seq<QueueJobs<C>>,
    two: Seq<QueueJobs<C>>,
)
    ensures
        queues_received(queues, one + two) == queues_received(queues_received(queues, one), two),
        received_all(one + two) == received_all(one) + received_all(two),
        one.len() == 0 ==> queues_received(queues, one) == queues && received_all(one).len() == 0,
        one.len() == 1 ==> queues_received(queues, one)
            == crate::local_queue::buffers::queues_pushed(
            queues,
            one[0].identifier@,
            one[0].jobs@,
        ) && received_all(one) == one[0].jobs@,
    decreases two.len(),
{
    if two.len() == 0 {
        assert(one + two =~= one);
        assert(received_all(one) + received_all(two) =~= received_all(one));
    } else {
        law_waves_come_in_queue_by_queue(queues, one, two.drop_last());
        assert((one + two).drop_last() =~= one + two.drop_last());
        assert(received_all(one + two) =~= received_all(one) + received_all(two));
    }
    if one.len() == 1 {
        assert(one.drop_last() =~= Seq::<QueueJobs<C>>::empty());
        assert(queues_received(queues, one.drop_last()) == queues);
        assert(received_all(one.drop_last()) =~= Seq::<Job<C>>::empty());
        assert(received_all(one) =~= one[0].jobs@);
    }
}

/// Law: a fetch never starts for zero jobs, and never for more than fit.
pub proof fn law_planned_fetch_has_room<C>(state: LocalQueueState<C>)
    requires
        state.fetch_plan() is Fetch,
    ensures
        0 < state.free() <= state.config.size,
        state.free() + state.accepted_tracker.accepted == state.config.size,
        !state.fetch_in_progress && !state.refetch_delay.active,
{
}

/// Law: the size of the queue is a cap on the jobs that the process is responsible
/// for. If a fetch starts within the cap, its wave has the capacity that was free at
/// that time, and every claim keeps to its quota, then the process is still within
/// the cap when the jobs of the wave come in. Other jobs may be settled meanwhile.
pub proof fn law_accepted_jobs_stay_within_size<C>(
    before: LocalQueueState<C>,
    coordinator: crate::claim_coordinator::ClaimCoordinator,
    run: crate::claim_coordinator::WaveRun<C>,
    now: LocalQueueState<C>,
)
    requires
        before.accepted_tracker.accepted <= before.config.size,
        run.wf(coordinator),
        run.phase == crate::claim_coordinator::WavePhase::Committing,
        run.capacity == before.free(),
        forall|visit: int|
            0 <= visit < run.claimed@.len() ==> (#[trigger] run.claimed@[visit]).jobs@.len()
                <= crate::claim_coordinator::statement_quota(run.allocation@[visit].1 as int),
        now.config == before.config,
        now.accepted_tracker.accepted <= before.accepted_tracker.accepted,
    ensures
        now.accepted_tracker.accepted + crate::claim_coordinator::claimed_count(run.claimed@)
            <= now.config.size,
{
    crate::claim_coordinator::law_wave_stays_within_capacity(coordinator, run);
}

/// Law: buffering keeps every job of a wave, and every job that was there before.
pub proof fn law_received_jobs_are_all_buffered<C>(
    queues: Seq<(Seq<char>, Seq<Job<C>>)>,
    received: Seq<QueueJobs<C>>,
)
    ensures
        crate::local_queue::buffers::all_jobs(queues_received(queues, received)).to_multiset()
            == crate::local_queue::buffers::all_jobs(queues).to_multiset().add(
            received_all(received).to_multiset(),
        ),
    decreases received.len(),
{
    let before = crate::local_queue::buffers::all_jobs(queues).to_multiset();
    if received.len() == 0 {
        Seq::<Job<C>>::empty().to_multiset_ensures();
        assert(received_all(received).to_multiset() =~= vstd::multiset::Multiset::empty());
        assert(before.add(vstd::multiset::Multiset::empty()) =~= before);
    } else {
        let front = received.drop_last();
        law_received_jobs_are_all_buffered(queues, front);
        crate::local_queue::buffers::law_push_keeps_every_job(
            queues_received(queues, front),
            received.last().identifier@,
            received.last().jobs@,
        );
        vstd::seq_lib::lemma_multiset_commutative(received_all(front), received.last().jobs@);
        assert(before.add(received_all(front).to_multiset()).add(
            received.last().jobs@.to_multiset(),
        ) =~= before.add(
            received_all(front).to_multiset().add(received.last().jobs@.to_multiset()),
        ));
    }
}

} // verus!
