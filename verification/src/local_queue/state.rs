//! What a local queue remembers, and the modes it goes through.

use std::time::Duration;

use vstd::prelude::*;

use crate::local_queue::buffers::QueueBuffers;
use crate::local_queue::config::LocalQueueConfig;

verus! {

/// What a local queue is about.
#[derive(Debug, Clone, Copy, PartialEq, Eq, Structural)]
pub enum LocalQueueMode {
    /// Not running yet.
    Starting,
    /// Fetching jobs.
    Polling,
    /// Jobs are buffered and wait for a worker.
    Waiting,
    /// The buffered jobs waited for too long and went back to the database.
    TtlExpired,
    /// Shut down for good.
    Released,
}

/// A change of mode, to be announced to the hooks and to whoever waits for one.
#[derive(Debug, Clone, Copy, PartialEq, Eq, Structural)]
pub struct ModeTransition {
    pub old_mode: LocalQueueMode,
    pub new_mode: LocalQueueMode,
}

/// Where a refetch delay stands.
#[derive(Debug, Clone, Copy, PartialEq, Eq, Structural)]
pub struct RefetchDelayState {
    pub active: bool,
    /// Whether a fetch was asked for while the delay was active.
    pub fetch_on_complete: bool,
    /// Notifications that came in since the last fetch.
    pub counter: usize,
    /// How many notifications cut the delay short.
    pub abort_threshold: usize,
}

impl Default for RefetchDelayState {
    /// No delay, and no number of notifications that would end one.
    fn default() -> (state: Self)
        ensures
            state == (RefetchDelayState {
                active: false,
                fetch_on_complete: false,
                counter: 0,
                abort_threshold: usize::MAX,
            }),
    {
        RefetchDelayState {
            active: false,
            fetch_on_complete: false,
            counter: 0,
            abort_threshold: usize::MAX,
        }
    }
}

/// Room for jobs under a limit: what is not taken up by accepted ones.
pub open spec fn free_capacity(size: int, accepted: int) -> int {
    if accepted < size {
        size - accepted
    } else {
        0
    }
}

/// Counts the jobs that this process is responsible for: buffered, running, and
/// waiting for their completion or failure to be stored.
#[derive(Debug, Clone, Copy, PartialEq, Eq, Structural)]
pub struct AcceptedWorkTracker {
    pub accepted: usize,
}

impl AcceptedWorkTracker {
    /// Takes responsibility for more jobs.
    pub fn accept(&mut self, count: usize)
        requires
            old(self).accepted + count <= usize::MAX,
        ensures
            final(self).accepted == old(self).accepted + count,
    {
        self.accepted = self.accepted + count;
    }

    /// Lets jobs go that are done with.
    pub fn settled(&mut self, count: usize)
        requires
            count <= old(self).accepted,
        ensures
            final(self).accepted == old(self).accepted - count,
    {
        self.accepted = self.accepted - count;
    }

    /// Room that is left under the limit `size`.
    pub fn free_capacity(&self, size: usize) -> (free: usize)
        ensures
            free == free_capacity(size as int, self.accepted as int),
            self.accepted >= size ==> free == 0,
            self.accepted < size ==> free == size - self.accepted,
    {
        if self.accepted < size {
            size - self.accepted
        } else {
            0
        }
    }
}

/// What a local queue is made from.
pub struct LocalQueueParams {
    pub config: LocalQueueConfig,
    pub worker_id: String,
    pub poll_interval: Duration,
    /// Whether the queue keeps polling after it has found nothing.
    pub continuous: bool,
    pub shutdown_grace_period: Duration,
}

/// The state of a local queue.
pub struct LocalQueueState<C> {
    pub mode: LocalQueueMode,
    pub job_queues: QueueBuffers<C>,
    pub fetch_in_progress: bool,
    /// Whether another fetch is to follow without a pause.
    pub fetch_again: bool,
    pub refetch_delay: RefetchDelayState,
    pub release_finished: bool,
    /// Why the release failed, if it did.
    pub release_error: Option<String>,
    pub config: LocalQueueConfig,
    pub worker_id: String,
    pub accepted_tracker: AcceptedWorkTracker,
    pub poll_interval: Duration,
    pub shutdown_grace_period: Duration,
    pub continuous: bool,
}

impl<C> LocalQueueState<C> {
    /// Number of buffered jobs.
    pub open spec fn buffered(self) -> nat {
        crate::local_queue::buffers::job_count(self.job_queues.contents())
    }

    /// Whether the books are in order: every buffered job counts as accepted, and a
    /// release that is finished left the queue released.
    pub open spec fn wf(self) -> bool {
        &&& self.job_queues.wf()
        &&& self.buffered() <= self.accepted_tracker.accepted
        &&& self.release_finished ==> self.mode == LocalQueueMode::Released
        &&& self.release_error is Some ==> self.release_finished
    }

    /// Whether this is the state of a queue that was made from `params` and has not
    /// started.
    pub open spec fn is_new(self, params: LocalQueueParams) -> bool {
        &&& self.mode == LocalQueueMode::Starting
        &&& self.job_queues.contents() == Seq::<(Seq<char>, Seq<crate::job::Job<C>>)>::empty()
        &&& self.job_queues.next_queue == 0
        &&& !self.fetch_in_progress
        &&& !self.fetch_again
        &&& self.refetch_delay == (RefetchDelayState {
            active: false,
            fetch_on_complete: false,
            counter: 0,
            abort_threshold: usize::MAX,
        })
        &&& !self.release_finished
        &&& self.release_error is None
        &&& self.config == params.config
        &&& self.worker_id == params.worker_id
        &&& self.accepted_tracker.accepted == 0
        &&& self.poll_interval == params.poll_interval
        &&& self.shutdown_grace_period == params.shutdown_grace_period
        &&& self.continuous == params.continuous
    }

    /// Creates the state of a queue that has not started.
    pub fn new(params: LocalQueueParams) -> (state: Self)
        ensures
            state.wf(),
            state.is_new(params),
            state.mode == LocalQueueMode::Starting,
            state.job_queues.queues@.len() == 0,
            state.config == params.config,
            state.worker_id == params.worker_id,
            state.poll_interval == params.poll_interval,
            state.shutdown_grace_period == params.shutdown_grace_period,
            state.continuous == params.continuous,
            state.accepted_tracker.accepted == 0,
            !state.fetch_in_progress && !state.fetch_again && !state.release_finished,
            !state.refetch_delay.active && !state.refetch_delay.fetch_on_complete,
    {
        LocalQueueState {
            mode: LocalQueueMode::Starting,
            job_queues: QueueBuffers::new(),
            fetch_in_progress: false,
            fetch_again: false,
            refetch_delay: RefetchDelayState::default(),
            release_finished: false,
            release_error: None,
            config: params.config,
            worker_id: params.worker_id,
            accepted_tracker: AcceptedWorkTracker { accepted: 0 },
            poll_interval: params.poll_interval,
            shutdown_grace_period: params.shutdown_grace_period,
            continuous: params.continuous,
        }
    }
}

/// A local queue. Each method is one step that nothing else interrupts; what happens
/// between the steps is up to the caller.
pub struct LocalQueue<C>(pub LocalQueueState<C>);

/// The mode after a request for `new_mode`. A released queue stays released.
pub open spec fn mode_after(mode: LocalQueueMode, new_mode: LocalQueueMode) -> LocalQueueMode {
    if mode == LocalQueueMode::Released {
        mode
    } else {
        new_mode
    }
}

/// The change of mode to announce: none if the mode is the same.
pub open spec fn transition(
    old_mode: LocalQueueMode,
    new_mode: LocalQueueMode,
) -> Option<ModeTransition> {
    if old_mode == new_mode {
        None
    } else {
        Some(ModeTransition { old_mode, new_mode })
    }
}

impl<C> LocalQueue<C> {
    /// Creates a queue that has not started.
    pub fn new(params: LocalQueueParams) -> (queue: Self)
        ensures
            queue.0.wf(),
            queue.0.is_new(params),
            queue.0.mode == LocalQueueMode::Starting,
            queue.0.job_queues.queues@.len() == 0,
            queue.0.config == params.config,
            queue.0.worker_id == params.worker_id,
            queue.0.poll_interval == params.poll_interval,
            queue.0.shutdown_grace_period == params.shutdown_grace_period,
            queue.0.continuous == params.continuous,
            queue.0.accepted_tracker.accepted == 0,
            !queue.0.fetch_in_progress && !queue.0.fetch_again && !queue.0.release_finished,
            !queue.0.refetch_delay.active && !queue.0.refetch_delay.fetch_on_complete,
    {
        LocalQueue(LocalQueueState::new(params))
    }

    /// Changes the mode, if it is another one.
    ///
    /// Release is terminal. In particular, a database claim that is under way may
    /// finish after shutdown has started and must not revive the queue.
    pub fn set_mode(&mut self, new_mode: LocalQueueMode) -> (change: Option<ModeTransition>)
        requires
            old(self).0.wf(),
        ensures
            final(self).0.wf(),
            final(self).0 == (LocalQueueState {
                mode: mode_after(old(self).0.mode, new_mode),
                ..old(self).0
            }),
            change == transition(old(self).0.mode, final(self).0.mode),
            old(self).0.mode == LocalQueueMode::Released ==> *final(self) == *old(self),
            old(self).0.mode != LocalQueueMode::Released ==> final(self).0.mode == new_mode,
            change is Some <==> old(self).0.mode != LocalQueueMode::Released && old(self).0.mode
                != new_mode,
            change matches Some(announced) ==> announced.old_mode == old(self).0.mode
                && announced.new_mode == new_mode,
            final(self).0.job_queues == old(self).0.job_queues,
            final(self).0.accepted_tracker == old(self).0.accepted_tracker,
            final(self).0.refetch_delay == old(self).0.refetch_delay,
            crate::local_queue::capacity::capacity_step(
                old(self).0,
                crate::local_queue::capacity::CapacityStep::Quiet,
                final(self).0,
            ),
    {
        let old_mode: LocalQueueMode = self.0.mode;
        if old_mode == LocalQueueMode::Released || old_mode == new_mode {
            return None;
        }
        self.0.mode = new_mode;
        Some(ModeTransition { old_mode, new_mode })
    }
}

/// Law: a mode that is asked for is taken on by every queue but a released one, which
/// keeps its own. A change is announced if and only if there is one, with both modes.
pub proof fn law_modes_change_unless_released(mode: LocalQueueMode, new_mode: LocalQueueMode)
    ensures
        mode != LocalQueueMode::Released ==> mode_after(mode, new_mode) == new_mode,
        mode == LocalQueueMode::Released ==> mode_after(mode, new_mode) == mode,
        transition(mode, new_mode) is None <==> mode == new_mode,
        transition(mode, new_mode) matches Some(change) ==> change.old_mode == mode
            && change.new_mode == new_mode,
        mode_after_all(mode, Seq::empty().push(new_mode)) == mode_after(mode, new_mode),
{
    let one = Seq::empty().push(new_mode);
    assert(one.drop_last() =~= Seq::<LocalQueueMode>::empty());
    reveal_with_fuel(mode_after_all, 2);
}

/// Law: what is free and what is accepted make up the size, as long as no more is
/// accepted. Beyond that nothing is free.
pub proof fn law_free_and_accepted_make_the_size(size: int, accepted: int)
    ensures
        accepted <= size ==> free_capacity(size, accepted) + accepted == size,
        accepted >= size ==> free_capacity(size, accepted) == 0,
{
}

/// Law: the buffered jobs of a state are those of all its queues.
pub proof fn law_buffered_jobs_are_those_of_the_queues<C>(state: LocalQueueState<C>)
    ensures
        state.buffered() == crate::local_queue::buffers::all_jobs(
            state.job_queues.contents(),
        ).len(),
{
    crate::local_queue::buffers::law_every_job_is_counted(state.job_queues.contents());
}

/// The mode after a series of requests.
pub open spec fn mode_after_all(
    mode: LocalQueueMode,
    requests: Seq<LocalQueueMode>,
) -> LocalQueueMode
    decreases requests.len(),
{
    if requests.len() == 0 {
        mode
    } else {
        mode_after(mode_after_all(mode, requests.drop_last()), requests.last())
    }
}

/// Law: once a queue is released, no series of mode changes revives it.
pub proof fn law_release_is_terminal(mode: LocalQueueMode, requests: Seq<LocalQueueMode>, at: int)
    requires
        0 <= at < requests.len(),
        requests[at] == LocalQueueMode::Released,
    ensures
        mode_after_all(mode, requests) == LocalQueueMode::Released,
    decreases requests.len(),
{
    if at < requests.len() - 1 {
        law_release_is_terminal(mode, requests.drop_last(), at);
    }
}

} // verus!
