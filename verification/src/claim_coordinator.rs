//! Claim waves: how one process takes jobs for all of its tasks.
//!
//! A wave is a dialogue between [`ClaimCoordinator`] and the database. The
//! coordinator says what to do next, the caller does it and reports what came of
//! it. Only a wave whose transaction was committed changes the coordinator.

use std::collections::HashMap;

use vstd::prelude::*;

use crate::job::{DbJob, Job};
use crate::queries::claim_queue_jobs::{
    claim_queue_jobs, lock_worker_control, queue_claim_from_rows, ClaimRequest, ClaimRow,
    QueueClaim, WorkerControlState,
};
use crate::queries::claim_sql::claim_sql_text;
use crate::query::{DbParam, DbValue, Query};
use crate::quotas::{allocate_quotas, next_rotation};
use crate::schema::Schema;
use crate::tasks::sort_tasks;
use crate::time::{claim_time, Timestamp};

verus! {

broadcast use vstd::std_specs::hash::group_hash_axioms;

/// Jobs that a wave claimed for one task.
#[derive(Debug, PartialEq, Eq)]
pub struct QueueJobs<C> {
    pub identifier: String,
    pub jobs: Vec<Job<C>>,
}

impl<C> QueueJobs<C> {
    /// Whether every job goes under the identifier of the queue.
    pub open spec fn labelled(self) -> bool {
        forall|i: int|
            0 <= i < self.jobs@.len() ==> (#[trigger] self.jobs@[i]).task_identifier@
                == self.identifier@
    }
}

/// The outcome of a wave.
#[derive(Debug, PartialEq, Eq)]
pub enum ClaimWave<C> {
    /// Claims are paused. Nothing was claimed.
    Paused,
    /// What was claimed, one entry for each task that the wave visited.
    Claimed(Vec<QueueJobs<C>>),
}

/// What the coordinator remembers from wave to wave.
pub struct CoordinatorState {
    /// Index of the task that the next wave visits first.
    pub queue_rotation: usize,
    /// For each task, the ordering row from which its next scan goes on.
    pub ordering_cursors: HashMap<i32, Option<i32>>,
}

impl CoordinatorState {
    /// The cursor of a task. A task that has none starts from the beginning.
    pub open spec fn cursor(self, task_id: i32) -> Option<i32> {
        if self.ordering_cursors@.contains_key(task_id) {
            self.ordering_cursors@[task_id]
        } else {
            None
        }
    }
}

/// Runs one process's claim waves and divides its fixed capacity fairly over the
/// registered tasks.
pub struct ClaimCoordinator {
    pub schema: Schema,
    pub worker_id: String,
    pub forbidden_flags: Vec<String>,
    pub use_local_time: bool,
    pub state: CoordinatorState,
}

/// Where a wave stands: what it waits for.
#[derive(Debug, Clone, Copy, PartialEq, Eq, Structural)]
pub enum WavePhase {
    /// The transaction is to be opened.
    Beginning,
    /// The worker-control row is to be locked.
    Gating,
    /// The rows of a claim are to come in.
    Claiming,
    /// The transaction of a paused wave is to be committed.
    CommittingPause,
    /// The transaction of a complete wave is to be committed.
    Committing,
    /// The wave is over.
    Finished,
}

/// A wave under way.
pub struct WaveRun<C> {
    /// The registered tasks, in the order of their identifiers.
    pub tasks: Vec<(i32, String)>,
    pub capacity: usize,
    /// Index and quota of each task to visit, in the order of the visit.
    pub allocation: Vec<(usize, usize)>,
    /// Whether a shutdown may call the wave off while it waits for the control row.
    pub cancellable: bool,
    pub phase: WavePhase,
    /// The time passed to the database, if local time is in use.
    pub now: Option<Timestamp>,
    pub claimed: Vec<QueueJobs<C>>,
    /// Cursors that take effect when the wave is committed.
    pub next_cursors: Vec<(i32, Option<i32>)>,
}

/// What the caller reports to a wave.
pub enum WaveEvent<C, E> {
    /// The transaction is open.
    Begun,
    /// The worker-control row was locked and read.
    Control(WorkerControlState),
    /// A shutdown was requested while the control row was not there yet.
    ShutdownRequested,
    /// The claim statement returned these rows.
    Rows(Vec<ClaimRow<C, E>>),
    /// The transaction is committed.
    Committed,
    /// What was asked for failed.
    Failed(E),
}

/// What a wave asks the caller to do.
#[derive(Debug, PartialEq, Eq)]
pub enum WaveAction<C, E> {
    /// Run this statement on the worker-control row, until a shutdown calls it off.
    LockControl(Query),
    /// Run this claim statement.
    Fetch(Query),
    /// Commit the transaction.
    Commit,
    /// The wave is over. `None` means that a shutdown called it off. Whatever
    /// transaction is still open is rolled back.
    Return(Result<Option<ClaimWave<C>>, E>),
}

/// How a wave starts: over at once, or with a transaction.
pub enum WaveStart<C> {
    Finished(ClaimWave<C>),
    Begin(WaveRun<C>),
}

/// Cursors after each entry of `updates` was written, in this order.
pub open spec fn with_cursors(
    cursors: Map<i32, Option<i32>>,
    updates: Seq<(i32, Option<i32>)>,
) -> Map<i32, Option<i32>>
    decreases updates.len(),
{
    if updates.len() == 0 {
        cursors
    } else {
        with_cursors(cursors, updates.drop_last()).insert(updates.last().0, updates.last().1)
    }
}

/// The quota that a claim statement gets: the number of slots, as far as it fits.
pub open spec fn statement_quota(quota: int) -> i32 {
    if quota <= i32::MAX {
        quota as i32
    } else {
        i32::MAX
    }
}

impl<C> WaveRun<C> {
    /// The same wave in another phase.
    pub open spec fn in_phase(self, phase: WavePhase) -> WaveRun<C> {
        WaveRun { phase, ..self }
    }

    /// The task that the wave visits as number `visit`.
    pub open spec fn task(self, visit: int) -> (i32, String) {
        self.tasks@[self.allocation@[visit].0 as int]
    }

    /// Whether the wave is one of the coordinator's and has kept its books so far.
    pub open spec fn wf(self, coordinator: ClaimCoordinator) -> bool {
        self.phase != WavePhase::Finished ==> {
            &&& 0 < self.tasks@.len() <= usize::MAX / 2
            &&& self.capacity > 0
            &&& crate::quotas::allocation_view(self.allocation@) == crate::quotas::allocation(
                self.tasks@.len() as int,
                self.capacity as int,
                coordinator.state.queue_rotation as int,
            )
            &&& self.claimed@.len() == self.next_cursors@.len()
            &&& match self.phase {
                WavePhase::Claiming => self.claimed@.len() < self.allocation@.len(),
                WavePhase::Committing => self.claimed@.len() == self.allocation@.len(),
                _ => self.claimed@.len() == 0,
            }
            &&& forall|visit: int|
                0 <= visit < self.claimed@.len() ==> {
                    &&& (#[trigger] self.claimed@[visit]).identifier@ == self.task(visit).1@
                    &&& self.claimed@[visit].labelled()
                }
            &&& forall|visit: int|
                0 <= visit < self.next_cursors@.len() ==> (#[trigger] self.next_cursors@[visit]).0
                    == self.task(visit).0
        }
    }

    /// The most steps that the wave can still take.
    pub open spec fn steps_left(self) -> int {
        match self.phase {
            WavePhase::Beginning => self.allocation@.len() as int + 3,
            WavePhase::Gating => self.allocation@.len() as int + 2,
            WavePhase::Claiming => self.allocation@.len() - self.claimed@.len() + 1,
            WavePhase::CommittingPause => 1,
            WavePhase::Committing => 1,
            WavePhase::Finished => 0,
        }
    }

    /// Whether the wave waits for this event.
    pub open spec fn awaits<E>(self, event: WaveEvent<C, E>) -> bool {
        match event {
            WaveEvent::Begun => self.phase == WavePhase::Beginning,
            WaveEvent::Control(_) => self.phase == WavePhase::Gating,
            WaveEvent::ShutdownRequested => self.phase == WavePhase::Gating && self.cancellable,
            WaveEvent::Rows(_) => self.phase == WavePhase::Claiming,
            WaveEvent::Committed => self.phase == WavePhase::CommittingPause || self.phase
                == WavePhase::Committing,
            WaveEvent::Failed(_) => self.phase != WavePhase::Finished,
        }
    }

    /// Tells whether the wave waits for this event.
    pub fn is_awaiting<E>(&self, event: &WaveEvent<C, E>) -> (result: bool)
        ensures
            result == self.awaits(*event),
    {
        match event {
            WaveEvent::Begun => self.phase == WavePhase::Beginning,
            WaveEvent::Control(_) => self.phase == WavePhase::Gating,
            WaveEvent::ShutdownRequested => self.phase == WavePhase::Gating && self.cancellable,
            WaveEvent::Rows(_) => self.phase == WavePhase::Claiming,
            WaveEvent::Committed => self.phase == WavePhase::CommittingPause || self.phase
                == WavePhase::Committing,
            WaveEvent::Failed(_) => self.phase != WavePhase::Finished,
        }
    }
}

impl ClaimCoordinator {
    /// Whether the rotation leaves room for another wave's arithmetic.
    pub open spec fn wf(self) -> bool {
        self.state.queue_rotation <= usize::MAX / 2
    }

    /// Whether two coordinators are set up the same way.
    pub open spec fn same_setup(self, other: ClaimCoordinator) -> bool {
        &&& self.schema == other.schema
        &&& self.worker_id == other.worker_id
        &&& self.forbidden_flags == other.forbidden_flags
        &&& self.use_local_time == other.use_local_time
    }

    /// The statement with which a wave claims on its visit number `visit`.
    pub open spec fn claim_of_visit<C>(
        self,
        run: WaveRun<C>,
        visit: int,
    ) -> crate::query::QueryText {
        crate::queries::claim_queue_jobs::claim_query(
            self.schema,
            self.worker_id@,
            run.task(visit).0,
            crate::query::texts(self.forbidden_flags@),
            statement_quota(run.allocation@[visit].1 as int),
            self.state.cursor(run.task(visit).0),
            run.now,
        )
    }

    /// Creates a coordinator that has not run any wave.
    pub fn new(
        schema: Schema,
        worker_id: String,
        forbidden_flags: Vec<String>,
        use_local_time: bool,
    ) -> (coordinator: Self)
        ensures
            coordinator.wf(),
            coordinator.schema == schema,
            coordinator.worker_id == worker_id,
            coordinator.forbidden_flags == forbidden_flags,
            coordinator.use_local_time == use_local_time,
            coordinator.state.queue_rotation == 0,
            coordinator.state.ordering_cursors@ == Map::<i32, Option<i32>>::empty(),
    {
        ClaimCoordinator {
            schema,
            worker_id,
            forbidden_flags,
            use_local_time,
            state: CoordinatorState { queue_rotation: 0, ordering_cursors: HashMap::new() },
        }
    }

    /// Makes the next scan of a task start from the beginning.
    pub fn restart_task_scan(&mut self, task_id: i32)
        ensures
            final(self).same_setup(*old(self)),
            final(self).state.queue_rotation == old(self).state.queue_rotation,
            final(self).state.ordering_cursors@ == old(self).state.ordering_cursors@.insert(
                task_id,
                None,
            ),
            final(self).state.cursor(task_id) is None,
            old(self).wf() ==> final(self).wf(),
    {
        self.state.ordering_cursors.insert(task_id, None);
    }

    /// The cursor of a task.
    fn cursor(&self, task_id: i32) -> (cursor: Option<i32>)
        ensures
            cursor == self.state.cursor(task_id),
    {
        match self.state.ordering_cursors.get(&task_id) {
            Some(cursor) => *cursor,
            None => None,
        }
    }

    /// Starts a wave of the given capacity over the registered tasks.
    ///
    /// Without capacity or without tasks there is nothing to claim, and the wave is
    /// over before it needs a transaction.
    pub fn claim_wave<C>(
        &self,
        capacity: usize,
        tasks: Vec<(i32, String)>,
        cancellable: bool,
    ) -> (start: WaveStart<C>)
        requires
            self.wf(),
            tasks@.len() <= usize::MAX / 2,
        ensures
            match start {
                WaveStart::Finished(wave) => {
                    &&& capacity == 0 || tasks@.len() == 0
                    &&& wave matches ClaimWave::Claimed(queues) && queues@ == Seq::<
                        QueueJobs<C>,
                    >::empty()
                },
                WaveStart::Begin(run) => {
                    &&& capacity > 0 && tasks@.len() > 0
                    &&& run.wf(*self)
                    &&& run.phase == WavePhase::Beginning
                    &&& run.tasks@ == crate::tasks::in_identifier_order(tasks@)
                    &&& run.capacity == capacity
                    &&& run.cancellable == cancellable
                    &&& run.now is None
                    &&& run.claimed@.len() == 0 && run.next_cursors@.len() == 0
                    &&& run.tasks@.to_multiset() == tasks@.to_multiset()
                    &&& forall|i: int, j: int|
                        0 <= i < j < run.tasks@.len() ==> crate::tasks::identifier_le(
                            (#[trigger] run.tasks@[i]).1@,
                            (#[trigger] run.tasks@[j]).1@,
                        )
                    &&& run.allocation@.len() == if capacity < tasks@.len() {
                        capacity as int
                    } else {
                        tasks@.len() as int
                    }
                    &&& forall|i: int|
                        0 <= i < run.allocation@.len() ==> (#[trigger] run.allocation@[i]).0 == (
                        self.state.queue_rotation + i) % tasks@.len() as int
                            && run.allocation@[i].1 >= 1
                },
            },
    {
        if capacity == 0 {
            return WaveStart::Finished(ClaimWave::Claimed(Vec::new()));
        }
        let ghost given = tasks@;
        let mut tasks: Vec<(i32, String)> = tasks;
        sort_tasks(&mut tasks);
        proof {
            crate::tasks::law_order_is_a_rearrangement(given);
        }
        if tasks.len() == 0 {
            return WaveStart::Finished(ClaimWave::Claimed(Vec::new()));
        }
        let allocation: Vec<(usize, usize)> = allocate_quotas(
            tasks.len(),
            capacity,
            self.state.queue_rotation,
        );
        proof {
            assert forall|i: int| 0 <= i < allocation@.len() implies (
            #[trigger] allocation@[i]).1 >= 1 by {
                crate::quotas::law_allocation_is_even(
                    given.len() as int,
                    capacity as int,
                    self.state.queue_rotation as int,
                    i,
                    i,
                );
                assert(crate::quotas::allocation_view(allocation@)[i].1 == allocation@[i].1);
            }
        }
        WaveStart::Begin(
            WaveRun {
                tasks,
                capacity,
                allocation,
                cancellable,
                phase: WavePhase::Beginning,
                now: None,
                claimed: Vec::new(),
                next_cursors: Vec::new(),
            },
        )
    }

    /// The claim of the next visit.
    fn next_claim<C>(&self, run: &WaveRun<C>) -> (query: Query)
        requires
            run.wf(*self),
            run.phase == WavePhase::Claiming,
        ensures
            query@ == self.claim_of_visit(*run, run.claimed@.len() as int),
            query.sql@
                == claim_sql_text(self.schema.jobs@, self.schema.job_queues@),
            query@.params[0] == DbParam::Text(self.worker_id@),
            query@.params[4]
                == DbParam::TextArray(self.forbidden_flags@.map_values(|flag: String| flag@)),
            query.params@.len() == 6,
            query.params@[0] matches DbValue::Text(text) && text@ == self.worker_id@,
            query.params@[1]
                == DbValue::I32(run.tasks@[run.allocation@[run.claimed@.len() as int].0 as int].0),
            query.params@[2] matches DbValue::I32(quota) && quota
                == if run.allocation@[run.claimed@.len() as int].1 <= i32::MAX {
                    run.allocation@[run.claimed@.len() as int].1 as int
                } else {
                    i32::MAX as int
                },
            query.params@[3]
                == DbValue::I32Opt(
                    if self.state.ordering_cursors@.contains_key(
                        run.tasks@[run.allocation@[run.claimed@.len() as int].0 as int].0,
                    ) {
                        self.state.ordering_cursors@[
                            run.tasks@[run.allocation@[run.claimed@.len() as int].0 as int].0
                        ]
                    } else {
                        None
                    },
                ),
            query.params@[4] matches DbValue::TextArray(flags) && flags@
                == self.forbidden_flags@,
            query.params@[5] == DbValue::TimestampTzOpt(run.now),
    {
        let visit: usize = run.claimed.len();
        proof {
            lemma_slot(*self, *run, visit as int);
        }
        let slot: (usize, usize) = run.allocation[visit];
        let quota: i32 = if slot.1 <= i32::MAX as usize {
            slot.1 as i32
        } else {
            i32::MAX
        };
        let task_id: i32 = run.tasks[slot.0].0;
        let request: ClaimRequest<C> = claim_queue_jobs(
            &self.schema,
            self.worker_id.as_str(),
            task_id,
            self.forbidden_flags.as_slice(),
            quota,
            self.cursor(task_id),
            run.now,
        );
        match request {
            ClaimRequest::Fetch(query) => {
                proof {
                    assert(query@.params[4] == query.params@[4]@);
                    assert(query@.params[0] == query.params@[0]@);
                    assert(crate::query::texts(self.forbidden_flags@)
                        =~= self.forbidden_flags@.map_values(|flag: String| flag@));
                }
                query
            },
            ClaimRequest::Claimed(_) => {
                assert(false);
                lock_worker_control(&self.schema)
            },
        }
    }
}

impl ClaimCoordinator {
    /// Lets a wave that is not paused claim, at the given time.
    pub fn open_gate<C>(&self, run: &mut WaveRun<C>, now: Option<Timestamp>) -> (query: Query)
        requires
            old(run).wf(*self),
            old(run).phase == WavePhase::Gating,
        ensures
            *final(run) == (WaveRun { phase: WavePhase::Claiming, now, ..*old(run) }),
            final(run).wf(*self),
            query@ == self.claim_of_visit(*final(run), 0),
            query.sql@
                == claim_sql_text(self.schema.jobs@, self.schema.job_queues@),
            query@.params[0] == DbParam::Text(self.worker_id@),
            query@.params[4]
                == DbParam::TextArray(self.forbidden_flags@.map_values(|flag: String| flag@)),
            query.params@.len() == 6,
            query.params@[0] matches DbValue::Text(text) && text@ == self.worker_id@,
            query.params@[1]
                == DbValue::I32(final(run).tasks@[final(run).allocation@[0].0 as int].0),
            query.params@[2] matches DbValue::I32(quota) && quota
                == if final(run).allocation@[0].1 <= i32::MAX {
                    final(run).allocation@[0].1 as int
                } else {
                    i32::MAX as int
                },
            query.params@[3]
                == DbValue::I32Opt(
                    if self.state.ordering_cursors@.contains_key(
                        final(run).tasks@[final(run).allocation@[0].0 as int].0,
                    ) {
                        self.state.ordering_cursors@[
                            final(run).tasks@[final(run).allocation@[0].0 as int].0
                        ]
                    } else {
                        None
                    },
                ),
            query.params@[4] matches DbValue::TextArray(flags) && flags@
                == self.forbidden_flags@,
            query.params@[5] == DbValue::TimestampTzOpt(final(run).now),
    {
        proof {
            lemma_slot_count(*self, *run);
        }
        run.now = now;
        run.phase = WavePhase::Claiming;
        self.next_claim(run)
    }

    /// Enters what a claim brought in, or the reason why it brought in nothing.
    fn record_claim<C, E>(&self, run: &mut WaveRun<C>, rows: Vec<ClaimRow<C, E>>) -> (action:
        WaveAction<C, E>)
        requires
            old(run).wf(*self),
            old(run).phase == WavePhase::Claiming,
        ensures
            final(run).wf(*self),
            wave_recorded(*self, *old(run), rows@, *final(run), action),
            ({
                    &&& final(run).tasks
                        == old(run).tasks && final(run).allocation == old(run).allocation
                    &&& final(run).capacity == old(run).capacity && final(run).now == old(run).now
                    &&& match action {
                        WaveAction::Return(result) => {
                            &&& final(run).claimed == old(run).claimed
                            &&& result matches Err(error) && {
                                ||| rows@.len() > 0 && rows@[0].next_ordering_cursor
                                    == Err::<Option<i32>, E>(error)
                                ||| exists|i: int|
                                    0 <= i < rows@.len() && (#[trigger] rows@[i]).job
                                        == Err::<Option<DbJob<C>>, E>(error)
                            }
                        },
                        _ => {
                            let visit = old(run).claimed@.len() as int;
                            let task = old(run).tasks@[old(run).allocation@[visit].0 as int];
                            let holding = rows@.filter(
                                |row: ClaimRow<C, E>| row.job matches Ok(Some(_)),
                            );
                            let entered = final(run).claimed@[visit];
                            &&& forall|i: int|
                                0 <= i < rows@.len() ==> (#[trigger] rows@[i]).job is Ok
                            &&& final(run).claimed@.len() == visit + 1
                            &&& final(run).claimed@.take(visit) == old(run).claimed@
                            &&& entered.identifier@ == task.1@
                            &&& entered.jobs@.len() == holding.len()
                            &&& forall|i: int|
                                0 <= i < holding.len() ==> {
                                    &&& holding[i].job == Ok::<Option<DbJob<C>>, E>(
                                        Some(
                                            DbJob {
                                                id: (#[trigger] entered.jobs@[i]).id,
                                                job_queue_id: entered.jobs@[i].job_queue_id,
                                                task_id: entered.jobs@[i].task_id,
                                                columns: entered.jobs@[i].columns,
                                            },
                                        ),
                                    )
                                    &&& entered.jobs@[i].task_identifier@
                                        == task.1@
                                }
                            &&& final(run).next_cursors@.len() == visit + 1
                            &&& final(run).next_cursors@.take(visit) == old(run).next_cursors@
                            &&& final(run).next_cursors@[visit].0 == task.0
                            &&& rows@.len() == 0 ==> final(run).next_cursors@[visit].1 is None
                            &&& rows@.len() > 0 ==> rows@[0].next_ordering_cursor
                                == Ok::<Option<i32>, E>(
                                final(run).next_cursors@[visit].1,
                            )
                            &&& action is Commit <==> visit + 1 == old(run).allocation@.len()
                            &&& action is Commit ==> final(run).phase == WavePhase::Committing
                            &&& action matches WaveAction::Fetch(query) ==> {
                                let slot = final(run).allocation@[visit + 1];
                                let next = final(run).tasks@[slot.0 as int].0;
                                &&& final(run).phase == WavePhase::Claiming
                                &&& query.sql@
                                    == claim_sql_text(self.schema.jobs@, self.schema.job_queues@)
                                &&& query@.params[0] == DbParam::Text(self.worker_id@)
                                &&& query@.params[4]
                                    == DbParam::TextArray(
                                        self.forbidden_flags@.map_values(|flag: String| flag@),
                                    )
                                &&& query.params@.len() == 6
                                &&& query.params@[0] matches DbValue::Text(text) && text@
                                    == self.worker_id@
                                &&& query.params@[1]
                                    == DbValue::I32(
                                        next,
                                    )
                                &&& query.params@[2] matches DbValue::I32(quota) && quota
                                    == if final(run).allocation@[visit + 1].1 <= i32::MAX {
                                        final(run).allocation@[visit + 1].1 as int
                                    } else {
                                        i32::MAX as int
                                    }
                                &&& query.params@[3]
                                    == DbValue::I32Opt(
                                        if self.state.ordering_cursors@.contains_key(
                                            next,
                                        ) {
                                            self.state.ordering_cursors@[next]
                                        } else {
                                            None
                                        },
                                    )
                                &&& query.params@[4] matches DbValue::TextArray(flags) && flags@
                                    == self.forbidden_flags@
                                &&& query.params@[5]
                                    == DbValue::TimestampTzOpt(final(run).now)
                            }
                            &&& !(action is LockControl)
                        },
                    }
            }),
    {
        let visit: usize = run.claimed.len();
        proof {
            lemma_slot(*self, *run, visit as int);
        }
        let task_index: usize = run.allocation[visit].0;
        let task_id: i32 = run.tasks[task_index].0;
        let identifier: String = run.tasks[task_index].1.clone();
        let result: Result<QueueClaim<C>, E> = queue_claim_from_rows(rows, identifier.as_str());
        match result {
            Err(error) => {
                run.phase = WavePhase::Finished;
                WaveAction::Return(Err(error))
            },
            Ok(claim) => {
                run.next_cursors.push((task_id, claim.next_ordering_cursor));
                run.claimed.push(QueueJobs { identifier, jobs: claim.jobs });
                assert(run.claimed@.drop_last() =~= old(run).claimed@);
                assert(run.claimed@.take(visit as int) =~= old(run).claimed@);
                assert(run.next_cursors@.take(visit as int) =~= old(run).next_cursors@);
                if run.claimed.len() < run.allocation.len() {
                    WaveAction::Fetch(self.next_claim(run))
                } else {
                    run.phase = WavePhase::Committing;
                    WaveAction::Commit
                }
            },
        }
    }

    /// Takes over what a committed wave found out, and hands out what it claimed.
    fn settle_wave<C>(&mut self, run: &mut WaveRun<C>) -> (queues: Vec<QueueJobs<C>>)
        requires
            old(self).wf(),
            old(run).wf(*old(self)),
            old(run).phase == WavePhase::Committing,
        ensures
            final(self).wf(),
            final(run).phase == WavePhase::Finished,
            final(run).cancellable == old(run).cancellable,
            wave_settled(*old(self), *old(run), *final(self)),
            queues@ == old(run).claimed@,
    {
        let count: usize = run.next_cursors.len();
        let mut i: usize = 0;
        let ghost cursors = self.state.ordering_cursors@;
        let ghost before = *self;
        let ghost updates = run.next_cursors@;
        assert(updates.take(0) =~= Seq::<(i32, Option<i32>)>::empty());
        while i < count
            invariant
                i <= count,
                count == updates.len(),
                run.next_cursors@ == updates,
                *run == *old(run),
                self.same_setup(before),
                self.state.queue_rotation == before.state.queue_rotation,
                self.state.ordering_cursors@ == with_cursors(cursors, updates.take(i as int)),
            decreases count - i,
        {
            let update: (i32, Option<i32>) = run.next_cursors[i];
            self.state.ordering_cursors.insert(update.0, update.1);
            i += 1;
            assert(updates.take(i as int).drop_last() =~= updates.take(i - 1));
        }
        assert(updates.take(i as int) =~= updates);
        self.state.queue_rotation =
        next_rotation(run.tasks.len(), run.capacity, self.state.queue_rotation);
        proof {
            vstd::arithmetic::div_mod::lemma_mod_bound(
                before.state.queue_rotation + crate::quotas::rotation_advance(
                    run.tasks@.len() as int,
                    run.capacity as int,
                ),
                run.tasks@.len() as int,
            );
        }
        let mut queues: Vec<QueueJobs<C>> = Vec::new();
        std::mem::swap(&mut queues, &mut run.claimed);
        run.phase = WavePhase::Finished;
        queues
    }

    /// Carries a wave on by one event and says what is to be done next.
    ///
    /// The wave opens its transaction, locks the worker-control row, and gives up
    /// there if claims are paused or a shutdown comes first. Otherwise it claims for
    /// one task after the other and commits. Every failure ends it, and a wave that
    /// ends before its commit leaves the coordinator as it was.
    pub fn step<C, E>(&mut self, run: &mut WaveRun<C>, event: WaveEvent<C, E>) -> (action:
        WaveAction<C, E>)
        requires
            old(self).wf(),
            old(run).wf(*old(self)),
            old(run).awaits(event),
        ensures
            final(self).wf(),
            final(run).wf(*final(self)),
            old(run).phase != WavePhase::Committing || event is Failed ==> *final(self) == *old(
                self,
            ),
            final(self).schema == old(self).schema,
            final(self).worker_id == old(self).worker_id,
            final(self).forbidden_flags == old(self).forbidden_flags,
            final(self).use_local_time == old(self).use_local_time,
            event is Begun ==> {
                &&& final(run).phase == WavePhase::Gating
                &&& action matches WaveAction::LockControl(query) && query.sql@
                    == "select paused, pause_reason from "@ + old(self).schema.worker_control@
                    + " where id = true"@ + " for share"@ && query.params@.len() == 0
                &&& final(run).tasks
                    == old(run).tasks && final(run).allocation == old(run).allocation
                &&& final(run).capacity == old(run).capacity && final(run).now == old(run).now
            },
            event is Failed || event is ShutdownRequested ==> final(run).phase
                == WavePhase::Finished,
            event matches WaveEvent::Control(control) ==> {
                &&& final(run).tasks
                    == old(run).tasks && final(run).allocation == old(run).allocation
                &&& final(run).capacity == old(run).capacity
                &&& final(run).claimed == old(run).claimed
                &&& final(run).next_cursors == old(run).next_cursors
                &&& action is Commit <==> control.paused
                &&& control.paused ==> final(run).phase == WavePhase::CommittingPause
                &&& !control.paused ==> final(run).phase == WavePhase::Claiming && (
                action matches WaveAction::Fetch(query) && {
                    &&& query.sql@
                        == claim_sql_text(old(self).schema.jobs@, old(self).schema.job_queues@)
                    &&& query@.params[0] == DbParam::Text(old(self).worker_id@)
                    &&& query@.params[4]
                        == DbParam::TextArray(
                            old(self).forbidden_flags@.map_values(|flag: String| flag@),
                        )
                    &&& query.params@.len() == 6
                    &&& query.params@[0] matches DbValue::Text(text) && text@
                        == old(self).worker_id@
                    &&& query.params@[1]
                        == DbValue::I32(final(run).tasks@[final(run).allocation@[0].0 as int].0)
                    &&& query.params@[2] matches DbValue::I32(quota) && quota
                        == if final(run).allocation@[0].1 <= i32::MAX {
                            final(run).allocation@[0].1 as int
                        } else {
                            i32::MAX as int
                        }
                    &&& query.params@[3]
                        == DbValue::I32Opt(
                            if old(self).state.ordering_cursors@.contains_key(
                                final(run).tasks@[final(run).allocation@[0].0 as int].0,
                            ) {
                                old(self).state.ordering_cursors@[
                                    final(run).tasks@[final(run).allocation@[0].0 as int].0
                                ]
                            } else {
                                None
                            },
                        )
                    &&& query.params@[4] matches DbValue::TextArray(flags) && flags@
                        == old(self).forbidden_flags@
                    &&& query.params@[5] == DbValue::TimestampTzOpt(final(run).now)
                })
            },
            event matches WaveEvent::Rows(rows) ==> {
                    &&& final(run).tasks
                        == old(run).tasks && final(run).allocation == old(run).allocation
                    &&& final(run).capacity == old(run).capacity && final(run).now == old(run).now
                    &&& match action {
                        WaveAction::Return(result) => {
                            &&& final(run).claimed == old(run).claimed
                            &&& result matches Err(error) && {
                                ||| rows@.len() > 0 && rows@[0].next_ordering_cursor
                                    == Err::<Option<i32>, E>(error)
                                ||| exists|i: int|
                                    0 <= i < rows@.len() && (#[trigger] rows@[i]).job
                                        == Err::<Option<DbJob<C>>, E>(error)
                            }
                        },
                        _ => {
                            let visit = old(run).claimed@.len() as int;
                            let task = old(run).tasks@[old(run).allocation@[visit].0 as int];
                            let holding = rows@.filter(
                                |row: ClaimRow<C, E>| row.job matches Ok(Some(_)),
                            );
                            let entered = final(run).claimed@[visit];
                            &&& forall|i: int|
                                0 <= i < rows@.len() ==> (#[trigger] rows@[i]).job is Ok
                            &&& final(run).claimed@.len() == visit + 1
                            &&& final(run).claimed@.take(visit) == old(run).claimed@
                            &&& entered.identifier@ == task.1@
                            &&& entered.jobs@.len() == holding.len()
                            &&& forall|i: int|
                                0 <= i < holding.len() ==> {
                                    &&& holding[i].job == Ok::<Option<DbJob<C>>, E>(
                                        Some(
                                            DbJob {
                                                id: (#[trigger] entered.jobs@[i]).id,
                                                job_queue_id: entered.jobs@[i].job_queue_id,
                                                task_id: entered.jobs@[i].task_id,
                                                columns: entered.jobs@[i].columns,
                                            },
                                        ),
                                    )
                                    &&& entered.jobs@[i].task_identifier@
                                        == task.1@
                                }
                            &&& final(run).next_cursors@.len() == visit + 1
                            &&& final(run).next_cursors@.take(visit) == old(run).next_cursors@
                            &&& final(run).next_cursors@[visit].0 == task.0
                            &&& rows@.len() == 0 ==> final(run).next_cursors@[visit].1 is None
                            &&& rows@.len() > 0 ==> rows@[0].next_ordering_cursor
                                == Ok::<Option<i32>, E>(
                                final(run).next_cursors@[visit].1,
                            )
                            &&& action is Commit <==> visit + 1 == old(run).allocation@.len()
                            &&& action is Commit ==> final(run).phase == WavePhase::Committing
                            &&& action matches WaveAction::Fetch(query) ==> {
                                let slot = final(run).allocation@[visit + 1];
                                let next = final(run).tasks@[slot.0 as int].0;
                                &&& final(run).phase == WavePhase::Claiming
                                &&& query.sql@
                                    == claim_sql_text(
                                        old(self).schema.jobs@,
                                        old(self).schema.job_queues@,
                                    )
                                &&& query@.params[0]
                                    == DbParam::Text(old(self).worker_id@)
                                &&& query@.params[4]
                                    == DbParam::TextArray(
                                        old(self).forbidden_flags@.map_values(|flag: String| flag@),
                                    )
                                &&& query.params@.len() == 6
                                &&& query.params@[0] matches DbValue::Text(text) && text@
                                    == old(self).worker_id@
                                &&& query.params@[1]
                                    == DbValue::I32(
                                        next,
                                    )
                                &&& query.params@[2] matches DbValue::I32(quota) && quota
                                    == if final(run).allocation@[visit + 1].1 <= i32::MAX {
                                        final(run).allocation@[visit + 1].1 as int
                                    } else {
                                        i32::MAX as int
                                    }
                                &&& query.params@[3]
                                    == DbValue::I32Opt(
                                        if old(self).state.ordering_cursors@.contains_key(
                                            next,
                                        ) {
                                            old(self).state.ordering_cursors@[next]
                                        } else {
                                            None
                                        },
                                    )
                                &&& query.params@[4] matches DbValue::TextArray(flags) && flags@
                                    == old(self).forbidden_flags@
                                &&& query.params@[5]
                                    == DbValue::TimestampTzOpt(final(run).now)
                            }
                            &&& !(action is LockControl)
                        },
                    }
            },
            event is Committed && old(run).phase == WavePhase::Committing ==> {
                &&& final(self).state.queue_rotation == (old(self).state.queue_rotation + (if old(
                    run,
                ).capacity < old(run).tasks@.len() {
                    old(run).capacity as int
                } else {
                    1
                })) % old(run).tasks@.len() as int
                &&& action matches WaveAction::Return(Ok(Some(ClaimWave::Claimed(queues))))
                    && queues@ == old(run).claimed@
            },
            event is Committed && old(run).phase == WavePhase::CommittingPause ==> action
                == WaveAction::<C, E>::Return(Ok(Some(ClaimWave::Paused))),
            0 <= final(run).steps_left() < old(run).steps_left(),
            action is Return <==> final(run).phase == WavePhase::Finished,
            final(run).cancellable == old(run).cancellable,
            !old(run).cancellable ==> action != WaveAction::<C, E>::Return(Ok(None)),
            match event {
                WaveEvent::Failed(error) => {
                    &&& action == WaveAction::<C, E>::Return(Err(error))
                    &&& *final(run) == old(run).in_phase(WavePhase::Finished)
                },
                WaveEvent::Begun => {
                    &&& action matches WaveAction::LockControl(query) && query@.sql
                        == crate::queries::claim_queue_jobs::control_sql_text(
                        old(self).schema.worker_control@,
                    ) + " for share"@ && query@.params == Seq::<crate::query::DbParam>::empty()
                    &&& *final(run) == old(run).in_phase(WavePhase::Gating)
                },
                WaveEvent::ShutdownRequested => {
                    &&& action == WaveAction::<C, E>::Return(Ok(None))
                    &&& *final(run) == old(run).in_phase(WavePhase::Finished)
                },
                WaveEvent::Control(control) => if control.paused {
                    &&& action == WaveAction::<C, E>::Commit
                    &&& *final(run) == old(run).in_phase(WavePhase::CommittingPause)
                } else {
                    &&& *final(run) == (WaveRun {
                        phase: WavePhase::Claiming,
                        now: final(run).now,
                        ..*old(run)
                    })
                    &&& final(run).now is Some <==> old(self).use_local_time
                    &&& final(run).now matches Some(time) ==> time.nanos < 1_000_000_000
                    &&& action matches WaveAction::Fetch(query) && query@ == old(
                        self,
                    ).claim_of_visit(*final(run), 0)
                },
                WaveEvent::Rows(rows) => wave_recorded(
                    *old(self),
                    *old(run),
                    rows@,
                    *final(run),
                    action,
                ),
                WaveEvent::Committed => {
                    &&& final(run).phase == WavePhase::Finished
                    &&& if old(run).phase == WavePhase::CommittingPause {
                        action == WaveAction::<C, E>::Return(Ok(Some(ClaimWave::Paused)))
                    } else {
                        &&& action matches WaveAction::Return(Ok(Some(ClaimWave::Claimed(queues))))
                            && queues@ == old(run).claimed@
                        &&& wave_settled(*old(self), *old(run), *final(self))
                    }
                },
            },
    {
        match event {
            WaveEvent::Failed(error) => {
                run.phase = WavePhase::Finished;
                WaveAction::Return(Err(error))
            },
            WaveEvent::Begun => {
                run.phase = WavePhase::Gating;
                WaveAction::LockControl(lock_worker_control(&self.schema))
            },
            WaveEvent::ShutdownRequested => {
                run.phase = WavePhase::Finished;
                WaveAction::Return(Ok(None))
            },
            WaveEvent::Control(control) => {
                if control.paused {
                    run.phase = WavePhase::CommittingPause;
                    WaveAction::Commit
                } else {
                    let now: Option<Timestamp> = claim_time(self.use_local_time);
                    WaveAction::Fetch(self.open_gate(run, now))
                }
            },
            WaveEvent::Rows(rows) => self.record_claim(run, rows),
            WaveEvent::Committed => {
                if run.phase == WavePhase::CommittingPause {
                    run.phase = WavePhase::Finished;
                    WaveAction::Return(Ok(Some(ClaimWave::Paused)))
                } else {
                    WaveAction::Return(Ok(Some(ClaimWave::Claimed(self.settle_wave(run)))))
                }
            },
        }
    }
}

/// What a wave does with the rows of a claim. Rows that cannot be read end it.
/// Otherwise the jobs and the cursor of the visited task are entered, and the wave
/// goes on to the next task, or to the commit behind the last one.
pub open spec fn wave_recorded<C, E>(
    coordinator: ClaimCoordinator,
    before: WaveRun<C>,
    rows: Seq<ClaimRow<C, E>>,
    after: WaveRun<C>,
    action: WaveAction<C, E>,
) -> bool {
    let visit = before.claimed@.len() as int;
    match crate::queries::claim_queue_jobs::row_failure(rows) {
        Some(error) => {
            &&& action == WaveAction::<C, E>::Return(Err(error))
            &&& after == before.in_phase(WavePhase::Finished)
        },
        None => {
            &&& after == (WaveRun {
                phase: after.phase,
                claimed: after.claimed,
                next_cursors: after.next_cursors,
                ..before
            })
            &&& after.next_cursors@ == before.next_cursors@.push(
                (before.task(visit).0, crate::queries::claim_queue_jobs::row_cursor(rows)),
            )
            &&& after.claimed@.len() == visit + 1
            &&& after.claimed@.drop_last() == before.claimed@
            &&& after.claimed@[visit].identifier@ == before.task(visit).1@
            &&& crate::queries::claim_queue_jobs::are_rows(
                after.claimed@[visit].jobs@,
                crate::queries::claim_queue_jobs::row_jobs(rows),
                before.task(visit).1@,
            )
            &&& if visit + 1 < before.allocation@.len() {
                &&& after.phase == WavePhase::Claiming
                &&& action matches WaveAction::Fetch(query) && query@
                    == coordinator.claim_of_visit(after, visit + 1)
            } else {
                &&& after.phase == WavePhase::Committing
                &&& action == WaveAction::<C, E>::Commit
            }
        },
    }
}

/// How a committed wave changes the coordinator: the cursors of the visited tasks
/// move to where their scans stopped, and the rotation moves on.
pub open spec fn wave_settled<C>(
    before: ClaimCoordinator,
    run: WaveRun<C>,
    after: ClaimCoordinator,
) -> bool {
    &&& after.same_setup(before)
    &&& after.state.ordering_cursors@ == with_cursors(
        before.state.ordering_cursors@,
        run.next_cursors@,
    )
    &&& after.state.queue_rotation == crate::quotas::rotation_after(
        run.tasks@.len() as int,
        run.capacity as int,
        before.state.queue_rotation as int,
    )
}

/// Number of jobs in what a wave claimed.
pub open spec fn claimed_count<C>(queues: Seq<QueueJobs<C>>) -> nat
    decreases queues.len(),
{
    if queues.len() == 0 {
        0
    } else {
        claimed_count(queues.drop_last()) + queues.last().jobs@.len()
    }
}

/// Counts the jobs in what a wave claimed.
pub fn count_claimed<C>(queues: &Vec<QueueJobs<C>>) -> (count: usize)
    requires
        claimed_count(queues@) <= usize::MAX,
    ensures
        count == claimed_count(queues@),
{
    let mut count: usize = 0;
    let mut i: usize = 0;
    assert(queues@.take(0) =~= Seq::<QueueJobs<C>>::empty());
    while i < queues.len()
        invariant
            i <= queues@.len(),
            claimed_count(queues@) <= usize::MAX,
            count == claimed_count(queues@.take(i as int)),
        decreases queues@.len() - i,
    {
        proof {
            assert(queues@.take(i + 1).drop_last() =~= queues@.take(i as int));
            lemma_claimed_prefix(queues@, i + 1);
        }
        count = count + queues[i].jobs.len();
        i += 1;
    }
    assert(queues@.take(i as int) =~= queues@);
    count
}

/// Law: every claim of a wave is made for the coordinator's own worker. It carries the
/// worker's name, the forbidden flags and the time of the wave, the number and the quota
/// of the visited task as far as the quota fits, and the cursor that is kept for that
/// task, if there is one.
pub proof fn law_claims_are_made_for_this_worker<C>(
    coordinator: ClaimCoordinator,
    run: WaveRun<C>,
    visit: int,
)
    requires
        0 <= visit < run.allocation@.len(),
        run.allocation@[visit].0 < run.tasks@.len(),
    ensures
        ({
            let query = coordinator.claim_of_visit(run, visit);
            let task_id = run.tasks@[run.allocation@[visit].0 as int].0;
            let cursors = coordinator.state.ordering_cursors@;
            &&& query.params.len() == 6
            &&& query.params[0] == DbParam::Text(coordinator.worker_id@)
            &&& query.params[1] == DbParam::I32(task_id)
            &&& run.allocation@[visit].1 <= i32::MAX ==> query.params[2]
                == DbParam::I32(run.allocation@[visit].1 as i32)
            &&& run.allocation@[visit].1 > i32::MAX ==> query.params[2]
                == DbParam::I32(i32::MAX)
            &&& cursors.contains_key(task_id) ==> query.params[3]
                == DbParam::I32Opt(cursors[task_id])
            &&& !cursors.contains_key(task_id) ==> query.params[3]
                == DbParam::I32Opt(None)
            &&& query.params[4] == DbParam::TextArray(
                coordinator.forbidden_flags@.map_values(|flag: String| flag@),
            )
            &&& query.params[5] == DbParam::TimestampTzOpt(run.now)
            &&& query.sql == claim_sql_text(
                coordinator.schema.jobs@,
                coordinator.schema.job_queues@,
            )
        }),
{
    assert(crate::query::texts(coordinator.forbidden_flags@)
        =~= coordinator.forbidden_flags@.map_values(|flag: String| flag@));
}

/// Law: two waves of one coordinator differ in what they claim only by task, quota,
/// cursor and time. Whatever the visit, the worker and the flags are the same.
pub proof fn law_claims_of_one_worker_agree<C>(
    coordinator: ClaimCoordinator,
    one: WaveRun<C>,
    visit: int,
    other: WaveRun<C>,
    other_visit: int,
)
    ensures
        coordinator.claim_of_visit(one, visit).sql == coordinator.claim_of_visit(
            other,
            other_visit,
        ).sql,
        coordinator.claim_of_visit(one, visit).params[0] == coordinator.claim_of_visit(
            other,
            other_visit,
        ).params[0],
        coordinator.claim_of_visit(one, visit).params[4] == coordinator.claim_of_visit(
            other,
            other_visit,
        ).params[4],
{
}

/// Law: going to another phase changes the phase alone, a visit goes to the task that
/// its slot names, and a quota that fits is passed on as it is.
pub proof fn law_a_wave_keeps_its_books<C>(
    run: WaveRun<C>,
    phase: WavePhase,
    visit: int,
    quota: int,
)
    ensures
        run.in_phase(phase).phase == phase,
        run.in_phase(phase).tasks == run.tasks,
        run.in_phase(phase).capacity == run.capacity,
        run.in_phase(phase).allocation == run.allocation,
        run.in_phase(phase).cancellable == run.cancellable,
        run.in_phase(phase).now == run.now,
        run.in_phase(phase).claimed == run.claimed,
        run.in_phase(phase).next_cursors == run.next_cursors,
        run.task(visit) == run.tasks@[run.allocation@[visit].0 as int],
        i32::MIN <= quota <= i32::MAX ==> statement_quota(quota) == quota,
        quota > i32::MAX ==> statement_quota(quota) == i32::MAX,
{
}

/// Law: a wave listens to each event in its own phase only, to a shutdown only while it
/// waits for the control row and may be called off, and to a failure until it is over.
pub proof fn law_a_wave_listens_in_its_phase<C, E>(
    run: WaveRun<C>,
    control: WorkerControlState,
    rows: Vec<ClaimRow<C, E>>,
    error: E,
)
    ensures
        run.awaits(WaveEvent::<C, E>::Begun) <==> run.phase == WavePhase::Beginning,
        run.awaits(WaveEvent::<C, E>::Control(control)) <==> run.phase == WavePhase::Gating,
        run.awaits(WaveEvent::<C, E>::ShutdownRequested) <==> run.phase == WavePhase::Gating
            && run.cancellable,
        run.awaits(WaveEvent::<C, E>::Rows(rows)) <==> run.phase == WavePhase::Claiming,
        run.awaits(WaveEvent::<C, E>::Committed) <==> run.phase == WavePhase::CommittingPause
            || run.phase == WavePhase::Committing,
        run.awaits(WaveEvent::<C, E>::Failed(error)) <==> run.phase != WavePhase::Finished,
{
}

/// Law: a cursor that is kept is the one that is used, whatever it is, and a task
/// without one starts from the beginning.
pub proof fn law_kept_cursors_are_used(state: CoordinatorState, task_id: i32)
    ensures
        state.ordering_cursors@.contains_key(task_id) ==> state.cursor(task_id)
            == state.ordering_cursors@[task_id],
        !state.ordering_cursors@.contains_key(task_id) ==> state.cursor(task_id) is None,
{
}

/// Law: the jobs of several queues are counted one queue at a time, and none is left
/// out.
pub proof fn law_claimed_jobs_add_up<C>(left: Seq<QueueJobs<C>>, right: Seq<QueueJobs<C>>)
    ensures
        claimed_count(left + right) == claimed_count(left) + claimed_count(right),
        left.len() == 1 ==> claimed_count(left) == left[0].jobs@.len(),
    decreases right.len(),
{
    if right.len() == 0 {
        assert(left + right =~= left);
    } else {
        law_claimed_jobs_add_up(left, right.drop_last());
        assert((left + right).drop_last() =~= left + right.drop_last());
    }
    if left.len() == 1 {
        assert(left.drop_last() =~= Seq::<QueueJobs<C>>::empty());
        assert(claimed_count(left.drop_last()) == 0);
    }
}

/// Law: a wave comes to its end. It takes at most one step for each task that it
/// visits, and three more.
pub proof fn law_wave_ends<C>(coordinator: ClaimCoordinator, run: WaveRun<C>)
    requires
        run.wf(coordinator),
        run.phase != WavePhase::Finished,
    ensures
        0 < run.steps_left() <= crate::quotas::visited_queues(
            run.tasks@.len() as int,
            run.capacity as int,
        ) + 3,
{
    lemma_slot_count(coordinator, run);
}

/// Law: if every claim statement keeps to its quota, a wave never claims more jobs
/// than it has capacity.
pub proof fn law_wave_stays_within_capacity<C>(coordinator: ClaimCoordinator, run: WaveRun<C>)
    requires
        run.wf(coordinator),
        run.phase != WavePhase::Finished,
        forall|visit: int|
            0 <= visit < run.claimed@.len() ==> (#[trigger] run.claimed@[visit]).jobs@.len()
                <= statement_quota(run.allocation@[visit].1 as int),
    ensures
        claimed_count(run.claimed@) <= run.capacity,
{
    lemma_slot_count(coordinator, run);
    lemma_claimed_within_quotas(run.claimed@, run.allocation@);
    crate::quotas::law_quotas_spend_the_capacity(
        run.tasks@.len() as int,
        run.capacity as int,
        coordinator.state.queue_rotation as int,
    );
}

/// Law: a wave that is ready to be committed has claimed once for every slot of its
/// allocation, for different tasks each time, and every job goes under the
/// identifier of the task that it was claimed for.
pub proof fn law_complete_wave_covers_its_allocation<C>(
    coordinator: ClaimCoordinator,
    run: WaveRun<C>,
    visit: int,
    other: int,
)
    requires
        run.wf(coordinator),
        run.phase == WavePhase::Committing,
        0 <= visit < run.allocation@.len(),
        0 <= other < run.allocation@.len(),
    ensures
        run.claimed@.len() == run.allocation@.len(),
        run.claimed@[visit].identifier@ == run.task(visit).1@,
        run.claimed@[visit].labelled(),
        visit != other ==> run.allocation@[visit].0 != run.allocation@[other].0,
{
    let slots = crate::quotas::allocation(
        run.tasks@.len() as int,
        run.capacity as int,
        coordinator.state.queue_rotation as int,
    );
    lemma_slot_count(coordinator, run);
    assert(crate::quotas::allocation_view(run.allocation@)[visit] == slots[visit]);
    assert(crate::quotas::allocation_view(run.allocation@)[other] == slots[other]);
    crate::quotas::law_allocation_is_even(
        run.tasks@.len() as int,
        run.capacity as int,
        coordinator.state.queue_rotation as int,
        visit,
        other,
    );
}

/// Law: a committed wave moves the cursor of each task that it visited to where that
/// task's scan stopped. If several tasks go under one number, it is the last visit
/// that counts.
pub proof fn law_settled_cursors<C>(
    before: ClaimCoordinator,
    run: WaveRun<C>,
    after: ClaimCoordinator,
    visit: int,
)
    requires
        run.wf(before),
        run.phase == WavePhase::Committing,
        wave_settled(before, run, after),
        0 <= visit < run.allocation@.len(),
        forall|later: int|
            visit < later < run.allocation@.len() ==> #[trigger] run.task(later).0 != run.task(
                visit,
            ).0,
    ensures
        after.state.cursor(run.task(visit).0) == run.next_cursors@[visit].1,
{
    let updates = run.next_cursors@;
    assert(updates[visit].0 == run.task(visit).0);
    assert forall|later: int| visit < later < updates.len() implies (#[trigger] updates[later]).0
        != updates[visit].0 by {
        assert(run.task(later).0 != run.task(visit).0);
    }
    lemma_written_cursor(before.state.ordering_cursors@, updates, visit);
}

/// Law: a committed wave leaves the cursors of all tasks alone that it did not visit.
pub proof fn law_other_cursors_stay<C>(
    before: ClaimCoordinator,
    run: WaveRun<C>,
    after: ClaimCoordinator,
    task_id: i32,
)
    requires
        run.wf(before),
        run.phase == WavePhase::Committing,
        wave_settled(before, run, after),
        forall|visit: int|
            0 <= visit < run.allocation@.len() ==> #[trigger] run.task(visit).0 != task_id,
    ensures
        after.state.cursor(task_id) == before.state.cursor(task_id),
{
    let updates = run.next_cursors@;
    assert forall|i: int| 0 <= i < updates.len() implies (#[trigger] updates[i]).0 != task_id by {
        assert(run.task(i).0 != task_id);
    }
    lemma_untouched_cursor(before.state.ordering_cursors@, updates, task_id);
}

/// A cursor holds what was written to it last.
proof fn lemma_written_cursor(
    cursors: Map<i32, Option<i32>>,
    updates: Seq<(i32, Option<i32>)>,
    index: int,
)
    requires
        0 <= index < updates.len(),
        forall|later: int|
            index < later < updates.len() ==> (#[trigger] updates[later]).0 != updates[index].0,
    ensures
        with_cursors(cursors, updates).contains_key(updates[index].0),
        with_cursors(cursors, updates)[updates[index].0] == updates[index].1,
    decreases updates.len(),
{
    if index < updates.len() - 1 {
        let front = updates.drop_last();
        assert forall|later: int| index < later < front.len() implies (#[trigger] front[later]).0
            != front[index].0 by {
            assert(updates[later].0 != updates[index].0);
        }
        lemma_written_cursor(cursors, front, index);
        assert(updates[updates.len() - 1].0 != updates[index].0);
    }
}

/// A cursor that is not written stays.
proof fn lemma_untouched_cursor(
    cursors: Map<i32, Option<i32>>,
    updates: Seq<(i32, Option<i32>)>,
    task_id: i32,
)
    requires
        forall|i: int| 0 <= i < updates.len() ==> (#[trigger] updates[i]).0 != task_id,
    ensures
        with_cursors(cursors, updates).contains_key(task_id) == cursors.contains_key(task_id),
        cursors.contains_key(task_id) ==> with_cursors(cursors, updates)[task_id]
            == cursors[task_id],
    decreases updates.len(),
{
    if updates.len() > 0 {
        let front = updates.drop_last();
        assert forall|i: int| 0 <= i < front.len() implies (#[trigger] front[i]).0 != task_id by {
            assert(updates[i].0 != task_id);
        }
        lemma_untouched_cursor(cursors, front, task_id);
        assert(updates[updates.len() - 1].0 != task_id);
    }
}

/// Jobs that keep to the quotas of the first slots stay below the quotas of all.
proof fn lemma_claimed_within_quotas<C>(claimed: Seq<QueueJobs<C>>, slots: Seq<(usize, usize)>)
    requires
        claimed.len() <= slots.len(),
        forall|visit: int|
            0 <= visit < claimed.len() ==> (#[trigger] claimed[visit]).jobs@.len()
                <= statement_quota(slots[visit].1 as int),
    ensures
        claimed_count(claimed) <= crate::quotas::quota_total(
            crate::quotas::allocation_view(slots),
        ),
    decreases slots.len(),
{
    let quotas = crate::quotas::allocation_view(slots);
    if slots.len() > 0 {
        let front = slots.drop_last();
        assert(quotas.drop_last() =~= crate::quotas::allocation_view(front));
        if claimed.len() < slots.len() {
            assert forall|visit: int| 0 <= visit < claimed.len() implies (
            #[trigger] claimed[visit]).jobs@.len() <= statement_quota(front[visit].1 as int) by {
                assert(front[visit] == slots[visit]);
            }
            lemma_claimed_within_quotas(claimed, front);
        } else {
            let fewer = claimed.drop_last();
            assert forall|visit: int| 0 <= visit < fewer.len() implies (
            #[trigger] fewer[visit]).jobs@.len() <= statement_quota(front[visit].1 as int) by {
                assert(fewer[visit] == claimed[visit]);
                assert(front[visit] == slots[visit]);
            }
            lemma_claimed_within_quotas(fewer, front);
            assert(claimed[claimed.len() - 1].jobs@.len() <= statement_quota(
                slots[claimed.len() - 1].1 as int,
            ));
        }
    }
}

pub(crate) proof fn lemma_claimed_prefix<C>(queues: Seq<QueueJobs<C>>, count: int)
    requires
        0 <= count <= queues.len(),
    ensures
        claimed_count(queues.take(count)) <= claimed_count(queues),
    decreases queues.len(),
{
    if count == queues.len() {
        assert(queues.take(count) =~= queues);
    } else {
        lemma_claimed_prefix(queues.drop_last(), count);
        assert(queues.drop_last().take(count) =~= queues.take(count));
    }
}

/// A wave visits at least one task.
proof fn lemma_slot_count<C>(coordinator: ClaimCoordinator, run: WaveRun<C>)
    requires
        run.wf(coordinator),
        run.phase != WavePhase::Finished,
    ensures
        run.allocation@.len() == crate::quotas::visited_queues(
            run.tasks@.len() as int,
            run.capacity as int,
        ),
        run.allocation@.len() > 0,
{
    assert(crate::quotas::allocation_view(run.allocation@).len() == run.allocation@.len());
}

/// Every slot of a wave names a registered task and has room for at least one job.
proof fn lemma_slot<C>(coordinator: ClaimCoordinator, run: WaveRun<C>, visit: int)
    requires
        run.wf(coordinator),
        run.phase != WavePhase::Finished,
        0 <= visit < run.allocation@.len(),
    ensures
        run.allocation@[visit].0 < run.tasks@.len(),
        run.allocation@[visit].1 >= 1,
{
    let slots = crate::quotas::allocation(
        run.tasks@.len() as int,
        run.capacity as int,
        coordinator.state.queue_rotation as int,
    );
    assert(slots.len() == run.allocation@.len()) by {
        assert(crate::quotas::allocation_view(run.allocation@).len() == run.allocation@.len());
    }
    crate::quotas::law_allocation_is_even(
        run.tasks@.len() as int,
        run.capacity as int,
        coordinator.state.queue_rotation as int,
        visit,
        visit,
    );
    assert(crate::quotas::allocation_view(run.allocation@)[visit] == slots[visit]);
}

} // verus!
