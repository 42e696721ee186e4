//! Laws of workers and of what they run.

use std::sync::Arc;

use vstd::prelude::*;

use crate::claim_coordinator::ClaimCoordinator;
use crate::definition::JobDefinition;
use crate::job::Job;
use crate::local_queue::config::LocalQueueConfig;
use crate::local_queue::state::{LocalQueue, LocalQueueMode};
use crate::options::WorkerOptions;
use crate::runner::run_once::RunOnceJob;
use crate::runner::sources::{JobSignalSource, LocalQueueSource, SourceStep};
use crate::runner::worker::{Worker, WorkerRunner};

verus! {

/// Law: a definition gives back what it was made from, as one that runs jobs one by one
/// and as one that runs them as a batch.
pub proof fn law_definitions_give_back_their_parts<H>(
    identifier: &str,
    handler: H,
    definition: JobDefinition<H>,
    batch: JobDefinition<H>,
    name: &str,
    batch_name: &str,
    shared: Arc<H>,
    parts: (String, Arc<H>),
)
    requires
        call_ensures(JobDefinition::<H>::of, (identifier, handler), definition),
        call_ensures(JobDefinition::<H>::of_batch, (identifier, handler), batch),
        call_ensures(JobDefinition::<H>::identifier, (&definition,), name),
        call_ensures(JobDefinition::<H>::identifier, (&batch,), batch_name),
        call_ensures(JobDefinition::<H>::handler, (&definition,), shared),
        call_ensures(JobDefinition::<H>::into_parts, (batch,), parts),
    ensures
        name@ == identifier@,
        batch_name@ == identifier@,
        *shared == handler,
        parts.0@ == identifier@,
        *parts.1 == handler,
{
}

/// Law: another identifier replaces the identifier and keeps the handler.
pub proof fn law_renaming_keeps_the_handler<H>(
    definition: JobDefinition<H>,
    identifier: &str,
    renamed: JobDefinition<H>,
    name: &str,
    before: Arc<H>,
    after: Arc<H>,
)
    requires
        call_ensures(JobDefinition::<H>::with_identifier, (definition, identifier), renamed),
        call_ensures(JobDefinition::<H>::identifier, (&renamed,), name),
        call_ensures(JobDefinition::<H>::handler, (&definition,), before),
        call_ensures(JobDefinition::<H>::handler, (&renamed,), after),
    ensures
        name@ == identifier@,
        *after == *before,
{
}

/// Law: a copy of a definition has the same identifier and the same handler.
pub proof fn law_copied_definitions_are_the_same<H>(
    definition: &JobDefinition<H>,
    copy: JobDefinition<H>,
    name: &str,
    copied_name: &str,
    handler: Arc<H>,
    copied_handler: Arc<H>,
)
    requires
        call_ensures(JobDefinition::<H>::clone, (definition,), copy),
        call_ensures(JobDefinition::<H>::identifier, (definition,), name),
        call_ensures(JobDefinition::<H>::identifier, (&copy,), copied_name),
        call_ensures(JobDefinition::<H>::handler, (definition,), handler),
        call_ensures(JobDefinition::<H>::handler, (&copy,), copied_handler),
    ensures
        copied_name@ == name@,
        *copied_handler == *handler,
{
}

/// Law: options begin without a local queue and without forbidden flags.
pub proof fn law_options_begin_empty(options: WorkerOptions)
    requires
        call_ensures(WorkerOptions::default, (), options),
    ensures
        options.local_queue_config is None,
        options.forbidden_flags@.len() == 0,
{
}

/// Law: enabling a local queue makes the worker use just that one, unless it has forbidden
/// flags, which stay as they are.
pub proof fn law_enabled_queues_are_used_without_flags(
    options: WorkerOptions,
    config: LocalQueueConfig,
    enabled: WorkerOptions,
    active: Option<LocalQueueConfig>,
)
    requires
        call_ensures(WorkerOptions::local_queue, (options, config), enabled),
        call_ensures(WorkerOptions::active_local_queue, (&enabled,), active),
    ensures
        enabled.forbidden_flags == options.forbidden_flags,
        enabled.local_queue_config == Some(config),
        options.forbidden_flags@.len() == 0 ==> active == Some(config),
        options.forbidden_flags@.len() > 0 ==> active is None,
{
}

/// Law: a runner is its worker's, with the same handles and without a count of its own.
pub proof fn law_runners_are_their_workers<H, T>(worker: &Worker<H>, runner: WorkerRunner<H, T>)
    requires
        call_ensures(Worker::<H>::runner::<T>, (worker,), runner),
    ensures
        runner.worker_id == worker.worker_id,
        runner.schema == worker.schema,
        runner.use_local_time == worker.use_local_time,
        runner.shutdown_config == worker.shutdown_config,
        runner.handles == worker.handles,
        runner.accepted_tracker is None,
{
}

/// Law: a worker creates a local queue if and only if one is configured and it has no
/// forbidden flags. The queue is the worker's, keeps polling, and has room for two signals
/// for each job that may run.
pub proof fn law_workers_create_their_queue<H, C>(
    worker: &Worker<H>,
    created: Option<(LocalQueue<C>, usize)>,
)
    requires
        call_ensures(Worker::<H>::create_local_queue::<C>, (worker,), created),
    ensures
        created is Some <==> worker.options.local_queue_config is Some
            && worker.options.forbidden_flags@.len() == 0,
        created matches Some((queue, signals)) ==> {
            &&& signals == 2 * worker.concurrency
            &&& worker.options.local_queue_config == Some(queue.0.config)
            &&& queue.0.worker_id == worker.worker_id
            &&& queue.0.poll_interval == worker.poll_interval
            &&& queue.0.shutdown_grace_period == worker.shutdown_config.grace_period
            &&& queue.0.continuous
            &&& queue.0.mode == LocalQueueMode::Starting
        },
{
}

/// Law: a worker that was woken by a notification passes it on first, and no other. It runs
/// each job that it gets on behalf of what woke it, and every further job on behalf of the
/// local queue.
pub proof fn law_jobs_run_on_behalf_of_their_source<C, E>(
    source: JobSignalSource,
    start: (LocalQueueSource, Option<usize>),
    job: Job<C>,
    has_hooks: bool,
    step: SourceStep<C>,
)
    requires
        call_ensures(LocalQueueSource::process_local_queue_source, (source,), start),
        call_ensures(
            LocalQueueSource::job_taken::<C>,
            (&start.0, Some(job), has_hooks),
            step,
        ),
    ensures
        start.1 is Some <==> source == JobSignalSource::Notification,
        start.1 matches Some(count) ==> count == 1,
        step matches SourceStep::Run { job: given, source: on_behalf, announce } && given == job
            && on_behalf == source && announce == has_hooks,
{
}

/// Law: without a job the work is done. A job that failed ends the work with its error, and
/// one that did not lets it go on for the local queue.
pub proof fn law_failed_jobs_end_the_work<C, E>(
    run: &mut LocalQueueSource,
    result: Result<(), E>,
    outcome: Result<(), E>,
    has_hooks: bool,
    step: SourceStep<C>,
)
    requires
        call_ensures(LocalQueueSource::job_finished::<E>, (run, result), outcome),
        call_ensures(LocalQueueSource::job_taken::<C>, (&*old(run), None, has_hooks), step),
    ensures
        outcome == result,
        result is Ok ==> final(run).source == JobSignalSource::LocalQueue,
        result is Err ==> final(run).source == old(run).source,
        step is Done,
{
}

/// Law: a job with an ordering key is followed by another claim, and its task is then
/// scanned from the beginning. A job without one is not, and changes nothing.
pub proof fn law_ordered_jobs_are_followed_by_a_claim<C>(
    job: &Job<C>,
    run: RunOnceJob,
    coordinator: &mut ClaimCoordinator,
    claim_next: bool,
)
    requires
        call_ensures(RunOnceJob::of::<C>, (job,), run),
        call_ensures(RunOnceJob::job_processed, (&run, coordinator), claim_next),
    ensures
        claim_next <==> job.job_queue_id is Some,
        claim_next ==> final(coordinator).state.ordering_cursors@
            == old(coordinator).state.ordering_cursors@.insert(job.task_id, None),
        claim_next ==> final(coordinator).state.queue_rotation
            == old(coordinator).state.queue_rotation && final(coordinator).worker_id
            == old(coordinator).worker_id,
        !claim_next ==> *final(coordinator) == *old(coordinator),
{
}

/// Law: what a claim brought in is run next, and a claim that failed brought in nothing.
pub proof fn law_claimed_jobs_are_run_next<C, E>(
    claim: Result<Option<Job<C>>, E>,
    next: Option<Job<C>>,
)
    requires
        call_ensures(RunOnceJob::next_job::<C, E>, (claim,), next),
    ensures
        claim matches Ok(claimed) ==> next == claimed,
        claim is Err ==> next is None,
{
}

} // verus!
