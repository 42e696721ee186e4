use std::sync::Arc;
use std::time::Duration;

use graphile_worker::claim_coordinator::ClaimCoordinator;
use graphile_worker::job::Job;
use graphile_worker::local_queue::config::LocalQueueConfig;
use graphile_worker::local_queue::state::{LocalQueue, LocalQueueMode};
use graphile_worker::options::WorkerOptions;
use graphile_worker::runner::run_once::RunOnceJob;
use graphile_worker::runner::sources::{JobSignalSource, LocalQueueSource, SourceStep};
use graphile_worker::runner::worker::{ShutdownConfig, Worker, WorkerRunner};
use graphile_worker::schema::Schema;

fn schema() -> Schema {
    Schema {
        jobs: "w._private_jobs".to_string(),
        job_queues: "w._private_job_queues".to_string(),
        worker_control: "w._private_worker_control".to_string(),
        remove_job: "w.remove_job".to_string(),
        complete_jobs: "w.complete_jobs".to_string(),
        permanently_fail_jobs: "w.permanently_fail_jobs".to_string(),
        reschedule_jobs: "w.reschedule_jobs".to_string(),
        force_unlock_workers: "w.force_unlock_workers".to_string(),
    }
}

fn worker(options: WorkerOptions) -> Worker<u8> {
    Worker {
        worker_id: "worker".to_string(),
        schema: schema(),
        options,
        concurrency: 4,
        poll_interval: Duration::from_secs(2),
        use_local_time: true,
        shutdown_config: ShutdownConfig { grace_period: Duration::from_secs(5) },
        handles: Arc::new(1),
    }
}

fn job(job_queue_id: Option<i32>) -> Job<()> {
    Job {
        id: 1,
        job_queue_id,
        task_id: 8,
        task_identifier: "a".to_string(),
        columns: (),
    }
}

#[test]
fn a_runner_shares_the_handles_of_its_worker() {
    let worker = worker(WorkerOptions::default());
    let runner: WorkerRunner<u8, ()> = worker.runner();
    assert_eq!(runner.worker_id, "worker");
    assert_eq!(runner.schema.job_queues, "w._private_job_queues");
    assert_eq!(runner.schema.force_unlock_workers, "w.force_unlock_workers");
    assert!(runner.use_local_time);
    assert_eq!(runner.shutdown_config.grace_period, Duration::from_secs(5));
    assert!(Arc::ptr_eq(&runner.handles, &worker.handles));
    assert!(runner.accepted_tracker.is_none());
}

#[test]
fn a_local_queue_is_created_only_if_one_is_used() {
    let config = LocalQueueConfig::default().with_size(9);
    let without: Option<(LocalQueue<()>, usize)> =
        worker(WorkerOptions::default()).create_local_queue();
    assert!(without.is_none());

    let mut busy = worker(WorkerOptions::default());
    busy.concurrency = usize::MAX;
    let without: Option<(LocalQueue<()>, usize)> = busy.create_local_queue();
    assert!(without.is_none());

    let (queue, signals): (LocalQueue<()>, usize) =
        worker(WorkerOptions::default().local_queue(config))
            .create_local_queue()
            .expect("a local queue is configured");
    assert_eq!(signals, 8);
    assert_eq!(queue.0.mode, LocalQueueMode::Starting);
    assert_eq!(queue.0.config, config);
    assert_eq!(queue.0.worker_id, "worker");
    assert_eq!(queue.0.poll_interval, Duration::from_secs(2));
    assert_eq!(queue.0.shutdown_grace_period, Duration::from_secs(5));
    assert!(queue.0.continuous);

    let mut options = WorkerOptions::default().local_queue(config);
    options.forbidden_flags.push("slow".to_string());
    let bypassed: Option<(LocalQueue<()>, usize)> = worker(options).create_local_queue();
    assert!(bypassed.is_none());
}

#[test]
fn a_notification_is_passed_on_before_the_first_job() {
    let (run, pulse) =
        LocalQueueSource::process_local_queue_source(JobSignalSource::Notification);
    assert_eq!(run.source, JobSignalSource::Notification);
    assert_eq!(pulse, Some(1));
    let (_, pulse) = LocalQueueSource::process_local_queue_source(JobSignalSource::LocalQueue);
    assert_eq!(pulse, None);
}

#[test]
fn jobs_are_taken_until_the_local_queue_is_empty() {
    let (mut run, _) =
        LocalQueueSource::process_local_queue_source(JobSignalSource::Notification);
    assert_eq!(
        run.job_taken(Some(job(None)), true),
        SourceStep::Run {
            job: job(None),
            source: JobSignalSource::Notification,
            announce: true,
        }
    );
    assert_eq!(run.job_finished::<&str>(Ok(())), Ok(()));
    assert_eq!(
        run.job_taken(Some(job(None)), false),
        SourceStep::Run { job: job(None), source: JobSignalSource::LocalQueue, announce: false }
    );
    assert_eq!(run.job_finished(Err("lost")), Err("lost"));
    let nothing: Option<Job<()>> = None;
    assert_eq!(run.job_taken(nothing, true), SourceStep::Done);
}

#[test]
fn a_job_with_an_ordering_key_is_followed_by_another_claim() {
    let mut coordinator = ClaimCoordinator::new(schema(), "worker".to_string(), vec![], false);
    coordinator.state.ordering_cursors.insert(8, Some(3));
    assert!(!RunOnceJob::of(&job(None)).job_processed(&mut coordinator));
    assert_eq!(coordinator.state.ordering_cursors.get(&8), Some(&Some(3)));
    assert!(RunOnceJob::of(&job(Some(2))).job_processed(&mut coordinator));
    assert_eq!(coordinator.state.ordering_cursors.get(&8), Some(&None));
}

#[test]
fn a_failed_claim_counts_as_an_empty_one() {
    let failed: Result<Option<Job<()>>, &str> = Err("lost");
    assert_eq!(RunOnceJob::next_job(failed), None);
    let claimed: Result<Option<Job<()>>, &str> = Ok(Some(job(None)));
    assert_eq!(RunOnceJob::next_job(claimed), Some(job(None)));
    let empty: Result<Option<Job<()>>, &str> = Ok(None);
    assert_eq!(RunOnceJob::next_job(empty), None);
}
