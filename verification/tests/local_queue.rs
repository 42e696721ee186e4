use std::time::Duration;

use graphile_worker::claim_coordinator::{ClaimWave, QueueJobs};
use graphile_worker::job::Job;
use graphile_worker::local_queue::buffers::QueueBuffers;
use graphile_worker::local_queue::config::{LocalQueueConfig, RefetchDelayConfig};
use graphile_worker::local_queue::fetch::{
    Delivery, FetchLoopAction, FetchLoopEvent, FetchOutcome, FetchStart,
};
use graphile_worker::local_queue::release::{ReleaseEnd, ReleaseNext, ReleaseStart, TtlExpiry};
use graphile_worker::local_queue::release::ReturnFailure;
use graphile_worker::local_queue::retry::{LocalQueueError, ReturnJobsAction, ReturnJobsRun};
use graphile_worker::local_queue::state::{
    LocalQueue, LocalQueueMode, LocalQueueParams, ModeTransition,
};

fn job(id: i64, identifier: &str) -> Job<()> {
    Job {
        id,
        job_queue_id: None,
        task_id: 1,
        task_identifier: identifier.to_string(),
        columns: (),
    }
}

fn jobs(identifier: &str, ids: &[i64]) -> Vec<Job<()>> {
    ids.iter().map(|id| job(*id, identifier)).collect()
}

fn queue_jobs(identifier: &str, ids: &[i64]) -> QueueJobs<()> {
    QueueJobs { identifier: identifier.to_string(), jobs: jobs(identifier, ids) }
}

fn ids(jobs: &[Job<()>]) -> Vec<i64> {
    jobs.iter().map(|job| job.id).collect()
}

fn params(size: usize, continuous: bool) -> LocalQueueParams {
    LocalQueueParams {
        config: LocalQueueConfig::default().with_size(size),
        worker_id: "worker".to_string(),
        poll_interval: Duration::from_millis(700),
        continuous,
        shutdown_grace_period: Duration::from_secs(3),
    }
}

fn polling(size: usize, continuous: bool) -> LocalQueue<()> {
    let mut queue = LocalQueue::new(params(size, continuous));
    queue.set_mode(LocalQueueMode::Polling);
    queue
}

fn change(old_mode: LocalQueueMode, new_mode: LocalQueueMode) -> Option<ModeTransition> {
    Some(ModeTransition { old_mode, new_mode })
}

#[test]
fn identifiers_take_turns_and_each_is_first_in_first_out() {
    let mut buffers: QueueBuffers<()> = QueueBuffers::new();
    buffers.push("a".to_string(), jobs("a", &[1, 2, 3]));
    buffers.push("b".to_string(), jobs("b", &[4]));
    buffers.push("c".to_string(), vec![]);
    buffers.push("a".to_string(), jobs("a", &[5]));
    assert_eq!(buffers.queues.len(), 2);
    assert_eq!(buffers.len(), 5);
    let mut order = Vec::new();
    while let Some(job) = buffers.pop_round_robin() {
        order.push(job.id);
    }
    assert_eq!(order, vec![1, 4, 2, 3, 5]);
    assert_eq!(buffers.len(), 0);
    assert_eq!(buffers.pop_round_robin(), None);
}

#[test]
fn three_pops_visit_three_deep_queues() {
    let mut buffers: QueueBuffers<()> = QueueBuffers::new();
    for identifier in ["a", "b", "c"] {
        buffers.push(identifier.to_string(), jobs(identifier, &[1, 2, 3, 4]));
    }
    let visited: Vec<String> = (0..3)
        .map(|_| buffers.pop_round_robin().expect("jobs are waiting").task_identifier)
        .collect();
    assert_eq!(visited, vec!["a", "b", "c"]);
}

#[test]
fn empty_buffers_give_nothing() {
    let mut buffers: QueueBuffers<()> = QueueBuffers::new();
    assert_eq!(buffers.pop_round_robin(), None);
    assert_eq!(buffers.len(), 0);
    assert_eq!(buffers.drain(), vec![]);
}

#[test]
fn draining_takes_all_jobs_queue_by_queue() {
    let mut buffers: QueueBuffers<()> = QueueBuffers::new();
    buffers.push("a".to_string(), jobs("a", &[1, 2]));
    buffers.push("b".to_string(), jobs("b", &[3]));
    assert_eq!(buffers.pop_round_robin(), Some(job(1, "a")));
    buffers.push("a".to_string(), jobs("a", &[4]));
    assert_eq!(ids(&buffers.drain()), vec![2, 4, 3]);
    assert_eq!(buffers.len(), 0);
    assert_eq!(buffers.next_queue, 1);
    buffers.push("b".to_string(), jobs("b", &[5]));
    assert_eq!(buffers.queues.len(), 2);
    assert_eq!(buffers.pop_round_robin(), Some(job(5, "b")));
}

#[test]
fn a_new_queue_starts_empty() {
    let queue: LocalQueue<()> = LocalQueue::new(params(5, true));
    assert_eq!(queue.0.mode, LocalQueueMode::Starting);
    assert_eq!(queue.0.accepted_tracker.accepted, 0);
    assert_eq!(queue.0.refetch_delay.abort_threshold, usize::MAX);
    assert_eq!(queue.0.worker_id, "worker");
    assert!(!queue.0.release_finished);
}

#[test]
fn mode_changes_are_reported_once() {
    let mut queue: LocalQueue<()> = LocalQueue::new(params(5, true));
    assert_eq!(
        queue.set_mode(LocalQueueMode::Polling),
        change(LocalQueueMode::Starting, LocalQueueMode::Polling)
    );
    assert_eq!(queue.set_mode(LocalQueueMode::Polling), None);
}

#[test]
fn a_released_queue_is_not_revived() {
    let mut queue = polling(5, true);
    queue.set_mode(LocalQueueMode::Released);
    for mode in [LocalQueueMode::Polling, LocalQueueMode::Waiting, LocalQueueMode::Starting] {
        assert_eq!(queue.set_mode(mode), None);
        assert_eq!(queue.0.mode, LocalQueueMode::Released);
    }
    assert_eq!(queue.received_jobs(vec![queue_jobs("a", &[1])]), None);
    assert_eq!(queue.0.mode, LocalQueueMode::Released);
    assert_eq!(queue.get_job(), (None, None));
    assert_eq!(queue.0.job_queues.len(), 1);
}

#[test]
fn the_last_job_sends_the_queue_back_to_polling() {
    let mut queue = polling(5, true);
    assert_eq!(
        queue.received_jobs(vec![queue_jobs("a", &[1]), queue_jobs("b", &[2])]),
        change(LocalQueueMode::Polling, LocalQueueMode::Waiting)
    );
    assert_eq!(queue.get_job(), (Some(job(1, "a")), None));
    assert_eq!(
        queue.get_job(),
        (Some(job(2, "b")), change(LocalQueueMode::Waiting, LocalQueueMode::Polling))
    );
    assert_eq!(queue.get_job(), (None, None));
    assert_eq!(queue.0.mode, LocalQueueMode::Polling);
    assert_eq!(queue.0.accepted_tracker.accepted, 2);
}

#[test]
fn expired_jobs_go_back_and_the_next_request_starts_polling() {
    let mut queue = polling(5, true);
    assert_eq!(queue.set_mode_ttl_expired(), TtlExpiry::NotWaiting);
    queue.received_jobs(vec![queue_jobs("a", &[1, 2])]);
    assert_eq!(queue.set_mode_ttl_expired(), TtlExpiry::Expired(jobs("a", &[1, 2])));
    assert_eq!(queue.0.mode, LocalQueueMode::TtlExpired);
    assert_eq!(queue.0.accepted_tracker.accepted, 2);
    assert_eq!(queue.ttl_jobs_returned(2, &Ok(())), Some(2));
    assert_eq!(queue.0.accepted_tracker.accepted, 0);
    assert_eq!(
        queue.get_job(),
        (None, change(LocalQueueMode::TtlExpired, LocalQueueMode::Polling))
    );
}

#[test]
fn expired_jobs_that_cannot_be_returned_are_settled_but_not_announced() {
    let mut queue = polling(5, true);
    queue.received_jobs(vec![queue_jobs("a", &[1])]);
    queue.set_mode_ttl_expired();
    let failure = Err(LocalQueueError::ReturnJobsError("lost".to_string()));
    assert_eq!(queue.ttl_jobs_returned(1, &failure), None);
    assert_eq!(queue.0.accepted_tracker.accepted, 0);
}

#[test]
fn the_fetch_loop_waits_fetches_and_stops() {
    let mut queue: LocalQueue<()> = LocalQueue::new(params(2, true));
    assert_eq!(queue.schedule_fetch(FetchLoopEvent::Woken), FetchLoopAction::AwaitState);
    queue.set_mode(LocalQueueMode::Polling);
    assert_eq!(queue.schedule_fetch(FetchLoopEvent::Woken), FetchLoopAction::Fetch);
    queue.0.refetch_delay.active = true;
    assert_eq!(queue.schedule_fetch(FetchLoopEvent::Woken), FetchLoopAction::AwaitState);
    queue.0.refetch_delay.active = false;
    queue.0.accepted_tracker.accepted = 2;
    assert_eq!(
        queue.schedule_fetch(FetchLoopEvent::Woken),
        FetchLoopAction::AwaitStateOrCapacity
    );
    queue.set_mode(LocalQueueMode::Released);
    assert_eq!(queue.schedule_fetch(FetchLoopEvent::Woken), FetchLoopAction::Stop);
}

#[test]
fn the_fetch_loop_pauses_unless_another_fetch_is_wanted() {
    let mut queue = polling(2, true);
    assert_eq!(
        queue.schedule_fetch(FetchLoopEvent::Fetched),
        FetchLoopAction::SleepOrState(Duration::from_millis(700))
    );
    queue.0.fetch_again = true;
    queue.0.refetch_delay.fetch_on_complete = true;
    assert_eq!(queue.schedule_fetch(FetchLoopEvent::Fetched), FetchLoopAction::Fetch);
    assert!(!queue.0.fetch_again);
    assert!(!queue.0.refetch_delay.fetch_on_complete);
    queue.received_jobs(vec![queue_jobs("a", &[1])]);
    assert_eq!(queue.schedule_fetch(FetchLoopEvent::Fetched), FetchLoopAction::AwaitState);
}

#[test]
fn a_queue_that_does_not_keep_polling_is_released_after_a_fetch() {
    let mut queue = polling(2, false);
    assert_eq!(
        queue.schedule_fetch(FetchLoopEvent::Fetched),
        FetchLoopAction::StopReleased(ModeTransition {
            old_mode: LocalQueueMode::Polling,
            new_mode: LocalQueueMode::Released,
        })
    );
    assert_eq!(queue.0.mode, LocalQueueMode::Released);
}

#[test]
fn a_fetch_asks_for_what_is_free() {
    let mut queue = polling(5, true);
    queue.received_jobs(vec![queue_jobs("a", &[1, 2])]);
    queue.0.refetch_delay.counter = 9;
    queue.0.fetch_again = true;
    assert_eq!(queue.start_fetch(), FetchStart::ClaimWave(3));
    assert!(queue.0.fetch_in_progress);
    assert!(!queue.0.fetch_again);
    assert_eq!(queue.0.refetch_delay.counter, 0);
    assert_eq!(queue.start_fetch(), FetchStart::Skip);
}

#[test]
fn a_fetch_during_a_delay_is_made_up_for_later() {
    let mut queue = polling(5, true);
    queue.0.refetch_delay.active = true;
    assert_eq!(queue.start_fetch(), FetchStart::Skip);
    assert!(queue.0.refetch_delay.fetch_on_complete);
    assert!(!queue.0.fetch_in_progress);
}

#[test]
fn a_paused_or_failed_wave_changes_nothing() {
    let mut queue = polling(5, true);
    queue.start_fetch();
    let outcome: FetchOutcome<(), &str> = queue.finish_fetch(5, Ok(ClaimWave::Paused));
    assert_eq!(outcome, FetchOutcome::Paused);
    assert!(!queue.0.fetch_in_progress);
    queue.start_fetch();
    let outcome = queue.finish_fetch(5, Err("lost"));
    assert_eq!(outcome, FetchOutcome::Failed("lost"));
    assert_eq!(queue.0.mode, LocalQueueMode::Polling);
    assert_eq!(queue.0.accepted_tracker.accepted, 0);
}

#[test]
fn few_jobs_start_a_delay_and_many_do_not() {
    let delay = RefetchDelayConfig {
        duration: Duration::from_millis(100),
        threshold: 1,
        max_abort_threshold: 10,
    };
    let mut queue = polling(4, true);
    queue.0.config = queue.0.config.with_refetch_delay(delay);
    let fetch = |queue: &mut LocalQueue<()>, capacity: usize, ids: &[i64]| {
        queue.start_fetch();
        let wave = ClaimWave::Claimed(vec![queue_jobs("a", ids)]);
        let outcome: FetchOutcome<(), ()> = queue.finish_fetch(capacity, Ok(wave));
        outcome
    };
    assert_eq!(
        fetch(&mut queue, 4, &[1]),
        FetchOutcome::Fetched {
            jobs_count: 1,
            delay: Some(delay),
            delivery: Delivery::Jobs { queues: vec![queue_jobs("a", &[1])], fetched_max: false },
        }
    );
    assert_eq!(
        fetch(&mut queue, 4, &[1, 2]),
        FetchOutcome::Fetched {
            jobs_count: 2,
            delay: None,
            delivery: Delivery::Jobs {
                queues: vec![queue_jobs("a", &[1, 2])],
                fetched_max: false,
            },
        }
    );
    assert_eq!(
        fetch(&mut queue, 1, &[1]),
        FetchOutcome::Fetched {
            jobs_count: 1,
            delay: None,
            delivery: Delivery::Jobs { queues: vec![queue_jobs("a", &[1])], fetched_max: true },
        }
    );
    assert_eq!(
        fetch(&mut queue, 0, &[]),
        FetchOutcome::Fetched { jobs_count: 0, delay: Some(delay), delivery: Delivery::Nothing }
    );
}

#[test]
fn a_queue_that_finds_nothing_and_does_not_keep_polling_is_released() {
    let mut queue = polling(4, false);
    queue.start_fetch();
    let outcome: FetchOutcome<(), ()> = queue.finish_fetch(4, Ok(ClaimWave::Claimed(vec![])));
    assert_eq!(
        outcome,
        FetchOutcome::Fetched { jobs_count: 0, delay: None, delivery: Delivery::Release }
    );
}

#[test]
fn accepted_jobs_never_exceed_the_size() {
    let mut queue = polling(3, true);
    let mut next_id = 0;
    for _ in 0..10 {
        if let FetchStart::ClaimWave(capacity) = queue.start_fetch() {
            let fetched: Vec<i64> = (0..capacity as i64).map(|id| next_id + id).collect();
            next_id += capacity as i64;
            let wave = ClaimWave::Claimed(vec![queue_jobs("a", &fetched)]);
            let outcome: FetchOutcome<(), ()> = queue.finish_fetch(capacity, Ok(wave));
            if let FetchOutcome::Fetched { delivery: Delivery::Jobs { queues, .. }, .. } = outcome {
                queue.received_jobs(queues);
            }
        }
        assert!(queue.0.accepted_tracker.accepted <= 3);
        if queue.get_job().0.is_some() {
            queue.settle(1);
        }
    }
    assert_eq!(next_id, 12);
}

#[test]
fn a_release_returns_every_buffered_job_once() {
    let mut queue = polling(5, true);
    queue.received_jobs(vec![queue_jobs("a", &[1, 2]), queue_jobs("b", &[3])]);
    queue.0.refetch_delay.active = true;
    assert_eq!(queue.release(), ReleaseStart::StopClaims(Duration::from_secs(3)));
    assert_eq!(queue.0.mode, LocalQueueMode::Released);
    assert!(!queue.0.refetch_delay.active);
    queue.received_jobs(vec![queue_jobs("b", &[4])]);
    match queue.collect_released() {
        ReleaseNext::Return(returned) => assert_eq!(ids(&returned), vec![1, 2, 3, 4]),
        ReleaseNext::Finished => panic!("jobs are waiting"),
    }
    assert_eq!(
        queue.finish_release(4, Ok(())),
        ReleaseEnd { result: Ok(()), announce: Some(4) }
    );
    assert_eq!(queue.0.accepted_tracker.accepted, 0);
    assert_eq!(queue.release(), ReleaseStart::Finished(Ok(())));
}

#[test]
fn a_release_without_jobs_is_finished_at_once() {
    let mut queue = polling(5, true);
    queue.release();
    assert_eq!(queue.collect_released(), ReleaseNext::Finished);
    assert_eq!(queue.release(), ReleaseStart::Finished(Ok(())));
}

#[test]
fn a_failed_release_answers_later_callers_with_its_text() {
    let mut queue = polling(5, true);
    queue.received_jobs(vec![queue_jobs("a", &[1])]);
    queue.release();
    queue.collect_released();
    let failure = ReturnFailure {
        error: LocalQueueError::ReturnJobsError("lost".to_string()),
        message: "could not return: lost".to_string(),
    };
    assert_eq!(
        queue.finish_release(1, Err(failure)),
        ReleaseEnd {
            result: Err(LocalQueueError::ReturnJobsError("lost".to_string())),
            announce: None,
        }
    );
    for _ in 0..2 {
        assert_eq!(
            queue.release(),
            ReleaseStart::Finished(Err(LocalQueueError::ReturnJobsError(
                "could not return: lost".to_string()
            )))
        );
    }
    assert_eq!(queue.0.accepted_tracker.accepted, 0);
}

#[test]
fn returning_jobs_is_tried_a_limited_number_of_times() {
    let mut run = ReturnJobsRun::new(3);
    assert_eq!(run.observe(Err("one".to_string())), ReturnJobsAction::RetryAfter(0));
    assert_eq!(run.observe(Err("two".to_string())), ReturnJobsAction::RetryAfter(1));
    assert_eq!(
        run.observe(Err("three".to_string())),
        ReturnJobsAction::Return(Err(LocalQueueError::ReturnJobsError(
            "Failed after 3 attempts: three".to_string()
        )))
    );
}

#[test]
fn a_return_that_succeeds_is_not_repeated() {
    let mut run = ReturnJobsRun::new(3);
    assert_eq!(run.observe(Err("one".to_string())), ReturnJobsAction::RetryAfter(0));
    assert_eq!(run.observe(Ok(())), ReturnJobsAction::Return(Ok(())));
}

#[test]
fn one_attempt_is_made_in_any_case() {
    let mut run = ReturnJobsRun::new(0);
    assert_eq!(
        run.observe(Err("lost".to_string())),
        ReturnJobsAction::Return(Err(LocalQueueError::ReturnJobsError(
            "Failed after 1 attempts: lost".to_string()
        )))
    );
}

#[test]
fn attempts_are_written_in_decimal() {
    let mut run = ReturnJobsRun { attempt: 1_234_567_889, max_attempts: 1_234_567_890 };
    assert_eq!(
        run.observe(Err("lost".to_string())),
        ReturnJobsAction::Return(Err(LocalQueueError::ReturnJobsError(
            "Failed after 1234567890 attempts: lost".to_string()
        )))
    );
}

#[test]
fn only_expired_jobs_are_returned() {
    let mut queue = polling(5, true);
    assert_eq!(queue.set_mode_ttl_expired().jobs_to_return(), None);
    queue.set_mode(LocalQueueMode::Waiting);
    let expiry = queue.set_mode_ttl_expired();
    assert_eq!(expiry, TtlExpiry::Expired(vec![]));
    assert_eq!(expiry.jobs_to_return(), None);
    queue.set_mode(LocalQueueMode::Polling);
    queue.received_jobs(vec![queue_jobs("a", &[1, 2])]);
    assert_eq!(queue.set_mode_ttl_expired().jobs_to_return(), Some(jobs("a", &[1, 2])));
}

#[test]
fn running_jobs_count_against_the_size() {
    let mut due: Vec<i64> = vec![1, 2, 3, 4, 5, 6];
    let mut queue = polling(3, true);
    assert_eq!(queue.schedule_fetch(FetchLoopEvent::Woken), FetchLoopAction::Fetch);
    assert_eq!(queue.start_fetch(), FetchStart::ClaimWave(3));
    assert_eq!(queue.start_fetch(), FetchStart::Skip);
    let claimed: Vec<i64> = due.drain(..3).collect();
    let wave = ClaimWave::Claimed(vec![queue_jobs("a", &claimed)]);
    let outcome: FetchOutcome<(), ()> = queue.finish_fetch(3, Ok(wave));
    match outcome {
        FetchOutcome::Fetched { delivery: Delivery::Jobs { queues, fetched_max }, .. } => {
            assert!(fetched_max);
            queue.received_jobs(queues);
        }
        _ => panic!("jobs were claimed"),
    }
    let started = (0..3).filter(|_| queue.get_job().0.is_some()).count();
    assert_eq!(started, 3);
    assert_eq!(queue.0.accepted_tracker.accepted, 3);
    assert_eq!(queue.0.mode, LocalQueueMode::Polling);
    assert_eq!(
        queue.schedule_fetch(FetchLoopEvent::Woken),
        FetchLoopAction::AwaitStateOrCapacity
    );
    queue.settle(1);
    assert_eq!(queue.schedule_fetch(FetchLoopEvent::Woken), FetchLoopAction::Fetch);
    assert_eq!(queue.start_fetch(), FetchStart::ClaimWave(1));
    assert_eq!(due.len(), 3);
}

#[test]
fn a_push_without_jobs_changes_nothing() {
    let mut buffers: QueueBuffers<()> = QueueBuffers::new();
    buffers.push("a".to_string(), jobs("a", &[1]));
    buffers.push("b".to_string(), vec![]);
    buffers.push("a".to_string(), vec![]);
    assert_eq!(buffers.queues.len(), 1);
    assert_eq!(buffers.queues[0].0, "a");
    assert_eq!(buffers.len(), 1);
    assert_eq!(buffers.next_queue, 0);
}

#[test]
fn the_size_is_exceeded_only_by_what_was_not_asked_for() {
    let mut queue = polling(2, true);
    assert_eq!(queue.start_fetch(), FetchStart::ClaimWave(2));
    let wave = ClaimWave::Claimed(vec![queue_jobs("a", &[1, 2, 3])]);
    let outcome: FetchOutcome<(), ()> = queue.finish_fetch(2, Ok(wave));
    if let FetchOutcome::Fetched { delivery: Delivery::Jobs { queues, .. }, .. } = outcome {
        queue.received_jobs(queues);
    }
    assert_eq!(queue.0.accepted_tracker.accepted, 3);
    assert_eq!(queue.start_fetch(), FetchStart::ClaimWave(0));
}
