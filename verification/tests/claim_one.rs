use graphile_worker::claim_coordinator::{ClaimCoordinator, ClaimWave, QueueJobs};
use graphile_worker::claim_one::{take_first_job, ClaimOneAction};
use graphile_worker::job::Job;

type Action = ClaimOneAction<(), &'static str>;

fn job(id: i64, identifier: &str) -> Job<()> {
    Job {
        id,
        job_queue_id: None,
        task_id: 1,
        task_identifier: identifier.to_string(),
        columns: (),
    }
}

fn queue(identifier: &str, ids: &[i64]) -> QueueJobs<()> {
    QueueJobs {
        identifier: identifier.to_string(),
        jobs: ids.iter().map(|id| job(*id, identifier)).collect(),
    }
}

#[test]
fn without_tasks_there_is_nothing_to_claim() {
    let (run, action): (_, Action) = ClaimCoordinator::claim_one_until_shutdown(0);
    assert_eq!(run.waves_left, 0);
    assert_eq!(action, ClaimOneAction::Return(Ok(None)));
}

#[test]
fn waves_are_run_until_one_finds_a_job() {
    let (mut run, action): (_, Action) = ClaimCoordinator::claim_one_until_shutdown(3);
    assert_eq!(action, ClaimOneAction::ClaimWave);
    let action: Action = run.observe(Ok(Some(ClaimWave::Claimed(vec![queue("a", &[])]))));
    assert_eq!(action, ClaimOneAction::ClaimWave);
    let action: Action = run.observe(Ok(Some(ClaimWave::Claimed(vec![queue("b", &[4])]))));
    assert_eq!(action, ClaimOneAction::Return(Ok(Some(job(4, "b")))));
}

#[test]
fn after_one_wave_for_each_task_the_claim_gives_up() {
    let (mut run, _): (_, Action) = ClaimCoordinator::claim_one_until_shutdown(2);
    let action: Action = run.observe(Ok(Some(ClaimWave::Claimed(vec![]))));
    assert_eq!(action, ClaimOneAction::ClaimWave);
    let action: Action = run.observe(Ok(Some(ClaimWave::Claimed(vec![queue("b", &[])]))));
    assert_eq!(action, ClaimOneAction::Return(Ok(None)));
    assert_eq!(run.waves_left, 0);
}

#[test]
fn a_pause_a_shutdown_and_a_failure_end_the_claim() {
    let (mut run, _): (_, Action) = ClaimCoordinator::claim_one_until_shutdown(5);
    let action: Action = run.observe(Ok(Some(ClaimWave::Paused)));
    assert_eq!(action, ClaimOneAction::Return(Ok(None)));
    let (mut run, _): (_, Action) = ClaimCoordinator::claim_one_until_shutdown(5);
    let action: Action = run.observe(Ok(None));
    assert_eq!(action, ClaimOneAction::Return(Ok(None)));
    let (mut run, _): (_, Action) = ClaimCoordinator::claim_one_until_shutdown(5);
    let action: Action = run.observe(Err("lost"));
    assert_eq!(action, ClaimOneAction::Return(Err("lost")));
}

#[test]
fn the_first_job_of_the_first_queue_with_jobs_is_taken() {
    let queues = vec![queue("a", &[]), queue("b", &[2, 3]), queue("c", &[1])];
    assert_eq!(take_first_job(queues), Some(job(2, "b")));
    let empty: Vec<QueueJobs<()>> = vec![queue("a", &[])];
    assert_eq!(take_first_job(empty), None);
}
