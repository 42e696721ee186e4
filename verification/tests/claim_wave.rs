use graphile_worker::claim_coordinator::{
    count_claimed, ClaimCoordinator, ClaimWave, QueueJobs, WaveAction, WaveEvent, WavePhase,
    WaveRun, WaveStart,
};
use graphile_worker::job::{DbJob, Job};
use graphile_worker::queries::claim_queue_jobs::{
    lock_worker_control, ClaimRow, WorkerControlState,
};
use graphile_worker::query::{DbValue, Query};
use graphile_worker::schema::Schema;

type Event = WaveEvent<(), &'static str>;
type Action = WaveAction<(), &'static str>;

fn schema() -> Schema {
    Schema {
        jobs: "w._private_jobs".to_string(),
        job_queues: "w._private_job_queues".to_string(),
        worker_control: "w._private_worker_control".to_string(),
        remove_job: "w.remove_job".to_string(),
        complete_jobs: "w.complete_jobs".to_string(),
        permanently_fail_jobs: "w.permanently_fail_jobs".to_string(),
        reschedule_jobs: "w.reschedule_jobs".to_string(),
        force_unlock_workers: "w.force_unlock_workers".to_string(),
    }
}

fn coordinator(use_local_time: bool) -> ClaimCoordinator {
    ClaimCoordinator::new(
        schema(),
        "worker".to_string(),
        vec!["slow".to_string()],
        use_local_time,
    )
}

fn tasks() -> Vec<(i32, String)> {
    vec![(30, "c".to_string()), (10, "a".to_string()), (20, "b".to_string())]
}

fn begin(coordinator: &ClaimCoordinator, capacity: usize, cancellable: bool) -> WaveRun<()> {
    match coordinator.claim_wave(capacity, tasks(), cancellable) {
        WaveStart::Begin(run) => run,
        WaveStart::Finished(_) => panic!("the wave has something to do"),
    }
}

fn open() -> Event {
    WaveEvent::Control(WorkerControlState { paused: false, pause_reason: None })
}

fn paused() -> Event {
    WaveEvent::Control(WorkerControlState {
        paused: true,
        pause_reason: Some("upgrade".to_string()),
    })
}

fn rows(ids: &[i64], cursor: Option<i32>) -> Event {
    if ids.is_empty() {
        return WaveEvent::Rows(vec![ClaimRow {
            next_ordering_cursor: Ok(cursor),
            job: Ok(None),
        }]);
    }
    WaveEvent::Rows(
        ids.iter()
            .map(|id| ClaimRow {
                next_ordering_cursor: Ok(cursor),
                job: Ok(Some(DbJob { id: *id, job_queue_id: None, task_id: 0, columns: () })),
            })
            .collect(),
    )
}

fn job(id: i64, identifier: &str) -> Job<()> {
    Job {
        id,
        job_queue_id: None,
        task_id: 0,
        task_identifier: identifier.to_string(),
        columns: (),
    }
}

fn step(coordinator: &mut ClaimCoordinator, run: &mut WaveRun<()>, event: Event) -> Action {
    assert!(run.is_awaiting(&event));
    coordinator.step(run, event)
}

fn task_and_quota(action: &Action) -> (i32, i32, Option<i32>) {
    match action {
        WaveAction::Fetch(Query { params, .. }) => match (&params[1], &params[2], &params[3]) {
            (DbValue::I32(task), DbValue::I32(quota), DbValue::I32Opt(cursor)) => {
                (*task, *quota, *cursor)
            }
            _ => panic!("the parameters are in place"),
        },
        _ => panic!("a claim comes next"),
    }
}

#[test]
fn a_wave_claims_for_one_task_after_the_other() {
    let mut coordinator = coordinator(false);
    let mut run = begin(&coordinator, 4, false);
    assert_eq!(
        run.tasks,
        vec![(10, "a".to_string()), (20, "b".to_string()), (30, "c".to_string())]
    );

    let action = step(&mut coordinator, &mut run, WaveEvent::Begun);
    assert_eq!(action, WaveAction::LockControl(lock_worker_control(&schema())));
    let action = step(&mut coordinator, &mut run, open());
    assert_eq!(task_and_quota(&action), (10, 2, None));
    let action = step(&mut coordinator, &mut run, rows(&[1, 2], Some(5)));
    assert_eq!(task_and_quota(&action), (20, 1, None));
    let action = step(&mut coordinator, &mut run, rows(&[], None));
    assert_eq!(task_and_quota(&action), (30, 1, None));
    let action = step(&mut coordinator, &mut run, rows(&[3], Some(8)));
    assert_eq!(action, WaveAction::Commit);
    assert!(coordinator.state.ordering_cursors.is_empty());

    let action = step(&mut coordinator, &mut run, WaveEvent::Committed);
    let claimed = vec![
        QueueJobs { identifier: "a".to_string(), jobs: vec![job(1, "a"), job(2, "a")] },
        QueueJobs { identifier: "b".to_string(), jobs: vec![] },
        QueueJobs { identifier: "c".to_string(), jobs: vec![job(3, "c")] },
    ];
    assert_eq!(count_claimed(&claimed), 3);
    assert_eq!(action, WaveAction::Return(Ok(Some(ClaimWave::Claimed(claimed)))));
    assert_eq!(coordinator.state.queue_rotation, 1);
    assert_eq!(coordinator.state.ordering_cursors.get(&10), Some(&Some(5)));
    assert_eq!(coordinator.state.ordering_cursors.get(&20), Some(&None));
    assert_eq!(coordinator.state.ordering_cursors.get(&30), Some(&Some(8)));
    assert_eq!(run.phase, WavePhase::Finished);

    let mut run = begin(&coordinator, 1, false);
    step(&mut coordinator, &mut run, WaveEvent::Begun);
    let action = step(&mut coordinator, &mut run, open());
    assert_eq!(task_and_quota(&action), (20, 1, None));
}

#[test]
fn a_claim_goes_on_from_the_cursor_until_the_scan_is_restarted() {
    let mut coordinator = coordinator(false);
    let mut run = begin(&coordinator, 3, false);
    step(&mut coordinator, &mut run, WaveEvent::Begun);
    step(&mut coordinator, &mut run, open());
    step(&mut coordinator, &mut run, rows(&[], Some(5)));
    step(&mut coordinator, &mut run, rows(&[], Some(6)));
    step(&mut coordinator, &mut run, rows(&[], Some(7)));
    step(&mut coordinator, &mut run, WaveEvent::Committed);

    coordinator.restart_task_scan(30);
    let mut run = begin(&coordinator, 3, false);
    step(&mut coordinator, &mut run, WaveEvent::Begun);
    let action = step(&mut coordinator, &mut run, open());
    assert_eq!(task_and_quota(&action), (20, 1, Some(6)));
    let action = step(&mut coordinator, &mut run, rows(&[], None));
    assert_eq!(task_and_quota(&action), (30, 1, None));
    let action = step(&mut coordinator, &mut run, rows(&[], None));
    assert_eq!(task_and_quota(&action), (10, 1, Some(5)));
}

#[test]
fn a_wave_without_capacity_or_tasks_is_over_at_once() {
    let coordinator = coordinator(false);
    let nothing: Vec<QueueJobs<()>> = vec![];
    match coordinator.claim_wave(0, tasks(), false) {
        WaveStart::Finished(wave) => assert_eq!(wave, ClaimWave::Claimed(nothing)),
        WaveStart::Begin(_) => panic!("there is no capacity"),
    }
    let nothing: Vec<QueueJobs<()>> = vec![];
    match coordinator.claim_wave(5, vec![], false) {
        WaveStart::Finished(wave) => assert_eq!(wave, ClaimWave::Claimed(nothing)),
        WaveStart::Begin(_) => panic!("there are no tasks"),
    }
}

#[test]
fn a_paused_wave_commits_and_leaves_the_coordinator_alone() {
    let mut coordinator = coordinator(false);
    let mut run = begin(&coordinator, 2, false);
    step(&mut coordinator, &mut run, WaveEvent::Begun);
    assert_eq!(step(&mut coordinator, &mut run, paused()), WaveAction::Commit);
    assert_eq!(
        step(&mut coordinator, &mut run, WaveEvent::Committed),
        WaveAction::Return(Ok(Some(ClaimWave::Paused)))
    );
    assert_eq!(coordinator.state.queue_rotation, 0);
    assert!(coordinator.state.ordering_cursors.is_empty());
}

#[test]
fn a_shutdown_calls_off_a_wave_that_waits_for_the_control_row() {
    let mut coordinator = coordinator(false);
    let mut run = begin(&coordinator, 1, true);
    let early: Event = WaveEvent::ShutdownRequested;
    assert!(!run.is_awaiting(&early));
    step(&mut coordinator, &mut run, WaveEvent::Begun);
    assert_eq!(
        step(&mut coordinator, &mut run, WaveEvent::ShutdownRequested),
        WaveAction::Return(Ok(None))
    );
    assert_eq!(coordinator.state.queue_rotation, 0);

    let mut run = begin(&coordinator, 1, false);
    step(&mut coordinator, &mut run, WaveEvent::Begun);
    let shutdown: Event = WaveEvent::ShutdownRequested;
    assert!(!run.is_awaiting(&shutdown));
}

#[test]
fn a_failure_at_any_point_leaves_the_coordinator_alone() {
    for failing_step in 0..5 {
        let mut coordinator = coordinator(false);
        let mut run = begin(&coordinator, 2, false);
        let events =
            vec![WaveEvent::Begun, open(), rows(&[1], Some(4)), rows(&[2], Some(4))];
        let mut last: Option<Action> = None;
        for (index, event) in events.into_iter().enumerate() {
            if index == failing_step {
                break;
            }
            last = Some(step(&mut coordinator, &mut run, event));
        }
        if failing_step == 4 {
            assert_eq!(last, Some(WaveAction::Commit));
        }
        assert_eq!(
            step(&mut coordinator, &mut run, WaveEvent::Failed("lost")),
            WaveAction::Return(Err("lost"))
        );
        assert_eq!(coordinator.state.queue_rotation, 0);
        assert!(coordinator.state.ordering_cursors.is_empty());
        assert_eq!(run.phase, WavePhase::Finished);
    }
}

#[test]
fn a_row_that_cannot_be_read_ends_the_wave() {
    let mut coordinator = coordinator(false);
    let mut run = begin(&coordinator, 2, false);
    step(&mut coordinator, &mut run, WaveEvent::Begun);
    step(&mut coordinator, &mut run, open());
    let event = WaveEvent::Rows(vec![ClaimRow {
        next_ordering_cursor: Ok(None),
        job: Err("bad payload"),
    }]);
    assert_eq!(
        step(&mut coordinator, &mut run, event),
        WaveAction::Return(Err("bad payload"))
    );
    assert_eq!(coordinator.state.queue_rotation, 0);
}

#[test]
fn local_time_is_read_from_the_clock() {
    let mut local = coordinator(true);
    let mut run = begin(&local, 1, false);
    step(&mut local, &mut run, WaveEvent::Begun);
    let action = step(&mut local, &mut run, open());
    match action {
        WaveAction::Fetch(query) => match &query.params[5] {
            DbValue::TimestampTzOpt(Some(time)) => {
                assert!(time.seconds > 1_600_000_000);
                assert!(time.nanos < 1_000_000_000);
            }
            _ => panic!("the time is the last parameter"),
        },
        _ => panic!("a claim comes next"),
    }

    let mut remote = coordinator(false);
    let mut run = begin(&remote, 1, false);
    step(&mut remote, &mut run, WaveEvent::Begun);
    let action = step(&mut remote, &mut run, open());
    match action {
        WaveAction::Fetch(query) => {
            assert_eq!(query.params[4], DbValue::TextArray(vec!["slow".to_string()]));
            assert_eq!(query.params[5], DbValue::TimestampTzOpt(None));
        }
        _ => panic!("a claim comes next"),
    }
}

#[test]
fn a_quota_that_does_not_fit_is_cut_down() {
    let mut coordinator = coordinator(false);
    let mut run = match coordinator.claim_wave(usize::MAX, vec![(1, "a".to_string())], false) {
        WaveStart::Begin(run) => run,
        WaveStart::Finished(_) => panic!("the wave has something to do"),
    };
    step(&mut coordinator, &mut run, WaveEvent::Begun);
    let action = step(&mut coordinator, &mut run, open());
    assert_eq!(task_and_quota(&action), (1, i32::MAX, None));
}

#[test]
fn waves_for_one_job_visit_every_task_once() {
    let mut coordinator = coordinator(false);
    let mut visited = Vec::new();
    for _ in 0..3 {
        let mut run = begin(&coordinator, 1, true);
        step(&mut coordinator, &mut run, WaveEvent::Begun);
        let action = step(&mut coordinator, &mut run, open());
        visited.push(task_and_quota(&action));
        assert_eq!(step(&mut coordinator, &mut run, rows(&[], None)), WaveAction::Commit);
        step(&mut coordinator, &mut run, WaveEvent::Committed);
    }
    assert_eq!(visited, vec![(10, 1, None), (20, 1, None), (30, 1, None)]);
    assert_eq!(coordinator.state.queue_rotation, 0);
}

#[test]
fn the_largest_valid_size_is_a_quota() {
    let mut coordinator = coordinator(false);
    let capacity = i32::MAX as usize;
    let mut run = match coordinator.claim_wave(capacity, vec![(1, "a".to_string())], false) {
        WaveStart::Begin(run) => run,
        WaveStart::Finished(_) => panic!("the wave has something to do"),
    };
    step(&mut coordinator, &mut run, WaveEvent::Begun);
    let action = step(&mut coordinator, &mut run, open());
    assert_eq!(task_and_quota(&action), (1, 2_147_483_647, None));
}

#[test]
fn the_last_visit_under_a_number_sets_the_cursor() {
    let mut coordinator = coordinator(false);
    coordinator.state.ordering_cursors.insert(9, Some(1));
    let tasks = vec![(4, "a".to_string()), (5, "b".to_string()), (4, "c".to_string())];
    let mut run = match coordinator.claim_wave(3, tasks, false) {
        WaveStart::Begin(run) => run,
        WaveStart::Finished(_) => panic!("the wave has something to do"),
    };
    step(&mut coordinator, &mut run, WaveEvent::Begun);
    step(&mut coordinator, &mut run, open());
    step(&mut coordinator, &mut run, rows(&[], Some(11)));
    step(&mut coordinator, &mut run, rows(&[], Some(12)));
    step(&mut coordinator, &mut run, rows(&[], Some(13)));
    step(&mut coordinator, &mut run, WaveEvent::Committed);
    assert_eq!(coordinator.state.ordering_cursors.get(&4), Some(&Some(13)));
    assert_eq!(coordinator.state.ordering_cursors.get(&5), Some(&Some(12)));
    assert_eq!(coordinator.state.ordering_cursors.get(&9), Some(&Some(1)));
}
