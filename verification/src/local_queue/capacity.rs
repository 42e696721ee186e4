//! The cap on accepted jobs, over everything that happens to a local queue.

use vstd::prelude::*;

use crate::local_queue::state::LocalQueueState;

verus! {

/// What a step of a local queue means for its cap. Every method of the queue says
/// which of these it is.
pub ghost enum CapacityStep {
    /// Nothing.
    Quiet,
    /// A wave of this capacity is claimed.
    FetchStarted(int),
    /// The wave is over and has claimed this many jobs.
    FetchFinished(int),
    /// This many jobs of the wave were buffered.
    Received(int),
    /// This many accepted jobs are done with.
    Settled(int),
}

/// What a step does to the state. A wave starts only if none is under way, and asks
/// for exactly what is free.
pub open spec fn capacity_step<C>(
    before: LocalQueueState<C>,
    step: CapacityStep,
    after: LocalQueueState<C>,
) -> bool {
    let accepted = before.accepted_tracker.accepted as int;
    &&& after.config == before.config
    &&& match step {
        CapacityStep::Quiet => {
            &&& after.accepted_tracker.accepted == accepted
            &&& after.fetch_in_progress == before.fetch_in_progress
        },
        CapacityStep::FetchStarted(capacity) => {
            &&& capacity == before.free()
            &&& after.accepted_tracker.accepted == accepted
            &&& !before.fetch_in_progress && after.fetch_in_progress
        },
        CapacityStep::FetchFinished(jobs) => {
            &&& jobs >= 0
            &&& after.accepted_tracker.accepted == accepted
            &&& !after.fetch_in_progress
        },
        CapacityStep::Received(jobs) => {
            &&& after.accepted_tracker.accepted == accepted + jobs
            &&& after.fetch_in_progress == before.fetch_in_progress
        },
        CapacityStep::Settled(jobs) => {
            &&& jobs >= 0
            &&& after.accepted_tracker.accepted == accepted - jobs
            &&& after.fetch_in_progress == before.fetch_in_progress
        },
    }
}

/// Whether a queue went through these states by these steps.
pub open spec fn is_history<C>(states: Seq<LocalQueueState<C>>, steps: Seq<CapacityStep>) -> bool {
    &&& states.len() == steps.len() + 1
    &&& forall|i: int|
        0 <= i < steps.len() ==> capacity_step(states[i], #[trigger] steps[i], states[i + 1])
}

/// How many jobs may still come in from the wave that was claimed last.
pub open spec fn jobs_to_come(steps: Seq<CapacityStep>) -> int
    decreases steps.len(),
{
    if steps.len() == 0 {
        0
    } else {
        match steps.last() {
            CapacityStep::FetchStarted(capacity) => capacity,
            CapacityStep::FetchFinished(jobs) => jobs,
            CapacityStep::Received(_) => 0,
            _ => jobs_to_come(steps.drop_last()),
        }
    }
}

/// How many jobs came in beyond what was asked for: a wave that claimed more than its
/// capacity, or more jobs buffered than were to come.
pub open spec fn overrun(steps: Seq<CapacityStep>) -> int
    decreases steps.len(),
{
    if steps.len() == 0 {
        0
    } else {
        let earlier = steps.drop_last();
        overrun(earlier) + match steps.last() {
            CapacityStep::FetchFinished(jobs) => excess(jobs, jobs_to_come(earlier)),
            CapacityStep::Received(jobs) => excess(jobs, jobs_to_come(earlier)),
            _ => 0,
        }
    }
}

/// By how much a number exceeds what is allowed.
pub open spec fn excess(number: int, allowed: int) -> int {
    if number > allowed {
        number - allowed
    } else {
        0
    }
}

/// Whether every wave kept to its capacity, and no more was buffered than came in.
pub open spec fn waves_keep_to_capacity(steps: Seq<CapacityStep>) -> bool {
    forall|i: int|
        0 <= i < steps.len() ==> match #[trigger] steps[i] {
            CapacityStep::FetchFinished(jobs) => jobs <= jobs_to_come(steps.take(i)),
            CapacityStep::Received(jobs) => jobs <= jobs_to_come(steps.take(i)),
            _ => true,
        }
}

/// Law: the size is a cap on accepted jobs in every state. Whatever happens to a
/// queue that starts within its size, in whatever order jobs are claimed, buffered,
/// run, returned and settled: the accepted jobs together with those still to come
/// from a wave exceed the size by no more than the database handed out beyond what
/// the queue asked for. If it kept to what was asked for, they never exceed the size.
pub proof fn law_size_caps_accepted_jobs<C>(
    states: Seq<LocalQueueState<C>>,
    steps: Seq<CapacityStep>,
    at: int,
)
    requires
        is_history(states, steps),
        states[0].accepted_tracker.accepted <= states[0].config.size,
        0 <= at < states.len(),
    ensures
        states[at].config == states[0].config,
        0 <= jobs_to_come(steps.take(at)),
        0 <= overrun(steps.take(at)),
        states[at].accepted_tracker.accepted + jobs_to_come(steps.take(at))
            <= states[at].config.size + overrun(steps.take(at)),
        waves_keep_to_capacity(steps) ==> states[at].accepted_tracker.accepted + jobs_to_come(
            steps.take(at),
        ) <= states[at].config.size,
{
    lemma_size_and_overrun(states, steps, at);
    if waves_keep_to_capacity(steps) {
        lemma_no_overrun(steps, at);
    }
}

/// The cap holds up to the overrun.
proof fn lemma_size_and_overrun<C>(
    states: Seq<LocalQueueState<C>>,
    steps: Seq<CapacityStep>,
    at: int,
)
    requires
        is_history(states, steps),
        states[0].accepted_tracker.accepted <= states[0].config.size,
        0 <= at < states.len(),
    ensures
        states[at].config == states[0].config,
        0 <= jobs_to_come(steps.take(at)),
        0 <= overrun(steps.take(at)),
        states[at].accepted_tracker.accepted + jobs_to_come(steps.take(at))
            <= states[at].config.size + overrun(steps.take(at)),
    decreases at,
{
    if at > 0 {
        lemma_size_and_overrun(states, steps, at - 1);
        let step = steps[at - 1];
        assert(capacity_step(states[at - 1], step, states[at - 1 + 1]));
        assert(steps.take(at).drop_last() =~= steps.take(at - 1));
        assert(steps.take(at).last() == step);
    }
}

/// Waves that keep to their capacity do not overrun it.
proof fn lemma_no_overrun(steps: Seq<CapacityStep>, at: int)
    requires
        waves_keep_to_capacity(steps),
        0 <= at <= steps.len(),
    ensures
        overrun(steps.take(at)) == 0,
    decreases at,
{
    if at > 0 {
        lemma_no_overrun(steps, at - 1);
        assert(steps.take(at).drop_last() =~= steps.take(at - 1));
        assert(steps.take(at).last() == steps[at - 1]);
    }
}

/// Law: waves do not overlap. Between two that were claimed, the first one was over.
pub proof fn law_waves_do_not_overlap<C>(
    states: Seq<LocalQueueState<C>>,
    steps: Seq<CapacityStep>,
    first: int,
    second: int,
)
    requires
        is_history(states, steps),
        0 <= first < second < steps.len(),
        steps[first] is FetchStarted,
        steps[second] is FetchStarted,
    ensures
        exists|k: int| first < k < second && #[trigger] steps[k] is FetchFinished,
{
    assert(capacity_step(states[first], steps[first], states[first + 1]));
    assert(capacity_step(states[second], steps[second], states[second + 1]));
    if forall|k: int| first < k < second ==> !(#[trigger] steps[k] is FetchFinished) {
        lemma_wave_goes_on(states, steps, first, second);
    }
}

/// As long as a wave is not finished, it is under way.
proof fn lemma_wave_goes_on<C>(
    states: Seq<LocalQueueState<C>>,
    steps: Seq<CapacityStep>,
    first: int,
    at: int,
)
    requires
        is_history(states, steps),
        0 <= first < at <= steps.len(),
        steps[first] is FetchStarted,
        forall|k: int| first < k < at ==> !(#[trigger] steps[k] is FetchFinished),
    ensures
        states[at].fetch_in_progress,
    decreases at - first,
{
    assert(capacity_step(states[at - 1], steps[at - 1], states[at - 1 + 1]));
    if at > first + 1 {
        lemma_wave_goes_on(states, steps, first, at - 1);
    }
}

} // verus!
