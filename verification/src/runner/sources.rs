//! Jobs that come from the local queue.

use vstd::prelude::*;

use crate::job::Job;

verus! {

/// What made a worker look for a job.
#[derive(Debug, Clone, Copy, PartialEq, Eq, Structural)]
pub enum JobSignalSource {
    /// The database announced a job.
    Notification,
    /// The job before was taken from the local queue.
    LocalQueue,
    /// The worker runs once and then stops.
    RunOnce,
}

/// A worker that takes jobs from the local queue until it is empty.
#[derive(Debug, Clone, Copy, PartialEq, Eq, Structural)]
pub struct LocalQueueSource {
    /// What made the worker look for the next job.
    pub source: JobSignalSource,
}

/// What is to be done with what the local queue gave.
#[derive(Debug, PartialEq, Eq)]
pub enum SourceStep<C> {
    /// The queue is empty, and the worker is done.
    Done,
    /// Run this job, on behalf of this source. Tell the hooks first if `announce`.
    Run { job: Job<C>, source: JobSignalSource, announce: bool },
}

impl LocalQueueSource {
    /// Starts on a signal. The second part says how many announced jobs the local
    /// queue is to be told of before the first job is taken.
    pub fn process_local_queue_source(source: JobSignalSource) -> (start: (Self, Option<usize>))
        ensures
            start.0 == (LocalQueueSource { source }),
            start.1 == if source == JobSignalSource::Notification {
                Some(1usize)
            } else {
                None
            },
    {
        let pulse: Option<usize> = if source == JobSignalSource::Notification {
            Some(1)
        } else {
            None
        };
        (LocalQueueSource { source }, pulse)
    }

    /// Takes what the local queue gave.
    pub fn job_taken<C>(&self, job: Option<Job<C>>, has_hooks: bool) -> (step: SourceStep<C>)
        ensures
            step == match job {
                None => SourceStep::Done,
                Some(job) => SourceStep::Run { job, source: self.source, announce: has_hooks },
            },
    {
        match job {
            None => SourceStep::Done,
            Some(job) => SourceStep::Run { job, source: self.source, announce: has_hooks },
        }
    }

    /// Takes the result of a job. A failure ends the work. Otherwise the next job is
    /// taken on behalf of the local queue.
    pub fn job_finished<E>(&mut self, result: Result<(), E>) -> (outcome: Result<(), E>)
        ensures
            outcome == result,
            final(self).source == if result is Ok {
                JobSignalSource::LocalQueue
            } else {
                old(self).source
            },
    {
        if result.is_ok() {
            self.source = JobSignalSource::LocalQueue;
        }
        result
    }
}

} // verus!
