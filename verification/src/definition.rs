//! Registration values for task handlers.

use std::sync::Arc;

use vstd::prelude::*;

use crate::shared::share;

verus! {

/// A reusable registration value: a task handler and the identifier of the task that
/// it handles.
///
/// With these, crates and modules can expose the jobs that they provide as values, so
/// that applications register a collection of jobs in one call.
pub struct JobDefinition<H> {
    identifier: String,
    handler: Arc<H>,
}

impl<H> Clone for JobDefinition<H> {
    fn clone(&self) -> (copy: Self)
        ensures
            copy.name() == self.name(),
            copy.task() == self.task(),
    {
        JobDefinition { identifier: self.identifier.clone(), handler: share(&self.handler) }
    }
}

impl<H> JobDefinition<H> {
    /// The identifier of the task.
    pub closed spec fn name(self) -> Seq<char> {
        self.identifier@
    }

    /// The handler of the task.
    pub closed spec fn task(self) -> H {
        *self.handler
    }

    /// Creates the definition of a handler that runs jobs one by one.
    pub fn of(identifier: &str, handler: H) -> (definition: Self)
        ensures
            definition.name() == identifier@,
            definition.task() == handler,
    {
        JobDefinition { identifier: identifier.to_string(), handler: Arc::new(handler) }
    }

    /// Creates the definition of a handler that runs the parts of a job as a batch.
    pub fn of_batch(identifier: &str, handler: H) -> (definition: Self)
        ensures
            definition.name() == identifier@,
            definition.task() == handler,
    {
        JobDefinition { identifier: identifier.to_string(), handler: Arc::new(handler) }
    }

    /// Replaces the identifier by one that was put together at run time. The handler
    /// stays.
    pub fn with_identifier(self, identifier: &str) -> (definition: Self)
        ensures
            definition.name() == identifier@,
            definition.task() == self.task(),
    {
        JobDefinition { identifier: identifier.to_string(), handler: self.handler }
    }

    /// The identifier of the task.
    pub fn identifier(&self) -> (identifier: &str)
        ensures
            identifier@ == self.name(),
    {
        self.identifier.as_str()
    }

    /// The handler of the task.
    pub fn handler(&self) -> (handler: Arc<H>)
        ensures
            *handler == self.task(),
    {
        share(&self.handler)
    }

    /// Splits the definition into the identifier and the handler.
    pub fn into_parts(self) -> (parts: (String, Arc<H>))
        ensures
            parts.0@ == self.name(),
            *parts.1 == self.task(),
    {
        (self.identifier, self.handler)
    }
}

} // verus!
