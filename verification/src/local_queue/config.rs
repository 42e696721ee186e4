//! Configuration of a local queue.

use std::time::Duration;

use vstd::prelude::*;

verus! {

/// How many jobs a local queue accepts unless told otherwise.
pub const DEFAULT_LOCAL_QUEUE_SIZE: usize = 100;

/// How many seconds a job waits unless told otherwise.
pub const DEFAULT_LOCAL_QUEUE_TTL_SECONDS: u64 = 300;

/// When to hold back after a fetch that brought in few jobs.
#[derive(Debug, Clone, Copy, PartialEq, Eq)]
pub struct RefetchDelayConfig {
    /// How long to hold back.
    pub duration: Duration,
    /// A fetch that brings in more jobs than this is not followed by a delay.
    pub threshold: usize,
    /// The most notifications that a delay sits out before it is cut short.
    pub max_abort_threshold: usize,
}

impl RefetchDelayConfig {
    /// The same delay with another length.
    pub fn with_duration(self, duration: Duration) -> (config: Self)
        ensures
            config == (RefetchDelayConfig { duration, ..self }),
    {
        RefetchDelayConfig { duration, ..self }
    }

    /// The same delay with another threshold.
    pub fn with_threshold(self, threshold: usize) -> (config: Self)
        ensures
            config == (RefetchDelayConfig { threshold, ..self }),
    {
        RefetchDelayConfig { threshold, ..self }
    }

    /// The same delay with another limit on notifications.
    pub fn with_max_abort_threshold(self, max_abort_threshold: usize) -> (config: Self)
        ensures
            config == (RefetchDelayConfig { max_abort_threshold, ..self }),
    {
        RefetchDelayConfig { max_abort_threshold, ..self }
    }
}

/// Why a configuration is refused.
#[derive(Debug, Clone, Copy, PartialEq, Eq)]
pub enum LocalQueueConfigError {
    /// The refetch delay is longer than the poll interval.
    RefetchDelayExceedsPollInterval { duration: Duration, poll_interval: Duration },
    /// The queue would accept no job.
    EmptySize,
    /// The size does not fit into a quota.
    SizeTooLarge { size: usize, max: i32 },
}

/// Configuration of a local queue.
#[derive(Debug, Clone, Copy, PartialEq, Eq)]
pub struct LocalQueueConfig {
    /// Process-wide maximum number of accepted jobs. Buffered, running, and
    /// completion- or failure-pending jobs all count against this limit.
    pub size: usize,
    /// How long locally fetched jobs may stay unclaimed before they are returned to
    /// the database.
    pub ttl: Duration,
    /// Optional delay that is used when a fetch returns fewer jobs than requested.
    pub refetch_delay: Option<RefetchDelayConfig>,
}

/// Why a local queue of this configuration cannot work beside the poll interval, if
/// it cannot. A refetch delay that is too long comes before a bad size.
pub open spec fn config_error(
    config: LocalQueueConfig,
    poll_interval: Duration,
) -> Option<LocalQueueConfigError> {
    if config.refetch_delay matches Some(delay) && crate::time::duration_nanos(delay.duration)
        > crate::time::duration_nanos(poll_interval) {
        Some(
            LocalQueueConfigError::RefetchDelayExceedsPollInterval {
                duration: config.refetch_delay->0.duration,
                poll_interval,
            },
        )
    } else if config.size == 0 {
        Some(LocalQueueConfigError::EmptySize)
    } else if config.size > i32::MAX {
        Some(LocalQueueConfigError::SizeTooLarge { size: config.size, max: i32::MAX })
    } else {
        None
    }
}

impl Default for LocalQueueConfig {
    /// Room for 100 jobs that may wait for five minutes, without a refetch delay.
    fn default() -> (config: Self)
        ensures
            config.size == DEFAULT_LOCAL_QUEUE_SIZE,
            crate::time::duration_nanos(config.ttl) == DEFAULT_LOCAL_QUEUE_TTL_SECONDS
                * 1_000_000_000,
            config.refetch_delay is None,
    {
        LocalQueueConfig::builder().build()
    }
}

impl LocalQueueConfig {
    /// Starts a builder in which nothing is set yet.
    pub fn builder() -> (builder: LocalQueueConfigBuilder)
        ensures
            builder.size is None,
            builder.ttl is None,
            builder.refetch_delay is None,
    {
        LocalQueueConfigBuilder { size: None, ttl: None, refetch_delay: None }
    }

    /// Checks the configuration against the poll interval of the worker.
    pub fn validate(&self, poll_interval: Duration) -> (result: Result<
        (),
        LocalQueueConfigError,
    >)
        ensures
            match config_error(*self, poll_interval) {
                Some(error) => result == Err::<(), LocalQueueConfigError>(error),
                None => result == Ok::<(), LocalQueueConfigError>(()),
            },
            result is Ok <==> {
                &&& 0 < self.size <= i32::MAX
                &&& self.refetch_delay matches Some(delay) ==> crate::time::duration_nanos(
                    delay.duration,
                ) <= crate::time::duration_nanos(poll_interval)
            },
            match result {
                Ok(_) => true,
                Err(
                    LocalQueueConfigError::RefetchDelayExceedsPollInterval {
                        duration,
                        poll_interval: interval,
                    },
                ) => interval == poll_interval && (self.refetch_delay matches Some(delay)
                    && duration == delay.duration && crate::time::duration_nanos(duration)
                    > crate::time::duration_nanos(poll_interval)),
                Err(LocalQueueConfigError::EmptySize) => self.size == 0,
                Err(LocalQueueConfigError::SizeTooLarge { size, max }) => size == self.size && max
                    == i32::MAX && size > i32::MAX,
            },
            (self.refetch_delay matches Some(delay) && crate::time::duration_nanos(delay.duration)
                > crate::time::duration_nanos(poll_interval)) ==> (result matches Err(
                LocalQueueConfigError::RefetchDelayExceedsPollInterval { .. },
            )),
    {
        if let Some(refetch_delay) = self.refetch_delay {
            if refetch_delay.duration.as_nanos() > poll_interval.as_nanos() {
                return Err(
                    LocalQueueConfigError::RefetchDelayExceedsPollInterval {
                        duration: refetch_delay.duration,
                        poll_interval,
                    },
                );
            }
        }
        if self.size == 0 {
            return Err(LocalQueueConfigError::EmptySize);
        }
        if self.size > i32::MAX as usize {
            return Err(LocalQueueConfigError::SizeTooLarge { size: self.size, max: i32::MAX });
        }
        Ok(())
    }

    /// The same configuration with another size.
    pub fn with_size(self, size: usize) -> (config: Self)
        ensures
            config == (LocalQueueConfig { size, ..self }),
    {
        LocalQueueConfig { size, ..self }
    }

    /// The same configuration with another time to live.
    pub fn with_ttl(self, ttl: Duration) -> (config: Self)
        ensures
            config == (LocalQueueConfig { ttl, ..self }),
    {
        LocalQueueConfig { ttl, ..self }
    }

    /// The same configuration with a refetch delay.
    pub fn with_refetch_delay(self, refetch_delay: RefetchDelayConfig) -> (config: Self)
        ensures
            config == (LocalQueueConfig { refetch_delay: Some(refetch_delay), ..self }),
    {
        LocalQueueConfig { refetch_delay: Some(refetch_delay), ..self }
    }
}

/// Collects a configuration. What is not set gets its default.
#[derive(Debug, Clone, Copy, PartialEq, Eq)]
pub struct LocalQueueConfigBuilder {
    pub size: Option<usize>,
    pub ttl: Option<Duration>,
    pub refetch_delay: Option<RefetchDelayConfig>,
}

impl LocalQueueConfigBuilder {
    /// Sets the size.
    pub fn size(self, size: usize) -> (builder: Self)
        ensures
            builder == (LocalQueueConfigBuilder { size: Some(size), ..self }),
    {
        LocalQueueConfigBuilder { size: Some(size), ..self }
    }

    /// Sets the time to live.
    pub fn ttl(self, ttl: Duration) -> (builder: Self)
        ensures
            builder == (LocalQueueConfigBuilder { ttl: Some(ttl), ..self }),
    {
        LocalQueueConfigBuilder { ttl: Some(ttl), ..self }
    }

    /// Sets the refetch delay.
    pub fn refetch_delay(self, refetch_delay: RefetchDelayConfig) -> (builder: Self)
        ensures
            builder == (LocalQueueConfigBuilder { refetch_delay: Some(refetch_delay), ..self }),
    {
        LocalQueueConfigBuilder { refetch_delay: Some(refetch_delay), ..self }
    }

    /// Builds the configuration.
    pub fn build(self) -> (config: LocalQueueConfig)
        ensures
            config.size == (match self.size {
                Some(size) => size,
                None => DEFAULT_LOCAL_QUEUE_SIZE,
            }),
            match self.ttl {
                Some(ttl) => config.ttl == ttl,
                None => crate::time::duration_nanos(config.ttl) == DEFAULT_LOCAL_QUEUE_TTL_SECONDS
                    * 1_000_000_000,
            },
            config.refetch_delay == self.refetch_delay,
    {
        LocalQueueConfig {
            size: match self.size {
                Some(size) => size,
                None => DEFAULT_LOCAL_QUEUE_SIZE,
            },
            ttl: match self.ttl {
                Some(ttl) => ttl,
                None => Duration::from_secs(DEFAULT_LOCAL_QUEUE_TTL_SECONDS),
            },
            refetch_delay: self.refetch_delay,
        }
    }
}

/// Law: a configuration is refused if and only if its delay is longer than the poll
/// interval, or its size is zero or no quota. The delay is complained of first, and what
/// is complained of is what was given.
pub proof fn law_only_bad_configurations_are_refused(
    config: LocalQueueConfig,
    poll_interval: Duration,
)
    ensures
        ({
            let too_long = config.refetch_delay matches Some(delay) && crate::time::duration_nanos(
                delay.duration,
            ) > crate::time::duration_nanos(poll_interval);
            let error = config_error(config, poll_interval);
            &&& error is None <==> !too_long && 0 < config.size <= i32::MAX
            &&& too_long ==> error == Some(
                LocalQueueConfigError::RefetchDelayExceedsPollInterval {
                    duration: config.refetch_delay->0.duration,
                    poll_interval,
                },
            )
            &&& !too_long && config.size == 0 ==> error == Some(LocalQueueConfigError::EmptySize)
            &&& !too_long && config.size > i32::MAX ==> error == Some(
                LocalQueueConfigError::SizeTooLarge { size: config.size, max: i32::MAX },
            )
        }),
{
}

/// Law: a size that passes the check leaves every wave of the local queue a quota
/// that a claim statement can carry unchanged.
pub proof fn law_valid_size_is_a_quota(
    config: LocalQueueConfig,
    poll_interval: Duration,
    quota: int,
)
    requires
        config_error(config, poll_interval) is None,
        0 <= quota <= config.size,
    ensures
        crate::claim_coordinator::statement_quota(quota) == quota,
{
}

} // verus!
