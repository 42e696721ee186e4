use std::time::Duration;

use graphile_worker::local_queue::config::{
    LocalQueueConfig, LocalQueueConfigError, RefetchDelayConfig,
};
use graphile_worker::options::WorkerOptions;

fn delay() -> RefetchDelayConfig {
    RefetchDelayConfig {
        duration: Duration::from_secs(1),
        threshold: 0,
        max_abort_threshold: 5,
    }
}

#[test]
fn the_default_holds_a_hundred_jobs_for_five_minutes() {
    let config = LocalQueueConfig::default();
    assert_eq!(config.size, 100);
    assert_eq!(config.ttl, Duration::from_secs(300));
    assert_eq!(config.refetch_delay, None);
}

#[test]
fn a_builder_keeps_what_is_set() {
    let config = LocalQueueConfig::builder()
        .size(7)
        .ttl(Duration::from_millis(20))
        .refetch_delay(delay())
        .build();
    assert_eq!(config.size, 7);
    assert_eq!(config.ttl, Duration::from_millis(20));
    assert_eq!(config.refetch_delay, Some(delay()));
    assert_eq!(LocalQueueConfig::builder().size(3).build().ttl, Duration::from_secs(300));
}

#[test]
fn single_values_can_be_replaced() {
    let config = LocalQueueConfig::default()
        .with_size(100)
        .with_ttl(Duration::from_secs(300))
        .with_refetch_delay(
            delay()
                .with_duration(Duration::from_millis(100))
                .with_threshold(10)
                .with_max_abort_threshold(500),
        );
    assert_eq!(config.size, 100);
    assert_eq!(
        config.refetch_delay,
        Some(RefetchDelayConfig {
            duration: Duration::from_millis(100),
            threshold: 10,
            max_abort_threshold: 500,
        })
    );
}

#[test]
fn a_good_configuration_is_accepted() {
    let config = LocalQueueConfig::default().with_refetch_delay(delay());
    assert_eq!(config.validate(Duration::from_secs(1)), Ok(()));
    assert_eq!(config.with_size(1).validate(Duration::from_secs(2)), Ok(()));
    assert_eq!(config.with_size(i32::MAX as usize).validate(Duration::from_secs(2)), Ok(()));
}

#[test]
fn a_delay_longer_than_the_poll_interval_is_refused_first() {
    let poll_interval = Duration::from_nanos(999_999_999);
    let config = LocalQueueConfig::default().with_size(0).with_refetch_delay(delay());
    assert_eq!(
        config.validate(poll_interval),
        Err(LocalQueueConfigError::RefetchDelayExceedsPollInterval {
            duration: Duration::from_secs(1),
            poll_interval,
        })
    );
}

#[test]
fn an_empty_queue_is_refused() {
    let config = LocalQueueConfig::default().with_size(0);
    assert_eq!(
        config.validate(Duration::from_secs(1)),
        Err(LocalQueueConfigError::EmptySize)
    );
}

#[test]
fn a_size_that_is_no_quota_is_refused() {
    let size = i32::MAX as usize + 1;
    assert_eq!(
        LocalQueueConfig::default().with_size(size).validate(Duration::from_secs(1)),
        Err(LocalQueueConfigError::SizeTooLarge { size, max: i32::MAX })
    );
}

#[test]
fn forbidden_flags_bypass_the_local_queue() {
    let config = LocalQueueConfig::default().with_size(9);
    let options = WorkerOptions::default();
    assert_eq!(options.active_local_queue(), None);
    let mut options = options.local_queue(config);
    assert_eq!(options.local_queue_config, Some(config));
    assert_eq!(options.active_local_queue(), Some(config));
    options.forbidden_flags.push("slow".to_string());
    assert_eq!(options.active_local_queue(), None);
}
