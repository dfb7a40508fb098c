use veritas_sdr::engine::error::InferenceError;
use veritas_sdr::memory::limits::{ResourceLimits, ResourceLimitsConfig};

fn config_1mb_2concurrent() -> ResourceLimitsConfig {
    ResourceLimitsConfig {
        max_memory_per_call: 1024 * 1024,
        max_total_memory: 4 * 1024 * 1024,
        max_concurrent: 2,
    }
}

#[test]
fn acquire_within_limits_succeeds() {
    let mut limits = ResourceLimits::new(config_1mb_2concurrent());
    let guard = limits.try_acquire(512 * 1024);
    assert!(guard.is_ok());
    assert_eq!(limits.current_memory(), 512 * 1024);
    assert_eq!(limits.current_concurrent(), 1);
}

#[test]
fn per_call_memory_cap_rejects_oversized_request() {
    let mut limits = ResourceLimits::new(config_1mb_2concurrent());
    let err = limits.try_acquire(2 * 1024 * 1024).unwrap_err();
    assert!(matches!(err, InferenceError::MemoryExceeded { .. }), "expected MemoryExceeded, got {:?}", err);
    assert_eq!(limits.current_memory(), 0);
    assert_eq!(limits.current_concurrent(), 0);
}

#[test]
fn total_memory_cap_rejects_when_pool_full() {
    let mut limits = ResourceLimits::new(ResourceLimitsConfig {
        max_memory_per_call: 3 * 1024 * 1024,
        max_total_memory: 4 * 1024 * 1024,
        max_concurrent: 8,
    });
    let _g1 = limits.try_acquire(3 * 1024 * 1024).unwrap();
    let err = limits.try_acquire(2 * 1024 * 1024).unwrap_err();
    assert!(matches!(err, InferenceError::MemoryExceeded { .. }));
    assert_eq!(limits.current_memory(), 3 * 1024 * 1024);
}

#[test]
fn concurrency_cap_rejects_when_slots_exhausted() {
    let mut limits = ResourceLimits::new(ResourceLimitsConfig {
        max_memory_per_call: usize::MAX,
        max_total_memory: usize::MAX,
        max_concurrent: 1,
    });
    let _g = limits.try_acquire(0).unwrap();
    let err = limits.try_acquire(0).unwrap_err();
    assert!(matches!(err, InferenceError::QueueFull { .. }), "expected QueueFull, got {:?}", err);
    assert_eq!(limits.current_concurrent(), 1);
}

#[test]
fn guard_drop_releases_memory_and_concurrency() {
    let mut limits = ResourceLimits::new(config_1mb_2concurrent());
    {
        let guard = limits.try_acquire(1024).unwrap();
        assert_eq!(limits.current_memory(), 1024);
        assert_eq!(limits.current_concurrent(), 1);
        limits.release(guard);
    }
    assert_eq!(limits.current_memory(), 0);
    assert_eq!(limits.current_concurrent(), 0);
}

#[test]
fn max_memory_per_call_accessor_matches_config() {
    let limits = ResourceLimits::new(ResourceLimitsConfig {
        max_memory_per_call: 42 * 1024,
        max_total_memory: usize::MAX,
        max_concurrent: 1,
    });
    assert_eq!(limits.max_memory_per_call(), 42 * 1024);
}

#[test]
fn memory_cap_100_percent_rejection() {
    let mut limits = ResourceLimits::new(ResourceLimitsConfig {
        max_memory_per_call: 0,
        max_total_memory: usize::MAX,
        max_concurrent: 8,
    });
    for _ in 0..5 {
        let err = limits.try_acquire(1).unwrap_err();
        assert!(matches!(err, InferenceError::MemoryExceeded { .. }));
    }
    assert_eq!(limits.current_memory(), 0);
    assert_eq!(limits.current_concurrent(), 0);
}

#[test]
fn rejected_requests_report_usage_and_caps() {
    let mut limits = ResourceLimits::new(config_1mb_2concurrent());
    let err = limits.try_acquire(2 * 1024 * 1024).unwrap_err();
    assert_eq!(err, InferenceError::MemoryExceeded { used: 2 * 1024 * 1024, limit: 1024 * 1024 });
    let _a = limits.try_acquire(1).unwrap();
    let _b = limits.try_acquire(1).unwrap();
    let err = limits.try_acquire(1).unwrap_err();
    assert_eq!(err, InferenceError::QueueFull { current: 3, max: 2 });
}

#[test]
fn default_limits_config() {
    let c = ResourceLimitsConfig::default();
    assert_eq!(c.max_memory_per_call, 1024 * 1024 * 1024);
    assert_eq!(c.max_total_memory, 2 * 1024 * 1024 * 1024);
    assert_eq!(c.max_concurrent, 2);
}
