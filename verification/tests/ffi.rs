use veritas_sdr::engine::error::InferenceError as EngineError;
use veritas_sdr::engine::inference::InferenceError as RunError;
use veritas_sdr::ffi::error::CoreErrorCode;
use veritas_sdr::ffi::types::{CoreHealthReport, CoreHealthState};

#[test]
fn error_codes_have_their_c_values() {
    assert_eq!(CoreErrorCode::Success.code(), 0);
    assert_eq!(CoreErrorCode::NullPointer.code(), -1);
    assert_eq!(CoreErrorCode::Cancelled.code(), -15);
    assert_eq!(CoreErrorCode::Internal.code(), -99);
}

#[test]
fn engine_errors_map_to_codes() {
    assert_eq!(
        CoreErrorCode::from_engine_error(&EngineError::ModelNotLoaded("m".into())),
        CoreErrorCode::ModelNotFound
    );
    assert_eq!(
        CoreErrorCode::from_engine_error(&EngineError::MemoryExceeded { used: 2, limit: 1 }),
        CoreErrorCode::ContextExceeded
    );
    assert_eq!(
        CoreErrorCode::from_engine_error(&EngineError::QueueFull { current: 3, max: 2 }),
        CoreErrorCode::QueueFull
    );
    assert_eq!(CoreErrorCode::from_engine_error(&EngineError::Timeout(5)), CoreErrorCode::Timeout);
    assert_eq!(
        CoreErrorCode::from_run_error(&RunError::ContextExceeded { max: 1, got: 2 }),
        CoreErrorCode::ContextExceeded
    );
    assert_eq!(
        CoreErrorCode::from_run_error(&RunError::ExecutionFailed("x".into())),
        CoreErrorCode::InferenceFailed
    );
}

#[test]
fn health_report_default_is_unhealthy() {
    let r = CoreHealthReport::default();
    assert_eq!(r.state, CoreHealthState::Unhealthy);
    assert!(!r.ready);
    assert_eq!(r.uptime_secs, 0);
    assert_eq!(CoreHealthState::Degraded.value(), 1);
}
