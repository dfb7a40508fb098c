use veritas_sdr::deployment::canary::{
    CanaryConfig, CanaryController, CanaryDecision, CanaryPhase, CanaryState,
};
use veritas_sdr::deployment::metrics::MetricsCollector;
use veritas_sdr::deployment::thresholds::{max_level, AlertLevel, ThresholdResult};

fn result(level: AlertLevel) -> ThresholdResult {
    ThresholdResult {
        alert_level: level,
        error_rate_level: level,
        latency_level: AlertLevel::NoAlert,
        throughput_level: AlertLevel::NoAlert,
        reason: "because".to_string(),
    }
}

fn small_config() -> CanaryConfig {
    CanaryConfig { min_sample_size: 2, max_cycles: 2, ..CanaryConfig::default() }
}

fn feed(c: &mut CanaryController, n: usize) {
    for _ in 0..n {
        c.record_canary(1000, true);
        c.record_stable(1000, true);
    }
}

#[test]
fn alert_levels() {
    assert!(AlertLevel::Critical.requires_action());
    assert!(AlertLevel::AutoRollback.requires_action());
    assert!(!AlertLevel::Warning.requires_action());
    assert!(AlertLevel::AutoRollback.triggers_rollback());
    assert!(!AlertLevel::Critical.triggers_rollback());
    assert_eq!(max_level(&[]), AlertLevel::NoAlert);
    assert_eq!(
        max_level(&[AlertLevel::Warning, AlertLevel::Critical, AlertLevel::NoAlert]),
        AlertLevel::Critical
    );
}

#[test]
fn threshold_result_outcomes() {
    let r = result(AlertLevel::NoAlert);
    assert!(r.should_promote() && !r.should_rollback() && !r.should_continue());
    let r = result(AlertLevel::Warning);
    assert!(!r.should_promote() && !r.should_rollback() && r.should_continue());
    let r = result(AlertLevel::AutoRollback);
    assert!(!r.should_promote() && r.should_rollback() && !r.should_continue());
}

#[test]
fn phases_and_decisions() {
    assert!(CanaryPhase::Complete.is_terminal());
    assert!(CanaryPhase::Failed.is_terminal());
    assert!(!CanaryPhase::Analyzing.is_terminal());
    assert!(CanaryPhase::Progressing { weight: 5 }.allows_traffic());
    assert!(CanaryPhase::Analyzing.allows_traffic());
    assert!(!CanaryPhase::Promoting.allows_traffic());
    assert!(CanaryDecision::Promote.is_terminal());
    assert!(CanaryDecision::Rollback("x".into()).is_terminal());
    assert!(!CanaryDecision::AdvanceWeight(10).is_terminal());
    assert!(!CanaryDecision::InsufficientData.is_terminal());
    let s = CanaryState::default();
    assert_eq!(s.phase, CanaryPhase::Initializing);
    assert_eq!(s.traffic_weight, 0);
    let _ = s.time_in_phase();
    let _ = s.total_duration();
}

#[test]
fn metrics_window_keeps_latest_samples() {
    let mut m = MetricsCollector::new(3);
    for l in [1u64, 2, 3, 4, 5] {
        m.record_success(l);
    }
    m.record_error(6);
    assert_eq!(m.sample_count(), 3);
    assert_eq!(m.latencies().iter().copied().collect::<Vec<_>>(), vec![4, 5, 6]);
    assert_eq!(m.success_count(), 5);
    assert_eq!(m.error_count(), 1);
    m.reset();
    assert_eq!(m.sample_count(), 0);
    assert_eq!(m.success_count(), 0);
}

#[test]
fn canary_walks_the_weight_steps_then_promotes() {
    let mut c = CanaryController::new(small_config());
    c.start();
    assert_eq!(c.traffic_weight(), 5);
    assert!(matches!(c.analyze(false, result(AlertLevel::NoAlert)), CanaryDecision::InsufficientData));
    for expected in [10u8, 25, 50] {
        feed(&mut c, 2);
        match c.analyze(false, result(AlertLevel::NoAlert)) {
            CanaryDecision::AdvanceWeight(w) => assert_eq!(w, expected),
            other => panic!("unexpected {:?}", other),
        }
        assert_eq!(c.traffic_weight(), expected);
    }
    feed(&mut c, 2);
    assert!(matches!(c.analyze(false, result(AlertLevel::NoAlert)), CanaryDecision::Promote));
    assert_eq!(c.state().phase, CanaryPhase::Promoting);
}

#[test]
fn canary_rolls_back_and_stays_done() {
    let mut c = CanaryController::new(small_config());
    c.start();
    feed(&mut c, 2);
    match c.analyze(false, result(AlertLevel::AutoRollback)) {
        CanaryDecision::Rollback(reason) => assert_eq!(reason, "because"),
        other => panic!("unexpected {:?}", other),
    }
    assert_eq!(c.state().phase, CanaryPhase::RollingBack);
    c.fail();
    assert_eq!(c.traffic_weight(), 0);
    assert!(matches!(c.analyze(false, result(AlertLevel::NoAlert)), CanaryDecision::Complete));
    assert_eq!(c.state().phase, CanaryPhase::Failed);
}

#[test]
fn canary_max_cycles_and_timeout() {
    let mut c = CanaryController::new(small_config());
    c.start();
    feed(&mut c, 2);
    assert!(matches!(c.analyze(false, result(AlertLevel::Critical)), CanaryDecision::Continue));
    match c.analyze(false, result(AlertLevel::Critical)) {
        CanaryDecision::Rollback(reason) => assert_eq!(reason, "Max cycles reached"),
        other => panic!("unexpected {:?}", other),
    }
    let mut c = CanaryController::new(small_config());
    c.start();
    feed(&mut c, 2);
    let _ = c.analyze(false, result(AlertLevel::Warning));
    assert!(matches!(c.analyze(false, result(AlertLevel::Warning)), CanaryDecision::Promote));
    let mut c = CanaryController::new(small_config());
    c.start();
    assert!(matches!(c.analyze(true, result(AlertLevel::NoAlert)), CanaryDecision::Timeout));
    assert_eq!(c.state().phase, CanaryPhase::Failed);
    c.complete();
    assert_eq!(c.traffic_weight(), 100);
}

#[test]
fn canary_keeps_the_last_counted_result() {
    let mut c = CanaryController::new(small_config());
    c.start();
    assert!(c.state().last_result.is_none());
    assert!(!c.analysis_counts(false));
    let _ = c.analyze(false, result(AlertLevel::Critical));
    assert!(c.state().last_result.is_none());
    feed(&mut c, 2);
    assert!(c.analysis_counts(false));
    assert!(!c.analysis_counts(true));
    let _ = c.analyze(false, result(AlertLevel::Warning));
    let last = c.state().last_result.clone().unwrap();
    assert_eq!(last.alert_level, AlertLevel::Warning);
    assert_eq!(last.reason, "because");
    assert_eq!(c.state().analysis_cycles, 1);
}

#[test]
fn canary_without_weight_steps_can_be_made_and_rolled_back() {
    let config = CanaryConfig { weight_steps: Vec::new(), min_sample_size: 1, ..CanaryConfig::default() };
    let mut c = CanaryController::new(config);
    assert!(c.config().weight_steps.is_empty());
    c.start();
    assert_eq!(c.traffic_weight(), 0);
    feed(&mut c, 1);
    assert!(matches!(c.analyze(false, result(AlertLevel::AutoRollback)), CanaryDecision::Rollback(_)));
}
