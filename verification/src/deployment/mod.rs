//! Deployment automation for canary analysis: sample collection, alert
//! levels and the canary state machine.

pub mod canary;
pub mod metrics;
pub mod thresholds;

pub use canary::{CanaryConfig, CanaryController, CanaryDecision, CanaryPhase, CanaryState};
pub use metrics::MetricsCollector;
pub use thresholds::{max_level, AlertLevel, ThresholdResult};
