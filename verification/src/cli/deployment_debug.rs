//! Deployment debugging: phases, statuses and errors of canary and
//! blue-green deployments, and rollback options.

use vstd::prelude::*;
use std::time::Duration;
use crate::text::concat2;
use crate::time::{duration_from_secs, duration_of_secs};

verus! {

/// Exit code of a successful deployment command.
pub const EXIT_SUCCESS: i32 = 0;
/// Exit code of a failed deployment command.
pub const EXIT_ERROR: i32 = 1;
/// Exit code of a deployment that runs degraded.
pub const EXIT_DEGRADED: i32 = 2;

/// Deployment debug errors.
#[derive(Debug, Clone, PartialEq, Eq)]
pub enum DeploymentError {
    KubernetesApi(String),
    NotFound(String),
    Timeout,
    InvalidState(String),
    RollbackFailed(String),
    Config(String),
}

impl DeploymentError {
    /// The text the error displays.
    pub open spec fn spec_message(&self) -> Seq<char> {
        match self {
            DeploymentError::KubernetesApi(s) => "Kubernetes API error: "@ + s@,
            DeploymentError::NotFound(s) => "Resource not found: "@ + s@,
            DeploymentError::Timeout => "Timeout waiting for operation"@,
            DeploymentError::InvalidState(s) => "Invalid state: "@ + s@,
            DeploymentError::RollbackFailed(s) => "Rollback failed: "@ + s@,
            DeploymentError::Config(s) => "Configuration error: "@ + s@,
        }
    }

    /// Human-readable description of the error.
    pub fn message(&self) -> (r: String)
        ensures
            r@ == self.spec_message(),
    {
        match self {
            DeploymentError::KubernetesApi(s) => concat2("Kubernetes API error: ", s.as_str()),
            DeploymentError::NotFound(s) => concat2("Resource not found: ", s.as_str()),
            DeploymentError::Timeout => "Timeout waiting for operation".to_owned(),
            DeploymentError::InvalidState(s) => concat2("Invalid state: ", s.as_str()),
            DeploymentError::RollbackFailed(s) => concat2("Rollback failed: ", s.as_str()),
            DeploymentError::Config(s) => concat2("Configuration error: ", s.as_str()),
        }
    }
}

/// Deployment phase for canary deployments.
#[derive(Debug, Clone, Copy, PartialEq, Eq, Structural)]
pub enum CanaryPhase {
    Pending,
    Progressing,
    Paused,
    Promoting,
    Complete,
    Failed,
    RollingBack,
}

impl CanaryPhase {
    /// The name the phase displays.
    pub open spec fn spec_name(&self) -> Seq<char> {
        match self {
            CanaryPhase::Pending => "Pending"@,
            CanaryPhase::Progressing => "Progressing"@,
            CanaryPhase::Paused => "Paused"@,
            CanaryPhase::Promoting => "Promoting"@,
            CanaryPhase::Complete => "Complete"@,
            CanaryPhase::Failed => "Failed"@,
            CanaryPhase::RollingBack => "RollingBack"@,
        }
    }

    /// The name the phase displays.
    pub fn to_display_string(&self) -> (r: String)
        ensures
            r@ == self.spec_name(),
    {
        match self {
            CanaryPhase::Pending => "Pending".to_owned(),
            CanaryPhase::Progressing => "Progressing".to_owned(),
            CanaryPhase::Paused => "Paused".to_owned(),
            CanaryPhase::Promoting => "Promoting".to_owned(),
            CanaryPhase::Complete => "Complete".to_owned(),
            CanaryPhase::Failed => "Failed".to_owned(),
            CanaryPhase::RollingBack => "RollingBack".to_owned(),
        }
    }
}

/// Deployment phase for blue-green environments.
#[derive(Debug, Clone, Copy, PartialEq, Eq, Structural)]
pub enum BlueGreenPhase {
    Stable,
    Switching,
    Verifying,
    RollingBack,
    Failed,
}

impl BlueGreenPhase {
    /// The name the phase displays.
    pub open spec fn spec_name(&self) -> Seq<char> {
        match self {
            BlueGreenPhase::Stable => "Stable"@,
            BlueGreenPhase::Switching => "Switching"@,
            BlueGreenPhase::Verifying => "Verifying"@,
            BlueGreenPhase::RollingBack => "RollingBack"@,
            BlueGreenPhase::Failed => "Failed"@,
        }
    }

    /// The name the phase displays.
    pub fn to_display_string(&self) -> (r: String)
        ensures
            r@ == self.spec_name(),
    {
        match self {
            BlueGreenPhase::Stable => "Stable".to_owned(),
            BlueGreenPhase::Switching => "Switching".to_owned(),
            BlueGreenPhase::Verifying => "Verifying".to_owned(),
            BlueGreenPhase::RollingBack => "RollingBack".to_owned(),
            BlueGreenPhase::Failed => "Failed".to_owned(),
        }
    }
}

/// Active environment in blue-green deployment.
#[derive(Debug, Clone, Copy, PartialEq, Eq, Structural)]
pub enum ActiveEnvironment {
    Blue,
    Green,
}

impl ActiveEnvironment {
    /// The name the environment displays.
    pub open spec fn spec_name(&self) -> Seq<char> {
        match self {
            ActiveEnvironment::Blue => "blue"@,
            ActiveEnvironment::Green => "green"@,
        }
    }

    /// The name the environment displays.
    pub fn to_display_string(&self) -> (r: String)
        ensures
            r@ == self.spec_name(),
    {
        match self {
            ActiveEnvironment::Blue => "blue".to_owned(),
            ActiveEnvironment::Green => "green".to_owned(),
        }
    }
}

/// Canary deployment status.
#[derive(Debug, Clone)]
pub struct CanaryStatus {
    pub phase: CanaryPhase,
    pub stable_version: String,
    pub canary_version: String,
    pub traffic_weight: u8,
    pub stable_replicas: u32,
    pub canary_replicas: u32,
    pub analysis_runs: u32,
    pub successful_analyses: u32,
    pub failed_analyses: u32,
}

/// Blue-green environment status.
#[derive(Debug, Clone)]
pub struct BlueGreenStatus {
    pub phase: BlueGreenPhase,
    pub active: ActiveEnvironment,
    pub blue_version: String,
    pub green_version: String,
    pub blue_ready_replicas: u32,
    pub green_ready_replicas: u32,
    pub blue_healthy: bool,
    pub green_healthy: bool,
}

/// Rollback target specification.
#[derive(Debug, Clone, Copy, PartialEq, Eq, Structural)]
pub enum RollbackTarget {
    Canary,
    BlueGreen,
}

/// Rollback options.
#[derive(Debug, Clone)]
pub struct RollbackOptions {
    pub target: RollbackTarget,
    pub force: bool,
    pub timeout: Duration,
}

/// Seconds a rollback may take by default.
pub const DEFAULT_ROLLBACK_TIMEOUT_SECS: u64 = 300;

impl Default for RollbackOptions {
    /// Roll the canary back, without force, within five minutes.
    fn default() -> (r: Self)
        ensures
            r.target == RollbackTarget::Canary,
            !r.force,
            r.timeout == duration_of_secs(DEFAULT_ROLLBACK_TIMEOUT_SECS),
    {
        RollbackOptions {
            target: RollbackTarget::Canary,
            force: false,
            timeout: duration_from_secs(DEFAULT_ROLLBACK_TIMEOUT_SECS),
        }
    }
}

} // verus!
