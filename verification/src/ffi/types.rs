//! Plain report types of the C interface.

use vstd::prelude::*;

verus! {

/// Health state enumeration.
#[derive(Debug, Clone, Copy, PartialEq, Eq, Structural)]
pub enum CoreHealthState {
    Healthy,
    Degraded,
    Unhealthy,
}

impl CoreHealthState {
    /// The number that stands for the state on the C side.
    pub fn value(&self) -> (r: i32)
        ensures
            r == (match self {
                CoreHealthState::Healthy => 0i32,
                CoreHealthState::Degraded => 1i32,
                CoreHealthState::Unhealthy => 2i32,
            }),
    {
        match self {
            CoreHealthState::Healthy => 0,
            CoreHealthState::Degraded => 1,
            CoreHealthState::Unhealthy => 2,
        }
    }
}

/// Health check report.
#[derive(Debug, Clone, Copy, PartialEq, Eq, Structural)]
pub struct CoreHealthReport {
    /// Overall health state
    pub state: CoreHealthState,
    /// Ready to accept requests
    pub ready: bool,
    /// Currently accepting requests
    pub accepting_requests: bool,
    /// Number of models loaded
    pub models_loaded: u32,
    /// Memory used in bytes
    pub memory_used_bytes: u64,
    /// Current queue depth
    pub queue_depth: u32,
    /// Uptime in seconds
    pub uptime_secs: u64,
}

impl Default for CoreHealthReport {
    /// An unhealthy, idle report.
    fn default() -> (r: Self)
        ensures
            r == (CoreHealthReport {
                state: CoreHealthState::Unhealthy,
                ready: false,
                accepting_requests: false,
                models_loaded: 0,
                memory_used_bytes: 0,
                queue_depth: 0,
                uptime_secs: 0,
            }),
    {
        CoreHealthReport {
            state: CoreHealthState::Unhealthy,
            ready: false,
            accepting_requests: false,
            models_loaded: 0,
            memory_used_bytes: 0,
            queue_depth: 0,
            uptime_secs: 0,
        }
    }
}

} // verus!
