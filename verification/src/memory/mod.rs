//! Memory and concurrency accounting for inference calls.

pub mod limits;

pub use limits::{ResourceGuard, ResourceLimits, ResourceLimitsConfig};
