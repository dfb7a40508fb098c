//! Mixture-of-experts support: errors and checks of the configuration,
//! the combiner's settings and the placement of experts on devices.

pub mod combiner;
pub mod config;
pub mod executor;

pub use combiner::ExpertCombiner;
pub use config::MoeError;
pub use executor::ExpertDeviceAssignment;
