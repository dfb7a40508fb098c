//! Error codes and plain report types of the C interface.

pub mod error;
pub mod types;

pub use error::CoreErrorCode;
pub use types::{CoreHealthReport, CoreHealthState};
