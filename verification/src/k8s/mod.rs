//! Kubernetes integration types: the VeritasRuntime and VeritasModel
//! custom resources and the validation of their user-supplied fields.

pub mod types;

pub use types::{VeritasModel, VeritasModelSpec, VeritasRuntime, VeritasRuntimeSpec};
