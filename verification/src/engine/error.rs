//! Errors reported by the inference engine and its resource accounting.

use vstd::prelude::*;

verus! {

/// Inference errors shared by the engine components.
#[derive(Debug, Clone, PartialEq, Eq)]
pub enum InferenceError {
    /// The requested model is not loaded.
    ModelNotLoaded(String),
    /// The input failed validation.
    InputValidation(String),
    /// The request ran out of time (milliseconds allowed).
    Timeout(u64),
    /// The output was withheld by the output filter.
    OutputFiltered { reason: String },
    /// A memory budget would be exceeded.
    MemoryExceeded { used: usize, limit: usize },
    /// The model reported an error.
    ModelError(String),
    /// The caller is rate limited.
    RateLimited,
    /// No concurrency slot is free.
    QueueFull { current: usize, max: usize },
    /// The model cannot perform the requested kind of inference.
    CapabilityNotSupported(String),
    /// The model file does not have the expected hash.
    HashMismatch { expected: String, actual: String },
    /// The input has an invalid format.
    InvalidFormat(String),
}

} // verus!
