//! Error codes of the C interface and the mapping of engine errors to them.

use vstd::prelude::*;
use crate::engine::error::InferenceError;
use crate::engine::inference::InferenceError as RunError;

verus! {

/// Error codes for FFI functions.
#[derive(Debug, Clone, Copy, PartialEq, Eq, Structural)]
pub enum CoreErrorCode {
    /// No error (named `Ok` on the C side).
    Success,
    NullPointer,
    InvalidConfig,
    AuthFailed,
    SessionExpired,
    SessionNotFound,
    RateLimited,
    ModelNotFound,
    ModelLoadFailed,
    InferenceFailed,
    ContextExceeded,
    InvalidParams,
    QueueFull,
    ShuttingDown,
    Timeout,
    Cancelled,
    Internal,
}

impl CoreErrorCode {
    /// The number that stands for the code on the C side.
    pub open spec fn spec_code(&self) -> i32 {
        match self {
            CoreErrorCode::Success => 0i32,
            CoreErrorCode::NullPointer => -1i32,
            CoreErrorCode::InvalidConfig => -2i32,
            CoreErrorCode::AuthFailed => -3i32,
            CoreErrorCode::SessionExpired => -4i32,
            CoreErrorCode::SessionNotFound => -5i32,
            CoreErrorCode::RateLimited => -6i32,
            CoreErrorCode::ModelNotFound => -7i32,
            CoreErrorCode::ModelLoadFailed => -8i32,
            CoreErrorCode::InferenceFailed => -9i32,
            CoreErrorCode::ContextExceeded => -10i32,
            CoreErrorCode::InvalidParams => -11i32,
            CoreErrorCode::QueueFull => -12i32,
            CoreErrorCode::ShuttingDown => -13i32,
            CoreErrorCode::Timeout => -14i32,
            CoreErrorCode::Cancelled => -15i32,
            CoreErrorCode::Internal => -99i32,
        }
    }

    /// The number that stands for the code on the C side.
    pub fn code(&self) -> (r: i32)
        ensures
            r == self.spec_code(),
    {
        match self {
            CoreErrorCode::Success => 0,
            CoreErrorCode::NullPointer => -1,
            CoreErrorCode::InvalidConfig => -2,
            CoreErrorCode::AuthFailed => -3,
            CoreErrorCode::SessionExpired => -4,
            CoreErrorCode::SessionNotFound => -5,
            CoreErrorCode::RateLimited => -6,
            CoreErrorCode::ModelNotFound => -7,
            CoreErrorCode::ModelLoadFailed => -8,
            CoreErrorCode::InferenceFailed => -9,
            CoreErrorCode::ContextExceeded => -10,
            CoreErrorCode::InvalidParams => -11,
            CoreErrorCode::QueueFull => -12,
            CoreErrorCode::ShuttingDown => -13,
            CoreErrorCode::Timeout => -14,
            CoreErrorCode::Cancelled => -15,
            CoreErrorCode::Internal => -99,
        }
    }

    /// The code an engine error is reported with.
    pub open spec fn spec_from_engine_error(err: &InferenceError) -> CoreErrorCode {
        match err {
            InferenceError::ModelNotLoaded(_) => CoreErrorCode::ModelNotFound,
            InferenceError::InputValidation(_) => CoreErrorCode::InvalidParams,
            InferenceError::Timeout(_) => CoreErrorCode::Timeout,
            InferenceError::MemoryExceeded { .. } => CoreErrorCode::ContextExceeded,
            InferenceError::OutputFiltered { .. } => CoreErrorCode::InferenceFailed,
            InferenceError::ModelError(_) => CoreErrorCode::InferenceFailed,
            InferenceError::RateLimited => CoreErrorCode::RateLimited,
            InferenceError::QueueFull { .. } => CoreErrorCode::QueueFull,
            InferenceError::CapabilityNotSupported(_) => CoreErrorCode::InvalidParams,
            InferenceError::HashMismatch { .. } => CoreErrorCode::ModelLoadFailed,
            InferenceError::InvalidFormat(_) => CoreErrorCode::InvalidParams,
        }
    }

    /// The code an engine error is reported with.
    pub fn from_engine_error(err: &InferenceError) -> (r: CoreErrorCode)
        ensures
            r == Self::spec_from_engine_error(err),
    {
        match err {
            InferenceError::ModelNotLoaded(_) => CoreErrorCode::ModelNotFound,
            InferenceError::InputValidation(_) => CoreErrorCode::InvalidParams,
            InferenceError::Timeout(_) => CoreErrorCode::Timeout,
            InferenceError::MemoryExceeded { .. } => CoreErrorCode::ContextExceeded,
            InferenceError::OutputFiltered { .. } => CoreErrorCode::InferenceFailed,
            InferenceError::ModelError(_) => CoreErrorCode::InferenceFailed,
            InferenceError::RateLimited => CoreErrorCode::RateLimited,
            InferenceError::QueueFull { .. } => CoreErrorCode::QueueFull,
            InferenceError::CapabilityNotSupported(_) => CoreErrorCode::InvalidParams,
            InferenceError::HashMismatch { .. } => CoreErrorCode::ModelLoadFailed,
            InferenceError::InvalidFormat(_) => CoreErrorCode::InvalidParams,
        }
    }

    /// The code an error of a model run is reported with.
    pub open spec fn spec_from_run_error(err: &RunError) -> CoreErrorCode {
        match err {
            RunError::ModelNotLoaded(_) => CoreErrorCode::ModelNotFound,
            RunError::InvalidParams(_) => CoreErrorCode::InvalidParams,
            RunError::ExecutionFailed(_) => CoreErrorCode::InferenceFailed,
            RunError::ContextExceeded { .. } => CoreErrorCode::ContextExceeded,
            RunError::MemoryExceeded { .. } => CoreErrorCode::ContextExceeded,
        }
    }

    /// The code an error of a model run is reported with.
    pub fn from_run_error(err: &RunError) -> (r: CoreErrorCode)
        ensures
            r == Self::spec_from_run_error(err),
    {
        match err {
            RunError::ModelNotLoaded(_) => CoreErrorCode::ModelNotFound,
            RunError::InvalidParams(_) => CoreErrorCode::InvalidParams,
            RunError::ExecutionFailed(_) => CoreErrorCode::InferenceFailed,
            RunError::ContextExceeded { .. } => CoreErrorCode::ContextExceeded,
            RunError::MemoryExceeded { .. } => CoreErrorCode::ContextExceeded,
        }
    }
}

/// No error is reported as success: every mapped error has a negative code.
pub proof fn lemma_errors_map_to_failure_codes(e: InferenceError, f: RunError)
    ensures
        CoreErrorCode::spec_from_engine_error(&e).spec_code() < 0,
        CoreErrorCode::spec_from_run_error(&f).spec_code() < 0,
{
}

} // verus!
