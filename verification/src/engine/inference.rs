//! Errors and results of running a model, and the checks made before a run.

use vstd::prelude::*;
use vstd::string::*;
use crate::text::{concat2, decimal, push_decimal};

verus! {

/// Errors of a model run.
#[derive(Debug, Clone, PartialEq, Eq)]
pub enum InferenceError {
    /// Model not loaded.
    ModelNotLoaded(String),
    /// Invalid parameters.
    InvalidParams(String),
    /// Inference failed.
    ExecutionFailed(String),
    /// Context length exceeded.
    ContextExceeded { max: usize, got: usize },
    /// Memory limit exceeded.
    MemoryExceeded { used: usize, limit: usize },
}

impl InferenceError {
    /// The text the error displays.
    pub open spec fn spec_message(&self) -> Seq<char> {
        match self {
            InferenceError::ModelNotLoaded(s) => "Model not loaded: "@ + s@,
            InferenceError::InvalidParams(s) => "Invalid parameters: "@ + s@,
            InferenceError::ExecutionFailed(s) => "Inference failed: "@ + s@,
            InferenceError::ContextExceeded { max, got } => "Context length exceeded: max "@
                + decimal(*max as nat) + ", got "@ + decimal(*got as nat),
            InferenceError::MemoryExceeded { used, limit } => "Memory limit exceeded: used "@
                + decimal(*used as nat) + " bytes, limit "@ + decimal(*limit as nat) + " bytes"@,
        }
    }

    /// Human-readable description of the error.
    pub fn message(&self) -> (r: String)
        ensures
            r@ == self.spec_message(),
    {
        match self {
            InferenceError::ModelNotLoaded(s) => concat2("Model not loaded: ", s.as_str()),
            InferenceError::InvalidParams(s) => concat2("Invalid parameters: ", s.as_str()),
            InferenceError::ExecutionFailed(s) => concat2("Inference failed: ", s.as_str()),
            InferenceError::ContextExceeded { max, got } => {
                let mut r = "Context length exceeded: max ".to_owned();
                push_decimal(&mut r, *max as u64);
                r.append(", got ");
                push_decimal(&mut r, *got as u64);
                r
            },
            InferenceError::MemoryExceeded { used, limit } => {
                let mut r = "Memory limit exceeded: used ".to_owned();
                push_decimal(&mut r, *used as u64);
                r.append(" bytes, limit ");
                push_decimal(&mut r, *limit as u64);
                r.append(" bytes");
                r
            },
        }
    }
}

/// Result of inference execution.
#[derive(Debug, Clone)]
pub struct InferenceResult {
    /// Generated text output.
    pub output: String,
    pub tokens_generated: usize,
    pub finished: bool,
}

/// A prompt longer (in bytes) than the context length is refused.
pub fn check_context(max_context_length: usize, prompt: &str) -> (r: Result<(), InferenceError>)
    ensures
        r is Ok <==> encoded_len(prompt) <= max_context_length,
        r is Err ==> r == Err::<(), InferenceError>(
            InferenceError::ContextExceeded { max: max_context_length, got: encoded_len(prompt) as usize },
        ),
{
    let len = prompt.as_bytes().len();
    if len > max_context_length {
        return Err(InferenceError::ContextExceeded { max: max_context_length, got: len });
    }
    Ok(())
}

/// The length of a text in UTF-8 bytes.
pub open spec fn encoded_len(s: &str) -> nat {
    s.spec_bytes().len()
}

/// The per-call memory budget: a model that already uses more memory than
/// the budget allows is refused before it runs; without a budget every
/// model may run.
pub fn check_memory_budget(model_memory: usize, budget: Option<usize>) -> (r: Result<(), InferenceError>)
    ensures
        r is Ok <==> (budget is None || model_memory <= budget->0),
        r is Err ==> r == Err::<(), InferenceError>(
            InferenceError::MemoryExceeded { used: model_memory, limit: budget->0 },
        ),
{
    match budget {
        Some(limit) => {
            if model_memory > limit {
                return Err(InferenceError::MemoryExceeded { used: model_memory, limit });
            }
            Ok(())
        },
        None => Ok(()),
    }
}

} // verus!
