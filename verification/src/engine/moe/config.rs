//! MoE error types and the checks of the expert counts.

use vstd::prelude::*;
use crate::text::{concat2, decimal, push_decimal};

verus! {

/// Error types for MoE operations.
#[derive(Debug, Clone, PartialEq, Eq)]
pub enum MoeError {
    InvalidExpertCount(usize),
    InvalidTopK(usize),
    RoutingFailed(String),
    ExecutionFailed(String),
    CapacityExceeded(usize),
    DimensionMismatch { expected: usize, actual: usize },
}

impl MoeError {
    /// The text the error displays.
    pub open spec fn spec_message(&self) -> Seq<char> {
        match self {
            MoeError::InvalidExpertCount(n) => "Invalid expert count: "@ + decimal(*n as nat),
            MoeError::InvalidTopK(k) => "Invalid top-k value: "@ + decimal(*k as nat)
                + " (must be <= num_experts)"@,
            MoeError::RoutingFailed(s) => "Routing failed: "@ + s@,
            MoeError::ExecutionFailed(s) => "Expert execution failed: "@ + s@,
            MoeError::CapacityExceeded(i) => "Expert "@ + decimal(*i as nat) + " is at capacity"@,
            MoeError::DimensionMismatch { expected, actual } => "Dimension mismatch: expected "@
                + decimal(*expected as nat) + ", got "@ + decimal(*actual as nat),
        }
    }

    /// Human-readable description of the error.
    pub fn message(&self) -> (r: String)
        ensures
            r@ == self.spec_message(),
    {
        match self {
            MoeError::InvalidExpertCount(n) => {
                let mut r = "Invalid expert count: ".to_owned();
                push_decimal(&mut r, *n as u64);
                r
            },
            MoeError::InvalidTopK(k) => {
                let mut r = "Invalid top-k value: ".to_owned();
                push_decimal(&mut r, *k as u64);
                r.append(" (must be <= num_experts)");
                r
            },
            MoeError::RoutingFailed(s) => concat2("Routing failed: ", s.as_str()),
            MoeError::ExecutionFailed(s) => concat2("Expert execution failed: ", s.as_str()),
            MoeError::CapacityExceeded(i) => {
                let mut r = "Expert ".to_owned();
                push_decimal(&mut r, *i as u64);
                r.append(" is at capacity");
                r
            },
            MoeError::DimensionMismatch { expected, actual } => {
                let mut r = "Dimension mismatch: expected ".to_owned();
                push_decimal(&mut r, *expected as u64);
                r.append(", got ");
                push_decimal(&mut r, *actual as u64);
                r
            },
        }
    }
}

/// The checks of a MoE configuration's counts: at least one expert, and
/// between 1 and `num_experts` experts per token.
pub fn validate_expert_counts(num_experts: usize, top_k: usize) -> (r: Result<(), MoeError>)
    ensures
        num_experts == 0 ==> r == Err::<(), MoeError>(MoeError::InvalidExpertCount(0)),
        num_experts > 0 && (top_k == 0 || top_k > num_experts) ==> r == Err::<(), MoeError>(
            MoeError::InvalidTopK(top_k),
        ),
        num_experts > 0 && 0 < top_k <= num_experts ==> r is Ok,
{
    if num_experts == 0 {
        return Err(MoeError::InvalidExpertCount(0));
    }
    if top_k == 0 || top_k > num_experts {
        return Err(MoeError::InvalidTopK(top_k));
    }
    Ok(())
}

/// A buffer of `rows * cols` values must hold exactly that many; the
/// mismatch is reported with both counts.
pub fn check_dimension(actual: usize, rows: usize, cols: usize) -> (r: Result<(), MoeError>)
    requires
        rows * cols <= usize::MAX,
    ensures
        r is Ok <==> actual == rows * cols,
        r is Err ==> r == Err::<(), MoeError>(
            MoeError::DimensionMismatch { expected: (rows * cols) as usize, actual },
        ),
{
    let expected = rows * cols;
    if actual != expected {
        return Err(MoeError::DimensionMismatch { expected, actual });
    }
    Ok(())
}

} // verus!
