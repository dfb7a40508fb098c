//! Settings of the combiner of expert outputs.

use vstd::prelude::*;

verus! {

/// Combines the outputs of the selected experts, weighted by the router.
#[derive(Debug)]
pub struct ExpertCombiner {
    hidden_dim: usize,
}

impl ExpertCombiner {
    /// The hidden dimension of the combined outputs.
    pub closed spec fn spec_hidden_dim(&self) -> usize {
        self.hidden_dim
    }

    /// Create a new combiner for the given hidden dimension.
    pub fn new(hidden_dim: usize) -> (r: Self)
        ensures
            r.spec_hidden_dim() == hidden_dim,
    {
        ExpertCombiner { hidden_dim }
    }

    /// The hidden dimension of the combined outputs.
    pub fn hidden_dim(&self) -> (r: usize)
        ensures
            r == self.spec_hidden_dim(),
    {
        self.hidden_dim
    }
}

} // verus!
