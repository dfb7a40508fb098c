//! Settings of the pipeline-parallel executor.

use vstd::prelude::*;

verus! {

/// Micro-batches a pipeline splits its input into by default.
pub const DEFAULT_MICRO_BATCHES: usize = 4;

/// Runs partitions as pipeline stages over micro-batches.
#[derive(Debug)]
pub struct PipelineParallelExecutor {
    /// Per-stage compute latency in microseconds.
    stage_compute_us: u64,
    /// Number of micro-batches.
    micro_batches: usize,
}

impl PipelineParallelExecutor {
    /// Per-stage compute latency in microseconds.
    pub closed spec fn spec_stage_compute_us(&self) -> u64 {
        self.stage_compute_us
    }

    /// Number of micro-batches.
    pub closed spec fn spec_micro_batches(&self) -> usize {
        self.micro_batches
    }

    /// A pipeline with the default number of micro-batches.
    pub fn new(stage_compute_us: u64) -> (r: Self)
        ensures
            r.spec_stage_compute_us() == stage_compute_us,
            r.spec_micro_batches() == DEFAULT_MICRO_BATCHES,
    {
        PipelineParallelExecutor { stage_compute_us, micro_batches: DEFAULT_MICRO_BATCHES }
    }

    /// The same pipeline with `n` micro-batches (at least one).
    pub fn with_micro_batches(self, n: usize) -> (r: Self)
        ensures
            r.spec_stage_compute_us() == self.spec_stage_compute_us(),
            r.spec_micro_batches() == (if n >= 1 { n } else { 1 }),
    {
        PipelineParallelExecutor { micro_batches: if n >= 1 { n } else { 1 }, ..self }
    }

    /// Per-stage compute latency in microseconds.
    pub fn stage_compute_us(&self) -> (r: u64)
        ensures
            r == self.spec_stage_compute_us(),
    {
        self.stage_compute_us
    }

    /// Number of micro-batches.
    pub fn micro_batches(&self) -> (r: usize)
        ensures
            r == self.spec_micro_batches(),
    {
        self.micro_batches
    }
}

} // verus!
