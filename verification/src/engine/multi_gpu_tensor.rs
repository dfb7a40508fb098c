//! Settings of the tensor-parallel executor.

use vstd::prelude::*;

verus! {

/// Splits each tensor across GPUs and all-reduces the shards.
#[derive(Debug)]
pub struct TensorParallelExecutor {
    /// Per-shard compute latency in microseconds.
    shard_compute_us: u64,
    /// Whether P2P transfers are available.
    p2p_enabled: bool,
}

impl TensorParallelExecutor {
    /// Per-shard compute latency in microseconds.
    pub closed spec fn spec_shard_compute_us(&self) -> u64 {
        self.shard_compute_us
    }

    /// Whether P2P transfers are available.
    pub closed spec fn spec_p2p(&self) -> bool {
        self.p2p_enabled
    }

    /// An executor with the given shard latency and P2P availability.
    pub fn new(shard_compute_us: u64, p2p_enabled: bool) -> (r: Self)
        ensures
            r.spec_shard_compute_us() == shard_compute_us,
            r.spec_p2p() == p2p_enabled,
    {
        TensorParallelExecutor { shard_compute_us, p2p_enabled }
    }

    /// Per-shard compute latency in microseconds.
    pub fn shard_compute_us(&self) -> (r: u64)
        ensures
            r == self.spec_shard_compute_us(),
    {
        self.shard_compute_us
    }

    /// Whether P2P transfers are available.
    pub fn p2p_enabled(&self) -> (r: bool)
        ensures
            r == self.spec_p2p(),
    {
        self.p2p_enabled
    }
}

} // verus!
