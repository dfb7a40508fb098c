//! Settings of the layer-parallel and mock partition executors.

use vstd::prelude::*;
use std::sync::Arc;
use crate::engine::gpu::GpuDevice;

verus! {

/// Executes layers sequentially, forwarding activations between GPUs.
#[derive(Debug)]
pub struct LayerParallelExecutor {
    devices: Vec<Arc<GpuDevice>>,
    per_layer_us: u64,
}

impl LayerParallelExecutor {
    /// The devices the layers run on.
    pub closed spec fn spec_devices(&self) -> Seq<Arc<GpuDevice>> {
        self.devices@
    }

    /// Simulated compute time per layer, in microseconds.
    pub closed spec fn spec_per_layer_us(&self) -> u64 {
        self.per_layer_us
    }

    /// An executor over `devices`, spending `per_layer_us` per layer.
    pub fn new(devices: Vec<Arc<GpuDevice>>, per_layer_us: u64) -> (r: Self)
        ensures
            r.spec_devices() == devices@,
            r.spec_per_layer_us() == per_layer_us,
    {
        LayerParallelExecutor { devices, per_layer_us }
    }

    /// The devices the layers run on.
    pub fn devices(&self) -> (r: &[Arc<GpuDevice>])
        ensures
            r@ == self.spec_devices(),
    {
        self.devices.as_slice()
    }

    /// Simulated compute time per layer, in microseconds.
    pub fn per_layer_us(&self) -> (r: u64)
        ensures
            r == self.spec_per_layer_us(),
    {
        self.per_layer_us
    }
}

/// A stand-in executor that simulates multi-GPU speedup.
#[derive(Debug)]
pub struct MockPartitionExecutor {
    base_latency_us: u64,
}

impl MockPartitionExecutor {
    /// Single-GPU latency being simulated, in microseconds.
    pub closed spec fn spec_base_latency_us(&self) -> u64 {
        self.base_latency_us
    }

    /// A mock executor with the given single-GPU latency.
    pub fn new(base_latency_us: u64) -> (r: Self)
        ensures
            r.spec_base_latency_us() == base_latency_us,
    {
        MockPartitionExecutor { base_latency_us }
    }

    /// Single-GPU latency being simulated, in microseconds.
    pub fn base_latency_us(&self) -> (r: u64)
        ensures
            r == self.spec_base_latency_us(),
    {
        self.base_latency_us
    }
}

/// Number of GPUs an execution counts: the partitions, at least one.
pub fn gpus_used(partition_count: usize) -> (r: usize)
    ensures
        r == (if partition_count >= 1 { partition_count } else { 1 }),
{
    if partition_count >= 1 { partition_count } else { 1 }
}

/// Start of part `i` when `total` elements are cut into `parts` parts of
/// `total / parts` elements, the last part taking the rest.
pub open spec fn part_start(total: nat, parts: nat, i: nat) -> nat {
    i * (total / parts)
}

/// End of part `i` (see [`part_start`]).
pub open spec fn part_end(total: nat, parts: nat, i: nat) -> nat {
    if i + 1 == parts {
        total
    } else {
        (i + 1) * (total / parts)
    }
}

/// The parts cover the elements in order: part 0 starts at 0, each part
/// starts where the one before ends, and the last ends at `total`.
pub proof fn lemma_parts_cover(total: nat, parts: nat, i: nat)
    requires
        parts > 0,
        i < parts,
    ensures
        part_start(total, parts, 0) == 0,
        part_start(total, parts, i) <= part_end(total, parts, i) <= total,
        i + 1 < parts ==> part_end(total, parts, i) == part_start(total, parts, i + 1),
        part_end(total, parts, (parts - 1) as nat) == total,
{
    let q = total / parts;
    assert((i + 1) * q == i * q + q) by (nonlinear_arith);
    assert(parts * q <= total) by (nonlinear_arith)
        requires
            parts > 0,
            q == total / parts,
    ;
    assert((i + 1) * q <= parts * q) by (nonlinear_arith)
        requires
            i + 1 <= parts,
    ;
}

/// The element ranges `[start, end)` of the parts when `total` elements
/// are cut into `parts` parts (micro-batches of a pipeline, shards of a
/// tensor).
pub fn split_ranges(total: usize, parts: usize) -> (r: Vec<(usize, usize)>)
    requires
        parts > 0,
    ensures
        r@.len() == parts,
        forall|i: int|
            0 <= i < parts ==> (#[trigger] r@[i]).0 == part_start(total as nat, parts as nat, i as nat)
                && r@[i].1 == part_end(total as nat, parts as nat, i as nat),
{
    let size = total / parts;
    let mut out: Vec<(usize, usize)> = Vec::with_capacity(parts);
    let mut i: usize = 0;
    while i < parts
        invariant
            parts > 0,
            size == total / parts,
            i <= parts,
            out@.len() == i,
            forall|j: int|
                0 <= j < i ==> (#[trigger] out@[j]).0 == part_start(total as nat, parts as nat, j as nat)
                    && out@[j].1 == part_end(total as nat, parts as nat, j as nat),
        decreases parts - i,
    {
        proof {
            lemma_parts_cover(total as nat, parts as nat, i as nat);
        }
        let begin = i * size;
        assert(begin == part_start(total as nat, parts as nat, i as nat));
        assert(begin + size == (i + 1) * size) by (nonlinear_arith)
            requires
                begin == i * size,
        ;
        let end = if i + 1 == parts { total } else { begin + size };
        assert(end == part_end(total as nat, parts as nat, i as nat));
        out.push((begin, end));
        i = i + 1;
    }
    out
}

/// Number of micro-batches a pipeline runs: as many as configured, but no
/// more than there are elements.
pub fn micro_batch_count(configured: usize, numel: usize) -> (r: usize)
    ensures
        r == (if configured <= numel { configured } else { numel }),
{
    if configured <= numel { configured } else { numel }
}

} // verus!
