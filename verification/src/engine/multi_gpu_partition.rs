//! Multi-GPU partitioning: how layers are split across GPUs, which
//! strategy is chosen, and cross-GPU transfer channels.

use vstd::prelude::*;
use crate::engine::gpu::{GpuBackend, GpuDevice};
use crate::engine::multi_gpu::{gpu_devices, gpus_to_use, select_gpus, MultiGpuError, MultiGpuStrategy};

verus! {

/// First layer of GPU `i` when `num_layers` layers are split over
/// `num_gpus` GPUs: each GPU gets `num_layers / num_gpus` layers and the
/// first `num_layers % num_gpus` GPUs one more.
pub open spec fn layer_start(num_layers: nat, num_gpus: nat, i: nat) -> nat {
    let q = num_layers / num_gpus;
    let e = num_layers % num_gpus;
    i * q + if i < e { i } else { e }
}

/// The split covers the layers in order: GPU 0 starts at layer 0, GPU
/// `i + 1` starts where GPU `i` ends, each GPU holds `q` or `q + 1` layers
/// (`q + 1` exactly for the first `num_layers % num_gpus`), and the last
/// GPU ends at `num_layers`.
pub proof fn lemma_layer_split(num_layers: nat, num_gpus: nat, i: nat)
    requires
        num_gpus > 0,
        i < num_gpus,
    ensures
        layer_start(num_layers, num_gpus, 0) == 0,
        layer_start(num_layers, num_gpus, i + 1) == layer_start(num_layers, num_gpus, i)
            + num_layers / num_gpus + if i < num_layers % num_gpus { 1nat } else { 0nat },
        layer_start(num_layers, num_gpus, i + 1) <= num_layers,
        layer_start(num_layers, num_gpus, num_gpus) == num_layers,
{
    let q = num_layers / num_gpus;
    let e = num_layers % num_gpus;
    assert((i + 1) * q == i * q + q) by (nonlinear_arith);
    assert(num_gpus * q + e == num_layers) by (nonlinear_arith)
        requires
            num_gpus > 0,
            q == num_layers / num_gpus,
            e == num_layers % num_gpus,
    ;
    assert((i + 1) * q <= num_gpus * q) by (nonlinear_arith)
        requires
            i + 1 <= num_gpus,
    ;
    assert(e < num_gpus);
}

/// The layer range `[start, end)` of each GPU when `num_layers` layers are
/// split over `num_gpus` GPUs, in GPU order.
pub fn layer_ranges(num_gpus: usize, num_layers: usize) -> (r: Vec<(usize, usize)>)
    requires
        num_gpus > 0,
    ensures
        r@.len() == num_gpus,
        forall|i: int|
            0 <= i < num_gpus ==> (#[trigger] r@[i]).0 == layer_start(
                num_layers as nat,
                num_gpus as nat,
                i as nat,
            ) && r@[i].1 == layer_start(num_layers as nat, num_gpus as nat, (i + 1) as nat),
{
    let layers_per_gpu = num_layers / num_gpus;
    let extra_layers = num_layers % num_gpus;
    let mut ranges: Vec<(usize, usize)> = Vec::with_capacity(num_gpus);
    let mut current: usize = 0;
    let mut i: usize = 0;
    while i < num_gpus
        invariant
            num_gpus > 0,
            layers_per_gpu == num_layers / num_gpus,
            extra_layers == num_layers % num_gpus,
            i <= num_gpus,
            current == layer_start(num_layers as nat, num_gpus as nat, i as nat),
            ranges@.len() == i,
            forall|j: int|
                0 <= j < i ==> (#[trigger] ranges@[j]).0 == layer_start(
                    num_layers as nat,
                    num_gpus as nat,
                    j as nat,
                ) && ranges@[j].1 == layer_start(num_layers as nat, num_gpus as nat, (j + 1) as nat),
        decreases num_gpus - i,
    {
        proof {
            lemma_layer_split(num_layers as nat, num_gpus as nat, i as nat);
        }
        let gpu_layers = layers_per_gpu + if i < extra_layers { 1 } else { 0 };
        let end = current + gpu_layers;
        ranges.push((current, end));
        current = end;
        i = i + 1;
    }
    ranges
}

/// Each GPU's share of a model split into equal parts (tensor and expert
/// parallelism).
pub fn share_per_gpu(model_size: u64, num_gpus: usize) -> (r: u64)
    requires
        num_gpus > 0,
    ensures
        r == model_size / (num_gpus as u64),
{
    model_size / (num_gpus as u64)
}

/// Peer-to-peer transfers need one backend for all GPUs and CUDA support;
/// this build has no CUDA support, so they are never available.
pub fn check_p2p_support(same_backend: bool) -> (r: bool)
    ensures
        !r,
{
    let _ = same_backend;
    false
}

/// The strategy chosen for a model of `num_layers` layers on `num_gpus`
/// GPUs, when the configuration leaves the choice to the runtime.
pub open spec fn spec_auto_strategy(
    num_layers: usize,
    num_gpus: usize,
    homogeneous: bool,
    has_p2p: bool,
) -> MultiGpuStrategy {
    if num_layers > 48 && num_gpus >= 4 && has_p2p {
        MultiGpuStrategy::PipelineParallelism
    } else if homogeneous && has_p2p && num_gpus <= 8 {
        MultiGpuStrategy::TensorParallelism
    } else {
        MultiGpuStrategy::LayerParallelism
    }
}

/// What the automatic choice depends on: pipeline parallelism only for
/// models deeper than 48 layers on four or more GPUs with peer-to-peer
/// transfers; tensor parallelism only on up to eight alike GPUs with
/// peer-to-peer transfers (and not where pipelining applies); layer
/// parallelism in every other case, in particular for GPUs that are not
/// alike when pipelining does not apply, and whenever there are no
/// peer-to-peer transfers. Neither expert parallelism nor `Auto` is ever
/// chosen.
pub proof fn lemma_auto_strategy_conditions(num_layers: usize, num_gpus: usize, homogeneous: bool, has_p2p: bool)
    ensures
        ({
            let r = spec_auto_strategy(num_layers, num_gpus, homogeneous, has_p2p);
            &&& r == MultiGpuStrategy::PipelineParallelism <==> (num_layers > 48 && num_gpus >= 4 && has_p2p)
            &&& r == MultiGpuStrategy::TensorParallelism ==> homogeneous && has_p2p && num_gpus <= 8
            &&& !homogeneous && !(num_layers > 48 && num_gpus >= 4 && has_p2p) ==> r
                == MultiGpuStrategy::LayerParallelism
            &&& !has_p2p ==> r == MultiGpuStrategy::LayerParallelism
            &&& r != MultiGpuStrategy::ExpertParallelism
            &&& r != MultiGpuStrategy::Auto
        }),
{
}

/// Determine the strategy: the configured one unless it is `Auto`; then
/// pipeline parallelism for deep models on four or more GPUs with
/// peer-to-peer transfers, tensor parallelism on up to eight alike GPUs
/// (`homogeneous`: memory sizes within 20% of their mean) with peer-to-peer
/// transfers, layer parallelism otherwise.
pub fn determine_strategy(
    configured: MultiGpuStrategy,
    enable_p2p: bool,
    p2p_supported: bool,
    num_gpus: usize,
    num_layers: usize,
    homogeneous: bool,
) -> (r: MultiGpuStrategy)
    ensures
        configured != MultiGpuStrategy::Auto ==> r == configured,
        configured == MultiGpuStrategy::Auto ==> r == spec_auto_strategy(
            num_layers,
            num_gpus,
            homogeneous,
            enable_p2p && p2p_supported,
        ),
        configured == MultiGpuStrategy::Auto && r == MultiGpuStrategy::TensorParallelism ==> homogeneous
            && enable_p2p && p2p_supported && num_gpus <= 8,
        configured == MultiGpuStrategy::Auto && !homogeneous && !(num_layers > 48 && num_gpus >= 4
            && enable_p2p && p2p_supported) ==> r == MultiGpuStrategy::LayerParallelism,
{
    proof {
        lemma_auto_strategy_conditions(num_layers, num_gpus, homogeneous, enable_p2p && p2p_supported);
    }
    if configured != MultiGpuStrategy::Auto {
        return configured;
    }
    let has_p2p = enable_p2p && p2p_supported;
    if num_layers > 48 && num_gpus >= 4 && has_p2p {
        return MultiGpuStrategy::PipelineParallelism;
    }
    if homogeneous && has_p2p && num_gpus <= 8 {
        return MultiGpuStrategy::TensorParallelism;
    }
    MultiGpuStrategy::LayerParallelism
}

/// Cross-GPU Communication Manager.
#[derive(Debug)]
pub struct CrossGpuCommunication {
    source: usize,
    destination: usize,
    p2p_enabled: bool,
}

/// How the transfer was performed.
#[derive(Debug, Clone, Copy, PartialEq, Eq, Structural)]
pub enum TransferMethod {
    P2pDirect,
    HostStaged,
}

impl CrossGpuCommunication {
    /// Whether the channel copies directly between GPUs.
    pub closed spec fn spec_p2p(&self) -> bool {
        self.p2p_enabled
    }

    /// The source GPU.
    pub closed spec fn spec_source(&self) -> usize {
        self.source
    }

    /// The destination GPU.
    pub closed spec fn spec_destination(&self) -> usize {
        self.destination
    }

    /// Create a new cross-GPU communication channel.
    pub fn new(source: usize, destination: usize, p2p_enabled: bool) -> (r: Self)
        ensures
            r.spec_p2p() == p2p_enabled,
            r.spec_source() == source,
            r.spec_destination() == destination,
    {
        CrossGpuCommunication { source, destination, p2p_enabled }
    }

    /// Check if direct P2P transfer is possible.
    pub fn can_direct_transfer(&self) -> (r: bool)
        ensures
            r == self.spec_p2p(),
    {
        self.p2p_enabled
    }

    /// Get transfer method description.
    pub fn transfer_method(&self) -> (r: &'static str)
        ensures
            r@ == (if self.spec_p2p() { "P2P Direct"@ } else { "Host Staging"@ }),
    {
        if self.p2p_enabled {
            "P2P Direct"
        } else {
            "Host Staging"
        }
    }

    /// How a transfer over this channel is made: directly when P2P is
    /// enabled, staged through host memory otherwise.
    pub fn method(&self) -> (r: TransferMethod)
        ensures
            r == (if self.spec_p2p() { TransferMethod::P2pDirect } else { TransferMethod::HostStaged }),
    {
        if self.p2p_enabled {
            TransferMethod::P2pDirect
        } else {
            TransferMethod::HostStaged
        }
    }

    /// The source GPU.
    pub fn source(&self) -> (r: usize)
        ensures
            r == self.spec_source(),
    {
        self.source
    }

    /// The destination GPU.
    pub fn destination(&self) -> (r: usize)
        ensures
            r == self.spec_destination(),
    {
        self.destination
    }
}

/// Whether CUDA peer access works between two devices; this build has no
/// CUDA support, so it never does.
pub fn cuda_can_access_peer(src: usize, dst: usize) -> (r: bool)
    ensures
        !r,
{
    let _ = (src, dst);
    false
}

/// Where one partition of a model lives: the GPU's index and the layer
/// range `[layer_start, layer_end)` it holds (all layers, `0..usize::MAX`,
/// when tensors or experts are split).
#[derive(Debug, Clone, Copy, PartialEq, Eq, Structural)]
pub struct PartitionSlot {
    pub gpu_index: usize,
    pub layer_start: usize,
    pub layer_end: usize,
}

/// Whether a strategy splits tensors (or experts) rather than layers.
pub open spec fn splits_tensors(strategy: MultiGpuStrategy) -> bool {
    strategy == MultiGpuStrategy::TensorParallelism || strategy == MultiGpuStrategy::ExpertParallelism
}

/// The slot of the `i`-th of `devices` under `strategy`: every layer when
/// tensors are split; otherwise the GPU's share of the layers, in order.
pub open spec fn spec_slot(devices: Seq<GpuDevice>, strategy: MultiGpuStrategy, num_layers: nat, i: int) -> PartitionSlot {
    if splits_tensors(strategy) {
        PartitionSlot { gpu_index: devices[i].index, layer_start: 0, layer_end: usize::MAX }
    } else {
        PartitionSlot {
            gpu_index: devices[i].index,
            layer_start: layer_start(num_layers, devices.len(), i as nat) as usize,
            layer_end: layer_start(num_layers, devices.len(), (i + 1) as nat) as usize,
        }
    }
}

/// The slots of a model of `num_layers` layers spread over `devices` under
/// `strategy`, one per device, in device order.
pub fn layout_slots(devices: &[GpuDevice], strategy: MultiGpuStrategy, num_layers: usize) -> (r: Vec<PartitionSlot>)
    requires
        devices@.len() > 0,
    ensures
        r@.len() == devices@.len(),
        forall|i: int| 0 <= i < r@.len() ==> #[trigger] r@[i] == spec_slot(devices@, strategy, num_layers as nat, i),
{
    let n = devices.len();
    let tensors = strategy == MultiGpuStrategy::TensorParallelism || strategy == MultiGpuStrategy::ExpertParallelism;
    let ranges = layer_ranges(n, num_layers);
    let mut slots: Vec<PartitionSlot> = Vec::with_capacity(n);
    let mut i: usize = 0;
    while i < n
        invariant
            n == devices@.len(),
            ranges@.len() == n,
            tensors == splits_tensors(strategy),
            forall|j: int|
                0 <= j < n ==> (#[trigger] ranges@[j]).0 == layer_start(num_layers as nat, n as nat, j as nat)
                    && ranges@[j].1 == layer_start(num_layers as nat, n as nat, (j + 1) as nat),
            i <= n,
            slots@.len() == i,
            forall|j: int| 0 <= j < i ==> #[trigger] slots@[j] == spec_slot(devices@, strategy, num_layers as nat, j),
        decreases n - i,
    {
        let slot = if tensors {
            PartitionSlot { gpu_index: devices[i].index, layer_start: 0, layer_end: usize::MAX }
        } else {
            PartitionSlot { gpu_index: devices[i].index, layer_start: ranges[i].0, layer_end: ranges[i].1 }
        };
        slots.push(slot);
        i = i + 1;
    }
    slots
}

/// All of `devices` share one backend.
pub open spec fn same_backend(devices: Seq<GpuDevice>) -> bool {
    forall|i: int| 0 <= i < devices.len() ==> #[trigger] devices[i].backend == devices[0].backend
}

fn all_same_backend(devices: &[GpuDevice]) -> (r: bool)
    ensures
        r == same_backend(devices@),
{
    let n = devices.len();
    if n == 0 {
        return true;
    }
    let first: GpuBackend = devices[0].backend;
    let mut i: usize = 0;
    while i < n
        invariant
            n == devices@.len(),
            n > 0,
            first == devices@[0].backend,
            i <= n,
            forall|j: int| 0 <= j < i ==> #[trigger] devices@[j].backend == first,
        decreases n - i,
    {
        if devices[i].backend != first {
            return false;
        }
        i = i + 1;
    }
    true
}

/// The strategy a plan settles on: the configured one unless it is `Auto`,
/// otherwise the automatic choice (this build has no peer-to-peer
/// transfers).
pub open spec fn spec_plan_strategy(
    configured: MultiGpuStrategy,
    num_layers: usize,
    num_gpus: usize,
    homogeneous: bool,
) -> MultiGpuStrategy {
    if configured != MultiGpuStrategy::Auto {
        configured
    } else {
        spec_auto_strategy(num_layers, num_gpus, homogeneous, false)
    }
}

/// The GPUs a model is spread over, the strategy chosen for it and where
/// each partition lives.
#[derive(Debug)]
pub struct MultiGpuPlan {
    devices: Vec<GpuDevice>,
    active_strategy: MultiGpuStrategy,
    slots: Vec<PartitionSlot>,
}

impl MultiGpuPlan {
    /// At least one GPU; no slots before a model is partitioned, one per
    /// GPU after.
    #[verifier::type_invariant]
    spec fn inv(self) -> bool {
        &&& self.devices@.len() >= 1
        &&& (self.slots@.len() == 0 || self.slots@.len() == self.devices@.len())
    }

    /// The GPUs in use, in order.
    pub closed spec fn spec_devices(&self) -> Seq<GpuDevice> {
        self.devices@
    }

    /// The strategy in force.
    pub closed spec fn spec_strategy(&self) -> MultiGpuStrategy {
        self.active_strategy
    }

    /// The partitions' places, in GPU order.
    pub closed spec fn spec_slots(&self) -> Seq<PartitionSlot> {
        self.slots@
    }

    /// A plan over the GPUs among `devices` (the first `num_gpus`, all when
    /// it is 0); fails, as [`select_gpus`] does, without two GPUs. The
    /// strategy is `Auto` until a model is partitioned.
    pub fn new(devices: Vec<GpuDevice>, num_gpus: usize) -> (r: Result<Self, MultiGpuError>)
        ensures
            devices@.len() < 2 ==> r == Err::<Self, MultiGpuError>(
                MultiGpuError::InsufficientGpus { required: 2, available: devices@.len() as usize },
            ),
            devices@.len() >= 2 && gpu_devices(devices@).len() < 2 ==> r == Err::<Self, MultiGpuError>(
                MultiGpuError::InsufficientGpus {
                    required: 2,
                    available: gpu_devices(devices@).len() as usize,
                },
            ),
            devices@.len() >= 2 && gpu_devices(devices@).len() >= 2 ==> (r matches Ok(p) && {
                &&& p.spec_devices() == gpu_devices(devices@).take(
                    gpus_to_use(num_gpus, gpu_devices(devices@).len()) as int,
                )
                &&& p.spec_strategy() == MultiGpuStrategy::Auto
                &&& p.spec_slots().len() == 0
            }),
    {
        let ghost given = devices@;
        match select_gpus(devices, num_gpus) {
            Err(e) => Err(e),
            Ok(chosen) => {
                proof {
                    let g = gpu_devices(given);
                    assert(g.len() >= 2);
                    assert(gpus_to_use(num_gpus, g.len()) >= 1);
                    assert(chosen@.len() == gpus_to_use(num_gpus, g.len()));
                }
                Ok(MultiGpuPlan { devices: chosen, active_strategy: MultiGpuStrategy::Auto, slots: Vec::new() })
            },
        }
    }

    /// The GPUs in use.
    pub fn devices(&self) -> (r: &[GpuDevice])
        ensures
            r@ == self.spec_devices(),
    {
        self.devices.as_slice()
    }

    /// The number of GPUs in use (at least one).
    pub fn num_gpus(&self) -> (r: usize)
        ensures
            r == self.spec_devices().len(),
            r >= 1,
    {
        proof {
            use_type_invariant(self);
        }
        self.devices.len()
    }

    /// The strategy in force.
    pub fn active_strategy(&self) -> (r: MultiGpuStrategy)
        ensures
            r == self.spec_strategy(),
    {
        self.active_strategy
    }

    /// The partitions' places.
    pub fn slots(&self) -> (r: &[PartitionSlot])
        ensures
            r@ == self.spec_slots(),
    {
        self.slots.as_slice()
    }

    /// Partition a model of `num_layers` layers: choose the strategy (the
    /// configured one, or the automatic choice given whether the GPUs are
    /// alike, `homogeneous`), then place one partition on each GPU.
    pub fn partition_model(
        &mut self,
        configured: MultiGpuStrategy,
        enable_p2p: bool,
        num_layers: usize,
        homogeneous: bool,
    )
        ensures
            final(self).spec_devices() == old(self).spec_devices(),
            final(self).spec_strategy() == spec_plan_strategy(
                configured,
                num_layers,
                old(self).spec_devices().len() as usize,
                homogeneous,
            ),
            final(self).spec_slots().len() == old(self).spec_devices().len(),
            forall|i: int|
                0 <= i < old(self).spec_devices().len() ==> #[trigger] final(self).spec_slots()[i]
                    == spec_slot(
                    old(self).spec_devices(),
                    final(self).spec_strategy(),
                    num_layers as nat,
                    i,
                ),
    {
        proof {
            use_type_invariant(&*self);
        }
        let same = all_same_backend(self.devices.as_slice());
        let strategy = determine_strategy(
            configured,
            enable_p2p,
            check_p2p_support(same),
            self.devices.len(),
            num_layers,
            homogeneous,
        );
        let slots = layout_slots(self.devices.as_slice(), strategy, num_layers);
        self.active_strategy = strategy;
        self.slots = slots;
    }
}

} // verus!
