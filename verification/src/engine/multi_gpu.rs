//! Multi-GPU support: strategies, errors, the choice of the GPUs a model is
//! spread over, and cross-GPU transfer channels.

use vstd::prelude::*;
use crate::engine::gpu::{GpuBackend, GpuDevice};
use crate::text::{concat2, decimal, push_decimal};

verus! {

/// Multi-GPU Error Types.
#[derive(Debug, Clone, PartialEq, Eq)]
pub enum MultiGpuError {
    NoMultiGpuConfig,
    InsufficientGpus { required: usize, available: usize },
    GpuNotAvailable { index: usize, reason: String },
    PartitioningFailed(String),
    CommunicationFailed(String),
    LoadBalancingFailed(String),
    SynchronizationFailed(String),
}

impl MultiGpuError {
    /// The text the error displays.
    pub open spec fn spec_message(&self) -> Seq<char> {
        match self {
            MultiGpuError::NoMultiGpuConfig => "No multi-GPU configuration available"@,
            MultiGpuError::InsufficientGpus { required, available } => "Insufficient GPUs: requested "@
                + decimal(*required as nat) + ", available "@ + decimal(*available as nat),
            MultiGpuError::GpuNotAvailable { index, reason } => "GPU "@ + decimal(*index as nat)
                + " not available: "@ + reason@,
            MultiGpuError::PartitioningFailed(s) => "Model partitioning failed: "@ + s@,
            MultiGpuError::CommunicationFailed(s) => "Cross-GPU communication failed: "@ + s@,
            MultiGpuError::LoadBalancingFailed(s) => "Load balancing failed: "@ + s@,
            MultiGpuError::SynchronizationFailed(s) => "Synchronization failed: "@ + s@,
        }
    }

    /// Human-readable description of the error.
    pub fn message(&self) -> (r: String)
        ensures
            r@ == self.spec_message(),
    {
        match self {
            MultiGpuError::NoMultiGpuConfig => "No multi-GPU configuration available".to_owned(),
            MultiGpuError::InsufficientGpus { required, available } => {
                let mut r = "Insufficient GPUs: requested ".to_owned();
                push_decimal(&mut r, *required as u64);
                r.append(", available ");
                push_decimal(&mut r, *available as u64);
                r
            },
            MultiGpuError::GpuNotAvailable { index, reason } => {
                let mut r = "GPU ".to_owned();
                push_decimal(&mut r, *index as u64);
                r.append(" not available: ");
                r.append(reason.as_str());
                r
            },
            MultiGpuError::PartitioningFailed(s) => concat2("Model partitioning failed: ", s.as_str()),
            MultiGpuError::CommunicationFailed(s) => concat2(
                "Cross-GPU communication failed: ",
                s.as_str(),
            ),
            MultiGpuError::LoadBalancingFailed(s) => concat2("Load balancing failed: ", s.as_str()),
            MultiGpuError::SynchronizationFailed(s) => concat2(
                "Synchronization failed: ",
                s.as_str(),
            ),
        }
    }
}

/// Strategy for distributing model across GPUs.
#[derive(Debug, Clone, Copy, PartialEq, Eq, Structural)]
pub enum MultiGpuStrategy {
    /// Split layers evenly across all GPUs
    LayerParallelism,
    /// Split tensors across GPUs (tensor parallelism)
    TensorParallelism,
    /// Pipeline stages across GPUs
    PipelineParallelism,
    /// Expert parallelism for MoE models
    ExpertParallelism,
    /// Automatic selection based on model and hardware
    Auto,
}

impl Default for MultiGpuStrategy {
    fn default() -> (r: Self)
        ensures
            r == MultiGpuStrategy::Auto,
    {
        MultiGpuStrategy::Auto
    }
}

/// The GPU devices (not the CPU) among `devices`, in order.
pub open spec fn gpu_devices(devices: Seq<GpuDevice>) -> Seq<GpuDevice> {
    devices.filter(|d: GpuDevice| d.backend != GpuBackend::Cpu)
}

/// The number of GPUs a manager uses: all when `requested` is 0, otherwise
/// `requested` but no more than there are.
pub open spec fn gpus_to_use(requested: usize, available: nat) -> nat {
    if requested == 0 {
        available
    } else if requested < available {
        requested as nat
    } else {
        available
    }
}

/// The GPUs a multi-GPU manager spreads a model over: the devices that are
/// not the CPU, at least two of them (among both the devices given and the
/// GPUs found), the first `requested` (all when `requested` is 0).
pub fn select_gpus(devices: Vec<GpuDevice>, requested: usize) -> (r: Result<
    Vec<GpuDevice>,
    MultiGpuError,
>)
    ensures
        devices@.len() < 2 ==> r == Err::<Vec<GpuDevice>, MultiGpuError>(
            MultiGpuError::InsufficientGpus { required: 2, available: devices@.len() as usize },
        ),
        devices@.len() >= 2 && gpu_devices(devices@).len() < 2 ==> r == Err::<
            Vec<GpuDevice>,
            MultiGpuError,
        >(
            MultiGpuError::InsufficientGpus {
                required: 2,
                available: gpu_devices(devices@).len() as usize,
            },
        ),
        devices@.len() >= 2 && gpu_devices(devices@).len() >= 2 ==> (r matches Ok(v) && v@
            == gpu_devices(devices@).take(
            gpus_to_use(requested, gpu_devices(devices@).len()) as int,
        )),
{
    if devices.len() < 2 {
        return Err(MultiGpuError::InsufficientGpus { required: 2, available: devices.len() });
    }
    let ghost all = devices@;
    let mut gpus: Vec<GpuDevice> = Vec::new();
    let mut rest = devices;
    let n = rest.len();
    let mut k: usize = 0;
    proof {
        reveal(Seq::filter);
        assert(all.take(0) =~= Seq::<GpuDevice>::empty());
        assert(all.skip(0) =~= all);
    }
    while rest.len() > 0
        invariant
            n == all.len(),
            k <= n,
            rest@ == all.skip(k as int),
            gpus@ == gpu_devices(all.take(k as int)),
        decreases rest@.len(),
    {
        let d = rest.remove(0);
        proof {
            reveal(Seq::filter);
            assert(all.take(k + 1).drop_last() =~= all.take(k as int));
            assert(all.take(k + 1).last() == d);
            assert(all.skip(k + 1) =~= all.skip(k as int).remove(0));
        }
        if d.backend != GpuBackend::Cpu {
            gpus.push(d);
        }
        k = k + 1;
    }
    proof {
        assert(all.take(k as int) =~= all);
    }
    if gpus.len() < 2 {
        return Err(MultiGpuError::InsufficientGpus { required: 2, available: gpus.len() });
    }
    let count = if requested == 0 {
        gpus.len()
    } else if requested < gpus.len() {
        requested
    } else {
        gpus.len()
    };
    gpus.truncate(count);
    Ok(gpus)
}

/// Total memory of the devices, in bytes.
pub open spec fn total_memory_of(devices: Seq<GpuDevice>) -> int
    decreases devices.len(),
{
    if devices.len() == 0 {
        0
    } else {
        total_memory_of(devices.drop_last()) + devices.last().total_memory
    }
}

/// Available memory of the devices, in bytes.
pub open spec fn available_memory_of(devices: Seq<GpuDevice>) -> int
    decreases devices.len(),
{
    if devices.len() == 0 {
        0
    } else {
        available_memory_of(devices.drop_last()) + devices.last().available_memory
    }
}

proof fn lemma_memory_prefix(devices: Seq<GpuDevice>, i: int)
    requires
        0 <= i <= devices.len(),
    ensures
        0 <= total_memory_of(devices.take(i)) <= total_memory_of(devices),
        0 <= available_memory_of(devices.take(i)) <= available_memory_of(devices),
    decreases devices.len(),
{
    if devices.len() > 0 {
        if i == devices.len() {
            assert(devices.take(i) =~= devices);
            lemma_memory_prefix(devices.drop_last(), i - 1);
            assert(devices.drop_last().take(i - 1) =~= devices.drop_last());
        } else {
            lemma_memory_prefix(devices.drop_last(), i);
            assert(devices.drop_last().take(i) =~= devices.take(i));
        }
    }
}

/// Total memory across the GPUs (the sum must fit in 64 bits).
pub fn total_memory(devices: &[GpuDevice]) -> (r: u64)
    requires
        total_memory_of(devices@) <= u64::MAX,
    ensures
        r == total_memory_of(devices@),
{
    let n = devices.len();
    let mut sum: u64 = 0;
    let mut i: usize = 0;
    while i < n
        invariant
            n == devices@.len(),
            i <= n,
            total_memory_of(devices@) <= u64::MAX,
            sum == total_memory_of(devices@.take(i as int)),
        decreases n - i,
    {
        proof {
            assert(devices@.take(i + 1).drop_last() =~= devices@.take(i as int));
            lemma_memory_prefix(devices@, i + 1);
        }
        sum = sum + devices[i].total_memory;
        i = i + 1;
    }
    assert(devices@.take(n as int) =~= devices@);
    sum
}

/// Available memory across the GPUs (the sum must fit in 64 bits).
pub fn total_available_memory(devices: &[GpuDevice]) -> (r: u64)
    requires
        available_memory_of(devices@) <= u64::MAX,
    ensures
        r == available_memory_of(devices@),
{
    let n = devices.len();
    let mut sum: u64 = 0;
    let mut i: usize = 0;
    while i < n
        invariant
            n == devices@.len(),
            i <= n,
            available_memory_of(devices@) <= u64::MAX,
            sum == available_memory_of(devices@.take(i as int)),
        decreases n - i,
    {
        proof {
            assert(devices@.take(i + 1).drop_last() =~= devices@.take(i as int));
            lemma_memory_prefix(devices@, i + 1);
        }
        sum = sum + devices[i].available_memory;
        i = i + 1;
    }
    assert(devices@.take(n as int) =~= devices@);
    sum
}

/// Total memory across the GPUs, or `None` when the sum passes 64 bits.
pub fn checked_total_memory(devices: &[GpuDevice]) -> (r: Option<u64>)
    ensures
        r is Some <==> total_memory_of(devices@) <= u64::MAX,
        r matches Some(v) ==> v == total_memory_of(devices@),
{
    let n = devices.len();
    let mut sum: u64 = 0;
    let mut i: usize = 0;
    while i < n
        invariant
            n == devices@.len(),
            i <= n,
            sum == total_memory_of(devices@.take(i as int)),
        decreases n - i,
    {
        proof {
            assert(devices@.take(i + 1).drop_last() =~= devices@.take(i as int));
            lemma_memory_prefix(devices@, i + 1);
        }
        match sum.checked_add(devices[i].total_memory) {
            Some(t) => {
                sum = t;
            },
            None => {
                return None;
            },
        }
        i = i + 1;
    }
    assert(devices@.take(n as int) =~= devices@);
    Some(sum)
}

/// Available memory across the GPUs, or `None` when the sum passes 64 bits.
pub fn checked_available_memory(devices: &[GpuDevice]) -> (r: Option<u64>)
    ensures
        r is Some <==> available_memory_of(devices@) <= u64::MAX,
        r matches Some(v) ==> v == available_memory_of(devices@),
{
    let n = devices.len();
    let mut sum: u64 = 0;
    let mut i: usize = 0;
    while i < n
        invariant
            n == devices@.len(),
            i <= n,
            sum == available_memory_of(devices@.take(i as int)),
        decreases n - i,
    {
        proof {
            assert(devices@.take(i + 1).drop_last() =~= devices@.take(i as int));
            lemma_memory_prefix(devices@, i + 1);
        }
        match sum.checked_add(devices[i].available_memory) {
            Some(t) => {
                sum = t;
            },
            None => {
                return None;
            },
        }
        i = i + 1;
    }
    assert(devices@.take(n as int) =~= devices@);
    Some(sum)
}

/// Cross-GPU communication channel.
#[derive(Debug)]
pub struct CrossGpuCommunication {
    source: usize,
    destination: usize,
    p2p_enabled: bool,
}

impl CrossGpuCommunication {
    /// Whether the channel copies directly between GPUs.
    pub closed spec fn spec_p2p(&self) -> bool {
        self.p2p_enabled
    }

    /// Create a new cross-GPU communication channel.
    pub fn new(source: usize, destination: usize, p2p_enabled: bool) -> (r: Self)
        ensures
            r.spec_p2p() == p2p_enabled,
    {
        CrossGpuCommunication { source, destination, p2p_enabled }
    }

    /// Check if direct P2P transfer is possible.
    pub fn can_direct_transfer(&self) -> (r: bool)
        ensures
            r == self.spec_p2p(),
    {
        self.p2p_enabled
    }

    /// Get transfer method description.
    pub fn transfer_method(&self) -> (r: &'static str)
        ensures
            r@ == (if self.spec_p2p() { "P2P Direct"@ } else { "Host Staging"@ }),
    {
        if self.p2p_enabled {
            "P2P Direct"
        } else {
            "Host Staging"
        }
    }
}

} // verus!
