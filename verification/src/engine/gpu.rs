//! GPU backend descriptions: backends, devices and GPU errors.

use vstd::prelude::*;
use std::sync::Arc;
use crate::text::{concat2, decimal, push_decimal};

verus! {

/// GPU Backend Types.
#[derive(Debug, Clone, Copy, PartialEq, Eq, Structural, Hash)]
pub enum GpuBackend {
    /// NVIDIA CUDA backend
    Cuda,
    /// Apple Metal backend (macOS only)
    Metal,
    /// CPU fallback (no GPU)
    Cpu,
}

impl Default for GpuBackend {
    fn default() -> (r: Self)
        ensures
            r == GpuBackend::Cpu,
    {
        GpuBackend::Cpu
    }
}

impl GpuBackend {
    /// The name the backend displays.
    pub open spec fn spec_name(&self) -> Seq<char> {
        match self {
            GpuBackend::Cuda => "CUDA"@,
            GpuBackend::Metal => "Metal"@,
            GpuBackend::Cpu => "CPU"@,
        }
    }

    /// The name the backend displays.
    pub fn to_display_string(&self) -> (r: String)
        ensures
            r@ == self.spec_name(),
    {
        match self {
            GpuBackend::Cuda => "CUDA".to_owned(),
            GpuBackend::Metal => "Metal".to_owned(),
            GpuBackend::Cpu => "CPU".to_owned(),
        }
    }
}

/// GPU Device Information.
#[derive(Debug, Clone)]
pub struct GpuDevice {
    /// Backend type
    pub backend: GpuBackend,
    /// Device index (for multi-GPU systems)
    pub index: usize,
    /// Device name
    pub name: String,
    /// Total memory in bytes
    pub total_memory: u64,
    /// Available memory in bytes
    pub available_memory: u64,
    /// Compute capability (CUDA only)
    pub compute_capability: Option<(u32, u32)>,
}

impl GpuDevice {
    /// Create a CPU device.
    pub fn cpu() -> (r: Self)
        ensures
            r.backend == GpuBackend::Cpu,
            r.index == 0,
            r.name@ == "CPU"@,
            r.total_memory == 0,
            r.available_memory == 0,
            r.compute_capability is None,
    {
        GpuDevice {
            backend: GpuBackend::Cpu,
            index: 0,
            name: "CPU".to_owned(),
            total_memory: 0,
            available_memory: 0,
            compute_capability: None,
        }
    }

    /// Whether the device can hold `required` bytes (the CPU always can).
    pub open spec fn spec_has_memory(&self, required: u64) -> bool {
        self.backend == GpuBackend::Cpu || self.available_memory >= required
    }

    /// Check if device has enough memory.
    pub fn has_memory(&self, required: u64) -> (r: bool)
        ensures
            r == self.spec_has_memory(required),
    {
        self.backend == GpuBackend::Cpu || self.available_memory >= required
    }
}

/// GPU Error Types.
#[derive(Debug, Clone, PartialEq, Eq)]
pub enum GpuError {
    NoDevicesAvailable,
    CudaNotAvailable(String),
    MetalNotAvailable(String),
    DeviceNotFound(usize),
    OutOfMemory { required: u64, available: u64 },
    OperationFailed(String),
    AllocationFailed(String),
    KernelLaunchFailed(String),
}

impl GpuError {
    /// The text the error displays.
    pub open spec fn spec_message(&self) -> Seq<char> {
        match self {
            GpuError::NoDevicesAvailable => "No GPU devices available"@,
            GpuError::CudaNotAvailable(s) => "CUDA not available: "@ + s@,
            GpuError::MetalNotAvailable(s) => "Metal not available: "@ + s@,
            GpuError::DeviceNotFound(i) => "Device not found: "@ + decimal(*i as nat),
            GpuError::OutOfMemory { required, available } => "Out of GPU memory: required "@
                + decimal(*required as nat) + " bytes, available "@ + decimal(*available as nat)
                + " bytes"@,
            GpuError::OperationFailed(s) => "GPU operation failed: "@ + s@,
            GpuError::AllocationFailed(s) => "Memory allocation failed: "@ + s@,
            GpuError::KernelLaunchFailed(s) => "Kernel launch failed: "@ + s@,
        }
    }

    /// Human-readable description of the error.
    pub fn message(&self) -> (r: String)
        ensures
            r@ == self.spec_message(),
    {
        match self {
            GpuError::NoDevicesAvailable => "No GPU devices available".to_owned(),
            GpuError::CudaNotAvailable(s) => concat2("CUDA not available: ", s.as_str()),
            GpuError::MetalNotAvailable(s) => concat2("Metal not available: ", s.as_str()),
            GpuError::DeviceNotFound(i) => {
                let mut r = "Device not found: ".to_owned();
                push_decimal(&mut r, *i as u64);
                r
            },
            GpuError::OutOfMemory { required, available } => {
                let mut r = "Out of GPU memory: required ".to_owned();
                push_decimal(&mut r, *required);
                r.append(" bytes, available ");
                push_decimal(&mut r, *available);
                r.append(" bytes");
                r
            },
            GpuError::OperationFailed(s) => concat2("GPU operation failed: ", s.as_str()),
            GpuError::AllocationFailed(s) => concat2("Memory allocation failed: ", s.as_str()),
            GpuError::KernelLaunchFailed(s) => concat2("Kernel launch failed: ", s.as_str()),
        }
    }
}

/// GPU manager: the devices found, the backend and device asked for, and
/// the device in use. This build has no CUDA or Metal support, so the CPU
/// is the only device it finds.
#[derive(Debug)]
pub struct GpuManager {
    devices: Vec<GpuDevice>,
    backend: GpuBackend,
    device_index: usize,
    active_device: Option<Arc<GpuDevice>>,
}

impl GpuManager {
    /// The devices found.
    pub closed spec fn spec_devices(&self) -> Seq<GpuDevice> {
        self.devices@
    }

    /// The device in use.
    pub closed spec fn spec_active(&self) -> Option<GpuDevice> {
        match self.active_device {
            Some(d) => Some(*d),
            None => None,
        }
    }

    /// The backend asked for.
    pub closed spec fn spec_backend(&self) -> GpuBackend {
        self.backend
    }

    /// The device index asked for.
    pub closed spec fn spec_device_index(&self) -> usize {
        self.device_index
    }

    /// A manager for the given backend and device: detects the devices,
    /// then selects one. Fails when a GPU backend is asked for (none is
    /// found), or when the CPU is asked for under an index other than 0.
    pub fn new(backend: GpuBackend, device_index: usize) -> (r: Result<Self, GpuError>)
        ensures
            backend != GpuBackend::Cpu ==> r == Err::<Self, GpuError>(GpuError::NoDevicesAvailable),
            backend == GpuBackend::Cpu && device_index != 0 ==> r == Err::<Self, GpuError>(
                GpuError::DeviceNotFound(device_index),
            ),
            backend == GpuBackend::Cpu && device_index == 0 ==> (r matches Ok(m) && (m.spec_active()
                matches Some(d) && d.backend == GpuBackend::Cpu && d.index == 0)),
    {
        let mut manager = GpuManager { devices: Vec::new(), backend, device_index, active_device: None };
        match manager.detect_devices() {
            Ok(()) => {},
            Err(e) => {
                return Err(e);
            },
        }
        match manager.select_device() {
            Ok(()) => Ok(manager),
            Err(e) => Err(e),
        }
    }

    /// Detect available devices: the CPU (always there as fallback). Fails
    /// when a GPU backend is asked for and no GPU was found.
    pub fn detect_devices(&mut self) -> (r: Result<(), GpuError>)
        ensures
            final(self).spec_devices().len() == 1,
            final(self).spec_devices()[0].backend == GpuBackend::Cpu,
            final(self).spec_devices()[0].index == 0,
            final(self).spec_backend() == old(self).spec_backend(),
            final(self).spec_device_index() == old(self).spec_device_index(),
            final(self).spec_active() == old(self).spec_active(),
            r is Err <==> old(self).spec_backend() != GpuBackend::Cpu,
            r is Err ==> r == Err::<(), GpuError>(GpuError::NoDevicesAvailable),
    {
        self.devices.clear();
        self.devices.push(GpuDevice::cpu());
        if self.devices.len() == 1 && self.backend != GpuBackend::Cpu {
            return Err(GpuError::NoDevicesAvailable);
        }
        Ok(())
    }

    /// Select the device with the backend and index asked for; when there
    /// is none, fall back to the CPU if a GPU was asked for, or fail.
    pub fn select_device(&mut self) -> (r: Result<(), GpuError>)
        ensures
            final(self).spec_devices() == old(self).spec_devices(),
            final(self).spec_backend() == old(self).spec_backend(),
            final(self).spec_device_index() == old(self).spec_device_index(),
            ({
                let pre = old(self);
                let found = exists|i: int|
                    0 <= i < pre.spec_devices().len() && (#[trigger] pre.spec_devices()[i]).backend
                        == pre.spec_backend() && pre.spec_devices()[i].index
                        == pre.spec_device_index();
                &&& found ==> r is Ok && exists|i: int|
                    0 <= i < pre.spec_devices().len() && (#[trigger] pre.spec_devices()[i]).backend
                        == pre.spec_backend() && pre.spec_devices()[i].index
                        == pre.spec_device_index() && (forall|j: int|
                        0 <= j < i ==> !((#[trigger] pre.spec_devices()[j]).backend
                            == pre.spec_backend() && pre.spec_devices()[j].index
                            == pre.spec_device_index())) && final(self).spec_active() == Some(
                        pre.spec_devices()[i],
                    )
                &&& !found && pre.spec_backend() != GpuBackend::Cpu ==> r is Ok
                    && (final(self).spec_active() matches Some(d) && d.backend == GpuBackend::Cpu)
                &&& !found && pre.spec_backend() == GpuBackend::Cpu ==> r == Err::<(), GpuError>(
                    GpuError::DeviceNotFound(pre.spec_device_index()),
                ) && final(self).spec_active() == pre.spec_active()
            }),
    {
        let n = self.devices.len();
        let mut i: usize = 0;
        while i < n
            invariant
                n == self.devices@.len(),
                i <= n,
                self.devices@ == old(self).devices@,
                self.backend == old(self).backend,
                self.device_index == old(self).device_index,
                self.active_device == old(self).active_device,
                forall|j: int|
                    0 <= j < i ==> !((#[trigger] self.devices@[j]).backend == self.backend
                        && self.devices@[j].index == self.device_index),
            decreases n - i,
        {
            if self.devices[i].backend == self.backend && self.devices[i].index == self.device_index {
                let d = GpuDevice {
                    backend: self.devices[i].backend,
                    index: self.devices[i].index,
                    name: self.devices[i].name.clone(),
                    total_memory: self.devices[i].total_memory,
                    available_memory: self.devices[i].available_memory,
                    compute_capability: self.devices[i].compute_capability,
                };
                self.active_device = Some(Arc::new(d));
                assert(self.spec_active() == Some(old(self).spec_devices()[i as int]));
                return Ok(());
            }
            i = i + 1;
        }
        if self.backend != GpuBackend::Cpu {
            self.active_device = Some(Arc::new(GpuDevice::cpu()));
            Ok(())
        } else {
            Err(GpuError::DeviceNotFound(self.device_index))
        }
    }

    /// Get the active device.
    pub fn active_device(&self) -> (r: Option<&GpuDevice>)
        ensures
            r matches Some(d) ==> self.spec_active() == Some(*d),
            r is None <==> self.spec_active() is None,
    {
        match &self.active_device {
            Some(d) => Some(&**d),
            None => None,
        }
    }

    /// Get all available devices.
    pub fn available_devices(&self) -> (r: &[GpuDevice])
        ensures
            r@ == self.spec_devices(),
    {
        self.devices.as_slice()
    }

    /// Whether a device other than the CPU was found.
    pub fn is_gpu_available(&self) -> (r: bool)
        ensures
            r <==> exists|i: int|
                0 <= i < self.spec_devices().len() && (#[trigger] self.spec_devices()[i]).backend
                    != GpuBackend::Cpu,
    {
        let n = self.devices.len();
        let mut i: usize = 0;
        while i < n
            invariant
                n == self.devices@.len(),
                i <= n,
                forall|j: int| 0 <= j < i ==> (#[trigger] self.devices@[j]).backend == GpuBackend::Cpu,
            decreases n - i,
        {
            if self.devices[i].backend != GpuBackend::Cpu {
                return true;
            }
            i = i + 1;
        }
        false
    }

    /// The backends of the devices found, other than the CPU, in order.
    pub fn available_backends(&self) -> (r: Vec<GpuBackend>)
        ensures
            r@ == self.spec_devices().map_values(|d: GpuDevice| d.backend).filter(
                |b: GpuBackend| b != GpuBackend::Cpu,
            ),
    {
        let ghost all = self.spec_devices().map_values(|d: GpuDevice| d.backend);
        let n = self.devices.len();
        let mut out: Vec<GpuBackend> = Vec::new();
        let mut i: usize = 0;
        proof {
            reveal(Seq::filter);
            assert(all.take(0) =~= Seq::<GpuBackend>::empty());
        }
        while i < n
            invariant
                n == self.devices@.len(),
                all == self.spec_devices().map_values(|d: GpuDevice| d.backend),
                i <= n,
                out@ == all.take(i as int).filter(|b: GpuBackend| b != GpuBackend::Cpu),
            decreases n - i,
        {
            proof {
                reveal(Seq::filter);
                assert(all.take(i + 1).drop_last() =~= all.take(i as int));
            }
            let b = self.devices[i].backend;
            if b != GpuBackend::Cpu {
                out.push(b);
            }
            i = i + 1;
        }
        proof {
            assert(all.take(n as int) =~= all);
        }
        out
    }

    /// Allocate memory on the active device: fails without an active
    /// device, or when the device lacks the memory.
    pub fn allocate_memory(&self, size: u64) -> (r: Result<GpuMemory, GpuError>)
        ensures
            self.spec_active() is None ==> r == Err::<GpuMemory, GpuError>(GpuError::NoDevicesAvailable),
            self.spec_active() matches Some(d) ==> {
                &&& !d.spec_has_memory(size) ==> r == Err::<GpuMemory, GpuError>(
                    GpuError::OutOfMemory { required: size, available: d.available_memory },
                )
                &&& d.spec_has_memory(size) ==> (r matches Ok(m) && m.size == size && *m.device == d)
            },
    {
        match &self.active_device {
            None => Err(GpuError::NoDevicesAvailable),
            Some(device) => {
                if !device.has_memory(size) {
                    return Err(GpuError::OutOfMemory { required: size, available: device.available_memory });
                }
                Ok(GpuMemory { size, device: device.clone() })
            },
        }
    }
}

/// A block of device memory (this build does not allocate on devices; the
/// block records its size and device).
#[derive(Debug)]
pub struct GpuMemory {
    /// Size in bytes
    pub size: u64,
    /// Device the memory is allocated on
    pub device: Arc<GpuDevice>,
}

/// GPU memory pool with a size cap.
#[derive(Debug)]
pub struct GpuMemoryPool {
    device: Arc<GpuDevice>,
    blocks: Vec<GpuMemory>,
    total_allocated: u64,
    max_size: u64,
}

impl GpuMemoryPool {
    /// Bytes handed out.
    pub closed spec fn spec_total(&self) -> u64 {
        self.total_allocated
    }

    /// The cap.
    pub closed spec fn spec_max(&self) -> u64 {
        self.max_size
    }

    /// The device the pool allocates on.
    pub closed spec fn spec_device(&self) -> GpuDevice {
        *self.device
    }

    /// The sizes of the blocks handed out, in order.
    pub closed spec fn spec_blocks(&self) -> Seq<u64> {
        self.blocks@.map_values(|m: GpuMemory| m.size)
    }

    /// The pool never hands out more than its cap.
    pub closed spec fn wf(&self) -> bool {
        self.total_allocated <= self.max_size
    }

    /// Create a new memory pool.
    pub fn new(device: Arc<GpuDevice>, max_size: u64) -> (r: Self)
        ensures
            r.wf(),
            r.spec_total() == 0,
            r.spec_max() == max_size,
            r.spec_device() == *device,
            r.spec_blocks() == Seq::<u64>::empty(),
    {
        let r = GpuMemoryPool { device, blocks: Vec::new(), total_allocated: 0, max_size };
        assert(r.spec_blocks() =~= Seq::<u64>::empty());
        r
    }

    /// Allocate from pool: refused when it would take the pool past its
    /// cap, with the room left.
    pub fn allocate(&mut self, size: u64) -> (r: Result<&GpuMemory, GpuError>)
        requires
            old(self).wf(),
        ensures
            final(self).wf(),
            final(self).spec_max() == old(self).spec_max(),
            final(self).spec_device() == old(self).spec_device(),
            old(self).spec_total() + size > old(self).spec_max() ==> {
                &&& r == Err::<&GpuMemory, GpuError>(
                    GpuError::OutOfMemory {
                        required: size,
                        available: (old(self).spec_max() - old(self).spec_total()) as u64,
                    },
                )
                &&& final(self).spec_total() == old(self).spec_total()
                &&& final(self).spec_blocks() == old(self).spec_blocks()
            },
            old(self).spec_total() + size <= old(self).spec_max() ==> {
                &&& r matches Ok(m) && m.size == size && *m.device == old(self).spec_device()
                &&& final(self).spec_total() == old(self).spec_total() + size
                &&& final(self).spec_blocks() == old(self).spec_blocks().push(size)
            },
    {
        if size > self.max_size - self.total_allocated {
            return Err(GpuError::OutOfMemory { required: size, available: self.max_size - self.total_allocated });
        }
        let memory = GpuMemory { size, device: self.device.clone() };
        self.blocks.push(memory);
        self.total_allocated = self.total_allocated + size;
        proof {
            assert(self.spec_blocks() =~= old(self).spec_blocks().push(size));
        }
        let n = self.blocks.len();
        Ok(&self.blocks[n - 1])
    }

    /// Bytes handed out.
    pub fn total_allocated(&self) -> (r: u64)
        ensures
            r == self.spec_total(),
    {
        self.total_allocated
    }

    /// The cap.
    pub fn max_size(&self) -> (r: u64)
        ensures
            r == self.spec_max(),
    {
        self.max_size
    }
}

} // verus!
