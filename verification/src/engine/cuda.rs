//! CUDA device descriptions and errors, and the backend as it stands when
//! the library is built without CUDA support.

use vstd::prelude::*;
use crate::engine::gpu::GpuDevice;
use crate::text::{concat2, decimal, push_decimal};

verus! {

/// CUDA-specific error types.
#[derive(Debug, Clone, PartialEq, Eq)]
pub enum CudaError {
    DriverNotFound,
    NoDevicesDetected,
    DeviceNotFound { index: usize, reason: String },
    AllocationFailed(String),
    CopyFailed(String),
    KernelLaunchFailed(String),
    ModuleLoadFailed(String),
    ContextCreationFailed(String),
    Other(String),
}

impl CudaError {
    /// The text the error displays.
    pub open spec fn spec_message(&self) -> Seq<char> {
        match self {
            CudaError::DriverNotFound => "CUDA driver not installed or not found"@,
            CudaError::NoDevicesDetected => "No CUDA-capable devices detected"@,
            CudaError::DeviceNotFound { index, reason } => "CUDA Device "@ + decimal(*index as nat)
                + " not found: "@ + reason@,
            CudaError::AllocationFailed(s) => "CUDA memory allocation failed: "@ + s@,
            CudaError::CopyFailed(s) => "CUDA memory copy failed: "@ + s@,
            CudaError::KernelLaunchFailed(s) => "CUDA kernel launch failed: "@ + s@,
            CudaError::ModuleLoadFailed(s) => "CUDA module load failed: "@ + s@,
            CudaError::ContextCreationFailed(s) => "CUDA context creation failed: "@ + s@,
            CudaError::Other(s) => "CUDA error: "@ + s@,
        }
    }

    /// Human-readable description of the error.
    pub fn message(&self) -> (r: String)
        ensures
            r@ == self.spec_message(),
    {
        match self {
            CudaError::DriverNotFound => "CUDA driver not installed or not found".to_owned(),
            CudaError::NoDevicesDetected => "No CUDA-capable devices detected".to_owned(),
            CudaError::DeviceNotFound { index, reason } => {
                let mut r = "CUDA Device ".to_owned();
                push_decimal(&mut r, *index as u64);
                r.append(" not found: ");
                r.append(reason.as_str());
                r
            },
            CudaError::AllocationFailed(s) => concat2("CUDA memory allocation failed: ", s.as_str()),
            CudaError::CopyFailed(s) => concat2("CUDA memory copy failed: ", s.as_str()),
            CudaError::KernelLaunchFailed(s) => concat2("CUDA kernel launch failed: ", s.as_str()),
            CudaError::ModuleLoadFailed(s) => concat2("CUDA module load failed: ", s.as_str()),
            CudaError::ContextCreationFailed(s) => concat2(
                "CUDA context creation failed: ",
                s.as_str(),
            ),
            CudaError::Other(s) => concat2("CUDA error: ", s.as_str()),
        }
    }
}

/// CUDA Device Information (extended from base GpuDevice).
#[derive(Debug)]
pub struct CudaDeviceInfo {
    /// Base GPU device info
    pub device: GpuDevice,
    /// CUDA compute capability major version
    pub compute_major: u32,
    /// CUDA compute capability minor version
    pub compute_minor: u32,
    /// Number of streaming multiprocessors
    pub multiprocessor_count: u32,
    /// Maximum threads per block
    pub max_threads_per_block: u32,
    /// Maximum shared memory per block
    pub max_shared_memory_per_block: u64,
    /// Memory clock rate
    pub memory_clock_rate: u32,
    /// Memory bus width in bits
    pub memory_bus_width: u32,
    /// L2 cache size in bytes
    pub l2_cache_size: u64,
    /// Maximum clock rate in kHz
    pub max_clock_rate: u32,
    /// Whether the device supports unified memory
    pub unified_memory: bool,
    /// Whether the device supports concurrent kernels
    pub concurrent_kernels: bool,
    /// Whether the device supports cooperative launch
    pub cooperative_launch: bool,
}

impl CudaDeviceInfo {
    /// Whether the compute capability is at least `major.minor`
    /// (compared major first, then minor).
    pub open spec fn spec_supports_compute(&self, major: u32, minor: u32) -> bool {
        self.compute_major > major || (self.compute_major == major && self.compute_minor >= minor)
    }

    /// Check if device supports a minimum compute capability.
    pub fn supports_compute(&self, major: u32, minor: u32) -> (r: bool)
        ensures
            r == self.spec_supports_compute(major, minor),
    {
        self.compute_major > major || (self.compute_major == major && self.compute_minor >= minor)
    }

    /// Check if device supports flash attention (requires compute 8.0+).
    pub fn supports_flash_attention(&self) -> (r: bool)
        ensures
            r == self.spec_supports_compute(8, 0),
            r <==> self.compute_major >= 8,
    {
        self.supports_compute(8, 0)
    }
}

/// Support for a compute capability is inherited by every lower one.
pub proof fn lemma_supports_compute_downward(
    info: &CudaDeviceInfo,
    major: u32,
    minor: u32,
    lower_major: u32,
    lower_minor: u32,
)
    requires
        info.spec_supports_compute(major, minor),
        lower_major < major || (lower_major == major && lower_minor <= minor),
    ensures
        info.spec_supports_compute(lower_major, lower_minor),
{
}

/// The CUDA backend of a build without CUDA support: never available.
#[derive(Debug)]
pub struct CudaBackend;

impl CudaBackend {
    /// Always fails: the driver is not there.
    pub fn new() -> (r: Result<Self, CudaError>)
        ensures
            r == Err::<Self, CudaError>(CudaError::DriverNotFound),
    {
        Err(CudaError::DriverNotFound)
    }

    /// CUDA is not available.
    pub fn is_available() -> (r: bool)
        ensures
            !r,
    {
        false
    }

    /// No device.
    pub fn device_count(&self) -> (r: usize)
        ensures
            r == 0,
    {
        0
    }
}

/// A CUDA memory buffer of a build without CUDA support (holds nothing).
#[derive(Debug)]
pub struct CudaMemoryBuffer;

} // verus!
