//! Metal device descriptions and errors, and the backend as it stands when
//! the library is built without Metal support.

use vstd::prelude::*;
use crate::engine::gpu::GpuDevice;
use crate::text::{concat2, decimal, push_decimal};

verus! {

/// Metal-specific error types.
#[derive(Debug, Clone, PartialEq, Eq)]
pub enum MetalError {
    NotAvailable,
    NoDevicesFound,
    DeviceNotFound { index: usize, reason: String },
    AllocationFailed(String),
    CopyFailed(String),
    KernelCompilationFailed(String),
    CommandSubmissionFailed(String),
    Other(String),
}

impl MetalError {
    /// The text the error displays.
    pub open spec fn spec_message(&self) -> Seq<char> {
        match self {
            MetalError::NotAvailable => "Metal framework not available (requires macOS)"@,
            MetalError::NoDevicesFound => "No Metal-capable devices found"@,
            MetalError::DeviceNotFound { index, reason } => "Metal Device "@ + decimal(
                *index as nat,
            ) + " not found: "@ + reason@,
            MetalError::AllocationFailed(s) => "Metal buffer allocation failed: "@ + s@,
            MetalError::CopyFailed(s) => "Metal buffer copy failed: "@ + s@,
            MetalError::KernelCompilationFailed(s) => "Metal kernel compilation failed: "@ + s@,
            MetalError::CommandSubmissionFailed(s) => "Metal command buffer submission failed: "@
                + s@,
            MetalError::Other(s) => "Metal error: "@ + s@,
        }
    }

    /// Human-readable description of the error.
    pub fn message(&self) -> (r: String)
        ensures
            r@ == self.spec_message(),
    {
        match self {
            MetalError::NotAvailable => "Metal framework not available (requires macOS)".to_owned(),
            MetalError::NoDevicesFound => "No Metal-capable devices found".to_owned(),
            MetalError::DeviceNotFound { index, reason } => {
                let mut r = "Metal Device ".to_owned();
                push_decimal(&mut r, *index as u64);
                r.append(" not found: ");
                r.append(reason.as_str());
                r
            },
            MetalError::AllocationFailed(s) => concat2("Metal buffer allocation failed: ", s.as_str()),
            MetalError::CopyFailed(s) => concat2("Metal buffer copy failed: ", s.as_str()),
            MetalError::KernelCompilationFailed(s) => concat2(
                "Metal kernel compilation failed: ",
                s.as_str(),
            ),
            MetalError::CommandSubmissionFailed(s) => concat2(
                "Metal command buffer submission failed: ",
                s.as_str(),
            ),
            MetalError::Other(s) => concat2("Metal error: ", s.as_str()),
        }
    }
}

/// Metal GPU Family classification.
#[derive(Debug, Clone, Copy, PartialEq, Eq, Structural)]
pub enum MetalGpuFamily {
    /// Apple-designed GPU (M1, M2, M3 series)
    Apple,
    /// Mac GPU (AMD/NVIDIA on Intel Macs)
    Mac,
    /// Common (supports both)
    Common,
    /// Metal 3 capable
    Metal3,
    /// Unknown
    Unknown,
}

/// Metal Device Information (extended from base GpuDevice).
#[derive(Debug)]
pub struct MetalDeviceInfo {
    /// Base GPU device info
    pub device: GpuDevice,
    /// Whether this is Apple Silicon (unified memory)
    pub is_apple_silicon: bool,
    /// Maximum threadgroup memory size
    pub max_threadgroup_memory_length: u64,
    /// Maximum threads per threadgroup
    pub max_threads_per_threadgroup: u32,
    /// Recommended max working set size
    pub recommended_max_working_set_size: u64,
    /// Current allocated size
    pub current_allocated_size: u64,
    /// Whether the device supports ray tracing
    pub supports_ray_tracing: bool,
    /// Whether the device supports mesh shaders
    pub supports_mesh_shaders: bool,
    /// GPU family type
    pub gpu_family: MetalGpuFamily,
    /// Architecture name
    pub architecture: String,
}

/// Buffer alignment Metal uses, in bytes.
pub const METAL_BUFFER_ALIGNMENT: usize = 256;

impl MetalDeviceInfo {
    /// Check if device supports unified memory (zero-copy between CPU and GPU).
    pub fn supports_unified_memory(&self) -> (r: bool)
        ensures
            r == self.is_apple_silicon,
    {
        self.is_apple_silicon
    }

    /// Check if device supports Metal 3 features.
    pub fn supports_metal3(&self) -> (r: bool)
        ensures
            r == (self.gpu_family == MetalGpuFamily::Metal3),
    {
        self.gpu_family == MetalGpuFamily::Metal3
    }

    /// Get optimal buffer alignment for this device.
    pub fn buffer_alignment(&self) -> (r: usize)
        ensures
            r == METAL_BUFFER_ALIGNMENT,
    {
        METAL_BUFFER_ALIGNMENT
    }
}

/// The Metal backend of a build without Metal support: never available.
#[derive(Debug)]
pub struct MetalBackend;

impl MetalBackend {
    /// Always fails: Metal is not available.
    pub fn new() -> (r: Result<Self, MetalError>)
        ensures
            r == Err::<Self, MetalError>(MetalError::NotAvailable),
    {
        Err(MetalError::NotAvailable)
    }

    /// Metal is not available.
    pub fn is_available() -> (r: bool)
        ensures
            !r,
    {
        false
    }

    /// No device.
    pub fn device_count(&self) -> (r: usize)
        ensures
            r == 0,
    {
        0
    }
}

/// A Metal buffer of a build without Metal support (holds nothing).
#[derive(Debug)]
pub struct MetalBuffer;

/// A Metal compute pipeline of a build without Metal support (holds nothing).
#[derive(Debug)]
pub struct MetalComputePipeline;

} // verus!
