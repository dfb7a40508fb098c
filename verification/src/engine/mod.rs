//! Inference engine: errors, backend descriptions and GPU bookkeeping.

pub mod cuda;
pub mod error;
pub mod flash_attn_gpu;
pub mod gguf;
pub mod gpu;
pub mod inference;
pub mod metal;
pub mod moe;
pub mod multi_gpu;
pub mod multi_gpu_exec;
pub mod multi_gpu_partition;
pub mod multi_gpu_pipeline;
pub mod multi_gpu_tensor;

pub use error::InferenceError;
pub use gpu::{GpuBackend, GpuDevice, GpuError};
pub use inference::InferenceResult;

use vstd::prelude::*;

verus! {

/// What a model can do — used by the InferenceModel trait.
#[derive(Debug, Clone, Copy, PartialEq, Eq, Structural)]
pub enum InferenceCapability {
    TextClassification,
    TextGeneration,
    Embedding,
    NamedEntityRecognition,
}

} // verus!
