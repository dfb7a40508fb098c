use veritas_sdr::engine::gguf::{ChatMessage, ChatRole, GgufGenerator};
use veritas_sdr::engine::cuda::{CudaBackend, CudaDeviceInfo, CudaError};
use veritas_sdr::engine::error::InferenceError as EngineError;
use veritas_sdr::engine::flash_attn_gpu::{
    attention_memory_required, attention_num_blocks, checked_attention_memory, FlashAttnGpuError,
};
use std::sync::Arc;
use veritas_sdr::engine::gpu::{GpuBackend, GpuDevice, GpuError, GpuManager, GpuMemoryPool};
use veritas_sdr::engine::moe::executor::{
    checked_load_bounds, cpu_assignments, find_assignment, load_bounds, ExpertDeviceAssignment,
};
use veritas_sdr::engine::inference::{check_context, check_memory_budget, InferenceError};
use veritas_sdr::engine::metal::{MetalBackend, MetalDeviceInfo, MetalError, MetalGpuFamily};
use veritas_sdr::engine::moe::config::{check_dimension, validate_expert_counts, MoeError};
use veritas_sdr::engine::moe::ExpertCombiner;
use veritas_sdr::engine::multi_gpu::{
    checked_available_memory, checked_total_memory, select_gpus, total_available_memory, total_memory,
    CrossGpuCommunication, MultiGpuError, MultiGpuStrategy,
};
use veritas_sdr::engine::multi_gpu_exec::{gpus_used, micro_batch_count, split_ranges, MockPartitionExecutor};
use veritas_sdr::engine::multi_gpu_partition::{
    cuda_can_access_peer, determine_strategy, layer_ranges, layout_slots, share_per_gpu, MultiGpuPlan,
    PartitionSlot, TransferMethod,
};
use veritas_sdr::engine::multi_gpu_partition::CrossGpuCommunication as PartitionChannel;
use veritas_sdr::engine::multi_gpu_pipeline::PipelineParallelExecutor;
use veritas_sdr::engine::multi_gpu_tensor::TensorParallelExecutor;
use veritas_sdr::engine::InferenceCapability;

fn cuda_info(major: u32, minor: u32) -> CudaDeviceInfo {
    CudaDeviceInfo {
        device: GpuDevice::cpu(),
        compute_major: major,
        compute_minor: minor,
        multiprocessor_count: 108,
        max_threads_per_block: 1024,
        max_shared_memory_per_block: 49152,
        memory_clock_rate: 5001,
        memory_bus_width: 384,
        l2_cache_size: 12582912,
        max_clock_rate: 1830,
        unified_memory: true,
        concurrent_kernels: true,
        cooperative_launch: true,
    }
}

fn gpu(index: usize, backend: GpuBackend) -> GpuDevice {
    GpuDevice {
        backend,
        index,
        name: format!("GPU {}", index),
        total_memory: 24_000_000_000,
        available_memory: 20_000_000_000,
        compute_capability: Some((8, 6)),
    }
}

#[test]
fn test_cuda_device_info_compute_check() {
    let info = cuda_info(8, 6);
    assert!(info.supports_compute(8, 0));
    assert!(info.supports_compute(8, 6));
    assert!(!info.supports_compute(9, 0));
    assert!(info.supports_flash_attention());
}

#[test]
fn cuda_compute_check_compares_major_first() {
    let info = cuda_info(7, 9);
    assert!(!info.supports_compute(8, 0));
    assert!(info.supports_compute(7, 5));
    assert!(!info.supports_flash_attention());
}

#[test]
fn test_cuda_error_display() {
    assert!(CudaError::DriverNotFound.message().contains("not installed"));
    assert!(CudaError::NoDevicesDetected.message().contains("No CUDA-capable"));
    let err = CudaError::DeviceNotFound { index: 2, reason: "test".to_string() };
    assert!(err.message().contains("Device 2"));
}

#[test]
fn test_cuda_backend_unavailable_without_feature() {
    assert!(!CudaBackend::is_available());
    assert!(CudaBackend::new().is_err());
}

#[test]
fn test_gpu_backend_display() {
    assert_eq!(GpuBackend::Cuda.to_display_string(), "CUDA");
    assert_eq!(GpuBackend::Metal.to_display_string(), "Metal");
    assert_eq!(GpuBackend::Cpu.to_display_string(), "CPU");
}

#[test]
fn test_gpu_device_cpu() {
    let device = GpuDevice::cpu();
    assert_eq!(device.backend, GpuBackend::Cpu);
    assert!(device.has_memory(0));
}

#[test]
fn gpu_has_memory_checks_available_bytes() {
    let d = gpu(0, GpuBackend::Cuda);
    assert!(d.has_memory(20_000_000_000));
    assert!(!d.has_memory(20_000_000_001));
    assert!(GpuDevice::cpu().has_memory(u64::MAX));
    assert_eq!(GpuBackend::default(), GpuBackend::Cpu);
}

#[test]
fn gpu_error_messages() {
    assert_eq!(
        GpuError::OutOfMemory { required: 10, available: 4 }.message(),
        "Out of GPU memory: required 10 bytes, available 4 bytes"
    );
    assert_eq!(GpuError::DeviceNotFound(3).message(), "Device not found: 3");
}

fn metal_info(apple: bool, family: MetalGpuFamily) -> MetalDeviceInfo {
    MetalDeviceInfo {
        device: GpuDevice::cpu(),
        is_apple_silicon: apple,
        max_threadgroup_memory_length: 32768,
        max_threads_per_threadgroup: 1024,
        recommended_max_working_set_size: 17179869184,
        current_allocated_size: 0,
        supports_ray_tracing: apple,
        supports_mesh_shaders: apple,
        gpu_family: family,
        architecture: "Apple M3".to_string(),
    }
}

#[test]
fn test_metal_device_info_unified_memory() {
    let info = metal_info(true, MetalGpuFamily::Metal3);
    assert!(info.supports_unified_memory());
    assert!(info.supports_metal3());
    assert_eq!(info.buffer_alignment(), 256);
}

#[test]
fn test_metal_device_info_intel_mac() {
    let info = metal_info(false, MetalGpuFamily::Mac);
    assert!(!info.supports_unified_memory());
    assert!(!info.supports_metal3());
}

#[test]
fn test_metal_gpu_family() {
    assert_eq!(MetalGpuFamily::Apple, MetalGpuFamily::Apple);
    assert_ne!(MetalGpuFamily::Apple, MetalGpuFamily::Mac);
    assert!(MetalGpuFamily::Metal3 == MetalGpuFamily::Metal3);
}

#[test]
fn test_metal_error_display() {
    assert!(MetalError::NotAvailable.message().contains("not available"));
    assert!(MetalError::NoDevicesFound.message().contains("No Metal-capable"));
    let err = MetalError::DeviceNotFound { index: 0, reason: "test".to_string() };
    assert!(err.message().contains("Device 0"));
}

#[test]
fn test_metal_backend_unavailable_without_feature() {
    assert!(!MetalBackend::is_available());
    assert!(MetalBackend::new().is_err());
}

#[test]
fn test_cross_gpu_communication() {
    let comm = CrossGpuCommunication::new(0, 1, true);
    assert!(comm.can_direct_transfer());
    assert_eq!(comm.transfer_method(), "P2P Direct");
    let comm = CrossGpuCommunication::new(0, 1, false);
    assert!(!comm.can_direct_transfer());
    assert_eq!(comm.transfer_method(), "Host Staging");
}

#[test]
fn test_multi_gpu_strategy_default() {
    assert_eq!(MultiGpuStrategy::default(), MultiGpuStrategy::Auto);
}

#[test]
fn cuda_p2p_check_without_feature() {
    assert!(!cuda_can_access_peer(0, 1));
}

#[test]
fn partition_channel_method() {
    let c = PartitionChannel::new(0, 1, true);
    assert_eq!(c.method(), TransferMethod::P2pDirect);
    assert_eq!(c.transfer_method(), "P2P Direct");
    let c = PartitionChannel::new(2, 3, false);
    assert_eq!(c.method(), TransferMethod::HostStaged);
    assert_eq!((c.source(), c.destination()), (2, 3));
}

#[test]
fn test_multi_gpu_manager_creation() {
    let devices = vec![gpu(0, GpuBackend::Cuda), gpu(1, GpuBackend::Cuda), gpu(2, GpuBackend::Cuda)];
    let chosen = select_gpus(devices, 0).unwrap();
    assert_eq!(chosen.len(), 3);
}

#[test]
fn test_multi_gpu_insufficient_gpus() {
    let result = select_gpus(vec![GpuDevice::cpu()], 0);
    assert!(matches!(result, Err(MultiGpuError::InsufficientGpus { required: 2, available: 1 })));
    let result = select_gpus(vec![GpuDevice::cpu(), gpu(1, GpuBackend::Cuda)], 0);
    assert!(matches!(result, Err(MultiGpuError::InsufficientGpus { required: 2, available: 1 })));
}

#[test]
fn select_gpus_skips_cpu_and_caps_count() {
    let devices = vec![
        gpu(0, GpuBackend::Cuda),
        GpuDevice::cpu(),
        gpu(1, GpuBackend::Cuda),
        gpu(2, GpuBackend::Cuda),
    ];
    let chosen = select_gpus(devices, 2).unwrap();
    let idx: Vec<usize> = chosen.iter().map(|d| d.index).collect();
    assert_eq!(idx, vec![0, 1]);
}

#[test]
fn test_partition_by_layers() {
    let ranges = layer_ranges(3, 96);
    assert_eq!(ranges.len(), 3);
    let total: usize = ranges.iter().map(|(s, e)| e - s).sum();
    assert_eq!(total, 96);
}

#[test]
fn layer_ranges_give_extras_to_first_gpus() {
    assert_eq!(layer_ranges(3, 10), vec![(0, 4), (4, 7), (7, 10)]);
    assert_eq!(layer_ranges(4, 2), vec![(0, 1), (1, 2), (2, 2), (2, 2)]);
    assert_eq!(layer_ranges(1, 0), vec![(0, 0)]);
}

#[test]
fn strategy_choice() {
    assert_eq!(determine_strategy(MultiGpuStrategy::TensorParallelism, false, false, 2, 10, false), MultiGpuStrategy::TensorParallelism);
    assert_eq!(determine_strategy(MultiGpuStrategy::Auto, true, true, 4, 64, true), MultiGpuStrategy::PipelineParallelism);
    assert_eq!(determine_strategy(MultiGpuStrategy::Auto, true, true, 2, 32, true), MultiGpuStrategy::TensorParallelism);
    assert_eq!(determine_strategy(MultiGpuStrategy::Auto, true, false, 4, 64, true), MultiGpuStrategy::LayerParallelism);
    assert_eq!(determine_strategy(MultiGpuStrategy::Auto, false, true, 2, 32, true), MultiGpuStrategy::LayerParallelism);
    assert_eq!(share_per_gpu(40_000_000_000, 3), 13_333_333_333);
}

#[test]
fn executors_keep_their_settings() {
    let p = PipelineParallelExecutor::new(10);
    assert_eq!(p.micro_batches(), 4);
    let p = PipelineParallelExecutor::new(5).with_micro_batches(8);
    assert_eq!(p.micro_batches(), 8);
    assert_eq!(p.stage_compute_us(), 5);
    let p = PipelineParallelExecutor::new(5).with_micro_batches(0);
    assert_eq!(p.micro_batches(), 1);
    let t = TensorParallelExecutor::new(10, true);
    assert!(t.p2p_enabled());
    assert_eq!(t.shard_compute_us(), 10);
    assert_eq!(MockPartitionExecutor::new(1000).base_latency_us(), 1000);
    assert_eq!(gpus_used(0), 1);
    assert_eq!(gpus_used(4), 4);
}

#[test]
fn moe_counts_and_errors() {
    assert!(validate_expert_counts(8, 2).is_ok());
    assert_eq!(validate_expert_counts(0, 2), Err(MoeError::InvalidExpertCount(0)));
    assert_eq!(validate_expert_counts(8, 0), Err(MoeError::InvalidTopK(0)));
    assert_eq!(validate_expert_counts(8, 9), Err(MoeError::InvalidTopK(9)));
    assert_eq!(
        MoeError::InvalidTopK(9).message(),
        "Invalid top-k value: 9 (must be <= num_experts)"
    );
    assert_eq!(ExpertCombiner::new(4096).hidden_dim(), 4096);
}

#[test]
fn flash_attention_error_messages() {
    assert_eq!(
        FlashAttnGpuError::InsufficientComputeCapability.message(),
        "Flash Attention requires compute capability 8.0+"
    );
    assert_eq!(
        FlashAttnGpuError::InvalidParams("x".to_string()).message(),
        "Invalid attention parameters: x"
    );
}

#[test]
fn run_checks_before_inference() {
    assert!(check_context(5, "hello").is_ok());
    assert_eq!(
        check_context(4, "hello"),
        Err(InferenceError::ContextExceeded { max: 4, got: 5 })
    );
    assert_eq!(
        check_context(3, "é!"),
        Ok(())
    );
    assert!(check_memory_budget(2048, None).is_ok());
    assert!(check_memory_budget(1024, Some(1024)).is_ok());
    assert_eq!(
        check_memory_budget(2048, Some(1024)),
        Err(InferenceError::MemoryExceeded { used: 2048, limit: 1024 })
    );
    assert_eq!(
        InferenceError::ContextExceeded { max: 4, got: 5 }.message(),
        "Context length exceeded: max 4, got 5"
    );
}

#[test]
fn capability_and_engine_error_values() {
    assert_ne!(InferenceCapability::TextGeneration, InferenceCapability::Embedding);
    let e = EngineError::QueueFull { current: 3, max: 2 };
    assert_eq!(e.clone(), e);
}

#[test]
fn gguf_generator_without_backend() {
    let mut g = GgufGenerator::new("phi-3".to_string(), 4096);
    assert_eq!(g.model_id(), "phi-3");
    assert_eq!(g.memory_usage(), 0);
    assert_eq!(g.capabilities(), vec![InferenceCapability::TextGeneration]);
    assert_eq!(
        g.generate_text(""),
        Err(EngineError::InputValidation("prompt cannot be empty".to_string()))
    );
    assert_eq!(
        g.generate_text("hi"),
        Err(EngineError::ModelError("model 'phi-3' not loaded - cannot generate".to_string()))
    );
    let prompt = g.format_chat_prompt(&[
        ChatMessage { role: ChatRole::System, content: "Be brief.".to_string() },
        ChatMessage { role: ChatRole::User, content: "Hi".to_string() },
    ]);
    assert_eq!(prompt, "<|system|>Be brief.<|end|>\n<|user|>Hi<|end|>\n<|assistant|>");
    assert_eq!(g.format_chat_prompt(&[]), "<|assistant|>");
    g.unload();
    assert_eq!(g.memory_usage(), 0);
}

#[test]
fn gpu_manager_cpu_only_build() {
    use_gpu_manager();
}

fn use_gpu_manager() {
    let manager = GpuManager::new(GpuBackend::Cpu, 0).unwrap();
    assert_eq!(manager.active_device().unwrap().backend, GpuBackend::Cpu);
    assert!(!manager.is_gpu_available());
    assert!(manager.available_backends().is_empty());
    assert_eq!(manager.available_devices().len(), 1);
    assert!(matches!(GpuManager::new(GpuBackend::Cuda, 0), Err(GpuError::NoDevicesAvailable)));
    assert!(matches!(GpuManager::new(GpuBackend::Cpu, 1), Err(GpuError::DeviceNotFound(1))));
    let mem = manager.allocate_memory(1 << 40).unwrap();
    assert_eq!(mem.size, 1 << 40);
}

#[test]
fn test_gpu_memory_pool() {
    let mut pool = GpuMemoryPool::new(Arc::new(GpuDevice::cpu()), 1024);
    let mem = pool.allocate(512).unwrap();
    assert_eq!(mem.size, 512);
    assert_eq!(pool.total_allocated(), 512);
}

#[test]
fn test_gpu_memory_pool_out_of_memory() {
    let mut pool = GpuMemoryPool::new(Arc::new(GpuDevice::cpu()), 1024);
    pool.allocate(512).unwrap();
    let result = pool.allocate(1024);
    assert!(matches!(result, Err(GpuError::OutOfMemory { required: 1024, available: 512 })));
    assert_eq!(pool.total_allocated(), 512);
}

#[test]
fn test_gpu_manager_cpu_only() {
    let manager = GpuManager::new(GpuBackend::Cpu, 0).unwrap();
    assert!(manager.active_device().is_some());
    assert_eq!(manager.active_device().unwrap().backend, GpuBackend::Cpu);
}

#[test]
fn moe_cpu_assignments_and_loads() {
    let a = cpu_assignments(3);
    assert_eq!(a.len(), 3);
    assert_eq!(a[2], ExpertDeviceAssignment { expert_idx: 2, device_id: -1, memory_offset: 0 });
    assert_eq!(find_assignment(&a, 1).map(|x| x.expert_idx), Some(1));
    assert!(find_assignment(&a, 7).is_none());
    assert_eq!(load_bounds(&[]), (0, 0, 0));
    assert_eq!(load_bounds(&[3, 9, 1, 4]), (17, 9, 1));
}

#[test]
fn split_ranges_give_rest_to_last_part() {
    use_split();
}

fn use_split() {
    assert_eq!(split_ranges(10, 3), vec![(0, 3), (3, 6), (6, 10)]);
    assert_eq!(split_ranges(2, 4), vec![(0, 0), (0, 0), (0, 0), (0, 2)]);
    assert_eq!(micro_batch_count(4, 32), 4);
    assert_eq!(micro_batch_count(8, 3), 3);
}

#[test]
fn test_total_memory() {
    let devices = vec![gpu(0, GpuBackend::Cuda), gpu(1, GpuBackend::Cuda), gpu(2, GpuBackend::Cuda)];
    assert_eq!(total_memory(&devices), 72_000_000_000);
    assert_eq!(total_available_memory(&devices), 60_000_000_000);
    assert_eq!(total_memory(&[]), 0);
}

#[test]
fn checked_attention_memory_reports_overflow() {
    assert_eq!(checked_attention_memory(1, 2048, 32, 32, 128), Some(67_371_008));
    assert_eq!(checked_attention_memory(2, 1024, 8, 2, 64), Some(2 * 1024 * 12 * 64 * 2 + 2 * 1024 * 8 * 64 * 2 + 2 * 8 * 1024 * 4));
    assert_eq!(checked_attention_memory(0, 2048, 32, 32, 128), Some(0));
    assert_eq!(checked_attention_memory(usize::MAX, 2, 1, 1, 1), None);
    assert_eq!(checked_attention_memory(1, 1, 1, usize::MAX, 1), None);
    assert_eq!(checked_attention_memory(1, 1, usize::MAX, 0, 1), None);
}

#[test]
fn checked_sums_report_overflow() {
    let devices = vec![gpu(0, GpuBackend::Cuda), gpu(1, GpuBackend::Cuda)];
    assert_eq!(checked_total_memory(&devices), Some(48_000_000_000));
    assert_eq!(checked_available_memory(&devices), Some(40_000_000_000));
    assert_eq!(checked_total_memory(&[]), Some(0));
    let mut big = gpu(2, GpuBackend::Cuda);
    big.total_memory = u64::MAX;
    big.available_memory = u64::MAX - 20_000_000_000;
    let with_big = vec![gpu(0, GpuBackend::Cuda), big];
    assert_eq!(checked_total_memory(&with_big), None);
    assert_eq!(checked_available_memory(&with_big), Some(u64::MAX));
    assert_eq!(checked_load_bounds(&[3, 9, 1, 4]), Some((17, 9, 1)));
    assert_eq!(checked_load_bounds(&[]), Some((0, 0, 0)));
    assert_eq!(checked_load_bounds(&[u32::MAX, 1]), None);
    assert_eq!(checked_load_bounds(&[u32::MAX, 0]), Some((u32::MAX, u32::MAX, 0)));
}

#[test]
fn attention_memory_and_blocks() {
    assert_eq!(attention_memory_required(1, 2048, 32, 32, 128), 67_371_008);
    assert_eq!(attention_num_blocks(2048, 128), 16);
    assert_eq!(attention_num_blocks(4096, 128), 32);
    assert_eq!(attention_num_blocks(1, 128), 1);
    assert_eq!(attention_num_blocks(0, 128), 0);
    assert_eq!(check_dimension(12, 3, 4), Ok(()));
    assert_eq!(check_dimension(11, 3, 4), Err(MoeError::DimensionMismatch { expected: 12, actual: 11 }));
}

#[test]
fn multi_gpu_plan_places_layers_in_order() {
    let devices = vec![gpu(0, GpuBackend::Cuda), gpu(1, GpuBackend::Cuda), gpu(2, GpuBackend::Cuda)];
    let mut plan = MultiGpuPlan::new(devices, 0).unwrap();
    assert_eq!(plan.num_gpus(), 3);
    assert_eq!(plan.active_strategy(), MultiGpuStrategy::Auto);
    assert!(plan.slots().is_empty());
    plan.partition_model(MultiGpuStrategy::Auto, true, 10, true);
    assert_eq!(plan.active_strategy(), MultiGpuStrategy::LayerParallelism);
    assert_eq!(
        plan.slots(),
        &[
            PartitionSlot { gpu_index: 0, layer_start: 0, layer_end: 4 },
            PartitionSlot { gpu_index: 1, layer_start: 4, layer_end: 7 },
            PartitionSlot { gpu_index: 2, layer_start: 7, layer_end: 10 },
        ]
    );
    plan.partition_model(MultiGpuStrategy::TensorParallelism, true, 10, true);
    assert_eq!(plan.active_strategy(), MultiGpuStrategy::TensorParallelism);
    for (i, slot) in plan.slots().iter().enumerate() {
        assert_eq!(*slot, PartitionSlot { gpu_index: i, layer_start: 0, layer_end: usize::MAX });
    }
}

#[test]
fn multi_gpu_plan_selection() {
    let devices = vec![gpu(0, GpuBackend::Cuda), gpu(1, GpuBackend::Cuda), gpu(2, GpuBackend::Cuda)];
    let plan = MultiGpuPlan::new(devices, 1).unwrap();
    assert_eq!(plan.num_gpus(), 1);
    assert_eq!(plan.devices()[0].index, 0);
    let devices = vec![GpuDevice::cpu(), gpu(1, GpuBackend::Cuda)];
    assert!(matches!(
        MultiGpuPlan::new(devices, 0),
        Err(MultiGpuError::InsufficientGpus { required: 2, available: 1 })
    ));
    let slots = layout_slots(&[gpu(5, GpuBackend::Cuda), gpu(6, GpuBackend::Cuda)], MultiGpuStrategy::PipelineParallelism, 5);
    assert_eq!(slots[0], PartitionSlot { gpu_index: 5, layer_start: 0, layer_end: 3 });
    assert_eq!(slots[1], PartitionSlot { gpu_index: 6, layer_start: 3, layer_end: 5 });
    let slots = layout_slots(&[gpu(5, GpuBackend::Cuda)], MultiGpuStrategy::ExpertParallelism, 5);
    assert_eq!(slots, vec![PartitionSlot { gpu_index: 5, layer_start: 0, layer_end: usize::MAX }]);
}
