use constellation::vulkan::{find_queue_families, score_fits, ComputePipelineManager, QueueFamilyIndices};
use constellation::vulkan::{
    find_memory_type, score_device, select_best_device, DeviceProfile, FrameFormat, FrameSize,
    MemoryHeapInfo, PhysicalDeviceKind, QueueFamilyInfo, VideoOperation, VulkanError,
};

#[test]
fn test_frame_sizes() {
    assert_eq!(FrameFormat::Rgba8.bytes_per_pixel(), 4);
    assert_eq!(FrameFormat::Rgb8.bytes_per_pixel(), 3);
    assert_eq!(FrameFormat::R16.bytes_per_pixel(), 2);
    assert_eq!(FrameFormat::R8.bytes_per_pixel(), 1);
    let size = FrameSize { width: 1920, height: 1080, format: FrameFormat::Bgra8 };
    assert_eq!(size.buffer_size(), 1920 * 1080 * 4);
}

#[test]
fn test_video_operations() {
    assert_eq!(VideoOperation::ColorSpaceConversion.shader_name(), "color_space_conversion");
    assert_eq!(VideoOperation::Resize.optimal_workgroup_size(), [32, 8, 1]);
    assert_eq!(VideoOperation::ColorCorrection.optimal_workgroup_size(), [64, 1, 1]);
}

#[test]
fn test_vulkan_error_text() {
    let e = VulkanError::InsufficientMemory { required_bytes: 42 };
    assert_eq!(e.message(), "Insufficient memory: required 42 bytes");
}

fn profile(kind: PhysicalDeviceKind) -> DeviceProfile {
    DeviceProfile {
        device_type: kind,
        memory_heaps: vec![
            MemoryHeapInfo { size: 6 * 1024 * 1024 * 1024, device_local: true },
            MemoryHeapInfo { size: 16 * 1024 * 1024 * 1024, device_local: false },
        ],
        queue_families: vec![
            QueueFamilyInfo { queue_count: 2, supports_compute: true },
            QueueFamilyInfo { queue_count: 8, supports_compute: false },
        ],
        geometry_shader: true,
        tessellation_shader: false,
        storage_image_write_without_format: true,
        api_major: 1,
        api_minor: 3,
    }
}

#[test]
fn test_device_scores() {
    // 1000 + 300 (6 GiB) + 2 * 50 + 100 + 200 + 100
    assert_eq!(score_device(&profile(PhysicalDeviceKind::DiscreteGpu)), 1800);
    assert_eq!(score_device(&profile(PhysicalDeviceKind::IntegratedGpu)), 1300);
    assert_eq!(score_device(&profile(PhysicalDeviceKind::Cpu)), 0);
}

#[test]
fn test_device_selection() {
    assert_eq!(select_best_device(&vec![0, 500, 900, 900, 10]), Some(2));
    assert_eq!(select_best_device(&vec![0, 0]), None);
    assert_eq!(select_best_device(&vec![]), None);
}

#[test]
fn test_memory_type_choice() {
    assert_eq!(find_memory_type(&vec![0b001, 0b110, 0b111], 0b110), Some(1));
    assert_eq!(find_memory_type(&vec![0b001], 0b010), None);
}

use constellation::vulkan::{MemoryManager, MEMORY_DEVICE_LOCAL, MEMORY_HOST_COHERENT, MEMORY_HOST_VISIBLE};

#[test]
fn test_memory_manager_types() {
    let flags = vec![MEMORY_HOST_VISIBLE, MEMORY_DEVICE_LOCAL, MEMORY_HOST_VISIBLE | MEMORY_HOST_COHERENT];
    assert!(MemoryManager::new(&flags).is_ok());
    match MemoryManager::new(&vec![MEMORY_DEVICE_LOCAL]) {
        Err(VulkanError::HardwareNotSupported { hardware }) => {
            assert_eq!(hardware, "Required memory type not found: HOST_VISIBLE | HOST_COHERENT")
        }
        other => panic!("unexpected {:?}", other.is_ok()),
    }
    match MemoryManager::new(&vec![]) {
        Err(VulkanError::HardwareNotSupported { hardware }) => {
            assert_eq!(hardware, "Required memory type not found: DEVICE_LOCAL")
        }
        other => panic!("unexpected {:?}", other.is_ok()),
    }
}

#[test]
fn test_frame_pool_cycle() {
    let flags = vec![MEMORY_DEVICE_LOCAL | MEMORY_HOST_VISIBLE | MEMORY_HOST_COHERENT];
    let mut manager = MemoryManager::new(&flags).unwrap();
    let size = FrameSize { width: 4, height: 2, format: FrameFormat::Rgba8 };
    let plan = manager.plan_frame_pool(&size, 2, true).unwrap();
    assert_eq!(plan.buffer_size, 32);
    assert_eq!(plan.total_size, 64);
    manager.register_frame_pool(size, 2, 77, plan);
    assert!(manager.plan_frame_pool(&size, 2, true).is_none());
    assert_eq!(manager.get_memory_usage().total_allocated, 64);

    let a = manager.acquire_frame_buffer(&size).unwrap();
    let b = manager.acquire_frame_buffer(&size).unwrap();
    assert_eq!((a.buffer_index, a.offset), (0, 0));
    assert_eq!((b.buffer_index, b.offset), (1, 32));
    assert_eq!(a.memory, 77);
    match manager.acquire_frame_buffer(&size) {
        Err(VulkanError::InsufficientMemory { required_bytes }) => assert_eq!(required_bytes, 32),
        other => panic!("unexpected {:?}", other.is_ok()),
    }
    manager.release_frame_buffer(a);
    let c = manager.acquire_frame_buffer(&size).unwrap();
    assert_eq!(c.buffer_index, 0);

    let other = FrameSize { width: 1, height: 1, format: FrameFormat::R8 };
    assert!(manager.acquire_frame_buffer(&other).is_err());
    let fb = manager.allocate_frame_buffer(10, 5);
    assert_eq!(fb.size, 10);
    assert_eq!(manager.get_memory_usage().total_allocated, 74);
}

fn caps(graphics: bool, compute: bool, transfer: bool) -> constellation::vulkan::QueueCaps {
    constellation::vulkan::QueueCaps { graphics, compute, transfer }
}

#[test]
fn queue_families_prefer_dedicated() {
    let fams = vec![caps(true, true, true), caps(false, true, true), caps(false, false, true)];
    assert_eq!(find_queue_families(&fams).unwrap(), QueueFamilyIndices { graphics: 0, compute: 1, transfer: 2 });
    let shared = vec![caps(true, true, true)];
    assert_eq!(find_queue_families(&shared).unwrap(), QueueFamilyIndices { graphics: 0, compute: 0, transfer: 0 });
    let late_graphics = vec![caps(false, true, false), caps(true, false, true)];
    assert_eq!(find_queue_families(&late_graphics).unwrap(), QueueFamilyIndices { graphics: 1, compute: 0, transfer: 1 });
}

#[test]
fn queue_families_missing_kinds() {
    let missing = |fams: Vec<constellation::vulkan::QueueCaps>| match find_queue_families(&fams) {
        Err(VulkanError::HardwareNotSupported { hardware }) => hardware,
        other => panic!("unexpected {:?}", other),
    };
    assert_eq!(missing(vec![]), "Graphics queue family not found");
    assert_eq!(missing(vec![caps(false, true, true)]), "Graphics queue family not found");
    assert_eq!(missing(vec![caps(true, false, true)]), "Compute queue family not found");
    assert_eq!(missing(vec![caps(true, true, false)]), "Transfer queue family not found");
}

fn pooled(size: u64) -> constellation::vulkan::PooledFrameBuffer {
    constellation::vulkan::PooledFrameBuffer {
        memory: 1,
        offset: 0,
        size,
        pool_frame_size: FrameSize { width: 4, height: 4, format: FrameFormat::Rgba8 },
        buffer_index: 0,
        memory_type_index: 0,
    }
}

#[test]
fn pipeline_manager_creates_once_per_operation() {
    let mut m = ComputePipelineManager::new();
    assert!(m.get_pipeline(&VideoOperation::Blur).is_none());
    m.create_pipeline(VideoOperation::Blur).unwrap();
    m.create_pipeline(VideoOperation::Blur).unwrap();
    m.create_pipeline(VideoOperation::ColorCorrection).unwrap();
    let p = m.get_pipeline(&VideoOperation::ColorCorrection).unwrap();
    assert_eq!(p.workgroup_size, [64, 1, 1]);
    assert_eq!(m.get_pipeline(&VideoOperation::Blur).unwrap().workgroup_size, [16, 16, 1]);
}

#[test]
fn pipeline_manager_executes_known_operations_only() {
    let mut m = ComputePipelineManager::new();
    m.create_pipeline(VideoOperation::Resize).unwrap();
    assert_eq!(m.execute_operation(&VideoOperation::Resize, &pooled(64), &pooled(64)).unwrap(), [32, 8, 1]);
    match m.execute_operation(&VideoOperation::Flip, &pooled(64), &pooled(64)) {
        Err(VulkanError::GpuProcessingFailed { reason }) => assert_eq!(reason, "Pipeline for Flip not found"),
        other => panic!("unexpected {:?}", other),
    }
}

#[test]
fn score_fits_detects_overflowing_profiles() {
    assert!(score_fits(&profile(PhysicalDeviceKind::DiscreteGpu)));
    let mut huge_memory = profile(PhysicalDeviceKind::Cpu);
    huge_memory.memory_heaps = vec![
        MemoryHeapInfo { size: u64::MAX, device_local: true },
        MemoryHeapInfo { size: 1, device_local: true },
    ];
    assert!(!score_fits(&huge_memory));
    let mut many_queues = profile(PhysicalDeviceKind::IntegratedGpu);
    many_queues.queue_families = vec![QueueFamilyInfo { queue_count: u32::MAX, supports_compute: true }];
    assert!(!score_fits(&many_queues));
    let mut cpu_queues = profile(PhysicalDeviceKind::Cpu);
    cpu_queues.queue_families = vec![QueueFamilyInfo { queue_count: u32::MAX, supports_compute: true }];
    assert!(score_fits(&cpu_queues));
}

#[test]
fn pool_buffers_stay_distinct_until_exhausted() {
    let flags = vec![MEMORY_DEVICE_LOCAL | MEMORY_HOST_VISIBLE | MEMORY_HOST_COHERENT];
    let mut manager = MemoryManager::new(&flags).unwrap();
    let size = FrameSize { width: 2, height: 2, format: FrameFormat::Rgba8 };
    let plan = manager.plan_frame_pool(&size, 4, true).unwrap();
    manager.register_frame_pool(size, 4, 5, plan);
    let mut held = Vec::new();
    for _ in 0..4 {
        held.push(manager.acquire_frame_buffer(&size).unwrap());
    }
    let mut offsets: Vec<u64> = held.iter().map(|b| b.offset).collect();
    offsets.sort();
    assert_eq!(offsets, vec![0, 16, 32, 48]);
    let before = manager.get_memory_usage();
    match manager.acquire_frame_buffer(&size) {
        Err(VulkanError::InsufficientMemory { required_bytes }) => assert_eq!(required_bytes, 16),
        other => panic!("unexpected {:?}", other.is_ok()),
    }
    let after = manager.get_memory_usage();
    assert_eq!((before.total_allocated, before.free_blocks), (after.total_allocated, after.free_blocks));
    let second = held.remove(1);
    manager.release_frame_buffer(second);
    assert_eq!(manager.acquire_frame_buffer(&size).unwrap().offset, 16);
}
