use vstd::prelude::*;
use crate::text::{decimal, decimal_text};

verus! {

/// Errors of the GPU layer.
#[derive(Debug, Clone)]
pub enum VulkanError {
    InitializationFailed { reason: String },
    DeviceCreationFailed { reason: String },
    HardwareNotSupported { hardware: String },
    InsufficientMemory { required_bytes: u64 },
    GpuProcessingFailed { reason: String },
}

/// Result of the GPU layer.
pub type VulkanResult<T> = Result<T, VulkanError>;

impl VulkanError {
    /// The text of the error, as its `Display` renders it.
    pub open spec fn spec_message(&self) -> Seq<char> {
        match self {
            VulkanError::InitializationFailed { reason } => "Vulkan initialization failed: "@ + reason@,
            VulkanError::DeviceCreationFailed { reason } => "Device creation failed: "@ + reason@,
            VulkanError::HardwareNotSupported { hardware } => "Hardware not supported: "@ + hardware@,
            VulkanError::InsufficientMemory { required_bytes } => "Insufficient memory: required "@
                + decimal(*required_bytes as nat) + " bytes"@,
            VulkanError::GpuProcessingFailed { reason } => "GPU processing failed: "@ + reason@,
        }
    }

    /// The text of the error.
    pub fn message(&self) -> (s: String)
        ensures
            s@ == self.spec_message(),
    {
        match self {
            VulkanError::InitializationFailed { reason } => {
                let mut s = String::from_str("Vulkan initialization failed: ");
                s.append(reason.as_str());
                s
            },
            VulkanError::DeviceCreationFailed { reason } => {
                let mut s = String::from_str("Device creation failed: ");
                s.append(reason.as_str());
                s
            },
            VulkanError::HardwareNotSupported { hardware } => {
                let mut s = String::from_str("Hardware not supported: ");
                s.append(hardware.as_str());
                s
            },
            VulkanError::InsufficientMemory { required_bytes } => {
                let mut s = String::from_str("Insufficient memory: required ");
                s.append(decimal_text(*required_bytes).as_str());
                s.append(" bytes");
                s
            },
            VulkanError::GpuProcessingFailed { reason } => {
                let mut s = String::from_str("GPU processing failed: ");
                s.append(reason.as_str());
                s
            },
        }
    }
}

/// Pixel layout of a GPU frame buffer.
#[derive(Debug, Clone, Copy, PartialEq, Eq, Structural, Hash)]
pub enum FrameFormat {
    Rgba8,
    Bgra8,
    Rgb8,
    R8,
    R16,
    R32F,
}

impl FrameFormat {
    /// Bytes per pixel of the layout.
    pub open spec fn spec_bytes_per_pixel(&self) -> u32 {
        match self {
            FrameFormat::Rgba8 | FrameFormat::Bgra8 | FrameFormat::R32F => 4,
            FrameFormat::Rgb8 => 3,
            FrameFormat::R16 => 2,
            FrameFormat::R8 => 1,
        }
    }

    /// Bytes per pixel of the layout.
    pub fn bytes_per_pixel(&self) -> (n: u32)
        ensures
            n == self.spec_bytes_per_pixel(),
    {
        match self {
            FrameFormat::Rgba8 | FrameFormat::Bgra8 | FrameFormat::R32F => 4,
            FrameFormat::Rgb8 => 3,
            FrameFormat::R16 => 2,
            FrameFormat::R8 => 1,
        }
    }
}

/// Dimensions and layout of a frame buffer.
#[derive(Debug, Clone, Copy, PartialEq, Eq, Structural, Hash)]
pub struct FrameSize {
    pub width: u32,
    pub height: u32,
    pub format: FrameFormat,
}

impl FrameSize {
    /// Bytes of one buffer of this size.
    pub open spec fn spec_buffer_size(&self) -> nat {
        (self.width * self.height * self.format.spec_bytes_per_pixel()) as nat
    }

    /// Bytes of one buffer of this size. The product is computed in 32 bits,
    /// so it must fit there.
    pub fn buffer_size(&self) -> (n: u64)
        requires
            self.spec_buffer_size() <= u32::MAX,
        ensures
            n == self.spec_buffer_size(),
    {
        let bpp = self.format.bytes_per_pixel();
        proof {
            vstd::arithmetic::mul::lemma_mul_nonnegative(self.width as int, self.height as int);
            vstd::arithmetic::mul::lemma_mul_upper_bound(
                self.width as int * self.height as int,
                self.width as int * self.height as int,
                bpp as int,
                bpp as int,
            );
            assert(self.width as int * self.height as int <= self.width as int * self.height as int * bpp as int)
                by (nonlinear_arith)
                requires
                    bpp >= 1,
                    self.width as int * self.height as int >= 0,
            ;
        }
        (self.width * self.height * bpp) as u64
    }
}

/// Operations the compute pipelines implement.
#[derive(Debug, Clone, Copy, PartialEq, Eq, Structural, Hash)]
pub enum VideoOperation {
    ColorSpaceConversion,
    Resize,
    Blur,
    Sharpen,
    ColorCorrection,
    Flip,
}

impl VideoOperation {
    /// Name of the shader of the operation.
    pub open spec fn spec_shader_name(&self) -> Seq<char> {
        match self {
            VideoOperation::ColorSpaceConversion => "color_space_conversion"@,
            VideoOperation::Resize => "resize"@,
            VideoOperation::Blur => "blur"@,
            VideoOperation::Sharpen => "sharpen"@,
            VideoOperation::ColorCorrection => "color_correction"@,
            VideoOperation::Flip => "flip"@,
        }
    }

    /// Name of the shader of the operation.
    pub fn shader_name(&self) -> (s: String)
        ensures
            s@ == self.spec_shader_name(),
    {
        match self {
            VideoOperation::ColorSpaceConversion => String::from_str("color_space_conversion"),
            VideoOperation::Resize => String::from_str("resize"),
            VideoOperation::Blur => String::from_str("blur"),
            VideoOperation::Sharpen => String::from_str("sharpen"),
            VideoOperation::ColorCorrection => String::from_str("color_correction"),
            VideoOperation::Flip => String::from_str("flip"),
        }
    }

    /// Workgroup size of the operation's shader: square tiles for 2D
    /// kernels, wide rows for memory-bound copies, a line for per-pixel work.
    pub open spec fn spec_workgroup_size(&self) -> [u32; 3] {
        match self {
            VideoOperation::ColorSpaceConversion => [16, 16, 1],
            VideoOperation::Resize => [32, 8, 1],
            VideoOperation::Blur => [16, 16, 1],
            VideoOperation::Sharpen => [16, 16, 1],
            VideoOperation::ColorCorrection => [64, 1, 1],
            VideoOperation::Flip => [32, 8, 1],
        }
    }

    /// Workgroup size of the operation's shader.
    pub fn optimal_workgroup_size(&self) -> (w: [u32; 3])
        ensures
            w == self.spec_workgroup_size(),
    {
        match self {
            VideoOperation::ColorSpaceConversion => [16, 16, 1],
            VideoOperation::Resize => [32, 8, 1],
            VideoOperation::Blur => [16, 16, 1],
            VideoOperation::Sharpen => [16, 16, 1],
            VideoOperation::ColorCorrection => [64, 1, 1],
            VideoOperation::Flip => [32, 8, 1],
        }
    }
}


impl VideoOperation {
    /// The operation's name as `Debug` writes it.
    pub open spec fn spec_debug_name(&self) -> Seq<char> {
        match self {
            VideoOperation::ColorSpaceConversion => "ColorSpaceConversion"@,
            VideoOperation::Resize => "Resize"@,
            VideoOperation::Blur => "Blur"@,
            VideoOperation::Sharpen => "Sharpen"@,
            VideoOperation::ColorCorrection => "ColorCorrection"@,
            VideoOperation::Flip => "Flip"@,
        }
    }

    /// The operation's name as `Debug` writes it.
    pub fn debug_name(&self) -> (s: String)
        ensures
            s@ == self.spec_debug_name(),
    {
        match self {
            VideoOperation::ColorSpaceConversion => String::from_str("ColorSpaceConversion"),
            VideoOperation::Resize => String::from_str("Resize"),
            VideoOperation::Blur => String::from_str("Blur"),
            VideoOperation::Sharpen => String::from_str("Sharpen"),
            VideoOperation::ColorCorrection => String::from_str("ColorCorrection"),
            VideoOperation::Flip => String::from_str("Flip"),
        }
    }
}

/// A compute pipeline: the operation it runs and its workgroup size.
#[derive(Debug, Clone, Copy)]
pub struct ComputePipeline {
    pub workgroup_size: [u32; 3],
    pub operation_type: VideoOperation,
}

/// Whether `ops` holds a pipeline for `op`.
pub open spec fn has_pipeline(ps: Seq<ComputePipeline>, op: VideoOperation) -> bool {
    exists|i: int| 0 <= i < ps.len() && (#[trigger] ps[i]).operation_type == op
}

/// The pipelines after creating the one of `op`: unchanged where `op` has
/// one, else with a pipeline at the operation's workgroup size appended.
pub open spec fn with_pipeline(ps: Seq<ComputePipeline>, op: VideoOperation) -> Seq<ComputePipeline> {
    if has_pipeline(ps, op) {
        ps
    } else {
        ps.push(ComputePipeline { workgroup_size: op.spec_workgroup_size(), operation_type: op })
    }
}

/// Creating the pipeline of an operation a second time changes nothing.
pub proof fn lemma_create_pipeline_idempotent(ps: Seq<ComputePipeline>, op: VideoOperation)
    ensures
        with_pipeline(with_pipeline(ps, op), op) == with_pipeline(ps, op),
{
    if !has_pipeline(ps, op) {
        let q = with_pipeline(ps, op);
        assert(q[ps.len() as int].operation_type == op);
    }
}

/// The compute pipelines created so far, at most one per operation.
#[derive(Debug)]
pub struct ComputePipelineManager {
    pipelines: Vec<ComputePipeline>,
}

impl ComputePipelineManager {
    /// The pipelines, in the order they were created.
    pub closed spec fn spec_pipelines(&self) -> Seq<ComputePipeline> {
        self.pipelines@
    }

    /// No operation has two pipelines.
    pub open spec fn wf(&self) -> bool {
        forall|i: int, j: int|
            0 <= i < self.spec_pipelines().len() && 0 <= j < self.spec_pipelines().len() && i != j
                ==> (#[trigger] self.spec_pipelines()[i]).operation_type != (#[trigger] self.spec_pipelines()[j]).operation_type
    }

    /// No pipelines yet.
    pub fn new() -> (m: Self)
        ensures
            m.wf(),
            m.spec_pipelines().len() == 0,
    {
        ComputePipelineManager { pipelines: Vec::new() }
    }

    /// The pipeline for `operation`, if one was created.
    pub fn get_pipeline(&self, operation: &VideoOperation) -> (r: Option<&ComputePipeline>)
        ensures
            match r {
                Some(p) => p.operation_type == *operation && exists|i: int|
                    0 <= i < self.spec_pipelines().len() && self.spec_pipelines()[i] == *p,
                None => !has_pipeline(self.spec_pipelines(), *operation),
            },
    {
        let mut i: usize = 0;
        while i < self.pipelines.len()
            invariant
                i <= self.pipelines@.len(),
                forall|j: int| 0 <= j < i ==> (#[trigger] self.pipelines@[j]).operation_type != *operation,
            decreases self.pipelines@.len() - i,
        {
            if self.pipelines[i].operation_type == *operation {
                assert(self.spec_pipelines()[i as int] == self.pipelines@[i as int]);
                return Some(&self.pipelines[i]);
            }
            i = i + 1;
        }
        None
    }

    /// Create the pipeline for `operation` with the operation's workgroup
    /// size; an operation that has one already keeps it.
    pub fn create_pipeline(&mut self, operation: VideoOperation) -> (r: VulkanResult<()>)
        requires
            old(self).wf(),
        ensures
            r is Ok,
            final(self).wf(),
            final(self).spec_pipelines() == with_pipeline(old(self).spec_pipelines(), operation),
    {
        if self.get_pipeline(&operation).is_some() {
            return Ok(());
        }
        let workgroup_size = operation.optimal_workgroup_size();
        let ghost before = self.pipelines@;
        self.pipelines.push(ComputePipeline { workgroup_size, operation_type: operation });
        proof {
            assert forall|i: int, j: int|
                0 <= i < self.pipelines@.len() && 0 <= j < self.pipelines@.len() && i != j implies
                (#[trigger] self.pipelines@[i]).operation_type != (#[trigger] self.pipelines@[j]).operation_type by {
                if i < before.len() && j < before.len() {
                    assert(before[i].operation_type != before[j].operation_type);
                } else if i < before.len() {
                    assert(before[i].operation_type != operation);
                } else {
                    assert(before[j].operation_type != operation);
                }
            }
        }
        Ok(())
    }

    /// Run `operation` from `input_frame` into `output_frame`: refused where
    /// no pipeline was created for it; the result is the pipeline's workgroup size.
    pub fn execute_operation(&self, operation: &VideoOperation, input_frame: &PooledFrameBuffer, output_frame: &PooledFrameBuffer) -> (r: VulkanResult<[u32; 3]>)
        ensures
            !has_pipeline(self.spec_pipelines(), *operation) ==> (r matches Err(VulkanError::GpuProcessingFailed { reason })
                && reason@ == "Pipeline for "@ + operation.spec_debug_name() + " not found"@),
            has_pipeline(self.spec_pipelines(), *operation) ==> (r matches Ok(w) && exists|i: int|
                0 <= i < self.spec_pipelines().len() && self.spec_pipelines()[i].operation_type == *operation
                && self.spec_pipelines()[i].workgroup_size == w),
    {
        match self.get_pipeline(operation) {
            Some(p) => Ok(p.workgroup_size),
            None => {
                let mut reason = String::from_str("Pipeline for ");
                reason.append(operation.debug_name().as_str());
                reason.append(" not found");
                Err(VulkanError::GpuProcessingFailed { reason })
            },
        }
    }
}

/// Kind of a physical device.
#[derive(Debug, Clone, Copy, PartialEq, Eq, Structural)]
pub enum PhysicalDeviceKind {
    DiscreteGpu,
    IntegratedGpu,
    VirtualGpu,
    Cpu,
    Other,
}

/// One memory heap of a device.
#[derive(Debug, Clone, Copy)]
pub struct MemoryHeapInfo {
    pub size: u64,
    pub device_local: bool,
}

/// One queue family of a device.
#[derive(Debug, Clone, Copy)]
pub struct QueueFamilyInfo {
    pub queue_count: u32,
    pub supports_compute: bool,
}

/// What the device scoring reads of a physical device.
#[derive(Debug, Clone)]
pub struct DeviceProfile {
    pub device_type: PhysicalDeviceKind,
    pub memory_heaps: Vec<MemoryHeapInfo>,
    pub queue_families: Vec<QueueFamilyInfo>,
    pub geometry_shader: bool,
    pub tessellation_shader: bool,
    pub storage_image_write_without_format: bool,
    pub api_major: u32,
    pub api_minor: u32,
}

/// Total size of the device-local heaps.
pub open spec fn device_local_memory(heaps: Seq<MemoryHeapInfo>) -> nat
    decreases heaps.len(),
{
    if heaps.len() == 0 {
        0
    } else {
        device_local_memory(heaps.drop_last()) + (if heaps.last().device_local {
            heaps.last().size as nat
        } else {
            0
        })
    }
}

/// Number of queues in the families that support compute.
pub open spec fn compute_queue_count(families: Seq<QueueFamilyInfo>) -> nat
    decreases families.len(),
{
    if families.len() == 0 {
        0
    } else {
        compute_queue_count(families.drop_last()) + (if families.last().supports_compute {
            families.last().queue_count as nat
        } else {
            0
        })
    }
}

/// Points for the device-local memory: 8 GiB and more, 4 GiB, 2 GiB, less.
pub open spec fn memory_points(total: nat) -> nat {
    if total >= 8 * 1073741824 {
        500
    } else if total >= 4 * 1073741824 {
        300
    } else if total >= 2 * 1073741824 {
        100
    } else {
        10
    }
}

/// Points for the API version: 1.3 or later minor, 1.2.
pub open spec fn api_points(major: u32, minor: u32) -> nat {
    if major >= 1 && minor >= 3 {
        100
    } else if major >= 1 && minor >= 2 {
        50
    } else {
        0
    }
}

/// Points for the device type; zero marks a device unfit for video work.
pub open spec fn type_points(k: PhysicalDeviceKind) -> nat {
    match k {
        PhysicalDeviceKind::DiscreteGpu => 1000,
        PhysicalDeviceKind::IntegratedGpu => 500,
        PhysicalDeviceKind::VirtualGpu => 300,
        _ => 0,
    }
}

/// Suitability of a device for video processing: zero for devices that are
/// not GPUs, else the sum of the points for type, memory, compute queues
/// (50 each), features and API version.
pub open spec fn device_score(p: DeviceProfile) -> nat {
    if type_points(p.device_type) == 0 {
        0
    } else {
        type_points(p.device_type) + memory_points(device_local_memory(p.memory_heaps@)) + 50
            * compute_queue_count(p.queue_families@) + (if p.geometry_shader {
            100nat
        } else {
            0
        }) + (if p.tessellation_shader {
            50nat
        } else {
            0
        }) + (if p.storage_image_write_without_format {
            200nat
        } else {
            0
        }) + api_points(p.api_major, p.api_minor)
    }
}

/// The sums and the score fit the machine words they are computed in.
pub open spec fn profile_fits(p: DeviceProfile) -> bool {
    &&& device_local_memory(p.memory_heaps@) <= u64::MAX
    &&& device_score(p) <= u32::MAX
}

proof fn lemma_sums_monotone(heaps: Seq<MemoryHeapInfo>, families: Seq<QueueFamilyInfo>, i: int, j: int)
    requires
        0 <= i <= heaps.len(),
        0 <= j <= families.len(),
    ensures
        device_local_memory(heaps.take(i)) <= device_local_memory(heaps),
        compute_queue_count(families.take(j)) <= compute_queue_count(families),
    decreases heaps.len() + families.len(),
{
    if i < heaps.len() {
        assert(heaps.drop_last().take(i) =~= heaps.take(i));
        lemma_sums_monotone(heaps.drop_last(), families, i, j);
    } else if j < families.len() {
        assert(families.drop_last().take(j) =~= families.take(j));
        lemma_sums_monotone(heaps, families.drop_last(), i, j);
    } else {
        assert(heaps.take(i) =~= heaps);
        assert(families.take(j) =~= families);
    }
}

/// The device-local memory of `heaps`, where it fits 64 bits.
fn checked_device_local_memory(heaps: &Vec<MemoryHeapInfo>) -> (r: Option<u64>)
    ensures
        match r {
            Some(t) => t == device_local_memory(heaps@),
            None => device_local_memory(heaps@) > u64::MAX,
        },
{
    let mut total: u64 = 0;
    let n = heaps.len();
    let mut i: usize = 0;
    while i < n
        invariant
            n == heaps@.len(),
            i <= n,
            total == device_local_memory(heaps@.take(i as int)),
        decreases n - i,
    {
        proof {
            assert(heaps@.take(i + 1).drop_last() =~= heaps@.take(i as int));
            lemma_sums_monotone(heaps@, Seq::<QueueFamilyInfo>::empty(), i + 1, 0);
        }
        let heap = heaps[i];
        if heap.device_local {
            match total.checked_add(heap.size) {
                Some(t) => {
                    total = t;
                },
                None => {
                    return None;
                },
            }
        }
        i = i + 1;
    }
    proof {
        assert(heaps@.take(n as int) =~= heaps@);
    }
    Some(total)
}

/// The compute queue count of `families`, where it is at most 100 000 000.
fn bounded_compute_queue_count(families: &Vec<QueueFamilyInfo>) -> (r: Option<u64>)
    ensures
        match r {
            Some(c) => c == compute_queue_count(families@) && c <= 100_000_000,
            None => compute_queue_count(families@) > 100_000_000,
        },
{
    let mut count: u64 = 0;
    let n = families.len();
    let mut j: usize = 0;
    while j < n
        invariant
            n == families@.len(),
            j <= n,
            count == compute_queue_count(families@.take(j as int)),
            count <= 100_000_000,
        decreases n - j,
    {
        proof {
            assert(families@.take(j + 1).drop_last() =~= families@.take(j as int));
            lemma_sums_monotone(Seq::<MemoryHeapInfo>::empty(), families@, 0, j + 1);
        }
        let family = families[j];
        if family.supports_compute {
            count = count + family.queue_count as u64;
            if count > 100_000_000 {
                return None;
            }
        }
        j = j + 1;
    }
    proof {
        assert(families@.take(n as int) =~= families@);
    }
    Some(count)
}

/// Whether a device's figures fit the words the scoring computes in: the
/// device-local memory in 64 bits and the score in 32 bits.
pub fn score_fits(p: &DeviceProfile) -> (b: bool)
    ensures
        b == profile_fits(*p),
{
    let total_memory = match checked_device_local_memory(&p.memory_heaps) {
        Some(t) => t,
        None => {
            return false;
        },
    };
    let base: u64 = match p.device_type {
        PhysicalDeviceKind::DiscreteGpu => 1000,
        PhysicalDeviceKind::IntegratedGpu => 500,
        PhysicalDeviceKind::VirtualGpu => 300,
        _ => {
            return true;
        },
    };
    let compute_queues = match bounded_compute_queue_count(&p.queue_families) {
        Some(c) => c,
        None => {
            return false;
        },
    };
    let memory: u64 = if total_memory >= 8 * 1024 * 1024 * 1024 {
        500
    } else if total_memory >= 4 * 1024 * 1024 * 1024 {
        300
    } else if total_memory >= 2 * 1024 * 1024 * 1024 {
        100
    } else {
        10
    };
    let geometry: u64 = if p.geometry_shader { 100 } else { 0 };
    let tessellation: u64 = if p.tessellation_shader { 50 } else { 0 };
    let storage: u64 = if p.storage_image_write_without_format { 200 } else { 0 };
    let api: u64 = if p.api_major >= 1 && p.api_minor >= 3 {
        100
    } else if p.api_major >= 1 && p.api_minor >= 2 {
        50
    } else {
        0
    };
    let score = base + memory + compute_queues * 50 + geometry + tessellation + storage + api;
    score <= 0xffff_ffff
}

/// Score a device for video processing.
pub fn score_device(p: &DeviceProfile) -> (score: u32)
    requires
        profile_fits(*p),
    ensures
        score == device_score(*p),
{
    let base: u32 = match p.device_type {
        PhysicalDeviceKind::DiscreteGpu => 1000,
        PhysicalDeviceKind::IntegratedGpu => 500,
        PhysicalDeviceKind::VirtualGpu => 300,
        _ => {
            return 0;
        },
    };
    let mut total_memory: u64 = 0;
    let nh = p.memory_heaps.len();
    let mut i: usize = 0;
    while i < nh
        invariant
            nh == p.memory_heaps@.len(),
            i <= nh,
            total_memory == device_local_memory(p.memory_heaps@.take(i as int)),
            device_local_memory(p.memory_heaps@) <= u64::MAX,
        decreases nh - i,
    {
        proof {
            assert(p.memory_heaps@.take(i + 1).drop_last() =~= p.memory_heaps@.take(i as int));
            lemma_sums_monotone(p.memory_heaps@, p.queue_families@, i + 1, 0);
        }
        let heap = p.memory_heaps[i];
        if heap.device_local {
            total_memory = total_memory + heap.size;
        }
        i = i + 1;
    }
    proof {
        assert(p.memory_heaps@.take(nh as int) =~= p.memory_heaps@);
    }
    let mut score: u32 = base;
    if total_memory >= 8 * 1024 * 1024 * 1024 {
        score = score + 500;
    } else if total_memory >= 4 * 1024 * 1024 * 1024 {
        score = score + 300;
    } else if total_memory >= 2 * 1024 * 1024 * 1024 {
        score = score + 100;
    } else {
        score = score + 10;
    }
    let mut compute_queues: u32 = 0;
    let nq = p.queue_families.len();
    let mut j: usize = 0;
    while j < nq
        invariant
            nq == p.queue_families@.len(),
            j <= nq,
            compute_queues == compute_queue_count(p.queue_families@.take(j as int)),
            50 * compute_queue_count(p.queue_families@) <= u32::MAX,
        decreases nq - j,
    {
        proof {
            assert(p.queue_families@.take(j + 1).drop_last() =~= p.queue_families@.take(j as int));
            lemma_sums_monotone(p.memory_heaps@, p.queue_families@, 0, j + 1);
        }
        let family = p.queue_families[j];
        if family.supports_compute {
            compute_queues = compute_queues + family.queue_count;
        }
        j = j + 1;
    }
    proof {
        assert(p.queue_families@.take(nq as int) =~= p.queue_families@);
    }
    score = score + compute_queues * 50;
    if p.geometry_shader {
        score = score + 100;
    }
    if p.tessellation_shader {
        score = score + 50;
    }
    if p.storage_image_write_without_format {
        score = score + 200;
    }
    if p.api_major >= 1 && p.api_minor >= 3 {
        score = score + 100;
    } else if p.api_major >= 1 && p.api_minor >= 2 {
        score = score + 50;
    }
    score
}

/// What a queue family of a device can do.
#[derive(Debug, Clone, Copy, PartialEq, Eq, Structural)]
pub struct QueueCaps {
    pub graphics: bool,
    pub compute: bool,
    pub transfer: bool,
}

/// The queue families the engine submits graphics, compute and transfer work to.
#[derive(Debug, Clone, Copy, PartialEq, Eq, Structural)]
pub struct QueueFamilyIndices {
    pub graphics: u32,
    pub compute: u32,
    pub transfer: u32,
}

/// The first family in `fams` that satisfies `p`: its index, none where no family does.
pub open spec fn first_family(fams: Seq<QueueCaps>, p: spec_fn(QueueCaps) -> bool) -> Option<int>
    decreases fams.len(),
{
    if fams.len() == 0 {
        None
    } else {
        match first_family(fams.drop_last(), p) {
            Some(i) => Some(i),
            None => if p(fams.last()) {
                Some(fams.len() - 1)
            } else {
                None
            },
        }
    }
}

pub open spec fn is_graphics() -> spec_fn(QueueCaps) -> bool {
    |q: QueueCaps| q.graphics
}

pub open spec fn is_compute() -> spec_fn(QueueCaps) -> bool {
    |q: QueueCaps| q.compute
}

pub open spec fn is_transfer() -> spec_fn(QueueCaps) -> bool {
    |q: QueueCaps| q.transfer
}

/// A compute family that does no graphics.
pub open spec fn is_dedicated_compute() -> spec_fn(QueueCaps) -> bool {
    |q: QueueCaps| q.compute && !q.graphics
}

/// A transfer family that does neither graphics nor compute.
pub open spec fn is_dedicated_transfer() -> spec_fn(QueueCaps) -> bool {
    |q: QueueCaps| q.transfer && !q.graphics && !q.compute
}

/// A dedicated family where there is one, else the first family that can do the work.
pub open spec fn preferred_family(fams: Seq<QueueCaps>, dedicated: spec_fn(QueueCaps) -> bool, any: spec_fn(QueueCaps) -> bool) -> Option<int> {
    match first_family(fams, dedicated) {
        Some(i) => Some(i),
        None => first_family(fams, any),
    }
}

/// A family index as the engine stores it.
pub open spec fn family_u32(o: Option<int>) -> Option<u32> {
    match o {
        Some(j) => Some(j as u32),
        None => None,
    }
}

proof fn lemma_first_family_step(fams: Seq<QueueCaps>, p: spec_fn(QueueCaps) -> bool, i: int)
    requires
        0 <= i < fams.len(),
    ensures
        first_family(fams.take(i + 1), p) == (match first_family(fams.take(i), p) {
            Some(j) => Some(j),
            None => if p(fams[i]) {
                Some(i)
            } else {
                None
            },
        }),
{
    assert(fams.take(i + 1).drop_last() =~= fams.take(i));
}

/// The queue families to use, as the engine picks them: graphics work goes to
/// the first graphics family; compute work to the first compute family that
/// does no graphics, else the first compute family; transfer work to the
/// first transfer family that does neither graphics nor compute, else the
/// first transfer family. A kind of work no family can do is refused, the
/// graphics kind first, then compute, then transfer.
pub fn find_queue_families(families: &Vec<QueueCaps>) -> (r: VulkanResult<QueueFamilyIndices>)
    requires
        families@.len() <= u32::MAX,
    ensures
        ({
            let g = first_family(families@, is_graphics());
            let c = preferred_family(families@, is_dedicated_compute(), is_compute());
            let t = preferred_family(families@, is_dedicated_transfer(), is_transfer());
            match (g, c, t) {
                (Some(gi), Some(ci), Some(ti)) => r == Ok::<QueueFamilyIndices, VulkanError>(
                    QueueFamilyIndices { graphics: gi as u32, compute: ci as u32, transfer: ti as u32 }),
                (None, _, _) => r matches Err(VulkanError::HardwareNotSupported { hardware })
                    && hardware@ == "Graphics queue family not found"@,
                (Some(_), None, _) => r matches Err(VulkanError::HardwareNotSupported { hardware })
                    && hardware@ == "Compute queue family not found"@,
                (Some(_), Some(_), None) => r matches Err(VulkanError::HardwareNotSupported { hardware })
                    && hardware@ == "Transfer queue family not found"@,
            }
        }),
{
    let n = families.len();
    let mut graphics: Option<u32> = None;
    let mut dedicated_compute: Option<u32> = None;
    let mut dedicated_transfer: Option<u32> = None;
    let mut any_compute: Option<u32> = None;
    let mut any_transfer: Option<u32> = None;
    let mut i: usize = 0;
    while i < n
        invariant
            n == families@.len(),
            n <= u32::MAX,
            i <= n,
            graphics == family_u32(first_family(families@.take(i as int), is_graphics())),
            dedicated_compute == family_u32(first_family(families@.take(i as int), is_dedicated_compute())),
            dedicated_transfer == family_u32(first_family(families@.take(i as int), is_dedicated_transfer())),
            any_compute == family_u32(first_family(families@.take(i as int), is_compute())),
            any_transfer == family_u32(first_family(families@.take(i as int), is_transfer())),
            forall|j: int| #![auto] first_family(families@.take(i as int), is_graphics()) == Some(j) ==> 0 <= j < i,
            forall|j: int| #![auto] first_family(families@.take(i as int), is_dedicated_compute()) == Some(j) ==> 0 <= j < i,
            forall|j: int| #![auto] first_family(families@.take(i as int), is_dedicated_transfer()) == Some(j) ==> 0 <= j < i,
            forall|j: int| #![auto] first_family(families@.take(i as int), is_compute()) == Some(j) ==> 0 <= j < i,
            forall|j: int| #![auto] first_family(families@.take(i as int), is_transfer()) == Some(j) ==> 0 <= j < i,
        decreases n - i,
    {
        let q = families[i];
        proof {
            lemma_first_family_step(families@, is_graphics(), i as int);
            lemma_first_family_step(families@, is_dedicated_compute(), i as int);
            lemma_first_family_step(families@, is_dedicated_transfer(), i as int);
            lemma_first_family_step(families@, is_compute(), i as int);
            lemma_first_family_step(families@, is_transfer(), i as int);
        }
        let idx = i as u32;
        if q.compute && !q.graphics && dedicated_compute.is_none() {
            dedicated_compute = Some(idx);
        }
        if q.transfer && !q.graphics && !q.compute && dedicated_transfer.is_none() {
            dedicated_transfer = Some(idx);
        }
        if q.graphics && graphics.is_none() {
            graphics = Some(idx);
        }
        if q.compute && any_compute.is_none() {
            any_compute = Some(idx);
        }
        if q.transfer && any_transfer.is_none() {
            any_transfer = Some(idx);
        }
        i = i + 1;
    }
    proof {
        assert(families@.take(n as int) =~= families@);
    }
    let compute = match dedicated_compute {
        Some(c) => Some(c),
        None => any_compute,
    };
    let transfer = match dedicated_transfer {
        Some(t) => Some(t),
        None => any_transfer,
    };
    let g = match graphics {
        Some(g) => g,
        None => {
            return Err(VulkanError::HardwareNotSupported { hardware: String::from_str("Graphics queue family not found") });
        },
    };
    let c = match compute {
        Some(c) => c,
        None => {
            return Err(VulkanError::HardwareNotSupported { hardware: String::from_str("Compute queue family not found") });
        },
    };
    let t = match transfer {
        Some(t) => t,
        None => {
            return Err(VulkanError::HardwareNotSupported { hardware: String::from_str("Transfer queue family not found") });
        },
    };
    Ok(QueueFamilyIndices { graphics: g, compute: c, transfer: t })
}

/// The device to use among devices with the given scores: the first one with
/// the highest positive score; none when every score is zero.
pub fn select_best_device(scores: &Vec<u32>) -> (r: Option<usize>)
    ensures
        match r {
            Some(i) => {
                &&& i < scores@.len()
                &&& scores@[i as int] > 0
                &&& forall|j: int| 0 <= j < scores@.len() ==> scores@[j] <= scores@[i as int]
                &&& forall|j: int| 0 <= j < i ==> scores@[j] < scores@[i as int]
            },
            None => forall|j: int| 0 <= j < scores@.len() ==> scores@[j] == 0,
        },
{
    let mut best: Option<usize> = None;
    let n = scores.len();
    let mut k: usize = 0;
    while k < n
        invariant
            n == scores@.len(),
            k <= n,
            match best {
                Some(i) => {
                    &&& i < k
                    &&& scores@[i as int] > 0
                    &&& forall|j: int| 0 <= j < k ==> scores@[j] <= scores@[i as int]
                    &&& forall|j: int| 0 <= j < i ==> scores@[j] < scores@[i as int]
                },
                None => forall|j: int| 0 <= j < k ==> scores@[j] == 0,
            },
        decreases n - k,
    {
        let s = scores[k];
        match best {
            Some(i) => {
                if s > scores[i] {
                    best = Some(k);
                }
            },
            None => {
                if s > 0 {
                    best = Some(k);
                }
            },
        }
        k = k + 1;
    }
    best
}

/// The first memory type whose property flags include all of `required`.
pub open spec fn first_memory_type(type_flags: Seq<u32>, required: u32) -> Option<u32>
    decreases type_flags.len(),
{
    if type_flags.len() == 0 {
        None
    } else {
        match first_memory_type(type_flags.drop_last(), required) {
            Some(i) => Some(i),
            None => if type_flags.last() & required == required {
                Some((type_flags.len() - 1) as u32)
            } else {
                None
            },
        }
    }
}

proof fn lemma_first_memory_type(type_flags: Seq<u32>, required: u32, i: int)
    requires
        0 <= i <= type_flags.len() <= u32::MAX,
        forall|j: int| 0 <= j < i ==> #[trigger] type_flags[j] & required != required,
    ensures
        first_memory_type(type_flags.take(i), required) is None,
        i < type_flags.len() && type_flags[i] & required == required ==> first_memory_type(
            type_flags.take(i + 1),
            required,
        ) == Some(i as u32),
    decreases i,
{
    if i > 0 {
        assert(type_flags.take(i).drop_last() =~= type_flags.take(i - 1));
        lemma_first_memory_type(type_flags, required, i - 1);
    }
    if i < type_flags.len() {
        assert(type_flags.take(i + 1).drop_last() =~= type_flags.take(i));
    }
}

/// The first memory type whose property flags include all of `required`.
pub fn find_memory_type(type_flags: &Vec<u32>, required: u32) -> (r: Option<u32>)
    requires
        type_flags@.len() <= u32::MAX,
    ensures
        r == first_memory_type(type_flags@, required),
        match r {
            Some(i) => i < type_flags@.len() && type_flags@[i as int] & required == required
                && forall|j: int| 0 <= j < i ==> #[trigger] type_flags@[j] & required != required,
            None => forall|j: int| 0 <= j < type_flags@.len() ==> #[trigger] type_flags@[j] & required != required,
        },
{
    let n = type_flags.len();
    let mut k: usize = 0;
    while k < n
        invariant
            n == type_flags@.len(),
            n <= u32::MAX,
            k <= n,
            forall|j: int| 0 <= j < k ==> #[trigger] type_flags@[j] & required != required,
        decreases n - k,
    {
        if type_flags[k] & required == required {
            proof {
                lemma_first_memory_type(type_flags@, required, k as int);
                assert(type_flags@.take(k + 1) =~= type_flags@.take(k + 1));
                lemma_first_prefix(type_flags@, required, k as int + 1);
            }
            return Some(k as u32);
        }
        k = k + 1;
    }
    proof {
        lemma_first_memory_type(type_flags@, required, n as int);
        assert(type_flags@.take(n as int) =~= type_flags@);
    }
    None
}

proof fn lemma_first_prefix(type_flags: Seq<u32>, required: u32, i: int)
    requires
        0 <= i <= type_flags.len(),
        first_memory_type(type_flags.take(i), required) is Some,
    ensures
        first_memory_type(type_flags, required) == first_memory_type(type_flags.take(i), required),
    decreases type_flags.len() - i,
{
    if i == type_flags.len() {
        assert(type_flags.take(i) =~= type_flags);
    } else {
        assert(type_flags.drop_last().take(i) =~= type_flags.take(i));
        lemma_first_prefix(type_flags.drop_last(), required, i);
    }
}

/// Memory property bit: memory local to the device.
pub const MEMORY_DEVICE_LOCAL: u32 = 0x1;
/// Memory property bit: memory the host can map.
pub const MEMORY_HOST_VISIBLE: u32 = 0x2;
/// Memory property bit: host writes need no flush.
pub const MEMORY_HOST_COHERENT: u32 = 0x4;
/// Memory property bit: host reads are cached.
pub const MEMORY_HOST_CACHED: u32 = 0x8;

/// Figures of the memory manager.
#[derive(Debug)]
pub struct MemoryUsage {
    pub total_allocated: u64,
    pub free_blocks: usize,
    pub total_pools: usize,
}

/// A block of device memory (its handle, size and offset).
#[derive(Debug, Clone, Copy)]
pub struct MemoryBlock {
    pub memory: u64,
    pub size: u64,
    pub offset: u64,
}

/// A pool of equal frame buffers carved from one allocation.
#[derive(Debug)]
pub struct MemoryPool {
    pub memory: u64,
    pub buffer_size: u64,
    pub buffer_count: u32,
    pub free_buffers: Vec<u32>,
    pub allocation_offset: u64,
    pub memory_type_index: u32,
}

/// A frame buffer taken from a pool; `offset` and `size` locate it in the
/// pool's memory.
#[derive(Debug)]
pub struct PooledFrameBuffer {
    pub memory: u64,
    pub offset: u64,
    pub size: u64,
    pub pool_frame_size: FrameSize,
    pub buffer_index: u32,
    pub memory_type_index: u32,
}

/// A frame buffer allocated on its own.
#[derive(Debug)]
pub struct FrameBuffer {
    pub memory: u64,
    pub size: u64,
}

/// The plan of a frame pool: the bytes to allocate and the memory type.
#[derive(Debug, Clone, Copy)]
pub struct FramePoolPlan {
    pub buffer_size: u64,
    pub total_size: u64,
    pub memory_type_index: u32,
}

/// Where the pool of frames of size `k` stands among `pools`, if anywhere.
pub open spec fn pool_index(pools: Seq<(FrameSize, MemoryPool)>, k: FrameSize) -> int
    decreases pools.len(),
{
    if pools.len() == 0 {
        -1
    } else if pools.last().0 == k {
        pools.len() - 1
    } else {
        pool_index(pools.drop_last(), k)
    }
}

proof fn lemma_pool_index(pools: Seq<(FrameSize, MemoryPool)>, k: FrameSize)
    ensures
        -1 <= pool_index(pools, k) < pools.len(),
        pool_index(pools, k) >= 0 ==> pools[pool_index(pools, k)].0 == k,
        pool_index(pools, k) < 0 ==> forall|j: int| 0 <= j < pools.len() ==> (#[trigger] pools[j]).0 != k,
    decreases pools.len(),
{
    if pools.len() > 0 {
        lemma_pool_index(pools.drop_last(), k);
        if pool_index(pools.drop_last(), k) >= 0 && pools.last().0 != k {
            assert(pools.drop_last()[pool_index(pools.drop_last(), k)] == pools[pool_index(pools.drop_last(), k)]);
        }
        if pool_index(pools, k) < 0 {
            assert forall|j: int| 0 <= j < pools.len() implies (#[trigger] pools[j]).0 != k by {
                if j < pools.len() - 1 {
                    assert(pools.drop_last()[j] == pools[j]);
                }
            }
        }
    }
}

proof fn lemma_unique_index(pools: Seq<(FrameSize, MemoryPool)>, k: FrameSize)
    requires
        forall|i: int, j: int| 0 <= i < j < pools.len() ==> (#[trigger] pools[i]).0 != (#[trigger] pools[j]).0,
    ensures
        forall|j: int| 0 <= j < pools.len() && (#[trigger] pools[j]).0 == k ==> pool_index(pools, k) == j,
    decreases pools.len(),
{
    lemma_pool_index(pools, k);
    if pools.len() > 0 {
        let q = pools.drop_last();
        assert forall|i: int, j: int| 0 <= i < j < q.len() implies (#[trigger] q[i]).0 != (#[trigger] q[j]).0 by {
            assert(q[i] == pools[i] && q[j] == pools[j]);
        }
        lemma_unique_index(q, k);
        assert forall|j: int| 0 <= j < pools.len() && (#[trigger] pools[j]).0 == k implies pool_index(pools, k) == j by {
            if j < pools.len() - 1 {
                assert(q[j] == pools[j]);
                assert(pools.last().0 != k) by {
                    assert(pools[j].0 != pools[pools.len() - 1].0);
                }
            }
        }
    }
}

/// What taking a buffer of frame size `fs` from manager `m0` leaves
/// (`m1`) and returns (`r`): with a pool for `fs` that has a free buffer, the
/// first free index is handed out at offset `index * buffer_size` and leaves
/// the free list, and one more buffer is counted; otherwise the manager is
/// short of one frame's bytes and its pools and count stay.
pub open spec fn acquired(m0: MemoryManager, m1: MemoryManager, fs: FrameSize, r: VulkanResult<PooledFrameBuffer>) -> bool {
    match r {
        Ok(b) => {
            let i = pool_index(m0.spec_pools(), fs);
            let p = m0.spec_pools()[i].1;
            &&& i >= 0
            &&& p.free_buffers@.len() > 0
            &&& b.buffer_index == p.free_buffers@[0]
            &&& b.memory == p.memory
            &&& b.offset == b.buffer_index * p.buffer_size
            &&& b.size == p.buffer_size
            &&& b.pool_frame_size == fs
            &&& b.memory_type_index == p.memory_type_index
            &&& m1.spec_pools() == m0.spec_pools().update(
                i,
                (fs, MemoryPool { free_buffers: m1.spec_pools()[i].1.free_buffers, ..p }),
            )
            &&& m1.spec_pools()[i].1.free_buffers@ == p.free_buffers@.drop_first()
            &&& m1.spec_allocations() == m0.spec_allocations().wrapping_add(1)
        },
        Err(e) => {
            &&& e == VulkanError::InsufficientMemory { required_bytes: fs.spec_buffer_size() as u64 }
            &&& (pool_index(m0.spec_pools(), fs) < 0
                || m0.spec_pools()[pool_index(m0.spec_pools(), fs)].1.free_buffers@.len() == 0)
            &&& m1.spec_pools() == m0.spec_pools()
            &&& m1.spec_allocations() == m0.spec_allocations()
        },
    }
}

/// The free indices `free` and the outstanding (handed out, not yet given
/// back) indices `out` of a pool of `n` buffers account for `n` distinct
/// buffers, each below `n`: every buffer is either free or outstanding, once.
pub open spec fn accounts(free: Seq<u32>, out: Seq<u32>, n: u32) -> bool {
    &&& (free + out).no_duplicates()
    &&& free.len() + out.len() == n
    &&& forall|k: int| 0 <= k < free.len() + out.len() ==> #[trigger] (free + out)[k] < n
}

/// A fresh pool's free list `0, 1, .., n - 1` accounts for all its buffers
/// with none outstanding.
pub proof fn lemma_fresh_pool_accounts(n: u32)
    ensures
        accounts(Seq::new(n as nat, |i: int| i as u32), Seq::empty(), n),
{
    let free = Seq::new(n as nat, |i: int| i as u32);
    assert(free + Seq::<u32>::empty() =~= free);
}

/// Taking the first free index: it is below `n`, not outstanding, and the
/// rest of the free list with it now outstanding still accounts for the pool.
pub proof fn lemma_take_first_free(free: Seq<u32>, out: Seq<u32>, n: u32)
    requires
        accounts(free, out, n),
        free.len() > 0,
    ensures
        free[0] < n,
        !out.contains(free[0]),
        accounts(free.drop_first(), out.push(free[0]), n),
{
    let s = free + out;
    let t = free.drop_first() + out.push(free[0]);
    assert(s[0] == free[0]);
    assert forall|k: int| 0 <= k < t.len() implies #[trigger] t[k] == (if k < t.len() - 1 { s[k + 1] } else { s[0] }) by {
        if k < free.len() - 1 {
            assert(t[k] == free[k + 1]);
        } else if k < t.len() - 1 {
            assert(t[k] == out[k - (free.len() - 1)]);
            assert(s[k + 1] == out[k + 1 - free.len()]);
        }
    }
    assert forall|i: int, j: int| 0 <= i < t.len() && 0 <= j < t.len() && i != j implies t[i] != t[j] by {
        let a = if i < t.len() - 1 { i + 1 } else { 0 };
        let b = if j < t.len() - 1 { j + 1 } else { 0 };
        assert(t[i] == s[a] && t[j] == s[b]);
    }
    assert forall|k: int| 0 <= k < t.len() implies #[trigger] t[k] < n by {
        if k < t.len() - 1 {
            assert(t[k] == s[k + 1]);
        } else {
            assert(t[k] == s[0]);
        }
    }
    if out.contains(free[0]) {
        let j = choose|j: int| 0 <= j < out.len() && out[j] == free[0];
        assert(s[free.len() + j] == out[j]);
    }
}

/// Giving back the outstanding index `out[j]`: it joins the end of the free
/// list and the pool is still accounted for.
pub proof fn lemma_give_back(free: Seq<u32>, out: Seq<u32>, n: u32, j: int)
    requires
        accounts(free, out, n),
        0 <= j < out.len(),
    ensures
        accounts(free.push(out[j]), out.remove(j), n),
{
    let s = free + out;
    let t = free.push(out[j]) + out.remove(j);
    let f = free.len() as int;
    let src = |k: int| if k < f { k } else if k == f { f + j } else if k - f - 1 < j { k - 1 } else { k };
    assert forall|k: int| 0 <= k < t.len() implies #[trigger] t[k] == s[src(k)] by {
        if k < f {
            assert(t[k] == free[k]);
        } else if k == f {
            assert(t[k] == out[j]);
        } else if k - f - 1 < j {
            assert(t[k] == out.remove(j)[k - f - 1]);
            assert(s[k - 1] == out[k - 1 - f]);
        } else {
            assert(t[k] == out.remove(j)[k - f - 1]);
            assert(s[k] == out[k - f]);
        }
    }
    assert forall|a: int, b: int| 0 <= a < t.len() && 0 <= b < t.len() && a != b implies t[a] != t[b] by {
        assert(t[a] == s[src(a)] && t[b] == s[src(b)]);
    }
    assert forall|k: int| 0 <= k < t.len() implies #[trigger] t[k] < n by {
        assert(t[k] == s[src(k)]);
    }
}

/// The pool law of frame buffers: let the pool for `fs` in `m0` have its
/// free list and the outstanding buffer indices `out` account for its `n`
/// buffers. Taking a buffer (`m0` to `m1`, result `r`) then succeeds exactly
/// when fewer than `n` are outstanding; the buffer handed out has an index
/// `i < n` held by no outstanding buffer and lies at offset
/// `i * buffer_size`, and the pool stays accounted for with `i` outstanding.
/// With all `n` outstanding it fails with `InsufficientMemory` for one frame
/// and the pools and count stay as they were.
pub proof fn lemma_pool_buffers_distinct(
    m0: MemoryManager,
    m1: MemoryManager,
    fs: FrameSize,
    r: VulkanResult<PooledFrameBuffer>,
    out: Seq<u32>,
)
    requires
        m0.wf(),
        acquired(m0, m1, fs, r),
        pool_index(m0.spec_pools(), fs) >= 0,
        accounts(
            m0.spec_pools()[pool_index(m0.spec_pools(), fs)].1.free_buffers@,
            out,
            m0.spec_pools()[pool_index(m0.spec_pools(), fs)].1.buffer_count,
        ),
    ensures
        ({
            let i = pool_index(m0.spec_pools(), fs);
            let p = m0.spec_pools()[i].1;
            &&& out.len() < p.buffer_count ==> (r matches Ok(b) && b.buffer_index < p.buffer_count
                && !out.contains(b.buffer_index) && b.offset == b.buffer_index * p.buffer_size
                && b.size == p.buffer_size && b.pool_frame_size == fs
                && accounts(m1.spec_pools()[i].1.free_buffers@, out.push(b.buffer_index), p.buffer_count))
            &&& out.len() >= p.buffer_count ==> (r == Err::<PooledFrameBuffer, VulkanError>(
                VulkanError::InsufficientMemory { required_bytes: fs.spec_buffer_size() as u64 },
            ) && m1.spec_pools() == m0.spec_pools() && m1.spec_allocations() == m0.spec_allocations())
        }),
{
    let i = pool_index(m0.spec_pools(), fs);
    let p = m0.spec_pools()[i].1;
    if p.free_buffers@.len() > 0 {
        lemma_take_first_free(p.free_buffers@, out, p.buffer_count);
    }
}

/// The free-list bookkeeping of the frame buffer pools and the allocation
/// figures of the device memory.
#[derive(Debug)]
pub struct MemoryManager {
    frame_pools: Vec<(FrameSize, MemoryPool)>,
    memory_pools: Vec<u64>,
    free_blocks: Vec<MemoryBlock>,
    total_allocated: u64,
    peak_allocation: u64,
    allocation_count: u64,
    device_local_memory_type: u32,
    host_visible_memory_type: u32,
    host_coherent_memory_type: u32,
}

impl MemoryManager {
    /// The pools, by frame size.
    pub closed spec fn spec_pools(&self) -> Seq<(FrameSize, MemoryPool)> {
        self.frame_pools@
    }

    /// Bytes allocated so far.
    pub closed spec fn spec_total(&self) -> u64 {
        self.total_allocated
    }

    /// The largest number of bytes allocated at once.
    pub closed spec fn spec_peak(&self) -> u64 {
        self.peak_allocation
    }

    /// How many buffers were handed out (counted modulo 2^64).
    pub closed spec fn spec_allocations(&self) -> u64 {
        self.allocation_count
    }

    /// How many free blocks and whole-memory pools of the older allocation
    /// scheme are kept (none are ever made).
    pub closed spec fn spec_legacy_counts(&self) -> (nat, nat) {
        (self.free_blocks@.len(), self.memory_pools@.len())
    }

    /// The memory types chosen: device local, host visible, host coherent.
    pub closed spec fn spec_memory_types(&self) -> (u32, u32, u32) {
        (self.device_local_memory_type, self.host_visible_memory_type, self.host_coherent_memory_type)
    }

    /// Each frame size has at most one pool, every free index names a buffer
    /// of its pool, and each pool's buffers fit in 64-bit offsets.
    pub closed spec fn wf(&self) -> bool {
        &&& forall|i: int, j: int| 0 <= i < j < self.frame_pools@.len() ==> (#[trigger] self.frame_pools@[i]).0
            != (#[trigger] self.frame_pools@[j]).0
        &&& forall|i: int| 0 <= i < self.frame_pools@.len() ==> {
            let p = #[trigger] self.frame_pools@[i].1;
            &&& p.buffer_size * p.buffer_count <= u64::MAX
            &&& forall|k: int| 0 <= k < p.free_buffers@.len() ==> (#[trigger] p.free_buffers@[k]) < p.buffer_count
        }
        &&& self.total_allocated <= self.peak_allocation
    }

    /// A manager for a device whose memory types have the given property
    /// flags: it uses the first device-local type, the first host-visible
    /// and coherent type, and the first that is also cached (falling back to
    /// the host-visible one).
    pub fn new(type_flags: &Vec<u32>) -> (r: VulkanResult<Self>)
        requires
            type_flags@.len() <= u32::MAX,
        ensures
            match r {
                Ok(m) => {
                    &&& m.wf()
                    &&& m.spec_pools().len() == 0
                    &&& m.spec_total() == 0 && m.spec_peak() == 0 && m.spec_allocations() == 0
                    &&& first_memory_type(type_flags@, MEMORY_DEVICE_LOCAL) == Some(m.spec_memory_types().0)
                    &&& first_memory_type(type_flags@, MEMORY_HOST_VISIBLE | MEMORY_HOST_COHERENT) == Some(
                        m.spec_memory_types().1,
                    )
                    &&& m.spec_memory_types().2 == match first_memory_type(
                        type_flags@,
                        MEMORY_HOST_VISIBLE | MEMORY_HOST_COHERENT | MEMORY_HOST_CACHED,
                    ) {
                        Some(t) => t,
                        None => m.spec_memory_types().1,
                    }
                },
                Err(e) => {
                    &&& e matches VulkanError::HardwareNotSupported { hardware }
                    &&& (first_memory_type(type_flags@, MEMORY_DEVICE_LOCAL) is None && hardware@
                        == "Required memory type not found: DEVICE_LOCAL"@) || (first_memory_type(
                        type_flags@,
                        MEMORY_DEVICE_LOCAL,
                    ) is Some && first_memory_type(type_flags@, MEMORY_HOST_VISIBLE | MEMORY_HOST_COHERENT) is None
                        && hardware@ == "Required memory type not found: HOST_VISIBLE | HOST_COHERENT"@)
                },
            },
    {
        let device_local = match find_memory_type(type_flags, MEMORY_DEVICE_LOCAL) {
            Some(t) => t,
            None => {
                return Err(VulkanError::HardwareNotSupported {
                    hardware: String::from_str("Required memory type not found: DEVICE_LOCAL"),
                });
            },
        };
        let host_visible = match find_memory_type(type_flags, MEMORY_HOST_VISIBLE | MEMORY_HOST_COHERENT) {
            Some(t) => t,
            None => {
                return Err(VulkanError::HardwareNotSupported {
                    hardware: String::from_str("Required memory type not found: HOST_VISIBLE | HOST_COHERENT"),
                });
            },
        };
        let host_coherent = match find_memory_type(
            type_flags,
            MEMORY_HOST_VISIBLE | MEMORY_HOST_COHERENT | MEMORY_HOST_CACHED,
        ) {
            Some(t) => t,
            None => host_visible,
        };
        Ok(MemoryManager {
            frame_pools: Vec::new(),
            memory_pools: Vec::new(),
            free_blocks: Vec::new(),
            total_allocated: 0,
            peak_allocation: 0,
            allocation_count: 0,
            device_local_memory_type: device_local,
            host_visible_memory_type: host_visible,
            host_coherent_memory_type: host_coherent,
        })
    }

    /// Where the pool of frames of size `frame_size` stands.
    fn find_pool(&self, frame_size: &FrameSize) -> (r: Option<usize>)
        ensures
            match r {
                Some(i) => i < self.frame_pools@.len() && self.frame_pools@[i as int].0 == *frame_size,
                None => forall|j: int| 0 <= j < self.frame_pools@.len() ==> (#[trigger] self.frame_pools@[j]).0 != *frame_size,
            },
    {
        let n = self.frame_pools.len();
        let mut i: usize = 0;
        while i < n
            invariant
                n == self.frame_pools@.len(),
                i <= n,
                forall|j: int| 0 <= j < i ==> (#[trigger] self.frame_pools@[j]).0 != *frame_size,
            decreases n - i,
        {
            if self.frame_pools[i].0 == *frame_size {
                return Some(i);
            }
            i = i + 1;
        }
        None
    }

    /// Whether a pool of frames of this size exists.
    pub fn has_frame_pool(&self, frame_size: &FrameSize) -> (b: bool)
        ensures
            b == exists|j: int| 0 <= j < self.spec_pools().len() && (#[trigger] self.spec_pools()[j]).0 == *frame_size,
    {
        match self.find_pool(frame_size) {
            Some(i) => {
                assert(self.frame_pools@[i as int].0 == *frame_size);
                true
            },
            None => false,
        }
    }

    /// What creating a pool of `buffer_count` frames of `frame_size` takes:
    /// nothing when such a pool exists, else the bytes of all its buffers in
    /// device-local or host-visible memory.
    pub fn plan_frame_pool(&self, frame_size: &FrameSize, buffer_count: u32, use_device_local: bool) -> (r: Option<FramePoolPlan>)
        requires
            frame_size.spec_buffer_size() <= u32::MAX,
        ensures
            match r {
                Some(p) => {
                    &&& forall|j: int| 0 <= j < self.spec_pools().len() ==> (#[trigger] self.spec_pools()[j]).0 != *frame_size
                    &&& p.buffer_size == frame_size.spec_buffer_size()
                    &&& p.total_size == p.buffer_size * buffer_count
                    &&& p.memory_type_index == (if use_device_local {
                        self.spec_memory_types().0
                    } else {
                        self.spec_memory_types().1
                    })
                },
                None => exists|j: int| 0 <= j < self.spec_pools().len() && (#[trigger] self.spec_pools()[j]).0 == *frame_size,
            },
    {
        if self.has_frame_pool(frame_size) {
            return None;
        }
        let buffer_size = frame_size.buffer_size();
        proof {
            vstd::arithmetic::mul::lemma_mul_upper_bound(
                buffer_size as int,
                u32::MAX as int,
                buffer_count as int,
                u32::MAX as int,
            );
        }
        let total_size = buffer_size * buffer_count as u64;
        let memory_type_index = if use_device_local {
            self.device_local_memory_type
        } else {
            self.host_visible_memory_type
        };
        Some(FramePoolPlan { buffer_size, total_size, memory_type_index })
    }

    /// Record a pool allocated by `plan` as `memory`: all its buffers are
    /// free, in order, and the allocation figures grow by its size.
    pub fn register_frame_pool(&mut self, frame_size: FrameSize, buffer_count: u32, memory: u64, plan: FramePoolPlan)
        requires
            old(self).wf(),
            forall|j: int| 0 <= j < old(self).spec_pools().len() ==> (#[trigger] old(self).spec_pools()[j]).0 != frame_size,
            plan.total_size == plan.buffer_size * buffer_count,
            old(self).spec_total() + plan.total_size <= u64::MAX,
        ensures
            final(self).wf(),
            final(self).spec_pools().len() == old(self).spec_pools().len() + 1,
            final(self).spec_pools().drop_last() == old(self).spec_pools(),
            final(self).spec_pools().last().0 == frame_size,
            final(self).spec_pools().last().1.memory == memory,
            final(self).spec_pools().last().1.buffer_size == plan.buffer_size,
            final(self).spec_pools().last().1.buffer_count == buffer_count,
            final(self).spec_pools().last().1.memory_type_index == plan.memory_type_index,
            final(self).spec_pools().last().1.free_buffers@ == Seq::new(buffer_count as nat, |i: int| i as u32),
            final(self).spec_total() == old(self).spec_total() + plan.total_size,
            final(self).spec_peak() == (if old(self).spec_peak() > final(self).spec_total() {
                old(self).spec_peak()
            } else {
                final(self).spec_total()
            }),
            final(self).spec_allocations() == old(self).spec_allocations(),
            final(self).spec_memory_types() == old(self).spec_memory_types(),
    {
        let mut free_buffers: Vec<u32> = Vec::new();
        let mut i: u32 = 0;
        while i < buffer_count
            invariant
                i <= buffer_count,
                free_buffers@ == Seq::new(i as nat, |k: int| k as u32),
            decreases buffer_count - i,
        {
            free_buffers.push(i);
            proof {
                assert(free_buffers@ =~= Seq::new((i + 1) as nat, |k: int| k as u32));
            }
            i = i + 1;
        }
        let pool = MemoryPool {
            memory,
            buffer_size: plan.buffer_size,
            buffer_count,
            free_buffers,
            allocation_offset: 0,
            memory_type_index: plan.memory_type_index,
        };
        let ghost before = self.frame_pools@;
        self.frame_pools.push((frame_size, pool));
        self.total_allocated = self.total_allocated + plan.total_size;
        if self.total_allocated > self.peak_allocation {
            self.peak_allocation = self.total_allocated;
        }
        proof {
            assert(self.frame_pools@.drop_last() =~= before);
            assert forall|a: int, b: int| 0 <= a < b < self.frame_pools@.len() implies (#[trigger] self.frame_pools@[a]).0
                != (#[trigger] self.frame_pools@[b]).0 by {
                if b == before.len() {
                    assert(before == old(self).spec_pools());
                    assert(old(self).spec_pools()[a].0 != frame_size);
                } else {
                    assert(before[a].0 != before[b].0);
                }
            }
            assert forall|j: int| 0 <= j < self.frame_pools@.len() implies {
                let p = #[trigger] self.frame_pools@[j].1;
                &&& p.buffer_size * p.buffer_count <= u64::MAX
                &&& forall|k: int| 0 <= k < p.free_buffers@.len() ==> (#[trigger] p.free_buffers@[k]) < p.buffer_count
            } by {
                if j < before.len() {
                    assert(self.frame_pools@[j] == before[j]);
                }
            }
        }
    }

    /// Take the first free buffer of the pool for `frame_size`. Without such
    /// a pool, or with every buffer taken, the manager is short of the bytes
    /// of one frame.
    pub fn acquire_frame_buffer(&mut self, frame_size: &FrameSize) -> (r: VulkanResult<PooledFrameBuffer>)
        requires
            old(self).wf(),
            frame_size.spec_buffer_size() <= u32::MAX,
        ensures
            final(self).wf(),
            final(self).spec_total() == old(self).spec_total(),
            final(self).spec_peak() == old(self).spec_peak(),
            final(self).spec_memory_types() == old(self).spec_memory_types(),
            acquired(*old(self), *final(self), *frame_size, r),
            final(self).spec_legacy_counts() == old(self).spec_legacy_counts(),
    {
        proof {
            lemma_pool_index(self.frame_pools@, *frame_size);
            lemma_unique_index(self.frame_pools@, *frame_size);
        }
        let i = match self.find_pool(frame_size) {
            Some(i) => i,
            None => {
                return Err(VulkanError::InsufficientMemory { required_bytes: frame_size.buffer_size() });
            },
        };
        if self.frame_pools[i].1.free_buffers.len() == 0 {
            return Err(VulkanError::InsufficientMemory { required_bytes: frame_size.buffer_size() });
        }
        let ghost before = self.frame_pools@;
        let (size_key, mut pool) = self.frame_pools.remove(i);
        let buffer_index = pool.free_buffers.remove(0);
        proof {
            assert(buffer_index < pool.buffer_count);
            vstd::arithmetic::mul::lemma_mul_inequality(buffer_index as int, pool.buffer_count as int, pool.buffer_size as int);
            assert(buffer_index * pool.buffer_size <= pool.buffer_count * pool.buffer_size) by (nonlinear_arith)
                requires
                    buffer_index < pool.buffer_count,
            ;
            assert(pool.buffer_count * pool.buffer_size == pool.buffer_size * pool.buffer_count) by (nonlinear_arith);
        }
        let fb = PooledFrameBuffer {
            memory: pool.memory,
            offset: buffer_index as u64 * pool.buffer_size,
            size: pool.buffer_size,
            pool_frame_size: *frame_size,
            buffer_index,
            memory_type_index: pool.memory_type_index,
        };
        let ghost new_pool = pool;
        self.frame_pools.insert(i, (size_key, pool));
        self.allocation_count = self.allocation_count.wrapping_add(1);
        proof {
            assert(self.frame_pools@ =~= before.update(i as int, (*frame_size, new_pool)));
            assert forall|a: int, b: int| 0 <= a < b < self.frame_pools@.len() implies (#[trigger] self.frame_pools@[a]).0
                != (#[trigger] self.frame_pools@[b]).0 by {
                assert(before[a].0 != before[b].0);
            }
            assert forall|j: int| 0 <= j < self.frame_pools@.len() implies {
                let p = #[trigger] self.frame_pools@[j].1;
                &&& p.buffer_size * p.buffer_count <= u64::MAX
                &&& forall|k: int| 0 <= k < p.free_buffers@.len() ==> (#[trigger] p.free_buffers@[k]) < p.buffer_count
            } by {
                if j == i {
                    assert forall|k: int| 0 <= k < new_pool.free_buffers@.len() implies (#[trigger] new_pool.free_buffers@[k]) < new_pool.buffer_count by {
                        assert(new_pool.free_buffers@[k] == before[j].1.free_buffers@[k + 1]);
                    }
                }
            }
        }
        Ok(fb)
    }

    /// Give a buffer back to its pool: its index joins the end of the free
    /// list. A buffer of no known pool changes nothing.
    pub fn release_frame_buffer(&mut self, frame_buffer: PooledFrameBuffer)
        requires
            old(self).wf(),
        ensures
            final(self).spec_total() == old(self).spec_total(),
            final(self).spec_peak() == old(self).spec_peak(),
            final(self).spec_allocations() == old(self).spec_allocations(),
            final(self).spec_memory_types() == old(self).spec_memory_types(),
            final(self).spec_pools().len() == old(self).spec_pools().len(),
            ({
                let i = pool_index(old(self).spec_pools(), frame_buffer.pool_frame_size);
                if i < 0 {
                    final(self).spec_pools() == old(self).spec_pools()
                } else {
                    let p = old(self).spec_pools()[i].1;
                    &&& final(self).spec_pools()[i].1.free_buffers@ == p.free_buffers@.push(frame_buffer.buffer_index)
                    &&& final(self).spec_pools() == old(self).spec_pools().update(
                        i,
                        (frame_buffer.pool_frame_size, MemoryPool { free_buffers: final(self).spec_pools()[i].1.free_buffers, ..p }),
                    )
                }
            }),
            frame_buffer.buffer_index < (if pool_index(old(self).spec_pools(), frame_buffer.pool_frame_size) >= 0 {
                old(self).spec_pools()[pool_index(old(self).spec_pools(), frame_buffer.pool_frame_size)].1.buffer_count
            } else {
                0u32
            }) ==> final(self).wf(),
    {
        proof {
            lemma_pool_index(self.frame_pools@, frame_buffer.pool_frame_size);
            lemma_unique_index(self.frame_pools@, frame_buffer.pool_frame_size);
        }
        let i = match self.find_pool(&frame_buffer.pool_frame_size) {
            Some(i) => i,
            None => {
                return;
            },
        };
        let ghost before = self.frame_pools@;
        let (size_key, mut pool) = self.frame_pools.remove(i);
        pool.free_buffers.push(frame_buffer.buffer_index);
        let ghost new_pool = pool;
        self.frame_pools.insert(i, (size_key, pool));
        proof {
            assert(self.frame_pools@ =~= before.update(i as int, (frame_buffer.pool_frame_size, new_pool)));
            if frame_buffer.buffer_index < new_pool.buffer_count {
                assert forall|a: int, b: int| 0 <= a < b < self.frame_pools@.len() implies (#[trigger] self.frame_pools@[a]).0
                    != (#[trigger] self.frame_pools@[b]).0 by {
                    assert(before[a].0 != before[b].0);
                }
                assert forall|j: int| 0 <= j < self.frame_pools@.len() implies {
                    let p = #[trigger] self.frame_pools@[j].1;
                    &&& p.buffer_size * p.buffer_count <= u64::MAX
                    &&& forall|k: int| 0 <= k < p.free_buffers@.len() ==> (#[trigger] p.free_buffers@[k]) < p.buffer_count
                } by {
                    if j == i {
                        assert forall|k: int| 0 <= k < new_pool.free_buffers@.len() implies (#[trigger] new_pool.free_buffers@[k]) < new_pool.buffer_count by {
                            if k < new_pool.free_buffers@.len() - 1 {
                                assert(new_pool.free_buffers@[k] == before[j].1.free_buffers@[k]);
                            }
                        }
                    }
                }
            }
        }
    }

    /// Record a buffer allocated on its own: the figures grow by its size
    /// and one more buffer was handed out.
    pub fn allocate_frame_buffer(&mut self, size: u64, memory: u64) -> (b: FrameBuffer)
        requires
            old(self).wf(),
            old(self).spec_total() + size <= u64::MAX,
        ensures
            final(self).wf(),
            b.memory == memory && b.size == size,
            final(self).spec_total() == old(self).spec_total() + size,
            final(self).spec_peak() == (if old(self).spec_peak() > final(self).spec_total() {
                old(self).spec_peak()
            } else {
                final(self).spec_total()
            }),
            final(self).spec_allocations() == old(self).spec_allocations().wrapping_add(1),
            final(self).spec_pools() == old(self).spec_pools(),
    {
        self.total_allocated = self.total_allocated + size;
        if self.total_allocated > self.peak_allocation {
            self.peak_allocation = self.total_allocated;
        }
        self.allocation_count = self.allocation_count.wrapping_add(1);
        FrameBuffer { memory, size }
    }

    /// The allocation figures.
    pub fn get_memory_usage(&self) -> (u: MemoryUsage)
        ensures
            u.total_allocated == self.spec_total(),
            u.free_blocks == self.spec_legacy_counts().0,
            u.total_pools == self.spec_legacy_counts().1,
    {
        MemoryUsage {
            total_allocated: self.total_allocated,
            free_blocks: self.free_blocks.len(),
            total_pools: self.memory_pools.len(),
        }
    }
}

} // verus!
