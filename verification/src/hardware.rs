use vstd::prelude::*;
use crate::error::ConstellationError;
use crate::error::ConstellationResult;
use crate::text::{decimal, decimal_text};

verus! {

/// The texts of a list of strings.
pub open spec fn texts(v: Seq<String>) -> Seq<Seq<char>> {
    v.map_values(|s: String| s@)
}

/// The text of an optional string.
pub open spec fn opt_text(o: Option<String>) -> Option<Seq<char>> {
    match o {
        Some(s) => Some(s@),
        None => None,
    }
}

/// Processor of the machine. Frequencies are in whole MHz.
#[derive(Debug, Clone)]
pub struct CpuInfo {
    pub model: String,
    pub vendor: String,
    pub cores: u32,
    pub threads: u32,
    pub base_frequency_mhz: u32,
    pub boost_frequency_mhz: Option<u32>,
    pub architecture: String,
    pub features: Vec<String>,
}

/// Main memory of the machine.
#[derive(Debug, Clone)]
pub struct MemoryInfo {
    pub total_bytes: u64,
    pub available_bytes: u64,
    pub memory_type: String,
    pub channels: u32,
    pub speed_mhz: Option<u32>,
}

/// A graphics adapter.
#[derive(Debug, Clone)]
pub struct GpuInfo {
    pub name: String,
    pub vendor: String,
    pub device_id: String,
    pub memory_bytes: u64,
    pub driver_version: String,
    pub vulkan_version: Option<String>,
    pub opencl_version: Option<String>,
    pub compute_capability: Option<String>,
    pub features: Vec<String>,
}

/// Storage of the machine.
#[derive(Debug, Clone)]
pub struct StorageInfo {
    pub drives: Vec<DriveInfo>,
    pub total_space: u64,
    pub available_space: u64,
}

/// One drive. Speeds are in whole MB/s.
#[derive(Debug, Clone)]
pub struct DriveInfo {
    pub name: String,
    pub drive_type: DriveType,
    pub total_bytes: u64,
    pub available_bytes: u64,
    pub read_speed_mbps: Option<u32>,
    pub write_speed_mbps: Option<u32>,
}

/// Kind of drive.
#[derive(Debug, Clone, Copy, PartialEq, Eq, Structural)]
pub enum DriveType {
    Hdd,
    Ssd,
    NVMe,
    Unknown,
}

/// Network of the machine. Bandwidths are in whole Mbit/s.
#[derive(Debug, Clone)]
pub struct NetworkInfo {
    pub interfaces: Vec<NetworkInterface>,
    pub max_bandwidth_mbps: u32,
}

/// One network interface.
#[derive(Debug, Clone)]
pub struct NetworkInterface {
    pub name: String,
    pub interface_type: NetworkInterfaceType,
    pub speed_mbps: u32,
    pub is_active: bool,
}

/// Kind of network interface.
#[derive(Debug, Clone, Copy, PartialEq, Eq, Structural)]
pub enum NetworkInterfaceType {
    Ethernet,
    WiFi,
    Fiber,
    Cellular,
    Unknown,
}

/// Operating system.
#[derive(Debug, Clone)]
pub struct OsInfo {
    pub name: String,
    pub version: String,
    pub architecture: String,
    pub kernel_version: Option<String>,
}

/// Displays. Refresh rates are in whole Hz.
#[derive(Debug)]
pub struct DisplayInfo {
    pub monitors: Vec<MonitorInfo>,
    pub primary_resolution: (u32, u32),
    pub refresh_rate_hz: u32,
}

/// One monitor.
#[derive(Debug)]
pub struct MonitorInfo {
    pub name: String,
    pub resolution: (u32, u32),
    pub refresh_rate_hz: u32,
    pub color_depth: u32,
    pub hdr_support: bool,
}

/// Everything known of the machine.
#[derive(Debug)]
pub struct SystemInfo {
    pub cpu: CpuInfo,
    pub memory: MemoryInfo,
    pub gpu: Vec<GpuInfo>,
    pub storage: StorageInfo,
    pub network: NetworkInfo,
    pub operating_system: OsInfo,
    pub display: DisplayInfo,
}

/// Requirements of each phase, by phase identifier, in a fixed order.
#[derive(Debug, Clone)]
pub struct HardwareRequirements {
    pub phases: Vec<(String, PhaseRequirements)>,
}

/// Requirements of one phase at three levels.
#[derive(Debug, Clone)]
pub struct PhaseRequirements {
    pub phase_name: String,
    pub description: String,
    pub minimum: RequirementSpec,
    pub recommended: RequirementSpec,
    pub professional: Option<RequirementSpec>,
}

/// Requirements at one level.
#[derive(Debug, Clone)]
pub struct RequirementSpec {
    pub cpu: CpuRequirement,
    pub memory: MemoryRequirement,
    pub gpu: GpuRequirement,
    pub storage: StorageRequirement,
    pub network: Option<NetworkRequirement>,
    pub operating_system: Vec<String>,
}

/// Processor requirement; the frequency is in whole MHz.
#[derive(Debug, Clone)]
pub struct CpuRequirement {
    pub min_cores: u32,
    pub min_frequency_mhz: u32,
    pub required_features: Vec<String>,
    pub architectures: Vec<String>,
}

/// Memory requirement in whole GiB.
#[derive(Debug, Clone)]
pub struct MemoryRequirement {
    pub min_total_gb: u64,
    pub min_available_gb: u64,
    pub preferred_type: Option<String>,
}

/// Graphics requirement; memory in whole GiB.
#[derive(Debug, Clone)]
pub struct GpuRequirement {
    pub required: bool,
    pub min_memory_gb: Option<u64>,
    pub supported_vendors: Vec<String>,
    pub required_apis: Vec<String>,
    pub min_vulkan_version: Option<String>,
    pub professional_features: Vec<String>,
}

/// Storage requirement; free space in whole GiB, speeds in whole MB/s.
#[derive(Debug, Clone)]
pub struct StorageRequirement {
    pub min_free_space_gb: u64,
    pub preferred_types: Vec<DriveType>,
    pub min_read_speed_mbps: Option<u32>,
    pub min_write_speed_mbps: Option<u32>,
}

/// Network requirement; bandwidth in whole Mbit/s, latency in microseconds.
#[derive(Debug, Clone)]
pub struct NetworkRequirement {
    pub min_bandwidth_mbps: u32,
    pub required_for_features: Vec<String>,
    pub latency_requirements: Option<u32>,
}

/// Result of a full compatibility check.
#[derive(Debug, Clone)]
pub struct CompatibilityReport {
    pub overall_compatibility: CompatibilityLevel,
    pub supported_phases: Vec<String>,
    pub phase_reports: Vec<(String, PhaseCompatibilityReport)>,
    pub recommendations: Vec<String>,
    pub warnings: Vec<String>,
    pub critical_issues: Vec<String>,
}

/// How well the machine supports something.
#[derive(Debug, Clone, Copy, PartialEq, Eq, Structural)]
pub enum CompatibilityLevel {
    FullySupported,
    Supported,
    PartiallySupported,
    NotSupported,
}

/// Result of checking one phase.
#[derive(Debug, Clone)]
pub struct PhaseCompatibilityReport {
    pub phase_name: String,
    pub compatibility: CompatibilityLevel,
    pub minimum_met: bool,
    pub recommended_met: bool,
    pub professional_met: Option<bool>,
    pub component_reports: Vec<(String, ComponentCompatibilityReport)>,
}

/// Result of checking one component.
#[derive(Debug, Clone)]
pub struct ComponentCompatibilityReport {
    pub component_name: String,
    pub status: ComponentStatus,
    pub details: String,
    pub recommendations: Vec<String>,
}

/// Grade of one component against a requirement.
#[derive(Debug, Clone, Copy, PartialEq, Eq, Structural)]
pub enum ComponentStatus {
    Excellent,
    Good,
    Adequate,
    Insufficient,
    Missing,
}

/// The requirements of `phase1` as the built-in table states them.
pub open spec fn is_phase1_requirements(p: PhaseRequirements) -> bool {
    &&& p.phase_name@ == "Phase 1: 2D基盤（ローカル）"@
    &&& p.description@ == "基本的な2D映像処理、画面キャプチャ、仮想Webカメラ"@
    &&& p.minimum.cpu.min_cores == 4
    &&& p.minimum.cpu.min_frequency_mhz == 2000
    &&& texts(p.minimum.cpu.required_features@) =~= Seq::<Seq<char>>::empty()
    &&& texts(p.minimum.cpu.architectures@) =~= seq!["x86_64"@, "arm64"@]
    &&& p.minimum.memory.min_total_gb == 8
    &&& p.minimum.memory.min_available_gb == 4
    &&& opt_text(p.minimum.memory.preferred_type) == Some("DDR4"@)
    &&& p.minimum.gpu.required == true
    &&& p.minimum.gpu.min_memory_gb == Some(2u64)
    &&& texts(p.minimum.gpu.supported_vendors@) =~= seq!["NVIDIA"@, "AMD"@, "Intel"@]
    &&& texts(p.minimum.gpu.required_apis@) =~= seq!["Vulkan"@]
    &&& opt_text(p.minimum.gpu.min_vulkan_version) == Some("1.2"@)
    &&& texts(p.minimum.gpu.professional_features@) =~= Seq::<Seq<char>>::empty()
    &&& p.minimum.storage.min_free_space_gb == 10
    &&& p.minimum.storage.preferred_types@ =~= seq![DriveType::Ssd, DriveType::NVMe]
    &&& p.minimum.storage.min_read_speed_mbps == Some(200u32)
    &&& p.minimum.storage.min_write_speed_mbps == Some(100u32)
    &&& p.minimum.network is None
    &&& texts(p.minimum.operating_system@) =~= seq!["Windows 10"@, "Windows 11"@, "macOS 12"@, "Ubuntu 20.04"@]
    &&& p.recommended.cpu.min_cores == 8
    &&& p.recommended.cpu.min_frequency_mhz == 3000
    &&& texts(p.recommended.cpu.required_features@) =~= seq!["AVX2"@]
    &&& texts(p.recommended.cpu.architectures@) =~= seq!["x86_64"@, "arm64"@]
    &&& p.recommended.memory.min_total_gb == 16
    &&& p.recommended.memory.min_available_gb == 8
    &&& opt_text(p.recommended.memory.preferred_type) == Some("DDR4"@)
    &&& p.recommended.gpu.required == true
    &&& p.recommended.gpu.min_memory_gb == Some(6u64)
    &&& texts(p.recommended.gpu.supported_vendors@) =~= seq!["NVIDIA"@, "AMD"@]
    &&& texts(p.recommended.gpu.required_apis@) =~= seq!["Vulkan"@]
    &&& opt_text(p.recommended.gpu.min_vulkan_version) == Some("1.3"@)
    &&& texts(p.recommended.gpu.professional_features@) =~= Seq::<Seq<char>>::empty()
    &&& p.recommended.storage.min_free_space_gb == 50
    &&& p.recommended.storage.preferred_types@ =~= seq![DriveType::NVMe]
    &&& p.recommended.storage.min_read_speed_mbps == Some(1000u32)
    &&& p.recommended.storage.min_write_speed_mbps == Some(500u32)
    &&& p.recommended.network is None
    &&& texts(p.recommended.operating_system@) =~= seq!["Windows 11"@, "macOS 13"@, "Ubuntu 22.04"@]
    &&& p.professional is None
}

/// The built-in requirements of `phase1`.
fn phase1_requirements() -> (p: PhaseRequirements)
    ensures
        is_phase1_requirements(p),
{
    PhaseRequirements {
        phase_name: String::from_str("Phase 1: 2D基盤（ローカル）"),
        description: String::from_str("基本的な2D映像処理、画面キャプチャ、仮想Webカメラ"),
        minimum: RequirementSpec {
            cpu: CpuRequirement { min_cores: 4, min_frequency_mhz: 2000, required_features: vec![], architectures: vec![String::from_str("x86_64"), String::from_str("arm64")] },
            memory: MemoryRequirement { min_total_gb: 8, min_available_gb: 4, preferred_type: Some(String::from_str("DDR4")) },
            gpu: GpuRequirement {
                required: true,
                min_memory_gb: Some(2u64),
                supported_vendors: vec![String::from_str("NVIDIA"), String::from_str("AMD"), String::from_str("Intel")],
                required_apis: vec![String::from_str("Vulkan")],
                min_vulkan_version: Some(String::from_str("1.2")),
                professional_features: vec![],
            },
            storage: StorageRequirement { min_free_space_gb: 10, preferred_types: vec![DriveType::Ssd, DriveType::NVMe], min_read_speed_mbps: Some(200u32), min_write_speed_mbps: Some(100u32) },
            network: None,
            operating_system: vec![String::from_str("Windows 10"), String::from_str("Windows 11"), String::from_str("macOS 12"), String::from_str("Ubuntu 20.04")],
        },
        recommended: RequirementSpec {
            cpu: CpuRequirement { min_cores: 8, min_frequency_mhz: 3000, required_features: vec![String::from_str("AVX2")], architectures: vec![String::from_str("x86_64"), String::from_str("arm64")] },
            memory: MemoryRequirement { min_total_gb: 16, min_available_gb: 8, preferred_type: Some(String::from_str("DDR4")) },
            gpu: GpuRequirement {
                required: true,
                min_memory_gb: Some(6u64),
                supported_vendors: vec![String::from_str("NVIDIA"), String::from_str("AMD")],
                required_apis: vec![String::from_str("Vulkan")],
                min_vulkan_version: Some(String::from_str("1.3")),
                professional_features: vec![],
            },
            storage: StorageRequirement { min_free_space_gb: 50, preferred_types: vec![DriveType::NVMe], min_read_speed_mbps: Some(1000u32), min_write_speed_mbps: Some(500u32) },
            network: None,
            operating_system: vec![String::from_str("Windows 11"), String::from_str("macOS 13"), String::from_str("Ubuntu 22.04")],
        },
        professional: None,
    }
}

/// The requirements of `phase2` as the built-in table states them.
pub open spec fn is_phase2_requirements(p: PhaseRequirements) -> bool {
    &&& p.phase_name@ == "Phase 2: プロフェッショナル映像伝送"@
    &&& p.description@ == "SDI、NDI、SRT、SMPTE ST 2110対応"@
    &&& p.minimum.cpu.min_cores == 8
    &&& p.minimum.cpu.min_frequency_mhz == 3000
    &&& texts(p.minimum.cpu.required_features@) =~= seq!["AVX2"@]
    &&& texts(p.minimum.cpu.architectures@) =~= seq!["x86_64"@]
    &&& p.minimum.memory.min_total_gb == 32
    &&& p.minimum.memory.min_available_gb == 16
    &&& opt_text(p.minimum.memory.preferred_type) == Some("DDR4"@)
    &&& p.minimum.gpu.required == true
    &&& p.minimum.gpu.min_memory_gb == Some(8u64)
    &&& texts(p.minimum.gpu.supported_vendors@) =~= seq!["NVIDIA"@, "AMD"@]
    &&& texts(p.minimum.gpu.required_apis@) =~= seq!["Vulkan"@]
    &&& opt_text(p.minimum.gpu.min_vulkan_version) == Some("1.3"@)
    &&& texts(p.minimum.gpu.professional_features@) =~= seq!["SDI"@, "NDI"@]
    &&& p.minimum.storage.min_free_space_gb == 500
    &&& p.minimum.storage.preferred_types@ =~= seq![DriveType::NVMe]
    &&& p.minimum.storage.min_read_speed_mbps == Some(2000u32)
    &&& p.minimum.storage.min_write_speed_mbps == Some(1000u32)
    &&& p.minimum.network matches Some(net) && net.min_bandwidth_mbps == 10000 && texts(net.required_for_features@) =~= seq!["NDI"@, "SRT"@, "ST2110"@] && net.latency_requirements == Some(1000u32)
    &&& texts(p.minimum.operating_system@) =~= seq!["Windows 11 Pro"@, "Ubuntu 22.04 LTS"@]
    &&& p.recommended.cpu.min_cores == 16
    &&& p.recommended.cpu.min_frequency_mhz == 3500
    &&& texts(p.recommended.cpu.required_features@) =~= seq!["AVX512"@]
    &&& texts(p.recommended.cpu.architectures@) =~= seq!["x86_64"@]
    &&& p.recommended.memory.min_total_gb == 64
    &&& p.recommended.memory.min_available_gb == 32
    &&& opt_text(p.recommended.memory.preferred_type) == Some("DDR5"@)
    &&& p.recommended.gpu.required == true
    &&& p.recommended.gpu.min_memory_gb == Some(24u64)
    &&& texts(p.recommended.gpu.supported_vendors@) =~= seq!["NVIDIA"@]
    &&& texts(p.recommended.gpu.required_apis@) =~= seq!["Vulkan"@]
    &&& opt_text(p.recommended.gpu.min_vulkan_version) == Some("1.3"@)
    &&& texts(p.recommended.gpu.professional_features@) =~= seq!["SDI"@, "NDI"@, "ST2110"@]
    &&& p.recommended.storage.min_free_space_gb == 2000
    &&& p.recommended.storage.preferred_types@ =~= seq![DriveType::NVMe]
    &&& p.recommended.storage.min_read_speed_mbps == Some(7000u32)
    &&& p.recommended.storage.min_write_speed_mbps == Some(5000u32)
    &&& p.recommended.network matches Some(net) && net.min_bandwidth_mbps == 25000 && texts(net.required_for_features@) =~= seq!["4K NDI"@, "ST2110"@] && net.latency_requirements == Some(500u32)
    &&& texts(p.recommended.operating_system@) =~= seq!["Windows 11 Pro"@, "Ubuntu 22.04 LTS"@]
    &&& p.professional is Some
    &&& p.professional->0.cpu.min_cores == 32
    &&& p.professional->0.cpu.min_frequency_mhz == 4000
    &&& texts(p.professional->0.cpu.required_features@) =~= seq!["AVX512"@]
    &&& texts(p.professional->0.cpu.architectures@) =~= seq!["x86_64"@]
    &&& p.professional->0.memory.min_total_gb == 128
    &&& p.professional->0.memory.min_available_gb == 64
    &&& opt_text(p.professional->0.memory.preferred_type) == Some("DDR5"@)
    &&& p.professional->0.gpu.required == true
    &&& p.professional->0.gpu.min_memory_gb == Some(48u64)
    &&& texts(p.professional->0.gpu.supported_vendors@) =~= seq!["NVIDIA"@]
    &&& texts(p.professional->0.gpu.required_apis@) =~= seq!["Vulkan"@]
    &&& opt_text(p.professional->0.gpu.min_vulkan_version) == Some("1.3"@)
    &&& texts(p.professional->0.gpu.professional_features@) =~= seq!["Multiple SDI"@, "12G-SDI"@, "ST2110"@]
    &&& p.professional->0.storage.min_free_space_gb == 10000
    &&& p.professional->0.storage.preferred_types@ =~= seq![DriveType::NVMe]
    &&& p.professional->0.storage.min_read_speed_mbps == Some(14000u32)
    &&& p.professional->0.storage.min_write_speed_mbps == Some(10000u32)
    &&& p.professional->0.network matches Some(net) && net.min_bandwidth_mbps == 100000 && texts(net.required_for_features@) =~= seq!["8K ST2110"@, "Multiple 4K streams"@] && net.latency_requirements == Some(100u32)
    &&& texts(p.professional->0.operating_system@) =~= seq!["Windows 11 Pro"@, "Ubuntu 22.04 LTS"@]
}

/// The built-in requirements of `phase2`.
fn phase2_requirements() -> (p: PhaseRequirements)
    ensures
        is_phase2_requirements(p),
{
    PhaseRequirements {
        phase_name: String::from_str("Phase 2: プロフェッショナル映像伝送"),
        description: String::from_str("SDI、NDI、SRT、SMPTE ST 2110対応"),
        minimum: RequirementSpec {
            cpu: CpuRequirement { min_cores: 8, min_frequency_mhz: 3000, required_features: vec![String::from_str("AVX2")], architectures: vec![String::from_str("x86_64")] },
            memory: MemoryRequirement { min_total_gb: 32, min_available_gb: 16, preferred_type: Some(String::from_str("DDR4")) },
            gpu: GpuRequirement {
                required: true,
                min_memory_gb: Some(8u64),
                supported_vendors: vec![String::from_str("NVIDIA"), String::from_str("AMD")],
                required_apis: vec![String::from_str("Vulkan")],
                min_vulkan_version: Some(String::from_str("1.3")),
                professional_features: vec![String::from_str("SDI"), String::from_str("NDI")],
            },
            storage: StorageRequirement { min_free_space_gb: 500, preferred_types: vec![DriveType::NVMe], min_read_speed_mbps: Some(2000u32), min_write_speed_mbps: Some(1000u32) },
            network: Some(NetworkRequirement { min_bandwidth_mbps: 10000, required_for_features: vec![String::from_str("NDI"), String::from_str("SRT"), String::from_str("ST2110")], latency_requirements: Some(1000) }),
            operating_system: vec![String::from_str("Windows 11 Pro"), String::from_str("Ubuntu 22.04 LTS")],
        },
        recommended: RequirementSpec {
            cpu: CpuRequirement { min_cores: 16, min_frequency_mhz: 3500, required_features: vec![String::from_str("AVX512")], architectures: vec![String::from_str("x86_64")] },
            memory: MemoryRequirement { min_total_gb: 64, min_available_gb: 32, preferred_type: Some(String::from_str("DDR5")) },
            gpu: GpuRequirement {
                required: true,
                min_memory_gb: Some(24u64),
                supported_vendors: vec![String::from_str("NVIDIA")],
                required_apis: vec![String::from_str("Vulkan")],
                min_vulkan_version: Some(String::from_str("1.3")),
                professional_features: vec![String::from_str("SDI"), String::from_str("NDI"), String::from_str("ST2110")],
            },
            storage: StorageRequirement { min_free_space_gb: 2000, preferred_types: vec![DriveType::NVMe], min_read_speed_mbps: Some(7000u32), min_write_speed_mbps: Some(5000u32) },
            network: Some(NetworkRequirement { min_bandwidth_mbps: 25000, required_for_features: vec![String::from_str("4K NDI"), String::from_str("ST2110")], latency_requirements: Some(500) }),
            operating_system: vec![String::from_str("Windows 11 Pro"), String::from_str("Ubuntu 22.04 LTS")],
        },
        professional: Some(RequirementSpec {
            cpu: CpuRequirement { min_cores: 32, min_frequency_mhz: 4000, required_features: vec![String::from_str("AVX512")], architectures: vec![String::from_str("x86_64")] },
            memory: MemoryRequirement { min_total_gb: 128, min_available_gb: 64, preferred_type: Some(String::from_str("DDR5")) },
            gpu: GpuRequirement {
                required: true,
                min_memory_gb: Some(48u64),
                supported_vendors: vec![String::from_str("NVIDIA")],
                required_apis: vec![String::from_str("Vulkan")],
                min_vulkan_version: Some(String::from_str("1.3")),
                professional_features: vec![String::from_str("Multiple SDI"), String::from_str("12G-SDI"), String::from_str("ST2110")],
            },
            storage: StorageRequirement { min_free_space_gb: 10000, preferred_types: vec![DriveType::NVMe], min_read_speed_mbps: Some(14000u32), min_write_speed_mbps: Some(10000u32) },
            network: Some(NetworkRequirement { min_bandwidth_mbps: 100000, required_for_features: vec![String::from_str("8K ST2110"), String::from_str("Multiple 4K streams")], latency_requirements: Some(100) }),
            operating_system: vec![String::from_str("Windows 11 Pro"), String::from_str("Ubuntu 22.04 LTS")],
        }),
    }
}
/// The built-in requirement table: `phase1` then `phase2`.
pub open spec fn is_standard_requirements(r: HardwareRequirements) -> bool {
    &&& r.phases@.len() == 2
    &&& r.phases@[0].0@ == "phase1"@
    &&& is_phase1_requirements(r.phases@[0].1)
    &&& r.phases@[1].0@ == "phase2"@
    &&& is_phase2_requirements(r.phases@[1].1)
}

/// The built-in requirement table.
pub fn load_hardware_requirements() -> (r: HardwareRequirements)
    ensures
        is_standard_requirements(r),
{
    let mut phases: Vec<(String, PhaseRequirements)> = Vec::new();
    phases.push((String::from_str("phase1"), phase1_requirements()));
    phases.push((String::from_str("phase2"), phase2_requirements()));
    HardwareRequirements { phases }
}

/// Bytes in one GiB.
pub const GIB: u64 = 1073741824;

/// Tenths of a GiB in `bytes`, rounded to the nearest, ties to even (as
/// `{:.1}` rounds).
pub open spec fn gib_tenths(bytes: nat) -> nat {
    let q = (bytes * 10) / 1073741824;
    let r = (bytes * 10) % 1073741824;
    if r * 2 > 1073741824 || (r * 2 == 1073741824 && q % 2 == 1) {
        q + 1
    } else {
        q
    }
}

/// `bytes` in GiB with one decimal, as `{:.1}` prints it.
pub open spec fn gib_text(bytes: nat) -> Seq<char> {
    decimal(gib_tenths(bytes) / 10) + "."@ + decimal(gib_tenths(bytes) % 10)
}

/// A whole number of GiB with one decimal.
pub open spec fn whole_gib_text(gb: nat) -> Seq<char> {
    decimal(gb) + ".0"@
}

/// The text of `bytes` in GiB with one decimal.
pub fn gib_text_of(bytes: u64) -> (s: String)
    ensures
        s@ == gib_text(bytes as nat),
{
    let scaled: u128 = (bytes as u128) * 10;
    let q: u128 = scaled / (GIB as u128);
    let r: u128 = scaled % (GIB as u128);
    let t: u128 = if r * 2 > GIB as u128 || (r * 2 == GIB as u128 && q % 2 == 1) {
        q + 1
    } else {
        q
    };
    assert(t == gib_tenths(bytes as nat));
    let whole: u64 = (t / 10) as u64;
    let frac: u64 = (t % 10) as u64;
    let mut s = decimal_text(whole);
    s.append(".");
    let f = decimal_text(frac);
    s.append(f.as_str());
    s
}

/// The text of a whole number of GiB with one decimal.
pub fn whole_gib_text_of(gb: u64) -> (s: String)
    ensures
        s@ == whole_gib_text(gb as nat),
{
    let mut s = decimal_text(gb);
    s.append(".0");
    s
}

/// The grade is at least adequate.
pub open spec fn meets_minimum(s: ComponentStatus) -> bool {
    s == ComponentStatus::Adequate || s == ComponentStatus::Good || s == ComponentStatus::Excellent
}

/// The report names `name` and carries exactly these status, details and advice.
pub open spec fn is_component_report(
    r: ComponentCompatibilityReport,
    name: Seq<char>,
    status: ComponentStatus,
    details: Seq<char>,
    advice: Seq<Seq<char>>,
) -> bool {
    &&& r.component_name@ == name
    &&& r.status == status
    &&& r.details@ == details
    &&& texts(r.recommendations@) =~= advice
}

/// Grade of a processor: too few cores or too low a clock is insufficient;
/// twice the cores at 1.5 times the clock is excellent; two more cores at 1.2
/// times the clock is good.
pub open spec fn cpu_status(cores: u32, mhz: u32, req: CpuRequirement) -> ComponentStatus {
    if cores < req.min_cores || mhz < req.min_frequency_mhz {
        ComponentStatus::Insufficient
    } else if cores >= 2 * req.min_cores && 2 * mhz >= 3 * req.min_frequency_mhz {
        ComponentStatus::Excellent
    } else if cores >= req.min_cores + 2 && 5 * mhz >= 6 * req.min_frequency_mhz {
        ComponentStatus::Good
    } else {
        ComponentStatus::Adequate
    }
}

/// The order of component grades, from insufficient (0) to excellent (3).
pub open spec fn grade_rank(s: ComponentStatus) -> int {
    match s {
        ComponentStatus::Excellent => 3,
        ComponentStatus::Good => 2,
        ComponentStatus::Adequate => 1,
        _ => 0,
    }
}

/// Grading a processor: it falls short of a requirement exactly when it has
/// fewer cores or a lower base clock than required, whatever else it has, and
/// exactly then the check gives advice; a processor with at least as many
/// cores and at least as high a clock as another never gets a lower grade.
pub proof fn lemma_cpu_grade(c1: u32, m1: u32, c2: u32, m2: u32, req: CpuRequirement)
    ensures
        cpu_status(c1, m1, req) is Insufficient <==> (c1 < req.min_cores || m1 < req.min_frequency_mhz),
        !(cpu_status(c1, m1, req) is Missing),
        cpu_advice(c1, m1, req).len() > 0 <==> cpu_status(c1, m1, req) is Insufficient,
        c1 <= c2 && m1 <= m2 ==> grade_rank(cpu_status(c1, m1, req)) <= grade_rank(cpu_status(c2, m2, req)),
{
}

/// Details of a processor check.
pub open spec fn cpu_details(cores: u32, mhz: u32, req: CpuRequirement) -> Seq<char> {
    if cores < req.min_cores {
        "コア数不足: "@ + decimal(cores as nat) + "コア (要求: "@ + decimal(req.min_cores as nat) + "コア)"@
    } else if mhz < req.min_frequency_mhz {
        "クロック周波数不足: "@ + decimal(mhz as nat) + "MHz (要求: "@ + decimal(
            req.min_frequency_mhz as nat,
        ) + "MHz)"@
    } else {
        decimal(cores as nat) + "コア, "@ + decimal(mhz as nat) + "MHz"@
    }
}

/// Advice of a processor check.
pub open spec fn cpu_advice(cores: u32, mhz: u32, req: CpuRequirement) -> Seq<Seq<char>> {
    if cores < req.min_cores {
        seq!["より多くのコアを持つCPUにアップグレードしてください"@]
    } else if mhz < req.min_frequency_mhz {
        seq!["より高いクロック周波数のCPUにアップグレードしてください"@]
    } else {
        Seq::empty()
    }
}

/// Grade of memory: short total or short available memory is insufficient;
/// twice the total is excellent, 1.5 times is good.
pub open spec fn memory_status(total: u64, available: u64, req: MemoryRequirement) -> ComponentStatus {
    if total < req.min_total_gb * GIB || available < req.min_available_gb * GIB {
        ComponentStatus::Insufficient
    } else if total >= 2 * req.min_total_gb * GIB {
        ComponentStatus::Excellent
    } else if 2 * total >= 3 * req.min_total_gb * GIB {
        ComponentStatus::Good
    } else {
        ComponentStatus::Adequate
    }
}

/// Details of a memory check.
pub open spec fn memory_details(total: u64, available: u64, req: MemoryRequirement) -> Seq<char> {
    if total < req.min_total_gb * GIB {
        "総メモリ不足: "@ + gib_text(total as nat) + "GB (要求: "@ + whole_gib_text(
            req.min_total_gb as nat,
        ) + "GB)"@
    } else if available < req.min_available_gb * GIB {
        "利用可能メモリ不足: "@ + gib_text(available as nat) + "GB (要求: "@ + whole_gib_text(
            req.min_available_gb as nat,
        ) + "GB)"@
    } else {
        gib_text(total as nat) + "GB 総容量, "@ + gib_text(available as nat) + "GB 利用可能"@
    }
}

/// Advice of a memory check.
pub open spec fn memory_advice(total: u64, available: u64, req: MemoryRequirement) -> Seq<Seq<char>> {
    if total < req.min_total_gb * GIB {
        seq!["メモリを増設してください"@]
    } else if available < req.min_available_gb * GIB {
        seq!["実行中のアプリケーションを終了するか、メモリを増設してください"@]
    } else {
        Seq::empty()
    }
}

/// The required graphics memory in GiB, zero when none is stated.
pub open spec fn min_gpu_gb(req: GpuRequirement) -> nat {
    match req.min_memory_gb {
        Some(g) => g as nat,
        None => 0,
    }
}

/// Grade of the graphics: only the first adapter is graded.
pub open spec fn gpu_status(gpus: Seq<GpuInfo>, req: GpuRequirement) -> ComponentStatus {
    if !req.required {
        ComponentStatus::Good
    } else if gpus.len() == 0 {
        ComponentStatus::Missing
    } else if gpus[0].memory_bytes < min_gpu_gb(req) * GIB {
        ComponentStatus::Insufficient
    } else if gpus[0].memory_bytes >= 2 * min_gpu_gb(req) * GIB {
        ComponentStatus::Excellent
    } else if 2 * gpus[0].memory_bytes >= 3 * min_gpu_gb(req) * GIB {
        ComponentStatus::Good
    } else {
        ComponentStatus::Adequate
    }
}

/// Details of a graphics check.
pub open spec fn gpu_details(gpus: Seq<GpuInfo>, req: GpuRequirement) -> Seq<char> {
    if !req.required {
        "GPU不要"@
    } else if gpus.len() == 0 {
        "GPUが検出されませんでした"@
    } else if gpus[0].memory_bytes < min_gpu_gb(req) * GIB {
        "VRAM不足: "@ + gib_text(gpus[0].memory_bytes as nat) + "GB (要求: "@ + whole_gib_text(
            min_gpu_gb(req),
        ) + "GB)"@
    } else {
        gpus[0].name@ + " - "@ + gib_text(gpus[0].memory_bytes as nat) + "GB VRAM"@
    }
}

/// Advice of a graphics check.
pub open spec fn gpu_advice(gpus: Seq<GpuInfo>, req: GpuRequirement) -> Seq<Seq<char>> {
    if !req.required {
        Seq::empty()
    } else if gpus.len() == 0 {
        seq!["専用GPUを搭載してください"@]
    } else if gpus[0].memory_bytes < min_gpu_gb(req) * GIB {
        seq!["より大きなVRAMを持つGPUにアップグレードしてください"@]
    } else {
        Seq::empty()
    }
}

/// Grade of storage: three times the free space is excellent, twice is good.
pub open spec fn storage_status(available: u64, req: StorageRequirement) -> ComponentStatus {
    if available < req.min_free_space_gb * GIB {
        ComponentStatus::Insufficient
    } else if available >= 3 * req.min_free_space_gb * GIB {
        ComponentStatus::Excellent
    } else if available >= 2 * req.min_free_space_gb * GIB {
        ComponentStatus::Good
    } else {
        ComponentStatus::Adequate
    }
}

/// Details of a storage check.
pub open spec fn storage_details(available: u64, req: StorageRequirement) -> Seq<char> {
    if available < req.min_free_space_gb * GIB {
        "空き容量不足: "@ + gib_text(available as nat) + "GB (要求: "@ + whole_gib_text(
            req.min_free_space_gb as nat,
        ) + "GB)"@
    } else {
        gib_text(available as nat) + "GB 利用可能"@
    }
}

/// Advice of a storage check.
pub open spec fn storage_advice(available: u64, req: StorageRequirement) -> Seq<Seq<char>> {
    if available < req.min_free_space_gb * GIB {
        seq!["ディスク容量を確保するか、より大きなストレージにアップグレードしてください"@]
    } else {
        Seq::empty()
    }
}

/// Result of checking one phase against its minimum requirements: the four
/// component reports, in the order cpu, memory, gpu, storage.
pub open spec fn is_phase_report(r: PhaseCompatibilityReport, sys: SystemInfo, req: PhaseRequirements) -> bool {
    let m = req.minimum;
    &&& r.phase_name@ == req.phase_name@
    &&& r.component_reports@.len() == 4
    &&& r.component_reports@[0].0@ == "cpu"@
    &&& is_component_report(
        r.component_reports@[0].1,
        "CPU"@,
        cpu_status(sys.cpu.cores, sys.cpu.base_frequency_mhz, m.cpu),
        cpu_details(sys.cpu.cores, sys.cpu.base_frequency_mhz, m.cpu),
        cpu_advice(sys.cpu.cores, sys.cpu.base_frequency_mhz, m.cpu),
    )
    &&& r.component_reports@[1].0@ == "memory"@
    &&& is_component_report(
        r.component_reports@[1].1,
        "Memory"@,
        memory_status(sys.memory.total_bytes, sys.memory.available_bytes, m.memory),
        memory_details(sys.memory.total_bytes, sys.memory.available_bytes, m.memory),
        memory_advice(sys.memory.total_bytes, sys.memory.available_bytes, m.memory),
    )
    &&& r.component_reports@[2].0@ == "gpu"@
    &&& is_component_report(
        r.component_reports@[2].1,
        "GPU"@,
        gpu_status(sys.gpu@, m.gpu),
        gpu_details(sys.gpu@, m.gpu),
        gpu_advice(sys.gpu@, m.gpu),
    )
    &&& r.component_reports@[3].0@ == "storage"@
    &&& is_component_report(
        r.component_reports@[3].1,
        "Storage"@,
        storage_status(sys.storage.available_space, m.storage),
        storage_details(sys.storage.available_space, m.storage),
        storage_advice(sys.storage.available_space, m.storage),
    )
    &&& r.minimum_met == phase_minimum_met(sys, req)
    &&& r.recommended_met == r.minimum_met
    &&& r.professional_met is None
    &&& r.compatibility == (if r.minimum_met {
        CompatibilityLevel::FullySupported
    } else {
        CompatibilityLevel::NotSupported
    })
}

/// The machine meets every minimum requirement of the phase.
pub open spec fn phase_minimum_met(sys: SystemInfo, req: PhaseRequirements) -> bool {
    let m = req.minimum;
    &&& meets_minimum(cpu_status(sys.cpu.cores, sys.cpu.base_frequency_mhz, m.cpu))
    &&& meets_minimum(memory_status(sys.memory.total_bytes, sys.memory.available_bytes, m.memory))
    &&& meets_minimum(gpu_status(sys.gpu@, m.gpu))
    &&& meets_minimum(storage_status(sys.storage.available_space, m.storage))
}

/// Identifiers of the phases whose minimum the machine meets, in table order.
pub open spec fn supported_ids(sys: SystemInfo, ps: Seq<(String, PhaseRequirements)>) -> Seq<Seq<char>>
    decreases ps.len(),
{
    if ps.len() == 0 {
        Seq::empty()
    } else {
        let rest = supported_ids(sys, ps.drop_last());
        if phase_minimum_met(sys, ps.last().1) {
            rest.push(ps.last().0@)
        } else {
            rest
        }
    }
}

/// One message for each phase whose minimum the machine misses, in table order.
pub open spec fn critical_issues_of(sys: SystemInfo, ps: Seq<(String, PhaseRequirements)>) -> Seq<Seq<char>>
    decreases ps.len(),
{
    if ps.len() == 0 {
        Seq::empty()
    } else {
        let rest = critical_issues_of(sys, ps.drop_last());
        if phase_minimum_met(sys, ps.last().1) {
            rest
        } else {
            rest.push(ps.last().1.phase_name@ + "の最小要件を満たしていません"@)
        }
    }
}

/// The general advice every report carries.
pub open spec fn standard_recommendations() -> Seq<Seq<char>> {
    seq![
        "定期的にシステムアップデートを実行してください"@,
        "未使用のアプリケーションを終了してリソースを確保してください"@,
        "プロフェッショナル用途では専用のワークステーションを推奨します"@,
    ]
}

/// The overall level: no phase met is not supported, every phase met is
/// fully supported, anything between is partially supported.
pub open spec fn overall_level(supported: nat, phases: nat) -> CompatibilityLevel {
    if supported == 0 {
        CompatibilityLevel::NotSupported
    } else if supported == phases {
        CompatibilityLevel::FullySupported
    } else {
        CompatibilityLevel::PartiallySupported
    }
}

/// The report of a full check of `sys` against the phases `ps`.
pub open spec fn is_full_report(r: CompatibilityReport, sys: SystemInfo, ps: Seq<(String, PhaseRequirements)>) -> bool {
    &&& texts(r.supported_phases@) =~= supported_ids(sys, ps)
    &&& r.phase_reports@.len() == ps.len()
    &&& forall|i: int|
        0 <= i < ps.len() ==> (#[trigger] r.phase_reports@[i]).0@ == ps[i].0@ && is_phase_report(
            r.phase_reports@[i].1,
            sys,
            ps[i].1,
        )
    &&& texts(r.recommendations@) =~= standard_recommendations()
    &&& r.warnings@.len() == 0
    &&& texts(r.critical_issues@) =~= critical_issues_of(sys, ps)
    &&& r.overall_compatibility == overall_level(supported_ids(sys, ps).len(), ps.len())
}

/// The default machine description on Linux: `cores` processors of the
/// given architecture and fixed figures for the rest.
pub open spec fn is_linux_system_info(s: SystemInfo, cores: u32, arch: Seq<char>) -> bool {
    &&& s.cpu.model@ == "Unknown"@ && s.cpu.vendor@ == "Unknown"@
    &&& s.cpu.cores == cores && s.cpu.threads == cores
    &&& s.cpu.base_frequency_mhz == 2800 && s.cpu.boost_frequency_mhz == Some(4200u32)
    &&& s.cpu.architecture@ == arch
    &&& texts(s.cpu.features@) =~= seq!["AVX2"@, "SSE4.2"@]
    &&& s.memory.total_bytes == 32 * GIB && s.memory.available_bytes == 16 * GIB
    &&& s.memory.memory_type@ == "DDR4"@ && s.memory.channels == 4
    &&& s.memory.speed_mhz == Some(3200u32)
    &&& s.gpu@.len() == 0
    &&& s.storage.drives@.len() == 0
    &&& s.storage.total_space == 2048 * GIB && s.storage.available_space == 1024 * GIB
    &&& s.network.interfaces@.len() == 0 && s.network.max_bandwidth_mbps == 10000
    &&& s.operating_system.name@ == "Linux"@ && s.operating_system.version@ == "Ubuntu 22.04"@
    &&& s.operating_system.architecture@ == arch
    &&& opt_text(s.operating_system.kernel_version) == Some("6.2.0"@)
    &&& s.display.monitors@.len() == 0
    &&& s.display.primary_resolution == (3840u32, 2160u32) && s.display.refresh_rate_hz == 144
}

/// The default machine description on Windows.
pub open spec fn is_windows_system_info(s: SystemInfo, cores: u32, arch: Seq<char>) -> bool {
    &&& s.cpu.model@ == "Unknown"@ && s.cpu.vendor@ == "Unknown"@
    &&& s.cpu.cores == cores && s.cpu.threads == cores
    &&& s.cpu.base_frequency_mhz == 2400 && s.cpu.boost_frequency_mhz is None
    &&& s.cpu.architecture@ == arch
    &&& s.cpu.features@.len() == 0
    &&& s.memory.total_bytes == 8 * GIB && s.memory.available_bytes == 4 * GIB
    &&& s.memory.memory_type@ == "DDR4"@ && s.memory.channels == 2
    &&& s.memory.speed_mhz == Some(3200u32)
    &&& s.gpu@.len() == 0
    &&& s.storage.drives@.len() == 0
    &&& s.storage.total_space == 1024 * GIB && s.storage.available_space == 512 * GIB
    &&& s.network.interfaces@.len() == 0 && s.network.max_bandwidth_mbps == 1000
    &&& s.operating_system.name@ == "Windows"@ && s.operating_system.version@ == "11"@
    &&& s.operating_system.architecture@ == arch
    &&& s.operating_system.kernel_version is None
    &&& s.display.monitors@.len() == 0
    &&& s.display.primary_resolution == (1920u32, 1080u32) && s.display.refresh_rate_hz == 60
}

/// The default machine description on macOS.
pub open spec fn is_macos_system_info(s: SystemInfo, cores: u32, arch: Seq<char>) -> bool {
    &&& s.cpu.model@ == "Unknown"@ && s.cpu.vendor@ == "Apple"@
    &&& s.cpu.cores == cores && s.cpu.threads == cores
    &&& s.cpu.base_frequency_mhz == 3000 && s.cpu.boost_frequency_mhz == Some(3500u32)
    &&& s.cpu.architecture@ == arch
    &&& texts(s.cpu.features@) =~= seq!["NEON"@]
    &&& s.memory.total_bytes == 16 * GIB && s.memory.available_bytes == 8 * GIB
    &&& s.memory.memory_type@ == "LPDDR5"@ && s.memory.channels == 2
    &&& s.memory.speed_mhz == Some(6400u32)
    &&& s.gpu@.len() == 0
    &&& s.storage.drives@.len() == 0
    &&& s.storage.total_space == 512 * GIB && s.storage.available_space == 256 * GIB
    &&& s.network.interfaces@.len() == 0 && s.network.max_bandwidth_mbps == 1000
    &&& s.operating_system.name@ == "macOS"@ && s.operating_system.version@ == "14.0"@
    &&& s.operating_system.architecture@ == arch
    &&& opt_text(s.operating_system.kernel_version) == Some("23.0.0"@)
    &&& s.display.monitors@.len() == 0
    &&& s.display.primary_resolution == (2560u32, 1600u32) && s.display.refresh_rate_hz == 60
}

/// The description used when detection fails: one core, no memory, no storage.
pub open spec fn is_fallback_system_info(s: SystemInfo) -> bool {
    &&& s.cpu.model@ == "Unknown"@ && s.cpu.vendor@ == "Unknown"@
    &&& s.cpu.cores == 1 && s.cpu.threads == 1
    &&& s.cpu.base_frequency_mhz == 1000 && s.cpu.boost_frequency_mhz is None
    &&& s.cpu.architecture@ == "unknown"@
    &&& s.cpu.features@.len() == 0
    &&& s.memory.total_bytes == 0 && s.memory.available_bytes == 0
    &&& s.memory.memory_type@ == "Unknown"@ && s.memory.channels == 1
    &&& s.memory.speed_mhz is None
    &&& s.gpu@.len() == 0
    &&& s.storage.drives@.len() == 0
    &&& s.storage.total_space == 0 && s.storage.available_space == 0
    &&& s.network.interfaces@.len() == 0 && s.network.max_bandwidth_mbps == 0
    &&& s.operating_system.name@ == "Unknown"@ && s.operating_system.version@ == "Unknown"@
    &&& s.operating_system.architecture@ == "unknown"@
    &&& s.operating_system.kernel_version is None
    &&& s.display.monitors@.len() == 0
    &&& s.display.primary_resolution == (800u32, 600u32) && s.display.refresh_rate_hz == 60
}

/// The number of processors the process may use, from `num_cpus::get`, which
/// its documentation says is always at least one.
#[verifier::external_body]
fn available_cpus() -> (n: usize)
    ensures
        n >= 1,
{
    num_cpus::get()
}

/// The Linux machine description for `cores` processors of architecture `arch`.
pub fn detect_linux_system_info(cores: u32, arch: &str) -> (s: SystemInfo)
    ensures
        is_linux_system_info(s, cores, arch@),
{
    SystemInfo {
        cpu: CpuInfo {
            model: String::from_str("Unknown"),
            vendor: String::from_str("Unknown"),
            cores: cores,
            threads: cores,
            base_frequency_mhz: 2800,
            boost_frequency_mhz: Some(4200),
            architecture: arch.to_string(),
            features: vec![String::from_str("AVX2"), String::from_str("SSE4.2")],
        },
        memory: MemoryInfo {
            total_bytes: 32 * GIB,
            available_bytes: 16 * GIB,
            memory_type: String::from_str("DDR4"),
            channels: 4,
            speed_mhz: Some(3200),
        },
        gpu: Vec::new(),
        storage: StorageInfo { drives: Vec::new(), total_space: 2048 * GIB, available_space: 1024 * GIB },
        network: NetworkInfo { interfaces: Vec::new(), max_bandwidth_mbps: 10000 },
        operating_system: OsInfo {
            name: String::from_str("Linux"),
            version: String::from_str("Ubuntu 22.04"),
            architecture: arch.to_string(),
            kernel_version: Some(String::from_str("6.2.0")),
        },
        display: DisplayInfo { monitors: Vec::new(), primary_resolution: (3840, 2160), refresh_rate_hz: 144 },
    }
}

/// The Windows machine description for `cores` processors of architecture `arch`.
pub fn detect_windows_system_info(cores: u32, arch: &str) -> (s: SystemInfo)
    ensures
        is_windows_system_info(s, cores, arch@),
{
    SystemInfo {
        cpu: CpuInfo {
            model: String::from_str("Unknown"),
            vendor: String::from_str("Unknown"),
            cores: cores,
            threads: cores,
            base_frequency_mhz: 2400,
            boost_frequency_mhz: None,
            architecture: arch.to_string(),
            features: vec![],
        },
        memory: MemoryInfo {
            total_bytes: 8 * GIB,
            available_bytes: 4 * GIB,
            memory_type: String::from_str("DDR4"),
            channels: 2,
            speed_mhz: Some(3200),
        },
        gpu: Vec::new(),
        storage: StorageInfo { drives: Vec::new(), total_space: 1024 * GIB, available_space: 512 * GIB },
        network: NetworkInfo { interfaces: Vec::new(), max_bandwidth_mbps: 1000 },
        operating_system: OsInfo {
            name: String::from_str("Windows"),
            version: String::from_str("11"),
            architecture: arch.to_string(),
            kernel_version: None,
        },
        display: DisplayInfo { monitors: Vec::new(), primary_resolution: (1920, 1080), refresh_rate_hz: 60 },
    }
}

/// The macOS machine description for `cores` processors of architecture `arch`.
pub fn detect_macos_system_info(cores: u32, arch: &str) -> (s: SystemInfo)
    ensures
        is_macos_system_info(s, cores, arch@),
{
    SystemInfo {
        cpu: CpuInfo {
            model: String::from_str("Unknown"),
            vendor: String::from_str("Apple"),
            cores: cores,
            threads: cores,
            base_frequency_mhz: 3000,
            boost_frequency_mhz: Some(3500),
            architecture: arch.to_string(),
            features: vec![String::from_str("NEON")],
        },
        memory: MemoryInfo {
            total_bytes: 16 * GIB,
            available_bytes: 8 * GIB,
            memory_type: String::from_str("LPDDR5"),
            channels: 2,
            speed_mhz: Some(6400),
        },
        gpu: Vec::new(),
        storage: StorageInfo { drives: Vec::new(), total_space: 512 * GIB, available_space: 256 * GIB },
        network: NetworkInfo { interfaces: Vec::new(), max_bandwidth_mbps: 1000 },
        operating_system: OsInfo {
            name: String::from_str("macOS"),
            version: String::from_str("14.0"),
            architecture: arch.to_string(),
            kernel_version: Some(String::from_str("23.0.0")),
        },
        display: DisplayInfo { monitors: Vec::new(), primary_resolution: (2560, 1600), refresh_rate_hz: 60 },
    }
}

/// The description used when detection fails.
pub fn fallback_system_info() -> (s: SystemInfo)
    ensures
        is_fallback_system_info(s),
{
    SystemInfo {
        cpu: CpuInfo {
            model: String::from_str("Unknown"),
            vendor: String::from_str("Unknown"),
            cores: 1,
            threads: 1,
            base_frequency_mhz: 1000,
            boost_frequency_mhz: None,
            architecture: String::from_str("unknown"),
            features: vec![],
        },
        memory: MemoryInfo {
            total_bytes: 0,
            available_bytes: 0,
            memory_type: String::from_str("Unknown"),
            channels: 1,
            speed_mhz: None,
        },
        gpu: Vec::new(),
        storage: StorageInfo { drives: Vec::new(), total_space: 0, available_space: 0 },
        network: NetworkInfo { interfaces: Vec::new(), max_bandwidth_mbps: 0 },
        operating_system: OsInfo {
            name: String::from_str("Unknown"),
            version: String::from_str("Unknown"),
            architecture: String::from_str("unknown"),
            kernel_version: None,
        },
        display: DisplayInfo { monitors: Vec::new(), primary_resolution: (800, 600), refresh_rate_hz: 60 },
    }
}

/// Checks the machine against the requirements of each phase.
pub struct HardwareCompatibilityChecker {
    pub system_info: SystemInfo,
    pub requirements: HardwareRequirements,
    pub compatibility_report: Option<CompatibilityReport>,
}

/// A list of string literals as owned strings.
fn owned_texts(a: &str, b: &str, c: &str) -> (v: Vec<String>)
    ensures
        texts(v@) =~= seq![a@, b@, c@],
{
    vec![a.to_string(), b.to_string(), c.to_string()]
}

impl HardwareCompatibilityChecker {
    /// A checker for this machine (`arch` is the architecture the program was
    /// built for) with the built-in requirement table and no report yet.
    pub fn new(arch: &str) -> (r: ConstellationResult<Self>)
        ensures
            r matches Ok(c) && is_linux_system_info(c.system_info, c.system_info.cpu.cores, arch@)
                && is_standard_requirements(c.requirements) && c.compatibility_report is None,
    {
        let system_info = Self::detect_system_info(arch)?;
        let requirements = load_hardware_requirements();
        Ok(HardwareCompatibilityChecker { system_info, requirements, compatibility_report: None })
    }

    /// A checker for this machine, or, should detection fail, for the
    /// fallback description.
    pub fn new_or_fallback(arch: &str) -> (c: Self)
        ensures
            is_linux_system_info(c.system_info, c.system_info.cpu.cores, arch@),
            is_standard_requirements(c.requirements),
            c.compatibility_report is None,
    {
        match Self::new(arch) {
            Ok(c) => c,
            Err(_) => HardwareCompatibilityChecker {
                system_info: fallback_system_info(),
                requirements: load_hardware_requirements(),
                compatibility_report: None,
            },
        }
    }

    /// The machine description for the platform this library describes
    /// (Linux), with the processor count of the running process.
    pub fn detect_system_info(arch: &str) -> (r: ConstellationResult<SystemInfo>)
        ensures
            r matches Ok(s) && is_linux_system_info(s, s.cpu.cores, arch@),
    {
        let n = available_cpus();
        Ok(detect_linux_system_info(n as u32, arch))
    }

    /// The general advice every report carries.
    pub fn generate_recommendations(&self) -> (v: Vec<String>)
        ensures
            texts(v@) =~= standard_recommendations(),
    {
        owned_texts(
            "定期的にシステムアップデートを実行してください",
            "未使用のアプリケーションを終了してリソースを確保してください",
            "プロフェッショナル用途では専用のワークステーションを推奨します",
        )
    }

    /// The machine description.
    pub fn get_system_info(&self) -> (s: &SystemInfo)
        ensures
            *s == self.system_info,
    {
        &self.system_info
    }

    /// The report of the last check, if any.
    pub fn get_compatibility_report(&self) -> (r: Option<&CompatibilityReport>)
        ensures
            r matches Some(x) ==> self.compatibility_report == Some(*x),
            r is None <==> self.compatibility_report is None,
    {
        match &self.compatibility_report {
            Some(x) => Some(x),
            None => None,
        }
    }

    /// Grade the processor against `req`.
    pub fn check_cpu_compatibility(&self, req: &CpuRequirement) -> (r: ComponentCompatibilityReport)
        ensures
            is_component_report(
                r,
                "CPU"@,
                cpu_status(self.system_info.cpu.cores, self.system_info.cpu.base_frequency_mhz, *req),
                cpu_details(self.system_info.cpu.cores, self.system_info.cpu.base_frequency_mhz, *req),
                cpu_advice(self.system_info.cpu.cores, self.system_info.cpu.base_frequency_mhz, *req),
            ),
            r.status is Insufficient <==> (self.system_info.cpu.cores < req.min_cores
                || self.system_info.cpu.base_frequency_mhz < req.min_frequency_mhz),
    {
        let cores = self.system_info.cpu.cores;
        let mhz = self.system_info.cpu.base_frequency_mhz;
        if cores < req.min_cores {
            let mut d = String::from_str("コア数不足: ");
            d.append(decimal_text(cores as u64).as_str());
            d.append("コア (要求: ");
            d.append(decimal_text(req.min_cores as u64).as_str());
            d.append("コア)");
            return ComponentCompatibilityReport {
                component_name: String::from_str("CPU"),
                status: ComponentStatus::Insufficient,
                details: d,
                recommendations: vec![String::from_str("より多くのコアを持つCPUにアップグレードしてください")],
            };
        }
        if mhz < req.min_frequency_mhz {
            let mut d = String::from_str("クロック周波数不足: ");
            d.append(decimal_text(mhz as u64).as_str());
            d.append("MHz (要求: ");
            d.append(decimal_text(req.min_frequency_mhz as u64).as_str());
            d.append("MHz)");
            return ComponentCompatibilityReport {
                component_name: String::from_str("CPU"),
                status: ComponentStatus::Insufficient,
                details: d,
                recommendations: vec![String::from_str("より高いクロック周波数のCPUにアップグレードしてください")],
            };
        }
        let c: u64 = cores as u64;
        let f: u64 = mhz as u64;
        let mc: u64 = req.min_cores as u64;
        let mf: u64 = req.min_frequency_mhz as u64;
        let status = if c >= 2 * mc && 2 * f >= 3 * mf {
            ComponentStatus::Excellent
        } else if c >= mc + 2 && 5 * f >= 6 * mf {
            ComponentStatus::Good
        } else {
            ComponentStatus::Adequate
        };
        let mut d = decimal_text(c);
        d.append("コア, ");
        d.append(decimal_text(f).as_str());
        d.append("MHz");
        ComponentCompatibilityReport {
            component_name: String::from_str("CPU"),
            status,
            details: d,
            recommendations: Vec::new(),
        }
    }

    /// Grade the memory against `req`.
    pub fn check_memory_compatibility(&self, req: &MemoryRequirement) -> (r: ComponentCompatibilityReport)
        ensures
            is_component_report(
                r,
                "Memory"@,
                memory_status(self.system_info.memory.total_bytes, self.system_info.memory.available_bytes, *req),
                memory_details(self.system_info.memory.total_bytes, self.system_info.memory.available_bytes, *req),
                memory_advice(self.system_info.memory.total_bytes, self.system_info.memory.available_bytes, *req),
            ),
    {
        let total = self.system_info.memory.total_bytes;
        let available = self.system_info.memory.available_bytes;
        let min_total: u128 = req.min_total_gb as u128 * GIB as u128;
        let min_avail: u128 = req.min_available_gb as u128 * GIB as u128;
        if (total as u128) < min_total {
            let mut d = String::from_str("総メモリ不足: ");
            d.append(gib_text_of(total).as_str());
            d.append("GB (要求: ");
            d.append(whole_gib_text_of(req.min_total_gb).as_str());
            d.append("GB)");
            return ComponentCompatibilityReport {
                component_name: String::from_str("Memory"),
                status: ComponentStatus::Insufficient,
                details: d,
                recommendations: vec![String::from_str("メモリを増設してください")],
            };
        }
        if (available as u128) < min_avail {
            let mut d = String::from_str("利用可能メモリ不足: ");
            d.append(gib_text_of(available).as_str());
            d.append("GB (要求: ");
            d.append(whole_gib_text_of(req.min_available_gb).as_str());
            d.append("GB)");
            return ComponentCompatibilityReport {
                component_name: String::from_str("Memory"),
                status: ComponentStatus::Insufficient,
                details: d,
                recommendations: vec![String::from_str("実行中のアプリケーションを終了するか、メモリを増設してください")],
            };
        }
        let t: u128 = total as u128;
        let status = if t >= 2 * min_total {
            ComponentStatus::Excellent
        } else if 2 * t >= 3 * min_total {
            ComponentStatus::Good
        } else {
            ComponentStatus::Adequate
        };
        let mut d = gib_text_of(total);
        d.append("GB 総容量, ");
        d.append(gib_text_of(available).as_str());
        d.append("GB 利用可能");
        ComponentCompatibilityReport {
            component_name: String::from_str("Memory"),
            status,
            details: d,
            recommendations: Vec::new(),
        }
    }

    /// Grade the graphics against `req`; only the first adapter is graded.
    pub fn check_gpu_compatibility(&self, req: &GpuRequirement) -> (r: ComponentCompatibilityReport)
        ensures
            is_component_report(
                r,
                "GPU"@,
                gpu_status(self.system_info.gpu@, *req),
                gpu_details(self.system_info.gpu@, *req),
                gpu_advice(self.system_info.gpu@, *req),
            ),
    {
        if !req.required {
            return ComponentCompatibilityReport {
                component_name: String::from_str("GPU"),
                status: ComponentStatus::Good,
                details: String::from_str("GPU不要"),
                recommendations: Vec::new(),
            };
        }
        if self.system_info.gpu.len() == 0 {
            return ComponentCompatibilityReport {
                component_name: String::from_str("GPU"),
                status: ComponentStatus::Missing,
                details: String::from_str("GPUが検出されませんでした"),
                recommendations: vec![String::from_str("専用GPUを搭載してください")],
            };
        }
        let gpu = &self.system_info.gpu[0];
        let mem = gpu.memory_bytes;
        let min_gb: u64 = match req.min_memory_gb {
            Some(g) => g,
            None => 0,
        };
        let min_bytes: u128 = min_gb as u128 * GIB as u128;
        if (mem as u128) < min_bytes {
            let mut d = String::from_str("VRAM不足: ");
            d.append(gib_text_of(mem).as_str());
            d.append("GB (要求: ");
            d.append(whole_gib_text_of(min_gb).as_str());
            d.append("GB)");
            return ComponentCompatibilityReport {
                component_name: String::from_str("GPU"),
                status: ComponentStatus::Insufficient,
                details: d,
                recommendations: vec![String::from_str("より大きなVRAMを持つGPUにアップグレードしてください")],
            };
        }
        let m: u128 = mem as u128;
        let status = if m >= 2 * min_bytes {
            ComponentStatus::Excellent
        } else if 2 * m >= 3 * min_bytes {
            ComponentStatus::Good
        } else {
            ComponentStatus::Adequate
        };
        let mut d = gpu.name.clone();
        d.append(" - ");
        d.append(gib_text_of(mem).as_str());
        d.append("GB VRAM");
        ComponentCompatibilityReport {
            component_name: String::from_str("GPU"),
            status,
            details: d,
            recommendations: Vec::new(),
        }
    }

    /// Grade the free storage against `req`.
    pub fn check_storage_compatibility(&self, req: &StorageRequirement) -> (r: ComponentCompatibilityReport)
        ensures
            is_component_report(
                r,
                "Storage"@,
                storage_status(self.system_info.storage.available_space, *req),
                storage_details(self.system_info.storage.available_space, *req),
                storage_advice(self.system_info.storage.available_space, *req),
            ),
    {
        let available = self.system_info.storage.available_space;
        let min_bytes: u128 = req.min_free_space_gb as u128 * GIB as u128;
        let a: u128 = available as u128;
        if a < min_bytes {
            let mut d = String::from_str("空き容量不足: ");
            d.append(gib_text_of(available).as_str());
            d.append("GB (要求: ");
            d.append(whole_gib_text_of(req.min_free_space_gb).as_str());
            d.append("GB)");
            return ComponentCompatibilityReport {
                component_name: String::from_str("Storage"),
                status: ComponentStatus::Insufficient,
                details: d,
                recommendations: vec![
                    String::from_str("ディスク容量を確保するか、より大きなストレージにアップグレードしてください"),
                ],
            };
        }
        let status = if a >= 3 * min_bytes {
            ComponentStatus::Excellent
        } else if a >= 2 * min_bytes {
            ComponentStatus::Good
        } else {
            ComponentStatus::Adequate
        };
        let mut d = gib_text_of(available);
        d.append("GB 利用可能");
        ComponentCompatibilityReport {
            component_name: String::from_str("Storage"),
            status,
            details: d,
            recommendations: Vec::new(),
        }
    }

    /// Grade the machine against the minimum requirements of one phase.
    pub fn check_phase_compatibility(&self, phase_req: &PhaseRequirements) -> (r: ConstellationResult<PhaseCompatibilityReport>)
        ensures
            r matches Ok(rep) && is_phase_report(rep, self.system_info, *phase_req),
    {
        let mut component_reports: Vec<(String, ComponentCompatibilityReport)> = Vec::new();
        let cpu_report = self.check_cpu_compatibility(&phase_req.minimum.cpu);
        let cpu_meets_min = match cpu_report.status {
            ComponentStatus::Adequate | ComponentStatus::Good | ComponentStatus::Excellent => true,
            _ => false,
        };
        component_reports.push((String::from_str("cpu"), cpu_report));
        let memory_report = self.check_memory_compatibility(&phase_req.minimum.memory);
        let memory_meets_min = match memory_report.status {
            ComponentStatus::Adequate | ComponentStatus::Good | ComponentStatus::Excellent => true,
            _ => false,
        };
        component_reports.push((String::from_str("memory"), memory_report));
        let gpu_report = self.check_gpu_compatibility(&phase_req.minimum.gpu);
        let gpu_meets_min = match gpu_report.status {
            ComponentStatus::Adequate | ComponentStatus::Good | ComponentStatus::Excellent => true,
            _ => false,
        };
        component_reports.push((String::from_str("gpu"), gpu_report));
        let storage_report = self.check_storage_compatibility(&phase_req.minimum.storage);
        let storage_meets_min = match storage_report.status {
            ComponentStatus::Adequate | ComponentStatus::Good | ComponentStatus::Excellent => true,
            _ => false,
        };
        component_reports.push((String::from_str("storage"), storage_report));
        let minimum_met = cpu_meets_min && memory_meets_min && gpu_meets_min && storage_meets_min;
        let recommended_met = minimum_met;
        let compatibility = if minimum_met {
            if recommended_met {
                CompatibilityLevel::FullySupported
            } else {
                CompatibilityLevel::Supported
            }
        } else {
            CompatibilityLevel::NotSupported
        };
        Ok(PhaseCompatibilityReport {
            phase_name: phase_req.phase_name.clone(),
            compatibility,
            minimum_met,
            recommended_met,
            professional_met: None,
            component_reports,
        })
    }

    /// Check every phase, keep the report, and return it.
    pub fn check_compatibility(&mut self) -> (r: ConstellationResult<&CompatibilityReport>)
        ensures
            final(self).system_info == old(self).system_info,
            final(self).requirements == old(self).requirements,
            final(self).compatibility_report matches Some(rep) && is_full_report(
                rep,
                old(self).system_info,
                old(self).requirements.phases@,
            ),
            r matches Ok(x) && final(self).compatibility_report == Some(*x),
    {
        let report = self.build_report();
        self.compatibility_report = Some(report);
        match &self.compatibility_report {
            Some(x) => Ok(x),
            None => Err(ConstellationError::InternalError { reason: String::from_str("no report") }),
        }
    }

    /// The report of a full check, without keeping it.
    fn build_report(&self) -> (rep: CompatibilityReport)
        ensures
            is_full_report(rep, self.system_info, self.requirements.phases@),
    {
        let ghost sys = self.system_info;
        let ghost ps = self.requirements.phases@;
        let mut phase_reports: Vec<(String, PhaseCompatibilityReport)> = Vec::new();
        let mut supported_phases: Vec<String> = Vec::new();
        let mut warnings: Vec<String> = Vec::new();
        let mut critical_issues: Vec<String> = Vec::new();
        let n = self.requirements.phases.len();
        let mut i: usize = 0;
        while i < n
            invariant
                n == ps.len(),
                ps == self.requirements.phases@,
                sys == self.system_info,
                i <= n,
                phase_reports@.len() == i,
                forall|k: int|
                    0 <= k < i ==> (#[trigger] phase_reports@[k]).0@ == ps[k].0@ && is_phase_report(
                        phase_reports@[k].1,
                        sys,
                        ps[k].1,
                    ),
                texts(supported_phases@) =~= supported_ids(sys, ps.take(i as int)),
                warnings@.len() == 0,
                texts(critical_issues@) =~= critical_issues_of(sys, ps.take(i as int)),
            decreases n - i,
        {
            let entry = &self.requirements.phases[i];
            let phase_id = &entry.0;
            let phase_req = &entry.1;
            proof {
                assert(ps.take(i + 1).drop_last() =~= ps.take(i as int));
                assert(ps.take(i + 1).last() == ps[i as int]);
            }
            let phase_report = match self.check_phase_compatibility(phase_req) {
                Ok(rep) => rep,
                Err(e) => {
                    return CompatibilityReport {
                        overall_compatibility: CompatibilityLevel::NotSupported,
                        supported_phases,
                        phase_reports,
                        recommendations: self.generate_recommendations(),
                        warnings,
                        critical_issues,
                    };
                }
            };
            if phase_report.minimum_met {
                supported_phases.push(phase_id.clone());
            }
            if !phase_report.minimum_met {
                let mut msg = phase_req.phase_name.clone();
                msg.append("の最小要件を満たしていません");
                critical_issues.push(msg);
            }
            if phase_report.minimum_met && !phase_report.recommended_met {
                let mut msg = phase_req.phase_name.clone();
                msg.append("の推奨要件を満たしていません");
                warnings.push(msg);
            }
            phase_reports.push((phase_id.clone(), phase_report));
            proof {
                assert forall|k: int|
                    0 <= k < i + 1 implies (#[trigger] phase_reports@[k]).0@ == ps[k].0@ && is_phase_report(
                        phase_reports@[k].1,
                        sys,
                        ps[k].1,
                    ) by {
                    if k == i {
                        assert(phase_reports@[k].1 == phase_report);
                    }
                }
            }
            i = i + 1;
        }
        proof {
            assert(ps.take(n as int) =~= ps);
        }
        let overall_compatibility = if supported_phases.len() == 0 {
            CompatibilityLevel::NotSupported
        } else if supported_phases.len() == n {
            CompatibilityLevel::FullySupported
        } else {
            CompatibilityLevel::PartiallySupported
        };
        CompatibilityReport {
            overall_compatibility,
            supported_phases,
            phase_reports,
            recommendations: self.generate_recommendations(),
            warnings,
            critical_issues,
        }
    }
}

} // verus!
