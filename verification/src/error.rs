use vstd::prelude::*;
use crate::ident::{NodeId, uuid_hyphenated, uuid_text};
use crate::text::{decimal, decimal_text, ids_debug, ids_debug_text};

verus! {

/// Errors of the processing engine, grouped by the part of the system they come from.
#[derive(Debug, Clone)]
pub enum ConstellationError {
    EngineInitializationFailed { reason: String },
    EngineNotRunning,
    EngineAlreadyRunning,
    NodeNotFound { node_id: NodeId },
    InvalidNodeType { node_type: String },
    NodeCreationFailed { reason: String },
    NodeProcessingFailed { node_id: NodeId, reason: String },
    InvalidConnection { source_id: NodeId, target_id: NodeId, connection_type: String },
    ConnectionCycleDetected { path: Vec<NodeId> },
    FrameProcessingFailed { reason: String },
    InvalidFrameFormat { expected: String, actual: String },
    FrameDataCorrupted { details: String },
    FrameProcessingTimeout { timeout_ms: u64 },
    InsufficientMemory { required_bytes: u64 },
    ResourceAllocationFailed { resource_type: String },
    ResourceLimitExceeded { resource: String, current: u64, limit: u64 },
    HardwareNotSupported { hardware: String },
    DriverIncompatible { driver: String, version: String },
    DeviceAccessFailed { device: String, reason: String },
    GpuProcessingFailed { reason: String },
    NetworkConnectionFailed { endpoint: String },
    DataTransmissionFailed { reason: String },
    ProtocolVersionMismatch { expected: String, actual: String },
    FileNotFound { path: String },
    FileFormatNotSupported { format: String },
    FileIoFailed { path: String, reason: String },
    InsufficientDiskSpace { required_bytes: u64 },
    InvalidParameter { parameter: String, value: String },
    ParameterOutOfRange { parameter: String, value: String, min: String, max: String },
    ConfigurationError { reason: String },
    PlatformNotSupported { platform: String },
    PlatformSpecificError { platform: String, reason: String },
    PermissionDenied { operation: String },
    LicenseValidationFailed { reason: String },
    InternalError { reason: String },
    ExternalLibraryError { library: String, reason: String },
    Unknown { reason: String },
}

/// How serious an error is.
#[derive(Debug, Clone, Copy, PartialEq, Eq, Structural)]
pub enum ErrorSeverity {
    /// No effect on operation.
    Info,
    /// A minor problem.
    Warning,
    /// A feature is affected.
    Error,
    /// The system has to stop.
    Critical,
}

/// The part of the system an error comes from.
#[derive(Debug, Clone, Copy, PartialEq, Eq, Structural)]
pub enum ErrorCategory {
    System,
    Node,
    Frame,
    Resource,
    Hardware,
    Network,
    FileIo,
    Configuration,
    Platform,
    Security,
    Unknown,
}

impl ConstellationError {
    /// The text of the error, as its `Display` renders it.
    pub open spec fn spec_message(&self) -> Seq<char> {
        match self {
            ConstellationError::EngineInitializationFailed { reason } => "Engine initialization failed: "@ + reason@,
            ConstellationError::EngineNotRunning => "Engine is not running"@,
            ConstellationError::EngineAlreadyRunning => "Engine is already running"@,
            ConstellationError::NodeNotFound { node_id } => "Node not found: "@ + uuid_hyphenated(*node_id),
            ConstellationError::InvalidNodeType { node_type } => "Invalid node type: "@ + node_type@,
            ConstellationError::NodeCreationFailed { reason } => "Node creation failed: "@ + reason@,
            ConstellationError::NodeProcessingFailed { node_id, reason } => "Node processing failed: "@ + uuid_hyphenated(*node_id) + " - "@ + reason@,
            ConstellationError::InvalidConnection { source_id, target_id, connection_type } => "Invalid connection: "@ + uuid_hyphenated(*source_id) + " -> "@ + uuid_hyphenated(*target_id) + " ("@ + connection_type@ + ")"@,
            ConstellationError::ConnectionCycleDetected { path } => "Connection cycle detected: "@ + ids_debug(path@),
            ConstellationError::FrameProcessingFailed { reason } => "Frame processing failed: "@ + reason@,
            ConstellationError::InvalidFrameFormat { expected, actual } => "Invalid frame format: expected "@ + expected@ + ", got "@ + actual@,
            ConstellationError::FrameDataCorrupted { details } => "Frame data corrupted: "@ + details@,
            ConstellationError::FrameProcessingTimeout { timeout_ms } => "Frame processing timeout: "@ + decimal(*timeout_ms as nat) + "ms"@,
            ConstellationError::InsufficientMemory { required_bytes } => "Insufficient memory: required "@ + decimal(*required_bytes as nat) + " bytes"@,
            ConstellationError::ResourceAllocationFailed { resource_type } => "Resource allocation failed: "@ + resource_type@,
            ConstellationError::ResourceLimitExceeded { resource, current, limit } => "Resource limit exceeded: "@ + resource@ + " ("@ + decimal(*current as nat) + "/"@ + decimal(*limit as nat) + ")"@,
            ConstellationError::HardwareNotSupported { hardware } => "Hardware not supported: "@ + hardware@,
            ConstellationError::DriverIncompatible { driver, version } => "Driver incompatible: "@ + driver@ + " version "@ + version@,
            ConstellationError::DeviceAccessFailed { device, reason } => "Device access failed: "@ + device@ + " - "@ + reason@,
            ConstellationError::GpuProcessingFailed { reason } => "GPU processing failed: "@ + reason@,
            ConstellationError::NetworkConnectionFailed { endpoint } => "Network connection failed: "@ + endpoint@,
            ConstellationError::DataTransmissionFailed { reason } => "Data transmission failed: "@ + reason@,
            ConstellationError::ProtocolVersionMismatch { expected, actual } => "Protocol version mismatch: expected "@ + expected@ + ", got "@ + actual@,
            ConstellationError::FileNotFound { path } => "File not found: "@ + path@,
            ConstellationError::FileFormatNotSupported { format } => "File format not supported: "@ + format@,
            ConstellationError::FileIoFailed { path, reason } => "File read/write failed: "@ + path@ + " - "@ + reason@,
            ConstellationError::InsufficientDiskSpace { required_bytes } => "Insufficient disk space: required "@ + decimal(*required_bytes as nat) + " bytes"@,
            ConstellationError::InvalidParameter { parameter, value } => "Invalid parameter: "@ + parameter@ + " = "@ + value@,
            ConstellationError::ParameterOutOfRange { parameter, value, min, max } => "Parameter out of range: "@ + parameter@ + " = "@ + value@ + " (range: "@ + min@ + "-"@ + max@ + ")"@,
            ConstellationError::ConfigurationError { reason } => "Configuration error: "@ + reason@,
            ConstellationError::PlatformNotSupported { platform } => "Platform not supported: "@ + platform@,
            ConstellationError::PlatformSpecificError { platform, reason } => "Platform-specific error ("@ + platform@ + "): "@ + reason@,
            ConstellationError::PermissionDenied { operation } => "Permission denied: "@ + operation@,
            ConstellationError::LicenseValidationFailed { reason } => "License validation failed: "@ + reason@,
            ConstellationError::InternalError { reason } => "Internal error: "@ + reason@,
            ConstellationError::ExternalLibraryError { library, reason } => "External library error: "@ + library@ + " - "@ + reason@,
            ConstellationError::Unknown { reason } => "Unknown error: "@ + reason@,
        }
    }

    /// The text of the error, as its `Display` renders it.
    pub fn message(&self) -> (s: String)
        ensures
            s@ == self.spec_message(),
    {
        match self {
            ConstellationError::EngineInitializationFailed { reason } => {
                let mut s = String::from_str("Engine initialization failed: ");
                s.append(reason.as_str());
                s
            },
            ConstellationError::EngineNotRunning => String::from_str("Engine is not running"),
            ConstellationError::EngineAlreadyRunning => String::from_str("Engine is already running"),
            ConstellationError::NodeNotFound { node_id } => {
                let mut s = String::from_str("Node not found: ");
                s.append(uuid_text(*node_id).as_str());
                s
            },
            ConstellationError::InvalidNodeType { node_type } => {
                let mut s = String::from_str("Invalid node type: ");
                s.append(node_type.as_str());
                s
            },
            ConstellationError::NodeCreationFailed { reason } => {
                let mut s = String::from_str("Node creation failed: ");
                s.append(reason.as_str());
                s
            },
            ConstellationError::NodeProcessingFailed { node_id, reason } => {
                let mut s = String::from_str("Node processing failed: ");
                s.append(uuid_text(*node_id).as_str());
                s.append(" - ");
                s.append(reason.as_str());
                s
            },
            ConstellationError::InvalidConnection { source_id, target_id, connection_type } => {
                let mut s = String::from_str("Invalid connection: ");
                s.append(uuid_text(*source_id).as_str());
                s.append(" -> ");
                s.append(uuid_text(*target_id).as_str());
                s.append(" (");
                s.append(connection_type.as_str());
                s.append(")");
                s
            },
            ConstellationError::ConnectionCycleDetected { path } => {
                let mut s = String::from_str("Connection cycle detected: ");
                s.append(ids_debug_text(path).as_str());
                s
            },
            ConstellationError::FrameProcessingFailed { reason } => {
                let mut s = String::from_str("Frame processing failed: ");
                s.append(reason.as_str());
                s
            },
            ConstellationError::InvalidFrameFormat { expected, actual } => {
                let mut s = String::from_str("Invalid frame format: expected ");
                s.append(expected.as_str());
                s.append(", got ");
                s.append(actual.as_str());
                s
            },
            ConstellationError::FrameDataCorrupted { details } => {
                let mut s = String::from_str("Frame data corrupted: ");
                s.append(details.as_str());
                s
            },
            ConstellationError::FrameProcessingTimeout { timeout_ms } => {
                let mut s = String::from_str("Frame processing timeout: ");
                s.append(decimal_text(*timeout_ms).as_str());
                s.append("ms");
                s
            },
            ConstellationError::InsufficientMemory { required_bytes } => {
                let mut s = String::from_str("Insufficient memory: required ");
                s.append(decimal_text(*required_bytes).as_str());
                s.append(" bytes");
                s
            },
            ConstellationError::ResourceAllocationFailed { resource_type } => {
                let mut s = String::from_str("Resource allocation failed: ");
                s.append(resource_type.as_str());
                s
            },
            ConstellationError::ResourceLimitExceeded { resource, current, limit } => {
                let mut s = String::from_str("Resource limit exceeded: ");
                s.append(resource.as_str());
                s.append(" (");
                s.append(decimal_text(*current).as_str());
                s.append("/");
                s.append(decimal_text(*limit).as_str());
                s.append(")");
                s
            },
            ConstellationError::HardwareNotSupported { hardware } => {
                let mut s = String::from_str("Hardware not supported: ");
                s.append(hardware.as_str());
                s
            },
            ConstellationError::DriverIncompatible { driver, version } => {
                let mut s = String::from_str("Driver incompatible: ");
                s.append(driver.as_str());
                s.append(" version ");
                s.append(version.as_str());
                s
            },
            ConstellationError::DeviceAccessFailed { device, reason } => {
                let mut s = String::from_str("Device access failed: ");
                s.append(device.as_str());
                s.append(" - ");
                s.append(reason.as_str());
                s
            },
            ConstellationError::GpuProcessingFailed { reason } => {
                let mut s = String::from_str("GPU processing failed: ");
                s.append(reason.as_str());
                s
            },
            ConstellationError::NetworkConnectionFailed { endpoint } => {
                let mut s = String::from_str("Network connection failed: ");
                s.append(endpoint.as_str());
                s
            },
            ConstellationError::DataTransmissionFailed { reason } => {
                let mut s = String::from_str("Data transmission failed: ");
                s.append(reason.as_str());
                s
            },
            ConstellationError::ProtocolVersionMismatch { expected, actual } => {
                let mut s = String::from_str("Protocol version mismatch: expected ");
                s.append(expected.as_str());
                s.append(", got ");
                s.append(actual.as_str());
                s
            },
            ConstellationError::FileNotFound { path } => {
                let mut s = String::from_str("File not found: ");
                s.append(path.as_str());
                s
            },
            ConstellationError::FileFormatNotSupported { format } => {
                let mut s = String::from_str("File format not supported: ");
                s.append(format.as_str());
                s
            },
            ConstellationError::FileIoFailed { path, reason } => {
                let mut s = String::from_str("File read/write failed: ");
                s.append(path.as_str());
                s.append(" - ");
                s.append(reason.as_str());
                s
            },
            ConstellationError::InsufficientDiskSpace { required_bytes } => {
                let mut s = String::from_str("Insufficient disk space: required ");
                s.append(decimal_text(*required_bytes).as_str());
                s.append(" bytes");
                s
            },
            ConstellationError::InvalidParameter { parameter, value } => {
                let mut s = String::from_str("Invalid parameter: ");
                s.append(parameter.as_str());
                s.append(" = ");
                s.append(value.as_str());
                s
            },
            ConstellationError::ParameterOutOfRange { parameter, value, min, max } => {
                let mut s = String::from_str("Parameter out of range: ");
                s.append(parameter.as_str());
                s.append(" = ");
                s.append(value.as_str());
                s.append(" (range: ");
                s.append(min.as_str());
                s.append("-");
                s.append(max.as_str());
                s.append(")");
                s
            },
            ConstellationError::ConfigurationError { reason } => {
                let mut s = String::from_str("Configuration error: ");
                s.append(reason.as_str());
                s
            },
            ConstellationError::PlatformNotSupported { platform } => {
                let mut s = String::from_str("Platform not supported: ");
                s.append(platform.as_str());
                s
            },
            ConstellationError::PlatformSpecificError { platform, reason } => {
                let mut s = String::from_str("Platform-specific error (");
                s.append(platform.as_str());
                s.append("): ");
                s.append(reason.as_str());
                s
            },
            ConstellationError::PermissionDenied { operation } => {
                let mut s = String::from_str("Permission denied: ");
                s.append(operation.as_str());
                s
            },
            ConstellationError::LicenseValidationFailed { reason } => {
                let mut s = String::from_str("License validation failed: ");
                s.append(reason.as_str());
                s
            },
            ConstellationError::InternalError { reason } => {
                let mut s = String::from_str("Internal error: ");
                s.append(reason.as_str());
                s
            },
            ConstellationError::ExternalLibraryError { library, reason } => {
                let mut s = String::from_str("External library error: ");
                s.append(library.as_str());
                s.append(" - ");
                s.append(reason.as_str());
                s
            },
            ConstellationError::Unknown { reason } => {
                let mut s = String::from_str("Unknown error: ");
                s.append(reason.as_str());
                s
            },
        }
    }

    /// The severity of each kind of error.
    pub open spec fn spec_severity(&self) -> ErrorSeverity {
        match self {
            ConstellationError::EngineInitializationFailed { .. }
            | ConstellationError::InsufficientMemory { .. }
            | ConstellationError::HardwareNotSupported { .. }
            | ConstellationError::DriverIncompatible { .. } => ErrorSeverity::Critical,
            ConstellationError::NodeNotFound { .. }
            | ConstellationError::InvalidConnection { .. }
            | ConstellationError::FrameProcessingFailed { .. }
            | ConstellationError::DeviceAccessFailed { .. }
            | ConstellationError::FileNotFound { .. } => ErrorSeverity::Error,
            ConstellationError::NodeProcessingFailed { .. }
            | ConstellationError::FrameProcessingTimeout { .. }
            | ConstellationError::ResourceLimitExceeded { .. } => ErrorSeverity::Warning,
            _ => ErrorSeverity::Info,
        }
    }

    /// The severity of the error.
    pub fn severity(&self) -> (s: ErrorSeverity)
        ensures
            s == self.spec_severity(),
            s is Critical <==> (self is EngineInitializationFailed || self is InsufficientMemory
                || self is HardwareNotSupported || self is DriverIncompatible),
    {
        match self {
            ConstellationError::EngineInitializationFailed { .. }
            | ConstellationError::InsufficientMemory { .. }
            | ConstellationError::HardwareNotSupported { .. }
            | ConstellationError::DriverIncompatible { .. } => ErrorSeverity::Critical,
            ConstellationError::NodeNotFound { .. }
            | ConstellationError::InvalidConnection { .. }
            | ConstellationError::FrameProcessingFailed { .. }
            | ConstellationError::DeviceAccessFailed { .. }
            | ConstellationError::FileNotFound { .. } => ErrorSeverity::Error,
            ConstellationError::NodeProcessingFailed { .. }
            | ConstellationError::FrameProcessingTimeout { .. }
            | ConstellationError::ResourceLimitExceeded { .. } => ErrorSeverity::Warning,
            _ => ErrorSeverity::Info,
        }
    }

    /// The category of each kind of error.
    pub open spec fn spec_category(&self) -> ErrorCategory {
        match self {
            ConstellationError::EngineInitializationFailed { .. }
            | ConstellationError::EngineNotRunning
            | ConstellationError::EngineAlreadyRunning => ErrorCategory::System,
            ConstellationError::NodeNotFound { .. }
            | ConstellationError::InvalidNodeType { .. }
            | ConstellationError::NodeCreationFailed { .. }
            | ConstellationError::NodeProcessingFailed { .. }
            | ConstellationError::InvalidConnection { .. }
            | ConstellationError::ConnectionCycleDetected { .. } => ErrorCategory::Node,
            ConstellationError::FrameProcessingFailed { .. }
            | ConstellationError::InvalidFrameFormat { .. }
            | ConstellationError::FrameDataCorrupted { .. }
            | ConstellationError::FrameProcessingTimeout { .. } => ErrorCategory::Frame,
            ConstellationError::InsufficientMemory { .. }
            | ConstellationError::ResourceAllocationFailed { .. }
            | ConstellationError::ResourceLimitExceeded { .. } => ErrorCategory::Resource,
            ConstellationError::HardwareNotSupported { .. }
            | ConstellationError::DriverIncompatible { .. }
            | ConstellationError::DeviceAccessFailed { .. }
            | ConstellationError::GpuProcessingFailed { .. } => ErrorCategory::Hardware,
            ConstellationError::NetworkConnectionFailed { .. }
            | ConstellationError::DataTransmissionFailed { .. }
            | ConstellationError::ProtocolVersionMismatch { .. } => ErrorCategory::Network,
            ConstellationError::FileNotFound { .. }
            | ConstellationError::FileFormatNotSupported { .. }
            | ConstellationError::FileIoFailed { .. }
            | ConstellationError::InsufficientDiskSpace { .. } => ErrorCategory::FileIo,
            ConstellationError::InvalidParameter { .. }
            | ConstellationError::ParameterOutOfRange { .. }
            | ConstellationError::ConfigurationError { .. } => ErrorCategory::Configuration,
            ConstellationError::PlatformNotSupported { .. }
            | ConstellationError::PlatformSpecificError { .. } => ErrorCategory::Platform,
            ConstellationError::PermissionDenied { .. }
            | ConstellationError::LicenseValidationFailed { .. } => ErrorCategory::Security,
            ConstellationError::InternalError { .. }
            | ConstellationError::ExternalLibraryError { .. }
            | ConstellationError::Unknown { .. } => ErrorCategory::Unknown,
        }
    }

    /// The category of the error.
    pub fn category(&self) -> (c: ErrorCategory)
        ensures
            c == self.spec_category(),
    {
        match self {
            ConstellationError::EngineInitializationFailed { .. }
            | ConstellationError::EngineNotRunning
            | ConstellationError::EngineAlreadyRunning => ErrorCategory::System,
            ConstellationError::NodeNotFound { .. }
            | ConstellationError::InvalidNodeType { .. }
            | ConstellationError::NodeCreationFailed { .. }
            | ConstellationError::NodeProcessingFailed { .. }
            | ConstellationError::InvalidConnection { .. }
            | ConstellationError::ConnectionCycleDetected { .. } => ErrorCategory::Node,
            ConstellationError::FrameProcessingFailed { .. }
            | ConstellationError::InvalidFrameFormat { .. }
            | ConstellationError::FrameDataCorrupted { .. }
            | ConstellationError::FrameProcessingTimeout { .. } => ErrorCategory::Frame,
            ConstellationError::InsufficientMemory { .. }
            | ConstellationError::ResourceAllocationFailed { .. }
            | ConstellationError::ResourceLimitExceeded { .. } => ErrorCategory::Resource,
            ConstellationError::HardwareNotSupported { .. }
            | ConstellationError::DriverIncompatible { .. }
            | ConstellationError::DeviceAccessFailed { .. }
            | ConstellationError::GpuProcessingFailed { .. } => ErrorCategory::Hardware,
            ConstellationError::NetworkConnectionFailed { .. }
            | ConstellationError::DataTransmissionFailed { .. }
            | ConstellationError::ProtocolVersionMismatch { .. } => ErrorCategory::Network,
            ConstellationError::FileNotFound { .. }
            | ConstellationError::FileFormatNotSupported { .. }
            | ConstellationError::FileIoFailed { .. }
            | ConstellationError::InsufficientDiskSpace { .. } => ErrorCategory::FileIo,
            ConstellationError::InvalidParameter { .. }
            | ConstellationError::ParameterOutOfRange { .. }
            | ConstellationError::ConfigurationError { .. } => ErrorCategory::Configuration,
            ConstellationError::PlatformNotSupported { .. }
            | ConstellationError::PlatformSpecificError { .. } => ErrorCategory::Platform,
            ConstellationError::PermissionDenied { .. }
            | ConstellationError::LicenseValidationFailed { .. } => ErrorCategory::Security,
            ConstellationError::InternalError { .. }
            | ConstellationError::ExternalLibraryError { .. }
            | ConstellationError::Unknown { .. } => ErrorCategory::Unknown,
        }
    }

    /// The message shown to users: a fixed explanation for the common errors,
    /// the error's own text otherwise.
    pub open spec fn spec_user_message(&self) -> Seq<char> {
        match self {
            ConstellationError::EngineInitializationFailed { .. } =>
                "システムの初期化に失敗しました。ドライバーを確認してください。"@,
            ConstellationError::NodeNotFound { .. } => "指定されたノードが見つかりません。"@,
            ConstellationError::InvalidConnection { .. } =>
                "ノードの接続が無効です。接続タイプを確認してください。"@,
            ConstellationError::FrameProcessingFailed { .. } => "映像処理中にエラーが発生しました。"@,
            ConstellationError::InsufficientMemory { .. } =>
                "メモリが不足しています。解像度を下げるか他のアプリケーションを終了してください。"@,
            ConstellationError::HardwareNotSupported { .. } =>
                "お使いのハードウェアはサポートされていません。"@,
            ConstellationError::FileNotFound { path } => "ファイルが見つかりません: "@ + path@,
            ConstellationError::PermissionDenied { operation } => operation@
                + "の権限がありません。アプリケーションに必要な権限を付与してください。"@,
            _ => self.spec_message(),
        }
    }

    /// The message shown to users.
    pub fn user_message(&self) -> (s: String)
        ensures
            s@ == self.spec_user_message(),
    {
        match self {
            ConstellationError::EngineInitializationFailed { .. } => String::from_str(
                "システムの初期化に失敗しました。ドライバーを確認してください。",
            ),
            ConstellationError::NodeNotFound { .. } => String::from_str(
                "指定されたノードが見つかりません。",
            ),
            ConstellationError::InvalidConnection { .. } => String::from_str(
                "ノードの接続が無効です。接続タイプを確認してください。",
            ),
            ConstellationError::FrameProcessingFailed { .. } => String::from_str(
                "映像処理中にエラーが発生しました。",
            ),
            ConstellationError::InsufficientMemory { .. } => String::from_str(
                "メモリが不足しています。解像度を下げるか他のアプリケーションを終了してください。",
            ),
            ConstellationError::HardwareNotSupported { .. } => String::from_str(
                "お使いのハードウェアはサポートされていません。",
            ),
            ConstellationError::FileNotFound { path } => {
                let mut s = String::from_str("ファイルが見つかりません: ");
                s.append(path.as_str());
                s
            },
            ConstellationError::PermissionDenied { operation } => {
                let mut s = String::new();
                s.append(operation.as_str());
                s.append("の権限がありません。アプリケーションに必要な権限を付与してください。");
                s
            },
            _ => self.message(),
        }
    }

    /// Which errors the system can recover from.
    pub open spec fn spec_is_recoverable(&self) -> bool {
        match self {
            ConstellationError::EngineInitializationFailed { .. }
            | ConstellationError::HardwareNotSupported { .. }
            | ConstellationError::DriverIncompatible { .. }
            | ConstellationError::PlatformNotSupported { .. } => false,
            _ => true,
        }
    }

    /// Whether the system can recover from the error.
    pub fn is_recoverable(&self) -> (b: bool)
        ensures
            b == self.spec_is_recoverable(),
    {
        match self {
            ConstellationError::EngineInitializationFailed { .. }
            | ConstellationError::HardwareNotSupported { .. }
            | ConstellationError::DriverIncompatible { .. }
            | ConstellationError::PlatformNotSupported { .. } => false,
            ConstellationError::NodeProcessingFailed { .. }
            | ConstellationError::FrameProcessingTimeout { .. }
            | ConstellationError::NetworkConnectionFailed { .. }
            | ConstellationError::DeviceAccessFailed { .. } => true,
            _ => true,
        }
    }
}

/// Result of engine operations.
pub type ConstellationResult<T> = Result<T, ConstellationError>;

/// The severity classes of engine errors: the critical ones are exactly a
/// failed engine start, short memory, unsupported hardware and an
/// incompatible driver; errors proper are a missing node, an invalid
/// connection, a failed frame, a device that cannot be reached and a missing
/// file; warnings are a failed node, a frame timeout and an exceeded resource
/// limit; everything else is informational. Every critical error other than
/// short memory is one the system cannot recover from.
pub proof fn lemma_severity_classes(e: ConstellationError)
    ensures
        e.spec_severity() is Critical <==> (e is EngineInitializationFailed || e is InsufficientMemory
            || e is HardwareNotSupported || e is DriverIncompatible),
        e.spec_severity() is Error <==> (e is NodeNotFound || e is InvalidConnection || e is FrameProcessingFailed
            || e is DeviceAccessFailed || e is FileNotFound),
        e.spec_severity() is Warning <==> (e is NodeProcessingFailed || e is FrameProcessingTimeout
            || e is ResourceLimitExceeded),
        e.spec_severity() is Critical && !(e is InsufficientMemory) ==> !e.spec_is_recoverable(),
{
}

} // verus!
