use constellation::engine::{
    check_hardware_admission, engine_error, frame_error_step, next_retry_delay, retry_exhausted,
    ConstellationEngine, FrameErrorStep, FrameProcessor,
};
use constellation::error::{ConstellationError, ErrorCategory, ErrorSeverity};
use constellation::graph::{Node, NodeGraph};
use constellation::hardware::{
    load_hardware_requirements, CompatibilityLevel, ComponentStatus, CpuRequirement, GpuInfo,
    GpuRequirement, HardwareCompatibilityChecker, MemoryRequirement, StorageRequirement,
    detect_linux_system_info, gib_text_of, GIB,
};
use constellation::params::{NodeConfig, ParamValue, ParameterDefinition, ParameterType};
use constellation::processors::{AudioProcessor, Scene3DProcessor};
use constellation::resilience::{HealthMonitor, PerformanceMonitor, RecoveryAction, ResilienceManager};
use constellation::tally::TallyMetadata;
use constellation::telemetry::{
    EventLogger, LogCategory, LogLevel, MetricsCollector, PerformanceTracer, TelemetryManager,
};
use constellation::types::{ConnectionType, InputType, NodeType, ProcessorType};
use constellation::vulkan::VulkanError;

fn empty_config() -> NodeConfig {
    NodeConfig { parameters: Vec::new() }
}

#[test]
fn test_scene_3d_processor_creation() {
    let processor = Scene3DProcessor::new();
    assert!(processor.is_ok());
}

#[test]
fn test_audio_processor_creation() {
    let processor = AudioProcessor::new(48000, 2);
    assert_eq!(processor.sample_rate, 48000);
    assert_eq!(processor.channels, 2);
}

#[test]
fn test_error_severity() {
    let error = ConstellationError::EngineInitializationFailed { reason: "test".to_string() };
    assert_eq!(error.severity(), ErrorSeverity::Critical);
}

#[test]
fn test_error_category() {
    let error = ConstellationError::NodeNotFound { node_id: uuid::Uuid::new_v4().as_u128() };
    assert_eq!(error.category(), ErrorCategory::Node);
}

#[test]
fn test_user_message() {
    let error = ConstellationError::FileNotFound { path: "/test/path".to_string() };
    assert!(error.user_message().contains("ファイルが見つかりません"));
}

#[test]
fn test_is_recoverable() {
    let critical_error = ConstellationError::HardwareNotSupported { hardware: "GPU".to_string() };
    assert!(!critical_error.is_recoverable());

    let recoverable_error =
        ConstellationError::NodeProcessingFailed { node_id: uuid::Uuid::new_v4().as_u128(), reason: "test".to_string() };
    assert!(recoverable_error.is_recoverable());
}

#[test]
fn test_error_message_text() {
    let error = ConstellationError::FileNotFound { path: "/a".to_string() };
    assert_eq!(error.message(), "File not found: /a");
}

#[test]
fn test_error_classification() {}

#[test]
fn test_health_monitor() {
    let mut monitor = HealthMonitor::new();
    assert_eq!(monitor.frame_processing_failures, 0);

    monitor.frame_processing_failures += 1;
    assert_eq!(monitor.frame_processing_failures, 1);
}

#[test]
fn test_performance_monitor() {
    let mut monitor = PerformanceMonitor::new();

    monitor.record_frame_time(16_000_000);
    assert!(!monitor.is_performance_degraded());

    for _ in 0..15 {
        monitor.record_frame_time(50_000_000);
    }
    assert!(monitor.is_performance_degraded());
}

#[test]
fn test_resilience_strategy_for_memory_errors() {
    let mut manager = ResilienceManager::new();
    let error = ConstellationError::InsufficientMemory { required_bytes: 1024 };
    match manager.handle_error(&error) {
        Ok(RecoveryAction::QualityReduced) => {}
        other => panic!("unexpected action: {:?}", other),
    }
}

#[test]
fn test_node_graph_operations() {
    let mut graph = NodeGraph::new();
    let node_id = uuid::Uuid::new_v4().as_u128();
    let node = Node::new(node_id, NodeType::Input(InputType::Camera), empty_config());

    graph.add_node(node);
    assert!(graph.get_node(&node_id).is_some());
}

#[test]
fn test_node_graph_rejects_cycles() {
    let mut graph = NodeGraph::new();
    let a = 1u128;
    let b = 2u128;
    let c = 3u128;
    for id in [a, b, c] {
        graph.add_node(Node::new(id, NodeType::Input(InputType::Camera), empty_config()));
    }
    assert!(graph.connect_nodes(a, b, ConnectionType::RenderData).is_ok());
    assert!(graph.connect_nodes(b, c, ConnectionType::RenderData).is_ok());
    match graph.connect_nodes(c, a, ConnectionType::RenderData) {
        Err(ConstellationError::ConnectionCycleDetected { path }) => {
            assert_eq!(path, vec![a, b, c, a]);
        }
        other => panic!("expected a cycle, got {:?}", other),
    }
    match graph.connect_nodes(a, 99, ConnectionType::RenderData) {
        Err(ConstellationError::NodeNotFound { node_id }) => assert_eq!(node_id, 99),
        other => panic!("expected a missing node, got {:?}", other),
    }
    match graph.connect_nodes(a, a, ConnectionType::Control) {
        Err(ConstellationError::ConnectionCycleDetected { path }) => assert_eq!(path, vec![a, a]),
        other => panic!("expected a self loop, got {:?}", other),
    }
}

#[test]
fn test_phase_requirements() {
    let requirements = load_hardware_requirements();
    assert_eq!(requirements.phases.len(), 2);
    assert_eq!(requirements.phases[0].0, "phase1");
    assert_eq!(requirements.phases[1].0, "phase2");
    assert_eq!(requirements.phases[0].1.minimum.cpu.min_cores, 4);
    assert_eq!(requirements.phases[1].1.recommended.memory.min_total_gb, 64);
    assert!(requirements.phases[0].1.professional.is_none());
    assert!(requirements.phases[1].1.professional.is_some());
}

#[test]
fn test_hardware_checker_creation() {
    let checker = HardwareCompatibilityChecker::new_or_fallback("x86_64");
    assert!(!checker.requirements.phases.is_empty());
}

#[test]
fn test_compatibility_levels() {
    let level = CompatibilityLevel::FullySupported;
    assert!(matches!(level, CompatibilityLevel::FullySupported));
}

fn checker_with_cores(cores: u32) -> HardwareCompatibilityChecker {
    HardwareCompatibilityChecker {
        system_info: detect_linux_system_info(cores, "x86_64"),
        requirements: load_hardware_requirements(),
        compatibility_report: None,
    }
}

#[test]
fn test_cpu_grades() {
    let checker = checker_with_cores(8);
    let req = CpuRequirement {
        min_cores: 4,
        min_frequency_mhz: 2000,
        required_features: vec![],
        architectures: vec![],
    };
    let r = checker.check_cpu_compatibility(&req);
    assert_eq!(r.status, ComponentStatus::Good);
    assert_eq!(r.details, "8コア, 2800MHz");

    let low = checker_with_cores(2);
    let r = low.check_cpu_compatibility(&req);
    assert_eq!(r.status, ComponentStatus::Insufficient);
    assert_eq!(r.details, "コア数不足: 2コア (要求: 4コア)");
    assert_eq!(r.recommendations.len(), 1);

    let fast = CpuRequirement { min_frequency_mhz: 1800, ..req };
    let r = checker.check_cpu_compatibility(&fast);
    assert_eq!(r.status, ComponentStatus::Excellent);
}

#[test]
fn test_memory_and_storage_grades() {
    let checker = checker_with_cores(8);
    let mem = MemoryRequirement { min_total_gb: 8, min_available_gb: 4, preferred_type: None };
    let r = checker.check_memory_compatibility(&mem);
    assert_eq!(r.status, ComponentStatus::Excellent);
    assert_eq!(r.details, "32.0GB 総容量, 16.0GB 利用可能");

    let big = MemoryRequirement { min_total_gb: 64, min_available_gb: 4, preferred_type: None };
    let r = checker.check_memory_compatibility(&big);
    assert_eq!(r.status, ComponentStatus::Insufficient);
    assert_eq!(r.details, "総メモリ不足: 32.0GB (要求: 64.0GB)");

    let st = StorageRequirement {
        min_free_space_gb: 500,
        preferred_types: vec![],
        min_read_speed_mbps: None,
        min_write_speed_mbps: None,
    };
    let r = checker.check_storage_compatibility(&st);
    assert_eq!(r.status, ComponentStatus::Good);
    assert_eq!(r.details, "1024.0GB 利用可能");
}

#[test]
fn test_gpu_grades() {
    let mut checker = checker_with_cores(8);
    let req = GpuRequirement {
        required: true,
        min_memory_gb: Some(8),
        supported_vendors: vec![],
        required_apis: vec![],
        min_vulkan_version: None,
        professional_features: vec![],
    };
    let r = checker.check_gpu_compatibility(&req);
    assert_eq!(r.status, ComponentStatus::Missing);
    assert_eq!(r.details, "GPUが検出されませんでした");

    checker.system_info.gpu.push(GpuInfo {
        name: "Card".to_string(),
        vendor: "NVIDIA".to_string(),
        device_id: "1".to_string(),
        memory_bytes: 12 * GIB,
        driver_version: "1".to_string(),
        vulkan_version: None,
        opencl_version: None,
        compute_capability: None,
        features: vec![],
    });
    let r = checker.check_gpu_compatibility(&req);
    assert_eq!(r.status, ComponentStatus::Good);
    assert_eq!(r.details, "Card - 12.0GB VRAM");
}

#[test]
fn test_full_compatibility_check() {
    let mut checker = checker_with_cores(8);
    let report = checker.check_compatibility().unwrap();
    assert_eq!(report.overall_compatibility, CompatibilityLevel::NotSupported);
    assert!(report.supported_phases.is_empty());
    assert_eq!(report.phase_reports.len(), 2);
    assert_eq!(report.critical_issues.len(), 2);
    assert_eq!(report.critical_issues[0], "Phase 1: 2D基盤（ローカル）の最小要件を満たしていません");
    assert_eq!(report.recommendations.len(), 3);
    assert!(report.warnings.is_empty());

    let mut with_gpu = checker_with_cores(8);
    with_gpu.system_info.gpu.push(GpuInfo {
        name: "Card".to_string(),
        vendor: "NVIDIA".to_string(),
        device_id: "1".to_string(),
        memory_bytes: 4 * GIB,
        driver_version: "1".to_string(),
        vulkan_version: None,
        opencl_version: None,
        compute_capability: None,
        features: vec![],
    });
    let report = with_gpu.check_compatibility().unwrap();
    assert_eq!(report.overall_compatibility, CompatibilityLevel::PartiallySupported);
    assert_eq!(report.supported_phases, vec!["phase1".to_string()]);
    assert!(check_hardware_admission(report).is_ok());
}

#[test]
fn test_gib_text() {
    assert_eq!(gib_text_of(0), "0.0");
    assert_eq!(gib_text_of(GIB + GIB / 2), "1.5");
    assert_eq!(gib_text_of(GIB / 4), "0.2");
    assert_eq!(gib_text_of(3 * GIB / 4), "0.8");
    assert_eq!(gib_text_of(16 * GIB), "16.0");
}

#[test]
fn test_telemetry_manager_creation() {
    let manager = TelemetryManager::new();
    let stats = manager.get_session_stats();
    assert_eq!(stats.frame_count, 0);
    assert_eq!(stats.error_count, 0);
}

#[test]
fn test_metrics_collection() {
    let mut collector = MetricsCollector::new();
    assert_eq!(collector.frame_count, 0);

    collector.frame_count += 1;
    assert_eq!(collector.frame_count, 1);
}

#[test]
fn test_record_error_logs_event() {
    let mut manager = TelemetryManager::new();
    let error = ConstellationError::FileNotFound { path: "/x".to_string() };
    manager.record_error_at(&error, Some(7), 1234);
    let events = manager.get_events();
    assert_eq!(events.len(), 1);
    assert_eq!(events[0].timestamp, 1234);
    assert_eq!(events[0].level, LogLevel::Error);
    assert_eq!(events[0].category, LogCategory::Engine);
    assert_eq!(events[0].node_id, Some(7));
    assert_eq!(events[0].context.len(), 4);
    let stats = manager.session_stats_at(5);
    assert_eq!(stats.error_count, 1);
    assert_eq!(stats.uptime_us, 5);
}

#[test]
fn test_session_average_frame_time() {
    let mut manager = TelemetryManager::new();
    manager.record_frame_processed(100);
    manager.record_frame_processed(300);
    let stats = manager.session_stats_at(0);
    assert_eq!(stats.frame_count, 2);
    assert_eq!(stats.total_processing_time_us, 400);
    assert_eq!(stats.average_frame_time_ns, Some(200_000));
}

#[test]
fn test_system_state_keeps_peak_and_window() {
    let mut manager = TelemetryManager::new();
    manager.record_system_state(100, 1);
    manager.record_system_state(50, 2);
    for i in 0..150u32 {
        manager.record_system_state(10, i);
    }
    let stats = manager.session_stats_at(0);
    assert_eq!(stats.memory_peak, 100);
}

#[test]
fn test_event_logger_capacity() {
    let mut logger = EventLogger::new(2);
    for t in 0..5u64 {
        logger.record_event(constellation::telemetry::LogEvent {
            timestamp: t,
            level: LogLevel::Info,
            category: LogCategory::System,
            message: String::new(),
            context: vec![],
            session_id: 0,
            node_id: None,
            correlation_id: None,
        });
    }
    let events = logger.get_events();
    assert_eq!(events.len(), 2);
    assert_eq!(events[0].timestamp, 3);
    assert_eq!(events[1].timestamp, 4);
}

#[test]
fn test_spans_finish() {
    let mut tracer = PerformanceTracer::new();
    let span_id = tracer.start_span("test_span".to_string(), None, vec![]);
    tracer.end_span(span_id);
    let completed = tracer.get_completed_spans();
    assert_eq!(completed.len(), 1);
    assert_eq!(completed[0].name, "test_span");
    assert_eq!(completed[0].id, span_id);
    tracer.end_span(span_id);
    assert_eq!(tracer.get_completed_spans().len(), 1);
}

#[test]
fn test_frame_error_steps() {
    let err = ConstellationError::FrameProcessingFailed { reason: "x".to_string() };
    match frame_error_step(None, err) {
        FrameErrorStep::Fail(ConstellationError::FrameProcessingFailed { .. }) => {}
        other => panic!("unexpected {:?}", other),
    }
    let err = ConstellationError::FrameProcessingFailed { reason: "x".to_string() };
    let retry = RecoveryAction::Retry { max_attempts: 3, delay_ms: 100, backoff_multiplier: 2 };
    match frame_error_step(Some(Ok(retry)), err) {
        FrameErrorStep::Retry { max_attempts: 3, delay_ms: 100, backoff_multiplier: 2 } => {}
        other => panic!("unexpected {:?}", other),
    }
    let err = ConstellationError::FrameProcessingFailed { reason: "x".to_string() };
    let shutdown = RecoveryAction::GracefulShutdown { preserve_data: true, cleanup_timeout_ms: 1 };
    match frame_error_step(Some(Ok(shutdown)), err) {
        FrameErrorStep::Fail(ConstellationError::EngineNotRunning) => {}
        other => panic!("unexpected {:?}", other),
    }
    assert_eq!(next_retry_delay(100, 2), 200);
    assert_eq!(next_retry_delay(u64::MAX, 2), u64::MAX);
    assert!(retry_exhausted(3, 3));
    assert!(!retry_exhausted(2, 3));
}

#[test]
fn test_engine_error_mapping() {
    match engine_error(VulkanError::DeviceCreationFailed { reason: "r".to_string() }) {
        ConstellationError::EngineInitializationFailed { reason } => assert_eq!(reason, "r"),
        other => panic!("unexpected {:?}", other),
    }
    match engine_error(VulkanError::InsufficientMemory { required_bytes: 5 }) {
        ConstellationError::InsufficientMemory { required_bytes } => assert_eq!(required_bytes, 5),
        other => panic!("unexpected {:?}", other),
    }
}

#[test]
fn test_engine_refuses_machine_without_gpu() {
    match ConstellationEngine::new("x86_64") {
        Err(ConstellationError::HardwareNotSupported { hardware }) => {
            assert_eq!(hardware, "System does not meet minimum requirements for any phase");
        }
        other => panic!("unexpected {:?}", other.is_ok()),
    }
}

#[test]
fn test_frame_processor() {
    let processor = FrameProcessor::new(5, ProcessorType::PassThrough);
    assert_eq!(processor.node_id, 5);
    assert_eq!(processor.processor_type, ProcessorType::PassThrough);
}

#[test]
fn test_tally_merge() {
    let mut a = TallyMetadata::new().with_program_tally(true);
    a.custom_tally.push(("cam1".to_string(), false));
    let mut b = TallyMetadata::new().with_preview_tally(true);
    b.custom_tally.push(("cam1".to_string(), true));
    b.custom_tally.push(("cam2".to_string(), false));
    a.merge_with(&b);
    assert!(a.program_tally);
    assert!(a.preview_tally);
    assert_eq!(a.custom_tally, vec![("cam1".to_string(), true), ("cam2".to_string(), false)]);
    a.add_to_path(9);
    assert!(a.has_visited(9));
    assert!(!a.has_visited(8));
    assert!(!TallyMetadata::default().should_propagate);
}

#[test]
fn test_node_config_insert_and_get() {
    let mut config = NodeConfig::new();
    config.insert("fps", ParamValue::Integer(30));
    config.insert("fps", ParamValue::Integer(60));
    assert_eq!(config.parameters.len(), 1);
    assert!(matches!(config.get("fps"), Some(ParamValue::Integer(60))));
    assert!(config.get("missing").is_none());
}

#[test]
fn test_constellation_engine_creation() {
    let result = ConstellationEngine::new("x86_64");
    if result.is_err() {
        println!("Engine creation refused on this machine: {:?}", result.err().map(|e| e.message()));
    }
}

#[test]
fn test_parameter_definition() {
    let param = ParameterDefinition {
        name: "brightness".to_string(),
        parameter_type: ParameterType::Float,
        default_value: ParamValue::Json(serde_json::Value::from(1.0)),
        min_value: Some(ParamValue::Json(serde_json::Value::from(0.0))),
        max_value: Some(ParamValue::Json(serde_json::Value::from(2.0))),
        description: "Brightness adjustment".to_string(),
    };
    assert_eq!(param.name, "brightness");
    assert!(matches!(param.default_value, ParamValue::Json(ref v) if *v == serde_json::Value::from(1.0)));
}

#[test]
fn error_messages_show_hyphenated_ids_and_paths() {
    let id = 0x0123_4567_89ab_cdef_0011_2233_4455_6677u128;
    let e = ConstellationError::NodeNotFound { node_id: id };
    assert_eq!(e.message(), "Node not found: 01234567-89ab-cdef-0011-223344556677");
    let cycle = ConstellationError::ConnectionCycleDetected { path: vec![1, 2] };
    assert_eq!(
        cycle.message(),
        "Connection cycle detected: [00000000-0000-0000-0000-000000000001, 00000000-0000-0000-0000-000000000002]"
    );
    assert_eq!(ConstellationError::FrameProcessingTimeout { timeout_ms: 250 }.message(), "Frame processing timeout: 250ms");
}

#[test]
fn json_parameters_copy_to_the_same_value() {
    let mut inner = serde_json::Map::new();
    inner.insert("a".to_string(), serde_json::Value::from("b"));
    let value = serde_json::Value::Array(vec![serde_json::Value::from(1), serde_json::Value::from(2), serde_json::Value::Object(inner)]);
    let v = ParamValue::Json(value.clone());
    match v.duplicate() {
        ParamValue::Json(j) => assert_eq!(j, value),
        other => panic!("unexpected {:?}", other),
    }
}

#[test]
fn span_ids_are_version_four_uuids() {
    let mut tracer = PerformanceTracer::new();
    let a = tracer.start_span("a".to_string(), None, vec![]);
    let b = tracer.start_span("b".to_string(), None, vec![]);
    assert_eq!(uuid::Uuid::from_u128(a).get_version_num(), 4);
    assert_eq!(uuid::Uuid::from_u128(b).get_version_num(), 4);
    assert_ne!(a, b);
}
